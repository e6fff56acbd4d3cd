use ctl_dash::catalog::{assemble_catalog, build_unit, plan_catalog, Candidate, PropertyReads, UnitFile};
use ctl_dash::commands::{
    build_elevated_command, build_log_command, bus_method, bus_replace_mode, interpret_exit,
    BusAction, EngineError, UnitAction,
};
use ctl_dash::text::u32_to_dec;

fn file(path: &str, state: &str) -> UnitFile {
    UnitFile { path: path.to_string(), unit_file_state: state.to_string() }
}

fn reads(
    description: Option<&str>,
    load_state: Option<&str>,
    active_state: Option<&str>,
    sub_state: Option<&str>,
) -> PropertyReads {
    PropertyReads {
        description: description.map(|s| s.to_string()),
        load_state: load_state.map(|s| s.to_string()),
        active_state: active_state.map(|s| s.to_string()),
        sub_state: sub_state.map(|s| s.to_string()),
    }
}

#[test]
fn full_reload_builds_expected_record() {
    let files = vec![file("/x/foo.service", "enabled")];
    let cands = plan_catalog(&files);
    assert_eq!(cands.len(), 1);
    assert_eq!(cands[0].name, "foo.service");

    let props = vec![reads(Some("Foo daemon"), Some("loaded"), Some("active"), Some("running"))];
    let catalog = assemble_catalog(&cands, &props);
    assert_eq!(catalog.len(), 1);
    let unit = &catalog[0];
    assert_eq!(unit.name, "foo.service");
    assert_eq!(unit.description, "Foo daemon");
    assert_eq!(unit.load_state, "loaded");
    assert_eq!(unit.active_state, "active");
    assert_eq!(unit.sub_state, "running");
    assert_eq!(unit.unit_path, "/x/foo.service");
    assert_eq!(unit.unit_file_state, "enabled");
}

#[test]
fn degrade_on_partial_failure() {
    let cand = Candidate {
        name: "foo.service".to_string(),
        path: "/x/foo.service".to_string(),
        unit_file_state: "enabled".to_string(),
    };
    let props = reads(Some("Foo daemon"), Some("loaded"), None, Some("running"));
    let unit = build_unit(&cand, &props);
    assert_eq!(unit.active_state, "inactive");
    assert_eq!(unit.description, "Foo daemon");
    assert_eq!(unit.load_state, "loaded");
    assert_eq!(unit.sub_state, "running");
}

#[test]
fn degrade_on_total_failure() {
    let cand = Candidate {
        name: "foo.service".to_string(),
        path: "/x/foo.service".to_string(),
        unit_file_state: "disabled".to_string(),
    };
    let unit = build_unit(&cand, &reads(None, None, None, None));
    assert_eq!(unit.description, "");
    assert_eq!(unit.load_state, "not-loaded");
    assert_eq!(unit.active_state, "inactive");
    assert_eq!(unit.sub_state, "dead");
    assert_eq!(unit.unit_file_state, "disabled");
}

#[test]
fn plan_filters_and_deduplicates() {
    let files = vec![
        file("/x/foo.service", "enabled"),
        file("/x/bar.timer", "enabled"),
        file("/y/foo.service", "disabled"),
        file("/x/baz.service", "static"),
    ];
    let cands = plan_catalog(&files);
    assert_eq!(cands.len(), 2);
    assert_eq!(cands[0].name, "foo.service");
    assert_eq!(cands[0].path, "/x/foo.service");
    assert_eq!(cands[0].unit_file_state, "enabled");
    assert_eq!(cands[1].name, "baz.service");
    for c in &cands {
        assert!(c.name.ends_with(".service"));
    }
}

#[test]
fn catalog_names_unique_and_suffixed() {
    let files = vec![
        file("/a/one.service", "enabled"),
        file("/b/one.service", "disabled"),
        file("/a/two.service", "disabled"),
        file("/a/README", "enabled"),
    ];
    let cands = plan_catalog(&files);
    let props: Vec<PropertyReads> =
        (0..cands.len()).map(|_| reads(None, None, None, None)).collect();
    let catalog = assemble_catalog(&cands, &props);
    assert_eq!(catalog.len(), 2);
    for (i, u) in catalog.iter().enumerate() {
        assert!(u.name.ends_with(".service"));
        for v in catalog.iter().skip(i + 1) {
            assert_ne!(u.name, v.name);
        }
    }
}

#[test]
fn elevated_command_unsandboxed() {
    let cmd = build_elevated_command(UnitAction::Enable, "foo.service", false);
    assert_eq!(cmd, vec!["pkexec", "systemctl", "enable", "foo.service"]);
}

#[test]
fn elevated_command_sandboxed() {
    let cmd = build_elevated_command(UnitAction::Disable, "foo.service", true);
    assert_eq!(
        cmd,
        vec!["flatpak-spawn", "--host", "pkexec", "systemctl", "disable", "foo.service"]
    );
}

#[test]
fn log_command_normalizes_and_bounds() {
    let cmd = build_log_command("foo", 100, false);
    assert_eq!(cmd, vec!["journalctl", "-u", "foo.service", "-n", "100", "--no-pager"]);
}

#[test]
fn log_command_sandboxed() {
    let cmd = build_log_command("foo.service", 50, true);
    assert_eq!(
        cmd,
        vec!["flatpak-spawn", "--host", "journalctl", "-u", "foo.service", "-n", "50", "--no-pager"]
    );
}

#[test]
fn log_command_suffix_round_trip() {
    assert_eq!(build_log_command("foo", 100, false), build_log_command("foo.service", 100, false));
    assert_eq!(build_log_command("foo", 7, true), build_log_command("foo.service", 7, true));
}

#[test]
fn decimal_rendering() {
    assert_eq!(u32_to_dec(0), "0");
    assert_eq!(u32_to_dec(7), "7");
    assert_eq!(u32_to_dec(10), "10");
    assert_eq!(u32_to_dec(100), "100");
    assert_eq!(u32_to_dec(4294967295), "4294967295");
}

#[test]
fn bus_invocation_words() {
    assert_eq!(bus_method(BusAction::Start), "StartUnit");
    assert_eq!(bus_method(BusAction::Stop), "StopUnit");
    assert_eq!(bus_method(BusAction::Restart), "RestartUnit");
    assert_eq!(bus_replace_mode(), "replace");
}

#[test]
fn exit_interpretation() {
    assert!(interpret_exit(true, String::new()).is_ok());
    let r = interpret_exit(false, "not authorized".to_string());
    assert!(matches!(r, Err(EngineError::CommandFailed(ref s)) if s == "not authorized"));
}
