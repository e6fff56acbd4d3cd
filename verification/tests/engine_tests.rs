use ctl_dash::catalog::{assemble_catalog, plan_catalog, PropertyReads, UnitFile};
use ctl_dash::commands::{interpret_exit, BusAction, EngineError, UnitAction};
use ctl_dash::engine::{find_unit_exec, search_catalog, Command, Reconciler};
use ctl_dash::message::Message;
use ctl_dash::systemd::{ServiceScope, SystemdService};
use ctl_dash::types::{ContextPage, MenuAction, Page};

fn unit(name: &str, description: &str, sub_state: &str) -> SystemdService {
    SystemdService {
        name: name.to_string(),
        description: description.to_string(),
        load_state: "loaded".to_string(),
        active_state: "active".to_string(),
        sub_state: sub_state.to_string(),
        unit_path: format!("/x/{}", name),
        unit_file_state: "enabled".to_string(),
    }
}

#[test]
fn initial_state_is_empty_system_list() {
    let engine = Reconciler::new();
    assert!(engine.system_services.is_empty());
    assert!(engine.user_services.is_empty());
    assert!(engine.selected_service.is_none());
    assert_eq!(engine.current_scope, ServiceScope::System);
    assert_eq!(engine.current_page, Page::SystemServices);
    assert_eq!(engine.service_logs, "");
    assert!(!engine.is_loading);
    assert_eq!(engine.search_filter, "");
    assert!(!engine.show_context);
}

#[test]
fn rebind_takes_first_match() {
    let units = vec![
        unit("foo.service", "first", "running"),
        unit("foo.service", "second", "dead"),
    ];
    let found = find_unit_exec(&units, &"foo.service".to_string()).unwrap();
    assert_eq!(found.description, "first");
    assert!(find_unit_exec(&units, &"bar.service".to_string()).is_none());
}

#[test]
fn load_services_marks_loading_and_reloads() {
    let mut engine = Reconciler::new();
    assert!(!engine.is_loading);
    let cmds = engine.handle(Message::LoadServices(Some(ServiceScope::User)));
    assert!(engine.is_loading);
    assert_eq!(engine.current_scope, ServiceScope::User);
    assert_eq!(cmds.len(), 1);
    assert!(matches!(cmds[0], Command::Reload(ServiceScope::User)));
}

#[test]
fn selection_survives_refresh() {
    let mut engine = Reconciler::new();
    engine.handle(Message::ServicesLoaded(
        ServiceScope::System,
        vec![unit("foo.service", "Foo daemon", "running")],
    ));
    engine.handle(Message::SelectService(unit("foo.service", "Foo daemon", "running")));

    let cmds = engine.handle(Message::ServicesLoaded(
        ServiceScope::System,
        vec![unit("foo.service", "Foo daemon", "dead")],
    ));

    let sel = engine.selected_service.as_ref().expect("selection must survive");
    assert_eq!(sel.name, "foo.service");
    assert_eq!(sel.sub_state, "dead");
    assert_eq!(cmds.len(), 1);
    assert!(matches!(&cmds[0], Command::FetchLogs(ServiceScope::System, n) if n == "foo.service"));
}

#[test]
fn selection_lost_on_refresh() {
    let mut engine = Reconciler::new();
    engine.handle(Message::ServicesLoaded(
        ServiceScope::System,
        vec![unit("foo.service", "Foo daemon", "running")],
    ));
    engine.handle(Message::SelectService(unit("foo.service", "Foo daemon", "running")));

    let cmds = engine.handle(Message::ServicesLoaded(
        ServiceScope::System,
        vec![unit("bar.service", "Bar daemon", "running")],
    ));

    assert!(engine.selected_service.is_none());
    assert!(cmds.is_empty(), "no log fetch may be issued for a lost selection");
}

#[test]
fn omitted_path_clears_selection_on_next_poll() {
    let mut engine = Reconciler::new();
    let first = vec![UnitFile {
        path: "/x/foo.service".to_string(),
        unit_file_state: "enabled".to_string(),
    }];
    let cands = plan_catalog(&first);
    let props = vec![PropertyReads {
        description: Some("Foo daemon".to_string()),
        load_state: Some("loaded".to_string()),
        active_state: Some("active".to_string()),
        sub_state: Some("running".to_string()),
    }];
    let catalog = assemble_catalog(&cands, &props);
    engine.handle(Message::ServicesLoaded(ServiceScope::System, catalog));
    engine.handle(Message::SelectService(unit("foo.service", "Foo daemon", "running")));
    assert!(engine.selected_service.is_some());

    let second: Vec<UnitFile> = Vec::new();
    let cands2 = plan_catalog(&second);
    let catalog2 = assemble_catalog(&cands2, &Vec::new());
    let cmds = engine.handle(Message::ServicesLoaded(ServiceScope::System, catalog2));

    assert!(engine.selected_service.is_none());
    assert!(cmds.is_empty());
}

#[test]
fn enable_dispatch_idempotent() {
    let mut engine = Reconciler::new();
    engine.handle(Message::ServicesLoaded(
        ServiceScope::System,
        vec![unit("foo.service", "Foo daemon", "running")],
    ));

    let before_len = engine.system_services.len();
    let cmds1 = engine.handle(Message::EnableService("foo.service".to_string()));
    let cmds2 = engine.handle(Message::EnableService("foo.service".to_string()));

    assert_eq!(engine.system_services.len(), before_len);
    assert_eq!(engine.system_services[0].unit_file_state, "enabled");
    assert!(engine.selected_service.is_none());
    assert!(!engine.is_loading);
    assert_eq!(cmds1.len(), 1);
    assert_eq!(cmds2.len(), 1);
    assert!(matches!(&cmds1[0], Command::Elevate(UnitAction::Enable, n) if n == "foo.service"));
    assert!(matches!(&cmds2[0], Command::Elevate(UnitAction::Enable, n) if n == "foo.service"));
}

#[test]
fn elevation_failure_still_triggers_reload() {
    let mut engine = Reconciler::new();
    let cmds = engine.handle(Message::DisableService("foo.service".to_string()));
    assert_eq!(cmds.len(), 1);
    assert!(matches!(&cmds[0], Command::Elevate(UnitAction::Disable, n) if n == "foo.service"));

    // The runner exits 1 with a captured error stream: surfaced, never
    // swallowed.
    let outcome = interpret_exit(false, "not authorized".to_string());
    assert!(matches!(outcome, Err(EngineError::CommandFailed(ref s)) if s == "not authorized"));

    // Completion, success or failure, triggers exactly one reload.
    let cmds = engine.handle(Message::ServiceActionComplete);
    assert!(engine.is_loading);
    assert_eq!(cmds.len(), 1);
    assert!(matches!(cmds[0], Command::Reload(ServiceScope::System)));
}

#[test]
fn bus_actions_fire_and_forget() {
    let mut engine = Reconciler::new();
    let start = engine.handle(Message::StartService("a.service".to_string()));
    let stop = engine.handle(Message::StopService("a.service".to_string()));
    let restart = engine.handle(Message::RestartService("a.service".to_string()));
    assert!(matches!(&start[0], Command::Invoke(ServiceScope::System, BusAction::Start, n) if n == "a.service"));
    assert!(matches!(&stop[0], Command::Invoke(ServiceScope::System, BusAction::Stop, n) if n == "a.service"));
    assert!(
        matches!(&restart[0], Command::Invoke(ServiceScope::System, BusAction::Restart, n) if n == "a.service")
    );
    assert!(!engine.is_loading);
}

#[test]
fn select_fetches_logs_and_stale_logs_discarded() {
    let mut engine = Reconciler::new();
    let cmds = engine.handle(Message::SelectService(unit("foo.service", "Foo daemon", "running")));
    assert!(matches!(&cmds[0], Command::FetchLogs(ServiceScope::System, n) if n == "foo.service"));

    engine.handle(Message::LogsLoaded("recent entries".to_string()));
    assert_eq!(engine.service_logs, "recent entries");

    engine.handle(Message::BackToList);
    assert!(engine.selected_service.is_none());
    assert_eq!(engine.current_page, Page::SystemServices);

    // A log fetch still in flight lands after deselection: discarded.
    engine.handle(Message::LogsLoaded("stale entries".to_string()));
    assert_eq!(engine.service_logs, "recent entries");
}

#[test]
fn tick_refreshes_only_while_selected() {
    let mut engine = Reconciler::new();
    assert!(engine.handle(Message::Tick).is_empty());

    engine.handle(Message::SelectService(unit("foo.service", "Foo daemon", "running")));
    let cmds = engine.handle(Message::Tick);
    assert_eq!(cmds.len(), 1);
    assert!(
        matches!(&cmds[0], Command::RefreshSelected(ServiceScope::System, n) if n == "foo.service")
    );
}

#[test]
fn targeted_refresh_updates_selection_and_list_entry() {
    let mut engine = Reconciler::new();
    engine.handle(Message::ServicesLoaded(
        ServiceScope::System,
        vec![unit("foo.service", "Foo daemon", "running"), unit("bar.service", "Bar", "running")],
    ));
    engine.handle(Message::SelectService(unit("foo.service", "Foo daemon", "running")));

    engine.handle(Message::CurrentServiceRefreshed(
        Some(unit("foo.service", "Foo daemon", "dead")),
        "fresh logs".to_string(),
    ));

    assert_eq!(engine.selected_service.as_ref().unwrap().sub_state, "dead");
    assert_eq!(engine.service_logs, "fresh logs");
    assert_eq!(engine.system_services[0].sub_state, "dead");
    assert_eq!(engine.system_services[1].sub_state, "running");
}

#[test]
fn targeted_refresh_discards_stale_record() {
    let mut engine = Reconciler::new();
    engine.handle(Message::ServicesLoaded(
        ServiceScope::System,
        vec![unit("foo.service", "Foo daemon", "running")],
    ));
    engine.handle(Message::SelectService(unit("bar.service", "Bar daemon", "running")));

    engine.handle(Message::CurrentServiceRefreshed(
        Some(unit("foo.service", "Foo daemon", "dead")),
        "foo logs".to_string(),
    ));

    let sel = engine.selected_service.as_ref().unwrap();
    assert_eq!(sel.name, "bar.service");
    assert_eq!(engine.service_logs, "");
    assert_eq!(engine.system_services[0].sub_state, "running");
}

#[test]
fn targeted_refresh_clears_vanished_selection() {
    let mut engine = Reconciler::new();
    engine.handle(Message::SelectService(unit("foo.service", "Foo daemon", "running")));
    engine.handle(Message::CurrentServiceRefreshed(None, String::new()));
    assert!(engine.selected_service.is_none());
}

#[test]
fn search_filter_is_case_insensitive_projection() {
    let units = vec![
        unit("foo.service", "Foo daemon", "running"),
        unit("bar.service", "Audio mixer", "running"),
    ];

    let all = search_catalog(&units, "");
    assert_eq!(all.len(), 2);

    let by_name = search_catalog(&units, "FOO");
    assert_eq!(by_name.len(), 1);
    assert_eq!(by_name[0].name, "foo.service");

    let by_description = search_catalog(&units, "MIXER");
    assert_eq!(by_description.len(), 1);
    assert_eq!(by_description[0].name, "bar.service");

    let none = search_catalog(&units, "nothing-like-this");
    assert!(none.is_empty());
}

#[test]
fn search_filter_reapplied_after_cache_mutation() {
    let mut engine = Reconciler::new();
    engine.handle(Message::SearchFilterChanged("foo".to_string()));
    assert_eq!(engine.search_filter, "foo");

    engine.handle(Message::ServicesLoaded(
        ServiceScope::System,
        vec![unit("foo.service", "Foo daemon", "running"), unit("bar.service", "Bar", "running")],
    ));
    let shown = search_catalog(&engine.system_services, &engine.search_filter);
    assert_eq!(shown.len(), 1);
    assert_eq!(shown[0].name, "foo.service");
}

#[test]
fn scope_page_switch_resets_selection_and_filter() {
    let mut engine = Reconciler::new();
    engine.handle(Message::SelectService(unit("foo.service", "Foo daemon", "running")));
    engine.handle(Message::SearchFilterChanged("foo".to_string()));

    let cmds = engine.select_page(Page::UserServices);
    assert!(engine.selected_service.is_none());
    assert_eq!(engine.search_filter, "");
    assert_eq!(engine.current_page, Page::UserServices);
    assert_eq!(engine.current_scope, ServiceScope::User);
    assert!(engine.is_loading);
    assert!(matches!(cmds[0], Command::Reload(ServiceScope::User)));
}

#[test]
fn context_page_toggles_and_menu_action() {
    let mut engine = Reconciler::new();
    assert!(!engine.show_context);

    let msg = MenuAction::About.message();
    assert!(matches!(msg, Message::ToggleContextPage(ContextPage::About)));

    engine.handle(msg);
    assert!(engine.show_context);
    engine.handle(Message::ToggleContextPage(ContextPage::About));
    assert!(!engine.show_context);
}

#[test]
fn launch_url_is_delegated() {
    let engine = Reconciler::new();
    let cmds = engine.launch_url("https://example.invalid/docs".to_string());
    assert!(matches!(&cmds[0], Command::OpenUrl(u) if u == "https://example.invalid/docs"));
}
