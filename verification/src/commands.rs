//! Composition of the external command lines the engine relies on, and the
//! interpretation of their outcomes. Execution itself is the embedding
//! program's concern; the engine fixes exactly what is invoked.

use crate::systemd::{spec_normalize, normalize_unit_name};
use crate::text::{dec_str, u32_to_dec};
use vstd::prelude::*;
use vstd::string::*;

verus! {

/// How many recent log entries a selection's log fetch asks for.
pub const LOG_LINES: u32 = 100;

/// A state change that needs privilege elevation.
#[derive(Debug, Clone, Copy, PartialEq, Eq, Structural)]
pub enum UnitAction {
    Enable,
    Disable,
}

/// A state change issued over the bus against the service manager.
#[derive(Debug, Clone, Copy, PartialEq, Eq, Structural)]
pub enum BusAction {
    Start,
    Stop,
    Restart,
}

/// How an engine operation fails.
#[derive(Debug)]
pub enum EngineError {
    /// The scope's bus connection could not be opened; fatal to the
    /// triggering operation alone.
    BusUnavailable,
    /// A unit could not be resolved; degrades per unit, never fatal.
    NotFound,
    /// A per-unit property read failed; degrades per field, never fatal.
    PropertyUnavailable,
    /// A privileged or log command exited non-zero; carries the captured
    /// error stream.
    CommandFailed(String),
    /// The subprocess could not even be spawned.
    ExecutionError(String),
}

pub open spec fn action_word(a: UnitAction) -> Seq<char> {
    match a {
        UnitAction::Enable => "enable"@,
        UnitAction::Disable => "disable"@,
    }
}

pub open spec fn bus_method_name(a: BusAction) -> Seq<char> {
    match a {
        BusAction::Start => "StartUnit"@,
        BusAction::Stop => "StopUnit"@,
        BusAction::Restart => "RestartUnit"@,
    }
}

/// The service-manager method invoked for one bus action.
pub fn bus_method(a: BusAction) -> (r: &'static str)
    ensures
        r@ == bus_method_name(a),
{
    match a {
        BusAction::Start => "StartUnit",
        BusAction::Stop => "StopUnit",
        BusAction::Restart => "RestartUnit",
    }
}

/// The fixed job mode every bus action is invoked with.
pub fn bus_replace_mode() -> (r: &'static str)
    ensures
        r@ == "replace"@,
{
    "replace"
}

/// The elevated command line for one unit action: inside a sandbox the
/// target is wrapped by a sandbox escape before privilege elevation,
/// otherwise elevation alone precedes it.
pub open spec fn spec_elevated_command(a: UnitAction, name: Seq<char>, sandboxed: bool) -> Seq<
    Seq<char>,
> {
    let base = seq!["pkexec"@, "systemctl"@, action_word(a), name];
    if sandboxed {
        seq!["flatpak-spawn"@, "--host"@] + base
    } else {
        base
    }
}

fn action_str(a: UnitAction) -> (r: &'static str)
    ensures
        r@ == action_word(a),
{
    match a {
        UnitAction::Enable => "enable",
        UnitAction::Disable => "disable",
    }
}

/// Compose the command line that enables or disables one unit.
pub fn build_elevated_command(a: UnitAction, name: &str, sandboxed: bool) -> (r: Vec<String>)
    ensures
        r.deep_view() == spec_elevated_command(a, name@, sandboxed),
{
    let mut r: Vec<String> = Vec::new();
    if sandboxed {
        r.push(String::from_str("flatpak-spawn"));
        r.push(String::from_str("--host"));
    }
    r.push(String::from_str("pkexec"));
    r.push(String::from_str("systemctl"));
    r.push(String::from_str(action_str(a)));
    r.push(name.to_owned());
    proof {
        assert(r.deep_view() =~= spec_elevated_command(a, name@, sandboxed));
    }
    r
}

/// The log-query command line for one unit: the unit name normalized to
/// carry the unit-type suffix, the line bound rendered in decimal, no pager,
/// and the same sandbox-escape wrapping as elevated commands.
pub open spec fn spec_log_command(name: Seq<char>, lines: u32, sandboxed: bool) -> Seq<Seq<char>> {
    let base = seq![
        "journalctl"@,
        "-u"@,
        spec_normalize(name),
        "-n"@,
        dec_str(lines as nat),
        "--no-pager"@,
    ];
    if sandboxed {
        seq!["flatpak-spawn"@, "--host"@] + base
    } else {
        base
    }
}

/// Compose the command line that fetches the most recent `lines` log entries
/// for one unit.
pub fn build_log_command(name: &str, lines: u32, sandboxed: bool) -> (r: Vec<String>)
    ensures
        r.deep_view() == spec_log_command(name@, lines, sandboxed),
{
    let mut r: Vec<String> = Vec::new();
    if sandboxed {
        r.push(String::from_str("flatpak-spawn"));
        r.push(String::from_str("--host"));
    }
    r.push(String::from_str("journalctl"));
    r.push(String::from_str("-u"));
    r.push(normalize_unit_name(name));
    r.push(String::from_str("-n"));
    r.push(u32_to_dec(lines));
    r.push(String::from_str("--no-pager"));
    proof {
        assert(r.deep_view() =~= spec_log_command(name@, lines, sandboxed));
    }
    r
}

/// Suffix normalization is transparent to the log invocation: a name that
/// already carries the unit-type suffix produces the same command line as
/// the bare name it normalizes from.
pub proof fn lemma_log_command_suffix_stable(name: Seq<char>, lines: u32, sandboxed: bool)
    ensures
        spec_log_command(spec_normalize(name), lines, sandboxed) == spec_log_command(
            name,
            lines,
            sandboxed,
        ),
{
    crate::systemd::lemma_normalize_idempotent(name);
    assert(spec_log_command(spec_normalize(name), lines, sandboxed) =~= spec_log_command(
        name,
        lines,
        sandboxed,
    ));
}

/// Interpret one finished elevated command: exit success is success, and a
/// non-zero exit carries the captured error stream, never swallowed.
pub fn interpret_exit(success: bool, stderr: String) -> (r: Result<(), EngineError>)
    ensures
        r == (if success {
            Result::<(), EngineError>::Ok(())
        } else {
            Result::<(), EngineError>::Err(EngineError::CommandFailed(stderr))
        }),
{
    if success {
        Ok(())
    } else {
        Err(EngineError::CommandFailed(stderr))
    }
}

} // verus!
