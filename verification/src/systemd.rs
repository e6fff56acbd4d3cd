//! Core unit record and scope types, and the unit-name conventions
//! (the fixed `.service` suffix, name extraction from unit file paths).

use crate::text::{ends_with, str_ends_with};
use vstd::prelude::*;
use vstd::string::*;

verus! {

/// One managed service unit, as cached by the engine.
#[derive(Debug)]
pub struct SystemdService {
    pub name: String,
    pub description: String,
    pub load_state: String,
    pub active_state: String,
    pub sub_state: String,
    pub unit_path: String,
    pub unit_file_state: String,
}

/// Mathematical view of a [`SystemdService`]: every field as a sequence of
/// characters.
pub struct UnitView {
    pub name: Seq<char>,
    pub description: Seq<char>,
    pub load_state: Seq<char>,
    pub active_state: Seq<char>,
    pub sub_state: Seq<char>,
    pub unit_path: Seq<char>,
    pub unit_file_state: Seq<char>,
}

impl View for SystemdService {
    type V = UnitView;

    open spec fn view(&self) -> UnitView {
        UnitView {
            name: self.name@,
            description: self.description@,
            load_state: self.load_state@,
            active_state: self.active_state@,
            sub_state: self.sub_state@,
            unit_path: self.unit_path@,
            unit_file_state: self.unit_file_state@,
        }
    }
}

impl DeepView for SystemdService {
    type V = UnitView;

    open spec fn deep_view(&self) -> UnitView {
        self.view()
    }
}

impl Clone for SystemdService {
    fn clone(&self) -> (res: Self)
        ensures
            res == *self,
    {
        SystemdService {
            name: self.name.clone(),
            description: self.description.clone(),
            load_state: self.load_state.clone(),
            active_state: self.active_state.clone(),
            sub_state: self.sub_state.clone(),
            unit_path: self.unit_path.clone(),
            unit_file_state: self.unit_file_state.clone(),
        }
    }
}

/// Which service-manager instance a catalog, selection and poll cadence
/// belong to.
#[derive(Debug, Clone, Copy, PartialEq, Eq, Structural)]
pub enum ServiceScope {
    System,
    User,
}

/// The fixed unit-type suffix every catalog entry's name carries.
pub open spec fn service_suffix() -> Seq<char> {
    ".service"@
}

/// Index of the last path separator in `p`, or `-1` if there is none.
pub open spec fn last_slash(p: Seq<char>) -> int
    decreases p.len(),
{
    if p.len() == 0 {
        -1
    } else if p[p.len() - 1] == '/' {
        p.len() - 1
    } else {
        last_slash(p.drop_last())
    }
}

/// The terminal path segment of `p`: everything after the last separator.
pub open spec fn unit_name_of_path(p: Seq<char>) -> Seq<char> {
    p.subrange(last_slash(p) + 1, p.len() as int)
}

pub proof fn lemma_last_slash_at(p: Seq<char>, k: int)
    requires
        0 <= k < p.len(),
        p[k] == '/',
        forall|j: int| k < j < p.len() ==> p[j] != '/',
    ensures
        last_slash(p) == k,
    decreases p.len(),
{
    if p[p.len() - 1] != '/' {
        lemma_last_slash_at(p.drop_last(), k);
    }
}

pub proof fn lemma_last_slash_none(p: Seq<char>)
    requires
        forall|j: int| 0 <= j < p.len() ==> p[j] != '/',
    ensures
        last_slash(p) == -1,
    decreases p.len(),
{
    if p.len() > 0 {
        lemma_last_slash_none(p.drop_last());
    }
}

/// Derive a unit name from a unit file path: the segment after the last
/// path separator.
pub fn extract_unit_name(path: &str) -> (r: String)
    ensures
        r@ == unit_name_of_path(path@),
{
    let n = path.unicode_len();
    let mut i: usize = n;
    loop
        invariant
            i <= n,
            n == path@.len(),
            forall|j: int| i <= j < n ==> path@[j] != '/',
        decreases i,
    {
        if i == 0 {
            proof {
                lemma_last_slash_none(path@);
            }
            return path.to_owned();
        }
        if path.get_char(i - 1) == '/' {
            proof {
                lemma_last_slash_at(path@, i - 1);
            }
            let r = path.substring_char(i, n);
            return r.to_owned();
        }
        i -= 1;
    }
}

/// The unit name with the unit-type suffix appended where it is absent.
pub open spec fn spec_normalize(name: Seq<char>) -> Seq<char> {
    if ends_with(name, service_suffix()) {
        name
    } else {
        name + service_suffix()
    }
}

/// Append the fixed unit-type suffix to `name` unless it already carries it.
pub fn normalize_unit_name(name: &str) -> (r: String)
    ensures
        r@ == spec_normalize(name@),
{
    if str_ends_with(name, ".service") {
        name.to_owned()
    } else {
        let mut r = name.to_owned();
        r.append(".service");
        r
    }
}

/// Suffix normalization is idempotent: a name that already carries the
/// unit-type suffix is left as it is, so normalizing twice is normalizing
/// once.
pub proof fn lemma_normalize_idempotent(name: Seq<char>)
    ensures
        spec_normalize(spec_normalize(name)) == spec_normalize(name),
{
    if !ends_with(name, service_suffix()) {
        let full = name + service_suffix();
        assert(full.subrange(full.len() - service_suffix().len(), full.len() as int)
            =~= service_suffix());
    }
}

/// The enablement state under which the toggle control is shown as on.
pub fn unit_is_enabled(unit: &SystemdService) -> (r: bool)
    ensures
        r == (unit@.unit_file_state == "enabled"@),
{
    unit.unit_file_state.eq(&String::from_str("enabled"))
}

/// Only a unit the host reports as enabled or disabled can be toggled;
/// any other enablement state leaves the control inert.
pub fn unit_can_toggle(unit: &SystemdService) -> (r: bool)
    ensures
        r == (unit@.unit_file_state == "enabled"@ || unit@.unit_file_state == "disabled"@),
{
    unit.unit_file_state.eq(&String::from_str("enabled")) || unit.unit_file_state.eq(
        &String::from_str("disabled"),
    )
}

/// A unit whose substate is `running` offers stop in place of start.
pub fn unit_is_running(unit: &SystemdService) -> (r: bool)
    ensures
        r == (unit@.sub_state == "running"@),
{
    unit.sub_state.eq(&String::from_str("running"))
}

} // verus!
