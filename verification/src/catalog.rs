//! Unit catalog construction: plan candidates from a unit-file listing,
//! then assemble one record per candidate from per-unit property reads,
//! degrading each missing property to its documented default.

use crate::systemd::{extract_unit_name, service_suffix, unit_name_of_path, SystemdService, UnitView};
use crate::text::{ends_with, str_ends_with};
use vstd::prelude::*;
use vstd::string::*;

verus! {

/// One entry of the unit-file enumeration: the backing path and the
/// enablement state the listing reported for it.
pub struct UnitFile {
    pub path: String,
    pub unit_file_state: String,
}

pub struct UnitFileView {
    pub path: Seq<char>,
    pub unit_file_state: Seq<char>,
}

impl View for UnitFile {
    type V = UnitFileView;

    open spec fn view(&self) -> UnitFileView {
        UnitFileView { path: self.path@, unit_file_state: self.unit_file_state@ }
    }
}

impl DeepView for UnitFile {
    type V = UnitFileView;

    open spec fn deep_view(&self) -> UnitFileView {
        self.view()
    }
}

/// A planned catalog entry: the unit name derived from the path, awaiting
/// its per-unit property reads.
pub struct Candidate {
    pub name: String,
    pub path: String,
    pub unit_file_state: String,
}

pub struct CandidateView {
    pub name: Seq<char>,
    pub path: Seq<char>,
    pub unit_file_state: Seq<char>,
}

impl View for Candidate {
    type V = CandidateView;

    open spec fn view(&self) -> CandidateView {
        CandidateView {
            name: self.name@,
            path: self.path@,
            unit_file_state: self.unit_file_state@,
        }
    }
}

impl DeepView for Candidate {
    type V = CandidateView;

    open spec fn deep_view(&self) -> CandidateView {
        self.view()
    }
}

/// The outcome of the four per-unit property reads; `None` records a failed
/// read, which degrades to that property's documented default.
pub struct PropertyReads {
    pub description: Option<String>,
    pub load_state: Option<String>,
    pub active_state: Option<String>,
    pub sub_state: Option<String>,
}

pub struct PropertyReadsView {
    pub description: Option<Seq<char>>,
    pub load_state: Option<Seq<char>>,
    pub active_state: Option<Seq<char>>,
    pub sub_state: Option<Seq<char>>,
}

impl View for PropertyReads {
    type V = PropertyReadsView;

    open spec fn view(&self) -> PropertyReadsView {
        PropertyReadsView {
            description: self.description.deep_view(),
            load_state: self.load_state.deep_view(),
            active_state: self.active_state.deep_view(),
            sub_state: self.sub_state.deep_view(),
        }
    }
}

impl DeepView for PropertyReads {
    type V = PropertyReadsView;

    open spec fn deep_view(&self) -> PropertyReadsView {
        self.view()
    }
}

/// Some candidate in `cands` already carries `name`.
pub open spec fn has_name(cands: Seq<CandidateView>, name: Seq<char>) -> bool {
    exists|i: int| 0 <= i < cands.len() && #[trigger] cands[i].name == name
}

/// The candidate list planned from a unit-file listing: paths whose terminal
/// segment carries the unit-type suffix, in listing order, first occurrence
/// of each name only.
pub open spec fn spec_plan(files: Seq<UnitFileView>) -> Seq<CandidateView>
    decreases files.len(),
{
    if files.len() == 0 {
        Seq::empty()
    } else {
        let rest = spec_plan(files.drop_last());
        let f = files.last();
        let name = unit_name_of_path(f.path);
        if ends_with(name, service_suffix()) && !has_name(rest, name) {
            rest.push(CandidateView { name, path: f.path, unit_file_state: f.unit_file_state })
        } else {
            rest
        }
    }
}

fn catalog_has_name(cands: &Vec<Candidate>, name: &String) -> (r: bool)
    ensures
        r == has_name(cands.deep_view(), name@),
{
    let mut k: usize = 0;
    while k < cands.len()
        invariant
            k <= cands.len(),
            forall|i: int| 0 <= i < k ==> #[trigger] cands.deep_view()[i].name != name@,
        decreases cands.len() - k,
    {
        if cands[k].name.eq(name) {
            proof {
                assert(cands.deep_view()[k as int].name == name@);
            }
            return true;
        }
        k += 1;
    }
    false
}

/// Plan the catalog entries for one unit-file listing.
pub fn plan_catalog(files: &Vec<UnitFile>) -> (r: Vec<Candidate>)
    ensures
        r.deep_view() == spec_plan(files.deep_view()),
{
    let mut r: Vec<Candidate> = Vec::new();
    let mut i: usize = 0;
    proof {
        assert(r.deep_view() =~= spec_plan(files.deep_view().take(0)));
    }
    while i < files.len()
        invariant
            i <= files.len(),
            r.deep_view() == spec_plan(files.deep_view().take(i as int)),
        decreases files.len() - i,
    {
        let name = extract_unit_name(&files[i].path);
        proof {
            assert(files.deep_view().take(i + 1).drop_last() =~= files.deep_view().take(
                i as int,
            ));
            assert(files.deep_view().take(i + 1).last() == files.deep_view()[i as int]);
        }
        if str_ends_with(name.as_str(), ".service") && !catalog_has_name(&r, &name) {
            let ghost prev = r.deep_view();
            let path = files[i].path.clone();
            let unit_file_state = files[i].unit_file_state.clone();
            r.push(Candidate { name, path, unit_file_state });
            proof {
                assert(r.deep_view() =~= prev.push(
                    CandidateView {
                        name: unit_name_of_path(files.deep_view()[i as int].path),
                        path: files.deep_view()[i as int].path,
                        unit_file_state: files.deep_view()[i as int].unit_file_state,
                    },
                ));
            }
        }
        i += 1;
    }
    proof {
        assert(files.deep_view().take(files.len() as int) =~= files.deep_view());
    }
    r
}

pub open spec fn or_default(v: Option<Seq<char>>, d: Seq<char>) -> Seq<char> {
    match v {
        Some(s) => s,
        None => d,
    }
}

/// The record assembled for one candidate: the four live properties where
/// their reads succeeded, the documented defaults where they failed.
pub open spec fn spec_build_unit(c: CandidateView, p: PropertyReadsView) -> UnitView {
    UnitView {
        name: c.name,
        description: or_default(p.description, ""@),
        load_state: or_default(p.load_state, "not-loaded"@),
        active_state: or_default(p.active_state, "inactive"@),
        sub_state: or_default(p.sub_state, "dead"@),
        unit_path: c.path,
        unit_file_state: c.unit_file_state,
    }
}

fn prop_or_default(v: &Option<String>, d: &str) -> (r: String)
    ensures
        r@ == or_default(v.deep_view(), d@),
{
    match v {
        Some(s) => s.clone(),
        None => d.to_owned(),
    }
}

/// Assemble one unit record, degrading each failed property read to its
/// default independently of the other fields.
pub fn build_unit(c: &Candidate, p: &PropertyReads) -> (r: SystemdService)
    ensures
        r.deep_view() == spec_build_unit(c.deep_view(), p.deep_view()),
{
    SystemdService {
        name: c.name.clone(),
        description: prop_or_default(&p.description, ""),
        load_state: prop_or_default(&p.load_state, "not-loaded"),
        active_state: prop_or_default(&p.active_state, "inactive"),
        sub_state: prop_or_default(&p.sub_state, "dead"),
        unit_path: c.path.clone(),
        unit_file_state: c.unit_file_state.clone(),
    }
}

/// The catalog assembled from planned candidates and their property reads.
pub open spec fn spec_assemble(cands: Seq<CandidateView>, props: Seq<PropertyReadsView>) -> Seq<
    UnitView,
> {
    Seq::new(cands.len(), |i: int| spec_build_unit(cands[i], props[i]))
}

/// Assemble the whole catalog; one record per candidate, in planning order.
/// A failed property read never fails the assembly.
pub fn assemble_catalog(cands: &Vec<Candidate>, props: &Vec<PropertyReads>) -> (r: Vec<
    SystemdService,
>)
    requires
        cands@.len() == props@.len(),
    ensures
        r.deep_view() == spec_assemble(cands.deep_view(), props.deep_view()),
{
    let mut r: Vec<SystemdService> = Vec::new();
    let mut i: usize = 0;
    while i < cands.len()
        invariant
            cands@.len() == props@.len(),
            i <= cands@.len(),
            r.deep_view() =~= spec_assemble(cands.deep_view(), props.deep_view()).take(i as int),
        decreases cands@.len() - i,
    {
        let built = build_unit(&cands[i], &props[i]);
        let ghost prev = r.deep_view();
        let ghost bv = built.deep_view();
        r.push(built);
        proof {
            assert(r.deep_view() =~= prev.push(bv));
            assert(cands.deep_view()[i as int] == cands@[i as int].deep_view());
            assert(props.deep_view()[i as int] == props@[i as int].deep_view());
            assert(bv == spec_assemble(cands.deep_view(), props.deep_view())[i as int]);
            assert(r.deep_view() =~= spec_assemble(cands.deep_view(), props.deep_view()).take(
                i + 1,
            ));
        }
        i += 1;
    }
    proof {
        assert(spec_assemble(cands.deep_view(), props.deep_view()).take(cands@.len() as int)
            =~= spec_assemble(cands.deep_view(), props.deep_view()));
    }
    r
}

/// Every planned candidate's name carries the unit-type suffix, and no two
/// planned candidates share a name.
pub proof fn lemma_plan_wf(files: Seq<UnitFileView>)
    ensures
        forall|i: int|
            0 <= i < spec_plan(files).len() ==> ends_with(
                #[trigger] spec_plan(files)[i].name,
                service_suffix(),
            ),
        forall|i: int, j: int|
            0 <= i < j < spec_plan(files).len() ==> spec_plan(files)[i].name != spec_plan(
                files,
            )[j].name,
    decreases files.len(),
{
    if files.len() > 0 {
        lemma_plan_wf(files.drop_last());
        let rest = spec_plan(files.drop_last());
        let f = files.last();
        let name = unit_name_of_path(f.path);
        let full = spec_plan(files);
        if ends_with(name, service_suffix()) && !has_name(rest, name) {
            assert forall|i: int| 0 <= i < full.len() implies ends_with(
                #[trigger] full[i].name,
                service_suffix(),
            ) by {
                if i < rest.len() {
                    assert(full[i] == rest[i]);
                } else {
                    assert(full[i].name == name);
                }
            }
            assert forall|i: int, j: int| 0 <= i < j < full.len() implies full[i].name
                != full[j].name by {
                if j < rest.len() {
                    assert(full[i] == rest[i] && full[j] == rest[j]);
                } else {
                    assert(full[i] == rest[i] && full[j].name == name);
                    assert(!(0 <= i < rest.len() && rest[i].name == name));
                }
            }
        }
    }
}

/// Every planned candidate's name is derived from the terminal segment of
/// some listed unit-file path.
pub proof fn lemma_plan_names_from_paths(files: Seq<UnitFileView>)
    ensures
        forall|j: int|
            0 <= j < spec_plan(files).len() ==> exists|i: int|
                0 <= i < files.len() && #[trigger] spec_plan(files)[j].name == unit_name_of_path(
                    files[i].path,
                ),
    decreases files.len(),
{
    if files.len() > 0 {
        lemma_plan_names_from_paths(files.drop_last());
        assert forall|j: int| 0 <= j < spec_plan(files).len() implies exists|i: int|
            0 <= i < files.len() && #[trigger] spec_plan(files)[j].name == unit_name_of_path(
                files[i].path,
            ) by {
            let rest = spec_plan(files.drop_last());
            if j < rest.len() {
                let i = choose|i: int|
                    0 <= i < files.drop_last().len() && #[trigger] rest[j].name
                        == unit_name_of_path(files.drop_last()[i].path);
                assert(files.drop_last()[i] == files[i]);
                assert(spec_plan(files)[j].name == unit_name_of_path(files[i].path));
            } else {
                assert(spec_plan(files)[j].name == unit_name_of_path(
                    files[files.len() - 1].path,
                ));
            }
        }
    }
}

/// Every name in a catalog assembled from a planned candidate list ends in
/// the unit-type suffix and is unique within the catalog.
pub proof fn lemma_catalog_names(files: Seq<UnitFileView>, props: Seq<PropertyReadsView>)
    requires
        props.len() == spec_plan(files).len(),
    ensures
        forall|i: int|
            0 <= i < spec_assemble(spec_plan(files), props).len() ==> ends_with(
                #[trigger] spec_assemble(spec_plan(files), props)[i].name,
                service_suffix(),
            ),
        forall|i: int, j: int|
            0 <= i < j < spec_assemble(spec_plan(files), props).len() ==> spec_assemble(
                spec_plan(files),
                props,
            )[i].name != spec_assemble(spec_plan(files), props)[j].name,
{
    lemma_plan_wf(files);
    assert(forall|i: int|
        0 <= i < spec_plan(files).len() ==> #[trigger] spec_assemble(spec_plan(files), props)[i].name
            == spec_plan(files)[i].name);
}

} // verus!
