//! The synchronization and selection reconciler: a state machine over the
//! cached per-scope catalogs, the current selection and its logs. Every
//! message is applied to the cached state on one logical control thread and
//! yields the host-side work to perform next; completions arrive as further
//! messages, in arrival order.

use crate::catalog::{spec_assemble, spec_plan, PropertyReadsView, UnitFileView};
use crate::commands::{BusAction, UnitAction};
use crate::message::Message;
use crate::systemd::{unit_name_of_path, ServiceScope, SystemdService, UnitView};
use crate::text::{contains_seq, lower_of, lowercase, str_contains};
use crate::types::{ContextPage, Page};
use vstd::prelude::*;
use vstd::string::*;

verus! {

/// One unit of host-side work the engine asks the embedding program to
/// perform. Its completion comes back as a [`Message`].
pub enum Command {
    /// Build the catalog for a scope and deliver `ServicesLoaded`.
    Reload(ServiceScope),
    /// Fetch the named unit's recent logs and deliver `LogsLoaded`.
    FetchLogs(ServiceScope, String),
    /// Rebuild the catalog, pick out the named unit and its logs, and
    /// deliver `CurrentServiceRefreshed`.
    RefreshSelected(ServiceScope, String),
    /// Invoke a service-manager method for the named unit over the bus and
    /// deliver `ServiceActionComplete`.
    Invoke(ServiceScope, BusAction, String),
    /// Run the privileged enable/disable command for the named unit and
    /// deliver `ServiceActionComplete`.
    Elevate(UnitAction, String),
    /// Open a URL with the desktop's handler.
    OpenUrl(String),
}

/// Mathematical view of a [`Command`].
pub enum CommandView {
    Reload(ServiceScope),
    FetchLogs(ServiceScope, Seq<char>),
    RefreshSelected(ServiceScope, Seq<char>),
    Invoke(ServiceScope, BusAction, Seq<char>),
    Elevate(UnitAction, Seq<char>),
    OpenUrl(Seq<char>),
}

impl View for Command {
    type V = CommandView;

    open spec fn view(&self) -> CommandView {
        match self {
            Command::Reload(sc) => CommandView::Reload(*sc),
            Command::FetchLogs(sc, n) => CommandView::FetchLogs(*sc, n@),
            Command::RefreshSelected(sc, n) => CommandView::RefreshSelected(*sc, n@),
            Command::Invoke(sc, a, n) => CommandView::Invoke(*sc, *a, n@),
            Command::Elevate(a, n) => CommandView::Elevate(*a, n@),
            Command::OpenUrl(u) => CommandView::OpenUrl(u@),
        }
    }
}

impl DeepView for Command {
    type V = CommandView;

    open spec fn deep_view(&self) -> CommandView {
        self.view()
    }
}

/// The reconciler's cached state: both scopes' catalogs, the selection and
/// its logs, the active scope and page, the loading flag and the search
/// filter. The embedding program reads it between messages and never
/// mutates it directly.
pub struct Reconciler {
    pub system_services: Vec<SystemdService>,
    pub user_services: Vec<SystemdService>,
    pub selected_service: Option<SystemdService>,
    pub current_scope: ServiceScope,
    pub current_page: Page,
    pub service_logs: String,
    pub is_loading: bool,
    pub search_filter: String,
    pub context_page: ContextPage,
    pub show_context: bool,
}

/// Mathematical view of the reconciler's cached state.
#[verifier::ext_equal]
pub struct EngineView {
    pub system_services: Seq<UnitView>,
    pub user_services: Seq<UnitView>,
    pub selected_service: Option<UnitView>,
    pub current_scope: ServiceScope,
    pub current_page: Page,
    pub service_logs: Seq<char>,
    pub is_loading: bool,
    pub search_filter: Seq<char>,
    pub context_page: ContextPage,
    pub show_context: bool,
}

impl View for Reconciler {
    type V = EngineView;

    open spec fn view(&self) -> EngineView {
        EngineView {
            system_services: self.system_services.deep_view(),
            user_services: self.user_services.deep_view(),
            selected_service: self.selected_service.deep_view(),
            current_scope: self.current_scope,
            current_page: self.current_page,
            service_logs: self.service_logs@,
            is_loading: self.is_loading,
            search_filter: self.search_filter@,
            context_page: self.context_page,
            show_context: self.show_context,
        }
    }
}

/// The list page that shows a scope's catalog.
pub open spec fn page_for(scope: ServiceScope) -> Page {
    match scope {
        ServiceScope::System => Page::SystemServices,
        ServiceScope::User => Page::UserServices,
    }
}

/// The first unit in `units` carrying `name`, if any.
pub open spec fn find_unit(units: Seq<UnitView>, name: Seq<char>) -> Option<UnitView>
    decreases units.len(),
{
    if units.len() == 0 {
        None
    } else if units[0].name == name {
        Some(units[0])
    } else {
        find_unit(units.drop_first(), name)
    }
}

/// `units` with every entry named like `u` replaced by `u`; entries with
/// other names are left untouched.
pub open spec fn replace_matching(units: Seq<UnitView>, u: UnitView) -> Seq<UnitView> {
    Seq::new(units.len(), |i: int| if units[i].name == u.name { u } else { units[i] })
}

/// A full reload was requested: mark the scope loading and ask for its
/// catalog.
pub open spec fn spec_load_services(s: EngineView, scope: Option<ServiceScope>) -> (
    EngineView,
    Seq<CommandView>,
) {
    let sc = match scope {
        Some(sc) => sc,
        None => s.current_scope,
    };
    (
        EngineView { is_loading: true, current_scope: sc, ..s },
        seq![CommandView::Reload(sc)],
    )
}

/// A reload completed: replace the scope's cached catalog, clear the loading
/// flag, and rebind the selection by name. A still-present selection is
/// replaced by its refreshed record and its logs are fetched anew; a vanished
/// one is cleared, and no log fetch is issued.
pub open spec fn spec_services_loaded(
    s: EngineView,
    scope: ServiceScope,
    units: Seq<UnitView>,
) -> (EngineView, Seq<CommandView>) {
    let s1 = match scope {
        ServiceScope::System => EngineView { system_services: units, is_loading: false, ..s },
        ServiceScope::User => EngineView { user_services: units, is_loading: false, ..s },
    };
    match s.selected_service {
        None => (s1, Seq::empty()),
        Some(sel) => match find_unit(units, sel.name) {
            Some(u) => (
                EngineView { selected_service: Some(u), ..s1 },
                seq![CommandView::FetchLogs(s.current_scope, u.name)],
            ),
            None => (EngineView { selected_service: None, ..s1 }, Seq::empty()),
        },
    }
}

/// A unit was selected: remember it and immediately fetch its logs.
pub open spec fn spec_select_service(s: EngineView, unit: UnitView) -> (
    EngineView,
    Seq<CommandView>,
) {
    (
        EngineView { selected_service: Some(unit), ..s },
        seq![CommandView::FetchLogs(s.current_scope, unit.name)],
    )
}

/// A log fetch completed: accepted into the cache only while a selection
/// exists; a stale result arriving after deselection is discarded.
pub open spec fn spec_logs_loaded(s: EngineView, logs: Seq<char>) -> (
    EngineView,
    Seq<CommandView>,
) {
    match s.selected_service {
        Some(_) => (EngineView { service_logs: logs, ..s }, Seq::empty()),
        None => (s, Seq::empty()),
    }
}

/// The selection was dismissed: back to the active scope's list page.
pub open spec fn spec_deselect(s: EngineView) -> (EngineView, Seq<CommandView>) {
    (
        EngineView {
            selected_service: None,
            current_page: page_for(s.current_scope),
            ..s
        },
        Seq::empty(),
    )
}

/// A bus-borne state change was requested: fire and forget. The cached state
/// is untouched; the effect is observed by the reload its completion
/// triggers.
pub open spec fn spec_dispatch_bus(s: EngineView, a: BusAction, name: Seq<char>) -> (
    EngineView,
    Seq<CommandView>,
) {
    (s, seq![CommandView::Invoke(s.current_scope, a, name)])
}

/// A privileged enable/disable was requested: fire and forget, like bus
/// actions.
pub open spec fn spec_dispatch_elevated(s: EngineView, a: UnitAction, name: Seq<char>) -> (
    EngineView,
    Seq<CommandView>,
) {
    (s, seq![CommandView::Elevate(a, name)])
}

/// A command completed, successfully or not: the one mechanism that observes
/// its effect is a full reload of the current scope.
pub open spec fn spec_action_complete(s: EngineView) -> (EngineView, Seq<CommandView>) {
    spec_load_services(s, None)
}

/// A targeted refresh of the selection: rebuild the catalog, but apply the
/// result only to the selected unit and its list entry.
pub open spec fn spec_refresh_current(s: EngineView) -> (EngineView, Seq<CommandView>) {
    match s.selected_service {
        Some(sel) => (s, seq![CommandView::RefreshSelected(s.current_scope, sel.name)]),
        None => (s, Seq::empty()),
    }
}

/// The periodic tick refreshes the selection while one exists and is idle
/// otherwise.
pub open spec fn spec_tick(s: EngineView) -> (EngineView, Seq<CommandView>) {
    spec_refresh_current(s)
}

/// A targeted refresh completed. A refreshed record still matching the
/// current selection updates the selection, its logs and its entry in the
/// active scope's catalog; a record for some other name is stale and
/// discarded; a vanished unit clears the selection.
pub open spec fn spec_current_refreshed(
    s: EngineView,
    unit: Option<UnitView>,
    logs: Seq<char>,
) -> (EngineView, Seq<CommandView>) {
    match unit {
        Some(u) => match s.selected_service {
            Some(sel) => if sel.name == u.name {
                let s1 = match s.current_scope {
                    ServiceScope::System => EngineView {
                        system_services: replace_matching(s.system_services, u),
                        ..s
                    },
                    ServiceScope::User => EngineView {
                        user_services: replace_matching(s.user_services, u),
                        ..s
                    },
                };
                (
                    EngineView { selected_service: Some(u), service_logs: logs, ..s1 },
                    Seq::empty(),
                )
            } else {
                (s, Seq::empty())
            },
            None => (s, Seq::empty()),
        },
        None => match s.selected_service {
            Some(_) => (EngineView { selected_service: None, ..s }, Seq::empty()),
            None => (s, Seq::empty()),
        },
    }
}

/// The search filter changed: a pure projection input, nothing else moves.
pub open spec fn spec_set_filter(s: EngineView, text: Seq<char>) -> (EngineView, Seq<CommandView>) {
    (EngineView { search_filter: text, ..s }, Seq::empty())
}

/// The context drawer toggles on its own page and switches to a newly
/// requested one.
pub open spec fn spec_toggle_context(s: EngineView, cp: ContextPage) -> (
    EngineView,
    Seq<CommandView>,
) {
    if s.context_page == cp {
        (EngineView { show_context: !s.show_context, ..s }, Seq::empty())
    } else {
        (EngineView { context_page: cp, show_context: true, ..s }, Seq::empty())
    }
}

/// A URL is opened by the desktop; the cached state is untouched.
pub open spec fn spec_launch_url(s: EngineView, url: Seq<char>) -> (EngineView, Seq<CommandView>) {
    (s, seq![CommandView::OpenUrl(url)])
}

/// A scope page was activated: clear selection and filter, switch scope and
/// page, and reload that scope.
pub open spec fn spec_select_page(s: EngineView, page: Page) -> (EngineView, Seq<CommandView>) {
    let sc = match page {
        Page::SystemServices => ServiceScope::System,
        Page::UserServices => ServiceScope::User,
    };
    (
        EngineView {
            selected_service: None,
            search_filter: Seq::empty(),
            current_page: page,
            current_scope: sc,
            is_loading: true,
            ..s
        },
        seq![CommandView::Reload(sc)],
    )
}

/// Find the first unit carrying `name`, cloned out of the catalog.
pub fn find_unit_exec(units: &Vec<SystemdService>, name: &String) -> (r: Option<SystemdService>)
    ensures
        r.deep_view() == find_unit(units.deep_view(), name@),
{
    let ghost dv = units.deep_view();
    let mut i: usize = 0;
    proof {
        assert(dv.skip(0) =~= dv);
    }
    while i < units.len()
        invariant
            i <= units@.len(),
            dv == units.deep_view(),
            dv.len() == units@.len(),
            find_unit(dv, name@) == find_unit(dv.skip(i as int), name@),
        decreases units@.len() - i,
    {
        proof {
            assert(dv.skip(i as int)[0] == dv[i as int]);
        }
        if units[i].name.eq(name) {
            let u = units[i].clone();
            proof {
                assert(dv[i as int] == units@[i as int].deep_view());
                assert(find_unit(dv.skip(i as int), name@) == Some(dv[i as int]));
            }
            return Some(u);
        }
        proof {
            assert(dv.skip(i as int).drop_first() =~= dv.skip(i + 1));
        }
        i += 1;
    }
    proof {
        assert(dv.skip(units@.len() as int).len() == 0);
    }
    None
}

fn replace_matching_exec(units: &Vec<SystemdService>, u: &SystemdService) -> (r: Vec<
    SystemdService,
>)
    ensures
        r.deep_view() == replace_matching(units.deep_view(), u.deep_view()),
{
    let ghost goal = replace_matching(units.deep_view(), u.deep_view());
    let mut r: Vec<SystemdService> = Vec::new();
    let mut i: usize = 0;
    while i < units.len()
        invariant
            i <= units@.len(),
            units@.len() == goal.len(),
            goal == replace_matching(units.deep_view(), u.deep_view()),
            r.deep_view() =~= goal.take(i as int),
        decreases units@.len() - i,
    {
        let ghost prev = r.deep_view();
        if units[i].name.eq(&u.name) {
            let c = u.clone();
            let ghost cv = c.deep_view();
            r.push(c);
            proof {
                assert(r.deep_view() =~= prev.push(cv));
            }
        } else {
            let c = units[i].clone();
            let ghost cv = c.deep_view();
            r.push(c);
            proof {
                assert(r.deep_view() =~= prev.push(cv));
            }
        }
        proof {
            assert(units.deep_view()[i as int] == units@[i as int].deep_view());
            assert(r.deep_view() =~= goal.take(i + 1));
        }
        i += 1;
    }
    proof {
        assert(goal.take(units@.len() as int) =~= goal);
    }
    r
}

/// The engine's initial state: empty catalogs, no selection, system scope,
/// system list page, nothing loading, empty filter, drawer closed.
pub open spec fn spec_init() -> EngineView {
    EngineView {
        system_services: Seq::empty(),
        user_services: Seq::empty(),
        selected_service: None,
        current_scope: ServiceScope::System,
        current_page: Page::SystemServices,
        service_logs: Seq::empty(),
        is_loading: false,
        search_filter: Seq::empty(),
        context_page: ContextPage::About,
        show_context: false,
    }
}

impl Reconciler {
    pub fn new() -> (r: Reconciler)
        ensures
            r@ == spec_init(),
    {
        let r = Reconciler {
            system_services: Vec::new(),
            user_services: Vec::new(),
            selected_service: None,
            current_scope: ServiceScope::System,
            current_page: Page::SystemServices,
            service_logs: String::new(),
            is_loading: false,
            search_filter: String::new(),
            context_page: ContextPage::About,
            show_context: false,
        };
        proof {
            assert(r@ =~~= spec_init());
        }
        r
    }

    /// Request a full reload of `scope`, or of the current scope when none
    /// is given.
    pub fn load_services(&mut self, scope: Option<ServiceScope>) -> (cmds: Vec<Command>)
        ensures
            final(self)@ == spec_load_services(old(self)@, scope).0,
            cmds.deep_view() == spec_load_services(old(self)@, scope).1,
    {
        let sc = match scope {
            Some(sc) => sc,
            None => self.current_scope,
        };
        self.is_loading = true;
        self.current_scope = sc;
        let mut cmds: Vec<Command> = Vec::new();
        cmds.push(Command::Reload(sc));
        proof {
            assert(self@ =~~= spec_load_services(old(self)@, scope).0);
            assert(cmds.deep_view() =~= spec_load_services(old(self)@, scope).1);
        }
        cmds
    }

    /// Apply a completed reload: replace the scope's catalog and rebind the
    /// selection by name.
    pub fn services_loaded(&mut self, scope: ServiceScope, services: Vec<SystemdService>) -> (cmds:
        Vec<Command>)
        ensures
            final(self)@ == spec_services_loaded(old(self)@, scope, services.deep_view()).0,
            cmds.deep_view() == spec_services_loaded(old(self)@, scope, services.deep_view()).1,
    {
        let ghost units = services.deep_view();
        self.is_loading = false;
        match scope {
            ServiceScope::System => {
                self.system_services = services;
            },
            ServiceScope::User => {
                self.user_services = services;
            },
        }
        let mut cmds: Vec<Command> = Vec::new();
        let sel_name: Option<String> = match &self.selected_service {
            Some(s) => Some(s.name.clone()),
            None => None,
        };
        if let Some(name) = sel_name {
            let list = match scope {
                ServiceScope::System => &self.system_services,
                ServiceScope::User => &self.user_services,
            };
            match find_unit_exec(list, &name) {
                Some(u) => {
                    let n = u.name.clone();
                    proof {
                        assert(find_unit(units, name@) == Some(u.deep_view()));
                    }
                    self.selected_service = Some(u);
                    cmds.push(Command::FetchLogs(self.current_scope, n));
                },
                None => {
                    self.selected_service = None;
                },
            }
        }
        proof {
            assert(self@ =~~= spec_services_loaded(old(self)@, scope, units).0);
            assert(cmds.deep_view() =~= spec_services_loaded(old(self)@, scope, units).1);
        }
        cmds
    }

    /// Select a unit and immediately fetch its logs.
    pub fn select_service(&mut self, service: SystemdService) -> (cmds: Vec<Command>)
        ensures
            final(self)@ == spec_select_service(old(self)@, service.deep_view()).0,
            cmds.deep_view() == spec_select_service(old(self)@, service.deep_view()).1,
    {
        let name = service.name.clone();
        self.selected_service = Some(service);
        let mut cmds: Vec<Command> = Vec::new();
        cmds.push(Command::FetchLogs(self.current_scope, name));
        proof {
            assert(self@ =~~= spec_select_service(old(self)@, service.deep_view()).0);
            assert(cmds.deep_view() =~= spec_select_service(old(self)@, service.deep_view()).1);
        }
        cmds
    }

    /// Accept a completed log fetch while a selection exists; discard a
    /// stale one.
    pub fn logs_loaded(&mut self, logs: String)
        ensures
            final(self)@ == spec_logs_loaded(old(self)@, logs@).0,
    {
        if self.selected_service.is_some() {
            self.service_logs = logs;
        }
        proof {
            assert(self@ =~~= spec_logs_loaded(old(self)@, logs@).0);
        }
    }

    /// Dismiss the selection and return to the active scope's list page.
    pub fn deselect(&mut self)
        ensures
            final(self)@ == spec_deselect(old(self)@).0,
    {
        self.selected_service = None;
        self.current_page = match self.current_scope {
            ServiceScope::System => Page::SystemServices,
            ServiceScope::User => Page::UserServices,
        };
        proof {
            assert(self@ =~~= spec_deselect(old(self)@).0);
        }
    }

    /// Fire a start request for the named unit; the cache is untouched.
    pub fn start_service(&self, name: String) -> (cmds: Vec<Command>)
        ensures
            cmds.deep_view() == spec_dispatch_bus(self@, BusAction::Start, name@).1,
    {
        let mut cmds: Vec<Command> = Vec::new();
        cmds.push(Command::Invoke(self.current_scope, BusAction::Start, name));
        proof {
            assert(cmds.deep_view() =~= spec_dispatch_bus(self@, BusAction::Start, name@).1);
        }
        cmds
    }

    /// Fire a stop request for the named unit; the cache is untouched.
    pub fn stop_service(&self, name: String) -> (cmds: Vec<Command>)
        ensures
            cmds.deep_view() == spec_dispatch_bus(self@, BusAction::Stop, name@).1,
    {
        let mut cmds: Vec<Command> = Vec::new();
        cmds.push(Command::Invoke(self.current_scope, BusAction::Stop, name));
        proof {
            assert(cmds.deep_view() =~= spec_dispatch_bus(self@, BusAction::Stop, name@).1);
        }
        cmds
    }

    /// Fire a restart request for the named unit; the cache is untouched.
    pub fn restart_service(&self, name: String) -> (cmds: Vec<Command>)
        ensures
            cmds.deep_view() == spec_dispatch_bus(self@, BusAction::Restart, name@).1,
    {
        let mut cmds: Vec<Command> = Vec::new();
        cmds.push(Command::Invoke(self.current_scope, BusAction::Restart, name));
        proof {
            assert(cmds.deep_view() =~= spec_dispatch_bus(self@, BusAction::Restart, name@).1);
        }
        cmds
    }

    /// Fire a privileged enable for the named unit; the cache is untouched.
    pub fn enable_service(&self, name: String) -> (cmds: Vec<Command>)
        ensures
            cmds.deep_view() == spec_dispatch_elevated(self@, UnitAction::Enable, name@).1,
    {
        let mut cmds: Vec<Command> = Vec::new();
        cmds.push(Command::Elevate(UnitAction::Enable, name));
        proof {
            assert(cmds.deep_view() =~= spec_dispatch_elevated(self@, UnitAction::Enable, name@).1);
        }
        cmds
    }

    /// Fire a privileged disable for the named unit; the cache is untouched.
    pub fn disable_service(&self, name: String) -> (cmds: Vec<Command>)
        ensures
            cmds.deep_view() == spec_dispatch_elevated(self@, UnitAction::Disable, name@).1,
    {
        let mut cmds: Vec<Command> = Vec::new();
        cmds.push(Command::Elevate(UnitAction::Disable, name));
        proof {
            assert(cmds.deep_view() =~= spec_dispatch_elevated(
                self@,
                UnitAction::Disable,
                name@,
            ).1);
        }
        cmds
    }

    /// Every command completion, success or failure, triggers exactly one
    /// full reload of the current scope: the only mechanism that observes
    /// the command's effect.
    pub fn service_action_complete(&mut self) -> (cmds: Vec<Command>)
        ensures
            final(self)@ == spec_action_complete(old(self)@).0,
            cmds.deep_view() == spec_action_complete(old(self)@).1,
    {
        self.load_services(None)
    }

    /// Ask for a targeted refresh of the selection, if one exists.
    pub fn refresh_current(&self) -> (cmds: Vec<Command>)
        ensures
            cmds.deep_view() == spec_refresh_current(self@).1,
    {
        let mut cmds: Vec<Command> = Vec::new();
        if let Some(sel) = &self.selected_service {
            cmds.push(Command::RefreshSelected(self.current_scope, sel.name.clone()));
        }
        proof {
            assert(cmds.deep_view() =~= spec_refresh_current(self@).1);
        }
        cmds
    }

    /// The periodic tick: refresh the selection while one exists.
    pub fn tick(&self) -> (cmds: Vec<Command>)
        ensures
            cmds.deep_view() == spec_tick(self@).1,
    {
        self.refresh_current()
    }

    /// Apply a completed targeted refresh: a record still matching the
    /// selection updates it, its logs and its list entry; a stale record is
    /// discarded; a vanished unit clears the selection.
    pub fn current_service_refreshed(&mut self, unit: Option<SystemdService>, logs: String)
        ensures
            final(self)@ == spec_current_refreshed(old(self)@, unit.deep_view(), logs@).0,
    {
        match unit {
            Some(u) => {
                let still_selected = match &self.selected_service {
                    Some(sel) => sel.name.eq(&u.name),
                    None => false,
                };
                if still_selected {
                    match self.current_scope {
                        ServiceScope::System => {
                            let updated = replace_matching_exec(&self.system_services, &u);
                            self.system_services = updated;
                        },
                        ServiceScope::User => {
                            let updated = replace_matching_exec(&self.user_services, &u);
                            self.user_services = updated;
                        },
                    }
                    self.selected_service = Some(u);
                    self.service_logs = logs;
                }
                proof {
                    assert(self@ =~~= spec_current_refreshed(
                        old(self)@,
                        unit.deep_view(),
                        logs@,
                    ).0);
                }
            },
            None => {
                if self.selected_service.is_some() {
                    self.selected_service = None;
                }
                proof {
                    assert(self@ =~~= spec_current_refreshed(
                        old(self)@,
                        unit.deep_view(),
                        logs@,
                    ).0);
                }
            },
        }
    }

    /// Replace the search filter text.
    pub fn set_filter(&mut self, text: String)
        ensures
            final(self)@ == spec_set_filter(old(self)@, text@).0,
    {
        self.search_filter = text;
        proof {
            assert(self@ =~~= spec_set_filter(old(self)@, text@).0);
        }
    }

    /// Toggle the context drawer on its own page, or switch it to a newly
    /// requested page.
    pub fn toggle_context_page(&mut self, cp: ContextPage)
        ensures
            final(self)@ == spec_toggle_context(old(self)@, cp).0,
    {
        if self.context_page == cp {
            self.show_context = !self.show_context;
        } else {
            self.context_page = cp;
            self.show_context = true;
        }
        proof {
            assert(self@ =~~= spec_toggle_context(old(self)@, cp).0);
        }
    }

    /// Hand a URL to the desktop's handler; the cache is untouched.
    pub fn launch_url(&self, url: String) -> (cmds: Vec<Command>)
        ensures
            cmds.deep_view() == spec_launch_url(self@, url@).1,
    {
        let mut cmds: Vec<Command> = Vec::new();
        cmds.push(Command::OpenUrl(url));
        proof {
            assert(cmds.deep_view() =~= spec_launch_url(self@, url@).1);
        }
        cmds
    }

    /// Activate a scope page: clear selection and filter, switch scope and
    /// page, and reload that scope.
    pub fn select_page(&mut self, page: Page) -> (cmds: Vec<Command>)
        ensures
            final(self)@ == spec_select_page(old(self)@, page).0,
            cmds.deep_view() == spec_select_page(old(self)@, page).1,
    {
        let sc = match page {
            Page::SystemServices => ServiceScope::System,
            Page::UserServices => ServiceScope::User,
        };
        self.selected_service = None;
        self.search_filter = String::new();
        self.current_page = page;
        self.current_scope = sc;
        self.is_loading = true;
        let mut cmds: Vec<Command> = Vec::new();
        cmds.push(Command::Reload(sc));
        proof {
            assert(self@ =~~= spec_select_page(old(self)@, page).0);
            assert(cmds.deep_view() =~= spec_select_page(old(self)@, page).1);
        }
        cmds
    }

    /// Apply one message to the cached state and return the host work it
    /// demands.
    pub fn handle(&mut self, msg: Message) -> (cmds: Vec<Command>)
        ensures
            final(self)@ == spec_handle(old(self)@, msg).0,
            cmds.deep_view() == spec_handle(old(self)@, msg).1,
    {
        match msg {
            Message::LaunchUrl(url) => self.launch_url(url),
            Message::ToggleContextPage(cp) => {
                self.toggle_context_page(cp);
                Vec::new()
            },
            Message::LoadServices(sc) => self.load_services(sc),
            Message::ServicesLoaded(sc, services) => self.services_loaded(sc, services),
            Message::SelectService(u) => self.select_service(u),
            Message::BackToList => {
                self.deselect();
                Vec::new()
            },
            Message::StartService(n) => self.start_service(n),
            Message::StopService(n) => self.stop_service(n),
            Message::RestartService(n) => self.restart_service(n),
            Message::EnableService(n) => self.enable_service(n),
            Message::DisableService(n) => self.disable_service(n),
            Message::ServiceActionComplete => self.service_action_complete(),
            Message::LogsLoaded(l) => {
                self.logs_loaded(l);
                Vec::new()
            },
            Message::RefreshCurrentService => self.refresh_current(),
            Message::CurrentServiceRefreshed(u, l) => {
                self.current_service_refreshed(u, l);
                Vec::new()
            },
            Message::Tick => self.tick(),
            Message::SearchFilterChanged(t) => {
                self.set_filter(t);
                Vec::new()
            },
        }
    }
}

/// One step of the reconciler: the state after applying `msg` and the host
/// work it demands.
pub open spec fn spec_handle(s: EngineView, msg: Message) -> (EngineView, Seq<CommandView>) {
    match msg {
        Message::LaunchUrl(url) => spec_launch_url(s, url@),
        Message::ToggleContextPage(cp) => spec_toggle_context(s, cp),
        Message::LoadServices(sc) => spec_load_services(s, sc),
        Message::ServicesLoaded(sc, units) => spec_services_loaded(s, sc, units.deep_view()),
        Message::SelectService(u) => spec_select_service(s, u.deep_view()),
        Message::BackToList => spec_deselect(s),
        Message::StartService(n) => spec_dispatch_bus(s, BusAction::Start, n@),
        Message::StopService(n) => spec_dispatch_bus(s, BusAction::Stop, n@),
        Message::RestartService(n) => spec_dispatch_bus(s, BusAction::Restart, n@),
        Message::EnableService(n) => spec_dispatch_elevated(s, UnitAction::Enable, n@),
        Message::DisableService(n) => spec_dispatch_elevated(s, UnitAction::Disable, n@),
        Message::ServiceActionComplete => spec_action_complete(s),
        Message::LogsLoaded(l) => spec_logs_loaded(s, l@),
        Message::RefreshCurrentService => spec_refresh_current(s),
        Message::CurrentServiceRefreshed(u, l) => spec_current_refreshed(s, u.deep_view(), l@),
        Message::Tick => spec_tick(s),
        Message::SearchFilterChanged(t) => spec_set_filter(s, t@),
    }
}

/// A unit matches a lowercase filter when its folded name or folded
/// description contains it.
pub open spec fn unit_matches(u: UnitView, filter_lower: Seq<char>) -> bool {
    contains_seq(lower_of(u.name), filter_lower) || contains_seq(
        lower_of(u.description),
        filter_lower,
    )
}

/// The catalog entries whose folded name or description contains
/// `filter_lower`, in catalog order.
pub open spec fn filtered_units(units: Seq<UnitView>, filter_lower: Seq<char>) -> Seq<UnitView>
    decreases units.len(),
{
    if units.len() == 0 {
        Seq::empty()
    } else {
        let rest = filtered_units(units.drop_last(), filter_lower);
        if unit_matches(units.last(), filter_lower) {
            rest.push(units.last())
        } else {
            rest
        }
    }
}

/// The search projection over a cached catalog: an empty filter passes the
/// whole catalog through, any other filter is folded to lowercase and
/// matched case-insensitively against name and description.
pub open spec fn spec_search(units: Seq<UnitView>, filter: Seq<char>) -> Seq<UnitView> {
    if filter.len() == 0 {
        units
    } else {
        filtered_units(units, lower_of(filter))
    }
}

/// Project the cached catalog through the search filter. Pure and
/// synchronous: it never touches the cache or the reload cycle.
pub fn search_catalog(units: &Vec<SystemdService>, filter: &str) -> (r: Vec<SystemdService>)
    ensures
        r.deep_view() == spec_search(units.deep_view(), filter@),
{
    let ghost dv = units.deep_view();
    let mut r: Vec<SystemdService> = Vec::new();
    if filter.unicode_len() == 0 {
        let mut i: usize = 0;
        while i < units.len()
            invariant
                i <= units@.len(),
                dv == units.deep_view(),
                r.deep_view() =~= dv.take(i as int),
            decreases units@.len() - i,
        {
            let ghost prev = r.deep_view();
            let c = units[i].clone();
            let ghost cv = c.deep_view();
            r.push(c);
            proof {
                assert(r.deep_view() =~= prev.push(cv));
                assert(dv[i as int] == units@[i as int].deep_view());
                assert(r.deep_view() =~= dv.take(i + 1));
            }
            i += 1;
        }
        proof {
            assert(dv.take(units@.len() as int) =~= dv);
        }
        return r;
    }
    let fl = lowercase(filter);
    let mut i: usize = 0;
    while i < units.len()
        invariant
            i <= units@.len(),
            dv == units.deep_view(),
            fl@ == lower_of(filter@),
            r.deep_view() =~= filtered_units(dv.take(i as int), fl@),
        decreases units@.len() - i,
    {
        let name_lower = lowercase(units[i].name.as_str());
        let desc_lower = lowercase(units[i].description.as_str());
        let hit = str_contains(name_lower.as_str(), fl.as_str()) || str_contains(
            desc_lower.as_str(),
            fl.as_str(),
        );
        proof {
            assert(dv[i as int] == units@[i as int].deep_view());
            assert(dv.take(i + 1).drop_last() =~= dv.take(i as int));
            assert(dv.take(i + 1).last() == dv[i as int]);
            assert(hit == unit_matches(dv[i as int], fl@));
        }
        if hit {
            let ghost prev = r.deep_view();
            let c = units[i].clone();
            let ghost cv = c.deep_view();
            r.push(c);
            proof {
                assert(r.deep_view() =~= prev.push(cv));
            }
        }
        proof {
            assert(r.deep_view() =~= filtered_units(dv.take(i + 1), fl@));
        }
        i += 1;
    }
    proof {
        assert(dv.take(units@.len() as int) =~= dv);
    }
    r
}

/// No unit in `units` carries `name`, so the search for it finds nothing.
pub proof fn lemma_find_unit_none(units: Seq<UnitView>, name: Seq<char>)
    requires
        forall|i: int| 0 <= i < units.len() ==> (#[trigger] units[i].name) != name,
    ensures
        find_unit(units, name) is None,
    decreases units.len(),
{
    if units.len() > 0 {
        assert(forall|i: int|
            0 <= i < units.drop_first().len() ==> (#[trigger] units.drop_first()[i].name)
                != name);
        lemma_find_unit_none(units.drop_first(), name);
    }
}

/// A reload whose unit-file listing no longer yields the selected unit's
/// name makes the rebind clear the selection, and no log fetch is issued:
/// a path that disappears from the listing takes the selection with it on
/// the next poll.
pub proof fn lemma_rebind_clears_lost_selection(
    s: EngineView,
    scope: ServiceScope,
    files: Seq<UnitFileView>,
    props: Seq<PropertyReadsView>,
    sel: UnitView,
)
    requires
        s.selected_service == Some(sel),
        props.len() == spec_plan(files).len(),
        forall|i: int|
            0 <= i < files.len() ==> unit_name_of_path(#[trigger] files[i].path) != sel.name,
    ensures
        spec_services_loaded(
            s,
            scope,
            spec_assemble(spec_plan(files), props),
        ).0.selected_service is None,
        spec_services_loaded(s, scope, spec_assemble(spec_plan(files), props)).1 == Seq::<
            CommandView,
        >::empty(),
{
    let plan = spec_plan(files);
    let catalog = spec_assemble(plan, props);
    crate::catalog::lemma_plan_names_from_paths(files);
    assert forall|j: int| 0 <= j < catalog.len() implies (#[trigger] catalog[j].name)
        != sel.name by {
        assert(catalog[j].name == plan[j].name);
        let i = choose|i: int|
            0 <= i < files.len() && #[trigger] plan[j].name == unit_name_of_path(files[i].path);
        assert(unit_name_of_path(files[i].path) != sel.name);
    }
    lemma_find_unit_none(catalog, sel.name);
}

/// Dispatching an enable leaves the cached state untouched and composes the
/// same command whatever the cached enablement state says, so a second
/// dispatch from the resulting state is indistinguishable from the first:
/// the engine may enable from the latest known state without re-checking.
pub proof fn lemma_enable_dispatch_idempotent(s: EngineView, name: Seq<char>)
    ensures
        spec_dispatch_elevated(s, UnitAction::Enable, name).0 == s,
        spec_dispatch_elevated(
            spec_dispatch_elevated(s, UnitAction::Enable, name).0,
            UnitAction::Enable,
            name,
        ) == spec_dispatch_elevated(s, UnitAction::Enable, name),
{
}

} // verus!
