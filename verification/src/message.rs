//! Messages delivered to the engine: user intents and the completions of
//! asynchronous host work, applied one at a time in arrival order.

use crate::systemd::{ServiceScope, SystemdService};
use crate::types::ContextPage;
use vstd::prelude::*;

verus! {

/// One event for the engine to apply to its cached state.
#[derive(Debug, Clone)]
pub enum Message {
    LaunchUrl(String),
    ToggleContextPage(ContextPage),
    LoadServices(Option<ServiceScope>),
    ServicesLoaded(ServiceScope, Vec<SystemdService>),
    SelectService(SystemdService),
    BackToList,
    StartService(String),
    StopService(String),
    RestartService(String),
    EnableService(String),
    DisableService(String),
    ServiceActionComplete,
    LogsLoaded(String),
    RefreshCurrentService,
    CurrentServiceRefreshed(Option<SystemdService>, String),
    Tick,
    SearchFilterChanged(String),
}

} // verus!
