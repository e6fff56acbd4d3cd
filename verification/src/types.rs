//! Page, context-drawer and menu types of the engine's cached view.

use crate::message::Message;
use vstd::prelude::*;

verus! {

/// The page the list view shows: one per scope.
#[derive(Debug, Clone, Copy, PartialEq, Eq, Structural)]
pub enum Page {
    SystemServices,
    UserServices,
}

/// The context page to display in the context drawer.
#[derive(Debug, Clone, Copy, PartialEq, Eq, Structural, Default)]
pub enum ContextPage {
    #[default]
    About,
}

/// Menu actions of the menu bar.
#[derive(Debug, Clone, Copy, PartialEq, Eq, Structural)]
pub enum MenuAction {
    About,
}

impl MenuAction {
    /// The message a menu action emits when chosen.
    pub fn message(&self) -> (r: Message)
        ensures
            r == Message::ToggleContextPage(ContextPage::About),
    {
        match self {
            MenuAction::About => Message::ToggleContextPage(ContextPage::About),
        }
    }
}

} // verus!
