//! The placeholder that stands in the host's slot while the active screen
//! is out handling an event.

use crate::event::Event;
use crate::screens::ScreenAction;
use vstd::prelude::*;

verus! {

/// The placeholder screen.
#[derive(Clone, Copy, Debug, PartialEq, Eq, Structural)]
pub struct BlankScreen;

impl BlankScreen {
    /// The placeholder ignores every event.
    pub fn handle_event(&mut self, event: Option<Event>) -> (action: ScreenAction)
        ensures
            action@ == crate::screens::ScreenActionView::Stay,
    {
        ScreenAction::Stay
    }

    /// The title of the frame drawn for the placeholder.
    pub fn title(&self) -> (r: &'static str)
        ensures
            r@ == "Blank Screen"@,
    {
        "Blank Screen"
    }
}

} // verus!
