//! The help screen.

use crate::app::AppCommand;
use crate::event::Key;
use crate::views::{scroll_accepts, scroll_action, scroll_by_key, scroll_target, ViewAction};
use vstd::prelude::*;

verus! {

/// The lines of the help text.
pub const HELP: [&'static str; 15] = [
    "KEYS:\n",
    "? - help\n",
    "q - exit view\n",
    "i - switch to view: images list\n",
    "v - switch to view: docker info\n",
    "L - switch to view: application logs\n",
    "k - up\n",
    "j - down\n",
    "s - stop container      in view: container list\n",
    "S - start container     in view: container list\n",
    "p - pause container     in view: container list\n",
    "P - unpause container   in view: container list\n",
    "d - delete container    in view: container list\n",
    "l - container logs      in view: container list\n",
    "\u{23CE} - container details   in view: container list\n",
];

/// The help screen: a fixed text that can be scrolled.
#[derive(Debug, Clone, PartialEq, Eq)]
pub struct HelpView {
    /// The first line that is shown.
    pub scroll: u16,
}

impl HelpView {
    /// The help screen, scrolled to its top.
    pub fn new() -> (view: HelpView)
        ensures
            view.scroll == 0,
    {
        HelpView { scroll: 0 }
    }

    /// The view after `key` was pressed.
    pub open spec fn after_key(self, key: Key) -> HelpView {
        match scroll_target(key, self.scroll) {
            Some(scroll) => HelpView { scroll },
            None => self,
        }
    }

    /// Handles a key press: up and down scroll the text, and no other key
    /// is bound.
    pub fn handle_input(&mut self, key: Key) -> (action: Option<ViewAction>)
        requires
            scroll_accepts(key, old(self).scroll),
        ensures
            *final(self) == old(self).after_key(key),
            action == scroll_action(key, old(self).scroll),
    {
        match scroll_by_key(key, self.scroll) {
            Some(scroll) => {
                self.scroll = scroll;
                Some(ViewAction::Command(AppCommand::NoOp))
            },
            None => None,
        }
    }

    /// The lines of the help text, each with its line end.
    pub fn text(&self) -> (lines: Vec<&'static str>)
        ensures
            lines@ == HELP@,
    {
        let mut lines: Vec<&'static str> = Vec::new();
        let mut i: usize = 0;
        while i < 15
            invariant
                i <= 15,
                lines@ == HELP@.subrange(0, i as int),
            decreases 15 - i,
        {
            lines.push(HELP[i]);
            assert(lines@ =~= HELP@.subrange(0, i + 1));
            i += 1;
        }
        assert(lines@ =~= HELP@);
        lines
    }
}

} // verus!
