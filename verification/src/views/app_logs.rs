//! The application's own log.

use crate::event::Key;
use crate::views::ViewAction;
use vstd::prelude::*;

verus! {

/// What a key asks of the log widget.
#[derive(Debug, Clone, Copy, PartialEq, Eq, Hash, Structural)]
pub enum LogEvent {
    /// Show or hide the targets whose messages are switched off.
    Space,
    /// Select the previous target.
    Up,
    /// Select the next target.
    Down,
    /// Show one level less of the selected target.
    Left,
    /// Show one level more of the selected target.
    Right,
    /// Capture one level more of the selected target.
    Plus,
    /// Capture one level less of the selected target.
    Minus,
    /// Show or hide the list of targets.
    Hide,
    /// Show the selected target alone, or all targets again.
    Focus,
    /// Page back in the history.
    PrevPage,
    /// Page on in the history.
    NextPage,
    /// Leave the history and follow the log again.
    Escape,
}

/// The event that a key stands for in the log view, or `None` for a key
/// that the view does not bind.
pub open spec fn log_event(key: Key) -> Option<LogEvent> {
    match key {
        Key::Char(' ') => Some(LogEvent::Space),
        Key::Up => Some(LogEvent::Up),
        Key::Down => Some(LogEvent::Down),
        Key::Left => Some(LogEvent::Left),
        Key::Right => Some(LogEvent::Right),
        Key::Char('+') => Some(LogEvent::Plus),
        Key::Char('-') => Some(LogEvent::Minus),
        Key::Char('h') => Some(LogEvent::Hide),
        Key::Char('f') => Some(LogEvent::Focus),
        Key::PageUp => Some(LogEvent::PrevPage),
        Key::PageDown => Some(LogEvent::NextPage),
        Key::Esc => Some(LogEvent::Escape),
        _ => None,
    }
}

/// What the log view answers to `key`.
pub open spec fn log_action(key: Key) -> Option<ViewAction> {
    match log_event(key) {
        Some(event) => Some(ViewAction::Dispatch(event)),
        None => None,
    }
}

/// The view of the application's own log. What it shows is the business of
/// the log widget, which keeps the messages; the view says which key asks
/// what of the widget.
#[derive(Debug, Clone, PartialEq, Eq)]
pub struct AppLogsView {}

impl AppLogsView {
    pub fn new() -> (view: AppLogsView) {
        AppLogsView {  }
    }

    /// Handles a key press: a key that the view binds becomes an event for
    /// the log widget.
    pub fn handle_input(&mut self, key: Key) -> (action: Option<ViewAction>)
        ensures
            *final(self) == *old(self),
            action == log_action(key),
    {
        let event = match key {
            Key::Char(' ') => LogEvent::Space,
            Key::Up => LogEvent::Up,
            Key::Down => LogEvent::Down,
            Key::Left => LogEvent::Left,
            Key::Right => LogEvent::Right,
            Key::Char('+') => LogEvent::Plus,
            Key::Char('-') => LogEvent::Minus,
            Key::Char('h') => LogEvent::Hide,
            Key::Char('f') => LogEvent::Focus,
            Key::PageUp => LogEvent::PrevPage,
            Key::PageDown => LogEvent::NextPage,
            Key::Esc => LogEvent::Escape,
            _ => {
                return None;
            },
        };
        Some(ViewAction::Dispatch(event))
    }
}

} // verus!
