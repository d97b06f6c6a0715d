//! The views of the application: what each screen remembers, how it answers
//! a key press, what it asks of the daemon and what it shows.

use crate::app::{AppCommand, ContainerId};
use crate::docker::{DockerRequest, DockerResponse, LifecycleOp};
use crate::event::Key;
use crate::text::{decimal, u64_to_string};
use std::time::Duration;
use vstd::prelude::*;
use vstd::view::View as _;

pub mod app_logs;
pub mod container_details;
pub mod container_list;
pub mod container_logs;
pub mod docker_info;
pub mod help;
pub mod images_list;

pub use self::app_logs::{log_action, AppLogsView, LogEvent};
pub use self::container_details::ContainerInfo;
pub use self::container_list::{ContainerListState, ContainerListView};
pub use self::container_logs::{ContainerLogsState, ContainerLogsView};
pub use self::docker_info::DockerInfo;
pub use self::help::HelpView;
pub use self::images_list::{ImagesListState, ImagesListView};

verus! {

/// The different views that the application supports.
#[derive(Debug, Clone, PartialEq, Eq)]
pub enum ViewType {
    Help,
    AppLogs,
    ContainerList,
    ContainerDetails(ContainerId),
    ContainerLogs(ContainerId),
    DockerInfo,
    ImagesList,
}

/// What a view wants done in answer to a key press.
#[derive(Debug, PartialEq, Eq)]
pub enum ViewAction {
    /// A command for the application.
    Command(AppCommand),
    /// Have the daemon carry out an operation on a container; what follows
    /// depends on how that ends.
    Lifecycle(LifecycleOp, ContainerId),
    /// Have the log widget take in an event.
    Dispatch(LogEvent),
}

/// A view of the application: a screen that knows how to handle input, what
/// to ask of the daemon to refresh itself, and what to show.
#[derive(Debug, Clone, PartialEq, Eq)]
pub enum View {
    ContainerList(ContainerListView),
    ContainerDetails(ContainerInfo),
    ContainerLogs(ContainerLogsView),
    DockerInfo(DockerInfo),
    Help(HelpView),
    ImagesList(ImagesListView),
    AppLogs(AppLogsView),
}

/// The mathematical value of a [`View`]: lists as sequences, a decoded log
/// as its lines, everything else as it is.
pub ghost enum ViewState {
    ContainerList(ContainerListState),
    ContainerDetails(ContainerInfo),
    ContainerLogs(ContainerLogsState),
    DockerInfo(DockerInfo),
    Help(HelpView),
    ImagesList(ImagesListState),
    AppLogs(AppLogsView),
}

impl ViewState {
    /// The view that is opened for `view_type`: without data, its cursor
    /// and its text at the top.
    pub open spec fn created(view_type: ViewType) -> ViewState {
        match view_type {
            ViewType::ContainerList => ViewState::ContainerList(
                ContainerListState { containers: Seq::empty(), selected: 0, only_running: false },
            ),
            ViewType::ContainerDetails(id) => ViewState::ContainerDetails(
                ContainerInfo::created(id),
            ),
            ViewType::ContainerLogs(id) => ViewState::ContainerLogs(
                ContainerLogsState::created(id),
            ),
            ViewType::DockerInfo => ViewState::DockerInfo(DockerInfo { info: None }),
            ViewType::Help => ViewState::Help(HelpView { scroll: 0 }),
            ViewType::ImagesList => ViewState::ImagesList(
                ImagesListState { images: Seq::empty(), selected: 0 },
            ),
            ViewType::AppLogs => ViewState::AppLogs(AppLogsView {  }),
        }
    }

    /// The cursor of a list stands on an entry, or at 0 in an empty list.
    pub open spec fn wf(self) -> bool {
        match self {
            ViewState::ContainerList(list) => list.wf(),
            ViewState::ImagesList(list) => list.wf(),
            _ => true,
        }
    }

    /// Whether the view can act on `key`: a text cannot be scrolled down
    /// beyond the last line number that its type has. Every other key suits
    /// every view.
    pub open spec fn accepts(self, key: Key) -> bool {
        match self {
            ViewState::ContainerDetails(details) => scroll_accepts(key, details.scroll),
            ViewState::ContainerLogs(logs) => scroll_accepts(key, logs.scroll),
            ViewState::Help(help) => scroll_accepts(key, help.scroll),
            _ => true,
        }
    }

    /// The view after `key` was pressed.
    pub open spec fn after_key(self, key: Key) -> ViewState {
        match self {
            ViewState::ContainerList(list) => ViewState::ContainerList(list.after_key(key)),
            ViewState::ContainerDetails(details) => ViewState::ContainerDetails(
                details.after_key(key),
            ),
            ViewState::ContainerLogs(logs) => ViewState::ContainerLogs(logs.after_key(key)),
            ViewState::DockerInfo(_) => self,
            ViewState::Help(help) => ViewState::Help(help.after_key(key)),
            ViewState::ImagesList(list) => ViewState::ImagesList(list.after_key(key)),
            ViewState::AppLogs(_) => self,
        }
    }

    /// What `key` asks for, or `None` for a key that the view does not bind.
    pub open spec fn action_for(self, key: Key) -> Option<ViewAction> {
        match self {
            ViewState::ContainerList(list) => list.action_for(key),
            ViewState::ContainerDetails(details) => scroll_action(key, details.scroll),
            ViewState::ContainerLogs(logs) => scroll_action(key, logs.scroll),
            ViewState::DockerInfo(_) => None,
            ViewState::Help(help) => scroll_action(key, help.scroll),
            ViewState::ImagesList(list) => list.action_for(key),
            ViewState::AppLogs(_) => log_action(key),
        }
    }

    /// The call that a refresh of the view makes, or `None` for a view that
    /// shows nothing of the daemon.
    pub open spec fn request(self) -> Option<DockerRequest> {
        match self {
            ViewState::ContainerList(list) => Some(list.request()),
            ViewState::ContainerDetails(details) => Some(details.request()),
            ViewState::ContainerLogs(logs) => Some(logs.request()),
            ViewState::DockerInfo(info) => Some(info.request()),
            ViewState::Help(_) => None,
            ViewState::ImagesList(list) => Some(list.request()),
            ViewState::AppLogs(_) => None,
        }
    }

    /// The view after a refresh that ended in `response`. The answer to the
    /// view's own call replaces what the view has cached; a failure, or an
    /// answer to another call, leaves the view as it was.
    pub open spec fn refreshed(self, response: DockerResponse) -> ViewState {
        match self {
            ViewState::ContainerList(list) => ViewState::ContainerList(list.refreshed(response)),
            ViewState::ContainerDetails(details) => ViewState::ContainerDetails(
                details.refreshed(response),
            ),
            ViewState::ContainerLogs(logs) => ViewState::ContainerLogs(logs.refreshed(response)),
            ViewState::DockerInfo(info) => ViewState::DockerInfo(info.refreshed(response)),
            ViewState::Help(_) => self,
            ViewState::ImagesList(list) => ViewState::ImagesList(list.refreshed(response)),
            ViewState::AppLogs(_) => self,
        }
    }
}

impl View {
    /// The view as a mathematical value.
    pub open spec fn view(&self) -> ViewState {
        match self {
            View::ContainerList(list) => ViewState::ContainerList(list@),
            View::ContainerDetails(details) => ViewState::ContainerDetails(*details),
            View::ContainerLogs(logs) => ViewState::ContainerLogs(logs@),
            View::DockerInfo(info) => ViewState::DockerInfo(*info),
            View::Help(help) => ViewState::Help(*help),
            View::ImagesList(list) => ViewState::ImagesList(list@),
            View::AppLogs(logs) => ViewState::AppLogs(*logs),
        }
    }

    /// Opens the view for `view_type`.
    pub fn new(view_type: ViewType) -> (view: View)
        ensures
            view@ == ViewState::created(view_type),
    {
        match view_type {
            ViewType::ContainerList => View::ContainerList(ContainerListView::new()),
            ViewType::ContainerDetails(id) => View::ContainerDetails(ContainerInfo::new(id)),
            ViewType::ContainerLogs(id) => View::ContainerLogs(ContainerLogsView::new(id)),
            ViewType::DockerInfo => View::DockerInfo(DockerInfo::new()),
            ViewType::Help => View::Help(HelpView::new()),
            ViewType::ImagesList => View::ImagesList(ImagesListView::new()),
            ViewType::AppLogs => View::AppLogs(AppLogsView::new()),
        }
    }

    /// Tests whether the view can act on `key`.
    pub fn accepts_key(&self, key: Key) -> (accepted: bool)
        ensures
            accepted == self@.accepts(key),
    {
        match self {
            View::ContainerDetails(details) => can_scroll(key, details.scroll),
            View::ContainerLogs(logs) => can_scroll(key, logs.scroll),
            View::Help(help) => can_scroll(key, help.scroll),
            _ => true,
        }
    }

    /// Handles a key press. `None` says that the view does not bind the
    /// key.
    pub fn handle_input(&mut self, key: Key) -> (action: Option<ViewAction>)
        requires
            old(self)@.accepts(key),
        ensures
            final(self)@ == old(self)@.after_key(key),
            action == old(self)@.action_for(key),
    {
        match self {
            View::ContainerList(list) => list.handle_input(key),
            View::ContainerDetails(details) => details.handle_input(key),
            View::ContainerLogs(logs) => logs.handle_input(key),
            View::DockerInfo(info) => info.handle_input(key),
            View::Help(help) => help.handle_input(key),
            View::ImagesList(list) => list.handle_input(key),
            View::AppLogs(logs) => logs.handle_input(key),
        }
    }

    /// The call that a refresh of the view makes, if it makes one.
    pub fn refresh_request(&self) -> (request: Option<DockerRequest>)
        ensures
            request == self@.request(),
    {
        match self {
            View::ContainerList(list) => Some(list.refresh_request()),
            View::ContainerDetails(details) => Some(details.refresh_request()),
            View::ContainerLogs(logs) => Some(logs.refresh_request()),
            View::DockerInfo(info) => Some(info.refresh_request()),
            View::Help(_) => None,
            View::ImagesList(list) => Some(list.refresh_request()),
            View::AppLogs(_) => None,
        }
    }

    /// Takes in the outcome of the call that [`Self::refresh_request`] asked
    /// for, and says what is to be done about it.
    pub fn refresh(&mut self, response: DockerResponse) -> (command: AppCommand)
        ensures
            final(self)@ == old(self)@.refreshed(response),
            command == refresh_outcome(response),
    {
        match self {
            View::ContainerList(list) => list.refresh(response),
            View::ContainerDetails(details) => details.refresh(response),
            View::ContainerLogs(logs) => logs.refresh(response),
            View::DockerInfo(info) => info.refresh(response),
            View::Help(_) => Self::unchanged(response),
            View::ImagesList(list) => list.refresh(response),
            View::AppLogs(_) => Self::unchanged(response),
        }
    }

    /// The answer of a view that has nothing to refresh.
    fn unchanged(response: DockerResponse) -> (command: AppCommand)
        ensures
            command == refresh_outcome(response),
    {
        match response {
            DockerResponse::Failed(description) => AppCommand::ErrorMsg(description),
            _ => AppCommand::NoOp,
        }
    }
}

/// How many entries a page key moves the cursor of a list.
pub const PAGE: usize = 10;

/// Where the cursor of a list of `len` entries stands after moving down by
/// `by` from `selected`: it stops at the last entry, and stays where it is
/// in an empty list.
pub open spec fn cursor_forward(selected: nat, len: nat, by: nat) -> nat {
    if len == 0 {
        selected
    } else if selected + by <= len - 1 {
        selected + by
    } else {
        (len - 1) as nat
    }
}

/// Where the cursor of a list of `len` entries stands after moving up by
/// `by` from `selected`: it stops at the first entry, and stays where it is
/// in an empty list.
pub open spec fn cursor_back(selected: nat, len: nat, by: nat) -> nat {
    if len == 0 {
        selected
    } else if selected >= by {
        (selected - by) as nat
    } else {
        0
    }
}

/// Where a key moves the cursor of a list of `len` entries that stands at
/// `selected`, or `None` if the key does not move it.
///
/// Up and down (also `k` and `j`) move by one, page up and page down (also
/// Ctrl-u and Ctrl-d) by [`PAGE`], home and end (also `g` and `G`) to the
/// first and last entry. No movement wraps around.
pub open spec fn cursor_target(key: Key, selected: nat, len: nat) -> Option<nat> {
    match key {
        Key::Down | Key::Char('j') => Some(cursor_forward(selected, len, 1)),
        Key::Up | Key::Char('k') => Some(cursor_back(selected, len, 1)),
        Key::PageDown | Key::Ctrl('d') => Some(cursor_forward(selected, len, PAGE as nat)),
        Key::PageUp | Key::Ctrl('u') => Some(cursor_back(selected, len, PAGE as nat)),
        Key::End | Key::Char('G') => Some(
            if len == 0 {
                selected
            } else {
                (len - 1) as nat
            },
        ),
        Key::Home | Key::Char('g') => Some(
            if len == 0 {
                selected
            } else {
                0
            },
        ),
        _ => None,
    }
}

/// Whether `selected` is a valid cursor for a list of `len` entries: the
/// index of an entry, or 0 in an empty list.
pub open spec fn cursor_in_range(selected: nat, len: nat) -> bool {
    if len == 0 {
        selected == 0
    } else {
        selected < len
    }
}

/// The cursor after the list under it was replaced by one of `len` entries:
/// 0 in an empty list, the last entry if it stood beyond it, else unchanged.
pub open spec fn cursor_clamped(selected: nat, len: nat) -> nat {
    if len == 0 {
        0
    } else if selected >= len {
        (len - 1) as nat
    } else {
        selected
    }
}

/// The command that a view answers a refresh with: the failure's
/// description for the status line, or nothing to be done.
pub open spec fn refresh_outcome(response: DockerResponse) -> AppCommand {
    match response {
        DockerResponse::Failed(description) => AppCommand::ErrorMsg(description),
        _ => AppCommand::NoOp,
    }
}

/// Where a key scrolls a text that stands at line `scroll`, or `None` if the
/// key does not scroll: up (also `k`) goes one line back and stops at the
/// top, down (also `j`) goes one line on.
pub open spec fn scroll_target(key: Key, scroll: u16) -> Option<u16> {
    match key {
        Key::Up | Key::Char('k') => Some(
            if scroll > 0 {
                (scroll - 1) as u16
            } else {
                0
            },
        ),
        Key::Down | Key::Char('j') => Some((scroll + 1) as u16),
        _ => None,
    }
}

/// Whether a text at line `scroll` can take `key`: the line number has to
/// stay within its type when the key scrolls down.
pub open spec fn scroll_accepts(key: Key, scroll: u16) -> bool {
    (key == Key::Down || key == Key::Char('j')) ==> scroll < u16::MAX
}

/// Tests [`scroll_accepts`].
pub fn can_scroll(key: Key, scroll: u16) -> (accepted: bool)
    ensures
        accepted == scroll_accepts(key, scroll),
{
    match key {
        Key::Down | Key::Char('j') => scroll < u16::MAX,
        _ => true,
    }
}

/// Scrolls a text as `key` asks; see [`scroll_target`].
pub fn scroll_by_key(key: Key, scroll: u16) -> (target: Option<u16>)
    requires
        scroll_accepts(key, scroll),
    ensures
        target == scroll_target(key, scroll),
{
    match key {
        Key::Up | Key::Char('k') => Some(
            if scroll > 0 {
                scroll - 1
            } else {
                0
            },
        ),
        Key::Down | Key::Char('j') => Some(scroll + 1),
        _ => None,
    }
}

/// What a view that only scrolls answers to `key`.
pub open spec fn scroll_action(key: Key, scroll: u16) -> Option<ViewAction> {
    match scroll_target(key, scroll) {
        Some(_) => Some(ViewAction::Command(AppCommand::NoOp)),
        None => None,
    }
}

fn move_forward(selected: usize, len: usize, by: usize) -> (target: usize)
    ensures
        target == cursor_forward(selected as nat, len as nat, by as nat),
{
    if len == 0 {
        selected
    } else if len - 1 >= by && selected <= len - 1 - by {
        selected + by
    } else {
        len - 1
    }
}

fn move_back(selected: usize, len: usize, by: usize) -> (target: usize)
    ensures
        target == cursor_back(selected as nat, len as nat, by as nat),
{
    if len == 0 {
        selected
    } else if selected >= by {
        selected - by
    } else {
        0
    }
}

/// Moves the cursor of a list as `key` asks; see [`cursor_target`].
pub fn move_cursor(key: Key, selected: usize, len: usize) -> (target: Option<usize>)
    ensures
        cursor_target(key, selected as nat, len as nat) == match target {
            Some(target) => Some(target as nat),
            None => None,
        },
{
    match key {
        Key::Down | Key::Char('j') => Some(move_forward(selected, len, 1)),
        Key::Up | Key::Char('k') => Some(move_back(selected, len, 1)),
        Key::PageDown | Key::Ctrl('d') => Some(move_forward(selected, len, PAGE)),
        Key::PageUp | Key::Ctrl('u') => Some(move_back(selected, len, PAGE)),
        Key::End | Key::Char('G') => Some(
            if len == 0 {
                selected
            } else {
                len - 1
            },
        ),
        Key::Home | Key::Char('g') => Some(
            if len == 0 {
                selected
            } else {
                0
            },
        ),
        _ => None,
    }
}

/// Brings the cursor back into a list that was replaced; see
/// [`cursor_clamped`].
pub fn clamp_cursor(selected: usize, len: usize) -> (cursor: usize)
    ensures
        cursor == cursor_clamped(selected as nat, len as nat),
{
    if len == 0 {
        0
    } else if selected >= len {
        len - 1
    } else {
        selected
    }
}

/// The whole seconds that a `Duration` spans.
pub uninterp spec fn duration_secs(d: Duration) -> u64;

/// Calls `Duration::as_secs`, which gives the whole seconds of the duration
/// and leaves its fractional part out.
#[verifier::external_body]
fn as_secs(d: &Duration) -> (seconds: u64)
    ensures
        seconds == duration_secs(*d),
{
    d.as_secs()
}

/// How a span of `seconds` is worded for a reader.
///
/// Up to a minute it is counted in seconds, up to 45 minutes in whole
/// minutes, and from there in hours rounded to the nearest, halves up. Two
/// days and more are given in days, two weeks and more in weeks, two months
/// of 30 days and more in months, two years of 365 days and more in years,
/// each rounded down.
pub open spec fn duration_text(seconds: nat) -> Seq<char> {
    let minutes = seconds / 60;
    let hours = (minutes + 30) / 60;
    if seconds < 1 {
        "Less than a second"@
    } else if seconds == 1 {
        "1 second"@
    } else if seconds < 60 {
        decimal(seconds) + " seconds"@
    } else if minutes == 1 {
        "About 1 minute"@
    } else if minutes < 46 {
        decimal(minutes) + " minutes"@
    } else if hours == 1 {
        "About 1 hour"@
    } else if hours < 48 {
        decimal(hours) + " hours"@
    } else if hours < 24 * 7 * 2 {
        decimal(hours / 24) + " days"@
    } else if hours < 24 * 30 * 2 {
        decimal(hours / 24 / 7) + " weeks"@
    } else if hours < 24 * 365 * 2 {
        decimal(hours / 24 / 30) + " months"@
    } else {
        decimal(hours / 24 / 365) + " years"@
    }
}

/// Words a span of whole seconds; see [`duration_text`].
pub fn human_seconds(seconds: u64) -> (text: String)
    ensures
        text@ == duration_text(seconds as nat),
{
    if seconds < 1 {
        return String::from_str("Less than a second");
    } else if seconds == 1 {
        return String::from_str("1 second");
    } else if seconds < 60 {
        return u64_to_string(seconds).concat(" seconds");
    }
    let minutes = seconds / 60;
    if minutes == 1 {
        return String::from_str("About 1 minute");
    } else if minutes < 46 {
        return u64_to_string(minutes).concat(" minutes");
    }
    let hours = (minutes + 30) / 60;
    if hours == 1 {
        String::from_str("About 1 hour")
    } else if hours < 48 {
        u64_to_string(hours).concat(" hours")
    } else if hours < 24 * 7 * 2 {
        u64_to_string(hours / 24).concat(" days")
    } else if hours < 24 * 30 * 2 {
        u64_to_string(hours / 24 / 7).concat(" weeks")
    } else if hours < 24 * 365 * 2 {
        u64_to_string(hours / 24 / 30).concat(" months")
    } else {
        u64_to_string(hours / 24 / 365).concat(" years")
    }
}

/// Words a duration for a reader: "42 seconds", "About 1 hour", "3 weeks".
pub fn human_duration(d: &Duration) -> (text: String)
    ensures
        text@ == duration_text(duration_secs(*d) as nat),
{
    human_seconds(as_secs(d))
}

} // verus!
