//! The output of one container.

use crate::app::{AppCommand, ContainerId};
use crate::docker::{DockerRequest, DockerResponse, LogsOptions};
use crate::event::Key;
use crate::tty::{demux, Line, Tty, TtyLine};
use crate::ui::{spans_view, Span, Style};
use crate::views::{
    refresh_outcome, scroll_accepts, scroll_action, scroll_by_key, scroll_target, ViewAction,
};
use vstd::prelude::*;

verus! {

/// How many lines of output the view fetches, counted from the end.
pub const TAIL: u64 = 100;

/// What a container has written to its standard output and standard error.
#[derive(Debug, Clone, PartialEq, Eq)]
pub struct ContainerLogsView {
    /// The container.
    pub id: ContainerId,
    /// The first line that is shown.
    pub scroll: u16,
    /// The output as it was last fetched.
    pub logs: Option<Tty>,
}

/// The mathematical value of a [`ContainerLogsView`].
pub ghost struct ContainerLogsState {
    pub id: ContainerId,
    pub scroll: u16,
    pub logs: Option<Seq<Line>>,
}

impl ContainerLogsState {
    /// The view of the output of container `id`, empty until it is
    /// refreshed.
    pub open spec fn created(id: ContainerId) -> ContainerLogsState {
        ContainerLogsState { id, scroll: 0, logs: None }
    }

    /// The view after `key` was pressed.
    pub open spec fn after_key(self, key: Key) -> ContainerLogsState {
        match scroll_target(key, self.scroll) {
            Some(scroll) => ContainerLogsState { scroll, ..self },
            None => self,
        }
    }

    /// What the view shows: the lines of the output in their order, and
    /// nothing before the first refresh.
    pub open spec fn shown(self) -> Seq<(Seq<char>, Style)> {
        match self.logs {
            Some(lines) => lines.map_values(|line: Line| shown_line(line)),
            None => Seq::empty(),
        }
    }

    /// The call that a refresh makes: fetch the last [`TAIL`] lines of both
    /// streams, without waiting for more.
    pub open spec fn request(self) -> DockerRequest {
        DockerRequest::Logs(
            self.id,
            LogsOptions { follow: false, tail: TAIL, stdout: true, stderr: true },
        )
    }

    /// The view after a refresh that ended in `response`: the lines that a
    /// stream decodes to replace the cached ones; anything else leaves the
    /// view as it was.
    pub open spec fn refreshed(self, response: DockerResponse) -> ContainerLogsState {
        match response {
            DockerResponse::Logs(stream) => ContainerLogsState {
                logs: Some(demux(stream@)),
                ..self
            },
            _ => self,
        }
    }
}

/// How a line of output is shown: standard error stands out.
pub open spec fn shown_line(line: Line) -> (Seq<char>, Style) {
    match line {
        Line::StdOut(text) => (text, Style::Normal),
        Line::StdErr(text) => (text, Style::StdErr),
    }
}

impl ContainerLogsView {
    /// The view as a mathematical value.
    pub open spec fn view(&self) -> ContainerLogsState {
        ContainerLogsState {
            id: self.id,
            scroll: self.scroll,
            logs: match self.logs {
                Some(tty) => Some(tty@),
                None => None,
            },
        }
    }

    /// The view of the output of container `id`, empty until it is
    /// refreshed.
    pub fn new(id: ContainerId) -> (view: ContainerLogsView)
        ensures
            view@ == ContainerLogsState::created(id),
    {
        ContainerLogsView { id, scroll: 0, logs: None }
    }

    /// Handles a key press: up and down scroll the output, and no other key
    /// is bound.
    pub fn handle_input(&mut self, key: Key) -> (action: Option<ViewAction>)
        requires
            scroll_accepts(key, old(self).scroll),
        ensures
            final(self)@ == old(self)@.after_key(key),
            action == scroll_action(key, old(self).scroll),
    {
        match scroll_by_key(key, self.scroll) {
            Some(scroll) => {
                self.scroll = scroll;
                Some(ViewAction::Command(AppCommand::NoOp))
            },
            None => None,
        }
    }

    /// The call that a refresh makes.
    pub fn refresh_request(&self) -> (request: DockerRequest)
        ensures
            request == self@.request(),
    {
        DockerRequest::Logs(
            self.id.clone(),
            LogsOptions { follow: false, tail: TAIL, stdout: true, stderr: true },
        )
    }

    /// Takes in the outcome of the call that [`Self::refresh_request`] asked
    /// for.
    pub fn refresh(&mut self, response: DockerResponse) -> (command: AppCommand)
        ensures
            final(self)@ == old(self)@.refreshed(response),
            command == refresh_outcome(response),
    {
        match response {
            DockerResponse::Logs(stream) => {
                self.logs = Some(Tty::new(stream.as_slice()));
                AppCommand::NoOp
            },
            DockerResponse::Failed(description) => AppCommand::ErrorMsg(description),
            _ => AppCommand::NoOp,
        }
    }

    /// The lines that the view shows.
    pub fn text(&self) -> (spans: Vec<Span>)
        ensures
            spans_view(spans@) == self@.shown(),
    {
        let mut spans: Vec<Span> = Vec::new();
        match &self.logs {
            Some(tty) => {
                let mut i: usize = 0;
                while i < tty.lines.len()
                    invariant
                        i <= tty.lines@.len(),
                        spans@.len() == i,
                        forall|j: int|
                            0 <= j < i ==> (#[trigger] spans@[j])@ == shown_line(tty.lines@[j]@),
                    decreases tty.lines@.len() - i,
                {
                    let span = match &tty.lines[i] {
                        TtyLine::StdOut(text) => Span { text: text.clone(), style: Style::Normal },
                        TtyLine::StdErr(text) => Span { text: text.clone(), style: Style::StdErr },
                    };
                    spans.push(span);
                    i += 1;
                }
                assert(spans_view(spans@) =~= self@.shown());
            },
            None => {
                assert(spans_view(spans@) =~= self@.shown());
            },
        }
        spans
    }
}

} // verus!
