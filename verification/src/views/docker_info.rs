//! The system information of the daemon.

use crate::app::AppCommand;
use crate::docker::{DockerRequest, DockerResponse, Info};
use crate::event::Key;
use crate::text::{decimal, u64_to_string};
use crate::ui::{span_of, spans_view, Span, Style};
use crate::views::{refresh_outcome, ViewAction};
use vstd::prelude::*;

verus! {

/// The system information of the daemon.
#[derive(Debug, Clone, PartialEq, Eq)]
pub struct DockerInfo {
    /// The information as it was last fetched.
    pub info: Option<Info>,
}

impl DockerInfo {
    /// The view without information, to be filled by a refresh.
    pub fn new() -> (view: DockerInfo)
        ensures
            view.info is None,
    {
        DockerInfo { info: None }
    }

    /// Handles a key press: the view binds no key.
    pub fn handle_input(&mut self, key: Key) -> (action: Option<ViewAction>)
        ensures
            *final(self) == *old(self),
            action is None,
    {
        None
    }

    /// The call that a refresh makes: fetch the system information.
    pub open spec fn request(self) -> DockerRequest {
        DockerRequest::Info
    }

    /// The call that a refresh makes.
    pub fn refresh_request(&self) -> (request: DockerRequest)
        ensures
            request == self.request(),
    {
        DockerRequest::Info
    }

    /// The view after a refresh that ended in `response`: information
    /// replaces the cached one; anything else leaves the view as it was.
    pub open spec fn refreshed(self, response: DockerResponse) -> DockerInfo {
        match response {
            DockerResponse::Info(info) => DockerInfo { info: Some(info) },
            _ => self,
        }
    }

    /// Takes in the outcome of the call that [`Self::refresh_request`] asked
    /// for.
    pub fn refresh(&mut self, response: DockerResponse) -> (command: AppCommand)
        ensures
            *final(self) == old(self).refreshed(response),
            command == refresh_outcome(response),
    {
        match response {
            DockerResponse::Info(info) => {
                self.info = Some(info);
                AppCommand::NoOp
            },
            DockerResponse::Failed(description) => AppCommand::ErrorMsg(description),
            _ => AppCommand::NoOp,
        }
    }

    /// What the view shows: the host and the engine under a heading each,
    /// or a notice while there is no information.
    pub open spec fn shown(self) -> Seq<(Seq<char>, Style)> {
        match self.info {
            Some(info) => seq![
                ("Host details\n"@, Style::Heading),
                ("Hostname:       "@ + info.name@ + "\n"@, Style::Normal),
                ("OS Information: "@ + info.operating_system@ + "\n"@, Style::Normal),
                ("Kernel Version: "@ + info.kernel_version@ + "\n"@, Style::Normal),
                ("Total CPU:      "@ + decimal(info.n_cpu as nat) + "\n"@, Style::Normal),
                ("Total Memory:   "@ + decimal(info.mem_total as nat) + "\n"@, Style::Normal),
                ("\n"@, Style::Normal),
                ("Engine details\n"@, Style::Heading),
                ("Root Directory:       "@ + info.docker_root_dir@ + "\n"@, Style::Normal),
                ("Storage Driver:       "@ + info.driver@ + "\n"@, Style::Normal),
            ],
            None => seq![
                ("Could not retrieve information from the Docker daemon."@, Style::Normal),
            ],
        }
    }

    /// The text that the view shows.
    pub fn text(&self) -> (spans: Vec<Span>)
        ensures
            spans_view(spans@) == self.shown(),
    {
        let mut spans: Vec<Span> = Vec::new();
        match &self.info {
            Some(info) => {
                spans.push(Span { text: String::from_str("Host details\n"), style: Style::Heading });
                spans.push(span_of("Hostname:       ", info.name.as_str(), "\n", Style::Normal));
                spans.push(
                    span_of("OS Information: ", info.operating_system.as_str(), "\n", Style::Normal),
                );
                spans.push(
                    span_of("Kernel Version: ", info.kernel_version.as_str(), "\n", Style::Normal),
                );
                spans.push(
                    span_of(
                        "Total CPU:      ",
                        u64_to_string(info.n_cpu).as_str(),
                        "\n",
                        Style::Normal,
                    ),
                );
                spans.push(
                    span_of(
                        "Total Memory:   ",
                        u64_to_string(info.mem_total).as_str(),
                        "\n",
                        Style::Normal,
                    ),
                );
                spans.push(Span { text: String::from_str("\n"), style: Style::Normal });
                spans.push(
                    Span { text: String::from_str("Engine details\n"), style: Style::Heading },
                );
                spans.push(
                    span_of(
                        "Root Directory:       ",
                        info.docker_root_dir.as_str(),
                        "\n",
                        Style::Normal,
                    ),
                );
                spans.push(
                    span_of("Storage Driver:       ", info.driver.as_str(), "\n", Style::Normal),
                );
            },
            None => {
                spans.push(
                    Span {
                        text: String::from_str(
                            "Could not retrieve information from the Docker daemon.",
                        ),
                        style: Style::Normal,
                    },
                );
            },
        }
        assert(spans_view(spans@) =~= self.shown());
        spans
    }
}

} // verus!
