//! The details of one container.

use crate::app::{AppCommand, ContainerId};
use crate::docker::{DockerRequest, DockerResponse};
use crate::event::Key;
use crate::views::{
    refresh_outcome, scroll_accepts, scroll_action, scroll_by_key, scroll_target, ViewAction,
};
use vstd::prelude::*;

verus! {

/// What the daemon knows of one container, as a text that can be scrolled.
#[derive(Debug, Clone, PartialEq, Eq)]
pub struct ContainerInfo {
    /// The id of the container.
    pub name: String,
    /// The details as they were last fetched, written out for display.
    pub details: Option<String>,
    /// The first line that is shown.
    pub scroll: u16,
}

impl ContainerInfo {
    /// The view of the container `id`, without details until it is
    /// refreshed.
    pub fn new(id: ContainerId) -> (view: ContainerInfo)
        ensures
            view == Self::created(id),
    {
        let ContainerId(id) = id;
        ContainerInfo { name: id, details: None, scroll: 0 }
    }

    /// The view that [`Self::new`] makes.
    pub open spec fn created(id: ContainerId) -> ContainerInfo {
        ContainerInfo { name: id.0, details: None, scroll: 0 }
    }

    /// The view after `key` was pressed.
    pub open spec fn after_key(self, key: Key) -> ContainerInfo {
        match scroll_target(key, self.scroll) {
            Some(scroll) => ContainerInfo { scroll, ..self },
            None => self,
        }
    }

    /// Handles a key press: up and down scroll the text, and no other key
    /// is bound.
    pub fn handle_input(&mut self, key: Key) -> (action: Option<ViewAction>)
        requires
            scroll_accepts(key, old(self).scroll),
        ensures
            *final(self) == old(self).after_key(key),
            action == scroll_action(key, old(self).scroll),
    {
        match scroll_by_key(key, self.scroll) {
            Some(scroll) => {
                self.scroll = scroll;
                Some(ViewAction::Command(AppCommand::NoOp))
            },
            None => None,
        }
    }

    /// The call that a refresh makes: inspect the container.
    pub open spec fn request(self) -> DockerRequest {
        DockerRequest::Inspect(ContainerId(self.name))
    }

    /// The call that a refresh makes.
    pub fn refresh_request(&self) -> (request: DockerRequest)
        ensures
            request == self.request(),
    {
        DockerRequest::Inspect(ContainerId(self.name.clone()))
    }

    /// The view after a refresh that ended in `response`: details replace
    /// the cached ones; anything else leaves the view as it was.
    pub open spec fn refreshed(self, response: DockerResponse) -> ContainerInfo {
        match response {
            DockerResponse::Details(details) => ContainerInfo { details: Some(details), ..self },
            _ => self,
        }
    }

    /// Takes in the outcome of the call that [`Self::refresh_request`] asked
    /// for.
    pub fn refresh(&mut self, response: DockerResponse) -> (command: AppCommand)
        ensures
            *final(self) == old(self).refreshed(response),
            command == refresh_outcome(response),
    {
        match response {
            DockerResponse::Details(details) => {
                self.details = Some(details);
                AppCommand::NoOp
            },
            DockerResponse::Failed(description) => AppCommand::ErrorMsg(description),
            _ => AppCommand::NoOp,
        }
    }

    /// What the view shows: the details, or a notice while there are none.
    pub open spec fn shown(self) -> Seq<char> {
        match self.details {
            Some(details) => details@,
            None => "Could not retrieve container details."@,
        }
    }

    /// The text that the view shows.
    pub fn text(&self) -> (text: String)
        ensures
            text@ == self.shown(),
    {
        match &self.details {
            Some(details) => details.clone(),
            None => String::from_str("Could not retrieve container details."),
        }
    }
}

} // verus!
