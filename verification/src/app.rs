//! The application controller: the view stack, the global key bindings and
//! the interpretation of the commands that key presses lead to.

use crate::docker::{DockerRequest, DockerResponse, Info, LifecycleOp, Version};
use crate::event::Key;
use crate::text::{decimal, u64_to_string};
use crate::ui::{span_of, spans_view, Rect, Span, Style};
use crate::views::container_list::{
    failure_text, lemma_failure_text_holds_description, needs_selection,
};
use crate::views::{
    refresh_outcome, ContainerListView, LogEvent, View, ViewAction, ViewState, ViewType,
};
use std::collections::VecDeque;
use vstd::prelude::*;
use vstd::view::View as _;

verus! {

/// Identifies a container: the daemon's own id for it.
#[derive(Debug, PartialEq, Eq)]
pub struct ContainerId(pub String);

impl ContainerId {
    /// The characters of the id.
    pub open spec fn view(&self) -> Seq<char> {
        self.0@
    }
}

impl Clone for ContainerId {
    fn clone(&self) -> (id: ContainerId)
        ensures
            id == *self,
    {
        ContainerId(self.0.clone())
    }
}

/// What a key press asks of the application.
#[derive(Debug, Clone, PartialEq, Eq)]
pub enum AppCommand {
    /// Close the current view.
    ExitView,
    /// Open a new view on top of the current one.
    SwitchToView(ViewType),
    /// The key was consumed; nothing else is to be done.
    NoOp,
    /// Show this message in the status line.
    ErrorMsg(String),
    /// Fetch the data of the current view anew.
    Refresh,
}

/// The events of the main loop.
#[derive(Debug, Clone, Copy, PartialEq, Eq)]
pub enum AppEvent {
    /// A key was pressed.
    Input(Key),
    /// The refresh interval has passed.
    Tick,
}

/// The call whose outcome the application is waiting for.
#[derive(Debug, Clone, Copy, PartialEq, Eq, Structural)]
pub enum Pending {
    /// No call is under way.
    Idle,
    /// The daemon's system information, which every refresh fetches first.
    Info,
    /// The call that the current view has asked for to refresh itself.
    View,
    /// An operation on a container.
    Lifecycle(LifecycleOp),
}

/// What the main loop has to do once the application has taken in an
/// event.
#[derive(Debug, PartialEq, Eq)]
pub enum Step {
    /// Draw, and wait for the next event.
    Continue,
    /// The last view was closed: leave the loop.
    Exit,
    /// Perform this call and hand its outcome to
    /// [`App::handle_response`].
    Call(DockerRequest),
    /// Have the log widget take in this event, then draw and wait for the
    /// next event.
    Dispatch(LogEvent),
}

/// The command that a key stands for in every view: `q` closes the current
/// view, `i`, `v`, `?` and `L` open the images, the system information, the
/// help and the application log, and `R` refreshes.
pub open spec fn global_command(key: Key) -> Option<AppCommand> {
    match key {
        Key::Char('q') => Some(AppCommand::ExitView),
        Key::Char('i') => Some(AppCommand::SwitchToView(ViewType::ImagesList)),
        Key::Char('v') => Some(AppCommand::SwitchToView(ViewType::DockerInfo)),
        Key::Char('?') => Some(AppCommand::SwitchToView(ViewType::Help)),
        Key::Char('L') => Some(AppCommand::SwitchToView(ViewType::AppLogs)),
        Key::Char('R') => Some(AppCommand::Refresh),
        _ => None,
    }
}

/// The mathematical value of an [`App`].
pub ghost struct AppState {
    /// The view stack; the view at index 0 is the one on display.
    pub views: Seq<ViewState>,
    /// The message of the status line.
    pub status: Option<Seq<char>>,
    /// The daemon's system information as it was last fetched.
    pub info: Info,
    /// The daemon's version.
    pub version: Version,
    /// The call that is under way.
    pub pending: Pending,
    /// The size of the screen as the application last saw it.
    pub size: Rect,
}

/// How many lines of the screen go to the title bar and the status line.
pub const FRAME_LINES: u16 = 2;

impl AppState {
    /// The application at its start: the container list is on display and
    /// no call is under way.
    pub open spec fn initial(info: Info, version: Version) -> AppState {
        AppState {
            views: seq![ViewState::created(ViewType::ContainerList)],
            status: None,
            info,
            version,
            pending: Pending::Idle,
            size: Rect { x: 0, y: 0, width: 0, height: 0 },
        }
    }

    /// The title bar: the application's name and version, the number of
    /// containers and images, and the daemon's version.
    pub open spec fn status_bar(self, app_version: Seq<char>) -> Seq<(Seq<char>, Style)> {
        seq![
            ("Rocker v"@ + app_version + "     "@, Style::Normal),
            (decimal(self.info.containers as nat), Style::Highlight),
            (" containers, "@, Style::Normal),
            (decimal(self.info.images as nat), Style::Highlight),
            (" images, "@, Style::Normal),
            (
                "docker v"@ + self.version.version@ + " ("@ + self.version.api_version@ + ")"@,
                Style::Normal,
            ),
        ]
    }

    /// The status line: the last message, if there was one.
    pub open spec fn status_message(self) -> (Seq<char>, Style) {
        match self.status {
            Some(message) => (message, Style::Alert),
            None => ("No message"@, Style::Normal),
        }
    }

    /// The application runs as long as a view is left on the stack.
    pub open spec fn running(self) -> bool {
        self.views.len() > 0
    }

    /// The cursor of every list on the stack stands in its list.
    pub open spec fn cursors_in_range(self) -> bool {
        forall|i: int| 0 <= i < self.views.len() ==> (#[trigger] self.views[i]).wf()
    }

    /// The view on display.
    pub open spec fn top(self) -> ViewState
        recommends
            self.running(),
    {
        self.views[0]
    }

    /// The state with another call under way.
    pub open spec fn waiting_for(self, pending: Pending) -> AppState {
        AppState { pending, ..self }
    }

    /// The state with another view on display in place of the current one.
    pub open spec fn with_top(self, top: ViewState) -> AppState {
        AppState { views: self.views.update(0, top), ..self }
    }

    /// Whether the application can act on `key`: a view has to be on the
    /// stack, and a key without a global binding must not scroll the text on
    /// display beyond the last line number.
    pub open spec fn accepts(self, key: Key) -> bool {
        self.running() && (global_command(key) is Some || self.top().accepts(key))
    }

    /// The start of a refresh: the daemon's system information is fetched
    /// first, the data of the view on display after it.
    pub open spec fn begin_refresh(self) -> (AppState, Step) {
        (self.waiting_for(Pending::Info), Step::Call(DockerRequest::Info))
    }

    /// What a command does to the application.
    ///
    /// Opening a view puts it on top of the stack and refreshes; closing
    /// the view takes it off, and the application is to exit when that was
    /// the last one; a message replaces the one in the status line.
    pub open spec fn interpret(self, command: AppCommand) -> (AppState, Step) {
        match command {
            AppCommand::SwitchToView(view_type) => AppState {
                views: seq![ViewState::created(view_type)] + self.views,
                ..self
            }.begin_refresh(),
            AppCommand::ExitView => (
                AppState { views: self.views.drop_first(), pending: Pending::Idle, ..self },
                if self.views.len() <= 1 {
                    Step::Exit
                } else {
                    Step::Continue
                },
            ),
            AppCommand::NoOp => (self.waiting_for(Pending::Idle), Step::Continue),
            AppCommand::ErrorMsg(message) => (
                AppState { status: Some(message@), pending: Pending::Idle, ..self },
                Step::Continue,
            ),
            AppCommand::Refresh => self.begin_refresh(),
        }
    }

    /// What a key press does to the application.
    ///
    /// The global bindings come first. A key without one goes to the view
    /// on display, and a key that the view does not bind either is consumed
    /// without effect.
    pub open spec fn on_key(self, key: Key) -> (AppState, Step)
        recommends
            self.accepts(key),
    {
        match global_command(key) {
            Some(command) => self.interpret(command),
            None => {
                let handled = self.with_top(self.top().after_key(key));
                match self.top().action_for(key) {
                    Some(ViewAction::Command(command)) => handled.interpret(command),
                    Some(ViewAction::Lifecycle(op, id)) => (
                        handled.waiting_for(Pending::Lifecycle(op)),
                        Step::Call(DockerRequest::Lifecycle(op, id)),
                    ),
                    Some(ViewAction::Dispatch(event)) => (
                        handled.waiting_for(Pending::Idle),
                        Step::Dispatch(event),
                    ),
                    None => handled.interpret(AppCommand::NoOp),
                }
            },
        }
    }

    /// What an event does to the application: a key press is handled, a
    /// tick starts a refresh.
    pub open spec fn on_event(self, event: AppEvent) -> (AppState, Step) {
        match event {
            AppEvent::Input(key) => self.on_key(key),
            AppEvent::Tick => self.begin_refresh(),
        }
    }

    /// Whether `response` is an outcome of the call that is under way.
    pub open spec fn expects(self, response: DockerResponse) -> bool {
        match self.pending {
            Pending::Idle => false,
            Pending::Info => DockerRequest::Info.answered_by(response),
            Pending::Lifecycle(_) => response is Done || response is Failed,
            Pending::View => self.running() && match self.top().request() {
                Some(request) => request.answered_by(response),
                None => false,
            },
        }
    }

    /// What the outcome of a call does to the application.
    ///
    /// - System information is stored, and the refresh goes on with the
    ///   call of the view on display, if it has one.
    /// - The answer to a view's call goes to the view on display.
    /// - An operation on a container that was carried out is followed by a
    ///   refresh.
    /// - A failure ends what was under way and puts its description into
    ///   the status line; the views keep what they have cached.
    /// - A response that is no outcome of the call under way is dropped.
    pub open spec fn on_response(self, response: DockerResponse) -> (AppState, Step) {
        if !self.expects(response) {
            (self, Step::Continue)
        } else {
            match self.pending {
                Pending::Info => match response {
                    DockerResponse::Info(info) => {
                        let informed = AppState { info, ..self };
                        match self.top().request() {
                            Some(request) => (
                                informed.waiting_for(Pending::View),
                                Step::Call(request),
                            ),
                            None => (informed.waiting_for(Pending::Idle), Step::Continue),
                        }
                    },
                    _ => self.interpret(refresh_outcome(response)),
                },
                Pending::Lifecycle(op) => match response {
                    DockerResponse::Failed(description) => (
                        AppState {
                            status: Some(failure_text(op, description@)),
                            pending: Pending::Idle,
                            ..self
                        },
                        Step::Continue,
                    ),
                    _ => self.begin_refresh(),
                },
                _ => self.with_top(self.top().refreshed(response)).interpret(
                    refresh_outcome(response),
                ),
            }
        }
    }
}

/// Contains the state of the application.
pub struct App {
    /// Version info of the Docker daemon
    docker_version: Version,
    /// System info of the Docker daemon
    info: Info,
    /// View stack: The top (=front) of the stack is the view that is displayed
    view_stack: VecDeque<View>,
    /// The message of the status line
    err_msg: Option<String>,
    /// The call whose outcome is awaited
    pending: Pending,
    /// The current size of the application
    size: Rect,
}

impl App {
    /// The application as a mathematical value.
    pub closed spec fn view(&self) -> AppState {
        AppState {
            views: self.view_stack@.map_values(|v: View| v@),
            status: match self.err_msg {
                Some(message) => Some(message@),
                None => None,
            },
            info: self.info,
            version: self.docker_version,
            pending: self.pending,
            size: self.size,
        }
    }

    /// Creates the application from what the daemon said of itself when the
    /// connection was made. The container list is on display.
    pub fn new(info: Info, docker_version: Version) -> (app: App)
        ensures
            app@ == AppState::initial(info, docker_version),
    {
        let mut view_stack: VecDeque<View> = VecDeque::new();
        view_stack.push_front(View::new(ViewType::ContainerList));
        let app = App {
            docker_version,
            info,
            view_stack,
            err_msg: None,
            pending: Pending::Idle,
            size: Rect { x: 0, y: 0, width: 0, height: 0 },
        };
        assert(app@.views =~= seq![ViewState::created(ViewType::ContainerList)]);
        app
    }

    /// Handle global shortcuts. If not handled here, then the current view
    /// will get a chance to handle it.
    pub fn handle_global_keys(key: Key) -> (command: Option<AppCommand>)
        ensures
            command == global_command(key),
    {
        match key {
            Key::Char('q') => Some(AppCommand::ExitView),
            Key::Char('i') => Some(AppCommand::SwitchToView(ViewType::ImagesList)),
            Key::Char('v') => Some(AppCommand::SwitchToView(ViewType::DockerInfo)),
            Key::Char('?') => Some(AppCommand::SwitchToView(ViewType::Help)),
            Key::Char('L') => Some(AppCommand::SwitchToView(ViewType::AppLogs)),
            Key::Char('R') => Some(AppCommand::Refresh),
            _ => None,
        }
    }

    /// Tests whether the application can act on `key`.
    pub fn accepts_key(&self, key: Key) -> (accepted: bool)
        ensures
            accepted == self@.accepts(key),
    {
        if self.view_stack.len() == 0 {
            false
        } else if Self::handle_global_keys(key).is_some() {
            true
        } else {
            self.view_stack[0].accepts_key(key)
        }
    }

    /// Instantiate a view of the type `view_type` and pushes it onto the
    /// view stack.
    fn new_view(&mut self, view_type: ViewType)
        ensures
            final(self)@ == (AppState {
                views: seq![ViewState::created(view_type)] + old(self)@.views,
                ..old(self)@
            }),
    {
        self.view_stack.push_front(View::new(view_type));
        assert(final(self)@.views =~= seq![ViewState::created(view_type)] + old(self)@.views);
    }

    /// Pop the current view from the top of the stack. Returns `true` if
    /// there are still views in the stack afterwards, `false` otherwise.
    fn previous_view(&mut self) -> (left: bool)
        requires
            old(self)@.running(),
        ensures
            final(self)@ == (AppState { views: old(self)@.views.drop_first(), ..old(self)@ }),
            left == (old(self)@.views.len() > 1),
    {
        let _closed = self.view_stack.pop_front();
        assert(final(self)@.views =~= old(self)@.views.drop_first());
        self.view_stack.len() > 0
    }

    /// Starts a refresh.
    fn begin_refresh(&mut self) -> (step: Step)
        ensures
            final(self)@ == old(self)@.begin_refresh().0,
            step == old(self)@.begin_refresh().1,
    {
        self.pending = Pending::Info;
        Step::Call(DockerRequest::Info)
    }

    /// Carries out a command.
    fn interpret(&mut self, command: AppCommand) -> (step: Step)
        requires
            old(self)@.running(),
        ensures
            final(self)@ == old(self)@.interpret(command).0,
            step == old(self)@.interpret(command).1,
    {
        match command {
            AppCommand::SwitchToView(view_type) => {
                self.new_view(view_type);
                self.begin_refresh()
            },
            AppCommand::ExitView => {
                self.pending = Pending::Idle;
                if self.previous_view() {
                    Step::Continue
                } else {
                    Step::Exit
                }
            },
            AppCommand::NoOp => {
                self.pending = Pending::Idle;
                Step::Continue
            },
            AppCommand::ErrorMsg(message) => {
                self.err_msg = Some(message);
                self.pending = Pending::Idle;
                Step::Continue
            },
            AppCommand::Refresh => self.begin_refresh(),
        }
    }

    /// Refreshes the state of the application (i.e. list of containers,
    /// system information, etc). Only the view on display is refreshed.
    pub fn refresh(&mut self) -> (step: Step)
        requires
            old(self)@.running(),
        ensures
            final(self)@ == old(self)@.begin_refresh().0,
            step == old(self)@.begin_refresh().1,
    {
        self.begin_refresh()
    }

    /// Handles the given key press. The step that comes back is
    /// [`Step::Exit`] to signify to the main loop that the application
    /// should exit.
    pub fn handle_input(&mut self, key: Key) -> (step: Step)
        requires
            old(self)@.accepts(key),
        ensures
            final(self)@ == old(self)@.on_key(key).0,
            step == old(self)@.on_key(key).1,
    {
        match Self::handle_global_keys(key) {
            Some(command) => self.interpret(command),
            None => {
                let ghost before = self@;
                let action = match self.view_stack.pop_front() {
                    Some(mut top) => {
                        let action = top.handle_input(key);
                        self.view_stack.push_front(top);
                        action
                    },
                    None => None,
                };
                assert(self@.views =~= before.views.update(0, before.top().after_key(key)));
                assert(self@ == before.with_top(before.top().after_key(key)));
                match action {
                    Some(ViewAction::Command(command)) => self.interpret(command),
                    Some(ViewAction::Lifecycle(op, id)) => {
                        self.pending = Pending::Lifecycle(op);
                        Step::Call(DockerRequest::Lifecycle(op, id))
                    },
                    Some(ViewAction::Dispatch(event)) => {
                        self.pending = Pending::Idle;
                        Step::Dispatch(event)
                    },
                    None => self.interpret(AppCommand::NoOp),
                }
            },
        }
    }

    /// Takes in one event of the main loop.
    pub fn handle_event(&mut self, event: AppEvent) -> (step: Step)
        requires
            old(self)@.running(),
            event matches AppEvent::Input(key) ==> old(self)@.accepts(key),
        ensures
            final(self)@ == old(self)@.on_event(event).0,
            step == old(self)@.on_event(event).1,
    {
        match event {
            AppEvent::Input(key) => self.handle_input(key),
            AppEvent::Tick => self.refresh(),
        }
    }

    /// Tests whether `response` is an outcome of the call under way.
    fn expects(&self, response: &DockerResponse) -> (expected: bool)
        ensures
            expected == self@.expects(*response),
    {
        match self.pending {
            Pending::Idle => false,
            Pending::Info => match response {
                DockerResponse::Info(_) => true,
                DockerResponse::Failed(_) => true,
                _ => false,
            },
            Pending::Lifecycle(_) => match response {
                DockerResponse::Done => true,
                DockerResponse::Failed(_) => true,
                _ => false,
            },
            Pending::View => {
                if self.view_stack.len() == 0 {
                    false
                } else {
                    match self.view_stack[0].refresh_request() {
                        Some(request) => answers(&request, response),
                        None => false,
                    }
                }
            },
        }
    }

    /// Takes in the outcome of the call that the last step asked for.
    pub fn handle_response(&mut self, response: DockerResponse) -> (step: Step)
        requires
            old(self)@.running(),
        ensures
            final(self)@ == old(self)@.on_response(response).0,
            step == old(self)@.on_response(response).1,
    {
        if !self.expects(&response) {
            return Step::Continue;
        }
        match self.pending {
            Pending::Info => match response {
                DockerResponse::Info(info) => {
                    self.info = info;
                    match self.view_stack[0].refresh_request() {
                        Some(request) => {
                            self.pending = Pending::View;
                            Step::Call(request)
                        },
                        None => {
                            self.pending = Pending::Idle;
                            Step::Continue
                        },
                    }
                },
                DockerResponse::Failed(description) => self.interpret(
                    AppCommand::ErrorMsg(description),
                ),
                _ => self.interpret(AppCommand::NoOp),
            },
            Pending::Lifecycle(op) => {
                let outcome = match response {
                    DockerResponse::Failed(description) => Err(description),
                    _ => Ok(()),
                };
                let command = ContainerListView::lifecycle_outcome(op, outcome);
                self.interpret(command)
            },
            _ => {
                let ghost before = self@;
                let command = match self.view_stack.pop_front() {
                    Some(mut top) => {
                        let command = top.refresh(response);
                        self.view_stack.push_front(top);
                        command
                    },
                    None => AppCommand::NoOp,
                };
                assert(self@.views =~= before.views.update(0, before.top().refreshed(response)));
                assert(self@ == before.with_top(before.top().refreshed(response)));
                self.interpret(command)
            },
        }
    }

    /// Takes note of the size of the screen, and says whether it differs
    /// from the size that the application had seen before.
    pub fn resize(&mut self, size: Rect) -> (changed: bool)
        ensures
            final(self)@ == (AppState { size, ..old(self)@ }),
            changed == (size != old(self)@.size),
    {
        let changed = size != self.size;
        self.size = size;
        changed
    }

    /// The height that is left for the view on display between the title
    /// bar and the status line. The screen has to have room for these two.
    pub fn main_view_height(height: u16) -> (left: u16)
        requires
            height >= FRAME_LINES,
        ensures
            left == height - FRAME_LINES,
    {
        height - FRAME_LINES
    }

    /// The text of the title bar, for the application's own version
    /// `app_version`.
    pub fn status_bar(&self, app_version: &str) -> (spans: Vec<Span>)
        ensures
            spans_view(spans@) == self@.status_bar(app_version@),
    {
        let mut spans: Vec<Span> = Vec::new();
        spans.push(span_of("Rocker v", app_version, "     ", Style::Normal));
        spans.push(Span { text: u64_to_string(self.info.containers), style: Style::Highlight });
        spans.push(Span { text: String::from_str(" containers, "), style: Style::Normal });
        spans.push(Span { text: u64_to_string(self.info.images), style: Style::Highlight });
        spans.push(Span { text: String::from_str(" images, "), style: Style::Normal });
        let daemon = String::from_str("docker v").concat(self.docker_version.version.as_str()).concat(
            " (",
        ).concat(self.docker_version.api_version.as_str()).concat(")");
        spans.push(Span { text: daemon, style: Style::Normal });
        assert(spans_view(spans@) =~= self@.status_bar(app_version@));
        spans
    }

    /// The text of the status line.
    pub fn status_message(&self) -> (span: Span)
        ensures
            span@ == self@.status_message(),
    {
        match &self.err_msg {
            Some(message) => Span { text: message.clone(), style: Style::Alert },
            None => Span { text: String::from_str("No message"), style: Style::Normal },
        }
    }

    /// The view on display.
    pub fn current_view(&self) -> (view: &View)
        requires
            self@.running(),
        ensures
            view@ == self@.top(),
    {
        &self.view_stack[0]
    }

    /// The number of views on the stack.
    pub fn view_count(&self) -> (count: usize)
        ensures
            count == self@.views.len(),
    {
        self.view_stack.len()
    }

    /// The message of the status line, if there is one.
    pub fn status(&self) -> (message: Option<&String>)
        ensures
            self@.status == match message {
                Some(message) => Some(message@),
                None => None,
            },
    {
        self.err_msg.as_ref()
    }

    /// The daemon's system information as it was last fetched.
    pub fn info(&self) -> (info: &Info)
        ensures
            *info == self@.info,
    {
        &self.info
    }

    /// The daemon's version.
    pub fn docker_version(&self) -> (version: &Version)
        ensures
            *version == self@.version,
    {
        &self.docker_version
    }

    /// The call whose outcome the application is waiting for.
    pub fn pending(&self) -> (pending: Pending)
        ensures
            pending == self@.pending,
    {
        self.pending
    }

    /// The size of the screen as the application last saw it.
    pub fn size(&self) -> (size: Rect)
        ensures
            size == self@.size,
    {
        self.size
    }
}

/// Tests whether `response` is an outcome of the call `request`.
fn answers(request: &DockerRequest, response: &DockerResponse) -> (answered: bool)
    ensures
        answered == request.answered_by(*response),
{
    match (request, response) {
        (_, DockerResponse::Failed(_)) => true,
        (DockerRequest::Info, DockerResponse::Info(_)) => true,
        (DockerRequest::Containers { .. }, DockerResponse::Containers(_)) => true,
        (DockerRequest::Images { .. }, DockerResponse::Images(_)) => true,
        (DockerRequest::Inspect(_), DockerResponse::Details(_)) => true,
        (DockerRequest::Logs(_, _), DockerResponse::Logs(_)) => true,
        (DockerRequest::Lifecycle(_, _), DockerResponse::Done) => true,
        _ => false,
    }
}

/// While the application runs, the view stack is not empty: an event
/// leaves a view on the stack unless the step is to exit, and the step is
/// to exit exactly when the event closed the only view that was left.
pub proof fn lemma_exit_iff_stack_empty(state: AppState, event: AppEvent)
    requires
        state.running(),
    ensures
        ({
            let (next, step) = state.on_event(event);
            &&& step is Exit <==> !next.running()
            &&& step is Exit ==> state.views.len() == 1
            &&& next.views.len() + 1 >= state.views.len()
        }),
{
}

/// A view cannot shadow a global key: a key that has a global binding does
/// what that binding says, whatever view is on display, and the view on
/// display does not get to see it.
pub proof fn lemma_global_keys_come_first(state: AppState, key: Key, command: AppCommand)
    requires
        state.running(),
        global_command(key) == Some(command),
    ensures
        state.on_key(key) == state.interpret(command),
        state.accepts(key),
        command is ExitView ==> state.on_key(key).0.views == state.views.drop_first(),
        command is Refresh ==> state.on_key(key).0.views == state.views,
        command is SwitchToView ==> state.on_key(key).0.views.drop_first() == state.views,
{
    if command is SwitchToView {
        assert(state.on_key(key).0.views.drop_first() =~= state.views);
    }
}

/// A key that acts on a container does nothing while the container list on
/// display has no container under its cursor: the views stay as they are,
/// nothing is asked of the daemon, and the application goes on.
pub proof fn lemma_action_key_needs_a_container(state: AppState, key: Key)
    requires
        state.running(),
        needs_selection(key),
        state.top() matches ViewState::ContainerList(list) && !list.has_selection(),
    ensures
        state.accepts(key),
        state.on_key(key) == (state.waiting_for(Pending::Idle), Step::Continue),
{
    assert(state.views.update(0, state.top()) =~= state.views);
}

/// The application waits for exactly the call that its step asks for: when
/// an event or the outcome of a call leads to a call, the outcomes that the
/// application expects next are those of that call; and when it leads to no
/// call, the application expects none.
pub proof fn lemma_step_and_pending_agree(
    state: AppState,
    event: AppEvent,
    response: DockerResponse,
    answer: DockerResponse,
)
    requires
        state.running(),
    ensures
        ({
            let (next, step) = state.on_event(event);
            match step {
                Step::Call(request) => next.expects(answer) == request.answered_by(answer),
                _ => !next.expects(answer),
            }
        }),
        state.expects(response) ==> ({
            let (next, step) = state.on_response(response);
            match step {
                Step::Call(request) => next.expects(answer) == request.answered_by(answer),
                _ => !next.expects(answer),
            }
        }),
{
}

/// The outcome of a call never closes a view and never ends the
/// application.
pub proof fn lemma_answers_keep_the_stack(state: AppState, response: DockerResponse)
    requires
        state.running(),
    ensures
        state.on_response(response).0.views.len() == state.views.len(),
        !(state.on_response(response).1 is Exit),
{
}

/// Only the view on display is touched: an event or the outcome of a call
/// leaves every view below it as it was.
pub proof fn lemma_hidden_views_untouched(
    state: AppState,
    event: AppEvent,
    response: DockerResponse,
    i: int,
)
    requires
        state.running(),
        1 <= i < state.views.len(),
    ensures
        state.on_response(response).0.views[i] == state.views[i],
        ({
            let next = state.on_event(event).0;
            ||| next.views.len() == state.views.len() && next.views[i] == state.views[i]
            ||| next.views.len() == state.views.len() + 1 && next.views[i + 1] == state.views[i]
            ||| next.views.len() == state.views.len() - 1 && next.views[i - 1] == state.views[i]
        }),
{
}

/// The cursors of the lists on the stack stay in their lists, whatever
/// event comes in and however a call ends.
pub proof fn lemma_cursors_stay_in_range(
    state: AppState,
    event: AppEvent,
    response: DockerResponse,
)
    requires
        state.running(),
        state.cursors_in_range(),
    ensures
        state.on_event(event).0.cursors_in_range(),
        state.on_response(response).0.cursors_in_range(),
{
    assert(state.top().wf());
    let by_event = state.on_event(event).0;
    assert forall|i: int| 0 <= i < by_event.views.len() implies (#[trigger] by_event.views[i]).wf() by {
        if by_event.views.len() == state.views.len() {
            if i > 0 {
                assert(by_event.views[i] == state.views[i]);
            }
        } else if by_event.views.len() == state.views.len() + 1 {
            if i > 0 {
                assert(by_event.views[i] == state.views[i - 1]);
            }
        } else {
            assert(by_event.views[i] == state.views[i + 1]);
        }
    }
    let by_response = state.on_response(response).0;
    assert forall|i: int| 0 <= i < by_response.views.len() implies (
    #[trigger] by_response.views[i]).wf() by {
        if i > 0 {
            assert(by_response.views[i] == state.views[i]);
        }
    }
}

/// A failed call changes no view and is not tried again: the views stay as
/// they were, with what they have cached, the status line holds a message
/// that ends with the failure's description, and the application waits for
/// the next event. For an operation on a container the message is the one
/// that the container list words for it.
pub proof fn lemma_failure_goes_to_status_line(state: AppState, description: String)
    requires
        state.running(),
        state.expects(DockerResponse::Failed(description)),
    ensures
        ({
            let (next, step) = state.on_response(DockerResponse::Failed(description));
            &&& next.views == state.views
            &&& next.pending == Pending::Idle
            &&& step == Step::Continue
            &&& next.status matches Some(message) && description@.is_suffix_of(message)
            &&& state.pending matches Pending::Lifecycle(op) ==> next.status == Some(
                failure_text(op, description@),
            )
        }),
{
    let (next, step) = state.on_response(DockerResponse::Failed(description));
    match state.pending {
        Pending::Lifecycle(op) => {
            lemma_failure_text_holds_description(op, description@);
        },
        Pending::Info => {
            assert(description@.subrange(0, description@.len() as int) =~= description@);
        },
        _ => {
            assert(description@.subrange(0, description@.len() as int) =~= description@);
            assert(next.views =~= state.views);
        },
    }
}

} // verus!
