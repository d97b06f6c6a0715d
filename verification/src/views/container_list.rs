//! The list of containers.

use crate::app::{AppCommand, ContainerId};
use crate::docker::{Container, DockerRequest, DockerResponse, LifecycleOp, Port};
use crate::event::Key;
use crate::text::{decimal, joined, option_text, option_to_string, starts_with, u64_to_string};
use crate::ui::{first_visible_row, rows_view, table_fits, table_offset, Row, Style};
use crate::views::{
    clamp_cursor, cursor_clamped, cursor_in_range, cursor_target, duration_text, human_seconds,
    move_cursor, refresh_outcome, ViewAction, ViewType,
};
use vstd::prelude::*;
use vstd::view::View as _;

verus! {

/// The list of containers, with a cursor on one of them.
#[derive(Debug, Clone, PartialEq, Eq)]
pub struct ContainerListView {
    /// List of containers to display
    pub containers: Vec<Container>,
    /// Index of the currently selected container from the above list
    pub selected: usize,
    /// Whether to only display currently running containers
    pub only_running: bool,
}

/// The mathematical value of a [`ContainerListView`].
pub ghost struct ContainerListState {
    pub containers: Seq<Container>,
    pub selected: nat,
    pub only_running: bool,
}

/// The operation that a key of the container list stands for.
pub open spec fn lifecycle_key(key: Key) -> Option<LifecycleOp> {
    match key {
        Key::Char('p') => Some(LifecycleOp::Pause),
        Key::Char('P') => Some(LifecycleOp::Unpause),
        Key::Char('s') => Some(LifecycleOp::Stop),
        Key::Char('S') => Some(LifecycleOp::Start),
        Key::Char('d') => Some(LifecycleOp::Delete),
        _ => None,
    }
}

/// Whether a key of the container list acts on the selected container.
pub open spec fn needs_selection(key: Key) -> bool {
    key == Key::Char('\n') || key == Key::Char('l') || lifecycle_key(key) is Some
}

/// What the status line says when `op` has failed with `description`.
pub open spec fn failure_text(op: LifecycleOp, description: Seq<char>) -> Seq<char> {
    match op {
        LifecycleOp::Pause => "Failed to pause container: "@ + description,
        LifecycleOp::Unpause => "Failed to unpause container: "@ + description,
        LifecycleOp::Start => "Failed to start container: "@ + description,
        LifecycleOp::Stop => "Failed to stop container: "@ + description,
        LifecycleOp::Delete => description,
    }
}

fn key_operation(key: Key) -> (op: Option<LifecycleOp>)
    ensures
        op == lifecycle_key(key),
{
    match key {
        Key::Char('p') => Some(LifecycleOp::Pause),
        Key::Char('P') => Some(LifecycleOp::Unpause),
        Key::Char('s') => Some(LifecycleOp::Stop),
        Key::Char('S') => Some(LifecycleOp::Start),
        Key::Char('d') => Some(LifecycleOp::Delete),
        _ => None,
    }
}

/// What separates the ports of a container where they are listed: each
/// port stands on a line of its own, under the first.
pub const PORT_SEPARATOR: &'static str = "\n                ";

/// The name that a container goes by: the first of its names, without the
/// slash that the daemon puts in front of it.
pub open spec fn name_of(container: Container) -> Option<Seq<char>> {
    if container.names@.len() == 0 {
        None
    } else {
        let name = container.names@[0]@;
        Some(
            if name.len() > 0 && name[0] == '/' {
                name.subrange(1, name.len() as int)
            } else {
                name
            },
        )
    }
}

/// How a port is written out: `ip:private → public/protocol`, without the
/// parts that the port does not have.
pub open spec fn port_text(port: Port) -> Seq<char> {
    let bound = match port.ip {
        Some(ip) => ip@ + ":"@,
        None => Seq::empty(),
    };
    let published = match port.public_port {
        Some(public_port) => " \u{2192} "@ + decimal(public_port as nat),
        None => Seq::empty(),
    };
    bound + decimal(port.private_port as nat) + published + "/"@ + port.typ@
}

/// `sorted` with `port` put in behind the last port whose private port is
/// not greater.
pub open spec fn insert_port(sorted: Seq<Port>, port: Port) -> Seq<Port>
    decreases sorted.len(),
{
    if sorted.len() == 0 || sorted.last().private_port <= port.private_port {
        sorted.push(port)
    } else {
        insert_port(sorted.drop_last(), port).push(sorted.last())
    }
}

/// The ports in the order of their private ports; ports with the same
/// private port keep the order that they came in.
pub open spec fn by_private_port(ports: Seq<Port>) -> Seq<Port>
    decreases ports.len(),
{
    if ports.len() == 0 {
        Seq::empty()
    } else {
        insert_port(by_private_port(ports.drop_last()), ports.last())
    }
}

/// Where [`insert_port`] puts `port`: behind the last port of `sorted` whose
/// private port is not greater.
pub open spec fn insert_position(sorted: Seq<Port>, port: Port) -> nat
    decreases sorted.len(),
{
    if sorted.len() == 0 || sorted.last().private_port <= port.private_port {
        sorted.len()
    } else {
        insert_position(sorted.drop_last(), port)
    }
}

/// The ports of `ports` that `order` picks, in the order of `order`.
pub open spec fn picked(ports: Seq<Port>, order: Seq<usize>) -> Seq<Port> {
    order.map_values(|i: usize| ports[i as int])
}

/// The ports of `ports` that have the private port `private_port`, in their
/// order.
pub open spec fn with_private_port(ports: Seq<Port>, private_port: u64) -> Seq<Port> {
    ports.filter(|port: Port| port.private_port == private_port)
}

/// No port stands before one with a smaller private port.
pub open spec fn ports_ascend(ports: Seq<Port>) -> bool {
    forall|i: int, j: int|
        0 <= i < j < ports.len() ==> ports[i].private_port <= ports[j].private_port
}

/// The cells of a container's row, and how the row is shown: the row under
/// the cursor stands out, and so does a container that is up.
pub open spec fn row_of(container: Container, selected: bool) -> (Seq<Seq<char>>, Style) {
    (
        seq![
            container.id@,
            match name_of(container) {
                Some(name) => name,
                None => Seq::empty(),
            },
            container.image@,
            container.command@,
            container.status@,
        ],
        if selected {
            Style::Selected
        } else if "Up "@.is_prefix_of(container.status@) {
            Style::Running
        } else {
            Style::Normal
        },
    )
}

/// What is shown of one container below the list, line by line; `now` is
/// the time in seconds since the Unix epoch.
pub open spec fn details_of(container: Container, now: nat) -> Seq<Seq<char>> {
    seq![
        "        Created: "@ + duration_text((now - container.created) as nat) + " ago"@,
        "        Command: "@ + container.command@,
        "          Image: "@ + container.image@,
        "         Labels: "@ + container.labels@,
        "           Name: "@ + match name_of(container) {
            Some(name) => name,
            None => Seq::empty(),
        },
        "          Ports: "@ + joined(
            by_private_port(container.ports@).map_values(|port: Port| port_text(port)),
            PORT_SEPARATOR@,
        ),
        "         Status: "@ + container.status@,
        "         SizeRW: "@ + option_text(container.size_rw),
        "     SizeRootFs: "@ + option_text(container.size_root_fs),
    ]
}

impl ContainerListState {
    /// The cursor stands on a container, or at 0 in an empty list.
    pub open spec fn wf(self) -> bool {
        cursor_in_range(self.selected, self.containers.len())
    }

    /// The id of the selected container.
    pub open spec fn selected_id(self) -> ContainerId
        recommends
            self.selected < self.containers.len(),
    {
        ContainerId(self.containers[self.selected as int].id)
    }

    /// Whether a container is under the cursor.
    pub open spec fn has_selection(self) -> bool {
        self.selected < self.containers.len()
    }

    /// The view after `key` was pressed: a movement key moves the cursor,
    /// `a` turns the filter for running containers on or off.
    pub open spec fn after_key(self, key: Key) -> ContainerListState {
        match cursor_target(key, self.selected, self.containers.len()) {
            Some(target) => ContainerListState { selected: target, ..self },
            None => if key == Key::Char('a') {
                ContainerListState { only_running: !self.only_running, ..self }
            } else {
                self
            },
        }
    }

    /// What `key` asks for, or `None` for a key that the view does not bind.
    ///
    /// Enter opens the details of the selected container and `l` its logs;
    /// `p`, `P`, `s`, `S` and `d` pause, unpause, stop, start and delete it;
    /// `a` asks for a refresh, since the filter has changed. While no
    /// container is under the cursor, the keys that act on one are consumed
    /// without effect: no view is opened and nothing is asked of the daemon.
    pub open spec fn action_for(self, key: Key) -> Option<ViewAction> {
        if cursor_target(key, self.selected, self.containers.len()) is Some {
            Some(ViewAction::Command(AppCommand::NoOp))
        } else if key == Key::Char('a') {
            Some(ViewAction::Command(AppCommand::Refresh))
        } else if needs_selection(key) && !self.has_selection() {
            Some(ViewAction::Command(AppCommand::NoOp))
        } else if key == Key::Char('\n') {
            Some(
                ViewAction::Command(
                    AppCommand::SwitchToView(ViewType::ContainerDetails(self.selected_id())),
                ),
            )
        } else if key == Key::Char('l') {
            Some(
                ViewAction::Command(
                    AppCommand::SwitchToView(ViewType::ContainerLogs(self.selected_id())),
                ),
            )
        } else {
            match lifecycle_key(key) {
                Some(op) => Some(ViewAction::Lifecycle(op, self.selected_id())),
                None => None,
            }
        }
    }

    /// The rows of the table in a rectangle of `rect_height` lines: one row
    /// for each container, from the first that is on the screen.
    pub open spec fn rows(self, rect_height: nat) -> Seq<(Seq<Seq<char>>, Style)> {
        let first = first_visible_row(self.selected, rect_height);
        let shown = if first < self.containers.len() {
            (self.containers.len() - first) as nat
        } else {
            0
        };
        Seq::new(shown, |i: int| row_of(self.containers[first + i], first + i == self.selected))
    }

    /// Whether the details of the selected container can be shown at time
    /// `now`: the container was not created after it.
    pub open spec fn has_details(self, now: nat) -> bool {
        self.selected < self.containers.len() ==> self.containers[self.selected as int].created
            <= now
    }

    /// What is shown below the list: the details of the selected container,
    /// or nothing if the cursor stands on none.
    pub open spec fn details(self, now: nat) -> Seq<Seq<char>> {
        if self.selected < self.containers.len() {
            details_of(self.containers[self.selected as int], now)
        } else {
            Seq::empty()
        }
    }

    /// The call that a refresh makes: list the containers, honouring the
    /// filter.
    pub open spec fn request(self) -> DockerRequest {
        DockerRequest::Containers { all: !self.only_running }
    }

    /// The view after a refresh that ended in `response`: a list of
    /// containers replaces the cached one and the cursor is brought back
    /// into it; anything else leaves the view as it was.
    pub open spec fn refreshed(self, response: DockerResponse) -> ContainerListState {
        match response {
            DockerResponse::Containers(containers) => ContainerListState {
                containers: containers@,
                selected: cursor_clamped(self.selected, containers@.len()),
                only_running: self.only_running,
            },
            _ => self,
        }
    }
}

impl ContainerListView {
    /// The view as a mathematical value.
    pub open spec fn view(&self) -> ContainerListState {
        ContainerListState {
            containers: self.containers@,
            selected: self.selected as nat,
            only_running: self.only_running,
        }
    }

    /// An empty list that shows all containers once it is refreshed.
    pub fn new() -> (view: ContainerListView)
        ensures
            view@ == (ContainerListState {
                containers: Seq::empty(),
                selected: 0,
                only_running: false,
            }),
    {
        ContainerListView { containers: Vec::new(), selected: 0, only_running: false }
    }

    /// The container under the cursor, if there is one.
    pub fn get_selected_container(&self) -> (container: Option<&Container>)
        ensures
            container == if self.selected < self.containers.len() {
                Some(&self.containers[self.selected as int])
            } else {
                None
            },
    {
        if self.selected < self.containers.len() {
            Some(&self.containers[self.selected])
        } else {
            None
        }
    }

    /// Handles a key press.
    pub fn handle_input(&mut self, key: Key) -> (action: Option<ViewAction>)
        ensures
            final(self)@ == old(self)@.after_key(key),
            action == old(self)@.action_for(key),
    {
        match move_cursor(key, self.selected, self.containers.len()) {
            Some(target) => {
                self.selected = target;
                return Some(ViewAction::Command(AppCommand::NoOp));
            },
            None => {},
        }
        if let Key::Char('a') = key {
            self.only_running = !self.only_running;
            return Some(ViewAction::Command(AppCommand::Refresh));
        }
        let opens_details = match key {
            Key::Char('\n') => true,
            _ => false,
        };
        let opens_logs = match key {
            Key::Char('l') => true,
            _ => false,
        };
        let operation = key_operation(key);
        if !opens_details && !opens_logs && operation.is_none() {
            return None;
        }
        match self.get_selected_container() {
            Some(container) => {
                let id = ContainerId(container.id.clone());
                if opens_details {
                    Some(
                        ViewAction::Command(
                            AppCommand::SwitchToView(ViewType::ContainerDetails(id)),
                        ),
                    )
                } else if opens_logs {
                    Some(
                        ViewAction::Command(AppCommand::SwitchToView(ViewType::ContainerLogs(id))),
                    )
                } else {
                    match operation {
                        Some(op) => Some(ViewAction::Lifecycle(op, id)),
                        None => None,
                    }
                }
            },
            None => Some(ViewAction::Command(AppCommand::NoOp)),
        }
    }

    /// The name that a container goes by; see [`name_of`].
    pub fn container_name(container: &Container) -> (name: Option<&str>)
        ensures
            name_of(*container) == match name {
                Some(name) => Some(name@),
                None => None,
            },
    {
        if container.names.len() == 0 {
            None
        } else {
            let name = container.names[0].as_str();
            let len = name.unicode_len();
            if len > 0 && name.get_char(0) == '/' {
                Some(name.substring_char(1, len))
            } else {
                Some(name)
            }
        }
    }

    /// The row of one container; see [`row_of`].
    pub fn row(container: &Container, selected: bool) -> (row: Row)
        ensures
            row@ == row_of(*container, selected),
    {
        let name = match Self::container_name(container) {
            Some(name) => String::from_str(name),
            None => String::new(),
        };
        let mut cells: Vec<String> = Vec::new();
        cells.push(container.id.clone());
        cells.push(name);
        cells.push(container.image.clone());
        cells.push(container.command.clone());
        cells.push(container.status.clone());
        let style = if selected {
            Style::Selected
        } else if starts_with(container.status.as_str(), "Up ") {
            Style::Running
        } else {
            Style::Normal
        };
        let row = Row { cells, style };
        assert(row@.0 =~= row_of(*container, selected).0);
        row
    }

    /// The rows of the table for a rectangle of `rect_height` lines.
    pub fn rows(&self, rect_height: u16) -> (rows: Vec<Row>)
        requires
            table_fits(self.selected as nat, rect_height as nat),
        ensures
            rows_view(rows@) == self@.rows(rect_height as nat),
    {
        assert(self.containers@.len() == self.containers.len());
        let first = table_offset(self.selected, rect_height);
        let mut rows: Vec<Row> = Vec::new();
        let mut i: usize = first;
        while i < self.containers.len()
            invariant
                first <= i,
                first < self.containers@.len() ==> i <= self.containers@.len(),
                first < self.containers@.len() ==> rows@.len() == i - first,
                first >= self.containers@.len() ==> rows@.len() == 0,
                forall|k: int|
                    0 <= k < rows@.len() ==> (#[trigger] rows@[k])@ == row_of(
                        self.containers@[first + k],
                        first + k == self.selected,
                    ),
            decreases self.containers@.len() - i,
        {
            rows.push(Self::row(&self.containers[i], i == self.selected));
            i += 1;
        }
        assert(rows_view(rows@) =~= self@.rows(rect_height as nat));
        rows
    }

    /// Tests whether the details of the selected container can be shown at
    /// time `now`, in seconds since the Unix epoch.
    pub fn can_show_details(&self, now: u64) -> (possible: bool)
        ensures
            possible == self@.has_details(now as nat),
    {
        match self.get_selected_container() {
            Some(container) => container.created <= now,
            None => true,
        }
    }

    /// The lines that are shown below the list at time `now`, in seconds
    /// since the Unix epoch.
    pub fn details(&self, now: u64) -> (lines: Vec<String>)
        requires
            self@.has_details(now as nat),
        ensures
            lines@.map_values(|line: String| line@) == self@.details(now as nat),
    {
        let mut lines: Vec<String> = Vec::new();
        match self.get_selected_container() {
            Some(container) => {
                let name = match Self::container_name(container) {
                    Some(name) => name,
                    None => "",
                };
                proof {
                    reveal_strlit("");
                    assert(""@ =~= Seq::<char>::empty());
                }
                lines.push(
                    String::from_str("        Created: ").concat(
                        human_seconds(now - container.created).as_str(),
                    ).concat(" ago"),
                );
                lines.push(String::from_str("        Command: ").concat(container.command.as_str()));
                lines.push(String::from_str("          Image: ").concat(container.image.as_str()));
                lines.push(String::from_str("         Labels: ").concat(container.labels.as_str()));
                lines.push(String::from_str("           Name: ").concat(name));
                lines.push(
                    String::from_str("          Ports: ").concat(
                        ports_line(&container.ports).as_str(),
                    ),
                );
                lines.push(String::from_str("         Status: ").concat(container.status.as_str()));
                lines.push(
                    String::from_str("         SizeRW: ").concat(
                        option_to_string(container.size_rw).as_str(),
                    ),
                );
                lines.push(
                    String::from_str("     SizeRootFs: ").concat(
                        option_to_string(container.size_root_fs).as_str(),
                    ),
                );
                assert(lines@.map_values(|line: String| line@) =~= details_of(
                    *container,
                    now as nat,
                ));
            },
            None => {
                assert(lines@.map_values(|line: String| line@) =~= Seq::<Seq<char>>::empty());
            },
        }
        lines
    }

    /// The command that follows an operation on a container: a refresh when
    /// it was carried out, else a message that holds the failure's
    /// description.
    pub fn lifecycle_outcome(op: LifecycleOp, outcome: Result<(), String>) -> (command: AppCommand)
        ensures
            match outcome {
                Ok(_) => command == AppCommand::Refresh,
                Err(description) => command matches AppCommand::ErrorMsg(message) && message@
                    == failure_text(op, description@),
            },
    {
        match outcome {
            Ok(_) => AppCommand::Refresh,
            Err(description) => {
                let message = match op {
                    LifecycleOp::Pause => String::from_str("Failed to pause container: ").concat(
                        description.as_str(),
                    ),
                    LifecycleOp::Unpause => String::from_str(
                        "Failed to unpause container: ",
                    ).concat(description.as_str()),
                    LifecycleOp::Start => String::from_str("Failed to start container: ").concat(
                        description.as_str(),
                    ),
                    LifecycleOp::Stop => String::from_str("Failed to stop container: ").concat(
                        description.as_str(),
                    ),
                    LifecycleOp::Delete => description,
                };
                AppCommand::ErrorMsg(message)
            },
        }
    }

    /// The call that a refresh makes.
    pub fn refresh_request(&self) -> (request: DockerRequest)
        ensures
            request == self@.request(),
    {
        DockerRequest::Containers { all: !self.only_running }
    }

    /// Takes in the outcome of the call that [`Self::refresh_request`] asked
    /// for.
    pub fn refresh(&mut self, response: DockerResponse) -> (command: AppCommand)
        ensures
            final(self)@ == old(self)@.refreshed(response),
            command == refresh_outcome(response),
    {
        match response {
            DockerResponse::Containers(containers) => {
                self.selected = clamp_cursor(self.selected, containers.len());
                self.containers = containers;
                AppCommand::NoOp
            },
            DockerResponse::Failed(description) => AppCommand::ErrorMsg(description),
            _ => AppCommand::NoOp,
        }
    }
}

/// Writes out a port; see [`port_text`].
pub fn display_port(port: &Port) -> (text: String)
    ensures
        text@ == port_text(*port),
{
    let mut text = String::new();
    match &port.ip {
        Some(ip) => {
            text.append(ip.as_str());
            text.append(":");
        },
        None => {},
    }
    text.append(u64_to_string(port.private_port).as_str());
    match port.public_port {
        Some(public_port) => {
            text.append(" \u{2192} ");
            text.append(u64_to_string(public_port).as_str());
        },
        None => {},
    }
    text.append("/");
    text.append(port.typ.as_str());
    assert(text@ =~= port_text(*port));
    text
}

/// Putting a port in goes to the place behind which every port has a
/// greater private port, and before which the next port has none.
pub proof fn lemma_insert_port_at(sorted: Seq<Port>, port: Port, k: int)
    requires
        0 <= k <= sorted.len(),
        forall|j: int| k <= j < sorted.len() ==> sorted[j].private_port > port.private_port,
        k > 0 ==> sorted[k - 1].private_port <= port.private_port,
    ensures
        insert_position(sorted, port) == k,
        insert_port(sorted, port) == sorted.insert(k, port),
    decreases sorted.len() - k,
{
    if k == sorted.len() {
        assert(sorted.push(port) =~= sorted.insert(k, port));
    } else {
        let front = sorted.drop_last();
        lemma_insert_port_at(front, port, k);
        assert(front.insert(k, port).push(sorted.last()) =~= sorted.insert(k, port));
    }
}

/// The place where a port is put in: every port behind it has a greater
/// private port, and the port before it has none.
pub proof fn lemma_insert_position(sorted: Seq<Port>, port: Port)
    ensures
        ({
            let k = insert_position(sorted, port) as int;
            &&& 0 <= k <= sorted.len()
            &&& forall|j: int| k <= j < sorted.len() ==> sorted[j].private_port > port.private_port
            &&& k > 0 ==> sorted[k - 1].private_port <= port.private_port
            &&& insert_port(sorted, port) == sorted.insert(k, port)
        }),
    decreases sorted.len(),
{
    if sorted.len() == 0 || sorted.last().private_port <= port.private_port {
        assert(sorted.push(port) =~= sorted.insert(sorted.len() as int, port));
    } else {
        let front = sorted.drop_last();
        lemma_insert_position(front, port);
        let k = insert_position(front, port) as int;
        assert(front.insert(k, port).push(sorted.last()) =~= sorted.insert(k, port));
        assert forall|j: int| k <= j < sorted.len() implies sorted[j].private_port
            > port.private_port by {
            if j < front.len() {
                assert(sorted[j] == front[j]);
            }
        }
        if k > 0 {
            assert(sorted[k - 1] == front[k - 1]);
        }
    }
}

/// The ports come out in the order of their private ports, as many as went
/// in.
pub proof fn lemma_ports_sorted(ports: Seq<Port>)
    ensures
        by_private_port(ports).len() == ports.len(),
        ports_ascend(by_private_port(ports)),
    decreases ports.len(),
{
    if ports.len() > 0 {
        let front = ports.drop_last();
        let last = ports.last();
        let sorted = by_private_port(front);
        lemma_ports_sorted(front);
        lemma_insert_position(sorted, last);
        let k = insert_position(sorted, last) as int;
        let result = sorted.insert(k, last);
        assert(by_private_port(ports) == result);
        assert forall|i: int, j: int| 0 <= i < j < result.len() implies result[i].private_port
            <= result[j].private_port by {
            if j < k {
                assert(result[i] == sorted[i] && result[j] == sorted[j]);
            } else if j == k {
                assert(result[i] == sorted[i]);
                if k > 0 {
                    assert(sorted[i].private_port <= sorted[k - 1].private_port);
                }
            } else if i < k {
                assert(result[i] == sorted[i] && result[j] == sorted[j - 1]);
            } else if i == k {
                assert(result[j] == sorted[j - 1]);
            } else {
                assert(result[i] == sorted[i - 1] && result[j] == sorted[j - 1]);
            }
        }
    }
}

/// The ports come out as they went in, but for their order: for every
/// private port, the ports that have it are the same, in the order in
/// which they came.
pub proof fn lemma_ports_keep_order(ports: Seq<Port>, private_port: u64)
    ensures
        with_private_port(by_private_port(ports), private_port) == with_private_port(
            ports,
            private_port,
        ),
    decreases ports.len(),
{
    let wanted = |port: Port| port.private_port == private_port;
    reveal_with_fuel(Seq::filter, 2);
    if ports.len() > 0 {
        let front = ports.drop_last();
        let last = ports.last();
        let sorted = by_private_port(front);
        lemma_ports_keep_order(front, private_port);
        lemma_insert_position(sorted, last);
        let k = insert_position(sorted, last) as int;
        let result = sorted.insert(k, last);
        let before = sorted.subrange(0, k);
        let behind = sorted.subrange(k, sorted.len() as int);
        assert(sorted =~= before + behind);
        assert(result =~= before + seq![last] + behind);
        Seq::filter_distributes_over_add(before, behind, wanted);
        Seq::filter_distributes_over_add(before + seq![last], behind, wanted);
        Seq::filter_distributes_over_add(before, seq![last], wanted);
        assert(seq![last].drop_last() =~= Seq::<Port>::empty());
        if last.private_port == private_port {
            assert(seq![last].filter(wanted) =~= seq![last]);
            lemma_none_wanted(behind, private_port);
            assert(behind.filter(wanted) =~= Seq::<Port>::empty());
            assert(result.filter(wanted) =~= sorted.filter(wanted).push(last));
        } else {
            assert(seq![last].filter(wanted) =~= Seq::<Port>::empty());
            assert(result.filter(wanted) =~= sorted.filter(wanted));
        }
    }
}

/// Ports that all have a greater private port than `private_port` hold none
/// with that private port.
proof fn lemma_none_wanted(ports: Seq<Port>, private_port: u64)
    requires
        forall|j: int| 0 <= j < ports.len() ==> ports[j].private_port > private_port,
    ensures
        with_private_port(ports, private_port).len() == 0,
    decreases ports.len(),
{
    reveal(Seq::filter);
    if ports.len() > 0 {
        lemma_none_wanted(ports.drop_last(), private_port);
    }
}

/// The order in which the ports are listed: the indices of `ports`, by
/// private port; see [`by_private_port`].
pub fn port_order(ports: &Vec<Port>) -> (order: Vec<usize>)
    ensures
        order@.len() == ports@.len(),
        forall|k: int| 0 <= k < order@.len() ==> order@[k] < ports@.len(),
        picked(ports@, order@) == by_private_port(ports@),
{
    let mut order: Vec<usize> = Vec::new();
    let mut i: usize = 0;
    assert(picked(ports@, order@) =~= by_private_port(ports@.subrange(0, 0)));
    while i < ports.len()
        invariant
            i <= ports@.len(),
            order@.len() == i,
            forall|k: int| 0 <= k < order@.len() ==> order@[k] < i,
            picked(ports@, order@) == by_private_port(ports@.subrange(0, i as int)),
        decreases ports@.len() - i,
    {
        let mut k: usize = i;
        while k > 0 && ports[order[k - 1]].private_port > ports[i].private_port
            invariant
                k <= i,
                i < ports@.len(),
                order@.len() == i,
                forall|j: int| 0 <= j < order@.len() ==> order@[j] < i,
                forall|j: int|
                    k <= j < i ==> ports@[order@[j] as int].private_port > ports@[i as int].private_port,
            decreases k,
        {
            k -= 1;
        }
        let ghost sorted = picked(ports@, order@);
        order.insert(k, i);
        proof {
            lemma_insert_port_at(sorted, ports@[i as int], k as int);
            assert(picked(ports@, order@) =~= sorted.insert(k as int, ports@[i as int]));
            assert(ports@.subrange(0, i + 1).drop_last() =~= ports@.subrange(0, i as int));
        }
        i += 1;
    }
    assert(ports@.subrange(0, i as int) =~= ports@);
    order
}

/// The ports of a container on one line each, by private port.
pub fn ports_line(ports: &Vec<Port>) -> (text: String)
    ensures
        text@ == joined(
            by_private_port(ports@).map_values(|port: Port| port_text(port)),
            PORT_SEPARATOR@,
        ),
{
    let order = port_order(ports);
    let ghost parts = by_private_port(ports@).map_values(|port: Port| port_text(port));
    let mut text = String::new();
    let mut k: usize = 0;
    while k < order.len()
        invariant
            k <= order@.len(),
            order@.len() == ports@.len(),
            parts.len() == order@.len(),
            forall|j: int| 0 <= j < order@.len() ==> order@[j] < ports@.len(),
            forall|j: int| 0 <= j < order@.len() ==> parts[j] == port_text(ports@[order@[j] as int]),
            text@ == joined(parts.subrange(0, k as int), PORT_SEPARATOR@),
        decreases order@.len() - k,
    {
        if k > 0 {
            text.append(PORT_SEPARATOR);
        }
        text.append(display_port(&ports[order[k]]).as_str());
        proof {
            let upto = parts.subrange(0, k + 1);
            assert(upto.drop_last() =~= parts.subrange(0, k as int));
            assert(upto.last() == parts[k as int]);
            if k == 0 {
                assert(text@ =~= parts[0]);
            }
        }
        k += 1;
    }
    assert(parts.subrange(0, k as int) =~= parts);
    text
}

/// After a refresh that brought a list of containers, the view holds that
/// list and its cursor stands on one of its containers, or at 0 if the list
/// is empty, wherever the cursor stood before.
pub proof fn lemma_refresh_clamps_cursor(state: ContainerListState, containers: Vec<Container>)
    ensures
        ({
            let after = state.refreshed(DockerResponse::Containers(containers));
            &&& after.containers == containers@
            &&& after.only_running == state.only_running
            &&& containers@.len() == 0 ==> after.selected == 0
            &&& containers@.len() > 0 ==> 0 <= after.selected < containers@.len()
            &&& state.selected < containers@.len() ==> after.selected == state.selected
            &&& after.wf()
        }),
{
}

/// A cursor that stands in the list stays in it, whatever key is pressed
/// and however a refresh ends.
pub proof fn lemma_cursor_stays_in_list(state: ContainerListState, key: Key, response: DockerResponse)
    requires
        state.wf(),
    ensures
        state.after_key(key).wf(),
        state.refreshed(response).wf(),
{
}

/// While no container is under the cursor, as in an empty list, a key that
/// acts on a container is consumed without effect: the view stays as it
/// is, no view is opened and nothing is asked of the daemon.
pub proof fn lemma_action_key_without_selection(state: ContainerListState, key: Key)
    requires
        needs_selection(key),
        !state.has_selection(),
    ensures
        state.after_key(key) == state,
        state.action_for(key) == Some(ViewAction::Command(AppCommand::NoOp)),
{
}

/// With a container under the cursor, a key that acts on a container names
/// that container: Enter and `l` open its details and its logs, and the
/// operation keys ask the daemon for their operation on it.
pub proof fn lemma_action_key_with_selection(state: ContainerListState, key: Key)
    requires
        needs_selection(key),
        state.has_selection(),
    ensures
        state.after_key(key) == state,
        key == Key::Char('\n') ==> state.action_for(key) == Some(
            ViewAction::Command(
                AppCommand::SwitchToView(ViewType::ContainerDetails(state.selected_id())),
            ),
        ),
        key == Key::Char('l') ==> state.action_for(key) == Some(
            ViewAction::Command(
                AppCommand::SwitchToView(ViewType::ContainerLogs(state.selected_id())),
            ),
        ),
        lifecycle_key(key) matches Some(op) ==> state.action_for(key) == Some(
            ViewAction::Lifecycle(op, state.selected_id()),
        ),
{
}

/// Pressing `a` turns the filter over and asks for a refresh, and the call
/// of that refresh lists the containers under the new filter.
pub proof fn lemma_filter_toggle(state: ContainerListState)
    ensures
        state.after_key(Key::Char('a')).only_running == !state.only_running,
        state.after_key(Key::Char('a')).selected == state.selected,
        state.action_for(Key::Char('a')) == Some(ViewAction::Command(AppCommand::Refresh)),
        state.after_key(Key::Char('a')).request() == (DockerRequest::Containers {
            all: state.only_running,
        }),
{
}

/// The message for a failed operation ends with the failure's description.
pub proof fn lemma_failure_text_holds_description(op: LifecycleOp, description: Seq<char>)
    ensures
        description.is_suffix_of(failure_text(op, description)),
{
    let text = failure_text(op, description);
    assert(text.len() >= description.len());
    assert(text.subrange(text.len() - description.len(), text.len() as int) =~= description);
}

} // verus!
