use rocker::app::{App, AppCommand, AppEvent, ContainerId, Pending, Step};
use rocker::docker::{
    Container, DockerRequest, DockerResponse, Image, Info, LifecycleOp, Port, Version,
};
use rocker::event::Key;
use rocker::ui::Rect;
use rocker::views::{ContainerListView, LogEvent, View, ViewType};

fn info(containers: u64) -> Info {
    Info {
        containers,
        images: 7,
        name: "host".to_string(),
        operating_system: "Linux".to_string(),
        kernel_version: "6.1".to_string(),
        n_cpu: 4,
        mem_total: 1024,
        docker_root_dir: "/var/lib/docker".to_string(),
        driver: "overlay2".to_string(),
    }
}

fn version() -> Version {
    Version { version: "24.0.7".to_string(), api_version: "1.43".to_string() }
}

fn container(id: &str) -> Container {
    Container {
        created: 1_000,
        command: "sleep 1".to_string(),
        id: id.to_string(),
        image: "busybox".to_string(),
        labels: "{}".to_string(),
        names: vec![format!("/{}", id)],
        ports: Vec::<Port>::new(),
        status: "Up 2 hours".to_string(),
        size_rw: None,
        size_root_fs: None,
    }
}

fn containers(n: usize) -> Vec<Container> {
    (0..n).map(|i| container(&format!("c{}", i))).collect()
}

fn image(id: &str) -> Image {
    Image {
        created: 1_000,
        id: id.to_string(),
        parent_id: String::new(),
        repo_tags: None,
        virtual_size: 0,
    }
}

fn app() -> App {
    App::new(info(3), version())
}

/// An application whose container list holds `n` containers.
fn app_with(n: usize) -> App {
    let mut app = app();
    assert_eq!(app.refresh(), Step::Call(DockerRequest::Info));
    assert_eq!(
        app.handle_response(DockerResponse::Info(info(n as u64))),
        Step::Call(DockerRequest::Containers { all: true })
    );
    assert_eq!(app.handle_response(DockerResponse::Containers(containers(n))), Step::Continue);
    app
}

fn list_of(app: &App) -> ContainerListView {
    match app.current_view() {
        View::ContainerList(list) => list.clone(),
        other => panic!("the container list is not on display: {:?}", other),
    }
}

#[test]
fn application_starts_with_the_container_list() {
    let app = app();
    assert_eq!(app.view_count(), 1);
    assert_eq!(app.current_view(), &View::ContainerList(ContainerListView::new()));
    assert_eq!(app.status(), None);
    assert_eq!(app.pending(), Pending::Idle);
    assert_eq!(app.info(), &info(3));
    assert_eq!(app.docker_version(), &version());
    assert_eq!(app.size(), Rect { x: 0, y: 0, width: 0, height: 0 });
}

#[test]
fn quit_pops_one_view_and_then_ends_the_loop() {
    let mut app = app();
    assert_eq!(app.handle_input(Key::Char('?')), Step::Call(DockerRequest::Info));
    assert_eq!(app.handle_response(DockerResponse::Info(info(3))), Step::Continue);
    assert_eq!(app.view_count(), 2);
    assert_eq!(app.handle_input(Key::Char('q')), Step::Continue);
    assert_eq!(app.view_count(), 1);
    assert_eq!(app.current_view(), &View::ContainerList(ContainerListView::new()));
    assert_eq!(app.handle_input(Key::Char('q')), Step::Exit);
    assert_eq!(app.view_count(), 0);
    assert!(!app.accepts_key(Key::Char('q')));
}

#[test]
fn global_keys_open_their_views() {
    for (key, view_type) in [
        ('i', ViewType::ImagesList),
        ('v', ViewType::DockerInfo),
        ('?', ViewType::Help),
        ('L', ViewType::AppLogs),
    ] {
        let mut app = app();
        assert_eq!(app.handle_input(Key::Char(key)), Step::Call(DockerRequest::Info));
        assert_eq!(app.view_count(), 2);
        assert_eq!(app.current_view(), &View::new(view_type));
        assert_eq!(app.pending(), Pending::Info);
    }
}

#[test]
fn global_keys_match_the_table() {
    assert_eq!(App::handle_global_keys(Key::Char('q')), Some(AppCommand::ExitView));
    assert_eq!(App::handle_global_keys(Key::Char('R')), Some(AppCommand::Refresh));
    assert_eq!(
        App::handle_global_keys(Key::Char('i')),
        Some(AppCommand::SwitchToView(ViewType::ImagesList))
    );
    assert_eq!(App::handle_global_keys(Key::Char('Q')), None);
    assert_eq!(App::handle_global_keys(Key::Char('r')), None);
    assert_eq!(App::handle_global_keys(Key::Ctrl('q')), None);
    assert_eq!(App::handle_global_keys(Key::Esc), None);
}

#[test]
fn new_view_is_refreshed_as_soon_as_it_is_opened() {
    let mut app = app();
    assert_eq!(app.handle_input(Key::Char('i')), Step::Call(DockerRequest::Info));
    assert_eq!(
        app.handle_response(DockerResponse::Info(info(9))),
        Step::Call(DockerRequest::Images { all: true })
    );
    assert_eq!(app.info().containers, 9);
    assert_eq!(app.pending(), Pending::View);
    assert_eq!(
        app.handle_response(DockerResponse::Images(vec![image("a"), image("b")])),
        Step::Continue
    );
    assert_eq!(app.pending(), Pending::Idle);
    match app.current_view() {
        View::ImagesList(list) => assert_eq!(list.images, vec![image("a"), image("b")]),
        other => panic!("unexpected view {:?}", other),
    }
}

#[test]
fn tick_refreshes_the_view_on_display_only() {
    let mut app = app_with(3);
    assert_eq!(app.handle_input(Key::Char('i')), Step::Call(DockerRequest::Info));
    assert_eq!(
        app.handle_response(DockerResponse::Info(info(3))),
        Step::Call(DockerRequest::Images { all: true })
    );
    assert_eq!(app.handle_response(DockerResponse::Images(vec![image("a")])), Step::Continue);
    assert_eq!(app.handle_event(AppEvent::Tick), Step::Call(DockerRequest::Info));
    assert_eq!(
        app.handle_response(DockerResponse::Info(info(5))),
        Step::Call(DockerRequest::Images { all: true })
    );
    assert_eq!(app.handle_response(DockerResponse::Images(Vec::new())), Step::Continue);
    assert_eq!(app.handle_input(Key::Char('q')), Step::Continue);
    assert_eq!(list_of(&app).containers, containers(3));
}

#[test]
fn refresh_key_refreshes() {
    let mut app = app_with(2);
    assert_eq!(app.handle_input(Key::Char('R')), Step::Call(DockerRequest::Info));
    assert_eq!(
        app.handle_response(DockerResponse::Info(info(4))),
        Step::Call(DockerRequest::Containers { all: true })
    );
    assert_eq!(app.handle_response(DockerResponse::Containers(containers(4))), Step::Continue);
    assert_eq!(list_of(&app).containers.len(), 4);
    assert_eq!(app.view_count(), 1);
}

#[test]
fn view_without_data_ends_the_refresh_after_the_info() {
    let mut app = app();
    assert_eq!(app.handle_input(Key::Char('?')), Step::Call(DockerRequest::Info));
    assert_eq!(app.handle_response(DockerResponse::Info(info(8))), Step::Continue);
    assert_eq!(app.pending(), Pending::Idle);
    assert_eq!(app.info().containers, 8);
}

#[test]
fn toggling_the_filter_lists_again_and_clamps_the_cursor() {
    let mut app = app_with(3);
    assert_eq!(app.handle_input(Key::End), Step::Continue);
    assert_eq!(list_of(&app).selected, 2);
    assert_eq!(app.handle_input(Key::Char('a')), Step::Call(DockerRequest::Info));
    assert_eq!(
        app.handle_response(DockerResponse::Info(info(3))),
        Step::Call(DockerRequest::Containers { all: false })
    );
    assert_eq!(app.handle_response(DockerResponse::Containers(containers(1))), Step::Continue);
    let list = list_of(&app);
    assert!(list.only_running);
    assert_eq!(list.containers, containers(1));
    assert_eq!(list.selected, 0);
    assert_eq!(app.view_count(), 1);
}

#[test]
fn failed_stop_sets_the_status_line_and_keeps_the_views() {
    let mut app = app_with(3);
    assert_eq!(app.handle_input(Key::Down), Step::Continue);
    let before = list_of(&app);
    assert_eq!(
        app.handle_input(Key::Char('s')),
        Step::Call(DockerRequest::Lifecycle(LifecycleOp::Stop, ContainerId("c1".to_string())))
    );
    assert_eq!(app.pending(), Pending::Lifecycle(LifecycleOp::Stop));
    assert_eq!(
        app.handle_response(DockerResponse::Failed("container is paused".to_string())),
        Step::Continue
    );
    let message = app.status().cloned().unwrap_or_default();
    assert_eq!(message, "Failed to stop container: container is paused");
    assert!(message.contains("container is paused"));
    assert_eq!(app.view_count(), 1);
    assert_eq!(list_of(&app), before);
    assert_eq!(app.pending(), Pending::Idle);
}

#[test]
fn finished_operation_is_followed_by_a_refresh() {
    let mut app = app_with(3);
    assert_eq!(
        app.handle_input(Key::Char('d')),
        Step::Call(DockerRequest::Lifecycle(LifecycleOp::Delete, ContainerId("c0".to_string())))
    );
    assert_eq!(app.handle_response(DockerResponse::Done), Step::Call(DockerRequest::Info));
    assert_eq!(
        app.handle_response(DockerResponse::Info(info(2))),
        Step::Call(DockerRequest::Containers { all: true })
    );
    assert_eq!(app.handle_response(DockerResponse::Containers(containers(2))), Step::Continue);
    assert_eq!(list_of(&app).containers.len(), 2);
    assert_eq!(app.status(), None);
}

#[test]
fn failed_delete_shows_the_bare_description() {
    let mut app = app_with(1);
    app.handle_input(Key::Char('d'));
    assert_eq!(app.handle_response(DockerResponse::Failed("in use".to_string())), Step::Continue);
    assert_eq!(app.status().map(|s| s.as_str()), Some("in use"));
}

#[test]
fn failed_refresh_sets_the_status_line_and_keeps_the_cache() {
    let mut app = app_with(3);
    assert_eq!(app.handle_event(AppEvent::Tick), Step::Call(DockerRequest::Info));
    assert_eq!(
        app.handle_response(DockerResponse::Failed("connection refused".to_string())),
        Step::Continue
    );
    assert_eq!(app.status().map(|s| s.as_str()), Some("connection refused"));
    assert_eq!(app.pending(), Pending::Idle);
    assert_eq!(app.info(), &info(3));
    assert_eq!(list_of(&app).containers, containers(3));

    assert_eq!(app.refresh(), Step::Call(DockerRequest::Info));
    assert_eq!(
        app.handle_response(DockerResponse::Info(info(3))),
        Step::Call(DockerRequest::Containers { all: true })
    );
    assert_eq!(
        app.handle_response(DockerResponse::Failed("timed out".to_string())),
        Step::Continue
    );
    assert_eq!(app.status().map(|s| s.as_str()), Some("timed out"));
    assert_eq!(list_of(&app).containers, containers(3));
}

#[test]
fn message_stays_until_the_next_one() {
    let mut app = app_with(1);
    app.handle_input(Key::Char('p'));
    app.handle_response(DockerResponse::Failed("first".to_string()));
    assert_eq!(app.handle_input(Key::Down), Step::Continue);
    assert_eq!(app.handle_input(Key::Char('R')), Step::Call(DockerRequest::Info));
    app.handle_response(DockerResponse::Info(info(1)));
    app.handle_response(DockerResponse::Containers(containers(1)));
    assert_eq!(app.status().map(|s| s.as_str()), Some("Failed to pause container: first"));
    app.handle_input(Key::Char('S'));
    app.handle_response(DockerResponse::Failed("second".to_string()));
    assert_eq!(app.status().map(|s| s.as_str()), Some("Failed to start container: second"));
}

#[test]
fn response_that_nothing_waits_for_is_dropped() {
    let mut app = app_with(3);
    assert_eq!(app.handle_response(DockerResponse::Containers(Vec::new())), Step::Continue);
    assert_eq!(app.handle_response(DockerResponse::Failed("stray".to_string())), Step::Continue);
    assert_eq!(list_of(&app).containers, containers(3));
    assert_eq!(app.status(), None);
    assert_eq!(app.refresh(), Step::Call(DockerRequest::Info));
    assert_eq!(app.handle_response(DockerResponse::Done), Step::Continue);
    assert_eq!(app.pending(), Pending::Info);
    app.handle_response(DockerResponse::Info(info(3)));
    assert_eq!(app.handle_response(DockerResponse::Images(Vec::new())), Step::Continue);
    assert_eq!(app.pending(), Pending::View);
    assert_eq!(list_of(&app).containers, containers(3));
}

#[test]
fn global_keys_come_before_the_view() {
    let mut app = app_with(3);
    assert_eq!(app.handle_input(Key::Char('i')), Step::Call(DockerRequest::Info));
    assert_eq!(app.view_count(), 2);
    let mut empty = self::app();
    assert!(empty.accepts_key(Key::Char('v')));
    assert_eq!(empty.handle_input(Key::Char('v')), Step::Call(DockerRequest::Info));
}

#[test]
fn key_that_nobody_binds_is_consumed() {
    let mut app = app_with(3);
    assert_eq!(app.handle_input(Key::Char('x')), Step::Continue);
    assert_eq!(app.handle_event(AppEvent::Input(Key::F(5))), Step::Continue);
    assert_eq!(app.view_count(), 1);
    assert_eq!(list_of(&app).selected, 0);
}

#[test]
fn enter_opens_the_details_and_inspects_the_container() {
    let mut app = app_with(3);
    app.handle_input(Key::Down);
    assert_eq!(app.handle_input(Key::Char('\n')), Step::Call(DockerRequest::Info));
    assert_eq!(app.view_count(), 2);
    assert_eq!(
        app.handle_response(DockerResponse::Info(info(3))),
        Step::Call(DockerRequest::Inspect(ContainerId("c1".to_string())))
    );
    assert_eq!(app.handle_response(DockerResponse::Details("details".to_string())), Step::Continue);
    match app.current_view() {
        View::ContainerDetails(view) => assert_eq!(view.details.as_deref(), Some("details")),
        other => panic!("unexpected view {:?}", other),
    }
    assert_eq!(app.handle_input(Key::Char('q')), Step::Continue);
    assert_eq!(list_of(&app).selected, 1);
}

#[test]
fn keys_for_a_container_do_nothing_without_one() {
    for key in ['\n', 'l', 'p', 'P', 's', 'S', 'd'] {
        let mut app = app();
        assert!(app.accepts_key(Key::Char(key)));
        assert_eq!(app.handle_input(Key::Char(key)), Step::Continue);
        assert_eq!(app.view_count(), 1);
        assert_eq!(app.current_view(), &View::ContainerList(ContainerListView::new()));
        assert_eq!(app.pending(), Pending::Idle);
        assert_eq!(app.status(), None);
    }
    assert!(app_with(1).accepts_key(Key::Char('s')));
}

#[test]
fn every_key_is_accepted_at_the_start() {
    let app = app();
    for key in [
        Key::Down,
        Key::Up,
        Key::Char('q'),
        Key::Char('a'),
        Key::Char('x'),
        Key::Esc,
        Key::F(1),
        Key::Ctrl('d'),
        Key::Null,
    ] {
        assert!(app.accepts_key(key));
    }
}

#[test]
fn log_view_has_its_events_dispatched() {
    let mut app = app();
    app.handle_input(Key::Char('L'));
    assert_eq!(app.handle_response(DockerResponse::Info(info(3))), Step::Continue);
    assert_eq!(app.handle_input(Key::Down), Step::Dispatch(LogEvent::Down));
    assert_eq!(app.pending(), Pending::Idle);
    assert_eq!(app.handle_input(Key::Char('h')), Step::Dispatch(LogEvent::Hide));
    assert_eq!(app.handle_input(Key::Char('z')), Step::Continue);
    assert_eq!(app.view_count(), 2);
    assert_eq!(app.handle_input(Key::Char('q')), Step::Continue);
    assert_eq!(app.view_count(), 1);
}

#[test]
fn resize_is_noticed_once() {
    let mut app = app();
    let size = Rect { x: 0, y: 0, width: 80, height: 24 };
    assert!(app.resize(size));
    assert_eq!(app.size(), size);
    assert!(!app.resize(size));
    assert!(app.resize(Rect { x: 0, y: 0, width: 80, height: 25 }));
}

#[test]
fn main_view_gets_what_the_bars_leave() {
    assert_eq!(App::main_view_height(24), 22);
    assert_eq!(App::main_view_height(2), 0);
}
