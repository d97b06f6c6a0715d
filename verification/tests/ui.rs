use rocker::app::{App, ContainerId};
use rocker::docker::{Container, DockerResponse, Image, Info, Port, Version};
use rocker::event::Key;
use rocker::ui::{table_offset, Row, Span, Style};
use rocker::views::container_list::{display_port, port_order, ports_line};
use rocker::views::help::HELP;
use rocker::views::{
    ContainerInfo, ContainerListView, ContainerLogsView, DockerInfo, HelpView, ImagesListView,
};

fn port(ip: Option<&str>, private_port: u64, public_port: Option<u64>, typ: &str) -> Port {
    Port { ip: ip.map(str::to_string), private_port, public_port, typ: typ.to_string() }
}

fn container(id: &str, status: &str) -> Container {
    Container {
        created: 1_000,
        command: "sleep 1".to_string(),
        id: id.to_string(),
        image: "busybox".to_string(),
        labels: "{\"a\": \"b\"}".to_string(),
        names: vec![format!("/{}-name", id), "/other".to_string()],
        ports: Vec::new(),
        status: status.to_string(),
        size_rw: Some(12),
        size_root_fs: None,
    }
}

fn image(id: &str, tags: Option<Vec<&str>>, created: u64, size: u64) -> Image {
    Image {
        created,
        id: id.to_string(),
        parent_id: String::new(),
        repo_tags: tags.map(|tags| tags.into_iter().map(str::to_string).collect()),
        virtual_size: size,
    }
}

fn info() -> Info {
    Info {
        containers: 3,
        images: 7,
        name: "host".to_string(),
        operating_system: "Linux".to_string(),
        kernel_version: "6.1".to_string(),
        n_cpu: 4,
        mem_total: 1024,
        docker_root_dir: "/var/lib/docker".to_string(),
        driver: "overlay2".to_string(),
    }
}

fn span(text: &str, style: Style) -> Span {
    Span { text: text.to_string(), style }
}

fn row(cells: &[&str], style: Style) -> Row {
    Row { cells: cells.iter().map(|cell| cell.to_string()).collect(), style }
}

#[test]
fn table_scrolls_once_the_cursor_leaves_the_screen() {
    assert_eq!(table_offset(0, 24), 0);
    assert_eq!(table_offset(19, 24), 0);
    assert_eq!(table_offset(20, 24), 1);
    assert_eq!(table_offset(25, 14), 16);
    assert_eq!(table_offset(0, 5), 0);
    assert_eq!(table_offset(1, 5), 1);
    assert_eq!(table_offset(0, 4), 1);
    assert_eq!(table_offset(7, 4), 8);
}

#[test]
fn port_is_written_with_the_parts_it_has() {
    assert_eq!(display_port(&port(Some("0.0.0.0"), 80, Some(8080), "tcp")), "0.0.0.0:80 \u{2192} 8080/tcp");
    assert_eq!(display_port(&port(None, 53, None, "udp")), "53/udp");
    assert_eq!(display_port(&port(Some("::"), 443, None, "tcp")), ":::443/tcp");
    assert_eq!(display_port(&port(None, 0, Some(65535), "")), "0 \u{2192} 65535/");
}

#[test]
fn ports_are_ordered_by_private_port() {
    let ports = vec![
        port(None, 443, None, "tcp"),
        port(None, 80, None, "tcp"),
        port(None, 8080, None, "tcp"),
        port(None, 22, None, "tcp"),
    ];
    assert_eq!(port_order(&ports), vec![3, 1, 0, 2]);
    assert_eq!(port_order(&Vec::new()), Vec::<usize>::new());
}

#[test]
fn ports_with_the_same_private_port_keep_their_order() {
    let ports = vec![
        port(Some("b"), 80, None, "tcp"),
        port(None, 443, None, "tcp"),
        port(Some("a"), 80, None, "udp"),
        port(None, 22, None, "tcp"),
        port(Some("c"), 80, None, "tcp"),
    ];
    assert_eq!(port_order(&ports), vec![3, 0, 2, 4, 1]);
    let mut sorted = ports.clone();
    sorted.sort_by_key(|port| port.private_port);
    let picked: Vec<Port> = port_order(&ports).into_iter().map(|i| ports[i].clone()).collect();
    assert_eq!(picked, sorted);
}

#[test]
fn ports_stand_on_a_line_each() {
    let ports = vec![port(None, 443, None, "tcp"), port(Some("0.0.0.0"), 80, Some(8080), "tcp")];
    assert_eq!(ports_line(&ports), "0.0.0.0:80 \u{2192} 8080/tcp\n                443/tcp");
    assert_eq!(ports_line(&ports[..1].to_vec()), "443/tcp");
    assert_eq!(ports_line(&Vec::new()), "");
}

#[test]
fn container_goes_by_its_first_name_without_the_slash() {
    let mut c = container("c", "Up");
    assert_eq!(ContainerListView::container_name(&c), Some("c-name"));
    c.names = vec!["plain".to_string()];
    assert_eq!(ContainerListView::container_name(&c), Some("plain"));
    c.names = vec!["//twice".to_string()];
    assert_eq!(ContainerListView::container_name(&c), Some("/twice"));
    c.names = vec!["/".to_string()];
    assert_eq!(ContainerListView::container_name(&c), Some(""));
    c.names = vec![String::new()];
    assert_eq!(ContainerListView::container_name(&c), Some(""));
    c.names = vec!["/\u{fc}ber".to_string()];
    assert_eq!(ContainerListView::container_name(&c), Some("\u{fc}ber"));
    c.names = Vec::new();
    assert_eq!(ContainerListView::container_name(&c), None);
}

#[test]
fn container_rows_show_cursor_and_running_containers() {
    let view = ContainerListView {
        containers: vec![
            container("a", "Up 2 hours"),
            container("b", "Exited (0) 3 days ago"),
            container("c", "Up 5 minutes"),
            container("d", "Up"),
        ],
        selected: 2,
        only_running: false,
    };
    assert_eq!(
        view.rows(24),
        vec![
            row(&["a", "a-name", "busybox", "sleep 1", "Up 2 hours"], Style::Running),
            row(&["b", "b-name", "busybox", "sleep 1", "Exited (0) 3 days ago"], Style::Normal),
            row(&["c", "c-name", "busybox", "sleep 1", "Up 5 minutes"], Style::Selected),
            row(&["d", "d-name", "busybox", "sleep 1", "Up"], Style::Normal),
        ]
    );
}

#[test]
fn container_rows_start_at_the_first_visible_row() {
    let containers: Vec<Container> =
        (0..30).map(|i| container(&format!("c{}", i), "Created")).collect();
    let view = ContainerListView { containers, selected: 25, only_running: false };
    let rows = view.rows(14);
    assert_eq!(rows.len(), 14);
    assert_eq!(rows[0].cells[0], "c16");
    assert_eq!(rows[9].cells[0], "c25");
    assert_eq!(rows[9].style, Style::Selected);
    assert_eq!(rows[13].cells[0], "c29");
    assert_eq!(view.rows(4).len(), 4);
    assert_eq!(ContainerListView::new().rows(24), Vec::new());
    assert_eq!(ContainerListView::new().rows(4), Vec::new());
}

#[test]
fn container_without_a_name_has_an_empty_cell() {
    let mut c = container("a", "Paused");
    c.names = Vec::new();
    assert_eq!(
        ContainerListView::row(&c, false),
        row(&["a", "", "busybox", "sleep 1", "Paused"], Style::Normal)
    );
}

#[test]
fn details_of_the_selected_container() {
    let mut c = container("a", "Up 16 minutes");
    c.ports = vec![
        port(None, 443, None, "tcp"),
        port(Some("0.0.0.0"), 80, Some(8080), "tcp"),
        port(None, 80, None, "udp"),
    ];
    let view = ContainerListView {
        containers: vec![container("z", "Exited"), c],
        selected: 1,
        only_running: true,
    };
    assert!(view.can_show_details(2_000));
    assert_eq!(
        view.details(2_000),
        vec![
            "        Created: 16 minutes ago",
            "        Command: sleep 1",
            "          Image: busybox",
            "         Labels: {\"a\": \"b\"}",
            "           Name: a-name",
            "          Ports: 0.0.0.0:80 \u{2192} 8080/tcp\n                80/udp\n                443/tcp",
            "         Status: Up 16 minutes",
            "         SizeRW: Some(12)",
            "     SizeRootFs: None",
        ]
    );
}

#[test]
fn details_need_a_container_that_is_not_younger_than_now() {
    let view = ContainerListView {
        containers: vec![container("a", "Up")],
        selected: 0,
        only_running: false,
    };
    assert!(view.can_show_details(1_000));
    assert!(!view.can_show_details(999));
    assert_eq!(view.details(1_000)[0], "        Created: Less than a second ago");
    let none = ContainerListView::new();
    assert!(none.can_show_details(0));
    assert_eq!(none.details(0), Vec::<String>::new());
}

#[test]
fn image_rows_show_short_ids_first_tags_and_sizes() {
    let mut first = image(
        "sha256:0123456789abcdef0123456789abcdef",
        Some(vec!["busybox:latest", "busybox:1"]),
        20_000 - 1_000,
        1_500_000,
    );
    first.parent_id = "sha256:fedcba9876543210".to_string();
    let second = image("plain-id", None, 20_000 - 3 * 3600, 999);
    let third = image("", Some(Vec::new()), 20_000, 0);
    let view = ImagesListView { images: vec![first, second, third], selected: 1 };
    assert!(view.can_draw(20_000));
    assert_eq!(
        view.rows(24, 20_000),
        vec![
            row(&["0123456789", "fedcba9876", "busybox:latest", "16 minutes ago", "1.5 MB"], Style::Normal),
            row(&["plain-id", "", "<none>", "3 hours ago", "999 B"], Style::Selected),
            row(&["", "", "<none>", "Less than a second ago", "0 B"], Style::Normal),
        ]
    );
}

#[test]
fn image_size_is_worded_by_the_size_it_is_given() {
    let image = image("id", None, 0, 5);
    assert_eq!(
        ImagesListView::row_with(&image, true, 1, "a lot".to_string()),
        row(&["id", "", "<none>", "1 second ago", "a lot"], Style::Selected)
    );
    assert_eq!(
        ImagesListView::row(&image, false, 1),
        row(&["id", "", "<none>", "1 second ago", "5 B"], Style::Normal)
    );
    let big = self::image("id", None, 0, 2_000_000_000);
    assert_eq!(ImagesListView::row(&big, false, 1).cells[4], "2.0 GB");
}

#[test]
fn image_rows_start_at_the_first_visible_row() {
    let images: Vec<Image> = (0..30).map(|i| image(&format!("i{}", i), None, 0, 0)).collect();
    let view = ImagesListView { images, selected: 29 };
    let rows = view.rows(9, 10);
    assert_eq!(rows.len(), 5);
    assert_eq!(rows[0].cells[0], "i25");
    assert_eq!(rows[4].style, Style::Selected);
    assert_eq!(ImagesListView::new().rows(24, 0), Vec::new());
}

#[test]
fn short_id_is_cut_out_of_the_digest() {
    assert_eq!(ImagesListView::short_id("sha256:0123456789abcdef"), "0123456789");
    assert_eq!(ImagesListView::short_id("sha256:0123456789"), "0123456789");
    assert_eq!(ImagesListView::short_id("md5:0123456789abcdef"), "md5:0123456789abcdef");
    assert_eq!(ImagesListView::short_id("sha256"), "sha256");
    assert_eq!(ImagesListView::short_id(""), "");
    assert_eq!(ImagesListView::short_id("sha256:\u{fc}bcdefghi-rest"), "\u{fc}bcdefghi");
}

#[test]
fn table_cannot_be_made_of_ids_that_are_too_short() {
    assert!(ImagesListView::has_short_id("sha256:0123456789"));
    assert!(!ImagesListView::has_short_id("sha256:012345678"));
    assert!(!ImagesListView::has_short_id("sha256:"));
    assert!(!ImagesListView::has_short_id("sha256:012345678\u{fc}"));
    assert!(ImagesListView::has_short_id("sha256:01234567\u{fc}9"));
    assert!(ImagesListView::has_short_id("anything else"));
    assert!(ImagesListView::can_make_row(&image("ok", None, 5, 0), 5));
    assert!(!ImagesListView::can_make_row(&image("ok", None, 5, 0), 4));
    assert!(!ImagesListView::can_make_row(&image("sha256:short", None, 5, 0), 5));
    let mut view = ImagesListView { images: vec![image("ok", None, 5, 0)], selected: 0 };
    assert!(view.can_draw(5));
    assert!(!view.can_draw(4));
    view.images.push(image("sha256:short", None, 0, 0));
    assert!(!view.can_draw(5));
    view.images[1].id = "fine".to_string();
    view.images[1].parent_id = "sha256:short".to_string();
    assert!(!view.can_draw(5));
}

#[test]
fn daemon_information_is_shown_under_two_headings() {
    let view = DockerInfo { info: Some(info()) };
    assert_eq!(
        view.text(),
        vec![
            span("Host details\n", Style::Heading),
            span("Hostname:       host\n", Style::Normal),
            span("OS Information: Linux\n", Style::Normal),
            span("Kernel Version: 6.1\n", Style::Normal),
            span("Total CPU:      4\n", Style::Normal),
            span("Total Memory:   1024\n", Style::Normal),
            span("\n", Style::Normal),
            span("Engine details\n", Style::Heading),
            span("Root Directory:       /var/lib/docker\n", Style::Normal),
            span("Storage Driver:       overlay2\n", Style::Normal),
        ]
    );
    assert_eq!(
        DockerInfo::new().text(),
        vec![span("Could not retrieve information from the Docker daemon.", Style::Normal)]
    );
}

#[test]
fn container_details_are_shown_once_they_are_there() {
    let mut view = ContainerInfo::new(ContainerId("abc".to_string()));
    assert_eq!(view.text(), "Could not retrieve container details.");
    view.refresh(DockerResponse::Details("ContainerDetails { .. }".to_string()));
    assert_eq!(view.text(), "ContainerDetails { .. }");
}

#[test]
fn log_lines_show_which_stream_they_came_from() {
    let mut view = ContainerLogsView::new(ContainerId("abc".to_string()));
    assert_eq!(view.text(), Vec::new());
    let stream = vec![2, 0, 0, 0, 0, 0, 0, 2, b'e', b'1', 1, 0, 0, 0, 0, 0, 0, 2, b'o', b'1'];
    view.refresh(DockerResponse::Logs(stream));
    assert_eq!(view.text(), vec![span("e1", Style::StdErr), span("o1", Style::Normal)]);
}

#[test]
fn help_lists_the_keys() {
    let lines = HelpView::new().text();
    assert_eq!(lines.len(), 15);
    assert_eq!(lines, HELP.to_vec());
    assert_eq!(lines[0], "KEYS:\n");
    assert_eq!(lines[2], "q - exit view\n");
    assert_eq!(lines[14], "\u{23ce} - container details   in view: container list\n");
    assert!(lines.iter().all(|line| line.ends_with('\n')));
}

#[test]
fn title_bar_counts_containers_and_images() {
    let app = App::new(info(), Version { version: "24.0.7".to_string(), api_version: "1.43".to_string() });
    assert_eq!(
        app.status_bar("0.1.0-"),
        vec![
            span("Rocker v0.1.0-     ", Style::Normal),
            span("3", Style::Highlight),
            span(" containers, ", Style::Normal),
            span("7", Style::Highlight),
            span(" images, ", Style::Normal),
            span("docker v24.0.7 (1.43)", Style::Normal),
        ]
    );
}

#[test]
fn status_line_shows_the_last_message() {
    let mut app = App::new(info(), Version { version: "1".to_string(), api_version: "2".to_string() });
    assert_eq!(app.status_message(), span("No message", Style::Normal));
    app.refresh();
    app.handle_response(DockerResponse::Failed("daemon is gone".to_string()));
    assert_eq!(app.status_message(), span("daemon is gone", Style::Alert));
    app.handle_input(Key::Down);
    assert_eq!(app.status_message(), span("daemon is gone", Style::Alert));
}
