use bounce::app::{Action, App, Message};
use bounce::screen::{
    detail_pane, entry_label, entry_rows, header_lines, typed, Detail, Field, InputField,
};
use bounce::types::{ProxyConfig, ProxyEntry, ProxyEvent};
use std::time::SystemTime;

fn entry(id: usize, path: &str) -> ProxyEntry {
    ProxyEntry {
        id,
        method: "GET".to_string(),
        path: path.to_string(),
        request_headers: vec![
            ("accept".to_string(), "*/*".to_string()),
            ("host".to_string(), "here".to_string()),
        ],
        request_body: format!("question {path}"),
        response_status: 204,
        response_headers: vec![("x-r".to_string(), "<binary>".to_string())],
        response_body: format!("answer {path}"),
        timestamp: SystemTime::UNIX_EPOCH,
    }
}

fn report(app: &mut App, event: ProxyEvent) {
    assert!(matches!(app.update(Message::ProxyEvent(event)), Action::Idle));
}

fn record(app: &mut App, id: usize, path: &str) {
    report(app, ProxyEvent::Entry(Box::new(entry(id, path))));
}

fn launch(app: &mut App) -> (u64, ProxyConfig) {
    match app.update(Message::StartServer) {
        Action::Launch { session, config } => (session, config),
        _ => panic!("a proxy should have been launched"),
    }
}

fn stop(app: &mut App) -> Option<u64> {
    match app.update(Message::StopServer) {
        Action::SignalStop { session } => Some(session),
        Action::Idle => None,
        Action::Launch { .. } => panic!("no proxy should have been launched"),
    }
}

fn sections(detail: &Detail) -> Vec<(String, String)> {
    match detail {
        Detail::Sections(sections) => sections
            .iter()
            .map(|s| (s.title.clone(), s.text.clone()))
            .collect(),
        Detail::Hint(_) => panic!("details should have been shown"),
    }
}

fn is_hint(detail: &Detail) -> bool {
    match detail {
        Detail::Hint(hint) => hint == "Select a request to inspect",
        Detail::Sections(_) => false,
    }
}

#[test]
fn the_window_opens_ready() {
    let screen = App::new().view();
    assert_eq!(screen.upstream_url.value, "http://localhost:8080");
    assert_eq!(screen.upstream_url.placeholder, "http://localhost:8080");
    assert_eq!(screen.bind_addr.value, "0.0.0.0");
    assert_eq!(screen.bind_addr.placeholder, "0.0.0.0");
    assert_eq!(screen.bind_port.value, "3000");
    assert_eq!(screen.bind_port.placeholder, "3000");
    assert!(matches!(screen.start, Some(Message::StartServer)));
    assert!(screen.stop.is_none());
    assert_eq!(screen.status, "Ready");
    assert!(screen.rows.is_empty());
    assert!(is_hint(&screen.detail));
    assert_eq!(App::new().subscription(), None);
}

#[test]
fn fields_take_what_is_typed() {
    let mut app = App::new();
    for message in [
        Message::UpstreamUrlChanged("http://up".to_string()),
        Message::BindAddrChanged("::1".to_string()),
        Message::BindPortChanged("http".to_string()),
    ] {
        assert!(matches!(app.update(message), Action::Idle));
    }
    let screen = app.view();
    assert_eq!(screen.upstream_url.value, "http://up");
    assert_eq!(screen.bind_addr.value, "::1");
    assert_eq!(screen.bind_port.value, "http");
    assert_eq!(screen.status, "Ready");
}

#[test]
fn typing_changes_the_field_that_is_typed_in() {
    let mut app = App::new();
    launch(&mut app);
    let pick: [fn(&App) -> InputField; 3] = [
        |app| app.view().upstream_url,
        |app| app.view().bind_addr,
        |app| app.view().bind_port,
    ];
    for (i, field) in pick.iter().enumerate() {
        let message = typed(field(&app).field, format!("text {i}"));
        assert!(matches!(app.update(message), Action::Idle));
        assert_eq!(field(&app).value, format!("text {i}"));
    }
    assert_eq!(app.view().upstream_url.value, "text 0");
    assert_eq!(app.view().bind_addr.value, "text 1");
    assert!(matches!(
        typed(Field::UpstreamUrl, "u".to_string()),
        Message::UpstreamUrlChanged(_)
    ));
    assert!(matches!(typed(Field::BindAddr, "a".to_string()), Message::BindAddrChanged(_)));
    assert!(matches!(typed(Field::BindPort, "p".to_string()), Message::BindPortChanged(_)));
}

#[test]
fn starting_launches_what_the_fields_say() {
    let mut app = App::new();
    app.update(Message::UpstreamUrlChanged("http://up".to_string()));
    app.update(Message::BindAddrChanged("127.0.0.1".to_string()));
    app.update(Message::BindPortChanged("+080".to_string()));
    let (session, config) = launch(&mut app);
    assert_eq!(session, 1);
    assert_eq!(config.upstream_url, "http://up");
    assert_eq!(config.bind_addr, "127.0.0.1");
    assert_eq!(config.bind_port, 80);
    let screen = app.view();
    assert_eq!(screen.bind_port.value, "+080");
    assert_eq!(screen.status, "Starting\u{2026}");
    assert!(screen.start.is_none());
    assert!(matches!(screen.stop, Some(Message::StopServer)));
    assert_eq!(app.subscription(), Some(1));
}

#[test]
fn a_port_that_is_none_gives_way() {
    for text in ["", "x", "65536", "-1"] {
        let mut app = App::new();
        app.update(Message::BindPortChanged(text.to_string()));
        let (_, config) = launch(&mut app);
        assert_eq!(config.bind_port, 3000);
        let screen = app.view();
        assert_eq!(screen.bind_port.value, "3000");
        assert_eq!(screen.status, "Starting\u{2026}");
    }
}

#[test]
fn stopping_signals_once() {
    let mut app = App::new();
    assert_eq!(stop(&mut app), None);
    assert_eq!(app.view().status, "Stopped");
    launch(&mut app);
    assert_eq!(stop(&mut app), Some(1));
    assert_eq!(stop(&mut app), None);
    let screen = app.view();
    assert_eq!(screen.status, "Stopped");
    assert!(screen.start.is_some());
    assert!(screen.stop.is_none());
    assert_eq!(app.subscription(), Some(1));
    launch(&mut app);
    assert_eq!(stop(&mut app), Some(2));
}

#[test]
fn each_start_has_a_session_of_its_own() {
    let mut app = App::new();
    for expected in 1..5 {
        assert_eq!(launch(&mut app).0, expected);
        assert_eq!(app.subscription(), Some(expected));
    }
    assert_eq!(stop(&mut app), Some(4));
}

#[test]
fn a_launched_proxy_can_be_stopped_after_it_reported_its_end() {
    let mut app = App::new();
    launch(&mut app);
    report(&mut app, ProxyEvent::Stopped);
    record(&mut app, 0, "/late");
    assert_eq!(stop(&mut app), Some(1));
}

#[test]
fn reports_change_the_status() {
    let mut app = App::new();
    launch(&mut app);
    report(&mut app, ProxyEvent::Started);
    assert_eq!(app.view().status, "Listening on 0.0.0.0:3000");
    assert!(app.view().stop.is_some());
    report(&mut app, ProxyEvent::Error("Bind error: x".to_string()));
    assert_eq!(app.view().status, "Error: Bind error: x");
    assert!(app.view().stop.is_none());
    launch(&mut app);
    report(&mut app, ProxyEvent::Stopped);
    assert_eq!(app.view().status, "Stopped");
    assert!(app.view().start.is_some());
    report(&mut app, ProxyEvent::Started);
    assert!(app.view().start.is_some());
}

#[test]
fn the_list_keeps_what_was_reported() {
    let mut app = App::new();
    launch(&mut app);
    record(&mut app, 0, "/a");
    record(&mut app, 1, "/b");
    stop(&mut app);
    launch(&mut app);
    record(&mut app, 0, "/c");
    let labels: Vec<String> = app.view().rows.iter().map(|r| r.label.clone()).collect();
    assert_eq!(labels, ["[0] GET /a 204", "[1] GET /b 204", "[0] GET /c 204"]);
}

#[test]
fn selecting_shows_the_first_of_its_number() {
    let mut app = App::new();
    record(&mut app, 0, "/a");
    record(&mut app, 1, "/b");
    assert!(matches!(app.update(Message::SelectEntry(1)), Action::Idle));
    record(&mut app, 1, "/c");
    let screen = app.view();
    let selected: Vec<bool> = screen.rows.iter().map(|r| r.selected).collect();
    assert_eq!(selected, [false, true, true]);
    assert!(matches!(screen.rows[2].on_press, Message::SelectEntry(1)));
    assert_eq!(
        sections(&screen.detail),
        [
            ("Request Headers", "accept: */*\nhost: here"),
            ("Request Body", "question /b"),
            ("Response Headers", "x-r: <binary>"),
            ("Response Body", "answer /b"),
        ]
        .map(|(title, text)| (title.to_string(), text.to_string()))
    );
}

#[test]
fn selecting_what_is_not_there_shows_the_hint() {
    let mut app = App::new();
    record(&mut app, 0, "/a");
    app.update(Message::SelectEntry(5));
    assert!(is_hint(&app.view().detail));
    record(&mut app, 5, "/b");
    assert_eq!(sections(&app.view().detail)[1].1, "question /b");
}

#[test]
fn labels_name_the_request() {
    let mut e = entry(usize::MAX, "/x?y");
    e.method = "DELETE".to_string();
    e.response_status = 7;
    assert_eq!(entry_label(&e), format!("[{}] DELETE /x?y 7", usize::MAX));
    assert_ne!(entry_label(&entry(1, "/x")), entry_label(&entry(11, "/x")));
}

#[test]
fn rows_and_panes_follow_the_selection() {
    let entries = vec![entry(3, "/a"), entry(4, "/b")];
    let rows = entry_rows(&entries, Some(4));
    assert!(!rows[0].selected && rows[1].selected);
    assert!(entry_rows(&entries, None).iter().all(|r| !r.selected));
    assert!(is_hint(&detail_pane(&entries, None)));
    assert_eq!(sections(&detail_pane(&entries, Some(3)))[3].1, "answer /a");
}

#[test]
fn headers_are_joined_by_line_breaks() {
    let headers = |items: &[(&str, &str)]| -> Vec<(String, String)> {
        items
            .iter()
            .map(|(k, v)| (k.to_string(), v.to_string()))
            .collect()
    };
    assert_eq!(header_lines(&headers(&[])), "");
    assert_eq!(header_lines(&headers(&[("a", "")])), "a: ");
    assert_eq!(header_lines(&headers(&[("a", "1"), ("b", "2"), ("a", "3")])), "a: 1\nb: 2\na: 3");
}
