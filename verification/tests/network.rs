use fdt::keymap::{Command, DevTools, Focus, Key, KeyContext};
use fdt::network::{
    body_line_count, general_rows, request_rows, RequestSummary, header_table, header_text, headers_row_count, request_row,
    timing_rows, TableRow, method_class, next_tab, path_label,
    previous_tab, request_duration_micros, request_path_label, select_down, select_up, status_class,
    status_text, tab_index, HeaderValue, MethodClass, NetworkRequestView, RequestListSizes,
    RequestTab, StatusClass, UrlTail,
};

fn request_ctx() -> KeyContext {
    KeyContext {
        focus: Focus::DevTools(DevTools::NetworkRequest),
        popup: None,
        has_session: true,
        has_launch_configurations: false,
    }
}

#[test]
fn tabs_cycle_both_ways() {
    let mut tab = RequestTab::Headers;
    for _ in 0..4 {
        tab = next_tab(tab);
    }
    assert_eq!(tab, RequestTab::Headers);
    assert_eq!(next_tab(RequestTab::Response), RequestTab::Timing);
    assert_eq!(previous_tab(RequestTab::Headers), RequestTab::Timing);
    assert_eq!(previous_tab(next_tab(RequestTab::Payload)), RequestTab::Payload);
    assert_eq!(tab_index(RequestTab::Timing), 3);
}

#[test]
fn lines_move_within_a_list() {
    assert_eq!(select_down(None, 5), 0);
    assert_eq!(select_down(Some(2), 5), 3);
    assert_eq!(select_down(Some(4), 5), 4);
    assert_eq!(select_up(Some(3)), 2);
    assert_eq!(select_up(Some(0)), 0);
    assert_eq!(select_up(None), 0);
}

#[test]
fn request_view_keys() {
    let sizes = RequestListSizes { headers: Some(3), payload: Some(2), response: None };
    let mut view = NetworkRequestView::new();
    assert_eq!(view.handle_key(Key::Down, request_ctx(), sizes), vec![]);
    assert_eq!(view.headers_selected, Some(0));
    view.handle_key(Key::Char('j'), request_ctx(), sizes);
    assert_eq!(view.headers_selected, Some(1));
    assert_eq!(view.handle_key(Key::Tab, request_ctx(), sizes), vec![Command::LoadFullRequest]);
    assert_eq!(view.selected_tab, RequestTab::Payload);
    view.handle_key(Key::Down, request_ctx(), sizes);
    assert_eq!(view.payload_selected, Some(0));
    view.handle_key(Key::Right, request_ctx(), sizes);
    view.handle_key(Key::Down, request_ctx(), sizes);
    assert_eq!(view.response_selected, None);
    view.handle_key(Key::Up, request_ctx(), sizes);
    assert_eq!(view.response_selected, Some(0));
    assert_eq!(view.handle_key(Key::Esc, request_ctx(), sizes), vec![Command::ExitNetworkRequest]);
    assert_eq!(view, NetworkRequestView::new());
}

#[test]
fn request_view_ignores_keys_without_focus() {
    let sizes = RequestListSizes { headers: Some(3), payload: None, response: None };
    let mut view = NetworkRequestView::new();
    let other = KeyContext { focus: Focus::DevTools(DevTools::Network), ..request_ctx() };
    assert_eq!(view.handle_key(Key::Down, other, sizes), vec![]);
    assert_eq!(view, NetworkRequestView::new());
}

#[test]
fn row_and_line_counts() {
    assert_eq!(headers_row_count(2, 3), 13);
    assert_eq!(body_line_count("a\nb\nc"), 3);
    assert_eq!(body_line_count(""), 1);
}

#[test]
fn status_and_method_classes() {
    assert_eq!(status_class(Some(200)), StatusClass::Success);
    assert_eq!(status_class(Some(301)), StatusClass::Redirection);
    assert_eq!(status_class(Some(404)), StatusClass::Failure);
    assert_eq!(status_class(Some(503)), StatusClass::Failure);
    assert_eq!(status_class(Some(101)), StatusClass::Unknown);
    assert_eq!(status_class(None), StatusClass::Unknown);
    assert_eq!(method_class("GET"), MethodClass::Get);
    assert_eq!(method_class("DELETE"), MethodClass::Delete);
    assert_eq!(method_class("PATCH"), MethodClass::Other);
    assert_eq!(status_text(Some(404)), "404");
    assert_eq!(status_text(Some(-1)), "-1");
    assert_eq!(status_text(None), "-");
}

#[test]
fn path_labels() {
    assert_eq!(request_path_label("https://example.com/api/users?page=2"), "users?page=2");
    assert_eq!(request_path_label("https://example.com/api/users"), "users");
    assert_eq!(request_path_label("not a url"), "-");
    assert_eq!(request_path_label("mailto:someone@example.com"), "-");
    assert_eq!(
        path_label(Some(UrlTail { segments: Some(vec![]), query: Some("q=1".to_string()) })),
        "-?q=1"
    );
    assert_eq!(
        path_label(Some(UrlTail {
            segments: Some(vec!["api".to_string(), "users".to_string()]),
            query: None
        })),
        "users"
    );
    assert_eq!(path_label(Some(UrlTail { segments: None, query: Some("q".to_string()) })), "-");
    assert_eq!(request_path_label("https://example.com/"), "");
    assert_eq!(path_label(None), "-");
}

#[test]
fn durations() {
    assert_eq!(request_duration_micros(1_000, Some(4_500)), 3_500);
    assert_eq!(request_duration_micros(4_500, Some(1_000)), 3_500);
    assert_eq!(request_duration_micros(1_000, None), 0);
}

#[test]
fn header_values() {
    let single = HeaderValue::List { json: "[\"a\"]".to_string(), items: vec!["a".to_string()] };
    assert_eq!(header_text(single), "a");
    let many = HeaderValue::List {
        json: "[\"a\",\"b\"]".to_string(),
        items: vec!["a".to_string(), "b".to_string()],
    };
    assert_eq!(header_text(many), "[\"a\",\"b\"]");
    assert_eq!(header_text(HeaderValue::Other { json: "3".to_string() }), "3");
}

fn pairs(v: &[(&str, &str)]) -> Vec<(String, String)> {
    v.iter().map(|(a, b)| (a.to_string(), b.to_string())).collect()
}

#[test]
fn general_section_of_a_request() {
    let rows = general_rows("https://example.com/a", "GET", Some(200), None, Some("\"text/html\"".to_string()));
    assert_eq!(
        rows,
        pairs(&[
            ("Request URL", "https://example.com/a"),
            ("Request Method", "GET"),
            ("Status Code", "200"),
            ("Connection Info", "-"),
            ("Content Type", "\"text/html\""),
        ])
    );
    assert_eq!(general_rows("u", "POST", None, None, None)[2], ("Status Code".to_string(), "-".to_string()));
}

#[test]
fn headers_table_sections() {
    let general = general_rows("u", "GET", None, None, None);
    let response = pairs(&[("content-type", "json")]);
    let table = header_table(&general, &response, &vec![]);
    assert_eq!(table.len(), 1 + 5 + 2);
    assert_eq!(table[0], TableRow::Title(" General".to_string()));
    assert_eq!(table[1], TableRow::Entry("   Request URL".to_string(), "u".to_string()));
    assert_eq!(table[6], TableRow::Title(" Response Headers".to_string()));
    assert_eq!(table[7], TableRow::Entry("   content-type".to_string(), "json".to_string()));
    assert!(table.len() < headers_row_count(0, 1));
    let request = pairs(&[("accept", "*/*"), ("host", "example.com")]);
    let table = header_table(&general, &response, &request);
    assert_eq!(table.len(), headers_row_count(2, 1));
    assert_eq!(table[8], TableRow::Title(" Request Headers".to_string()));
}

#[test]
fn timing_of_a_request() {
    let events = vec![("connection established".to_string(), 1_200i64), ("response sent".to_string(), 1_500)];
    assert_eq!(
        timing_rows(1_000, &events, Some(2_000)),
        vec![
            ("  connection established".to_string(), 200u64),
            ("  response sent".to_string(), 300),
            ("  Total".to_string(), 1_000),
        ]
    );
    assert_eq!(timing_rows(1_000, &vec![], None), vec![]);
    assert_eq!(timing_rows(1_000, &vec![("early".to_string(), 999)], None)[0].1, u64::MAX);
}

#[test]
fn request_list_row() {
    let row = request_row("POST", "https://example.com/api/login?next=home", Some(401), 10, Some(2_010));
    assert_eq!(row.method, "POST");
    assert_eq!(row.method_class, MethodClass::Post);
    assert_eq!(row.path, "login?next=home");
    assert_eq!(row.status, "401");
    assert_eq!(row.status_class, StatusClass::Failure);
    assert_eq!(row.duration_micros, 2_000);
}

#[test]
fn up_needs_nothing_at_hand() {
    let none = RequestListSizes { headers: None, payload: None, response: None };
    let mut view = NetworkRequestView {
        selected_tab: RequestTab::Headers,
        headers_selected: Some(4),
        payload_selected: None,
        response_selected: None,
    };
    view.handle_key(Key::Up, request_ctx(), none);
    assert_eq!(view.headers_selected, Some(3));
    view.handle_key(Key::Down, request_ctx(), none);
    assert_eq!(view.headers_selected, Some(3));
}

#[test]
fn whole_request_list() {
    let requests = vec![
        RequestSummary {
            method: "GET".to_string(),
            uri: "https://example.com/a".to_string(),
            status_code: Some(200),
            start_time: 0,
            last_event: Some(1_500),
        },
        RequestSummary {
            method: "PUT".to_string(),
            uri: "bad".to_string(),
            status_code: None,
            start_time: 10,
            last_event: None,
        },
    ];
    let rows = request_rows(&requests);
    assert_eq!(rows.len(), 2);
    assert_eq!(rows[0].path, "a");
    assert_eq!(rows[0].duration_micros, 1_500);
    assert_eq!(rows[1].path, "-");
    assert_eq!(rows[1].status, "-");
    assert_eq!(rows[1].method_class, MethodClass::Put);
    assert!(request_rows(&vec![]).is_empty());
}
