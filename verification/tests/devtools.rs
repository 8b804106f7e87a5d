use fdt::devtools::client::{bool_from_text, is_stream_event, result_for_request, text_of_bool, VmServiceResponse as ClientResponse};
use fdt::devtools::flutter_extension::DiagnosticNode;
use fdt::devtools::params::{directories_call, object_call, toggle_call, ParamValue};
use fdt::devtools::request::{StreamId, VmServiceRequest};
use fdt::devtools::response::{GetVersionResponse, VmServiceResponse};
use fdt::devtools::service::{
    answer_for, get_version_request, is_stream_notification, stream_cancel_request,
    stream_listen_request, version_of, ServiceError,
};
use fdt::devtools::client::{event_for_stream, VmServiceEvent as StreamEvent, VmServiceEventParams};
use fdt::devtools::service::{event_of, VmServiceEvent};
use fdt::devtools::vm_service::{Event, EventKind, StreamId as ProtocolStreamId, Version};
use fdt::widget_tree::{all_ids, next_in_tree, previous_in_tree, toggle_open, visible_line_ids};

#[test]
fn requests_name_jsonrpc_and_their_id() {
    match get_version_request(1) {
        VmServiceRequest::GetVersion { jsonrpc, id, .. } => {
            assert_eq!(jsonrpc, "2.0");
            assert_eq!(id, 1);
        }
        other => panic!("unexpected request {:?}", other),
    }
    match stream_listen_request(2, StreamId::VM) {
        VmServiceRequest::StreamListen { jsonrpc, id, params } => {
            assert_eq!(jsonrpc, "2.0");
            assert_eq!(id, 2);
            assert_eq!(params.stream_id, StreamId::VM);
        }
        other => panic!("unexpected request {:?}", other),
    }
    match stream_cancel_request(3, StreamId::Isolate) {
        VmServiceRequest::StreamCancel { id, params, .. } => {
            assert_eq!(id, 3);
            assert_eq!(params.stream_id, StreamId::Isolate);
        }
        other => panic!("unexpected request {:?}", other),
    }
}

fn version_response(id: u32, result: Option<Version>) -> GetVersionResponse {
    VmServiceResponse { id, jsonrpc: "2.0".to_string(), result }
}

fn version() -> Version {
    Version { type_: "Version".to_string(), major: 2, minor: 0 }
}

#[test]
fn answers_are_matched_by_id() {
    assert!(answer_for(version_response(1, Some(version())), 1).is_some());
    assert!(answer_for(version_response(1, Some(version())), 2).is_none());
}

#[test]
fn version_answer_needs_a_result() {
    assert_eq!(version_of(version_response(1, Some(version()))), Ok(version()));
    assert_eq!(version_of(version_response(1, None)), Err(ServiceError::MissingVersion));
}

#[test]
fn stream_events_are_told_apart() {
    assert!(is_stream_notification("streamNotify"));
    assert!(!is_stream_notification("getVersion"));
    assert!(is_stream_event("streamNotify", &ProtocolStreamId::Extension, &ProtocolStreamId::Extension));
    assert!(!is_stream_event("streamNotify", &ProtocolStreamId::GC, &ProtocolStreamId::Extension));
    assert!(!is_stream_event("other", &ProtocolStreamId::GC, &ProtocolStreamId::GC));
}

#[test]
fn client_results_are_matched_by_id() {
    let response = ClientResponse { id: "abc".to_string(), jsonrpc: "2.0".to_string(), result: 7u32 };
    assert_eq!(result_for_request(response, "abc"), Some(7));
    let response = ClientResponse { id: "abc".to_string(), jsonrpc: "2.0".to_string(), result: 7u32 };
    assert_eq!(result_for_request(response, "abd"), None);
}

#[test]
fn flags_as_text() {
    assert_eq!(bool_from_text("true"), Some(true));
    assert_eq!(bool_from_text("false"), Some(false));
    assert_eq!(bool_from_text("True"), None);
    assert_eq!(text_of_bool(true), "true");
    assert_eq!(text_of_bool(false), "false");
}

fn node(id: Option<&str>, children: Option<Vec<DiagnosticNode>>) -> DiagnosticNode {
    DiagnosticNode {
        description: None,
        type_: "_ElementDiagnosticableTreeNode".to_string(),
        name: None,
        show_separator: None,
        level: None,
        show_name: None,
        empty_body_description: None,
        style: None,
        allow_truncate: None,
        has_children: None,
        line_prefix: None,
        allow_wrap: None,
        allow_name_wrap: None,
        value_id: id.map(|s| s.to_string()),
        summary_tree: None,
        location_id: None,
        creation_location: None,
        created_by_local_project: None,
        properties: None,
        children,
        truncated: None,
        render_object: None,
        parent_render_element: None,
        constraints: None,
        is_box: None,
        size: None,
        flex_factor: None,
        flex_fit: None,
        parent_data: None,
    }
}

#[test]
fn all_ids_of_a_widget_tree() {
    let tree = node(
        Some("root"),
        Some(vec![
            node(Some("a"), Some(vec![node(Some("a1"), None), node(None, None)])),
            node(Some("b"), None),
            node(Some("a1"), Some(vec![])),
        ]),
    );
    let mut ids = all_ids(&tree);
    ids.sort();
    assert_eq!(ids, vec!["", "a", "a1", "b", "root"]);
    assert_eq!(all_ids(&node(None, None)), vec![""]);
}

fn with_properties(mut n: DiagnosticNode, properties: Vec<DiagnosticNode>) -> DiagnosticNode {
    n.properties = Some(properties);
    n
}

fn ids(v: &[&str]) -> Vec<String> {
    v.iter().map(|s| s.to_string()).collect()
}

#[test]
fn drawn_lines_follow_open_nodes() {
    let tree = node(
        Some("root"),
        Some(vec![
            node(Some("a"), Some(vec![node(Some("a1"), None)])),
            node(Some("b"), Some(vec![node(Some("b1"), None)])),
        ]),
    );
    assert_eq!(visible_line_ids(&tree, &ids(&[]), false), ids(&["root"]));
    assert_eq!(visible_line_ids(&tree, &ids(&["root"]), false), ids(&["root", "a", "b"]));
    assert_eq!(
        visible_line_ids(&tree, &ids(&["root", "b"]), false),
        ids(&["root", "a", "b", "b1"])
    );
    let all = all_ids(&tree);
    assert_eq!(visible_line_ids(&tree, &all, false), ids(&["root", "a", "a1", "b", "b1"]));
}

#[test]
fn properties_come_before_children() {
    let tree = with_properties(
        node(Some("w"), Some(vec![node(Some("child"), None)])),
        vec![node(Some("p1"), None), node(Some("p2"), None)],
    );
    assert_eq!(visible_line_ids(&tree, &ids(&["w"]), true), ids(&["w", "p1", "p2", "child"]));
    assert_eq!(visible_line_ids(&tree, &ids(&["w"]), false), ids(&["w", "child"]));
}

#[test]
fn toggling_opens_and_closes() {
    let mut opened = ids(&["a", "b", "a"]);
    toggle_open(&mut opened, &"a".to_string());
    assert_eq!(opened, ids(&["b"]));
    toggle_open(&mut opened, &"c".to_string());
    assert_eq!(opened, ids(&["b", "c"]));
    toggle_open(&mut opened, &"c".to_string());
    assert_eq!(opened, ids(&["b"]));
}

#[test]
fn moving_through_the_drawn_tree() {
    let tree = node(
        Some("root"),
        Some(vec![
            node(Some("a"), Some(vec![node(Some("a1"), None)])),
            node(Some("b"), None),
        ]),
    );
    let opened = ids(&["root"]);
    let a = "a".to_string();
    let b = "b".to_string();
    let a1 = "a1".to_string();
    assert_eq!(next_in_tree(&tree, &opened, false, None), Some("root".to_string()));
    assert_eq!(next_in_tree(&tree, &opened, false, Some(&a)), Some("b".to_string()));
    assert_eq!(next_in_tree(&tree, &opened, false, Some(&b)), Some("b".to_string()));
    assert_eq!(previous_in_tree(&tree, &opened, false, Some(&b)), Some("a".to_string()));
    assert_eq!(next_in_tree(&tree, &opened, false, Some(&a1)), Some("root".to_string()));
    let all = all_ids(&tree);
    assert_eq!(next_in_tree(&tree, &all, false, Some(&a)), Some("a1".to_string()));
}

fn text(s: &str) -> ParamValue {
    ParamValue::Text(s.to_string())
}

#[test]
fn extension_call_params() {
    let call = toggle_call("ext.flutter.debugPaint", "isolates/1", Some(true));
    assert_eq!(call.method, "ext.flutter.debugPaint");
    assert_eq!(
        call.params,
        vec![("isolateId".to_string(), text("isolates/1")), ("enabled".to_string(), ParamValue::Bool(true))]
    );
    let read = toggle_call("ext.flutter.repaintRainbow", "isolates/1", None);
    assert_eq!(read.params[1], ("enabled".to_string(), ParamValue::Null));
    let call = object_call("ext.flutter.inspector.getProperties", "isolates/1", Some("id7"), "group");
    assert_eq!(
        call.params,
        vec![
            ("isolateId".to_string(), text("isolates/1")),
            ("arg".to_string(), text("id7")),
            ("objectGroup".to_string(), text("group")),
        ]
    );
    let dirs: Vec<String> = (0..12).map(|i| format!("/dir{}", i)).collect();
    let call = directories_call("ext.flutter.inspector.setPubRootDirectories", "isolates/1", &dirs);
    assert_eq!(call.params.len(), 13);
    assert_eq!(call.params[1], ("arg0".to_string(), text("/dir0")));
    assert_eq!(call.params[12], ("arg11".to_string(), text("/dir11")));
}

fn extension_event() -> Event {
    Event {
        type_: "Event".to_string(),
        kind: EventKind::Extension,
        isolate_group: None,
        isolate: None,
        vm: None,
        timestamp: 42,
        breakpoint: None,
        pause_breakpoints: None,
        top_frame: None,
        exception: None,
        bytes: None,
        inspectee: None,
        gc_type: None,
        extension_rpc: None,
        extension_kind: Some("Flutter.Frame".to_string()),
        extension_data: Some("{\"number\":1}".to_string()),
        timeline_events: None,
        updated_streams: None,
        at_async_suspension: None,
        status: None,
        log_record: None,
        service: None,
        method: None,
        alias: None,
        flag: None,
        new_value: None,
        last: None,
        updated_tag: None,
        previous_tag: None,
        cpu_samples: None,
    }
}

#[test]
fn events_are_picked_from_notifications() {
    let note = VmServiceEvent { jsonrpc: "2.0".to_string(), method: "streamNotify".to_string(), params: extension_event() };
    assert_eq!(event_of(note), Some(extension_event()));
    let other = VmServiceEvent { jsonrpc: "2.0".to_string(), method: "getVersion".to_string(), params: extension_event() };
    assert_eq!(event_of(other), None);
    let on_stream = |method: &str, stream: ProtocolStreamId| StreamEvent {
        jsonrpc: "2.0".to_string(),
        method: method.to_string(),
        params: VmServiceEventParams { stream_id: stream, event: extension_event() },
    };
    assert_eq!(
        event_for_stream(on_stream("streamNotify", ProtocolStreamId::Extension), &ProtocolStreamId::Extension),
        Some(extension_event())
    );
    assert_eq!(event_for_stream(on_stream("streamNotify", ProtocolStreamId::GC), &ProtocolStreamId::Extension), None);
    assert_eq!(event_for_stream(on_stream("other", ProtocolStreamId::GC), &ProtocolStreamId::GC), None);
}
