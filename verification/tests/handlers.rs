use ghostty_lsp::document::{ContentChange, Position, Range, SyncEvent};
use ghostty_lsp::handlers::{
    answer, classify_notification, classify_request, decode_notification, decode_request, encode,
    handle_message, handle_notification, handle_request, is_decodable, respond, Answer, Message,
    Notification, NotificationKind, Query, Request, RequestKind, Response, ResponseError,
    COMPLETION, DID_CHANGE, DID_OPEN, HOVER, MAX_PAYLOAD,
};
use ghostty_lsp::hover::Hover;
use lsp_server::RequestId;
use lsp_types::notification::Notification as NotificationMethod;
use lsp_types::request::Request as RequestMethod;
use serde_json::Value;

/// A JSON object with these fields.
fn object(fields: Vec<(&str, Value)>) -> Value {
    let mut map = serde_json::Map::new();
    for (name, value) in fields {
        map.insert(name.to_string(), value);
    }
    Value::Object(map)
}

fn position(line: u32, character: u32) -> Value {
    object(vec![("line", Value::from(line)), ("character", Value::from(character))])
}

fn notification(method: &str, params: Value) -> Notification {
    Notification { method: method.to_string(), params: params.to_string() }
}

fn request(id: i32, method: &str, params: Value) -> Request {
    Request { id: RequestId::from(id), method: method.to_string(), params: params.to_string() }
}

fn did_open(text: &str) -> Notification {
    notification(
        "textDocument/didOpen",
        object(vec![(
            "textDocument",
            object(vec![
                ("uri", Value::from("file:///home/alex/Projects/ghostty/src/main.rs")),
                ("languageId", Value::from("rust")),
                ("version", Value::from(1)),
                ("text", Value::from(text)),
            ]),
        )]),
    )
}

fn did_change(content_changes: Vec<Value>) -> Notification {
    notification(
        "textDocument/didChange",
        object(vec![
            (
                "textDocument",
                object(vec![
                    ("uri", Value::from("file:///home/alex/Projects/ghostty/src/main.rs")),
                    ("version", Value::from(2)),
                ]),
            ),
            ("contentChanges", Value::Array(content_changes)),
        ]),
    )
}

fn position_params(line: u32) -> Value {
    object(vec![
        (
            "textDocument",
            object(vec![("uri", Value::from("file:///home/alex/.config/ghostty/config"))]),
        ),
        ("position", position(line, 3)),
    ])
}

fn hover_at(id: i32, line: u32) -> Request {
    request(id, "textDocument/hover", position_params(line))
}

fn result_of(reply: Option<Response>) -> Value {
    let response = reply.expect("a response");
    assert!(response.error.is_none());
    serde_json::from_str(&response.result.expect("a result")).expect("JSON")
}

#[test]
fn test_cast_did_open_notification() {
    let notif = did_open("hello world\n");
    match decode_notification(&notif) {
        Some(SyncEvent::Opened { text }) => assert_eq!(text, "hello world\n",),
        other => panic!("not an open: {other:?}"),
    }
}

#[test]
fn test_cast_did_change_notification() {
    let notif = did_change(vec![object(vec![
        ("range", object(vec![("start", position(0, 0)), ("end", position(0, 0))])),
        ("rangeLength", Value::from(0)),
        ("text", Value::from("h")),
    ])]);
    let content_changes = match decode_notification(&notif) {
        Some(SyncEvent::Changed { changes }) => changes,
        other => panic!("not a change: {other:?}"),
    };
    assert_eq!(content_changes.len(), 1);
    assert_eq!(content_changes[0].text, "h");
    assert_eq!(content_changes[0].range_length, Some(0));
    assert_eq!(content_changes[0].range.unwrap().start.line, 0);
    assert_eq!(content_changes[0].range.unwrap().start.character, 0);
    assert_eq!(content_changes[0].range.unwrap().end.line, 0);
    assert_eq!(content_changes[0].range.unwrap().end.character, 0);
}

#[test]
fn test_handle_did_open_document_and_did_change_just_text() {
    let mut doc = String::new();
    let notif = did_open("hello world\n");
    handle_notification(notif, &mut doc);
    assert_eq!(doc, "hello world\n");
    let notif = did_change(vec![object(vec![("text", Value::from("h"))])]);
    handle_notification(notif, &mut doc);
    assert_eq!(doc, "h");
}

#[test]
fn test_single_line_handle_did_open_and_did_change() {
    let mut doc = String::new();
    let notif = did_open("hello");
    handle_notification(notif, &mut doc);
    assert_eq!(doc, "hello");
    let notif = did_change(vec![object(vec![("text", Value::from("h"))])]);
    handle_notification(notif, &mut doc);
    assert_eq!(doc, "h");
}

#[test]
fn method_names_are_those_of_the_protocol() {
    assert_eq!(DID_OPEN, <lsp_types::notification::DidOpenTextDocument>::METHOD);
    assert_eq!(DID_CHANGE, <lsp_types::notification::DidChangeTextDocument>::METHOD);
    assert_eq!(COMPLETION, <lsp_types::request::Completion>::METHOD);
    assert_eq!(HOVER, <lsp_types::request::HoverRequest>::METHOD);
}

#[test]
fn methods_are_told_apart() {
    assert_eq!(classify_notification("textDocument/didOpen"), NotificationKind::DidOpen);
    assert_eq!(classify_notification("textDocument/didChange"), NotificationKind::DidChange);
    assert_eq!(classify_notification("textDocument/didClose"), NotificationKind::Unrecognized);
    assert_eq!(classify_notification("textDocument/hover"), NotificationKind::Unrecognized);
    assert_eq!(classify_notification(""), NotificationKind::Unrecognized);
    assert_eq!(classify_request("textDocument/completion"), RequestKind::Completion);
    assert_eq!(classify_request("textDocument/hover"), RequestKind::Hover);
    assert_eq!(classify_request("textDocument/definition"), RequestKind::Unrecognized);
    assert_eq!(classify_request("textDocument/didOpen"), RequestKind::Unrecognized);
    assert_eq!(classify_request("TextDocument/Hover"), RequestKind::Unrecognized);
}

#[test]
fn a_second_open_overwrites_the_first() {
    let mut doc = String::new();
    handle_notification(did_open("font-size = 12\n"), &mut doc);
    handle_notification(did_open("theme = dark\n"), &mut doc);
    assert_eq!(doc, "theme = dark\n");
}

#[test]
fn a_full_text_change_after_a_longer_open_leaves_just_its_text() {
    let mut doc = String::new();
    handle_notification(did_open("font-size = 12\nbackground = #000000\n"), &mut doc);
    handle_notification(did_change(vec![object(vec![("text", Value::from("x"))])]), &mut doc);
    assert_eq!(doc, "x");
}

#[test]
fn a_change_with_a_range_leaves_the_document_stale() {
    let mut doc = String::new();
    handle_notification(did_open("hello"), &mut doc);
    let change = object(vec![
        ("range", object(vec![("start", position(0, 0)), ("end", position(0, 1))])),
        ("rangeLength", Value::from(1)),
        ("text", Value::from("j")),
    ]);
    handle_notification(did_change(vec![change]), &mut doc);
    assert_eq!(doc, "hello");
}

#[test]
fn the_changes_of_one_event_apply_in_order() {
    let mut doc = String::new();
    handle_notification(did_open("zero"), &mut doc);
    let ranged = object(vec![
        ("range", object(vec![("start", position(0, 0)), ("end", position(0, 1))])),
        ("text", Value::from("r")),
    ]);
    let changes = vec![
        object(vec![("text", Value::from("one"))]),
        object(vec![("text", Value::from("two"))]),
        ranged,
    ];
    handle_notification(did_change(changes), &mut doc);
    assert_eq!(doc, "two");
    handle_notification(did_change(vec![]), &mut doc);
    assert_eq!(doc, "two");
}

#[test]
fn an_unrecognised_notification_changes_nothing() {
    let mut doc = "theme = dark".to_string();
    let notif = notification(
        "textDocument/didSave",
        object(vec![("text", Value::from("font-size = 12"))]),
    );
    assert!(decode_notification(&notif).is_none());
    handle_notification(notif, &mut doc);
    assert_eq!(doc, "theme = dark");
    handle_notification(notification("initialized", Value::Null), &mut doc);
    assert_eq!(doc, "theme = dark");
}

#[test]
fn a_payload_that_does_not_decode_changes_nothing() {
    let mut doc = "theme = dark".to_string();
    let missing = notification("textDocument/didOpen", object(vec![("text", Value::from("x"))]));
    assert!(decode_notification(&missing).is_none());
    handle_notification(missing, &mut doc);
    assert_eq!(doc, "theme = dark");
    let not_json =
        Notification { method: "textDocument/didChange".to_string(), params: "{".to_string() };
    handle_notification(not_json, &mut doc);
    assert_eq!(doc, "theme = dark");
    let null = notification("textDocument/didChange", Value::Null);
    handle_notification(null, &mut doc);
    assert_eq!(doc, "theme = dark");
}

#[test]
fn requests_are_decoded_by_method_and_payload() {
    assert_eq!(decode_request(&hover_at(1, 4)), Some(Query::Hover { line: 4 }));
    let completion = request(2, "textDocument/completion", position_params(0));
    assert_eq!(decode_request(&completion), Some(Query::Completion));
    let definition = request(3, "textDocument/definition", position_params(0));
    assert_eq!(decode_request(&definition), None);
    let no_position = request(4, "textDocument/hover", object(vec![]));
    assert_eq!(decode_request(&no_position), None);
    let no_document = request(5, "textDocument/completion", Value::Null);
    assert_eq!(decode_request(&no_document), None);
}

#[test]
fn completion_has_no_candidates() {
    match answer(Query::Completion, "font-size = 12\n") {
        Answer::Completion { candidates } => assert!(candidates.is_empty()),
        other => panic!("not a completion: {other:?}"),
    }
}

#[test]
fn hover_resolves_the_line_asked_for() {
    let doc = "font-size = 12\nbackground = #000000\n";
    let background =
        Hover { contents: "Background color for the window".to_string(), range: None };
    assert_eq!(answer(Query::Hover { line: 1 }, doc), Answer::Hover { hover: background });
    let nothing = Hover { contents: "No hover contents found".to_string(), range: None };
    assert_eq!(answer(Query::Hover { line: u32::MAX }, doc), Answer::Hover { hover: nothing });
}

#[test]
fn answers_are_encoded_as_json() {
    let hover = Hover { contents: "Font size in points".to_string(), range: None };
    assert_eq!(encode(Answer::Hover { hover }), r#"{"contents":"Font size in points"}"#);
    let quoted = Hover { contents: "a \"b\"\nc".to_string(), range: None };
    assert_eq!(encode(Answer::Hover { hover: quoted }), r#"{"contents":"a \"b\"\nc"}"#);
    let none = Answer::Completion { candidates: Vec::new() };
    assert_eq!(encode(none), "[]");
    let two = Answer::Completion { candidates: vec!["theme".to_string(), "title".to_string()] };
    assert_eq!(encode(two), r#"[{"label":"theme"},{"label":"title"}]"#);
}

#[test]
fn a_hover_is_encoded_field_by_field() {
    let start = Position { line: 1, character: 2 };
    let end = Position { line: 3, character: 4 };
    let hover = Hover { contents: "theme".to_string(), range: Some(Range { start, end }) };
    let json: Value = serde_json::from_str(&encode(Answer::Hover { hover })).unwrap();
    let expected = object(vec![
        ("contents", Value::from("theme")),
        ("range", object(vec![("start", position(1, 2)), ("end", position(3, 4))])),
    ]);
    assert_eq!(json, expected);
    let decoded: lsp_types::Hover = serde_json::from_value(json).unwrap();
    let contents = lsp_types::MarkedString::String("theme".to_string());
    assert_eq!(decoded.contents, lsp_types::HoverContents::Scalar(contents));
}

#[test]
fn a_payload_is_decoded_up_to_the_most_bytes_of_a_uri() {
    assert_eq!(MAX_PAYLOAD, i32::MAX as usize);
    assert!(is_decodable(""));
    assert!(is_decodable("{}"));
    assert!(is_decodable(&did_open("font-size = 12").params));
}

#[test]
fn hover_is_answered_with_the_description_as_one_plain_string() {
    let mut doc = "font-size = 12\nbackground = #000000\n".to_string();
    let reply = handle_request(hover_at(7, 0), &mut doc);
    assert_eq!(reply.as_ref().map(|r| r.id.clone()), Some(RequestId::from(7)));
    let expected = object(vec![("contents", Value::from("Font size in points"))]);
    assert_eq!(result_of(reply), expected);
    assert_eq!(doc, "font-size = 12\nbackground = #000000\n");

    let reply = handle_request(hover_at(8, 1), &mut doc);
    let hover: lsp_types::Hover = serde_json::from_value(result_of(reply)).unwrap();
    let contents = lsp_types::MarkedString::String("Background color for the window".to_string());
    assert_eq!(hover.contents, lsp_types::HoverContents::Scalar(contents));
    assert_eq!(hover.range, None);
}

#[test]
fn hover_out_of_range_is_answered_with_the_sentinel() {
    let mut doc = "font-size = 12\nbackground = #000000\n".to_string();
    let expected = object(vec![("contents", Value::from("No hover contents found"))]);
    assert_eq!(result_of(handle_request(hover_at(1, 5), &mut doc)), expected);
    assert_eq!(result_of(handle_request(hover_at(2, 2), &mut doc)), expected);
    assert_eq!(result_of(handle_request(hover_at(3, u32::MAX), &mut doc)), expected);
}

#[test]
fn hover_before_any_open_is_answered_with_the_sentinel() {
    let mut doc = String::new();
    let expected = object(vec![("contents", Value::from("No hover contents found"))]);
    assert_eq!(result_of(handle_request(hover_at(1, 0), &mut doc)), expected);
}

#[test]
fn hover_on_an_unknown_key_is_answered_with_the_fallback() {
    let mut doc = "=value\nshader = x\n".to_string();
    let expected = object(vec![("contents", Value::from("No description found"))]);
    assert_eq!(result_of(handle_request(hover_at(1, 0), &mut doc)), expected);
    assert_eq!(result_of(handle_request(hover_at(2, 1), &mut doc)), expected);
}

#[test]
fn hover_keeps_the_identifier_of_the_request() {
    let mut doc = String::new();
    let by_text = Request {
        id: RequestId::from("seven".to_string()),
        method: "textDocument/hover".to_string(),
        params: position_params(0).to_string(),
    };
    let reply = handle_request(by_text, &mut doc).unwrap();
    assert_eq!(reply.id, RequestId::from("seven".to_string()));
    assert!(reply.error.is_none());
}

#[test]
fn completion_is_answered_with_no_candidates() {
    let mut doc = "font-size = 12\n".to_string();
    let completion = request(11, "textDocument/completion", position_params(0));
    let reply = handle_request(completion, &mut doc);
    assert_eq!(reply.as_ref().map(|r| r.id.clone()), Some(RequestId::from(11)));
    assert_eq!(result_of(reply), Value::Array(Vec::new()));
    assert_eq!(doc, "font-size = 12\n");
}

#[test]
fn an_unrecognised_request_gets_no_response() {
    let mut doc = "font-size = 12\n".to_string();
    let definition = request(1, "textDocument/definition", position_params(0));
    assert!(handle_request(definition, &mut doc).is_none());
    let shutdown = request(2, "shutdown", Value::Null);
    assert!(handle_request(shutdown, &mut doc).is_none());
    assert_eq!(doc, "font-size = 12\n");
}

#[test]
fn a_request_that_does_not_decode_gets_no_response() {
    let mut doc = "font-size = 12\n".to_string();
    let hover = request(1, "textDocument/hover", object(vec![("position", position(0, 0))]));
    assert!(handle_request(hover, &mut doc).is_none());
    let completion = request(2, "textDocument/completion", Value::from("x"));
    assert!(handle_request(completion, &mut doc).is_none());
}

#[test]
fn a_response_wraps_a_result_and_nothing_else() {
    let reply = respond(RequestId::from(3), "[]".to_string());
    assert_eq!(reply.id, RequestId::from(3));
    assert_eq!(reply.result.as_deref(), Some("[]"));
    assert!(reply.error.is_none());
}

#[test]
fn messages_go_to_the_handler_of_their_kind() {
    let mut doc = String::new();
    let opened = Message::Notification(did_open("font-size = 12\nbackground = #000000\n"));
    assert!(handle_message(opened, &mut doc).is_none());
    assert_eq!(doc, "font-size = 12\nbackground = #000000\n");

    let reply = handle_message(Message::Request(hover_at(21, 1)), &mut doc);
    let expected = object(vec![("contents", Value::from("Background color for the window"))]);
    assert_eq!(result_of(reply), expected);

    let changed = did_change(vec![object(vec![("text", Value::from("theme = dark"))])]);
    assert!(handle_message(Message::Notification(changed), &mut doc).is_none());
    assert_eq!(doc, "theme = dark");
    let reply = handle_message(Message::Request(hover_at(22, 1)), &mut doc);
    let expected = object(vec![("contents", Value::from("No hover contents found"))]);
    assert_eq!(result_of(reply), expected);
}

#[test]
fn an_open_document_is_hovered_line_by_line() {
    let mut doc = String::new();
    handle_notification(did_open("font-size = 12\nbackground = #000000\n"), &mut doc);
    let font_size = object(vec![("contents", Value::from("Font size in points"))]);
    assert_eq!(result_of(handle_request(hover_at(1, 0), &mut doc)), font_size);
    let background = object(vec![("contents", Value::from("Background color for the window"))]);
    assert_eq!(result_of(handle_request(hover_at(2, 1), &mut doc)), background);
    let nothing = object(vec![("contents", Value::from("No hover contents found"))]);
    assert_eq!(result_of(handle_request(hover_at(3, 5), &mut doc)), nothing);
}

#[test]
fn decoded_events_are_plain_values() {
    let opened = decode_notification(&did_open("theme = dark"));
    assert_eq!(opened, Some(SyncEvent::Opened { text: "theme = dark".to_string() }));
    let changed = decode_notification(&did_change(vec![object(vec![("text", Value::from("x"))])]));
    let change = ContentChange { range: None, range_length: None, text: "x".to_string() };
    assert_eq!(changed, Some(SyncEvent::Changed { changes: vec![change] }));
    let ranged = object(vec![
        ("range", object(vec![("start", position(1, 2)), ("end", position(3, 4))])),
        ("text", Value::from("y")),
    ]);
    let start = Position { line: 1, character: 2 };
    let end = Position { line: 3, character: 4 };
    let change = ContentChange {
        range: Some(Range { start, end }),
        range_length: None,
        text: "y".to_string(),
    };
    let changed = decode_notification(&did_change(vec![ranged]));
    assert_eq!(changed, Some(SyncEvent::Changed { changes: vec![change] }));
}

#[test]
fn a_response_from_the_editor_is_passed_over() {
    let mut doc = "theme = dark".to_string();
    let ok = Response { id: RequestId::from(1), result: Some("null".to_string()), error: None };
    assert!(handle_message(Message::Response(ok), &mut doc).is_none());
    let error = ResponseError { code: -32601, message: "no".to_string(), data: None };
    let failed = Response { id: RequestId::from(2), result: None, error: Some(error) };
    assert!(handle_message(Message::Response(failed), &mut doc).is_none());
    assert_eq!(doc, "theme = dark");
}
