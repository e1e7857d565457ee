use mastodon_core::ipc::server::{
    accept, frame, next_accept, next_read, parse_failure, ListenEvent, ListenStep, ReadEvent,
    ReadStep,
};
use mastodon_core::logger::{directive, plan_sinks, LogLevel, LogSinks};
use mastodon_core::json::Json;
use mastodon_core::models::error_codes;
use mastodon_core::models::{IpcError, IpcMessage, MessageType};

fn envelope_text(s: &str) -> Json {
    Json::Text(s.to_string())
}

fn envelope_object(members: Vec<(&str, Json)>) -> Json {
    Json::Object(members.into_iter().map(|(k, v)| (k.to_string(), v)).collect())
}

#[test]
fn request_stamps_a_fresh_identifier() {
    let a = IpcMessage::request("ping", None);
    let b = IpcMessage::request("ping", None);
    assert_eq!(a.id.chars().count(), 36);
    assert_eq!(b.id.chars().count(), 36);
    assert_ne!(a.id, b.id);
    assert_eq!(a.message_type, MessageType::Request);
    assert_eq!(a.method, Some("ping".to_string()));
    assert_eq!(a.params, None);
    assert_eq!(a.result, None);
    assert_eq!(a.error, None);
}

#[test]
fn identifier_is_hyphenated_hexadecimal() {
    let msg = IpcMessage::event("event.new_post", Json::Null);
    let id: Vec<char> = msg.id.chars().collect();
    assert_eq!(id.len(), 36);
    for (i, c) in id.iter().enumerate() {
        if i == 8 || i == 13 || i == 18 || i == 23 {
            assert_eq!(*c, '-');
        } else {
            assert!(c.is_ascii_hexdigit());
        }
    }
}

#[test]
fn request_with_id_keeps_every_part() {
    let params = envelope_object(vec![("key", envelope_text("theme"))]);
    let msg = IpcMessage::request_with_id("7".to_string(), "settings.get", Some(params.duplicate()));
    assert_eq!(msg.id, "7");
    assert_eq!(msg.message_type, MessageType::Request);
    assert_eq!(msg.method, Some("settings.get".to_string()));
    assert_eq!(msg.params, Some(params));
}

#[test]
fn response_ok_echoes_the_identifier() {
    let msg = IpcMessage::response_ok("abc", Json::Bool(true));
    assert_eq!(msg.id, "abc");
    assert_eq!(msg.message_type, MessageType::Response);
    assert_eq!(msg.method, None);
    assert_eq!(msg.params, None);
    assert_eq!(msg.result, Some(Json::Bool(true)));
    assert_eq!(msg.error, None);
}

#[test]
fn response_err_carries_the_error_alone() {
    let msg = IpcMessage::response_err("abc", IpcError::new(error_codes::API_ERROR, "boom"));
    assert_eq!(msg.id, "abc");
    assert_eq!(msg.message_type, MessageType::Response);
    assert_eq!(msg.result, None);
    let error = msg.error.unwrap();
    assert_eq!(error.code, -1004);
    assert_eq!(error.message, "boom");
    assert_eq!(error.data, None);
}

#[test]
fn event_carries_method_and_params() {
    let msg = IpcMessage::event_with_id("e1".to_string(), "event.error", envelope_text("x"));
    assert_eq!(msg.id, "e1");
    assert_eq!(msg.message_type, MessageType::Event);
    assert_eq!(msg.method, Some("event.error".to_string()));
    assert_eq!(msg.params, Some(envelope_text("x")));
    assert_eq!(msg.result, None);
    assert_eq!(msg.error, None);
}

#[test]
fn error_with_data_keeps_code_and_message() {
    let error = IpcError::new(error_codes::INVALID_PARAMS, "bad").with_data(Json::Integer(3));
    assert_eq!(error.code, -32602);
    assert_eq!(error.message, "bad");
    assert_eq!(error.data, Some(Json::Integer(3)));
}

#[test]
fn error_codes_have_their_values() {
    assert_eq!(error_codes::PARSE_ERROR, -32700);
    assert_eq!(error_codes::INVALID_REQUEST, -32600);
    assert_eq!(error_codes::METHOD_NOT_FOUND, -32601);
    assert_eq!(error_codes::INVALID_PARAMS, -32602);
    assert_eq!(error_codes::INTERNAL_ERROR, -32603);
    assert_eq!(error_codes::NOT_AUTHENTICATED, -1001);
    assert_eq!(error_codes::RATE_LIMITED, -1002);
    assert_eq!(error_codes::NETWORK_ERROR, -1003);
    assert_eq!(error_codes::API_ERROR, -1004);
    assert_eq!(error_codes::ENCRYPTION_ERROR, -1005);
}

#[test]
fn response_document_has_the_four_members() {
    let msg = IpcMessage::response_ok("1", envelope_object(vec![("success", Json::Bool(true))]));
    assert_eq!(
        msg.to_json(),
        envelope_object(vec![
            ("id", envelope_text("1")),
            ("type", envelope_text("response")),
            ("result", envelope_object(vec![("success", Json::Bool(true))])),
            ("error", Json::Null),
        ])
    );
}

#[test]
fn error_response_document_nests_the_error() {
    let msg = IpcMessage::response_err("9", IpcError::new(error_codes::METHOD_NOT_FOUND, "nope"));
    assert_eq!(
        msg.to_json(),
        envelope_object(vec![
            ("id", envelope_text("9")),
            ("type", envelope_text("response")),
            ("result", Json::Null),
            (
                "error",
                envelope_object(vec![
                    ("code", Json::Integer(-32601)),
                    ("message", envelope_text("nope")),
                    ("data", Json::Null),
                ])
            ),
        ])
    );
}

#[test]
fn request_document_has_method_and_params() {
    let msg = IpcMessage::request_with_id("r".to_string(), "ping", None);
    assert_eq!(
        msg.to_json(),
        envelope_object(vec![
            ("id", envelope_text("r")),
            ("type", envelope_text("request")),
            ("method", envelope_text("ping")),
            ("params", Json::Null),
        ])
    );
}

#[test]
fn message_is_read_back_from_its_document() {
    let params = envelope_object(vec![("instance_url", envelope_text("mastodon.social"))]);
    let msg = IpcMessage::request_with_id("42".to_string(), "auth.start", Some(params));
    let back = IpcMessage::from_json(&msg.to_json()).unwrap();
    assert_eq!(back, msg);
    let failed = IpcMessage::response_err(
        "42",
        IpcError::new(error_codes::API_ERROR, "x").with_data(Json::Bool(false)),
    );
    assert_eq!(IpcMessage::from_json(&failed.to_json()).unwrap(), failed);
}

#[test]
fn document_without_identifier_is_no_message() {
    let doc = envelope_object(vec![("type", envelope_text("request"))]);
    assert_eq!(IpcMessage::from_json(&doc), Err("missing field: id".to_string()));
}

#[test]
fn document_without_type_is_no_message() {
    let doc = envelope_object(vec![("id", envelope_text("1"))]);
    assert_eq!(IpcMessage::from_json(&doc), Err("missing field: type".to_string()));
}

#[test]
fn document_with_unknown_type_is_no_message() {
    let doc = envelope_object(vec![("id", envelope_text("1")), ("type", envelope_text("reply"))]);
    assert_eq!(IpcMessage::from_json(&doc), Err("invalid field: type".to_string()));
}

#[test]
fn document_with_numeric_method_is_no_message() {
    let doc = envelope_object(vec![
        ("id", envelope_text("1")),
        ("type", envelope_text("request")),
        ("method", Json::Integer(4)),
    ]);
    assert_eq!(IpcMessage::from_json(&doc), Err("invalid field: method".to_string()));
}

#[test]
fn document_with_broken_error_is_no_message() {
    let doc = envelope_object(vec![
        ("id", envelope_text("1")),
        ("type", envelope_text("response")),
        ("error", envelope_object(vec![("message", envelope_text("m"))])),
    ]);
    assert_eq!(IpcMessage::from_json(&doc), Err("missing field: code".to_string()));
    let wide = envelope_object(vec![
        ("id", envelope_text("1")),
        ("type", envelope_text("response")),
        (
            "error",
            envelope_object(vec![("code", Json::Integer(1 << 40)), ("message", envelope_text("m"))]),
        ),
    ]);
    assert_eq!(IpcMessage::from_json(&wide), Err("invalid field: code".to_string()));
}

#[test]
fn null_members_count_as_absent() {
    let doc = envelope_object(vec![
        ("id", envelope_text("1")),
        ("type", envelope_text("request")),
        ("method", envelope_text("ping")),
        ("params", Json::Null),
        ("result", Json::Null),
        ("error", Json::Null),
    ]);
    let msg = IpcMessage::from_json(&doc).unwrap();
    assert_eq!(msg, IpcMessage::request_with_id("1".to_string(), "ping", None));
}

#[test]
fn blank_line_is_skipped() {
    assert_eq!(next_read(&ReadEvent::Line("  \t\r\n".to_string())), ReadStep::Skip);
    assert_eq!(next_read(&ReadEvent::Line(String::new())), ReadStep::Skip);
}

#[test]
fn line_is_parsed_without_surrounding_space() {
    assert_eq!(
        next_read(&ReadEvent::Line("  {\"id\":\"1\"} \n".to_string())),
        ReadStep::Parse("{\"id\":\"1\"}".to_string())
    );
}

#[test]
fn end_of_stream_and_failure_stop_the_loop() {
    assert_eq!(next_read(&ReadEvent::EndOfStream), ReadStep::Stop);
    assert_eq!(next_read(&ReadEvent::Failed("reset".to_string())), ReadStep::Stop);
}

#[test]
fn malformed_frame_is_answered_under_unknown() {
    let response = parse_failure("expected value at line 1 column 1");
    assert_eq!(response.id, "unknown");
    assert_eq!(response.message_type, MessageType::Response);
    assert_eq!(response.result, None);
    let error = response.error.unwrap();
    assert_eq!(error.code, error_codes::PARSE_ERROR);
    assert_eq!(error.message, "Failed to parse message: expected value at line 1 column 1");
}

#[test]
fn accept_tells_messages_from_other_documents() {
    let good = envelope_object(vec![
        ("id", envelope_text("1")),
        ("type", envelope_text("request")),
        ("method", envelope_text("ping")),
    ]);
    assert_eq!(
        accept(&Ok(good)),
        Ok(IpcMessage::request_with_id("1".to_string(), "ping", None))
    );
    assert_eq!(accept(&Ok(Json::Integer(1))), Err(parse_failure("missing field: id")));
    assert_eq!(accept(&Err("EOF".to_string())), Err(parse_failure("EOF")));
}

#[test]
fn listener_stops_on_the_signal_alone() {
    assert_eq!(next_accept(&ListenEvent::Connected), ListenStep::Serve);
    assert_eq!(next_accept(&ListenEvent::AcceptFailed("busy".to_string())), ListenStep::Retry);
    assert_eq!(next_accept(&ListenEvent::Shutdown), ListenStep::Stop);
}

#[test]
fn logging_choices() {
    assert_eq!(plan_sinks(true, true), LogSinks::Both);
    assert_eq!(plan_sinks(true, false), LogSinks::Console);
    assert_eq!(plan_sinks(false, true), LogSinks::File);
    assert_eq!(plan_sinks(false, false), LogSinks::Neither);
    assert_eq!(directive("mastodon_core", LogLevel::Info), "mastodon_core=INFO");
    assert_eq!(directive("blindodon", LogLevel::Trace), "blindodon=TRACE");
    assert_eq!(LogLevel::Debug.name(), "DEBUG");
    assert_eq!(LogLevel::Warn.name(), "WARN");
    assert_eq!(LogLevel::Error.name(), "ERROR");
    assert_eq!(LogLevel::default(), LogLevel::Info);
}

#[test]
fn frame_ends_with_a_new_line() {
    assert_eq!(frame("{}"), "{}\n");
}

#[test]
fn json_reads_members_of_objects_alone() {
    let doc = envelope_object(vec![
        ("a", envelope_text("x")),
        ("b", Json::Bool(true)),
        ("a", envelope_text("second")),
    ]);
    assert_eq!(doc.get("a"), Some(&envelope_text("x")));
    assert_eq!(doc.get("c"), None);
    assert_eq!(doc.text_field("a"), Some("x".to_string()));
    assert_eq!(doc.text_field("b"), None);
    assert_eq!(doc.flag_field("b"), Some(true));
    assert_eq!(doc.flag_field("a"), None);
    assert_eq!(Json::Array(vec![]).get("a"), None);
    assert_eq!(envelope_text("t").as_str(), Some("t"));
    assert_eq!(Json::Null.as_str(), None);
    assert_eq!(Json::Bool(false).as_bool(), Some(false));
}

#[test]
fn clones_are_equal() {
    let msg = IpcMessage::response_err(
        "1",
        IpcError::new(error_codes::API_ERROR, "x").with_data(Json::Array(vec![Json::Null])),
    );
    assert_eq!(msg.clone(), msg);
    let request = IpcMessage::request_with_id(
        "2".to_string(),
        "ping",
        Some(envelope_object(vec![("a", envelope_object(vec![("b", Json::Integer(1))]))])),
    );
    assert_eq!(request.clone(), request);
}

#[test]
fn event_is_read_back_from_its_document() {
    let event = IpcMessage::event_with_id(
        "e".to_string(),
        "event.new_post",
        envelope_object(vec![("timeline", envelope_text("Home"))]),
    );
    assert_eq!(
        event.to_json(),
        envelope_object(vec![
            ("id", envelope_text("e")),
            ("type", envelope_text("event")),
            ("method", envelope_text("event.new_post")),
            ("params", envelope_object(vec![("timeline", envelope_text("Home"))])),
        ])
    );
    assert_eq!(IpcMessage::from_json(&event.to_json()), Ok(event));
    let ok = IpcMessage::response_ok("1", Json::Bool(false));
    assert_eq!(IpcMessage::from_json(&ok.to_json()), Ok(ok));
}

#[test]
fn json_copy_is_equal() {
    let doc = envelope_object(vec![
        ("list", Json::Array(vec![Json::Integer(1), Json::Real("0.5".to_string()), Json::Null])),
        ("inner", envelope_object(vec![("k", envelope_text("v"))])),
    ]);
    assert_eq!(doc.duplicate(), doc);
}
