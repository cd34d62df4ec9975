use session_supervisor::events::{PermissionDenial, StreamEvent};
use session_supervisor::json::{collect_open_fields, find_field, Json};

fn text(s: &str) -> Json {
    Json::Text(s.to_string())
}

fn entry(key: &str, value: Json) -> (String, Json) {
    (key.to_string(), value)
}

#[test]
fn text_delta_is_decoded() {
    let event = StreamEvent::parse_line("{\"type\":\"text_delta\",\"text\":\"hi\"}");
    assert_eq!(event, Some(StreamEvent::TextDelta { text: "hi".to_string() }));
}

#[test]
fn system_keeps_every_other_key() {
    let line = "{\"type\":\"system\",\"subtype\":\"init\",\"session_id\":\"S123\",\"zeta\":1,\"alpha\":true}";
    let event = StreamEvent::parse_line(line);
    assert_eq!(
        event,
        Some(StreamEvent::System {
            subtype: Some("init".to_string()),
            extra: vec![
                entry("alpha", Json::Bool(true)),
                entry("session_id", text("S123")),
                entry("zeta", Json::Number("1".to_string())),
            ],
        })
    );
}

#[test]
fn system_without_subtype() {
    let event = StreamEvent::parse_line("{\"type\":\"system\",\"session_id\":\"S123\"}");
    assert_eq!(
        event,
        Some(StreamEvent::System { subtype: None, extra: vec![entry("session_id", text("S123"))] })
    );
}

#[test]
fn system_subtype_that_is_no_string_is_absent() {
    let event = StreamEvent::parse_line("{\"type\":\"system\",\"subtype\":7}");
    assert_eq!(event, Some(StreamEvent::System { subtype: None, extra: vec![] }));
}

#[test]
fn assistant_and_user_carry_their_message() {
    let message = Json::Object(vec![
        entry("content", Json::Array(vec![text("a"), Json::Null])),
        entry("role", text("assistant")),
    ]);
    let line = "{\"type\":\"assistant\",\"message\":{\"role\":\"assistant\",\"content\":[\"a\",null]}}";
    assert_eq!(StreamEvent::parse_line(line), Some(StreamEvent::Assistant { message }));
    assert_eq!(
        StreamEvent::parse_line("{\"type\":\"user\",\"message\":\"hello\"}"),
        Some(StreamEvent::User { message: text("hello") })
    );
    assert_eq!(
        StreamEvent::parse_line("{\"type\":\"user\"}"),
        Some(StreamEvent::User { message: Json::Null })
    );
}

#[test]
fn tool_start_and_end() {
    let start = StreamEvent::parse_line(
        "{\"type\":\"tool_start\",\"tool_name\":\"Read\",\"input\":{\"path\":\"a.txt\",\"limit\":2.5}}",
    );
    assert_eq!(
        start,
        Some(StreamEvent::ToolStart {
            tool_name: "Read".to_string(),
            input: Json::Object(vec![
                entry("limit", Json::Number("2.5".to_string())),
                entry("path", text("a.txt")),
            ]),
        })
    );
    assert_eq!(
        StreamEvent::parse_line("{\"type\":\"tool_start\",\"tool_name\":\"Read\"}"),
        Some(StreamEvent::ToolStart { tool_name: "Read".to_string(), input: Json::Null })
    );
    assert_eq!(
        StreamEvent::parse_line("{\"type\":\"tool_end\",\"tool_name\":\"Read\",\"output\":\"done\"}"),
        Some(StreamEvent::ToolEnd {
            tool_name: "Read".to_string(),
            output: Some("done".to_string())
        })
    );
    assert_eq!(
        StreamEvent::parse_line("{\"type\":\"tool_end\",\"tool_name\":\"Read\"}"),
        Some(StreamEvent::ToolEnd { tool_name: "Read".to_string(), output: None })
    );
}

#[test]
fn permission_request_with_denials() {
    let line = "{\"type\":\"permission_request\",\"session_id\":\"S1\",\"denials\":[{\"tool_name\":\"Bash\",\"reason\":\"no\",\"command\":\"ls\"},{\"tool_name\":\"Edit\",\"reason\":\"never\"}]}";
    assert_eq!(
        StreamEvent::parse_line(line),
        Some(StreamEvent::PermissionRequest {
            session_id: "S1".to_string(),
            denials: vec![
                PermissionDenial {
                    tool_name: "Bash".to_string(),
                    reason: "no".to_string(),
                    extra: vec![entry("command", text("ls"))],
                },
                PermissionDenial {
                    tool_name: "Edit".to_string(),
                    reason: "never".to_string(),
                    extra: vec![],
                },
            ],
        })
    );
}

#[test]
fn permission_request_with_a_bad_denial_is_dropped() {
    let line = "{\"type\":\"permission_request\",\"session_id\":\"S1\",\"denials\":[{\"tool_name\":\"Bash\"}]}";
    assert_eq!(StreamEvent::parse_line(line), None);
    let line = "{\"type\":\"permission_request\",\"session_id\":\"S1\"}";
    assert_eq!(StreamEvent::parse_line(line), None);
    let line = "{\"type\":\"permission_request\",\"denials\":[]}";
    assert_eq!(StreamEvent::parse_line(line), None);
    let line = "{\"type\":\"permission_request\",\"session_id\":\"S1\",\"denials\":[]}";
    assert_eq!(
        StreamEvent::parse_line(line),
        Some(StreamEvent::PermissionRequest { session_id: "S1".to_string(), denials: vec![] })
    );
}

#[test]
fn result_keeps_every_other_key() {
    let line = "{\"type\":\"result\",\"subtype\":\"success\",\"content\":\"ok\",\"cost\":-3}";
    assert_eq!(
        StreamEvent::parse_line(line),
        Some(StreamEvent::Result {
            subtype: "success".to_string(),
            extra: vec![entry("content", text("ok")), entry("cost", Json::Number("-3".to_string()))],
        })
    );
    assert_eq!(StreamEvent::parse_line("{\"type\":\"result\"}"), None);
}

#[test]
fn error_and_session_end() {
    assert_eq!(
        StreamEvent::parse_line("{\"type\":\"error\",\"error\":\"boom\"}"),
        Some(StreamEvent::Error { error: "boom".to_string() })
    );
    assert_eq!(StreamEvent::parse_line("{\"type\":\"error\"}"), None);
    assert_eq!(StreamEvent::parse_line("{\"type\":\"session_end\"}"), Some(StreamEvent::SessionEnd));
    assert_eq!(
        StreamEvent::parse_line("{\"type\":\"session_end\",\"later\":1}"),
        Some(StreamEvent::SessionEnd)
    );
}

#[test]
fn blank_lines_give_nothing() {
    assert_eq!(StreamEvent::parse_line(""), None);
    assert_eq!(StreamEvent::parse_line("   "), None);
    assert_eq!(StreamEvent::parse_line("\t\r\n"), None);
    assert_eq!(StreamEvent::parse_line("\u{00A0}\u{3000}"), None);
}

#[test]
fn bad_lines_give_nothing() {
    assert_eq!(StreamEvent::parse_line("not json"), None);
    assert_eq!(StreamEvent::parse_line("{\"type\":\"text_delta\",\"text\":\"hi\""), None);
    assert_eq!(StreamEvent::parse_line("{\"type\":\"mystery\"}"), None);
    assert_eq!(StreamEvent::parse_line("{\"text\":\"hi\"}"), None);
    assert_eq!(StreamEvent::parse_line("{\"type\":5}"), None);
    assert_eq!(StreamEvent::parse_line("{\"type\":\"text_delta\",\"text\":5}"), None);
    assert_eq!(StreamEvent::parse_line("{\"type\":\"text_delta\"}"), None);
    assert_eq!(StreamEvent::parse_line("[\"text_delta\"]"), None);
    assert_eq!(StreamEvent::parse_line("\"session_end\""), None);
    assert_eq!(StreamEvent::parse_line("{\"type\":\"session_end\"} trailing"), None);
}

#[test]
fn surrounding_white_space_is_trimmed() {
    let event = StreamEvent::parse_line("  \t{\"type\":\"text_delta\",\"text\":\" hi \"}\r\n");
    assert_eq!(event, Some(StreamEvent::TextDelta { text: " hi ".to_string() }));
    let event = StreamEvent::parse_line("\u{00A0}{\"type\":\"session_end\"}\u{2003}");
    assert_eq!(event, Some(StreamEvent::SessionEnd));
}

#[test]
fn from_json_reads_the_first_entry_of_a_key() {
    let doc = Json::Object(vec![
        entry("type", text("text_delta")),
        entry("text", text("first")),
        entry("text", text("second")),
    ]);
    assert_eq!(
        StreamEvent::from_json(&doc),
        Some(StreamEvent::TextDelta { text: "first".to_string() })
    );
    assert_eq!(StreamEvent::from_json(&Json::Null), None);
    assert_eq!(StreamEvent::from_json(&Json::Array(vec![])), None);
}

#[test]
fn find_field_and_open_fields() {
    let entries = vec![
        entry("a", Json::Bool(false)),
        entry("type", text("system")),
        entry("b", Json::Null),
        entry("subtype", text("init")),
        entry("a", Json::Bool(true)),
    ];
    assert_eq!(find_field(&entries, "a"), Some(&Json::Bool(false)));
    assert_eq!(find_field(&entries, "subtype"), Some(&text("init")));
    assert_eq!(find_field(&entries, "missing"), None);
    assert_eq!(
        collect_open_fields(&entries, "type", "subtype"),
        vec![entry("a", Json::Bool(false)), entry("b", Json::Null), entry("a", Json::Bool(true))]
    );
}

#[test]
fn duplicate_is_a_deep_copy() {
    let doc = Json::Object(vec![
        entry("list", Json::Array(vec![Json::Number("1".to_string()), text("x"), Json::Null])),
        entry("inner", Json::Object(vec![entry("flag", Json::Bool(true))])),
    ]);
    assert_eq!(doc.duplicate(), doc);
    assert_eq!(doc.as_object().map(|entries| entries.len()), Some(2));
    assert_eq!(doc.as_text(), None);
    assert_eq!(text("x").as_text(), Some(&"x".to_string()));
    assert_eq!(Json::Array(vec![Json::Null]).as_array().map(|items| items.len()), Some(1));
}

#[test]
fn read_events_skips_what_does_not_decode() {
    let lines = vec![
        "{\"type\":\"text_delta\",\"text\":\"a\"}".to_string(),
        "".to_string(),
        "garbage".to_string(),
        "{\"type\":\"unknown\"}".to_string(),
        "{\"type\":\"text_delta\",\"text\":\"b\"}".to_string(),
        "{\"type\":\"session_end\"}".to_string(),
    ];
    let events = session_supervisor::orchestrator::ChatSession::read_events(&lines);
    assert_eq!(
        events,
        vec![
            StreamEvent::TextDelta { text: "a".to_string() },
            StreamEvent::TextDelta { text: "b".to_string() },
            StreamEvent::SessionEnd,
        ]
    );
}

#[test]
fn numbers_are_kept_as_their_text() {
    let line = "{\"type\":\"user\",\"message\":[1,-2,3.5,1e3,18446744073709551615,0.1]}";
    let number = |s: &str| Json::Number(s.to_string());
    assert_eq!(
        StreamEvent::parse_line(line),
        Some(StreamEvent::User {
            message: Json::Array(vec![
                number("1"),
                number("-2"),
                number("3.5"),
                number("1000.0"),
                number("18446744073709551615"),
                number("0.1"),
            ]),
        })
    );
}

#[test]
fn escapes_and_nesting_are_read() {
    let line = "{\"type\":\"text_delta\",\"text\":\"a\\n\\u00e9\\\"b\\\"\",\"deep\":{\"x\":[[],{}]}}";
    assert_eq!(
        StreamEvent::parse_line(line),
        Some(StreamEvent::TextDelta { text: "a\né\"b\"".to_string() })
    );
    let line = "{\"type\":\"system\",\"deep\":{\"x\":[[],{}],\"k\":null}}";
    assert_eq!(
        StreamEvent::parse_line(line),
        Some(StreamEvent::System {
            subtype: None,
            extra: vec![entry(
                "deep",
                Json::Object(vec![
                    entry("k", Json::Null),
                    entry("x", Json::Array(vec![Json::Array(vec![]), Json::Object(vec![])])),
                ]),
            )],
        })
    );
}
