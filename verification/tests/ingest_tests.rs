use log_relay::banner::{divider, format_banner, normalize_agent, DIVIDER_WIDTH};
use log_relay::ingest::{
    classify_body, event_name, handle_body, handle_body_now, outcome_for, parse_payload,
    payload_from_fields, route, BodyKind, LogPayload, Reply, RequestMethod,
};
use log_relay::json::{lookup, JsonDocument, JsonField, JsonMember};
use log_relay::text::{char_is_white_space, text_is_blank};

fn expected_banner(time: &str, agent: &str, content: &str) -> String {
    let line = "=".repeat(70);
    format!("\n{}\n📩 [{}] 收到来自 '{}' 的消息:\n{}\n{}\n", line, time, agent, content, line)
}

fn assert_not_found(method: RequestMethod, url: &str) {
    let outcome = route(method, url).expect("the request line must be turned away");
    assert_eq!(outcome.reply, Some(Reply::NotFound));
    assert_eq!(outcome.event, None);
}

#[test]
fn post_log_passes_the_route() {
    assert!(route(RequestMethod::Post, "/log").is_none());
}

#[test]
fn other_methods_are_not_found() {
    let methods = vec![
        RequestMethod::Get,
        RequestMethod::Head,
        RequestMethod::Put,
        RequestMethod::Delete,
        RequestMethod::Connect,
        RequestMethod::Options,
        RequestMethod::Trace,
        RequestMethod::Patch,
        RequestMethod::NonStandard,
    ];
    for method in methods {
        assert_not_found(method, "/log");
    }
}

#[test]
fn other_paths_are_not_found() {
    for url in ["", "/", "/lo", "/logs", "/log/", "/log?x=1", "/LOG", "log", "/lög", "/generate"] {
        assert_not_found(RequestMethod::Post, url);
        assert_not_found(RequestMethod::Get, url);
    }
}

#[test]
fn not_found_reply_is_plain_text() {
    assert_eq!(Reply::NotFound.status(), 404);
    assert_eq!(Reply::NotFound.body(), "Not Found");
    assert_eq!(Reply::NotFound.content_type(), None);
}

#[test]
fn alive_reply_is_ok() {
    assert_eq!(Reply::Alive.status(), 200);
    assert_eq!(Reply::Alive.body(), "OK");
    assert_eq!(Reply::Alive.content_type(), None);
}

#[test]
fn received_reply_is_json() {
    assert_eq!(Reply::Received.status(), 200);
    assert_eq!(Reply::Received.body(), "{\"status\":\"received\"}");
    assert_eq!(Reply::Received.content_type(), Some("application/json".to_string()));
}

#[test]
fn event_name_is_log_line() {
    assert_eq!(event_name(), "log-line");
}

#[test]
fn divider_has_seventy_equal_signs() {
    assert_eq!(DIVIDER_WIDTH, 70);
    assert_eq!(divider(), "=".repeat(70));
}

#[test]
fn banner_has_the_exact_layout() {
    assert_eq!(
        format_banner("09:15:02", "planner", "hello"),
        expected_banner("09:15:02", "planner", "hello")
    );
    let banner = format_banner("09:15:02", "planner", "hello");
    assert!(banner.starts_with("\n======"));
    assert!(banner.ends_with("======\n"));
    assert_eq!(banner.lines().count(), 5);
}

#[test]
fn empty_agent_is_shown_as_unknown() {
    assert_eq!(normalize_agent(String::new()), "Unknown");
    assert_eq!(normalize_agent("writer".to_string()), "writer");
    assert_eq!(normalize_agent(" ".to_string()), " ");
}

#[test]
fn well_formed_event_is_received_and_published() {
    let outcome = handle_body(b"{\"agent\":\"planner\",\"content\":\"hello\"}", "10:20:30");
    assert_eq!(outcome.reply, Some(Reply::Received));
    assert_eq!(outcome.event, Some(expected_banner("10:20:30", "planner", "hello")));
    let banner = outcome.event.unwrap();
    assert!(banner.contains("planner"));
    assert!(banner.contains("hello"));
}

#[test]
fn event_without_agent_is_published_as_unknown() {
    let outcome = handle_body(b"{\"content\":\"hi\"}", "10:20:30");
    assert_eq!(outcome.reply, Some(Reply::Received));
    assert_eq!(outcome.event, Some(expected_banner("10:20:30", "Unknown", "hi")));
    let outcome = handle_body(b"{\"agent\":\"\",\"content\":\"hi\"}", "10:20:30");
    assert_eq!(outcome.event, Some(expected_banner("10:20:30", "Unknown", "hi")));
}

#[test]
fn empty_object_is_an_event_of_defaults() {
    let outcome = handle_body(b"{}", "00:00:00");
    assert_eq!(outcome.reply, Some(Reply::Received));
    assert_eq!(outcome.event, Some(expected_banner("00:00:00", "Unknown", "")));
}

#[test]
fn unknown_members_are_ignored() {
    let outcome = handle_body(b"{\"agent\":\"a\",\"level\":3,\"content\":\"c\"}", "00:00:00");
    assert_eq!(outcome.reply, Some(Reply::Received));
    assert_eq!(outcome.event, Some(expected_banner("00:00:00", "a", "c")));
}

#[test]
fn escapes_in_members_are_decoded() {
    let payload = parse_payload("{\"agent\":\"a\\\"b\",\"content\":\"line1\\nline2 \\u00e9\"}").unwrap();
    assert_eq!(payload.agent, "a\"b");
    assert_eq!(payload.content, "line1\nline2 é");
}

#[test]
fn surrounding_white_space_does_not_spoil_an_event() {
    let payload = parse_payload("  \n{\"agent\": \"a\", \"content\": \"c\"}\n").unwrap();
    assert_eq!(payload.agent, "a");
    assert_eq!(payload.content, "c");
}

#[test]
fn blank_body_is_a_probe() {
    for body in [&b""[..], b" ", b"\n", b" \t\r\n ", "\u{3000}\u{a0}\u{2003}".as_bytes()] {
        let outcome = handle_body(body, "10:20:30");
        assert_eq!(outcome.reply, Some(Reply::Alive));
        assert_eq!(outcome.event, None);
        let outcome = handle_body_now(body);
        assert_eq!(outcome.reply, Some(Reply::Alive));
        assert_eq!(outcome.event, None);
    }
}

#[test]
fn non_json_body_is_dropped() {
    for body in [&b"hello"[..], b"{", b"{\"agent\":}", b"{\"agent\":\"a\"} x", b"{'agent':'a'}"] {
        let outcome = handle_body(body, "10:20:30");
        assert_eq!(outcome.reply, None);
        assert_eq!(outcome.event, None);
        let outcome = handle_body_now(body);
        assert_eq!(outcome.reply, None);
        assert_eq!(outcome.event, None);
    }
}

#[test]
fn json_that_is_no_log_event_is_dropped() {
    for body in [
        &b"null"[..],
        b"3",
        b"\"text\"",
        b"[1,2]",
        b"{\"agent\":5}",
        b"{\"agent\":null,\"content\":\"c\"}",
        b"{\"agent\":\"a\",\"content\":[\"c\"]}",
    ] {
        let outcome = handle_body(body, "10:20:30");
        assert_eq!(outcome.reply, None);
        assert_eq!(outcome.event, None);
    }
}

#[test]
fn invalid_utf8_is_dropped() {
    for body in [&[0xffu8][..], &[0x7b, 0x80, 0x7d], &[0xc3], &[0xed, 0xa0, 0x80], &[0xc0, 0xaf]] {
        assert!(matches!(classify_body(body), BodyKind::Undecodable));
        let outcome = handle_body(body, "10:20:30");
        assert_eq!(outcome.reply, None);
        assert_eq!(outcome.event, None);
    }
}

#[test]
fn bodies_are_classified() {
    assert!(matches!(classify_body(b""), BodyKind::Blank));
    assert!(matches!(classify_body(b"  "), BodyKind::Blank));
    assert!(matches!(classify_body(b"nope"), BodyKind::Malformed));
    assert!(matches!(classify_body(b"[]"), BodyKind::Malformed));
    match classify_body("{\"agent\":\"研究员\",\"content\":\"完成\"}".as_bytes()) {
        BodyKind::Event(payload) => {
            assert_eq!(payload.agent, "研究员");
            assert_eq!(payload.content, "完成");
        }
        other => panic!("unexpected {:?}", other),
    }
}

#[test]
fn members_make_a_payload() {
    let payload = payload_from_fields(JsonField::Absent, JsonField::Text("c".to_string())).unwrap();
    assert_eq!(payload.agent, "");
    assert_eq!(payload.content, "c");
    let payload = payload_from_fields(JsonField::Text("a".to_string()), JsonField::Absent).unwrap();
    assert_eq!(payload.agent, "a");
    assert_eq!(payload.content, "");
    assert!(payload_from_fields(JsonField::Other, JsonField::Absent).is_none());
    assert!(payload_from_fields(JsonField::Absent, JsonField::Other).is_none());
    assert!(payload_from_fields(JsonField::Invalid, JsonField::Invalid).is_none());
    assert!(payload_from_fields(JsonField::NotObject, JsonField::NotObject).is_none());
}

#[test]
fn outcome_follows_the_kind() {
    let outcome = outcome_for(BodyKind::Undecodable, "t");
    assert_eq!((outcome.reply, outcome.event), (None, None));
    let outcome = outcome_for(BodyKind::Malformed, "t");
    assert_eq!((outcome.reply, outcome.event), (None, None));
    let outcome = outcome_for(BodyKind::Blank, "t");
    assert_eq!((outcome.reply, outcome.event), (Some(Reply::Alive), None));
    let payload = LogPayload { agent: String::new(), content: "c".to_string() };
    let outcome = outcome_for(BodyKind::Event(payload), "t");
    assert_eq!(outcome.reply, Some(Reply::Received));
    assert_eq!(outcome.event, Some(expected_banner("t", "Unknown", "c")));
}

#[test]
fn clock_is_printed_as_hours_minutes_seconds() {
    let outcome = handle_body_now(b"{\"agent\":\"a\",\"content\":\"c\"}");
    assert_eq!(outcome.reply, Some(Reply::Received));
    let banner = outcome.event.unwrap();
    let head = format!("\n{}\n📩 [", "=".repeat(70));
    let tail = format!("] 收到来自 'a' 的消息:\nc\n{}\n", "=".repeat(70));
    assert!(banner.starts_with(&head));
    assert!(banner.ends_with(&tail));
    let time = &banner[head.len()..banner.len() - tail.len()];
    let shape: Vec<bool> = time.chars().map(|c| c.is_ascii_digit()).collect();
    assert_eq!(shape, vec![true, true, false, true, true, false, true, true]);
    assert_eq!(time.chars().nth(2), Some(':'));
    assert_eq!(time.chars().nth(5), Some(':'));
    assert_eq!(banner, expected_banner(time, "a", "c"));
}

#[test]
fn white_space_is_what_std_calls_white_space() {
    let mut code: u32 = 0;
    while code <= 0x10ffff {
        if let Some(c) = char::from_u32(code) {
            assert_eq!(char_is_white_space(c), c.is_whitespace(), "U+{:04X}", code);
        }
        code += 1;
    }
}

#[test]
fn blank_texts_are_those_that_trim_to_nothing() {
    for text in ["", " ", "\t\n\r ", "\u{2028}\u{2029}", " a ", "a", "\u{200b}", " \u{feff}", "　"] {
        assert_eq!(text_is_blank(text), text.trim().is_empty(), "{:?}", text);
    }
    assert!(text_is_blank(" \n"));
    assert!(!text_is_blank(" x\n"));
}

#[test]
fn lookup_finds_a_member_by_its_key() {
    let document = JsonDocument::Object(vec![
        ("agent".to_string(), JsonMember::Text("a".to_string())),
        ("level".to_string(), JsonMember::Other),
        ("content".to_string(), JsonMember::Text("c".to_string())),
    ]);
    assert!(matches!(lookup(&document, "agent"), JsonField::Text(s) if s == "a"));
    assert!(matches!(lookup(&document, "content"), JsonField::Text(s) if s == "c"));
    assert!(matches!(lookup(&document, "level"), JsonField::Other));
    assert!(matches!(lookup(&document, "Agent"), JsonField::Absent));
    assert!(matches!(lookup(&document, ""), JsonField::Absent));
}

#[test]
fn lookup_takes_the_first_member_of_a_key() {
    let document = JsonDocument::Object(vec![
        ("k".to_string(), JsonMember::Other),
        ("k".to_string(), JsonMember::Text("late".to_string())),
    ]);
    assert!(matches!(lookup(&document, "k"), JsonField::Other));
}

#[test]
fn lookup_in_what_is_no_object() {
    assert!(matches!(lookup(&JsonDocument::Invalid, "agent"), JsonField::Invalid));
    assert!(matches!(lookup(&JsonDocument::NotObject, "agent"), JsonField::NotObject));
    assert!(matches!(lookup(&JsonDocument::Object(vec![]), "agent"), JsonField::Absent));
}
