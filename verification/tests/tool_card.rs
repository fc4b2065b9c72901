//! Tool cards: the one-line `🛠️ name(args)` header, the `⎿` body lines of a
//! result, the JSON summariser, the one-line truncation, and how a message
//! pairs a tool call with its result.

use mewcode_client::protocol::{JsonValue, Message, MessagePart, ModelId, ToolCall, ToolResult};
use mewcode_client::runtime::view::style::Line;
use mewcode_client::runtime::view::transcript::{render_message, Row};
use mewcode_client::runtime::view::{
    render_tool_call_header, render_tool_result_body, render_tool_result_header, summarise_json,
    truncate_one_line,
};

fn s(text: &str) -> JsonValue {
    JsonValue::String(text.to_string())
}

fn obj(fields: Vec<(&str, JsonValue)>) -> JsonValue {
    JsonValue::Object(fields.into_iter().map(|(k, v)| (k.to_string(), v)).collect())
}

fn call(name: &str, input: JsonValue) -> ToolCall {
    ToolCall { id: "id".into(), name: name.into(), input }
}

fn result(name: &str, output: JsonValue, is_error: bool) -> ToolResult {
    ToolResult { call_id: "id".into(), name: name.into(), output, is_error }
}

fn line_text(line: &Line) -> String {
    line.plain_text()
}

/// The text a message shows on the session screen, row by row.
fn message_text(msg: &Message) -> String {
    render_message(msg)
        .iter()
        .map(|r| match r {
            Row::Styled(l) => l.plain_text(),
            Row::Markdown(t) => t.clone(),
            Row::CallSummary { name, .. } => name.clone(),
        })
        .collect::<Vec<_>>()
        .join("\n")
}

#[test]
fn header_renders_name_and_args_summary() {
    let line = render_tool_call_header(&call("readFile", obj(vec![("path", s("src/lib.rs"))])));
    let text = line_text(&line);
    assert!(text.contains("readFile"), "missing name: {text:?}");
    assert!(text.contains("src/lib.rs"), "missing arg: {text:?}");
    assert!(text.starts_with("🛠️ "), "missing glyph: {text:?}");
}

#[test]
fn header_truncates_object_with_many_keys() {
    let fields: Vec<(String, JsonValue)> =
        (0..20).map(|i| (format!("key_{i:02}"), s(&format!("value_{i}")))).collect();
    let line = render_tool_call_header(&call("wide", JsonValue::Object(fields)));
    let text = line_text(&line);
    assert!(text.contains('…'), "expected outer truncate to add `…`: {text:?}");
}

#[test]
fn header_signals_long_value_via_summariser_ellipsis() {
    let long = "x".repeat(200);
    let line = render_tool_call_header(&call("bash", obj(vec![("cmd", s(&long))])));
    let text = line_text(&line);
    assert!(text.contains('…'), "expected summariser ellipsis for long value: {text:?}");
}

#[test]
fn result_body_uses_red_for_error() {
    let body = render_tool_result_body(&result("bash", s("permission denied"), true));
    assert!(!body.is_empty(), "expected at least one body line");
    let text = line_text(&body[0]);
    assert!(text.contains("error"), "missing error label: {text:?}");
}

#[test]
fn result_body_is_empty_for_null() {
    let body = render_tool_result_body(&result("noop", JsonValue::Null, false));
    assert!(body.is_empty());
}

#[test]
fn result_body_signals_omitted_lines() {
    let body = render_tool_result_body(&result("bash", s("line 1\nline 2\nline 3\nline 4"), false));
    assert_eq!(body.len(), 2, "expected exactly 2 visible lines: {body:?}");
    let last = line_text(&body[1]);
    assert!(last.ends_with('…'), "last visible line must mark omitted output: {last:?}");
}

#[test]
fn result_body_two_lines_keeps_no_ellipsis() {
    let body = render_tool_result_body(&result("bash", s("line 1\nline 2"), false));
    assert_eq!(body.len(), 2);
    let all: String = body.iter().map(line_text).collect();
    assert!(!all.contains('…'), "no ellipsis when nothing was dropped: {all:?}");
}

#[test]
fn result_header_marks_error() {
    let line = render_tool_result_header(&result("bash", s("nope"), true));
    let text = line_text(&line);
    assert!(text.contains("error"), "missing error: {text:?}");
}

#[test]
fn summarise_scalars_round_trip() {
    assert_eq!(summarise_json(&s("hi")), "hi");
    assert_eq!(summarise_json(&JsonValue::Number("42".into())), "42");
    assert_eq!(summarise_json(&JsonValue::Bool(true)), "true");
    assert_eq!(summarise_json(&JsonValue::Null), "");
}

#[test]
fn summarise_array_shows_count() {
    let three = JsonValue::Array(vec![
        JsonValue::Number("1".into()),
        JsonValue::Number("2".into()),
        JsonValue::Number("3".into()),
    ]);
    assert_eq!(summarise_json(&three), "[3 items]");
    assert_eq!(summarise_json(&JsonValue::Array(vec![s("only")])), "[1 item]");
}

#[test]
fn summarise_object_sorts_keys() {
    let v = obj(vec![("b", JsonValue::Number("1".into())), ("a", s("hi"))]);
    let out = summarise_json(&v);
    assert!(out.starts_with('{') && out.ends_with('}'));
    let ai = out.find("a:").unwrap();
    let bi = out.find("b:").unwrap();
    assert!(ai < bi, "keys should be sorted: {out}");
}

#[test]
fn summarise_object_exact_text() {
    let v = obj(vec![("b", JsonValue::Number("1".into())), ("a", s("hi")), ("c", JsonValue::Null)]);
    assert_eq!(summarise_json(&v), "{a: hi, b: 1, c}");
    let long = obj(vec![("cmd", s(&"y".repeat(30)))]);
    assert_eq!(summarise_json(&long), "{cmd: …}");
}

#[test]
fn truncate_one_line_appends_ellipsis() {
    let s = "x".repeat(100);
    let out = truncate_one_line(&s, 10);
    assert!(out.ends_with('…'), "expected trailing ellipsis: {out:?}");
    assert!(
        out.chars().filter(|c| *c == 'x').count() == 9,
        "expected 9 x chars (cap=10 minus the ellipsis): {out:?}"
    );
    assert_eq!(out.chars().count(), 10, "result must respect the cap");
}

#[test]
fn truncate_one_line_respects_exact_cap() {
    let s = "x".repeat(60);
    let out = truncate_one_line(&s, 60);
    assert_eq!(out.chars().count(), 60);
    assert!(!out.ends_with('…'));
}

#[test]
fn truncate_one_line_overflows_by_one_returns_cap() {
    let s = "x".repeat(61);
    let out = truncate_one_line(&s, 60);
    assert_eq!(out.chars().count(), 60, "cap must be hard: {out:?}");
    assert!(out.ends_with('…'));
}

#[test]
fn truncate_one_line_zero_cap_returns_single_ellipsis() {
    assert_eq!(truncate_one_line("anything", 0), "…");
}

#[test]
fn truncate_one_line_passthrough_when_short() {
    assert_eq!(truncate_one_line("hello", 10), "hello");
    assert_eq!(truncate_one_line("", 10), "");
}

#[test]
fn truncate_one_line_signals_embedded_newline_cut() {
    let s = "short\nsecond line is much longer than the cap";
    let out = truncate_one_line(s, 30);
    assert!(out.ends_with('…'), "expected ellipsis for multiline cut: {out:?}");
}

#[test]
fn truncate_one_line_single_line_passthrough_stays_clean() {
    let out = truncate_one_line("hello", 30);
    assert_eq!(out, "hello");
    assert!(!out.ends_with('…'));
}

#[test]
fn truncate_one_line_keeps_only_the_first_line() {
    assert_eq!(truncate_one_line("ab\ncd", 10), "ab…");
    assert_eq!(truncate_one_line("abc\r\n", 10), "abc");
}

#[test]
fn paired_tool_call_and_result_render_one_card() {
    let call_id = "call-1".to_string();
    let msg = Message::assistant(
        vec![
            MessagePart::ToolCall(ToolCall {
                id: call_id.clone(),
                name: "bash".into(),
                input: obj(vec![("cmd", s("ls"))]),
            }),
            MessagePart::ToolResult(ToolResult {
                call_id: call_id.clone(),
                name: "bash".into(),
                output: s("file.txt\n"),
                is_error: false,
            }),
        ],
        ModelId::default().as_str(),
    );
    let buf = message_text(&msg);
    assert!(buf.contains("🛠️ bash"), "expected tool call header: {buf:?}");
    assert!(buf.contains("⎿ file.txt"), "expected result body preview: {buf:?}");
    assert!(!buf.contains("▸ bash"), "paired result must not emit a redundant `▸` header: {buf:?}");
}

#[test]
fn standalone_tool_result_keeps_the_arrow_header() {
    let msg = Message::assistant(
        vec![MessagePart::ToolResult(ToolResult {
            call_id: "orphan".into(),
            name: "bash".into(),
            output: s("late result"),
            is_error: false,
        })],
        ModelId::default().as_str(),
    );
    let buf = message_text(&msg);
    assert!(buf.contains("▸ bash"), "expected standalone header: {buf:?}");
    assert!(buf.contains("⎿ late result"), "expected body: {buf:?}");
}

#[test]
fn tool_result_after_text_is_standalone() {
    let call_id = "call-2".to_string();
    let msg = Message::assistant(
        vec![
            MessagePart::ToolCall(ToolCall {
                id: call_id.clone(),
                name: "bash".into(),
                input: obj(vec![("cmd", s("ls"))]),
            }),
            MessagePart::Text { text: "between".into() },
            MessagePart::ToolResult(ToolResult {
                call_id: call_id.clone(),
                name: "bash".into(),
                output: s("late"),
                is_error: false,
            }),
        ],
        ModelId::default().as_str(),
    );
    let buf = message_text(&msg);
    assert!(buf.contains("🛠️ bash"), "expected call header: {buf:?}");
    assert!(buf.contains("between"), "expected interleaved text: {buf:?}");
    assert!(buf.contains("▸ bash"), "result after text must be standalone: {buf:?}");
    assert!(buf.contains("⎿ late"), "expected body: {buf:?}");
}

#[test]
fn message_rows_start_with_the_role_label() {
    let msg = Message::user(vec![MessagePart::Text { text: "hi".into() }]);
    let rows = render_message(&msg);
    assert_eq!(rows.len(), 2);
    match &rows[0] {
        Row::Styled(l) => assert_eq!(l.plain_text(), "you"),
        other => panic!("expected the label line, got {other:?}"),
    }
    match &rows[1] {
        Row::Markdown(t) => assert_eq!(t, "hi"),
        other => panic!("expected markdown, got {other:?}"),
    }
}
