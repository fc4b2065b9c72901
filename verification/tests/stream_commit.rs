//! A streamed turn through the public `update` path: it ends by committing
//! exactly one assistant message, or by failing with the history kept.

use mewcode_client::net::Session;
use mewcode_client::protocol::{JsonValue, MessagePart, Mode, ModelId, Role, StreamEvent};
use mewcode_client::runtime::model::events::{KeyCode, KeyEvent};
use mewcode_client::runtime::model::{App, Msg, Screen, SessionState, StreamMsg};
use mewcode_client::runtime::update;
use mewcode_client::runtime::update::stream::{stream_msg_of, StreamRelay, STREAM_CLOSED};

fn session_app() -> App {
    let mut app = App::new();
    let session = Session {
        id: 5,
        title: "demo".to_string(),
        model: ModelId::default(),
        mode: Mode::default(),
        created_at: 0,
        updated_at: 0,
        messages: vec![],
    };
    update(&mut app, Msg::SessionOpened(Ok(session)));
    assert!(matches!(app.screen, Screen::Session(_)));
    app
}

fn start_turn(app: &mut App) {
    update(app, Msg::Key(KeyEvent::plain(KeyCode::Char('h'))));
    update(app, Msg::Key(KeyEvent::plain(KeyCode::Enter)));
    assert!(session_state(app).streaming.is_some());
}

fn session_state(app: &App) -> &SessionState {
    match &app.screen {
        Screen::Session(s) => s,
        _ => panic!("expected Session screen"),
    }
}

fn message_count(app: &App) -> usize {
    session_state(app).session.as_ref().unwrap().messages.len()
}

#[test]
fn finish_commits_buffered_text() {
    let mut app = session_app();
    start_turn(&mut app);
    update(&mut app, Msg::Stream(StreamMsg::Started(77)));
    update(&mut app, Msg::Stream(StreamMsg::Delta("hello ".to_string())));
    update(&mut app, Msg::Stream(StreamMsg::Delta("world".to_string())));
    update(&mut app, Msg::Stream(StreamMsg::Finished { duration_ms: 7 }));
    let s = session_state(&app);
    assert!(s.streaming.is_none());
    let last = s.session.as_ref().unwrap().messages.last().expect("a committed message");
    assert_eq!(last.role, Role::Assistant);
    assert_eq!(last.parts, vec![MessagePart::Text { text: "hello world".to_string() }]);
}

#[test]
fn middle_events_commit_nothing_until_the_end() {
    let mut app = session_app();
    start_turn(&mut app);
    let base = message_count(&app);
    update(&mut app, Msg::Stream(StreamMsg::Started(1)));
    update(&mut app, Msg::Stream(StreamMsg::ToolInput { id: "t".into(), name: "n".into(), input: JsonValue::Null }));
    update(&mut app, Msg::Stream(StreamMsg::ToolOutput { id: "t".into(), output: JsonValue::Null }));
    update(&mut app, Msg::Stream(StreamMsg::Delta(String::new())));
    assert_eq!(message_count(&app), base);
    update(&mut app, Msg::Stream(StreamMsg::Finished { duration_ms: 0 }));
    assert_eq!(message_count(&app), base + 1);
    // A tool call with null output still records its result; no text was buffered.
    let last = session_state(&app).session.as_ref().unwrap().messages.last().unwrap();
    assert_eq!(last.parts.len(), 2);
    assert!(matches!(last.parts[0], MessagePart::ToolCall(_)));
    assert!(matches!(last.parts[1], MessagePart::ToolResult(_)));
}

#[test]
fn a_call_without_output_commits_no_result() {
    let mut app = session_app();
    start_turn(&mut app);
    update(&mut app, Msg::Stream(StreamMsg::ToolInput { id: "t".into(), name: "n".into(), input: JsonValue::Null }));
    update(&mut app, Msg::Stream(StreamMsg::Finished { duration_ms: 0 }));
    let last = session_state(&app).session.as_ref().unwrap().messages.last().unwrap();
    assert_eq!(last.parts.len(), 1);
}

#[test]
fn stream_events_translate_into_model_messages() {
    let (m, last) = stream_msg_of(StreamEvent::TextDelta { delta: "x".into() });
    assert!(matches!(m, StreamMsg::Delta(ref d) if d == "x"));
    assert!(!last);
    let (m, last) = stream_msg_of(StreamEvent::Finish { duration_ms: 9 });
    assert!(matches!(m, StreamMsg::Finished { duration_ms: 9 }));
    assert!(last);
    let (m, last) = stream_msg_of(StreamEvent::Aborted);
    assert!(matches!(m, StreamMsg::Failed(ref e) if e == "aborted"));
    assert!(last);
    let (m, last) = stream_msg_of(StreamEvent::Error { message: "bad".into() });
    assert!(matches!(m, StreamMsg::Failed(ref e) if e == "bad"));
    assert!(last);
    let (m, last) = stream_msg_of(StreamEvent::Start { message_id: 4 });
    assert!(matches!(m, StreamMsg::Started(4)));
    assert!(!last);
}

#[test]
fn relay_ends_a_stream_exactly_once() {
    let mut r = StreamRelay::new();
    assert!(matches!(r.step(Ok(StreamEvent::TextDelta { delta: "hi".into() })), Some(StreamMsg::Delta(_))));
    assert!(matches!(r.step(Ok(StreamEvent::Finish { duration_ms: 5 })), Some(StreamMsg::Finished { duration_ms: 5 })));
    assert!(r.step(Ok(StreamEvent::TextDelta { delta: "late".into() })).is_none());
    assert!(r.close().is_none());

    let mut r = StreamRelay::new();
    assert!(matches!(r.step(Ok(StreamEvent::Start { message_id: 7 })), Some(StreamMsg::Started(7))));
    match r.close() {
        Some(StreamMsg::Failed(e)) => assert_eq!(e, STREAM_CLOSED),
        other => panic!("expected a closing failure, got {other:?}"),
    }

    let mut r = StreamRelay::new();
    match r.step(Err("stream error: reset".into())) {
        Some(StreamMsg::Failed(e)) => assert_eq!(e, "stream error: reset"),
        other => panic!("expected a failure, got {other:?}"),
    }
    assert!(r.done && r.close().is_none());
}
