//! The `update` function through its public API: build an `App`, feed it a
//! `Msg`, and check the model and the returned `Cmd`.

use mewcode_client::net::{Session, SessionSummary};
use mewcode_client::protocol::{JsonValue, MessagePart, Mode, ModelId, Role};
use mewcode_client::runtime::model::events::{KeyCode, KeyEvent, KeyModifiers};
use mewcode_client::runtime::model::{
    App, Cmd, HomeState, Msg, NewSessionField, NewSessionState, Overlay, Screen, SessionState, StreamMsg,
};
use mewcode_client::runtime::update;

fn test_app() -> App {
    App::new()
}

fn key(code: KeyCode) -> Msg {
    Msg::Key(KeyEvent::new(code, KeyModifiers::none()))
}

fn char_key(c: char) -> Msg {
    Msg::Key(KeyEvent::new(KeyCode::Char(c), KeyModifiers::none()))
}

fn summary(id: u128, title: &str) -> SessionSummary {
    SessionSummary { id, title: title.to_string(), model: ModelId::default(), mode: Mode::default(), created_at: 0 }
}

fn session() -> Session {
    Session {
        id: 7,
        title: "demo".to_string(),
        model: ModelId::default(),
        mode: Mode::default(),
        created_at: 0,
        updated_at: 0,
        messages: vec![],
    }
}

fn home_with(n: usize) -> App {
    let mut app = test_app();
    let sessions = (0..n).map(|i| summary(100 + i as u128, &format!("s{i}"))).collect();
    app.screen = Screen::Home(HomeState { sessions, selected: 0, loading: false });
    app
}

fn on_session() -> App {
    let mut app = test_app();
    app.screen = Screen::Session(SessionState::new(session()));
    app
}

fn home(app: &App) -> &HomeState {
    match &app.screen {
        Screen::Home(h) => h,
        other => panic!("expected Home, got {other:?}"),
    }
}

fn sess(app: &App) -> &SessionState {
    match &app.screen {
        Screen::Session(s) => s,
        other => panic!("expected Session, got {other:?}"),
    }
}

fn messages(app: &App) -> usize {
    sess(app).session.as_ref().unwrap().messages.len()
}

#[test]
fn home_up_clamps_at_top_without_wrapping() {
    let mut app = home_with(3);
    assert!(matches!(update(&mut app, key(KeyCode::Up)), Cmd::Noop));
    assert_eq!(home(&app).selected, 0);
}

#[test]
fn home_down_advances_then_clamps_at_bottom() {
    let mut app = home_with(3);
    update(&mut app, key(KeyCode::Down));
    assert_eq!(home(&app).selected, 1);
    update(&mut app, key(KeyCode::Down));
    assert_eq!(home(&app).selected, 2);
    update(&mut app, key(KeyCode::Down));
    assert_eq!(home(&app).selected, 2);
}

#[test]
fn home_navigation_is_noop_on_empty_list() {
    let mut app = home_with(0);
    update(&mut app, key(KeyCode::Down));
    update(&mut app, key(KeyCode::Up));
    assert_eq!(home(&app).selected, 0);
}

#[test]
fn home_enter_on_empty_list_does_nothing() {
    let mut app = home_with(0);
    assert!(matches!(update(&mut app, key(KeyCode::Enter)), Cmd::Noop));
    assert!(matches!(app.screen, Screen::Home(_)));
}

#[test]
fn home_enter_opens_selected_session() {
    let mut app = home_with(3);
    update(&mut app, key(KeyCode::Down));
    let expected = home(&app).sessions[1].id;
    match update(&mut app, key(KeyCode::Enter)) {
        Cmd::OpenSession(id) => assert_eq!(id, expected),
        other => panic!("expected OpenSession, got {other:?}"),
    }
}

#[test]
fn home_n_opens_new_session_form() {
    let mut app = home_with(1);
    assert!(matches!(update(&mut app, char_key('n')), Cmd::Noop));
    assert!(matches!(app.screen, Screen::NewSession(_)));
}

#[test]
fn home_q_quits() {
    let mut app = home_with(1);
    assert!(matches!(update(&mut app, char_key('q')), Cmd::Noop));
    assert!(app.should_quit);
}

#[test]
fn sessions_loaded_fills_home_and_resets_a_stale_selection() {
    let mut app = test_app();
    if let Screen::Home(h) = &mut app.screen {
        h.selected = 5;
    }
    update(&mut app, Msg::SessionsLoaded(Ok(vec![summary(1, "a"), summary(2, "b")])));
    assert!(!home(&app).loading);
    assert_eq!(home(&app).sessions.len(), 2);
    assert_eq!(home(&app).selected, 0);
}

#[test]
fn sessions_load_failure_empties_home_and_toasts() {
    let mut app = home_with(2);
    update(&mut app, Msg::SessionsLoaded(Err("offline".to_string())));
    assert!(home(&app).sessions.is_empty());
    assert_eq!(app.toast.as_ref().unwrap().text, "offline");
}

fn new_session_app() -> App {
    let mut app = test_app();
    app.screen = Screen::NewSession(NewSessionState::default());
    app
}

fn field(app: &App) -> NewSessionField {
    match &app.screen {
        Screen::NewSession(n) => n.field,
        other => panic!("expected NewSession, got {other:?}"),
    }
}

#[test]
fn new_session_tab_cycles_focus() {
    let mut app = new_session_app();
    assert_eq!(field(&app), NewSessionField::Title);
    update(&mut app, key(KeyCode::Tab));
    assert_eq!(field(&app), NewSessionField::Model);
    update(&mut app, key(KeyCode::Tab));
    assert_eq!(field(&app), NewSessionField::Mode);
    update(&mut app, key(KeyCode::Tab));
    assert_eq!(field(&app), NewSessionField::Title);
}

#[test]
fn new_session_empty_title_is_rejected() {
    let mut app = new_session_app();
    assert!(matches!(update(&mut app, key(KeyCode::Enter)), Cmd::Noop));
    assert!(matches!(app.screen, Screen::NewSession(_)));
    assert_eq!(field(&app), NewSessionField::Title);
    assert!(app.toast.is_some());
}

#[test]
fn new_session_whitespace_title_is_rejected() {
    let mut app = new_session_app();
    update(&mut app, char_key(' '));
    update(&mut app, char_key(' '));
    assert!(matches!(update(&mut app, key(KeyCode::Enter)), Cmd::Noop));
    assert!(matches!(app.screen, Screen::NewSession(_)));
}

#[test]
fn new_session_valid_title_submits_trimmed() {
    let mut app = new_session_app();
    update(&mut app, char_key(' '));
    update(&mut app, char_key('h'));
    update(&mut app, char_key('i'));
    update(&mut app, char_key(' '));
    match update(&mut app, key(KeyCode::Enter)) {
        Cmd::CreateSession(req) => {
            assert_eq!(req.title, "hi");
            assert_eq!(req.model, Some(ModelId::default()));
            assert_eq!(req.mode, Some(Mode::default()));
        }
        other => panic!("expected CreateSession, got {other:?}"),
    }
}

#[test]
fn new_session_esc_returns_to_loading_home() {
    let mut app = new_session_app();
    assert!(matches!(update(&mut app, key(KeyCode::Esc)), Cmd::LoadSessions));
    assert!(home(&app).loading);
}

fn type_into_session(text: &str) -> App {
    let mut app = on_session();
    for c in text.chars() {
        update(&mut app, char_key(c));
    }
    app
}

#[test]
fn slash_tools_opens_tools_overlay() {
    let mut app = type_into_session("/tools");
    assert!(matches!(update(&mut app, key(KeyCode::Enter)), Cmd::Noop));
    assert_eq!(sess(&app).overlay, Overlay::Tools);
    assert!(sess(&app).streaming.is_none());
}

#[test]
fn slash_skills_opens_skills_overlay() {
    let mut app = type_into_session("/skills");
    assert!(matches!(update(&mut app, key(KeyCode::Enter)), Cmd::Noop));
    assert_eq!(sess(&app).overlay, Overlay::Skills);
}

#[test]
fn unknown_slash_command_errors_without_starting_turn() {
    let mut app = type_into_session("/bogus");
    assert!(matches!(update(&mut app, key(KeyCode::Enter)), Cmd::Noop));
    assert!(app.toast.is_some());
    assert_eq!(app.toast.as_ref().unwrap().text, "unknown command: /bogus");
    assert_eq!(sess(&app).overlay, Overlay::Closed);
    assert!(sess(&app).streaming.is_none());
}

#[test]
fn empty_input_starts_no_turn() {
    let mut app = on_session();
    assert!(matches!(update(&mut app, key(KeyCode::Enter)), Cmd::Noop));
    assert!(sess(&app).streaming.is_none());
}

#[test]
fn plain_message_starts_a_chat_turn() {
    let mut app = type_into_session("hello");
    match update(&mut app, key(KeyCode::Enter)) {
        Cmd::StartChat(req) => {
            assert_eq!(req.messages.last().unwrap().role, Role::User);
            assert_eq!(req.session_id, 7);
        }
        other => panic!("expected StartChat, got {other:?}"),
    }
    let s = sess(&app);
    assert!(s.streaming.is_some());
    assert_eq!(messages(&app), 1);
    assert_eq!(s.input.text(), "");
}

#[test]
fn submit_while_streaming_is_rejected() {
    let mut app = type_into_session("first");
    update(&mut app, key(KeyCode::Enter));
    assert!(sess(&app).streaming.is_some());
    let before = messages(&app);
    for c in "second".chars() {
        update(&mut app, char_key(c));
    }
    assert!(matches!(update(&mut app, key(KeyCode::Enter)), Cmd::Noop));
    assert_eq!(messages(&app), before);
    assert_eq!(sess(&app).input.text(), "second");
}

#[test]
fn first_message_without_a_session_creates_one_titled_after_it() {
    let mut app = test_app();
    app.screen = Screen::Session(SessionState::empty());
    for c in "  fix   the\tbuild  ".chars() {
        update(&mut app, char_key(c));
    }
    match update(&mut app, key(KeyCode::Enter)) {
        Cmd::CreateSession(req) => {
            assert_eq!(req.title, "fix the build");
            assert_eq!(req.model, None);
            assert_eq!(req.mode, Some(Mode::Build));
        }
        other => panic!("expected CreateSession, got {other:?}"),
    }
    let s = sess(&app);
    assert!(s.creating);
    assert_eq!(s.pending_chat.as_deref(), Some("fix   the\tbuild"));
    // The created session adopts the pending message as its first turn.
    let mut created = session();
    created.title = "fix the build".into();
    match update(&mut app, Msg::SessionCreated(Ok(created))) {
        Cmd::StartChat(req) => assert_eq!(req.messages.len(), 1),
        other => panic!("expected StartChat, got {other:?}"),
    }
    let s = sess(&app);
    assert!(!s.creating);
    assert!(s.pending_chat.is_none());
    assert!(s.streaming.is_some());
    assert_eq!(messages(&app), 1);
}

#[test]
fn session_creation_failure_keeps_the_input_and_toasts() {
    let mut app = test_app();
    app.screen = Screen::Session(SessionState::empty());
    for c in "hello".chars() {
        update(&mut app, char_key(c));
    }
    update(&mut app, key(KeyCode::Enter));
    update(
        &mut app,
        Msg::SessionCreated(Err(mewcode_client::net::CreateError::Other("server returned status 500".into()))),
    );
    let s = sess(&app);
    assert!(!s.creating);
    assert!(s.pending_chat.is_none());
    assert_eq!(s.input.text(), "hello");
    assert_eq!(app.toast.as_ref().unwrap().text, "server returned status 500");
}

fn stream(app: &mut App, ev: StreamMsg) -> Cmd {
    update(app, Msg::Stream(ev))
}

fn streaming_session() -> App {
    let mut app = type_into_session("go");
    update(&mut app, key(KeyCode::Enter));
    assert!(sess(&app).streaming.is_some());
    app
}

#[test]
fn stream_started_sets_assistant_id() {
    let mut app = streaming_session();
    let id = 0xfeed_u128;
    stream(&mut app, StreamMsg::Started(id));
    assert_eq!(sess(&app).streaming.as_ref().unwrap().assistant_id, id);
}

#[test]
fn stream_delta_accumulates_buffer() {
    let mut app = streaming_session();
    stream(&mut app, StreamMsg::Delta("Hel".to_string()));
    stream(&mut app, StreamMsg::Delta("lo".to_string()));
    assert_eq!(sess(&app).streaming.as_ref().unwrap().buffer, "Hello");
}

#[test]
fn stream_tool_input_then_output_is_recorded() {
    let mut app = streaming_session();
    stream(
        &mut app,
        StreamMsg::ToolInput {
            id: "c1".to_string(),
            name: "readFile".to_string(),
            input: JsonValue::Object(vec![("path".to_string(), JsonValue::String("a.rs".to_string()))]),
        },
    );
    stream(
        &mut app,
        StreamMsg::ToolOutput {
            id: "c1".to_string(),
            output: JsonValue::Object(vec![("ok".to_string(), JsonValue::Bool(true))]),
        },
    );
    let calls = &sess(&app).streaming.as_ref().unwrap().tool_calls;
    assert_eq!(calls.len(), 1);
    assert_eq!(calls[0].name, "readFile");
    assert_eq!(calls[0].output, Some(JsonValue::Object(vec![("ok".to_string(), JsonValue::Bool(true))])));
}

#[test]
fn stream_output_for_unknown_call_changes_nothing() {
    let mut app = streaming_session();
    stream(&mut app, StreamMsg::ToolInput { id: "c1".into(), name: "a".into(), input: JsonValue::Null });
    stream(&mut app, StreamMsg::ToolOutput { id: "c9".into(), output: JsonValue::Bool(true) });
    let calls = &sess(&app).streaming.as_ref().unwrap().tool_calls;
    assert_eq!(calls[0].output, None);
}

#[test]
fn stream_finished_commits_one_assistant_message() {
    let mut app = streaming_session();
    let before = messages(&app);
    stream(&mut app, StreamMsg::Started(3));
    stream(&mut app, StreamMsg::Delta("answer".to_string()));
    stream(
        &mut app,
        StreamMsg::ToolInput { id: "c1".to_string(), name: "glob".to_string(), input: JsonValue::Object(vec![]) },
    );
    stream(
        &mut app,
        StreamMsg::ToolOutput { id: "c1".to_string(), output: JsonValue::Array(vec![JsonValue::String("x".into())]) },
    );
    assert!(matches!(stream(&mut app, StreamMsg::Finished { duration_ms: 12 }), Cmd::Noop));
    let s = sess(&app);
    assert!(s.streaming.is_none());
    assert_eq!(messages(&app), before + 1);
    let committed = s.session.as_ref().unwrap().messages.last().unwrap();
    assert_eq!(committed.role, Role::Assistant);
    assert!(matches!(committed.parts[0], MessagePart::Text { .. }));
    assert!(matches!(committed.parts[1], MessagePart::ToolCall(_)));
    assert!(matches!(committed.parts[2], MessagePart::ToolResult(_)));
    assert_eq!(committed.provider.as_deref(), Some(ModelId::default().provider_id()));
}

#[test]
fn stream_failed_discards_partial_and_toasts() {
    let mut app = streaming_session();
    let before = messages(&app);
    stream(&mut app, StreamMsg::Delta("partial".to_string()));
    stream(&mut app, StreamMsg::Failed("boom".to_string()));
    let s = sess(&app);
    assert!(s.streaming.is_none());
    assert_eq!(messages(&app), before);
    assert!(app.toast.is_some());
    assert_eq!(app.toast.as_ref().unwrap().text, "stream failed: boom");
}

#[test]
fn stream_event_without_streaming_is_ignored() {
    let mut app = on_session();
    assert!(sess(&app).streaming.is_none());
    let before = messages(&app);
    stream(&mut app, StreamMsg::Delta("ignored".to_string()));
    stream(&mut app, StreamMsg::Finished { duration_ms: 1 });
    let s = sess(&app);
    assert!(s.streaming.is_none());
    assert_eq!(messages(&app), before);
    assert!(app.toast.is_none());
}

#[test]
fn esc_closes_the_overlay_and_q_quits_only_without_one() {
    let mut app = type_into_session("/tools");
    update(&mut app, key(KeyCode::Enter));
    update(&mut app, char_key('q'));
    assert!(!app.should_quit);
    update(&mut app, key(KeyCode::Esc));
    assert_eq!(sess(&app).overlay, Overlay::Closed);
    update(&mut app, char_key('q'));
    assert!(app.should_quit);
}

#[test]
fn tick_changes_nothing() {
    let mut app = home_with(2);
    assert!(matches!(update(&mut app, Msg::Tick), Cmd::Noop));
    assert_eq!(home(&app).sessions.len(), 2);
}

#[test]
fn opened_session_shows_on_the_session_screen() {
    let mut app = home_with(1);
    update(&mut app, Msg::SessionOpened(Ok(session())));
    assert_eq!(sess(&app).session.as_ref().unwrap().id, 7);
    let mut app = home_with(1);
    update(&mut app, Msg::SessionOpened(Err("gone".into())));
    assert!(matches!(app.screen, Screen::Home(_)));
    assert_eq!(app.toast.as_ref().unwrap().text, "gone");
}
