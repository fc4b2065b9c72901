//! Transcript scrolling: the transcript follows its latest line, PageUp
//! releases the follow, and scrolling back to the bottom re-engages it.
//! The frame's measurement is recorded the way the view records it.

use mewcode_client::net::Session;
use mewcode_client::protocol::{Message, MessagePart, Mode, ModelId};
use mewcode_client::runtime::model::events::{KeyCode, KeyEvent, KeyModifiers};
use mewcode_client::runtime::model::{App, Msg, Screen, SessionState};
use mewcode_client::runtime::update;
use mewcode_client::runtime::view::transcript::{record_transcript_height, session_transcript};

fn app_with_long_transcript() -> App {
    let messages = (0..40)
        .map(|i| Message::user(vec![MessagePart::Text { text: format!("line-{i:02}") }]))
        .collect();
    let session = Session {
        id: 1,
        title: "scrolltest".to_string(),
        model: ModelId::default(),
        mode: Mode::default(),
        created_at: 0,
        updated_at: 0,
        messages,
    };
    let mut app = App::new();
    app.screen = Screen::Session(SessionState::new(session));
    app
}

/// Measure the transcript as a frame would: every row is one line here,
/// in a viewport ten rows tall.
fn measure(app: &mut App) {
    if let Screen::Session(s) = &mut app.screen {
        let rows = session_transcript(s, 0, 0).len();
        record_transcript_height(s, rows, 10);
    }
}

fn press(app: &mut App, code: KeyCode) {
    update(app, Msg::Key(KeyEvent::new(code, KeyModifiers::none())));
}

fn session(app: &App) -> &SessionState {
    match &app.screen {
        Screen::Session(s) => s,
        _ => panic!("expected Session"),
    }
}

#[test]
fn auto_follows_the_latest_line() {
    let mut app = app_with_long_transcript();
    measure(&mut app);
    let s = session(&app);
    assert!(s.follow, "starts in follow mode");
    assert!(s.max_scroll > 0, "content overflows the viewport");
    assert_eq!(s.scroll, s.max_scroll);
    // 40 messages of a label, a line and a blank: 120 rows in 10.
    assert_eq!(s.max_scroll, 110);
    assert_eq!(s.viewport, 10);
}

#[test]
fn page_up_reveals_history_and_releases_follow() {
    let mut app = app_with_long_transcript();
    measure(&mut app);
    for _ in 0..20 {
        press(&mut app, KeyCode::PageUp);
    }
    measure(&mut app);
    let s = session(&app);
    assert!(!s.follow, "scrolling up releases follow");
    assert_eq!(s.scroll, 0, "clamped at the top");
}

#[test]
fn page_down_to_bottom_re_engages_follow() {
    let mut app = app_with_long_transcript();
    measure(&mut app);
    press(&mut app, KeyCode::PageUp);
    assert!(!session(&app).follow);
    assert_eq!(session(&app).scroll, 100);
    for _ in 0..5 {
        press(&mut app, KeyCode::PageDown);
    }
    let s = session(&app);
    assert!(s.follow, "reaching the bottom re-engages follow");
    assert_eq!(s.scroll, s.max_scroll);
}

#[test]
fn arrows_scroll_one_line() {
    let mut app = app_with_long_transcript();
    measure(&mut app);
    press(&mut app, KeyCode::Up);
    assert_eq!(session(&app).scroll, 109);
    press(&mut app, KeyCode::Down);
    assert_eq!(session(&app).scroll, 110);
    assert!(session(&app).follow);
}
