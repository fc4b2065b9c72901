//! Each screen owns its state; every screen but the Workspace ignores the mouse.

use mewcode_client::net::Session;
use mewcode_client::protocol::{Mode, ModelId};
use mewcode_client::runtime::model::events::{MouseButton, MouseEvent, MouseEventKind};
use mewcode_client::runtime::model::{App, Cmd, HomeState, Msg, NewSessionState, Screen, SessionState};
use mewcode_client::runtime::update::update;

fn mouse_click(x: u16, y: u16) -> MouseEvent {
    MouseEvent { kind: MouseEventKind::Down(MouseButton::Left), column: x, row: y }
}

#[test]
fn home_screen_ignores_mouse() {
    let mut app = App::new();
    let initial_screen = matches!(app.screen, Screen::Home(_));
    let initial_quit = app.should_quit;
    assert!(app.toast.is_none());
    let cmd = update(&mut app, Msg::Mouse(mouse_click(10, 5)));
    assert!(matches!(cmd, Cmd::Noop));
    assert_eq!(initial_screen, matches!(app.screen, Screen::Home(_)));
    assert_eq!(app.should_quit, initial_quit);
    assert!(app.toast.is_none());
}

#[test]
fn new_session_screen_ignores_mouse() {
    let mut app = App::new();
    app.screen = Screen::NewSession(Default::default());
    let cmd = update(&mut app, Msg::Mouse(mouse_click(0, 0)));
    assert!(matches!(cmd, Cmd::Noop));
    assert!(matches!(app.screen, Screen::NewSession(_)));
    assert!(app.toast.is_none());
}

#[test]
fn mouse_event_content_does_not_reach_app_state() {
    let mut app = App::new();
    for &(x, y) in &[(0u16, 0u16), (79, 0), (0, 23), (79, 23), (40, 12)] {
        update(&mut app, Msg::Mouse(mouse_click(x, y)));
    }
    assert!(matches!(app.screen, Screen::Home(_)));
    assert!(!app.should_quit);
    assert!(app.toast.is_none());
}

#[test]
fn home_variant_carries_its_state() {
    let app = App { screen: Screen::Home(HomeState::loading()), toast: None, should_quit: false };
    match app.screen {
        Screen::Home(h) => assert!(h.loading),
        _ => panic!("expected Home"),
    }
}

#[test]
fn session_variant_cannot_exist_without_a_session() {
    let session = Session {
        id: 0x1234_5678_9abc_def0_1234_5678_9abc_def0,
        title: "demo".to_string(),
        model: ModelId::default(),
        mode: Mode::default(),
        created_at: 0,
        updated_at: 0,
        messages: vec![],
    };
    let session_id = session.id;
    let app = App { screen: Screen::Session(SessionState::new(session)), toast: None, should_quit: false };
    match app.screen {
        Screen::Session(state) => assert_eq!(state.session.map(|s| s.id), Some(session_id)),
        _ => panic!("expected Session"),
    }
}

#[test]
fn new_session_variant_carries_its_state() {
    let app = App { screen: Screen::NewSession(NewSessionState::default()), toast: None, should_quit: false };
    assert!(matches!(app.screen, Screen::NewSession(_)));
}

#[test]
fn session_variant_carries_its_session() {
    let session = Session {
        id: 1,
        title: "demo".into(),
        model: ModelId::default(),
        mode: Mode::default(),
        created_at: 0,
        updated_at: 0,
        messages: vec![],
    };
    let app = App { screen: Screen::Session(SessionState::new(session)), toast: None, should_quit: false };
    match app.screen {
        Screen::Session(s) => assert_eq!(s.session.as_ref().unwrap().title, "demo"),
        _ => panic!("expected Session"),
    }
}

#[test]
fn a_new_app_starts_on_a_loading_home() {
    let app = App::new();
    match &app.screen {
        Screen::Home(h) => {
            assert!(h.loading);
            assert!(h.sessions.is_empty());
        }
        _ => panic!("expected Home"),
    }
    let d = App::default();
    assert!(matches!(d.screen, Screen::Home(_)));
}
