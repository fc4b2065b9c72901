//! The new-session form's success and failure transitions, driven through
//! `Msg::SessionCreated`, and the form's keys.

use mewcode_client::net::{ModelEntry, Session};
use mewcode_client::protocol::{Mode, ModelId, ModelKind};
use mewcode_client::runtime::model::events::{KeyCode, KeyEvent, KeyModifiers};
use mewcode_client::runtime::model::{
    App, Cmd, CreateError, ModelPicker, Msg, NewSessionField, NewSessionState, Screen,
};
use mewcode_client::runtime::update;

fn all_models() -> Vec<ModelId> {
    ModelId::all()
}

fn submitting_app() -> App {
    let mut app = App::new();
    app.screen = Screen::NewSession(NewSessionState {
        model: ModelPicker::Loaded { models: all_models(), selected: 1 },
        mode: Mode::Plan,
        field: NewSessionField::Title,
        submitting: true,
        ..NewSessionState::default()
    });
    for c in "my session".chars() {
        key(&mut app, KeyCode::Char(c));
    }
    app
}

fn key(app: &mut App, code: KeyCode) -> Cmd {
    update(app, Msg::Key(KeyEvent::new(code, KeyModifiers::none())))
}

fn new_session(app: &App) -> &NewSessionState {
    match &app.screen {
        Screen::NewSession(n) => n,
        other => panic!("expected NewSession, got {other:?}"),
    }
}

fn made_session() -> Session {
    Session {
        id: 99,
        title: "my session".to_string(),
        model: ModelId::default(),
        mode: Mode::default(),
        created_at: 0,
        updated_at: 0,
        messages: vec![],
    }
}

#[test]
fn ok_transitions_to_session_with_empty_history() {
    let mut app = submitting_app();
    let session = made_session();
    let id = session.id;
    update(&mut app, Msg::SessionCreated(Ok(session)));
    match &app.screen {
        Screen::Workspace(ws) => {
            let s = ws.chat.as_ref().expect("session was created");
            assert_eq!(s.session.as_ref().unwrap().id, id);
            assert!(s.session.as_ref().unwrap().messages.is_empty(), "new session starts empty");
        }
        other => panic!("expected Workspace, got {other:?}"),
    }
}

#[test]
fn other_error_stays_retains_values_and_clears_submitting() {
    let mut app = submitting_app();
    update(&mut app, Msg::SessionCreated(Err(CreateError::Other("server returned status 500".into()))));
    let n = new_session(&app);
    assert_eq!(n.title.text(), "my session");
    assert_eq!(n.model.selected_model(), Some(all_models()[1]));
    assert_eq!(n.mode, Mode::Plan);
    assert_eq!(n.error.as_deref(), Some("server returned status 500"));
    assert!(!n.submitting);
}

#[test]
fn empty_title_error_keeps_focus_and_shows_hint() {
    let mut app = submitting_app();
    update(&mut app, Msg::SessionCreated(Err(CreateError::EmptyTitle("server returned status 400".into()))));
    let n = new_session(&app);
    assert_eq!(n.field, NewSessionField::Title);
    assert!(n.error.is_some(), "expected the required-title hint");
    assert_eq!(n.error.as_deref(), Some("a non-empty title is required"));
    assert!(!n.submitting);
    assert_eq!(n.title.text(), "my session");
}

#[test]
fn persistent_error_clears_on_next_edit() {
    let mut app = submitting_app();
    update(&mut app, Msg::SessionCreated(Err(CreateError::Other("boom".into()))));
    assert!(new_session(&app).error.is_some());
    key(&mut app, KeyCode::Char('x'));
    assert!(new_session(&app).error.is_none());
}

#[test]
fn enter_while_submitting_starts_no_second_request() {
    let mut app = submitting_app();
    assert!(matches!(key(&mut app, KeyCode::Enter), Cmd::Noop));
}

#[test]
fn submit_carries_the_picker_and_mode() {
    let mut app = submitting_app();
    update(&mut app, Msg::SessionCreated(Err(CreateError::Other("boom".into()))));
    match key(&mut app, KeyCode::Enter) {
        Cmd::CreateSession(req) => {
            assert_eq!(req.title, "my session");
            assert_eq!(req.model, Some(all_models()[1]));
            assert_eq!(req.mode, Some(Mode::Plan));
        }
        other => panic!("expected CreateSession, got {other:?}"),
    }
    assert!(new_session(&app).submitting);
    assert!(new_session(&app).error.is_none());
}

#[test]
fn mode_field_toggles_with_either_arrow() {
    let mut app = App::new();
    app.screen = Screen::NewSession(NewSessionState { field: NewSessionField::Mode, ..NewSessionState::default() });
    key(&mut app, KeyCode::Left);
    assert_eq!(new_session(&app).mode, Mode::Plan);
    key(&mut app, KeyCode::Right);
    assert_eq!(new_session(&app).mode, Mode::Build);
}

#[test]
fn model_field_moves_the_picker_without_wrapping() {
    let mut app = App::new();
    app.screen = Screen::NewSession(NewSessionState {
        model: ModelPicker::Loaded { models: all_models(), selected: 0 },
        field: NewSessionField::Model,
        ..NewSessionState::default()
    });
    key(&mut app, KeyCode::Left);
    assert_eq!(new_session(&app).model.selected_model(), Some(ModelId::KimiK2));
    for _ in 0..10 {
        key(&mut app, KeyCode::Right);
    }
    assert_eq!(new_session(&app).model.selected_model(), Some(ModelId::MiniMaxM2));
}

#[test]
fn models_loaded_fills_the_picker() {
    let mut app = App::new();
    app.screen = Screen::NewSession(NewSessionState::default());
    let entries = vec![ModelEntry { id: "glm-4.6".into(), display_name: "GLM".into(), kind: ModelKind::OpenAiChatCompletions }];
    update(&mut app, Msg::ModelsLoaded(Ok(entries)));
    assert_eq!(new_session(&app).model.selected_model(), Some(ModelId::Glm46));
    assert!(new_session(&app).error.is_none());
    update(&mut app, Msg::ModelsLoaded(Err("down".into())));
    assert_eq!(new_session(&app).model.selected_model(), Some(ModelId::KimiK2));
    assert_eq!(new_session(&app).error.as_deref(), Some("couldn't load models"));
}
