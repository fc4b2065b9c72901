//! The new-session form: field cycling, picker and mode changes, title
//! validation and submit, and the outcome of a creation request.
use vstd::prelude::*;

use crate::net::{CreateError, CreateSessionRequest, ModelEntry};
use crate::protocol::{Mode, ModelId};
use crate::runtime::model::editor::{composer_text, edited, input_post};
use crate::runtime::model::events::{KeyCode, KeyEvent};
use crate::runtime::model::home::HomeState;
use crate::runtime::model::new_session::{
    next_field, picker_next, picker_prev, picker_selection, registry_models, ModelPicker, NewSessionField,
    NewSessionState,
};
use crate::runtime::model::{Cmd, Screen, Toast};
use crate::runtime::update::home::loading_home;
use crate::runtime::update::session::error_toast;
use crate::text::{trim, trimmed, string_of};

verus! {

/// Hint shown when a title is empty, whether the form or the server refused it.
pub const REQUIRED_TITLE_HINT: &'static str = "a non-empty title is required";

/// The other interaction mode.
pub open spec fn toggled(m: Mode) -> Mode {
    match m {
        Mode::Build => Mode::Plan,
        Mode::Plan => Mode::Build,
    }
}

/// Switch between the two interaction modes.
pub fn toggle_mode(mode: Mode) -> (m: Mode)
    ensures
        m == toggled(mode),
{
    match mode {
        Mode::Build => Mode::Plan,
        Mode::Plan => Mode::Build,
    }
}

/// The model a submitted form asks for: the highlighted one, or the
/// default model while the picker is still loading.
pub open spec fn chosen_model(p: ModelPicker) -> ModelId {
    match picker_selection(p) {
        Some(m) => m,
        None => ModelId::KimiK2,
    }
}

/// What a key does on the new-session form `n`. Esc goes back to a loading
/// Home screen and asks for the session list. Tab moves the focus. Enter,
/// unless a submit is in flight, refuses an empty title (focus back on the
/// title, the hint as error and toast) or submits the trimmed title with
/// the chosen model and mode. Left and Right move the picker or toggle the
/// mode (clearing the error), or move the title's cursor. Any other key
/// edits a focused title and clears the error.
pub open spec fn new_session_key_post(
    key: KeyEvent,
    n: NewSessionState,
    s1: Screen,
    t0: Option<Toast>,
    t1: Option<Toast>,
    cmd: Cmd,
) -> bool {
    if key.code == KeyCode::Esc {
        loading_home(s1) && t1 == t0 && cmd is LoadSessions
    } else if key.code == KeyCode::Tab {
        s1 == Screen::NewSession(NewSessionState { field: next_field(n.field), ..n }) && t1 == t0 && cmd is Noop
    } else if key.code == KeyCode::Enter {
        let title = trim(composer_text(n.title));
        if n.submitting {
            s1 == Screen::NewSession(n) && t1 == t0 && cmd is Noop
        } else if title.len() == 0 {
            &&& s1 matches Screen::NewSession(n1)
            &&& n1 == (NewSessionState { field: NewSessionField::Title, error: n1.error, ..n })
            &&& n1.error matches Some(e) && e@ == REQUIRED_TITLE_HINT@
            &&& error_toast(t1, REQUIRED_TITLE_HINT@)
            &&& cmd is Noop
        } else {
            &&& s1 == Screen::NewSession(NewSessionState { error: None, submitting: true, ..n })
            &&& t1 == t0
            &&& cmd matches Cmd::CreateSession(req) && req.title@ == title && req.model == Some(
                chosen_model(n.model),
            ) && req.mode == Some(n.mode)
        }
    } else if key.code == KeyCode::Left || key.code == KeyCode::Right {
        &&& t1 == t0
        &&& cmd is Noop
        &&& match n.field {
            NewSessionField::Model => s1 == Screen::NewSession(
                NewSessionState {
                    model: if key.code == KeyCode::Left {
                        picker_prev(n.model)
                    } else {
                        picker_next(n.model)
                    },
                    error: None,
                    ..n
                },
            ),
            NewSessionField::Mode => s1 == Screen::NewSession(
                NewSessionState { mode: toggled(n.mode), error: None, ..n },
            ),
            NewSessionField::Title => s1 matches Screen::NewSession(n1) && n1 == (NewSessionState {
                title: n1.title,
                ..n
            }) && edited(n.title, key, n1.title),
        }
    } else {
        &&& t1 == t0
        &&& cmd is Noop
        &&& if n.field == NewSessionField::Title {
            s1 matches Screen::NewSession(n1) && n1 == (NewSessionState { title: n1.title, error: None, ..n })
                && edited(n.title, key, n1.title)
        } else {
            s1 == Screen::NewSession(n)
        }
    }
}

/// New-session form: field cycling, picker changes, validation and submit.
/// On another screen, Esc still returns to a loading Home and every other
/// key leaves everything as it was.
pub fn on_new_session_key(screen: &mut Screen, toast: &mut Option<Toast>, key: KeyEvent) -> (cmd: Cmd)
    ensures
        *old(screen) is NewSession ==> new_session_key_post(
            key,
            (*old(screen))->NewSession_0,
            *final(screen),
            *old(toast),
            *final(toast),
            cmd,
        ),
        !(*old(screen) is NewSession) ==> if key.code == KeyCode::Esc {
            loading_home(*final(screen)) && *final(toast) == *old(toast) && cmd is LoadSessions
        } else {
            *final(screen) == *old(screen) && *final(toast) == *old(toast) && cmd is Noop
        },
{
    if key.code == KeyCode::Esc {
        *screen = Screen::Home(HomeState::loading());
        return Cmd::LoadSessions;
    }
    match screen {
        Screen::NewSession(n) => {
            if key.code == KeyCode::Tab {
                n.field = n.field.next();
                Cmd::Noop
            } else if key.code == KeyCode::Enter {
                // A submit is already in flight: start no second request.
                if n.submitting {
                    return Cmd::Noop;
                }
                let text = n.title.text_chars();
                let t = trimmed(&text);
                if t.len() == 0 {
                    n.field = NewSessionField::Title;
                    n.error = Some(REQUIRED_TITLE_HINT.to_string());
                    *toast = Some(Toast::error(REQUIRED_TITLE_HINT.to_string()));
                    Cmd::Noop
                } else {
                    let model = match n.model.selected_model() {
                        Some(m) => m,
                        None => ModelId::default(),
                    };
                    let req = CreateSessionRequest { title: string_of(&t), model: Some(model), mode: Some(n.mode) };
                    // Clear a stale error and mark the request in flight.
                    n.error = None;
                    n.submitting = true;
                    Cmd::CreateSession(req)
                }
            } else if key.code == KeyCode::Left || key.code == KeyCode::Right {
                match n.field {
                    NewSessionField::Model => {
                        if key.code == KeyCode::Left {
                            n.model.select_prev();
                        } else {
                            n.model.select_next();
                        }
                        n.error = None;
                    },
                    NewSessionField::Mode => {
                        n.mode = toggle_mode(n.mode);
                        n.error = None;
                    },
                    NewSessionField::Title => {
                        // The title editor moves its cursor.
                        let changed = n.title.input(&key);
                        assert(input_post(old(screen)->NewSession_0.title, key, n.title, changed));
                    },
                }
                Cmd::Noop
            } else {
                if n.field == NewSessionField::Title {
                    let changed = n.title.input(&key);
                    assert(input_post(old(screen)->NewSession_0.title, key, n.title, changed));
                    n.error = None;
                }
                Cmd::Noop
            }
        },
        _ => Cmd::Noop,
    }
}

/// The form after the model registry answered: the picker is rebuilt from
/// the answer, and a fallback to the catalog leaves its error on the form.
pub open spec fn models_loaded_post(
    n0: NewSessionState,
    result: Result<Vec<ModelEntry>, String>,
    n1: NewSessionState,
) -> bool {
    let found = registry_models(result);
    &&& n1 == (NewSessionState { model: n1.model, error: n1.error, ..n0 })
    &&& n1.model matches ModelPicker::Loaded { models, selected } && selected == 0
    &&& if found.len() > 0 {
        n1.model->Loaded_models@ == found && n1.error == n0.error
    } else {
        n1.model->Loaded_models@ == crate::protocol::all_models_spec() && (n1.error matches Some(e) && e@
            == "couldn't load models"@)
    }
}

/// Apply the answer of the model registry to the form.
pub fn apply_models_loaded(n: &mut NewSessionState, result: Result<Vec<ModelEntry>, String>)
    ensures
        models_loaded_post(*old(n), result, *final(n)),
{
    let (picker, error) = ModelPicker::from_registry(result);
    n.model = picker;
    match error {
        Some(e) => {
            n.error = Some(e);
        },
        None => {},
    }
}

/// The form after the server refused to create its session: it stays with
/// its values and is no longer in flight. An empty-title refusal puts the
/// focus back on the title with the hint; any other shows its message.
pub open spec fn create_refused_post(n0: NewSessionState, e: CreateError, n1: NewSessionState) -> bool {
    match e {
        CreateError::EmptyTitle(_) => {
            &&& n1 == (NewSessionState { field: NewSessionField::Title, error: n1.error, submitting: false, ..n0 })
            &&& n1.error matches Some(m) && m@ == REQUIRED_TITLE_HINT@
        },
        CreateError::Other(msg) => n1 == (NewSessionState { error: Some(msg), submitting: false, ..n0 }),
    }
}

/// Record on the form that the server refused to create its session.
pub fn apply_create_refused(n: &mut NewSessionState, e: CreateError)
    ensures
        create_refused_post(*old(n), e, *final(n)),
{
    n.submitting = false;
    match e {
        CreateError::EmptyTitle(_) => {
            n.field = NewSessionField::Title;
            n.error = Some(REQUIRED_TITLE_HINT.to_string());
        },
        CreateError::Other(msg) => {
            n.error = Some(msg);
        },
    }
}

} // verus!
