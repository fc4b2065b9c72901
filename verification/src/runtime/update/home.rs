//! The Home screen's keys and the arrival of the session list.
use vstd::prelude::*;

use crate::net::SessionSummary;
use crate::protocol::Mode;
use crate::runtime::model::editor::composer_lines;
use crate::runtime::model::events::{KeyCode, KeyEvent};
use crate::runtime::model::home::HomeState;
use crate::runtime::model::new_session::{NewSessionField, NewSessionState};
use crate::runtime::model::workspace::{WorkspaceFocus, WorkspaceState};
use crate::runtime::model::{Cmd, Screen, Toast};
use crate::runtime::update::session::error_toast;

verus! {

/// A new-session form as it first opens: empty title, picker loading,
/// default mode, focus on the title, nothing in flight, no error.
pub open spec fn fresh_form(n: NewSessionState) -> bool {
    &&& composer_lines(n.title) == seq![Seq::<char>::empty()]
    &&& n.model is Loading
    &&& n.mode == Mode::Build
    &&& n.field == NewSessionField::Title
    &&& !n.submitting
    &&& n.error is None
}

/// A Workspace as it first opens: no chat, the canvas empty, loading and focused.
pub open spec fn fresh_workspace(ws: WorkspaceState) -> bool {
    &&& ws.canvas.loading
    &&& ws.canvas.graph.nodes@.len() == 0
    &&& ws.canvas.graph.edges@.len() == 0
    &&& ws.canvas.selected is None
    &&& ws.canvas.viewport == (0i32, 0i32)
    &&& ws.canvas.drag_origin is None
    &&& ws.chat is None
    &&& ws.focus == WorkspaceFocus::Canvas
    &&& ws.pending_prompt is None
}

/// A Home screen waiting for its session list.
pub open spec fn loading_home(s: Screen) -> bool {
    s matches Screen::Home(h) && h.loading && h.sessions@.len() == 0 && h.selected == 0
}

/// The highlighted row after Up: one row up, stopping at the top; an empty
/// list does not move.
pub open spec fn home_up(h: HomeState) -> usize {
    if h.sessions@.len() == 0 || h.selected == 0 {
        h.selected
    } else {
        (h.selected - 1) as usize
    }
}

/// The highlighted row after Down: one row down, stopping at the last; an
/// empty list does not move.
pub open spec fn home_down(h: HomeState) -> usize {
    if h.sessions@.len() == 0 {
        h.selected
    } else if h.selected + 1 <= h.sessions@.len() - 1 {
        (h.selected + 1) as usize
    } else {
        (h.sessions@.len() - 1) as usize
    }
}

/// What a key does on the Home screen `h`. `q` quits, `n` opens the
/// new-session form, `c` opens the Workspace and asks for the canvas, Up and
/// Down move the highlight without wrapping, Enter opens the highlighted
/// session. Every other key does nothing.
pub open spec fn home_key_post(key: KeyEvent, h: HomeState, s1: Screen, q0: bool, q1: bool, cmd: Cmd) -> bool {
    if key.code == KeyCode::Char('q') {
        s1 == Screen::Home(h) && q1 && cmd is Noop
    } else if key.code == KeyCode::Char('n') {
        (s1 matches Screen::NewSession(n) && fresh_form(n)) && q1 == q0 && cmd is Noop
    } else if key.code == KeyCode::Char('c') {
        (s1 matches Screen::Workspace(ws) && fresh_workspace(ws)) && q1 == q0 && cmd is LoadCanvas
    } else if key.code == KeyCode::Up {
        s1 == Screen::Home(HomeState { selected: home_up(h), ..h }) && q1 == q0 && cmd is Noop
    } else if key.code == KeyCode::Down {
        s1 == Screen::Home(HomeState { selected: home_down(h), ..h }) && q1 == q0 && cmd is Noop
    } else if key.code == KeyCode::Enter {
        &&& s1 == Screen::Home(h)
        &&& q1 == q0
        &&& if h.selected < h.sessions@.len() {
            cmd == Cmd::OpenSession(h.sessions@[h.selected as int].id)
        } else {
            cmd is Noop
        }
    } else {
        s1 == Screen::Home(h) && q1 == q0 && cmd is Noop
    }
}

/// The Home keys on another screen: `q`, `n` and `c` act as on Home, and
/// every other key leaves everything as it was.
pub open spec fn away_home_key_post(key: KeyEvent, s0: Screen, s1: Screen, q0: bool, q1: bool, cmd: Cmd) -> bool {
    if key.code == KeyCode::Char('q') {
        s1 == s0 && q1 && cmd is Noop
    } else if key.code == KeyCode::Char('n') {
        (s1 matches Screen::NewSession(n) && fresh_form(n)) && q1 == q0 && cmd is Noop
    } else if key.code == KeyCode::Char('c') {
        (s1 matches Screen::Workspace(ws) && fresh_workspace(ws)) && q1 == q0 && cmd is LoadCanvas
    } else {
        s1 == s0 && q1 == q0 && cmd is Noop
    }
}

/// Home screen: list navigation and the transitions out of it.
pub fn on_home_key(screen: &mut Screen, should_quit: &mut bool, key: KeyEvent) -> (cmd: Cmd)
    ensures
        *old(screen) is Home ==> home_key_post(
            key,
            (*old(screen))->Home_0,
            *final(screen),
            *old(should_quit),
            *final(should_quit),
            cmd,
        ),
        !(*old(screen) is Home) ==> away_home_key_post(
            key,
            *old(screen),
            *final(screen),
            *old(should_quit),
            *final(should_quit),
            cmd,
        ),
{
    if key.code == KeyCode::Char('q') {
        *should_quit = true;
        return Cmd::Noop;
    }
    if key.code == KeyCode::Char('n') {
        *screen = Screen::NewSession(NewSessionState::default());
        return Cmd::Noop;
    }
    if key.code == KeyCode::Char('c') {
        *screen = Screen::Workspace(WorkspaceState::loading_canvas());
        return Cmd::LoadCanvas;
    }
    match screen {
        Screen::Home(h) => {
            if key.code == KeyCode::Up {
                if h.sessions.len() > 0 && h.selected > 0 {
                    h.selected = h.selected - 1;
                }
                Cmd::Noop
            } else if key.code == KeyCode::Down {
                if h.sessions.len() > 0 {
                    if h.selected < h.sessions.len() - 1 {
                        h.selected = h.selected + 1;
                    } else {
                        h.selected = h.sessions.len() - 1;
                    }
                }
                Cmd::Noop
            } else if key.code == KeyCode::Enter {
                if h.selected < h.sessions.len() {
                    Cmd::OpenSession(h.sessions[h.selected].id)
                } else {
                    Cmd::Noop
                }
            } else {
                Cmd::Noop
            }
        },
        _ => Cmd::Noop,
    }
}

/// The Home screen after its session list arrived: the list replaces the
/// old one and loading ends; a highlight past the end returns to the top.
/// A failure empties the list and raises the error as a toast.
pub open spec fn sessions_loaded_post(
    h0: HomeState,
    result: Result<Vec<SessionSummary>, String>,
    h1: HomeState,
    t0: Option<Toast>,
    t1: Option<Toast>,
) -> bool {
    &&& !h1.loading
    &&& match result {
        Ok(list) => {
            &&& h1.sessions == list
            &&& h1.selected == (if h0.selected >= list@.len() {
                0
            } else {
                h0.selected
            })
            &&& t1 == t0
        },
        Err(e) => h1.sessions@.len() == 0 && h1.selected == 0 && error_toast(t1, e@),
    }
}

/// Apply the result of fetching the session list.
pub fn apply_sessions_loaded(h: &mut HomeState, toast: &mut Option<Toast>, result: Result<Vec<SessionSummary>, String>)
    ensures
        sessions_loaded_post(*old(h), result, *final(h), *old(toast), *final(toast)),
{
    match result {
        Ok(list) => {
            h.sessions = list;
            h.loading = false;
            if h.selected >= h.sessions.len() {
                h.selected = 0;
            }
        },
        Err(e) => {
            h.sessions = Vec::new();
            h.selected = 0;
            h.loading = false;
            *toast = Some(Toast::error(e));
        },
    }
}

} // verus!
