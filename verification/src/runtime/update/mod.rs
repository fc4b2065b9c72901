//! The pure, synchronous `update`: it folds a message into the model and
//! names the side effect for the runtime to run next. It performs no I/O.
pub mod home;
pub mod new_session;
pub mod session;
pub mod stream;
pub mod workspace;

use vstd::prelude::*;

pub use crate::runtime::update::workspace::hit_test;
use crate::net::{CreateError, ModelEntry, Session, SessionSummary};
use crate::runtime::model::events::{KeyEvent, MouseEvent};
use crate::runtime::model::session::{blank_view_state, SessionState};
use crate::runtime::model::workspace::{WorkspaceFocus, WorkspaceState};
use crate::runtime::model::{App, CanvasData, Cmd, Msg, Screen, StreamMsg, Toast};
use crate::runtime::update::home::{apply_sessions_loaded, home_key_post, on_home_key, sessions_loaded_post};
use crate::runtime::update::new_session::{
    apply_create_refused, apply_models_loaded, create_refused_post, models_loaded_post, new_session_key_post,
    on_new_session_key,
};
use crate::runtime::update::session::{
    adopt_created, error_toast, on_session_key, session_created_post, session_key_post,
};
use crate::runtime::update::stream::{apply_stream_event, stream_post};
use crate::runtime::update::workspace::{
    adopt_created_session, apply_canvas_loaded, canvas_loaded_post, canvas_mouse_post, on_workspace_key,
    on_workspace_mouse, workspace_created_post, workspace_key_post,
};

verus! {

/// A key on the app `a0`: it goes to the handler of the screen showing.
pub open spec fn key_post(a0: App, key: KeyEvent, a1: App, cmd: Cmd) -> bool {
    match a0.screen {
        Screen::Home(h) => home_key_post(key, h, a1.screen, a0.should_quit, a1.should_quit, cmd) && a1.toast
            == a0.toast,
        Screen::NewSession(n) => new_session_key_post(key, n, a1.screen, a0.toast, a1.toast, cmd)
            && a1.should_quit == a0.should_quit,
        Screen::Session(s) => a1.screen matches Screen::Session(s1) && session_key_post(
            key,
            s,
            s1,
            a0.should_quit,
            a1.should_quit,
            a0.toast,
            a1.toast,
            cmd,
        ),
        Screen::Workspace(ws) => workspace_key_post(key, ws, a1.screen, a0.toast, a1.toast, cmd)
            && a1.should_quit == a0.should_quit,
    }
}

/// A mouse event: the Workspace's canvas handles it; every other screen
/// ignores it.
pub open spec fn mouse_post(a0: App, m: MouseEvent, a1: App) -> bool {
    match a0.screen {
        Screen::Workspace(ws) => {
            &&& a1.screen matches Screen::Workspace(w1)
            &&& w1 == (WorkspaceState { canvas: w1.canvas, ..ws })
            &&& canvas_mouse_post(ws.canvas, m, w1.canvas)
            &&& a1.toast == a0.toast
            &&& a1.should_quit == a0.should_quit
        },
        _ => a1 == a0,
    }
}

/// The session list arrived: the Home screen takes it; elsewhere it is stale.
pub open spec fn sessions_arrived_post(a0: App, r: Result<Vec<SessionSummary>, String>, a1: App) -> bool {
    match a0.screen {
        Screen::Home(h) => a1.screen matches Screen::Home(h1) && sessions_loaded_post(h, r, h1, a0.toast, a1.toast)
            && a1.should_quit == a0.should_quit,
        _ => a1 == a0,
    }
}

/// The model registry answered: the new-session form takes it; elsewhere it is stale.
pub open spec fn models_arrived_post(a0: App, r: Result<Vec<ModelEntry>, String>, a1: App) -> bool {
    match a0.screen {
        Screen::NewSession(n) => a1.screen matches Screen::NewSession(n1) && models_loaded_post(n, r, n1) && a1.toast
            == a0.toast && a1.should_quit == a0.should_quit,
        _ => a1 == a0,
    }
}

/// A session creation finished. From the form, a new session opens the
/// Workspace with it as the chat (focused) and asks for the canvas, and a
/// refusal stays on the form. The session screen and the Workspace adopt it
/// as their own contracts say; Home ignores it.
pub open spec fn created_post(a0: App, r: Result<Session, CreateError>, a1: App, cmd: Cmd) -> bool {
    &&& a1.should_quit == a0.should_quit
    &&& match a0.screen {
        Screen::NewSession(n) => match r {
            Ok(session) => {
                &&& a1.screen matches Screen::Workspace(ws)
                &&& ws.chat matches Some(s) && s.session == Some(session) && blank_view_state(s)
                &&& ws.focus == WorkspaceFocus::Chat
                &&& ws.canvas.loading && ws.canvas.graph.nodes@.len() == 0
                &&& ws.pending_prompt is None
                &&& a1.toast == a0.toast
                &&& cmd is LoadCanvas
            },
            Err(e) => a1.screen matches Screen::NewSession(n1) && create_refused_post(n, e, n1) && a1.toast
                == a0.toast && cmd is Noop,
        },
        Screen::Session(s) => a1.screen matches Screen::Session(s1) && session_created_post(
            s,
            r,
            s1,
            a0.toast,
            a1.toast,
            cmd,
        ),
        Screen::Workspace(ws) => a1.screen matches Screen::Workspace(w1) && workspace_created_post(
            ws,
            r,
            w1,
            a0.toast,
            a1.toast,
            cmd,
        ),
        Screen::Home(_) => a1 == a0 && cmd is Noop,
    }
}

/// A session was opened: it shows on the session screen. A failure keeps
/// the screen and raises the error.
pub open spec fn opened_post(a0: App, r: Result<Session, String>, a1: App) -> bool {
    &&& a1.should_quit == a0.should_quit
    &&& match r {
        Ok(session) => a1.screen matches Screen::Session(s) && s.session == Some(session) && blank_view_state(s)
            && a1.toast == a0.toast,
        Err(e) => a1.screen == a0.screen && error_toast(a1.toast, e@),
    }
}

/// A streamed event folded into the session `s0`; a toast it raises replaces `t0`.
pub open spec fn stream_step(s0: SessionState, ev: StreamMsg, s1: SessionState, t0: Option<Toast>, t1: Option<Toast>) -> bool {
    exists|t: Option<Toast>|
        #[trigger] stream_post(s0, ev, s1, t) && t1 == (if t is Some {
            t
        } else {
            t0
        })
}

/// A streamed event: it lands in the session screen, or in the Workspace's
/// chat when there is one; elsewhere it is dropped.
pub open spec fn streamed_post(a0: App, ev: StreamMsg, a1: App) -> bool {
    match a0.screen {
        Screen::Session(s) => a1.screen matches Screen::Session(s1) && stream_step(s, ev, s1, a0.toast, a1.toast)
            && a1.should_quit == a0.should_quit,
        Screen::Workspace(ws) => match ws.chat {
            Some(s) => {
                &&& a1.screen matches Screen::Workspace(w1)
                &&& w1 == (WorkspaceState { chat: w1.chat, ..ws })
                &&& w1.chat matches Some(s1) && stream_step(s, ev, s1, a0.toast, a1.toast)
                &&& a1.should_quit == a0.should_quit
            },
            None => a1 == a0,
        },
        _ => a1 == a0,
    }
}

/// The canvas arrived: the Workspace takes it; elsewhere it is stale.
pub open spec fn canvas_arrived_post(a0: App, r: Result<CanvasData, String>, a1: App) -> bool {
    match a0.screen {
        Screen::Workspace(ws) => {
            &&& a1.screen matches Screen::Workspace(w1)
            &&& w1 == (WorkspaceState { canvas: w1.canvas, ..ws })
            &&& canvas_loaded_post(ws.canvas, r, w1.canvas, a0.toast, a1.toast)
            &&& a1.should_quit == a0.should_quit
        },
        _ => a1 == a0,
    }
}

/// What `update` does with each message.
pub open spec fn update_post(a0: App, msg: Msg, a1: App, cmd: Cmd) -> bool {
    match msg {
        Msg::Key(key) => key_post(a0, key, a1, cmd),
        Msg::Mouse(m) => mouse_post(a0, m, a1) && cmd is Noop,
        Msg::Tick => a1 == a0 && cmd is Noop,
        Msg::SessionsLoaded(r) => sessions_arrived_post(a0, r, a1) && cmd is Noop,
        Msg::ModelsLoaded(r) => models_arrived_post(a0, r, a1) && cmd is Noop,
        Msg::SessionCreated(r) => created_post(a0, r, a1, cmd),
        Msg::SessionOpened(r) => opened_post(a0, r, a1) && cmd is Noop,
        Msg::Stream(ev) => streamed_post(a0, ev, a1) && cmd is Noop,
        Msg::CanvasLoaded(r) => canvas_arrived_post(a0, r, a1) && cmd is Noop,
    }
}

/// Apply a message to the model, returning the side effect to run next.
pub fn update(app: &mut App, msg: Msg) -> (cmd: Cmd)
    ensures
        update_post(*old(app), msg, *final(app), cmd),
{
    match msg {
        Msg::Key(key) => match &mut app.screen {
            Screen::Session(s) => on_session_key(s, &mut app.should_quit, &mut app.toast, key),
            Screen::Home(_) => on_home_key(&mut app.screen, &mut app.should_quit, key),
            Screen::NewSession(_) => on_new_session_key(&mut app.screen, &mut app.toast, key),
            Screen::Workspace(_) => on_workspace_key(&mut app.screen, &mut app.toast, key),
        },
        Msg::Mouse(m) => {
            if matches!(app.screen, Screen::Workspace(_)) {
                on_workspace_mouse(&mut app.screen, m)
            } else {
                Cmd::Noop
            }
        },
        Msg::Tick => Cmd::Noop,
        Msg::SessionsLoaded(result) => {
            match &mut app.screen {
                Screen::Home(h) => apply_sessions_loaded(h, &mut app.toast, result),
                _ => {},
            }
            Cmd::Noop
        },
        Msg::ModelsLoaded(result) => {
            match &mut app.screen {
                Screen::NewSession(n) => apply_models_loaded(n, result),
                _ => {},
            }
            Cmd::Noop
        },
        Msg::SessionCreated(result) => {
            if matches!(app.screen, Screen::NewSession(_)) {
                match result {
                    Ok(session) => {
                        app.screen = Screen::Workspace(WorkspaceState::with_session(SessionState::new(session)));
                        Cmd::LoadCanvas
                    },
                    Err(e) => {
                        match &mut app.screen {
                            Screen::NewSession(n) => apply_create_refused(n, e),
                            _ => {},
                        }
                        Cmd::Noop
                    },
                }
            } else {
                match &mut app.screen {
                    Screen::Session(s) => adopt_created(s, &mut app.toast, result),
                    Screen::Workspace(ws) => adopt_created_session(ws, &mut app.toast, result),
                    _ => Cmd::Noop,
                }
            }
        },
        Msg::SessionOpened(result) => {
            match result {
                Ok(session) => {
                    app.screen = Screen::Session(SessionState::new(session));
                },
                Err(e) => {
                    app.toast = Some(Toast::error(e));
                },
            }
            Cmd::Noop
        },
        Msg::Stream(ev) => {
            match &mut app.screen {
                Screen::Session(s) => {
                    let t = apply_stream_event(s, ev);
                    if t.is_some() {
                        app.toast = t;
                    }
                },
                Screen::Workspace(ws) => match &mut ws.chat {
                    Some(s) => {
                        let t = apply_stream_event(s, ev);
                        if t.is_some() {
                            app.toast = t;
                        }
                    },
                    None => {},
                },
                _ => {},
            }
            Cmd::Noop
        },
        Msg::CanvasLoaded(result) => {
            match &mut app.screen {
                Screen::Workspace(ws) => apply_canvas_loaded(ws, &mut app.toast, result),
                _ => {},
            }
            Cmd::Noop
        },
    }
}

} // verus!
