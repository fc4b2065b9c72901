//! The application model: which screen is showing, each screen's own state,
//! and the messages and commands that drive it.
pub mod editor;
pub mod events;
pub mod home;
pub mod new_session;
pub mod session;
pub mod workspace;

use vstd::prelude::*;

pub use crate::net::CreateError;
pub use crate::runtime::model::home::HomeState;
pub use crate::runtime::model::new_session::{ModelPicker, NewSessionField, NewSessionState};
pub use crate::runtime::model::session::{Overlay, SessionState, StreamingState, ToolCallView};
pub use crate::runtime::model::workspace::{
    attach_session, drain_prompt, CanvasState, WorkspaceFocus, WorkspaceState,
};

use crate::canvas::{Graph, Layout};
use crate::net::{CreateSessionRequest, ModelEntry, Session, SessionSummary};
use crate::protocol::{ChatRequest, JsonValue};
use crate::runtime::model::editor::now;
use crate::runtime::model::events::{KeyEvent, MouseEvent};

verus! {

/// The screens the TUI can show; each owns its state.
#[derive(Debug)]
pub enum Screen {
    /// Session list and launcher.
    Home(HomeState),
    /// New-session form.
    NewSession(NewSessionState),
    /// A chat session.
    Session(SessionState),
    /// Canvas and chat together.
    Workspace(WorkspaceState),
}

/// Severity of a toast.
#[derive(Debug, Clone, Copy, PartialEq, Eq, Structural)]
pub enum ToastKind {
    Info,
    Error,
}

/// A transient status message.
#[derive(Debug)]
pub struct Toast {
    /// Message body.
    pub text: String,
    /// Info or error.
    pub kind: ToastKind,
    /// When the toast was raised, for its fade-out.
    pub started_at: std::time::Instant,
}

impl Toast {
    /// An error toast.
    pub fn error(text: String) -> (t: Toast)
        ensures
            t.text == text,
            t.kind == ToastKind::Error,
    {
        Toast { text, kind: ToastKind::Error, started_at: now() }
    }

    /// An info toast.
    pub fn info(text: String) -> (t: Toast)
        ensures
            t.text == text,
            t.kind == ToastKind::Info,
    {
        Toast { text, kind: ToastKind::Info, started_at: now() }
    }
}

/// The whole application state.
#[derive(Debug)]
pub struct App {
    /// The screen being shown.
    pub screen: Screen,
    /// Transient status message, if any.
    pub toast: Option<Toast>,
    /// Set once the user has asked to quit.
    pub should_quit: bool,
}

impl App {
    /// A fresh app on a loading Home screen.
    pub fn new() -> (app: App)
        ensures
            app.screen matches Screen::Home(h) && h.loading && h.sessions@.len() == 0 && h.selected == 0,
            app.toast is None,
            !app.should_quit,
    {
        App { screen: Screen::Home(HomeState::loading()), toast: None, should_quit: false }
    }
}

impl Default for App {
    fn default() -> (app: App)
        ensures
            app.screen matches Screen::Home(h) && h.loading && h.sessions@.len() == 0 && h.selected == 0,
            app.toast is None,
            !app.should_quit,
    {
        App::new()
    }
}

/// A loaded canvas: the graph and its layout as the server sent them.
#[derive(Debug, Clone, PartialEq)]
pub struct CanvasData {
    pub graph: Graph,
    pub layout: Layout,
}

/// The events of a streamed turn, as the model receives them.
#[derive(Debug)]
pub enum StreamMsg {
    /// The turn started; carries the assistant message id.
    Started(u128),
    /// A chunk of assistant text.
    Delta(String),
    /// The model is calling a tool.
    ToolInput { id: String, name: String, input: JsonValue },
    /// A tool call produced output.
    ToolOutput { id: String, output: JsonValue },
    /// The turn finished.
    Finished { duration_ms: u64 },
    /// The turn failed.
    Failed(String),
}

/// Messages that drive the app through `update`.
#[derive(Debug)]
pub enum Msg {
    Key(KeyEvent),
    Mouse(MouseEvent),
    Tick,
    SessionsLoaded(Result<Vec<SessionSummary>, String>),
    ModelsLoaded(Result<Vec<ModelEntry>, String>),
    SessionCreated(Result<Session, CreateError>),
    SessionOpened(Result<Session, String>),
    Stream(StreamMsg),
    CanvasLoaded(Result<CanvasData, String>),
}

/// Side effects for the runtime to perform after an `update`.
#[derive(Debug)]
pub enum Cmd {
    /// Nothing.
    Noop,
    /// Fetch the session list.
    LoadSessions,
    /// Fetch one session with its history.
    OpenSession(u128),
    /// Create a session.
    CreateSession(CreateSessionRequest),
    /// Start a chat turn.
    StartChat(ChatRequest),
    /// Fetch the canvas graph and layout.
    LoadCanvas,
}

} // verus!
