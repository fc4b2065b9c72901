//! State of the chat session screen.
use vstd::prelude::*;

use crate::net::Session;
use crate::protocol::{JsonValue, JsonView};
use crate::runtime::model::editor::{composer_lines, now, Composer};

verus! {

/// An overlay panel layered over the session view.
#[derive(Debug, Clone, Copy, PartialEq, Eq, Structural)]
pub enum Overlay {
    Closed,
    Tools,
    Skills,
}

/// A tool call seen while a turn streams in.
#[derive(Debug, PartialEq)]
pub struct ToolCallView {
    /// Stable id of the call.
    pub id: String,
    /// Tool name.
    pub name: String,
    /// JSON arguments.
    pub input: JsonValue,
    /// JSON output, once the call finishes.
    pub output: Option<JsonValue>,
}

/// The mathematical value of a [`ToolCallView`].
pub struct ToolCallSpec {
    pub id: Seq<char>,
    pub name: Seq<char>,
    pub input: JsonView,
    pub output: Option<JsonView>,
}

impl View for ToolCallView {
    type V = ToolCallSpec;

    open spec fn view(&self) -> ToolCallSpec {
        ToolCallSpec {
            id: self.id@,
            name: self.name@,
            input: self.input@,
            output: match self.output {
                Some(o) => Some(o@),
                None => None,
            },
        }
    }
}

pub open spec fn tool_calls_view(s: Seq<ToolCallView>) -> Seq<ToolCallSpec> {
    s.map_values(|c: ToolCallView| c@)
}

/// State of an in-flight assistant turn.
#[derive(Debug)]
pub struct StreamingState {
    /// Id of the assistant message being produced.
    pub assistant_id: u128,
    /// Accumulated assistant text so far.
    pub buffer: String,
    /// Tool calls seen during this turn, in arrival order.
    pub tool_calls: Vec<ToolCallView>,
    /// When the turn started.
    pub started_at: std::time::Instant,
}

impl StreamingState {
    /// Begin tracking a new assistant turn.
    pub fn new(assistant_id: u128) -> (st: StreamingState)
        ensures
            st.assistant_id == assistant_id,
            st.buffer@.len() == 0,
            st.tool_calls@.len() == 0,
    {
        StreamingState { assistant_id, buffer: String::new(), tool_calls: Vec::new(), started_at: now() }
    }
}

/// A turn that has only just begun: placeholder id, nothing received.
pub open spec fn fresh_turn(st: StreamingState) -> bool {
    st.assistant_id == 0 && st.buffer@.len() == 0 && st.tool_calls@.len() == 0
}

/// State of the session screen. `session` is `None` until the first message
/// creates one; `pending_chat` then holds that message, and `creating` is
/// set while the creation is in flight.
#[derive(Debug)]
pub struct SessionState {
    /// The hydrated session, including history.
    pub session: Option<Session>,
    /// The message composer.
    pub input: Composer,
    /// First message of a not-yet-created session.
    pub pending_chat: Option<String>,
    /// `true` while a session is being created for `pending_chat`.
    pub creating: bool,
    /// When `creating` was set.
    pub creation_started_at: Option<std::time::Instant>,
    /// Vertical scroll offset of the transcript, in wrapped lines.
    pub scroll: u16,
    /// When `true`, the transcript stays pinned to its latest line.
    pub follow: bool,
    /// Largest valid `scroll` for the last rendered frame.
    pub max_scroll: u16,
    /// Transcript viewport height of the last rendered frame.
    pub viewport: u16,
    /// `Some` while an assistant turn is in flight.
    pub streaming: Option<StreamingState>,
    /// Which overlay (if any) is showing.
    pub overlay: Overlay,
}

/// A session screen as it is first shown: nothing typed, nothing scrolled,
/// following the latest line, no turn and no overlay.
pub open spec fn blank_view_state(s: SessionState) -> bool {
    &&& composer_lines(s.input) == seq![Seq::<char>::empty()]
    &&& s.pending_chat is None
    &&& !s.creating
    &&& s.creation_started_at is None
    &&& s.scroll == 0
    &&& s.follow
    &&& s.max_scroll == 0
    &&& s.viewport == 0
    &&& s.streaming is None
    &&& s.overlay == Overlay::Closed
}

impl SessionState {
    /// A blank session screen with no session yet.
    pub fn empty() -> (s: SessionState)
        ensures
            s.session is None,
            blank_view_state(s),
    {
        SessionState {
            session: None,
            input: Composer::new(),
            pending_chat: None,
            creating: false,
            creation_started_at: None,
            scroll: 0,
            follow: true,
            max_scroll: 0,
            viewport: 0,
            streaming: None,
            overlay: Overlay::Closed,
        }
    }

    /// A session screen for an already-hydrated session.
    pub fn new(session: Session) -> (s: SessionState)
        ensures
            s.session == Some(session),
            blank_view_state(s),
    {
        let mut s = SessionState::empty();
        s.session = Some(session);
        s
    }
}

} // verus!
