//! State of the Workspace: the canvas and the chat, side by side.
use vstd::prelude::*;

use crate::canvas::{resolved_placement, placement, resolved_positions as resolve, Graph, Layout, NodeId, Point};
use crate::net::Session;
use crate::runtime::model::editor::{composer_lines, composer_text, Composer};
use crate::runtime::model::session::{blank_view_state, SessionState};
use crate::text::{chars_of, push_all, string_of, trim, trim_bounds};

verus! {

/// Which region of the Workspace receives keys.
#[derive(Debug, Clone, Copy, PartialEq, Eq, Structural)]
pub enum WorkspaceFocus {
    /// Canvas region: arrow keys move the selection, dragging pans.
    Canvas,
    /// Chat region: keys go to the prompt editor.
    Chat,
}

/// The focus after Tab: Canvas and Chat alternate.
pub open spec fn other_focus(f: WorkspaceFocus) -> WorkspaceFocus {
    match f {
        WorkspaceFocus::Canvas => WorkspaceFocus::Chat,
        WorkspaceFocus::Chat => WorkspaceFocus::Canvas,
    }
}

/// State of the canvas region.
#[derive(Debug)]
pub struct CanvasState {
    /// Semantic graph.
    pub graph: Graph,
    /// Presentation overlay.
    pub layout: Layout,
    /// Currently selected node, if any.
    pub selected: Option<NodeId>,
    /// `true` while the canvas is being fetched.
    pub loading: bool,
    /// Pan offset of the viewport, in graph coordinates.
    pub viewport: (i32, i32),
    /// The cell where a drag is under way.
    pub drag_origin: Option<(u16, u16)>,
}

impl CanvasState {
    /// A fresh canvas in its loading state.
    pub fn loading() -> (c: CanvasState)
        ensures
            c.graph.nodes@.len() == 0,
            c.graph.edges@.len() == 0,
            c.layout.positions@.len() == 0,
            c.selected is None,
            c.loading,
            c.viewport == (0i32, 0i32),
            c.drag_origin is None,
    {
        CanvasState {
            graph: Graph::empty(),
            layout: Layout::empty(),
            selected: None,
            loading: true,
            viewport: (0, 0),
            drag_origin: None,
        }
    }

    /// Every node resolved to a point: the layout's positions, with the
    /// nodes it misses placed on a grid in the order of their ids.
    pub fn resolved_positions(&self) -> (out: Vec<(NodeId, Point)>)
        ensures
            placement(out@) == resolved_placement(self.graph, self.layout),
    {
        resolve(&self.graph, &self.layout)
    }
}

/// The Workspace: canvas and chat together. The chat is `None` until a
/// session is attached.
#[derive(Debug)]
pub struct WorkspaceState {
    /// The canvas region.
    pub canvas: CanvasState,
    /// The chat region.
    pub chat: Option<SessionState>,
    /// The focused region.
    pub focus: WorkspaceFocus,
    /// Prompt text kept for a session that is still to be attached.
    pub pending_prompt: Option<String>,
}

impl WorkspaceState {
    /// A Workspace with no chat, its canvas loading and focused.
    pub fn loading_canvas() -> (ws: WorkspaceState)
        ensures
            ws.canvas.loading,
            ws.canvas.graph.nodes@.len() == 0,
            ws.canvas.graph.edges@.len() == 0,
            ws.canvas.selected is None,
            ws.canvas.viewport == (0i32, 0i32),
            ws.canvas.drag_origin is None,
            ws.chat is None,
            ws.focus == WorkspaceFocus::Canvas,
            ws.pending_prompt is None,
    {
        WorkspaceState {
            canvas: CanvasState::loading(),
            chat: None,
            focus: WorkspaceFocus::Canvas,
            pending_prompt: None,
        }
    }

    /// A Workspace whose chat is `s`, focused on the chat, its canvas loading.
    pub fn with_session(s: SessionState) -> (ws: WorkspaceState)
        ensures
            ws.canvas.loading,
            ws.canvas.graph.nodes@.len() == 0,
            ws.chat == Some(s),
            ws.focus == WorkspaceFocus::Chat,
            ws.pending_prompt is None,
    {
        WorkspaceState {
            canvas: CanvasState::loading(),
            chat: Some(s),
            focus: WorkspaceFocus::Chat,
            pending_prompt: None,
        }
    }

    /// Move the focus to the other region.
    pub fn cycle_focus(&mut self)
        ensures
            *final(self) == (WorkspaceState { focus: other_focus(old(self).focus), ..*old(self) }),
    {
        self.focus = match self.focus {
            WorkspaceFocus::Canvas => WorkspaceFocus::Chat,
            WorkspaceFocus::Chat => WorkspaceFocus::Canvas,
        };
    }
}

/// Attach a hydrated session as the Workspace's chat, dropping any pending
/// prompt. The focus stays where it was.
pub fn attach_session(ws: &mut WorkspaceState, session: Session)
    ensures
        final(ws).chat matches Some(s) && s.session == Some(session) && blank_view_state(s),
        final(ws).pending_prompt is None,
        final(ws).canvas == old(ws).canvas,
        final(ws).focus == old(ws).focus,
{
    ws.chat = Some(SessionState::new(session));
    ws.pending_prompt = None;
}

/// The text `drain_prompt` hands back for an editor holding `typed` and a
/// pending prompt `pending`.
pub open spec fn drained_text(typed: Seq<char>, pending: Option<String>) -> Seq<char> {
    match pending {
        Some(p) => if trim(typed).len() > 0 {
            typed + seq!['\n'] + p@
        } else {
            typed + p@
        },
        None => typed,
    }
}

/// Take the pending prompt (if any) and the editor's text, and return them
/// merged; the editor's text is cut and the pending slot emptied. The
/// editor is left empty when its text fits the editor's whole-text jump (at
/// most 65536 lines, the last of at most 65535 characters).
pub fn drain_prompt(ws: &mut WorkspaceState, textarea: &mut Composer) -> (text: String)
    ensures
        text@ == drained_text(composer_text(*old(textarea)), old(ws).pending_prompt),
        1 <= composer_lines(*old(textarea)).len() <= 65536 && composer_lines(*old(textarea)).last().len() <= 65535
            ==> composer_lines(*final(textarea)) == seq![Seq::<char>::empty()],
        final(ws).pending_prompt is None,
        final(ws).canvas == old(ws).canvas,
        final(ws).chat == old(ws).chat,
        final(ws).focus == old(ws).focus,
{
    let mut text = textarea.text_chars();
    textarea.select_all();
    textarea.cut();
    let pending = ws.pending_prompt.take();
    match pending {
        Some(p) => {
            let (a, b) = trim_bounds(&text);
            if a < b {
                text.push('\n');
            }
            let pc = chars_of(p.as_str());
            push_all(&mut text, &pc);
        },
        None => {},
    }
    string_of(&text)
}

} // verus!
