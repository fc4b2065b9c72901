//! The Workspace: keys and the mouse on its canvas and chat regions, the
//! arrival of the canvas, and submitting from the chat.
use vstd::prelude::*;

pub use crate::canvas::Direction;
use crate::canvas::{
    hit_test_graph, nearest_choice, nearest_in_direction, opt_ref_id_view, opt_id_view, resolved_placement,
    sat_add, saturating_add_i32, saturating_sub_i32, topmost_hit, find_position, lemma_placement_lookup,
    NodeId, Point,
};
use crate::net::{CreateError, Session};
use crate::protocol::{messages_view, ChatRequest};
use crate::runtime::model::events::{KeyCode, KeyEvent, MouseButton, MouseEvent, MouseEventKind};
use crate::runtime::model::home::HomeState;
use crate::runtime::model::session::{blank_view_state, fresh_turn, Overlay, SessionState, StreamingState};
use crate::runtime::model::workspace::{other_focus, CanvasState, WorkspaceFocus, WorkspaceState};
use crate::runtime::model::{CanvasData, Cmd, Screen, Toast};
use crate::runtime::update::home::loading_home;
use crate::runtime::update::session::{
    appended, chat_key_post, chat_request, chat_request_for, error_toast, on_chat_key, user_message,
    user_message_of,
};
use crate::text::{chars_of, push_all, string_of, trim, trimmed};

verus! {

/// Pan stride, in cells, of one scroll-wheel tick.
pub const SCROLL_PAN: i32 = 3;

/// The direction an arrow key points in.
pub open spec fn key_direction(code: KeyCode) -> Option<Direction> {
    match code {
        KeyCode::Up => Some(Direction::Up),
        KeyCode::Down => Some(Direction::Down),
        KeyCode::Left => Some(Direction::Left),
        KeyCode::Right => Some(Direction::Right),
        _ => None,
    }
}

impl Direction {
    /// The direction of an arrow key; `None` for any other key.
    pub fn from_key(code: KeyCode) -> (d: Option<Direction>)
        ensures
            d == key_direction(code),
    {
        match code {
            KeyCode::Up => Some(Direction::Up),
            KeyCode::Down => Some(Direction::Down),
            KeyCode::Left => Some(Direction::Left),
            KeyCode::Right => Some(Direction::Right),
            _ => None,
        }
    }
}

/// The id of the topmost node under the view cell `(col, row)` of the canvas.
pub fn hit_test(c: &CanvasState, col: u16, row: u16) -> (r: Option<NodeId>)
    ensures
        topmost_hit(c.graph, c.layout, c.viewport, col, row, r),
{
    hit_test_graph(&c.graph, &c.layout, c.viewport, col, row)
}

/// Where a move of the selection starts: the selected node's point, or the
/// origin when nothing placed is selected.
pub open spec fn move_origin(c: CanvasState) -> Point {
    let pl = resolved_placement(c.graph, c.layout);
    match c.selected {
        Some(id) => if pl.dom().contains(id.0@) {
            pl[id.0@]
        } else {
            Point { x: 0, y: 0 }
        },
        None => Point { x: 0, y: 0 },
    }
}

/// `sel` is the selection after moving in `dir` on the canvas `c`: a node
/// nearest to the start in that direction (other than the selected one), or
/// the old selection when no node lies that way.
pub open spec fn selection_after_move(c: CanvasState, dir: Direction, sel: Option<NodeId>) -> bool {
    let pl = resolved_placement(c.graph, c.layout);
    let origin = move_origin(c);
    let ex = opt_id_view(c.selected);
    ||| nearest_choice(pl, origin, dir, ex, None) && sel == c.selected
    ||| sel is Some && nearest_choice(pl, origin, dir, ex, sel)
}

/// Move the selection to the nearest node in `dir`.
pub fn move_selection(c: &mut CanvasState, dir: Direction)
    ensures
        *final(c) == (CanvasState { selected: final(c).selected, ..*old(c) }),
        selection_after_move(*old(c), dir, final(c).selected),
{
    let positions = c.resolved_positions();
    let origin = match &c.selected {
        Some(id) => {
            let key = chars_of(id.as_str());
            let found = find_position(&positions, &key);
            proof {
                lemma_placement_lookup(positions@, key@);
            }
            match found {
                Some(j) => positions[j].1,
                None => Point { x: 0, y: 0 },
            }
        },
        None => Point { x: 0, y: 0 },
    };
    assert(origin == move_origin(*c));
    let exclude = c.selected.as_ref();
    assert(opt_ref_id_view(exclude) == opt_id_view(c.selected));
    let next = nearest_in_direction(&origin, dir, &positions, exclude);
    match next {
        Some(id) => {
            c.selected = Some(id);
        },
        None => {},
    }
}

/// What a mouse event does to the canvas. A left press selects the topmost
/// node under the pointer (keeping the selection when there is none) and
/// starts a drag; dragging pans the view by the pointer's movement; the
/// release ends the drag; the wheel pans by three cells. Other events do nothing.
pub open spec fn canvas_mouse_post(c0: CanvasState, m: MouseEvent, c1: CanvasState) -> bool {
    match m.kind {
        MouseEventKind::Down(MouseButton::Left) => {
            &&& c1 == (CanvasState { selected: c1.selected, drag_origin: Some((m.column, m.row)), ..c0 })
            &&& ((topmost_hit(c0.graph, c0.layout, c0.viewport, m.column, m.row, None) && c1.selected
                == c0.selected) || (c1.selected is Some && topmost_hit(
                c0.graph,
                c0.layout,
                c0.viewport,
                m.column,
                m.row,
                c1.selected,
            )))
        },
        MouseEventKind::Drag(MouseButton::Left) => match c0.drag_origin {
            Some((ox, oy)) => c1 == (CanvasState {
                viewport: (sat_add(c0.viewport.0 as int, m.column - ox), sat_add(c0.viewport.1 as int, m.row - oy)),
                drag_origin: Some((m.column, m.row)),
                ..c0
            }),
            None => c1 == c0,
        },
        MouseEventKind::Up(MouseButton::Left) => c1 == (CanvasState { drag_origin: None, ..c0 }),
        MouseEventKind::ScrollUp => c1 == (CanvasState {
            viewport: (c0.viewport.0, sat_add(c0.viewport.1 as int, SCROLL_PAN as int)),
            ..c0
        }),
        MouseEventKind::ScrollDown => c1 == (CanvasState {
            viewport: (c0.viewport.0, sat_add(c0.viewport.1 as int, -SCROLL_PAN)),
            ..c0
        }),
        MouseEventKind::ScrollLeft => c1 == (CanvasState {
            viewport: (sat_add(c0.viewport.0 as int, SCROLL_PAN as int), c0.viewport.1),
            ..c0
        }),
        MouseEventKind::ScrollRight => c1 == (CanvasState {
            viewport: (sat_add(c0.viewport.0 as int, -SCROLL_PAN), c0.viewport.1),
            ..c0
        }),
        _ => c1 == c0,
    }
}

/// Handle a mouse event on the canvas region.
pub fn on_canvas_mouse(c: &mut CanvasState, mouse: MouseEvent) -> (cmd: Cmd)
    ensures
        canvas_mouse_post(*old(c), mouse, *final(c)),
        cmd is Noop,
{
    match mouse.kind {
        MouseEventKind::Down(MouseButton::Left) => {
            let hit = hit_test(c, mouse.column, mouse.row);
            match hit {
                Some(id) => {
                    c.selected = Some(id);
                },
                None => {},
            }
            c.drag_origin = Some((mouse.column, mouse.row));
        },
        MouseEventKind::Drag(MouseButton::Left) => {
            match c.drag_origin {
                Some((ox, oy)) => {
                    let dx = mouse.column as i32 - ox as i32;
                    let dy = mouse.row as i32 - oy as i32;
                    c.viewport = (saturating_add_i32(c.viewport.0, dx), saturating_add_i32(c.viewport.1, dy));
                    c.drag_origin = Some((mouse.column, mouse.row));
                },
                None => {},
            }
        },
        MouseEventKind::Up(MouseButton::Left) => {
            c.drag_origin = None;
        },
        MouseEventKind::ScrollUp => {
            c.viewport = (c.viewport.0, saturating_add_i32(c.viewport.1, SCROLL_PAN));
        },
        MouseEventKind::ScrollDown => {
            c.viewport = (c.viewport.0, saturating_sub_i32(c.viewport.1, SCROLL_PAN));
        },
        MouseEventKind::ScrollLeft => {
            c.viewport = (saturating_add_i32(c.viewport.0, SCROLL_PAN), c.viewport.1);
        },
        MouseEventKind::ScrollRight => {
            c.viewport = (saturating_sub_i32(c.viewport.0, SCROLL_PAN), c.viewport.1);
        },
        _ => {},
    }
    Cmd::Noop
}

/// Handle a mouse event on the Workspace: it lands on the canvas region.
pub fn on_workspace_mouse(screen: &mut Screen, mouse: MouseEvent) -> (cmd: Cmd)
    ensures
        *old(screen) is Workspace ==> (*final(screen) matches Screen::Workspace(w1) && w1 == (WorkspaceState {
            canvas: w1.canvas,
            ..(*old(screen))->Workspace_0
        }) && canvas_mouse_post((*old(screen))->Workspace_0.canvas, mouse, w1.canvas)),
        !(*old(screen) is Workspace) ==> *final(screen) == *old(screen),
        cmd is Noop,
{
    match screen {
        Screen::Workspace(ws) => on_canvas_mouse(&mut ws.canvas, mouse),
        _ => Cmd::Noop,
    }
}

/// The canvas after its fetch finished: loading ends either way. A loaded
/// canvas replaces graph and layout and clears the selection; a failure
/// leaves them and raises an error toast.
pub open spec fn canvas_loaded_post(
    c0: CanvasState,
    result: Result<CanvasData, String>,
    c1: CanvasState,
    t0: Option<Toast>,
    t1: Option<Toast>,
) -> bool {
    match result {
        Ok(data) => c1 == (CanvasState {
            graph: data.graph,
            layout: data.layout,
            selected: None,
            loading: false,
            ..c0
        }) && t1 == t0,
        Err(e) => c1 == (CanvasState { loading: false, ..c0 }) && error_toast(t1, "canvas load failed: "@ + e@),
    }
}

/// Apply a finished canvas fetch to the Workspace.
pub fn apply_canvas_loaded(ws: &mut WorkspaceState, toast: &mut Option<Toast>, result: Result<CanvasData, String>)
    ensures
        *final(ws) == (WorkspaceState { canvas: final(ws).canvas, ..*old(ws) }),
        canvas_loaded_post(old(ws).canvas, result, final(ws).canvas, *old(toast), *final(toast)),
{
    ws.canvas.loading = false;
    match result {
        Ok(data) => {
            ws.canvas.graph = data.graph;
            ws.canvas.layout = data.layout;
            ws.canvas.selected = None;
        },
        Err(e) => {
            let mut msg = chars_of("canvas load failed: ");
            let ec = chars_of(e.as_str());
            push_all(&mut msg, &ec);
            *toast = Some(Toast::error(string_of(&msg)));
        },
    }
}

/// What a key does on the Workspace `ws`. Esc first closes an overlay open
/// in the focused chat, and otherwise goes back to a loading Home screen and
/// asks for the session list. Tab moves the focus. An arrow key moves the
/// canvas selection when the canvas has focus. Every other key goes to the
/// chat when there is one (wherever the focus is), and is dropped otherwise.
pub open spec fn workspace_key_post(
    key: KeyEvent,
    ws: WorkspaceState,
    s1: Screen,
    t0: Option<Toast>,
    t1: Option<Toast>,
    cmd: Cmd,
) -> bool {
    if key.code == KeyCode::Esc {
        if ws.focus == WorkspaceFocus::Chat && ws.chat is Some && ws.chat->0.overlay != Overlay::Closed {
            &&& s1 == Screen::Workspace(
                WorkspaceState { chat: Some(SessionState { overlay: Overlay::Closed, ..ws.chat->0 }), ..ws },
            )
            &&& t1 == t0
            &&& cmd is Noop
        } else {
            loading_home(s1) && t1 == t0 && cmd is LoadSessions
        }
    } else if key.code == KeyCode::Tab {
        s1 == Screen::Workspace(WorkspaceState { focus: other_focus(ws.focus), ..ws }) && t1 == t0 && cmd is Noop
    } else if key_direction(key.code) is Some && ws.focus == WorkspaceFocus::Canvas {
        &&& s1 matches Screen::Workspace(w1)
        &&& w1 == (WorkspaceState { canvas: CanvasState { selected: w1.canvas.selected, ..ws.canvas }, ..ws })
        &&& selection_after_move(ws.canvas, key_direction(key.code)->0, w1.canvas.selected)
        &&& t1 == t0
        &&& cmd is Noop
    } else {
        match ws.chat {
            Some(s) => {
                &&& s1 matches Screen::Workspace(w1)
                &&& w1 == (WorkspaceState { chat: w1.chat, ..ws })
                &&& w1.chat matches Some(s2) && chat_key_post(key, s, s2, t0, t1, cmd)
            },
            None => s1 == Screen::Workspace(ws) && t1 == t0 && cmd is Noop,
        }
    }
}

/// Handle a key on the Workspace.
/// On another screen, every key leaves everything as it was.
pub fn on_workspace_key(screen: &mut Screen, toast: &mut Option<Toast>, key: KeyEvent) -> (cmd: Cmd)
    ensures
        *old(screen) is Workspace ==> workspace_key_post(
            key,
            (*old(screen))->Workspace_0,
            *final(screen),
            *old(toast),
            *final(toast),
            cmd,
        ),
        !(*old(screen) is Workspace) ==> *final(screen) == *old(screen) && *final(toast) == *old(toast) && cmd is Noop,
{
    if !matches!(screen, Screen::Workspace(_)) {
        return Cmd::Noop;
    }
    if key.code == KeyCode::Esc {
        let close = match screen {
            Screen::Workspace(ws) => ws.focus == WorkspaceFocus::Chat && match &ws.chat {
                Some(s) => s.overlay != Overlay::Closed,
                None => false,
            },
            _ => false,
        };
        if close {
            // The first Esc closes the chat's overlay.
            match screen {
                Screen::Workspace(ws) => match &mut ws.chat {
                    Some(s) => {
                        s.overlay = Overlay::Closed;
                    },
                    None => {},
                },
                _ => {},
            }
            return Cmd::Noop;
        }
        *screen = Screen::Home(HomeState::loading());
        return Cmd::LoadSessions;
    }
    match screen {
        Screen::Workspace(ws) => {
            if key.code == KeyCode::Tab {
                ws.cycle_focus();
                return Cmd::Noop;
            }
            match Direction::from_key(key.code) {
                Some(dir) => {
                    if ws.focus == WorkspaceFocus::Canvas {
                        move_selection(&mut ws.canvas, dir);
                        return Cmd::Noop;
                    }
                },
                None => {},
            }
            // Keys reach the chat wherever the focus is, once there is a chat.
            match &mut ws.chat {
                Some(s) => on_chat_key(s, toast, key),
                None => Cmd::Noop,
            }
        },
        _ => Cmd::Noop,
    }
}

/// What submitting `text` from the Workspace does: with a session, no turn
/// in flight and some text, the trimmed text is committed as a user message
/// and a turn starts; otherwise nothing happens.
pub open spec fn workspace_submit_post(s0: SessionState, text: Seq<char>, s1: SessionState, cmd: Cmd) -> bool {
    let t = trim(text);
    if s0.streaming is Some || t.len() == 0 || s0.session is None {
        s1 == s0 && cmd is Noop
    } else {
        &&& s1 == (SessionState { session: s1.session, follow: true, streaming: s1.streaming, ..s0 })
        &&& s1.session matches Some(sess) && appended(s0.session->0, sess, user_message(t))
        &&& s1.streaming matches Some(st) && fresh_turn(st)
        &&& cmd matches Cmd::StartChat(req) && chat_request_for(req, s1.session->0)
    }
}

/// Submit text from the Workspace chat that came from somewhere other than
/// its editor (a prompt kept while a session was created).
pub fn workspace_submit(s: &mut SessionState, toast: &mut Option<Toast>, text: String) -> (cmd: Cmd)
    ensures
        workspace_submit_post(*old(s), text@, *final(s), cmd),
        *final(toast) == *old(toast),
{
    if s.streaming.is_some() {
        return Cmd::Noop;
    }
    let v = chars_of(text.as_str());
    let t = trimmed(&v);
    if t.len() == 0 {
        return Cmd::Noop;
    }
    match s.session.take() {
        Some(mut session) => {
            let ghost before = session;
            session.messages.push(user_message_of(string_of(&t)));
            proof {
                assert(messages_view(session.messages@) =~= messages_view(before.messages@).push(user_message(t@)));
            }
            let req = chat_request(&session);
            s.session = Some(session);
            s.follow = true;
            s.streaming = Some(StreamingState::new(0));
            Cmd::StartChat(req)
        },
        None => Cmd::Noop,
    }
}

/// The toast text for a creation the server refused.
pub open spec fn create_error_text(e: CreateError) -> Seq<char> {
    match e {
        CreateError::Other(m) => m@,
        CreateError::EmptyTitle(_) => "could not create session: empty title"@,
    }
}

/// The Workspace after a session creation finished. A new session becomes
/// the chat when there is none yet, and a prompt kept for it is submitted;
/// with a chat already there the result is stale and ignored. A refusal
/// drops the kept prompt and raises an error toast.
pub open spec fn workspace_created_post(
    ws0: WorkspaceState,
    result: Result<Session, CreateError>,
    ws1: WorkspaceState,
    t0: Option<Toast>,
    t1: Option<Toast>,
    cmd: Cmd,
) -> bool {
    match result {
        Ok(session) => if ws0.chat is None {
            &&& ws1 == (WorkspaceState { chat: ws1.chat, pending_prompt: None, ..ws0 })
            &&& t1 == t0
            &&& ws1.chat matches Some(s) && match ws0.pending_prompt {
                Some(p) => if trim(p@).len() == 0 {
                    s.session == Some(session) && blank_view_state(s) && cmd is Noop
                } else {
                    &&& blank_view_state(SessionState { streaming: None, ..s })
                    &&& s.session matches Some(sess) && appended(session, sess, user_message(trim(p@)))
                    &&& s.streaming matches Some(st) && fresh_turn(st)
                    &&& cmd matches Cmd::StartChat(req) && chat_request_for(req, s.session->0)
                },
                None => s.session == Some(session) && blank_view_state(s) && cmd is Noop,
            }
        } else {
            ws1 == ws0 && t1 == t0 && cmd is Noop
        },
        Err(e) => ws1 == (WorkspaceState { pending_prompt: None, ..ws0 }) && error_toast(t1, create_error_text(e))
            && cmd is Noop,
    }
}

/// An error toast for a creation the server refused.
pub fn create_error_toast(e: CreateError) -> (t: Toast)
    ensures
        error_toast(Some(t), create_error_text(e)),
{
    match e {
        CreateError::Other(m) => Toast::error(m),
        CreateError::EmptyTitle(_) => Toast::error("could not create session: empty title".to_string()),
    }
}

/// Apply a finished session creation to the Workspace.
pub fn adopt_created_session(ws: &mut WorkspaceState, toast: &mut Option<Toast>, result: Result<Session, CreateError>) -> (cmd: Cmd)
    ensures
        workspace_created_post(*old(ws), result, *final(ws), *old(toast), *final(toast), cmd),
{
    match result {
        Ok(session) => {
            if ws.chat.is_some() {
                return Cmd::Noop;
            }
            let pending = ws.pending_prompt.take();
            let mut s = SessionState::new(session);
            let cmd = match pending {
                Some(p) => workspace_submit(&mut s, toast, p),
                None => Cmd::Noop,
            };
            ws.chat = Some(s);
            cmd
        },
        Err(e) => {
            ws.pending_prompt = None;
            *toast = Some(create_error_toast(e));
            Cmd::Noop
        },
    }
}

} // verus!
