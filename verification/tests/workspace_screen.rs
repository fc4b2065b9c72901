//! The Workspace: Home `c` opens it, Esc leaves it, Tab swaps the focus,
//! arrows move the canvas selection, the mouse selects and pans, and the
//! chat region submits, opens overlays and receives the stream.

use mewcode_client::canvas::{Edge, EdgeKind, Graph, Layout, Node, NodeId, NodeKind, Point};
use mewcode_client::net::Session;
use mewcode_client::protocol::{MessagePart, Mode, ModelId};
use mewcode_client::runtime::model::events::{
    KeyCode, KeyEvent, KeyModifiers, MouseButton, MouseEvent, MouseEventKind,
};
use mewcode_client::runtime::model::{
    attach_session, App, CanvasData, CanvasState, Cmd, Msg, Overlay, Screen, StreamMsg, WorkspaceFocus,
    WorkspaceState,
};
use mewcode_client::runtime::update::{hit_test, update};

fn key(code: KeyCode) -> KeyEvent {
    KeyEvent::new(code, KeyModifiers::none())
}

fn mouse(kind: MouseEventKind, col: u16, row: u16) -> MouseEvent {
    MouseEvent { kind, column: col, row }
}

fn node(id: &str, kind: NodeKind, name: &str) -> Node {
    Node { id: NodeId(id.into()), kind, name: name.into(), bind: None, contract: vec![], tech: None, desc: None }
}

fn three_node_graph() -> Graph {
    Graph {
        version: 1,
        nodes: vec![
            node("a", NodeKind::Component, "A"),
            node("b", NodeKind::Container, "B"),
            node("c", NodeKind::System, "C"),
        ],
        edges: vec![
            Edge { from: NodeId("a".into()), to: NodeId("b".into()), kind: EdgeKind::Depends },
            Edge { from: NodeId("b".into()), to: NodeId("c".into()), kind: EdgeKind::Calls },
        ],
    }
}

fn empty_layout() -> Layout {
    Layout { version: 1, positions: Vec::new(), theme: String::new() }
}

fn make_session() -> Session {
    Session {
        id: 11,
        title: "test".into(),
        model: ModelId::default(),
        mode: Mode::default(),
        created_at: 0,
        updated_at: 0,
        messages: vec![],
    }
}

fn canvas_loaded_ok(app: &mut App) {
    let data = CanvasData { graph: three_node_graph(), layout: empty_layout() };
    update(app, Msg::CanvasLoaded(Ok(data)));
}

fn on_workspace(app: &mut App) {
    app.screen = Screen::Workspace(WorkspaceState::loading_canvas());
    canvas_loaded_ok(app);
}

fn ws(app: &App) -> &WorkspaceState {
    match &app.screen {
        Screen::Workspace(ws) => ws,
        other => panic!("expected Screen::Workspace, got {other:?}"),
    }
}

fn attach(app: &mut App) {
    if let Screen::Workspace(w) = &mut app.screen {
        attach_session(w, make_session());
    }
}

#[test]
fn pressing_c_on_home_enters_workspace_loading() {
    let mut app = App::new();
    assert!(matches!(app.screen, Screen::Home(_)));
    let cmd = update(&mut app, Msg::Key(key(KeyCode::Char('c'))));
    assert!(matches!(cmd, Cmd::LoadCanvas));
    let w = ws(&app);
    assert!(w.canvas.loading, "fresh workspace should be loading");
    assert!(w.canvas.graph.nodes.is_empty());
    assert!(w.chat.is_none());
    assert!(matches!(w.focus, WorkspaceFocus::Canvas));
}

#[test]
fn esc_on_workspace_returns_to_home_and_refetches_sessions() {
    let mut app = App::new();
    on_workspace(&mut app);
    let cmd = update(&mut app, Msg::Key(key(KeyCode::Esc)));
    match &app.screen {
        Screen::Home(h) => {
            assert!(h.loading, "Home should re-enter loading state on Esc");
            assert!(h.sessions.is_empty());
        }
        other => panic!("expected Screen::Home after Esc, got {other:?}"),
    }
    assert!(matches!(cmd, Cmd::LoadSessions));
}

#[test]
fn canvas_loaded_ok_populates_workspace_canvas() {
    let mut app = App::new();
    app.screen = Screen::Workspace(WorkspaceState::loading_canvas());
    canvas_loaded_ok(&mut app);
    let w = ws(&app);
    assert!(!w.canvas.loading);
    assert_eq!(w.canvas.graph.nodes.len(), 3);
    assert_eq!(w.canvas.graph.edges.len(), 2);
    assert!(w.canvas.selected.is_none());
    assert!(w.chat.is_none());
    assert!(app.toast.is_none());
}

#[test]
fn workspace_screen_canvas_loaded_err_raises_toast_and_keeps_state() {
    let mut app = App::new();
    app.screen = Screen::Workspace(WorkspaceState::loading_canvas());
    update(&mut app, Msg::CanvasLoaded(Err("server unreachable".into())));
    let w = ws(&app);
    assert!(!w.canvas.loading, "loading flag must clear even on error");
    assert!(w.canvas.graph.nodes.is_empty(), "graph untouched on error");
    let toast = app.toast.expect("error toast should be set");
    assert!(toast.text.contains("canvas load failed"));
    assert!(toast.text.contains("server unreachable"));
    assert_eq!(toast.text, "canvas load failed: server unreachable");
}

#[test]
fn workspace_screen_canvas_loaded_ignored_when_user_left_screen() {
    let mut app = App::new();
    let was_home_before = matches!(app.screen, Screen::Home(_));
    let toast_was_none_before = app.toast.is_none();
    canvas_loaded_ok(&mut app);
    assert!(matches!(app.screen, Screen::Home(_)));
    assert_eq!(was_home_before, matches!(app.screen, Screen::Home(_)));
    assert_eq!(app.toast.is_none(), toast_was_none_before);
}

#[test]
fn tab_cycles_focus_canvas_to_chat_and_back() {
    let mut app = App::new();
    on_workspace(&mut app);
    assert!(matches!(ws(&app).focus, WorkspaceFocus::Canvas));
    update(&mut app, Msg::Key(key(KeyCode::Tab)));
    assert!(matches!(ws(&app).focus, WorkspaceFocus::Chat));
    update(&mut app, Msg::Key(key(KeyCode::Tab)));
    assert!(matches!(ws(&app).focus, WorkspaceFocus::Canvas));
}

#[test]
fn arrow_keys_move_selection_on_canvas_region() {
    let mut app = App::new();
    on_workspace(&mut app);
    assert!(matches!(ws(&app).focus, WorkspaceFocus::Canvas));
    update(&mut app, Msg::Key(key(KeyCode::Right)));
    assert!(ws(&app).canvas.selected.is_some(), "Right should select a node");
    let prev = ws(&app).canvas.selected.clone().unwrap();
    update(&mut app, Msg::Key(key(KeyCode::Down)));
    let now = ws(&app).canvas.selected.clone().unwrap();
    let _ = (prev, now);
}

#[test]
fn arrow_keys_pick_the_nearest_node() {
    // Auto-layout puts a, b, c at x = 0, 24, 48 on the first row. From no
    // selection (the origin) Right reaches `b` (`a` sits at the origin
    // itself, not to its right); Right again reaches `c`; Left goes back to `b`.
    let mut app = App::new();
    on_workspace(&mut app);
    update(&mut app, Msg::Key(key(KeyCode::Right)));
    assert_eq!(ws(&app).canvas.selected, Some(NodeId("b".into())));
    update(&mut app, Msg::Key(key(KeyCode::Right)));
    assert_eq!(ws(&app).canvas.selected, Some(NodeId("c".into())));
    update(&mut app, Msg::Key(key(KeyCode::Left)));
    assert_eq!(ws(&app).canvas.selected, Some(NodeId("b".into())));
    // Nothing lies below: the selection stays.
    update(&mut app, Msg::Key(key(KeyCode::Down)));
    assert_eq!(ws(&app).canvas.selected, Some(NodeId("b".into())));
}

#[test]
fn hit_test_finds_node_with_viewport_offset() {
    let mut app = App::new();
    on_workspace(&mut app);
    if let Screen::Workspace(w) = &app.screen {
        let hit = hit_test(&w.canvas, 1, 1);
        assert!(hit.is_some(), "click at (1,1) should hit a node");
        assert_eq!(hit, Some(NodeId("a".into())));
    }
    let mut app2 = App::new();
    on_workspace(&mut app2);
    if let Screen::Workspace(w) = &mut app2.screen {
        w.canvas.viewport = (5, 5);
        let miss = hit_test(&w.canvas, 1, 1);
        assert!(miss.is_none(), "click at (1,1) should miss when viewport is (5,5)");
    }
}

#[test]
fn hit_test_prefers_the_topmost_card() {
    // Two cards at the same place: the later one is drawn on top.
    let mut c = CanvasState::loading();
    c.graph = Graph { version: 1, nodes: vec![node("x", NodeKind::System, "X"), node("y", NodeKind::System, "Y")], edges: vec![] };
    c.layout = Layout {
        version: 1,
        positions: vec![(NodeId("x".into()), Point { x: 0, y: 0 }), (NodeId("y".into()), Point { x: 0, y: 0 })],
        theme: String::new(),
    };
    assert_eq!(hit_test(&c, 2, 2), Some(NodeId("y".into())));
    assert_eq!(hit_test(&c, 30, 2), None);
}

#[test]
fn click_then_drag_pans_canvas_viewport() {
    let mut app = App::new();
    on_workspace(&mut app);
    update(&mut app, Msg::Mouse(mouse(MouseEventKind::Down(MouseButton::Left), 10, 10)));
    update(&mut app, Msg::Mouse(mouse(MouseEventKind::Drag(MouseButton::Left), 15, 12)));
    assert_eq!(ws(&app).canvas.viewport, (5, 2), "viewport should have panned by the drag delta");
    update(&mut app, Msg::Mouse(mouse(MouseEventKind::Up(MouseButton::Left), 15, 12)));
    assert!(ws(&app).canvas.drag_origin.is_none());
}

#[test]
fn click_on_a_card_selects_it() {
    let mut app = App::new();
    on_workspace(&mut app);
    update(&mut app, Msg::Mouse(mouse(MouseEventKind::Down(MouseButton::Left), 25, 1)));
    assert_eq!(ws(&app).canvas.selected, Some(NodeId("b".into())));
    assert_eq!(ws(&app).canvas.drag_origin, Some((25, 1)));
}

#[test]
fn scroll_wheel_pans_canvas_viewport() {
    let mut app = App::new();
    on_workspace(&mut app);
    update(&mut app, Msg::Mouse(mouse(MouseEventKind::ScrollDown, 0, 0)));
    assert_eq!(ws(&app).canvas.viewport, (0, -3));
    update(&mut app, Msg::Mouse(mouse(MouseEventKind::ScrollLeft, 0, 0)));
    assert_eq!(ws(&app).canvas.viewport, (3, -3));
}

#[test]
fn chat_region_keys_are_noop_when_no_session() {
    let mut app = App::new();
    on_workspace(&mut app);
    update(&mut app, Msg::Key(key(KeyCode::Tab)));
    assert!(matches!(ws(&app).focus, WorkspaceFocus::Chat));
    let cmd = update(&mut app, Msg::Key(key(KeyCode::Char('h'))));
    assert!(matches!(cmd, Cmd::Noop));
    assert!(ws(&app).chat.is_none());
}

#[test]
fn submitting_in_chat_region_starts_a_turn() {
    let mut app = App::new();
    on_workspace(&mut app);
    attach(&mut app);
    update(&mut app, Msg::Key(key(KeyCode::Char('h'))));
    let cmd = update(&mut app, Msg::Key(key(KeyCode::Enter)));
    assert!(matches!(cmd, Cmd::StartChat(_)));
    let s = ws(&app).chat.as_ref().unwrap();
    assert!(s.streaming.is_some());
    let sess = s.session.as_ref().unwrap();
    assert_eq!(sess.messages.len(), 1);
    assert!(matches!(sess.messages[0].parts[0], MessagePart::Text { .. }));
}

#[test]
fn slash_tools_in_chat_opens_tools_overlay() {
    let mut app = App::new();
    on_workspace(&mut app);
    attach(&mut app);
    for c in "/tools".chars() {
        update(&mut app, Msg::Key(key(KeyCode::Char(c))));
    }
    update(&mut app, Msg::Key(key(KeyCode::Enter)));
    assert!(matches!(ws(&app).chat.as_ref().unwrap().overlay, Overlay::Tools));
}

#[test]
fn esc_in_chat_closes_the_overlay_first() {
    let mut app = App::new();
    on_workspace(&mut app);
    attach(&mut app);
    update(&mut app, Msg::Key(key(KeyCode::Tab)));
    for c in "/skills".chars() {
        update(&mut app, Msg::Key(key(KeyCode::Char(c))));
    }
    update(&mut app, Msg::Key(key(KeyCode::Enter)));
    assert!(matches!(update(&mut app, Msg::Key(key(KeyCode::Esc))), Cmd::Noop));
    assert!(matches!(ws(&app).chat.as_ref().unwrap().overlay, Overlay::Closed));
    assert!(matches!(update(&mut app, Msg::Key(key(KeyCode::Esc))), Cmd::LoadSessions));
}

#[test]
fn stream_event_lands_in_chat_region() {
    let mut app = App::new();
    on_workspace(&mut app);
    attach(&mut app);
    update(&mut app, Msg::Key(key(KeyCode::Char('h'))));
    update(&mut app, Msg::Key(key(KeyCode::Enter)));
    update(&mut app, Msg::Stream(StreamMsg::Started(42)));
    update(&mut app, Msg::Stream(StreamMsg::Delta("hello".into())));
    update(&mut app, Msg::Stream(StreamMsg::Finished { duration_ms: 42 }));
    let s = ws(&app).chat.as_ref().unwrap();
    assert_eq!(s.session.as_ref().unwrap().messages.len(), 2);
    assert!(s.streaming.is_none());
}

#[test]
fn unknown_slash_command_raises_toast() {
    let mut app = App::new();
    on_workspace(&mut app);
    attach(&mut app);
    for c in "/nope".chars() {
        update(&mut app, Msg::Key(key(KeyCode::Char(c))));
    }
    update(&mut app, Msg::Key(key(KeyCode::Enter)));
    let toast = app.toast.as_ref().expect("error toast should be set");
    assert!(toast.text.contains("unknown command"));
    assert!(toast.text.contains("/nope"));
}

#[test]
fn cycle_focus_bounces_canvas_to_chat() {
    let mut w = WorkspaceState::loading_canvas();
    assert!(matches!(w.focus, WorkspaceFocus::Canvas));
    w.cycle_focus();
    assert!(matches!(w.focus, WorkspaceFocus::Chat));
    w.cycle_focus();
    assert!(matches!(w.focus, WorkspaceFocus::Canvas));
}

#[test]
fn attach_session_sets_chat_and_clears_pending() {
    let mut w = WorkspaceState::loading_canvas();
    w.pending_prompt = Some("queued".into());
    attach_session(&mut w, make_session());
    assert!(w.chat.is_some());
    assert!(w.pending_prompt.is_none());
    assert!(matches!(w.focus, WorkspaceFocus::Canvas));
}

#[test]
fn canvas_state_resolved_positions_still_fills_missing() {
    let c = CanvasState::loading();
    let m = c.resolved_positions();
    assert!(m.is_empty(), "empty graph has no resolved positions");
}

#[test]
fn canvas_state_resolved_positions_fills_three_node_graph() {
    let mut app = App::new();
    on_workspace(&mut app);
    let m = ws(&app).canvas.resolved_positions();
    assert_eq!(m.len(), 3, "three nodes should resolve to three positions");
    let pts: std::collections::HashSet<_> = m.iter().map(|(_, p)| (p.x, p.y)).collect();
    assert_eq!(pts.len(), 3, "auto-layout should give distinct positions");
}

#[test]
fn session_created_from_the_form_opens_the_workspace_with_its_chat() {
    let mut app = App::new();
    app.screen = Screen::NewSession(Default::default());
    let cmd = update(&mut app, Msg::SessionCreated(Ok(make_session())));
    assert!(matches!(cmd, Cmd::LoadCanvas));
    let w = ws(&app);
    assert_eq!(w.chat.as_ref().unwrap().session.as_ref().unwrap().id, 11);
    assert!(matches!(w.focus, WorkspaceFocus::Chat));
}

#[test]
fn session_created_for_a_kept_prompt_submits_it() {
    let mut app = App::new();
    on_workspace(&mut app);
    if let Screen::Workspace(w) = &mut app.screen {
        w.pending_prompt = Some("  draw it  ".into());
    }
    match update(&mut app, Msg::SessionCreated(Ok(make_session()))) {
        Cmd::StartChat(req) => assert_eq!(req.messages.len(), 1),
        other => panic!("expected StartChat, got {other:?}"),
    }
    let w = ws(&app);
    assert!(w.pending_prompt.is_none());
    let s = w.chat.as_ref().unwrap();
    assert!(s.streaming.is_some());
    match &s.session.as_ref().unwrap().messages[0].parts[0] {
        MessagePart::Text { text } => assert_eq!(text, "draw it"),
        other => panic!("expected text, got {other:?}"),
    }
}

#[test]
fn hit_test_covers_a_card_that_starts_left_of_the_view() {
    let mut c = CanvasState::loading();
    c.graph = Graph { version: 1, nodes: vec![node("x", NodeKind::System, "X")], edges: vec![] };
    c.layout = Layout { version: 1, positions: vec![(NodeId("x".into()), Point { x: 0, y: 0 })], theme: String::new() };
    c.viewport = (5, 0);
    assert_eq!(hit_test(&c, 0, 0), Some(NodeId("x".into())));
    assert_eq!(hit_test(&c, 14, 3), Some(NodeId("x".into())));
    assert_eq!(hit_test(&c, 15, 0), None);
}
