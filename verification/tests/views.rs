//! The text the views show: spinner frames, the wrapped cursor, markdown
//! blocks, status rows, the left rail, overlays, canvas cards and edges.

use mewcode_client::canvas::{Edge, EdgeKind, Graph, Layout, Node, NodeId, NodeKind, Point};
use mewcode_client::net::Session;
use mewcode_client::protocol::{Mode, ModelId};
use mewcode_client::runtime::model::editor::Composer;
use mewcode_client::runtime::model::events::{KeyCode, KeyEvent};
use mewcode_client::runtime::model::{CanvasState, HomeState, ModelPicker, NewSessionField, NewSessionState, SessionState, WorkspaceFocus, WorkspaceState};
use mewcode_client::runtime::view::canvas::{canvas_fits_view, edge_cells, edge_glyphs, node_cards};
use mewcode_client::runtime::view::cursor::park_cursor_in_field;
use mewcode_client::runtime::view::geometry::{input_box_rows, Rect};
use mewcode_client::runtime::view::markdown::{markdown_blocks_of, MdBlock};
use mewcode_client::runtime::view::overlay::{overlay_title, skills_lines, tools_lines};
use mewcode_client::runtime::view::status::{
    home_lines, HOME_FOOTER, canvas_status_line, chat_status_line, form_fields, form_notice, left_rail_lines, prompt_frame, session_status,
    session_title,
};
use mewcode_client::runtime::view::style::Color;
use mewcode_client::runtime::view::transcript::{session_transcript, Row};
use mewcode_client::runtime::view::workspace::workspace_transcript;
use mewcode_client::runtime::view::{plain_lines, spinner_frame, visual_cursor_pos};

#[test]
fn spinner_advances_every_80_ms_and_cycles() {
    let a = spinner_frame(0);
    let b = spinner_frame(80);
    assert_ne!(a, b, "a tick later, a different frame");
    assert_eq!(a, "⠋");
    assert_eq!(spinner_frame(79), "⠋");
    assert_eq!(spinner_frame(800), "⠋");
    assert_eq!(spinner_frame(720), "⠏");
}

#[test]
fn cursor_wraps_at_the_field_width() {
    assert_eq!(visual_cursor_pos("hello", 0, 3, 10), (0, 3));
    assert_eq!(visual_cursor_pos("abcdef", 0, 5, 4), (1, 1));
    assert_eq!(visual_cursor_pos("ab\ncd", 1, 1, 10), (1, 1));
    // At the end of the text the cursor sits after its last character.
    assert_eq!(visual_cursor_pos("abcd", 0, 4, 4), (0, 4));
    // The cursor before a character that wraps sits where that character appears.
    assert_eq!(visual_cursor_pos("abcd", 0, 3, 3), (1, 0));
    assert_eq!(visual_cursor_pos("abc\nd", 0, 3, 3), (0, 3));
    assert_eq!(visual_cursor_pos("abcde", 0, 5, 4), (1, 1));
    // A zero width leaves the position as it is.
    assert_eq!(visual_cursor_pos("abc", 0, 2, 0), (0, 2));
    // Wide characters take two columns.
    assert_eq!(visual_cursor_pos("漢字漢", 0, 3, 4), (1, 2));
}

#[test]
fn cursor_is_parked_inside_the_box() {
    let mut c = Composer::new();
    for ch in "abc".chars() {
        c.input(&KeyEvent::plain(KeyCode::Char(ch)));
    }
    let chunk = Rect { x: 2, y: 5, width: 10, height: 3 };
    assert_eq!(park_cursor_in_field(chunk, &c), (6, 6));
}

#[test]
fn markdown_splits_prose_and_fenced_code() {
    let blocks = markdown_blocks_of("intro\n```rust\nfn main() {}\n```\noutro");
    assert_eq!(blocks.len(), 3);
    match &blocks[0] {
        MdBlock::Prose(p) => assert_eq!(p, "intro\n"),
        other => panic!("expected prose, got {other:?}"),
    }
    match &blocks[1] {
        MdBlock::Code { code, lang } => {
            assert_eq!(code, "fn main() {}\n");
            assert_eq!(lang.as_deref(), Some("rust"));
        }
        other => panic!("expected code, got {other:?}"),
    }
    match &blocks[2] {
        MdBlock::Prose(p) => assert_eq!(p, "outro\n"),
        other => panic!("expected prose, got {other:?}"),
    }
}

#[test]
fn markdown_keeps_an_unterminated_fence() {
    let blocks = markdown_blocks_of("  ```\nx = 1");
    assert_eq!(blocks.len(), 1);
    match &blocks[0] {
        MdBlock::Code { code, lang } => {
            assert_eq!(code, "x = 1\n");
            assert!(lang.is_none());
        }
        other => panic!("expected code, got {other:?}"),
    }
    assert!(markdown_blocks_of("").is_empty());
}

#[test]
fn plain_lines_keep_one_span_per_line() {
    let lines = plain_lines("hello world\nsecond line");
    assert_eq!(lines.len(), 2);
    assert_eq!(lines[0].plain_text(), "hello world");
    assert_eq!(lines[0].spans[0].fg, Color::Reset);
}

fn session() -> Session {
    Session { id: 1, title: "demo".into(), model: ModelId::Glm46, mode: Mode::Plan, created_at: 0, updated_at: 0, messages: vec![] }
}

#[test]
fn session_status_reads_model_mode_and_keys() {
    let s = SessionState::new(session());
    assert_eq!(session_status(&s), "GLM 4.6  Plan  •  PgUp/PgDn scroll  •  /tools  /skills  •  q quit");
    assert_eq!(session_title(&s), "demo");
    let e = SessionState::empty();
    assert_eq!(session_status(&e), "Kimi K2  build  •  /tools  /skills");
    assert_eq!(session_title(&e), " mewcode ");
}

#[test]
fn session_transcript_hints_before_a_session_exists() {
    let e = SessionState::empty();
    let rows = session_transcript(&e, 0, 0);
    assert_eq!(rows.len(), 1);
    match &rows[0] {
        Row::Styled(l) => assert_eq!(l.plain_text(), "Type a message to start a new session."),
        other => panic!("unexpected row {other:?}"),
    }
}

#[test]
fn workspace_status_rows_and_rail() {
    let mut ws = WorkspaceState::loading_canvas();
    let line = canvas_status_line(&ws.canvas, ws.focus);
    assert_eq!(line.plain_text(), " ● loading…");
    ws.canvas.loading = false;
    ws.canvas.selected = Some(NodeId("api".into()));
    let line = canvas_status_line(&ws.canvas, ws.focus);
    assert!(line.plain_text().ends_with("selected: api"));
    assert_eq!(chat_status_line(&ws).plain_text(), "   tab = canvas · esc = home");
    assert_eq!(prompt_frame(&ws), ("   message ", Color::DarkGray));
    let rail = left_rail_lines(&ws);
    assert_eq!(rail.len(), 13);
    assert_eq!(rail[2].plain_text(), " 0 nodes ");
    assert_eq!(rail[6].plain_text(), "api");
    assert_eq!(rail[9].plain_text(), "canvas");
    ws.focus = WorkspaceFocus::Chat;
    mewcode_client::runtime::model::attach_session(&mut ws, session());
    assert_eq!(chat_status_line(&ws).plain_text(), " ● GLM 4.6  •  PgUp/PgDn scroll  •  /tools  /skills");
    let rows = workspace_transcript(&ws, 0);
    assert!(rows.is_empty());
}

#[test]
fn workspace_transcript_hints_without_a_chat() {
    let ws = WorkspaceState::loading_canvas();
    let rows = workspace_transcript(&ws, 0);
    assert_eq!(rows.len(), 2);
    match &rows[1] {
        Row::Styled(l) => assert_eq!(l.plain_text(), "no session yet — type a prompt to start one."),
        other => panic!("unexpected row {other:?}"),
    }
}

#[test]
fn form_shows_fields_and_notice() {
    let n = NewSessionState::default();
    let f = form_fields(&n);
    assert_eq!(f[0].label, "Title");
    assert!(f[0].focused);
    assert_eq!(f[1].value, "‹ loading… ›");
    assert_eq!(f[2].value, "‹ Build ›");
    assert!(form_notice(&n).is_none());
    let loaded = NewSessionState {
        model: ModelPicker::Loaded { models: ModelId::all(), selected: 2 },
        submitting: true,
        ..NewSessionState::default()
    };
    assert_eq!(form_fields(&loaded)[1].value, "‹ Qwen3 Coder ›");
    assert_eq!(form_notice(&loaded).unwrap().0, "Creating session…");
    let failed = NewSessionState {
        model: ModelPicker::Loaded { models: ModelId::all(), selected: 0 },
        error: Some("couldn't load models".to_string()),
        ..NewSessionState::default()
    };
    let (text, color) = form_notice(&failed).unwrap();
    assert_eq!(text, "couldn't load models");
    assert_eq!(color, Color::Red);
}

#[test]
fn overlays_list_their_content() {
    let ls = tools_lines(&vec!["bash".to_string(), "glob".to_string()]);
    assert_eq!(ls.len(), 4);
    assert_eq!(ls[0].plain_text(), "• bash");
    assert_eq!(ls[3].plain_text(), "2 tools available");
    assert_eq!(skills_lines()[0].plain_text(), "No skills loaded.");
    assert_eq!(overlay_title("Tools"), " Tools  (Esc to close) ");
}

fn node(id: &str, kind: NodeKind) -> Node {
    Node { id: NodeId(id.into()), kind, name: id.into(), bind: None, contract: vec![], tech: None, desc: None }
}

#[test]
fn canvas_cards_clip_to_the_area() {
    let mut c = CanvasState::loading();
    c.loading = false;
    c.graph = Graph { version: 1, nodes: vec![node("a", NodeKind::System), node("b", NodeKind::Container)], edges: vec![] };
    c.layout = Layout { version: 1, positions: vec![], theme: String::new() };
    c.selected = Some(NodeId("b".into()));
    assert!(canvas_fits_view(&c));
    let area = Rect { x: 1, y: 2, width: 30, height: 10 };
    let cards = node_cards(&c, area);
    assert_eq!(cards.len(), 2);
    assert_eq!(cards[0].rect, Rect { x: 1, y: 2, width: 20, height: 4 });
    assert!(!cards[0].selected);
    // `b` sits at x = 24: only six columns of it fit.
    assert_eq!(cards[1].rect, Rect { x: 25, y: 2, width: 6, height: 4 });
    assert!(cards[1].selected);
    // Panned right by 22 columns, `a` is gone and `b` is cut on the left.
    c.viewport = (22, 0);
    let cards = node_cards(&c, area);
    assert_eq!(cards.len(), 1);
    assert_eq!(cards[0].index, 1);
    assert_eq!(cards[0].rect, Rect { x: 3, y: 2, width: 20, height: 4 });
}

#[test]
fn edges_run_down_then_across_to_an_arrowhead() {
    let area = Rect { x: 0, y: 0, width: 80, height: 20 };
    let cells = edge_cells(area, Point { x: 0, y: 0 }, Point { x: 3, y: 2 });
    // Down from row 5 to row 7 in column 0, then across row 7 to column 3.
    let glyphs: Vec<(u16, u16, char)> = cells.iter().map(|c| (c.x, c.y, c.glyph)).collect();
    assert_eq!(
        glyphs,
        vec![(0, 5, '│'), (0, 6, '│'), (0, 7, '│'), (0, 7, '─'), (1, 7, '─'), (2, 7, '─'), (3, 7, '▶')]
    );
    let mut c = CanvasState::loading();
    c.graph = Graph {
        version: 1,
        nodes: vec![node("a", NodeKind::System), node("b", NodeKind::System)],
        edges: vec![
            Edge { from: NodeId("a".into()), to: NodeId("b".into()), kind: EdgeKind::Calls },
            Edge { from: NodeId("a".into()), to: NodeId("zz".into()), kind: EdgeKind::Calls },
        ],
    };
    let all = edge_glyphs(&c, area);
    // Only the first edge has both ends placed: a vertical cell, then the run to x = 24.
    assert_eq!(all.len(), 1 + 25);
    assert_eq!(all.last().unwrap().glyph, '▶');
}

#[test]
fn empty_home() {
    let h = HomeState { sessions: Vec::new(), selected: 0, loading: false };
    let ls = home_lines(&h);
    assert_eq!(ls.len(), 3);
    assert_eq!(ls[0].plain_text(), "");
    assert_eq!(ls[1].plain_text(), "No sessions yet.");
    assert_eq!(ls[2].plain_text(), "Press 'n' to start a new one.");
    assert_eq!(HOME_FOOTER, "n new  •  ↑/↓ select  •  Enter open  •  q quit");
    assert_eq!(home_lines(&HomeState::loading())[0].plain_text(), "Loading sessions…");
}

#[test]
fn loading_models() {
    let f = form_fields(&NewSessionState::default());
    assert_eq!(f[1].value, "‹ loading… ›");
    assert!(f[0].focused && !f[1].focused && !f[2].focused);
}

#[test]
fn loaded_model_focused() {
    let n = NewSessionState {
        model: ModelPicker::Loaded { models: ModelId::all(), selected: 0 },
        field: NewSessionField::Model,
        mode: Mode::Build,
        ..NewSessionState::default()
    };
    let f = form_fields(&n);
    assert!(f[1].focused && !f[0].focused);
    assert_eq!(f[1].value, "‹ Kimi K2 ›");
    assert_eq!(f[2].value, "‹ Build ›");
    assert!(form_notice(&n).is_none());
}

#[test]
fn error_line() {
    let n = NewSessionState {
        model: ModelPicker::Loaded { models: ModelId::all(), selected: 0 },
        field: NewSessionField::Title,
        error: Some("couldn't load models".to_string()),
        ..NewSessionState::default()
    };
    assert_eq!(form_notice(&n), Some(("couldn't load models".to_string(), Color::Red)));
    assert!(form_fields(&n)[0].focused);
}

#[test]
fn submitting() {
    let n = NewSessionState {
        model: ModelPicker::Loaded { models: ModelId::all(), selected: 0 },
        field: NewSessionField::Title,
        submitting: true,
        ..NewSessionState::default()
    };
    assert_eq!(form_notice(&n).unwrap().0, "Creating session…");
}

#[test]
fn input_box_grows_with_wrapped_text() {
    assert_eq!(input_box_rows(0, 30), 3);
    assert_eq!(input_box_rows(1, 30), 3);
    assert_eq!(input_box_rows(5, 30), 7);
    assert_eq!(input_box_rows(400, 30), 15);
    assert_eq!(input_box_rows(400, 4), 3);
    assert_eq!(input_box_rows(usize::MAX, 100), 50);
}
