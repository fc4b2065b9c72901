//! The model's constructors and helpers: Workspace focus, canvas placement,
//! the model picker, the focus cycle of the form, and the theme's slots.

use mewcode_client::canvas::{Graph, Layout, Node, NodeId, NodeKind, Point};
use mewcode_client::net::ModelEntry;
use mewcode_client::protocol::{ModelId, ModelKind};
use mewcode_client::runtime::model::{
    drain_prompt, CanvasState, ModelPicker, NewSessionField, WorkspaceFocus, WorkspaceState,
};
use mewcode_client::runtime::model::editor::Composer;
use mewcode_client::runtime::model::events::{KeyCode, KeyEvent};
use mewcode_client::runtime::view::style::Color;
use mewcode_client::runtime::view::theme::{color_for, style, Slot};

#[test]
fn loading_workspace_starts_with_canvas_focused() {
    let ws = WorkspaceState::loading_canvas();
    assert!(matches!(ws.focus, WorkspaceFocus::Canvas));
    assert!(ws.canvas.loading);
    assert!(ws.chat.is_none());
    assert!(ws.pending_prompt.is_none());
}

#[test]
fn cycle_focus_bounces_between_regions() {
    let mut ws = WorkspaceState::loading_canvas();
    assert!(matches!(ws.focus, WorkspaceFocus::Canvas));
    ws.cycle_focus();
    assert!(matches!(ws.focus, WorkspaceFocus::Chat));
    ws.cycle_focus();
    assert!(matches!(ws.focus, WorkspaceFocus::Canvas));
}

#[test]
fn resolved_positions_fills_missing() {
    let c = CanvasState::loading();
    let m = c.resolved_positions();
    assert!(m.is_empty());
}

fn node(id: &str) -> Node {
    Node { id: NodeId(id.into()), kind: NodeKind::Component, name: id.into(), bind: None, contract: vec![], tech: None, desc: None }
}

fn point_of(m: &[(NodeId, Point)], id: &str) -> Point {
    // The last entry for an id is the one that counts.
    m.iter().rev().find(|(k, _)| k.0 == id).map(|(_, p)| *p).unwrap()
}

#[test]
fn layout_positions_win_and_the_rest_fill_a_grid_in_id_order() {
    let mut c = CanvasState::loading();
    c.graph = Graph { version: 1, nodes: vec![node("e"), node("d"), node("c"), node("b"), node("a"), node("z")], edges: vec![] };
    c.layout = Layout { version: 1, positions: vec![(NodeId("z".into()), Point { x: 7, y: 9 })], theme: String::new() };
    let m = c.resolved_positions();
    assert_eq!(point_of(&m, "z"), Point { x: 7, y: 9 });
    // The missing ids in sorted order take grid slots 0..: a b c d e.
    assert_eq!(point_of(&m, "a"), Point { x: 0, y: 0 });
    assert_eq!(point_of(&m, "b"), Point { x: 24, y: 0 });
    assert_eq!(point_of(&m, "c"), Point { x: 48, y: 0 });
    assert_eq!(point_of(&m, "d"), Point { x: 72, y: 0 });
    assert_eq!(point_of(&m, "e"), Point { x: 0, y: 6 });
}

#[test]
fn drain_prompt_merges_the_kept_prompt_after_the_typed_text() {
    let mut ws = WorkspaceState::loading_canvas();
    ws.pending_prompt = Some("queued".into());
    let mut editor = Composer::new();
    for c in "typed".chars() {
        editor.input(&KeyEvent::plain(KeyCode::Char(c)));
    }
    let text = drain_prompt(&mut ws, &mut editor);
    assert_eq!(text, "typed\nqueued");
    assert!(ws.pending_prompt.is_none());
    assert_eq!(editor.text(), "");
    let mut empty = Composer::new();
    ws.pending_prompt = Some("only".into());
    assert_eq!(drain_prompt(&mut ws, &mut empty), "only");
}

#[test]
fn focus_cycle_is_a_closed_3_cycle() {
    for start in [NewSessionField::Title, NewSessionField::Model, NewSessionField::Mode] {
        let mut f = start;
        for n in 0..10 {
            let mut g = start;
            for _ in 0..(n % 3) {
                g = g.next();
            }
            assert_eq!(f, g);
            f = f.next();
        }
        assert_ne!(start, start.next());
        assert_ne!(start, start.next().next());
        assert_eq!(start, start.next().next().next());
    }
}

#[test]
fn picker_clamps_without_wrapping() {
    let models = vec![ModelId::KimiK2, ModelId::Glm46, ModelId::Glm46];
    let mut picker = ModelPicker::Loaded { models, selected: 0 };
    picker.select_prev();
    assert_eq!(picker.selected_model(), Some(ModelId::KimiK2));
    picker.select_next();
    picker.select_next();
    picker.select_next();
    match &picker {
        ModelPicker::Loaded { selected, .. } => assert_eq!(*selected, 2),
        _ => unreachable!(),
    }
    let mut single = ModelPicker::Loaded { models: vec![ModelId::Qwen3Coder], selected: 0 };
    single.select_next();
    single.select_prev();
    assert_eq!(single.selected_model(), Some(ModelId::Qwen3Coder));
}

#[test]
fn loading_picker_ignores_selection_changes() {
    let mut picker = ModelPicker::Loading;
    picker.select_next();
    picker.select_prev();
    assert!(matches!(picker, ModelPicker::Loading));
    assert!(picker.selected_model().is_none());
    assert_eq!(picker.display_name(), "loading…");
}

fn entry(id: &str) -> ModelEntry {
    ModelEntry { id: id.into(), display_name: "ignored".into(), kind: ModelKind::AnthropicMessages }
}

#[test]
fn registry_mapping_preserves_order_with_first_selected() {
    let (picker, error) = ModelPicker::from_registry(Ok(vec![entry("qwen3-coder"), entry("kimi-k2"), entry("Qwen3 Coder")]));
    assert!(error.is_none());
    match picker {
        ModelPicker::Loaded { models, selected } => {
            assert_eq!(models, vec![ModelId::Qwen3Coder, ModelId::KimiK2, ModelId::Qwen3Coder]);
            assert_eq!(selected, 0);
        }
        ModelPicker::Loading => panic!("expected Loaded"),
    }
}

#[test]
fn registry_failure_falls_back_to_builtin_list() {
    for result in [Err("down".to_string()), Ok(vec![]), Ok(vec![entry("nope"), entry("")])] {
        let (picker, error) = ModelPicker::from_registry(result);
        match picker {
            ModelPicker::Loaded { models, selected } => {
                assert_eq!(models, ModelId::all());
                assert_eq!(selected, 0);
            }
            ModelPicker::Loading => panic!("expected Loaded fallback"),
        }
        assert_eq!(error.as_deref(), Some("couldn't load models"));
    }
    // Unknown entries among known ones are skipped.
    let (picker, error) = ModelPicker::from_registry(Ok(vec![entry("nope"), entry("minimax-m2")]));
    assert!(error.is_none());
    assert_eq!(picker.selected_model(), Some(ModelId::MiniMaxM2));
}

#[test]
fn slot_colors_are_stable() {
    assert_eq!(color_for(Slot::Accent), Color::Cyan);
    assert_eq!(color_for(Slot::NodeSystem), Color::Blue);
    assert_eq!(color_for(Slot::NodeContainer), Color::Cyan);
    assert_eq!(color_for(Slot::NodeComponent), Color::Green);
    assert_eq!(color_for(Slot::Error), Color::Red);
}

#[test]
fn all_slots_resolve() {
    for slot in [
        Slot::Bg,
        Slot::Surface,
        Slot::GridDot,
        Slot::Fg,
        Slot::FgDim,
        Slot::Accent,
        Slot::AccentAlt,
        Slot::NodeSystem,
        Slot::NodeContainer,
        Slot::NodeComponent,
        Slot::Edge,
        Slot::EdgeSelected,
        Slot::Arrowhead,
        Slot::Success,
        Slot::Warning,
        Slot::Error,
        Slot::BlockBar,
    ] {
        assert_eq!(style(slot).fg, color_for(slot));
    }
}

#[test]
fn composer_types_breaks_and_clears() {
    let mut c = Composer::new();
    assert!(c.input(&KeyEvent::plain(KeyCode::Char('a'))));
    assert!(c.input(&KeyEvent::plain(KeyCode::Char('b'))));
    assert!(c.input(&KeyEvent::plain(KeyCode::Enter)));
    assert!(c.input(&KeyEvent::plain(KeyCode::Char('c'))));
    assert_eq!(c.text(), "ab\nc");
    assert_eq!(c.cursor(), (1, 1));
    c.select_all();
    assert_eq!(c.text(), "ab\nc");
    assert!(c.cut());
    assert_eq!(c.text(), "");
    assert!(!c.cut());
}

#[test]
fn composer_backspace_and_delete() {
    let mut c = Composer::new();
    for ch in "abc".chars() {
        c.input(&KeyEvent::plain(KeyCode::Char(ch)));
    }
    assert!(c.input(&KeyEvent::plain(KeyCode::Backspace)));
    assert_eq!(c.text(), "ab");
    assert!(c.input(&KeyEvent::plain(KeyCode::Enter)));
    assert!(c.input(&KeyEvent::plain(KeyCode::Backspace)));
    assert_eq!(c.text(), "ab");
    assert_eq!(c.cursor(), (0, 2));
    assert!(!c.input(&KeyEvent::plain(KeyCode::Delete)));
    c.input(&KeyEvent::plain(KeyCode::Left));
    assert!(c.input(&KeyEvent::plain(KeyCode::Delete)));
    assert_eq!(c.text(), "a");
}
