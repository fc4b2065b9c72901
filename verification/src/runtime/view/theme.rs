//! The theme: named color slots, so every view reads its colors from one place.
use vstd::prelude::*;

use crate::canvas::NodeKind;
use crate::runtime::view::style::{Color, Style};

verus! {

/// The semantic color slots of the interface.
#[derive(Debug, Clone, Copy, PartialEq, Eq, Structural)]
pub enum Slot {
    /// Main background.
    Bg,
    /// Elevated surface.
    Surface,
    /// Dotted grid dot on the canvas.
    GridDot,
    /// Default foreground text.
    Fg,
    /// Dimmed foreground (status bars, hints).
    FgDim,
    /// Primary accent (selection, prompt glyph).
    Accent,
    /// Secondary accent.
    AccentAlt,
    /// C4 system node title bar.
    NodeSystem,
    /// C4 container node title bar.
    NodeContainer,
    /// C4 component node title bar.
    NodeComponent,
    /// Default edge line.
    Edge,
    /// Edge incident to the selected node.
    EdgeSelected,
    /// Arrowhead glyph at an edge's target.
    Arrowhead,
    /// Success badge.
    Success,
    /// Warning badge.
    Warning,
    /// Error badge.
    Error,
    /// Accent bar of a transcript block.
    BlockBar,
}

/// The color of a slot in the default theme.
pub open spec fn slot_color(slot: Slot) -> Color {
    match slot {
        Slot::Bg => Color::Reset,
        Slot::Surface => Color::Reset,
        Slot::GridDot => Color::DarkGray,
        Slot::Fg => Color::Reset,
        Slot::FgDim => Color::DarkGray,
        Slot::Accent => Color::Cyan,
        Slot::AccentAlt => Color::Magenta,
        Slot::NodeSystem => Color::Blue,
        Slot::NodeContainer => Color::Cyan,
        Slot::NodeComponent => Color::Green,
        Slot::Edge => Color::DarkGray,
        Slot::EdgeSelected => Color::Cyan,
        Slot::Arrowhead => Color::DarkGray,
        Slot::Success => Color::Green,
        Slot::Warning => Color::Yellow,
        Slot::Error => Color::Red,
        Slot::BlockBar => Color::Cyan,
    }
}

/// The color of a slot.
pub fn color_for(slot: Slot) -> (c: Color)
    ensures
        c == slot_color(slot),
{
    match slot {
        Slot::Bg => Color::Reset,
        Slot::Surface => Color::Reset,
        Slot::GridDot => Color::DarkGray,
        Slot::Fg => Color::Reset,
        Slot::FgDim => Color::DarkGray,
        Slot::Accent => Color::Cyan,
        Slot::AccentAlt => Color::Magenta,
        // C4 convention: systems blue, containers cyan, components green.
        Slot::NodeSystem => Color::Blue,
        Slot::NodeContainer => Color::Cyan,
        Slot::NodeComponent => Color::Green,
        Slot::Edge => Color::DarkGray,
        Slot::EdgeSelected => Color::Cyan,
        Slot::Arrowhead => Color::DarkGray,
        Slot::Success => Color::Green,
        Slot::Warning => Color::Yellow,
        Slot::Error => Color::Red,
        Slot::BlockBar => Color::Cyan,
    }
}

/// The text style of a slot: its color as foreground.
pub fn style(slot: Slot) -> (s: Style)
    ensures
        s.fg == slot_color(slot),
        !s.bold,
{
    Style { fg: color_for(slot), bold: false }
}

/// The background color of a slot, when a widget fills its area.
pub fn bg(slot: Slot) -> (c: Color)
    ensures
        c == slot_color(slot),
{
    color_for(slot)
}

/// The slot that colors a node card of the given C4 kind.
pub open spec fn kind_slot(kind: NodeKind) -> Slot {
    match kind {
        NodeKind::System => Slot::NodeSystem,
        NodeKind::Container => Slot::NodeContainer,
        NodeKind::Component => Slot::NodeComponent,
    }
}

/// The color of a node card of the given C4 kind.
pub fn color_for_kind(kind: NodeKind) -> (c: Color)
    ensures
        c == slot_color(kind_slot(kind)),
{
    match kind {
        NodeKind::System => bg(Slot::NodeSystem),
        NodeKind::Container => bg(Slot::NodeContainer),
        NodeKind::Component => bg(Slot::NodeComponent),
    }
}

} // verus!
