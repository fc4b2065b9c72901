//! Titles, status rows and side panels: the short texts around the main views.
use vstd::prelude::*;

use crate::protocol::{model_display_name, mode_name, Mode, ModelId};
use crate::runtime::model::editor::composer_text;
use crate::runtime::model::home::HomeState;
use crate::runtime::model::new_session::{picker_selection, NewSessionField, NewSessionState};
use crate::runtime::model::session::SessionState;
use crate::runtime::model::workspace::{CanvasState, WorkspaceFocus, WorkspaceState};
use crate::runtime::view::style::{Color, Line, Span};
use crate::runtime::view::theme::{slot_color, style, Slot};
use crate::runtime::view::transcript::{blank_line, one_span, span_line};
use crate::text::{chars_of, decimal, decimal_of, push_all, push_str, string_of};

verus! {

/// How a mode is shown in status rows and the form.
pub open spec fn mode_label(m: Mode) -> Seq<char> {
    match m {
        Mode::Build => "Build"@,
        Mode::Plan => "Plan"@,
    }
}

/// The label of a mode.
pub fn mode_label_of(m: Mode) -> (s: &'static str)
    ensures
        s@ == mode_label(m),
{
    match m {
        Mode::Build => "Build",
        Mode::Plan => "Plan",
    }
}

/// The session screen's status row: model and mode with the keys that
/// apply, or what happens while there is no session yet.
pub open spec fn session_status_text(s: SessionState) -> Seq<char> {
    match s.session {
        Some(sess) => if s.streaming is Some {
            model_display_name(sess.model) + "  "@ + mode_label(sess.mode) + "  \u{2022}  streaming\u{2026}"@
        } else {
            model_display_name(sess.model) + "  "@ + mode_label(sess.mode)
                + "  \u{2022}  PgUp/PgDn scroll  \u{2022}  /tools  /skills  \u{2022}  q quit"@
        },
        None => if s.streaming is Some {
            "starting session\u{2026}"@
        } else {
            model_display_name(ModelId::KimiK2) + "  "@ + mode_name(Mode::Build) + "  \u{2022}  /tools  /skills"@
        },
    }
}

/// The session screen's status row.
pub fn session_status(s: &SessionState) -> (t: String)
    ensures
        t@ == session_status_text(*s),
{
    let mut v: Vec<char> = Vec::new();
    match &s.session {
        Some(sess) => {
            push_str(&mut v, sess.model.display_name());
            push_str(&mut v, "  ");
            push_str(&mut v, mode_label_of(sess.mode));
            if s.streaming.is_some() {
                push_str(&mut v, "  \u{2022}  streaming\u{2026}");
            } else {
                push_str(&mut v, "  \u{2022}  PgUp/PgDn scroll  \u{2022}  /tools  /skills  \u{2022}  q quit");
            }
        },
        None => {
            if s.streaming.is_some() {
                push_str(&mut v, "starting session\u{2026}");
            } else {
                push_str(&mut v, ModelId::default().display_name());
                push_str(&mut v, "  ");
                push_str(&mut v, Mode::default().as_str());
                push_str(&mut v, "  \u{2022}  /tools  /skills");
            }
        },
    }
    string_of(&v)
}

/// The title of the session screen's transcript box.
pub fn session_title(s: &SessionState) -> (t: String)
    ensures
        t@ == match s.session {
            Some(sess) => sess.title@,
            None => " mewcode "@,
        },
{
    match &s.session {
        Some(sess) => string_of(&chars_of(sess.title.as_str())),
        None => " mewcode ".to_string(),
    }
}

/// The marker that shows whether a region has focus.
pub open spec fn focus_marker(focused: bool, l: Line) -> bool {
    if focused {
        l.spans@[0].text@ == " \u{25CF} "@ && l.spans@[0].fg == slot_color(Slot::Accent)
    } else {
        l.spans@[0].text@ == "   "@ && l.spans@[0].fg == slot_color(Slot::Fg)
    }
}

/// A status row: a focus marker, then `text` dimmed.
pub open spec fn status_row(l: Line, focused: bool, text: Seq<char>) -> bool {
    &&& l.spans@.len() == 2
    &&& focus_marker(focused, l)
    &&& !l.spans@[0].bold
    &&& l.spans@[1].text@ == text
    &&& l.spans@[1].fg == slot_color(Slot::FgDim)
    &&& !l.spans@[1].bold
}

fn status_line(focused: bool, text: String) -> (l: Line)
    ensures
        status_row(l, focused, text@),
{
    let marker = if focused {
        Span { text: " \u{25CF} ".to_string(), fg: style(Slot::Accent).fg, bold: false }
    } else {
        Span { text: "   ".to_string(), fg: style(Slot::Fg).fg, bold: false }
    };
    Line { spans: vec![marker, Span { text, fg: style(Slot::FgDim).fg, bold: false }] }
}

/// The text of the canvas status row.
pub open spec fn canvas_status_text(c: CanvasState) -> Seq<char> {
    if c.loading {
        "loading\u{2026}"@
    } else {
        match c.selected {
            Some(id) => "esc home \u{00B7} tab swap \u{00B7} \u{2191}\u{2193}\u{2190}\u{2192} move \u{00B7} drag pan \u{00B7} selected: "@
                + id.0@,
            None => "esc home \u{00B7} tab swap \u{00B7} \u{2191}\u{2193}\u{2190}\u{2192} move \u{00B7} drag pan \u{00B7} click select"@,
        }
    }
}

/// The status row under the canvas.
pub fn canvas_status_line(c: &CanvasState, focus: WorkspaceFocus) -> (l: Line)
    ensures
        status_row(l, focus == WorkspaceFocus::Canvas, canvas_status_text(*c)),
{
    let text = if c.loading {
        "loading\u{2026}".to_string()
    } else {
        match &c.selected {
            Some(id) => {
                let mut v = chars_of(
                    "esc home \u{00B7} tab swap \u{00B7} \u{2191}\u{2193}\u{2190}\u{2192} move \u{00B7} drag pan \u{00B7} selected: ",
                );
                push_str(&mut v, id.as_str());
                string_of(&v)
            },
            None => "esc home \u{00B7} tab swap \u{00B7} \u{2191}\u{2193}\u{2190}\u{2192} move \u{00B7} drag pan \u{00B7} click select".to_string(),
        }
    };
    status_line(focus == WorkspaceFocus::Canvas, text)
}

/// The text of the chat status row.
pub open spec fn chat_status_text(ws: WorkspaceState) -> Seq<char> {
    match ws.chat {
        Some(s) => match s.session {
            Some(sess) => if s.streaming is Some {
                model_display_name(sess.model) + "  \u{2022}  streaming\u{2026}"@
            } else {
                model_display_name(sess.model) + "  \u{2022}  PgUp/PgDn scroll  \u{2022}  /tools  /skills"@
            },
            None => "tab = canvas \u{00B7} esc = home"@,
        },
        None => "tab = canvas \u{00B7} esc = home"@,
    }
}

/// The status row under the chat.
pub fn chat_status_line(ws: &WorkspaceState) -> (l: Line)
    ensures
        status_row(l, ws.focus == WorkspaceFocus::Chat, chat_status_text(*ws)),
{
    let mut v: Vec<char> = Vec::new();
    match &ws.chat {
        Some(s) => match &s.session {
            Some(sess) => {
                push_str(&mut v, sess.model.display_name());
                if s.streaming.is_some() {
                    push_str(&mut v, "  \u{2022}  streaming\u{2026}");
                } else {
                    push_str(&mut v, "  \u{2022}  PgUp/PgDn scroll  \u{2022}  /tools  /skills");
                }
            },
            None => push_str(&mut v, "tab = canvas \u{00B7} esc = home"),
        },
        None => push_str(&mut v, "tab = canvas \u{00B7} esc = home"),
    }
    status_line(ws.focus == WorkspaceFocus::Chat, string_of(&v))
}

/// The prompt box's title and border color: marked and bright when the
/// chat has focus.
pub open spec fn prompt_frame_spec(ws: WorkspaceState) -> (Seq<char>, Color) {
    if ws.focus == WorkspaceFocus::Chat {
        (" \u{25B8} message "@, slot_color(Slot::Accent))
    } else {
        ("   message "@, slot_color(Slot::FgDim))
    }
}

/// The prompt box's title and border color.
pub fn prompt_frame(ws: &WorkspaceState) -> (r: (&'static str, Color))
    ensures
        (r.0@, r.1) == prompt_frame_spec(*ws),
{
    if ws.focus == WorkspaceFocus::Chat {
        (" \u{25B8} message ", style(Slot::Accent).fg)
    } else {
        ("   message ", style(Slot::FgDim).fg)
    }
}

/// The text in the prompt box: the chat's input, or nothing without a chat.
pub fn prompt_text(ws: &WorkspaceState) -> (t: String)
    ensures
        t@ == match ws.chat {
            Some(s) => composer_text(s.input),
            None => Seq::<char>::empty(),
        },
{
    match &ws.chat {
        Some(s) => s.input.text(),
        None => String::new(),
    }
}

/// The lines of the left rail: the counts of nodes and edges, the selected
/// node, the focused region, and the keys.
pub open spec fn left_rail_spec(ws: WorkspaceState, ls: Seq<Line>) -> bool {
    let dim = slot_color(Slot::FgDim);
    let accent = slot_color(Slot::Accent);
    &&& ls.len() == 13
    &&& one_span(ls[0], " workspace "@, accent, true)
    &&& ls[1].spans@.len() == 0
    &&& one_span(ls[2], " "@ + decimal(ws.canvas.graph.nodes@.len()) + " nodes "@, dim, false)
    &&& one_span(ls[3], " "@ + decimal(ws.canvas.graph.edges@.len()) + " edges "@, dim, false)
    &&& ls[4].spans@.len() == 0
    &&& one_span(ls[5], " selected "@, dim, false)
    &&& one_span(
        ls[6],
        match ws.canvas.selected {
            Some(id) => id.0@,
            None => "\u{2014}"@,
        },
        Color::Reset,
        false,
    )
    &&& ls[7].spans@.len() == 0
    &&& one_span(ls[8], " focus "@, dim, false)
    &&& one_span(
        ls[9],
        if ws.focus == WorkspaceFocus::Canvas {
            "canvas"@
        } else {
            "chat"@
        },
        accent,
        false,
    )
    &&& ls[10].spans@.len() == 0
    &&& one_span(ls[11], " tab = swap "@, dim, false)
    &&& one_span(ls[12], " esc = home "@, dim, false)
}

/// `" {n} {what} "`.
fn count_text(n: usize, what: &str) -> (s: String)
    ensures
        s@ == " "@ + decimal(n as nat) + what@,
{
    let mut v = chars_of(" ");
    let d = decimal_of(n);
    push_all(&mut v, &d);
    push_str(&mut v, what);
    string_of(&v)
}

/// The lines of the Workspace's left rail.
pub fn left_rail_lines(ws: &WorkspaceState) -> (ls: Vec<Line>)
    ensures
        left_rail_spec(*ws, ls@),
{
    let dim = style(Slot::FgDim).fg;
    let accent = style(Slot::Accent).fg;
    let selected = match &ws.canvas.selected {
        Some(id) => string_of(&chars_of(id.as_str())),
        None => "\u{2014}".to_string(),
    };
    let focus = if ws.focus == WorkspaceFocus::Canvas {
        "canvas"
    } else {
        "chat"
    };
    let ls = vec![
        span_line(" workspace ".to_string(), accent, true),
        blank_line(),
        span_line(count_text(ws.canvas.graph.nodes.len(), " nodes "), dim, false),
        span_line(count_text(ws.canvas.graph.edges.len(), " edges "), dim, false),
        blank_line(),
        span_line(" selected ".to_string(), dim, false),
        span_line(selected, Color::Reset, false),
        blank_line(),
        span_line(" focus ".to_string(), dim, false),
        span_line(focus.to_string(), accent, false),
        blank_line(),
        span_line(" tab = swap ".to_string(), dim, false),
        span_line(" esc = home ".to_string(), dim, false),
    ];
    ls
}

/// What the form shows in one field: its label, its value, and whether it has focus.
pub struct FieldView {
    pub label: &'static str,
    pub value: String,
    pub focused: bool,
}

/// The three fields of the new-session form: the title as typed, the
/// highlighted model between arrows (a loading mark while the picker
/// loads), and the mode between arrows.
pub open spec fn form_fields_spec(n: NewSessionState, fs: Seq<FieldView>) -> bool {
    let model = match picker_selection(n.model) {
        Some(m) => model_display_name(m),
        None => "loading\u{2026}"@,
    };
    &&& fs.len() == 3
    &&& fs[0].label@ == "Title"@ && fs[0].value@ == composer_text(n.title) && fs[0].focused == (n.field
        == NewSessionField::Title)
    &&& fs[1].label@ == "Model  (\u{2190}/\u{2192})"@ && fs[1].value@ == "\u{2039} "@ + model
        + " \u{203A}"@ && fs[1].focused == (n.field == NewSessionField::Model)
    &&& fs[2].label@ == "Mode  (\u{2190}/\u{2192})"@ && fs[2].value@ == "\u{2039} "@ + mode_label(n.mode)
        + " \u{203A}"@ && fs[2].focused == (n.field == NewSessionField::Mode)
}

/// The fields of the new-session form.
pub fn form_fields(n: &NewSessionState) -> (fs: Vec<FieldView>)
    ensures
        form_fields_spec(*n, fs@),
{
    let mut mv = chars_of("\u{2039} ");
    push_str(&mut mv, n.model.display_name());
    push_str(&mut mv, " \u{203A}");
    let mut dv = chars_of("\u{2039} ");
    push_str(&mut dv, mode_label_of(n.mode));
    push_str(&mut dv, " \u{203A}");
    vec![
        FieldView { label: "Title", value: n.title.text(), focused: n.field == NewSessionField::Title },
        FieldView { label: "Model  (\u{2190}/\u{2192})", value: string_of(&mv), focused: n.field == NewSessionField::Model },
        FieldView { label: "Mode  (\u{2190}/\u{2192})", value: string_of(&dv), focused: n.field == NewSessionField::Mode },
    ]
}

/// The notice under the form: the creation in flight, else the form's error.
pub open spec fn form_notice_spec(n: NewSessionState, r: Option<(String, Color)>) -> bool {
    if n.submitting {
        r matches Some((t, c)) && t@ == "Creating session\u{2026}"@ && c == slot_color(Slot::Warning)
    } else {
        match n.error {
            Some(e) => r matches Some((t, c)) && t@ == e@ && c == slot_color(Slot::Error),
            None => r is None,
        }
    }
}

/// The notice under the new-session form, if any.
pub fn form_notice(n: &NewSessionState) -> (r: Option<(String, Color)>)
    ensures
        form_notice_spec(*n, r),
{
    if n.submitting {
        Some(("Creating session\u{2026}".to_string(), style(Slot::Warning).fg))
    } else {
        match &n.error {
            Some(e) => Some((string_of(&chars_of(e.as_str())), style(Slot::Error).fg)),
            None => None,
        }
    }
}

/// The Home screen's footer.
pub const HOME_FOOTER: &'static str = "n new  \u{2022}  \u{2191}/\u{2193} select  \u{2022}  Enter open  \u{2022}  q quit";

/// What the Home screen's list box shows: a loading notice while the list is
/// fetched, a hint when it is empty, and otherwise one row per session title.
pub open spec fn home_lines_spec(h: HomeState, ls: Seq<Line>) -> bool {
    if h.loading {
        ls.len() == 1 && one_span(ls[0], "Loading sessions\u{2026}"@, Color::Reset, false)
    } else if h.sessions@.len() == 0 {
        &&& ls.len() == 3
        &&& ls[0].spans@.len() == 0
        &&& one_span(ls[1], "No sessions yet."@, Color::Reset, false)
        &&& one_span(ls[2], "Press 'n' to start a new one."@, Color::Reset, false)
    } else {
        &&& ls.len() == h.sessions@.len()
        &&& forall|i: int| 0 <= i < ls.len() ==> one_span(#[trigger] ls[i], h.sessions@[i].title@, Color::Reset, false)
    }
}

/// The Home screen's list box.
pub fn home_lines(h: &HomeState) -> (ls: Vec<Line>)
    ensures
        home_lines_spec(*h, ls@),
{
    if h.loading {
        return vec![span_line("Loading sessions\u{2026}".to_string(), Color::Reset, false)];
    }
    if h.sessions.len() == 0 {
        return vec![
            blank_line(),
            span_line("No sessions yet.".to_string(), Color::Reset, false),
            span_line("Press 'n' to start a new one.".to_string(), Color::Reset, false),
        ];
    }
    let mut ls: Vec<Line> = Vec::new();
    let mut i: usize = 0;
    while i < h.sessions.len()
        invariant
            i <= h.sessions.len(),
            ls@.len() == i,
            forall|j: int| 0 <= j < i ==> one_span(#[trigger] ls@[j], h.sessions@[j].title@, Color::Reset, false),
        decreases h.sessions.len() - i,
    {
        ls.push(span_line(h.sessions[i].title.clone(), Color::Reset, false));
        i = i + 1;
    }
    ls
}

} // verus!
