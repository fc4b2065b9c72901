//! The Workspace's text: its transcript, the left rail, and the status rows
//! of the canvas and the chat.
use vstd::prelude::*;

use crate::canvas::NodeId;
use crate::protocol::{model_display_name, Message, MessagePart, MessageView, PartView, Role, parts_view};
use crate::runtime::model::session::SessionState;
use crate::runtime::model::workspace::{CanvasState, WorkspaceFocus, WorkspaceState};
use crate::runtime::view::style::{Color, Line, Span};
use crate::runtime::view::theme::{slot_color, style, Slot};
use crate::runtime::view::transcript::{
    blank_line, one_span, row_matches, rows_match, span_line, spinner_at, turn_plan, Row, RowPlan,
};
use crate::text::{chars_of, decimal, decimal_of, push_all, push_str, string_of};

verus! {

/// The slot of a role's label in the Workspace.
pub open spec fn role_slot(r: Role) -> Slot {
    match r {
        Role::User => Slot::Success,
        Role::Assistant => Slot::Accent,
        Role::Tool => Slot::Warning,
    }
}

/// The label a role's messages are headed with.
pub open spec fn label_of(r: Role) -> Seq<char> {
    match r {
        Role::User => "you"@,
        Role::Assistant => "assistant"@,
        Role::Tool => "tool"@,
    }
}

/// The row of one part in the Workspace transcript: text as markdown, a
/// tool call with its arguments, a result by name, a mention by path.
pub open spec fn compact_part_plan(p: PartView) -> RowPlan {
    match p {
        PartView::Text(t) => RowPlan::Text(t),
        PartView::ToolCall { id, name, input } => RowPlan::CallJson(name, input, slot_color(Slot::Warning)),
        PartView::ToolResult { call_id, name, output, is_error } => RowPlan::Plain(
            "\u{2190} "@ + name + " result"@,
            slot_color(Slot::Warning),
        ),
        PartView::FileMention(path) => RowPlan::Plain("@"@ + path, slot_color(Slot::AccentAlt)),
    }
}

/// The rows of a message in the Workspace: its role label, then one row per part.
pub open spec fn compact_message_plan(m: MessageView) -> Seq<RowPlan> {
    seq![RowPlan::Heading(label_of(m.role), slot_color(role_slot(m.role)))] + m.parts.map_values(
        |p: PartView| compact_part_plan(p),
    )
}

/// Render one message of the Workspace transcript.
pub fn render_compact_message(msg: &Message) -> (rows: Vec<Row>)
    ensures
        rows_match(rows@, compact_message_plan(msg@)),
{
    let ghost pv = parts_view(msg.parts@);
    let (label, slot) = match msg.role {
        Role::User => ("you", Slot::Success),
        Role::Assistant => ("assistant", Slot::Accent),
        Role::Tool => ("tool", Slot::Warning),
    };
    let mut out: Vec<Row> = Vec::new();
    out.push(Row::Styled(span_line(label.to_string(), style(slot).fg, true)));
    let mut i: usize = 0;
    while i < msg.parts.len()
        invariant
            i <= msg.parts.len(),
            pv == parts_view(msg.parts@),
            out@.len() == i + 1,
            row_matches(out@[0], RowPlan::Heading(label_of(msg.role), slot_color(role_slot(msg.role)))),
            forall|j: int| 0 <= j < i ==> row_matches(#[trigger] out@[j + 1], compact_part_plan(pv[j])),
        decreases msg.parts.len() - i,
    {
        let warn = style(Slot::Warning).fg;
        let r = match &msg.parts[i] {
            MessagePart::Text { text } => Row::Markdown(string_of(&chars_of(text.as_str()))),
            MessagePart::ToolCall(call) => Row::CallSummary {
                name: string_of(&chars_of(call.name.as_str())),
                input: crate::protocol::json_copy(&call.input),
                fg: warn,
            },
            MessagePart::ToolResult(res) => {
                let mut t = chars_of("\u{2190} ");
                push_str(&mut t, res.name.as_str());
                push_str(&mut t, " result");
                Row::Styled(span_line(string_of(&t), warn, false))
            },
            MessagePart::FileMention { path } => {
                let mut t = chars_of("@");
                push_str(&mut t, path.as_str());
                Row::Styled(span_line(string_of(&t), style(Slot::AccentAlt).fg, false))
            },
        };
        assert(row_matches(r, compact_part_plan(pv[i as int])));
        out.push(r);
        i = i + 1;
    }
    assert(rows_match(out@, compact_message_plan(msg@))) by {
        assert forall|j: int| 0 <= j < out@.len() implies row_matches(
            #[trigger] out@[j],
            compact_message_plan(msg@)[j],
        ) by {
            if j > 0 {
                assert(out@[(j - 1) + 1] == out@[j]);
            }
        }
    }
    out
}

/// The rows of a history in the Workspace: each message, then a blank line.
pub open spec fn compact_history_plan(ms: Seq<MessageView>) -> Seq<RowPlan>
    decreases ms.len(),
{
    if ms.len() == 0 {
        Seq::empty()
    } else {
        compact_history_plan(ms.drop_last()) + compact_message_plan(ms.last()) + seq![RowPlan::Blank]
    }
}

/// The history rows of a chat.
pub open spec fn chat_history_plan(s: SessionState) -> Seq<RowPlan> {
    match s.session {
        Some(sess) => compact_history_plan(crate::protocol::messages_view(sess.messages@)),
        None => Seq::empty(),
    }
}

/// The Workspace's transcript: without a chat a hint to start one; with one,
/// its history and the turn in flight (`turn_ms` is how long it has run).
pub open spec fn workspace_transcript_plan(ws: WorkspaceState, turn_ms: u128) -> Seq<RowPlan> {
    match ws.chat {
        Some(s) => chat_history_plan(s) + turn_plan(s, turn_ms, slot_color(Slot::Warning)),
        None => seq![
            RowPlan::Blank,
            RowPlan::Plain("no session yet \u{2014} type a prompt to start one."@, slot_color(Slot::FgDim)),
        ],
    }
}

/// Append the rows of `more` to `out`.
fn extend_rows(out: &mut Vec<Row>, more: Vec<Row>, Ghost(done): Ghost<Seq<RowPlan>>, Ghost(plans): Ghost<Seq<RowPlan>>)
    requires
        rows_match(old(out)@, done),
        rows_match(more@, plans),
    ensures
        rows_match(final(out)@, done + plans),
{
    let mut more = more;
    let ghost orig = more@;
    let n = more.len();
    let mut j: usize = 0;
    assert(orig.skip(0) =~= orig);
    while j < n
        invariant
            j <= n,
            n == orig.len(),
            more@ == orig.skip(j as int),
            rows_match(orig, plans),
            out@.len() == done.len() + j,
            forall|k: int| 0 <= k < done.len() ==> row_matches(#[trigger] out@[k], done[k]),
            forall|k: int| 0 <= k < j ==> row_matches(#[trigger] out@[done.len() + k], plans[k]),
        decreases n - j,
    {
        assert(more@[0] == orig[j as int]);
        let r = more.remove(0);
        assert(more@ =~= orig.skip(j + 1));
        assert(row_matches(orig[j as int], plans[j as int]));
        out.push(r);
        j = j + 1;
    }
    assert forall|k: int| 0 <= k < out@.len() implies row_matches(#[trigger] out@[k], (done + plans)[k]) by {
        if k >= done.len() {
            assert(out@[done.len() + (k - done.len())] == out@[k]);
        }
    }
}

/// The rows of the Workspace transcript.
pub fn workspace_transcript(ws: &WorkspaceState, turn_ms: u128) -> (rows: Vec<Row>)
    ensures
        rows_match(rows@, workspace_transcript_plan(*ws, turn_ms)),
{
    let mut out: Vec<Row> = Vec::new();
    match &ws.chat {
        Some(s) => {
            let ghost head = chat_history_plan(*s);
            match &s.session {
                Some(sess) => {
                    let ghost mv = crate::protocol::messages_view(sess.messages@);
                    let mut i: usize = 0;
                    while i < sess.messages.len()
                        invariant
                            i <= sess.messages.len(),
                            mv == crate::protocol::messages_view(sess.messages@),
                            rows_match(out@, compact_history_plan(mv.take(i as int))),
                        decreases sess.messages.len() - i,
                    {
                        let rows = render_compact_message(&sess.messages[i]);
                        let ghost before = compact_history_plan(mv.take(i as int));
                        extend_rows(&mut out, rows, Ghost(before), Ghost(compact_message_plan(sess.messages@[i as int]@)));
                        let b = Row::Styled(blank_line());
                        extend_rows(
                            &mut out,
                            vec![b],
                            Ghost(before + compact_message_plan(sess.messages@[i as int]@)),
                            Ghost(Seq::<RowPlan>::empty().push(RowPlan::Blank)),
                        );
                        proof {
                            assert(Seq::<RowPlan>::empty().push(RowPlan::Blank) =~= seq![RowPlan::Blank]);
                            assert(mv.take(i + 1).drop_last() =~= mv.take(i as int));
                            assert(mv.take(i + 1).last() == sess.messages@[i as int]@);
                        }
                        i = i + 1;
                    }
                    assert(mv.take(sess.messages.len() as int) =~= mv);
                },
                None => {},
            }
            let ghost warn = slot_color(Slot::Warning);
            let mut turn: Vec<Row> = Vec::new();
            match &s.streaming {
                Some(st) => {
                    let mut t = chars_of(crate::runtime::view::spinner::spinner_frame(turn_ms));
                    push_str(&mut t, " assistant");
                    turn.push(Row::Styled(span_line(string_of(&t), style(Slot::Warning).fg, false)));
                    let text = chars_of(st.buffer.as_str());
                    if text.len() > 0 {
                        turn.push(Row::Markdown(string_of(&text)));
                    }
                },
                None => {},
            }
            proof {
                let tp = turn_plan(*s, turn_ms, warn);
                assert(rows_match(turn@, tp)) by {
                    assert forall|k: int| 0 <= k < turn@.len() implies row_matches(#[trigger] turn@[k], tp[k]) by {}
                }
            }
            extend_rows(&mut out, turn, Ghost(head), Ghost(turn_plan(*s, turn_ms, warn)));
        },
        None => {
            let hint = span_line(
                "no session yet \u{2014} type a prompt to start one.".to_string(),
                style(Slot::FgDim).fg,
                false,
            );
            out.push(Row::Styled(blank_line()));
            out.push(Row::Styled(hint));
            proof {
                let p = workspace_transcript_plan(*ws, turn_ms);
                assert forall|k: int| 0 <= k < out@.len() implies row_matches(#[trigger] out@[k], p[k]) by {}
            }
        },
    }
    out
}

} // verus!
