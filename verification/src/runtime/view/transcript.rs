//! The chat transcript as rows of styled text: each message under its role
//! label, tool calls paired with their results, the turn in flight, and the
//! scroll bookkeeping written back once the rows are measured.
use vstd::prelude::*;

use crate::protocol::{JsonValue, JsonView, Message, MessagePart, MessageView, PartView, Role, parts_view};
use crate::runtime::model::session::SessionState;
use crate::runtime::view::geometry::{min_u16, sat_sub_u16};
use crate::runtime::view::spinner::{spinner_frame, spinner_glyph};
use crate::runtime::view::style::{Color, Line, Span};
use crate::runtime::view::tool_card::{
    body_line_count, body_line_text, call_header_text, render_tool_call_header, render_tool_result_body,
    render_tool_result_header, result_color, result_header_text, summary,
};
use crate::text::{chars_eq, chars_of, push_str, string_of};
use crate::runtime::view::geometry::Rect;

verus! {

/// One row of a transcript: a styled line, markdown still to be laid out,
/// or a tool call whose JSON arguments are still to be printed.
#[derive(Debug)]
pub enum Row {
    Styled(Line),
    Markdown(String),
    CallSummary { name: String, input: JsonValue, fg: Color },
}

/// A line made of one span.
pub open spec fn one_span(l: Line, text: Seq<char>, fg: Color, bold: bool) -> bool {
    &&& l.spans@.len() == 1
    &&& l.spans@[0].text@ == text
    &&& l.spans@[0].fg == fg
    &&& l.spans@[0].bold == bold
}

/// A line of one span.
pub fn span_line(text: String, fg: Color, bold: bool) -> (l: Line)
    ensures
        one_span(l, text@, fg, bold),
        l.text() == text@,
{
    let l = Line { spans: vec![Span { text, fg, bold }] };
    proof {
        reveal_with_fuel(crate::runtime::view::style::spans_text, 2);
        assert(l.spans@.drop_last() =~= Seq::<Span>::empty());
    }
    l
}

/// An empty line.
pub fn blank_line() -> (l: Line)
    ensures
        l.spans@.len() == 0,
{
    Line { spans: Vec::new() }
}

/// What a row shows, in terms of the message it comes from.
pub enum RowPlan {
    /// A blank separator line.
    Blank,
    /// The role label that heads a message.
    Label(Role),
    /// Markdown text.
    Text(Seq<char>),
    /// The header of a tool call: its name and arguments.
    CallHeader(Seq<char>, JsonView),
    /// The header of a standalone tool result.
    ResultHeader(Seq<char>, bool),
    /// The `i`-th body line of a tool result's output.
    ResultBody(JsonView, bool, int),
    /// A file mention.
    Mention(Seq<char>),
    /// A plain line of one span.
    Plain(Seq<char>, Color),
    /// A tool call printed with its JSON arguments.
    CallJson(Seq<char>, JsonView, Color),
    /// A bold line of one span.
    Heading(Seq<char>, Color),
}

/// The label a role's messages are headed with.
pub open spec fn role_label(r: Role) -> Seq<char> {
    match r {
        Role::User => "you"@,
        Role::Assistant => "assistant"@,
        Role::Tool => "tool"@,
    }
}

/// The color of a role's label on the session screen.
pub open spec fn role_color(r: Role) -> Color {
    match r {
        Role::User => Color::Green,
        Role::Assistant => Color::Cyan,
        Role::Tool => Color::Magenta,
    }
}

/// Whether `row` shows what `plan` says.
pub open spec fn row_matches(row: Row, plan: RowPlan) -> bool {
    match plan {
        RowPlan::Blank => row matches Row::Styled(l) && l.spans@.len() == 0,
        RowPlan::Label(role) => row matches Row::Styled(l) && one_span(l, role_label(role), role_color(role), true),
        RowPlan::Text(t) => row matches Row::Markdown(s) && s@ == t,
        RowPlan::CallHeader(name, input) => row matches Row::Styled(l) && l.text() == call_header_text(name, input)
            && l.spans@.len() == 2 && l.spans@[0].fg == Color::Cyan && l.spans@[1].fg == Color::Cyan,
        RowPlan::ResultHeader(name, is_error) => row matches Row::Styled(l) && one_span(
            l,
            result_header_text(name, is_error),
            result_color(is_error),
            false,
        ),
        RowPlan::ResultBody(output, is_error, i) => row matches Row::Styled(l) && one_span(
            l,
            body_line_text(summary(output), is_error, i),
            result_color(is_error),
            false,
        ),
        RowPlan::Mention(path) => row matches Row::Styled(l) && one_span(l, "@"@ + path, Color::Blue, false),
        RowPlan::Plain(t, fg) => row matches Row::Styled(l) && one_span(l, t, fg, false),
        RowPlan::Heading(t, fg) => row matches Row::Styled(l) && one_span(l, t, fg, true),
        RowPlan::CallJson(name, input, fg) => row matches Row::CallSummary { name: n, input: i, fg: c } && n@ == name
            && i@ == input && c == fg,
    }
}

/// Whether `rows` show, one by one, what `plans` say.
pub open spec fn rows_match(rows: Seq<Row>, plans: Seq<RowPlan>) -> bool {
    &&& rows.len() == plans.len()
    &&& forall|i: int| 0 <= i < rows.len() ==> row_matches(#[trigger] rows[i], plans[i])
}

/// The rows of one part on the session screen, after a tool call with id
/// `last` (if the previous part was one). A result right after its own
/// call shares the call's header; any other result gets a header of its own.
pub open spec fn part_plan(p: PartView, last: Option<Seq<char>>) -> Seq<RowPlan> {
    match p {
        PartView::Text(t) => seq![RowPlan::Text(t)],
        PartView::ToolCall { id, name, input } => seq![RowPlan::CallHeader(name, input)],
        PartView::ToolResult { call_id, name, output, is_error } => (if last == Some(call_id) {
            Seq::empty()
        } else {
            seq![RowPlan::ResultHeader(name, is_error)]
        }) + Seq::new(body_line_count(summary(output)), |i: int| RowPlan::ResultBody(output, is_error, i)),
        PartView::FileMention(path) => seq![RowPlan::Mention(path)],
    }
}

/// The id of the tool call a part is, if it is one.
pub open spec fn call_id_of(p: PartView) -> Option<Seq<char>> {
    match p {
        PartView::ToolCall { id, .. } => Some(id),
        _ => None,
    }
}

/// The rows of a run of parts, after a tool call with id `last`.
pub open spec fn parts_plan(parts: Seq<PartView>, last: Option<Seq<char>>) -> Seq<RowPlan>
    decreases parts.len(),
{
    if parts.len() == 0 {
        Seq::empty()
    } else {
        part_plan(parts[0], last) + parts_plan(parts.drop_first(), call_id_of(parts[0]))
    }
}

/// The rows of a message on the session screen: its role label, then its
/// parts in arrival order.
pub open spec fn message_plan(m: MessageView) -> Seq<RowPlan> {
    seq![RowPlan::Label(m.role)] + parts_plan(m.parts, None)
}

/// The characters of an optional character vector.
pub open spec fn opt_chars(o: Option<Vec<char>>) -> Option<Seq<char>> {
    match o {
        Some(v) => Some(v@),
        None => None,
    }
}

proof fn lemma_rows_push(rows: Seq<Row>, plans: Seq<RowPlan>, r: Row, p: RowPlan)
    requires
        rows_match(rows, plans),
        row_matches(r, p),
    ensures
        rows_match(rows.push(r), plans.push(p)),
{
    assert forall|i: int| 0 <= i < rows.len() + 1 implies row_matches(#[trigger] rows.push(r)[i], plans.push(p)[i]) by {
        if i < rows.len() {
            assert(rows.push(r)[i] == rows[i]);
            assert(plans.push(p)[i] == plans[i]);
        }
    }
}

/// Render one message of the session transcript, keeping the arrival order
/// of its parts: text as markdown, tool calls and results summarised.
pub fn render_message(msg: &Message) -> (rows: Vec<Row>)
    ensures
        rows_match(rows@, message_plan(msg@)),
{
    let ghost pv = parts_view(msg.parts@);
    let (label, color) = match msg.role {
        Role::User => ("you", Color::Green),
        Role::Assistant => ("assistant", Color::Cyan),
        Role::Tool => ("tool", Color::Magenta),
    };
    let mut out: Vec<Row> = Vec::new();
    out.push(Row::Styled(span_line(label.to_string(), color, true)));
    let ghost done: Seq<RowPlan> = seq![RowPlan::Label(msg.role)];
    assert(rows_match(out@, done));
    // The id of the tool call the previous part was, if it was one.
    let mut last: Option<Vec<char>> = None;
    let mut i: usize = 0;
    assert(pv.skip(0) =~= pv);
    while i < msg.parts.len()
        invariant
            i <= msg.parts.len(),
            pv == parts_view(msg.parts@),
            rows_match(out@, done),
            message_plan(msg@) == done + parts_plan(
                pv.skip(i as int),
                opt_chars(last),
            ),
        decreases msg.parts.len() - i,
    {
        let ghost lv = opt_chars(last);
        proof {
            assert(pv.skip(i as int)[0] == msg.parts@[i as int]@);
            assert(pv.skip(i as int).drop_first() =~= pv.skip(i + 1));
        }
        let ghost step = part_plan(msg.parts@[i as int]@, lv);
        match &msg.parts[i] {
            MessagePart::Text { text } => {
                let r = Row::Markdown(string_of(&chars_of(text.as_str())));
                proof {
                    lemma_rows_push(out@, done, r, RowPlan::Text(text@));
                    done = done.push(RowPlan::Text(text@));
                    assert(step =~= seq![RowPlan::Text(text@)]);
                }
                out.push(r);
                last = None;
            },
            MessagePart::ToolCall(call) => {
                let r = Row::Styled(render_tool_call_header(call));
                proof {
                    lemma_rows_push(out@, done, r, RowPlan::CallHeader(call.name@, call.input@));
                    done = done.push(RowPlan::CallHeader(call.name@, call.input@));
                    assert(step =~= seq![RowPlan::CallHeader(call.name@, call.input@)]);
                }
                out.push(r);
                last = Some(chars_of(call.id.as_str()));
            },
            MessagePart::ToolResult(res) => {
                let cid = chars_of(res.call_id.as_str());
                let paired = match &last {
                    Some(v) => chars_eq(v, &cid),
                    None => false,
                };
                let ghost before = done;
                if !paired {
                    let hl = render_tool_result_header(res);
                    proof {
                        reveal_with_fuel(crate::runtime::view::style::spans_text, 2);
                        assert(hl.spans@.drop_last() =~= Seq::<Span>::empty());
                    }
                    let r = Row::Styled(hl);
                    proof {
                        lemma_rows_push(out@, done, r, RowPlan::ResultHeader(res.name@, res.is_error));
                        done = done.push(RowPlan::ResultHeader(res.name@, res.is_error));
                    }
                    out.push(r);
                }
                let ghost mid = done;
                let mut body = render_tool_result_body(res);
                let ghost orig = body@;
                let n = body.len();
                let mut j: usize = 0;
                assert(orig.skip(0) =~= orig);
                while j < n
                    invariant
                        j <= n,
                        n == orig.len(),
                        body@ == orig.skip(j as int),
                        orig.len() == body_line_count(summary(res.output@)),
                        forall|k: int|
                            0 <= k < orig.len() ==> (#[trigger] orig[k]).text() == body_line_text(
                                summary(res.output@),
                                res.is_error,
                                k,
                            ) && orig[k].spans@.len() == 1 && orig[k].spans@[0].fg == result_color(res.is_error)
                                && !orig[k].spans@[0].bold,
                        rows_match(out@, done),
                        done == mid + Seq::new(
                            j as nat,
                            |k: int| RowPlan::ResultBody(res.output@, res.is_error, k),
                        ),
                    decreases n - j,
                {
                    assert(body@[0] == orig[j as int]);
                    let l = body.remove(0);
                    assert(body@ =~= orig.skip(j + 1));
                    let ghost lb = orig[j as int];
                    let r = Row::Styled(l);
                    proof {
                        reveal_with_fuel(crate::runtime::view::style::spans_text, 2);
                        assert(lb.spans@.drop_last() =~= Seq::<Span>::empty());
                        lemma_rows_push(out@, done, r, RowPlan::ResultBody(res.output@, res.is_error, j as int));
                        done = done.push(RowPlan::ResultBody(res.output@, res.is_error, j as int));
                        assert(done =~= mid + Seq::new(
                            (j + 1) as nat,
                            |k: int| RowPlan::ResultBody(res.output@, res.is_error, k),
                        ));
                    }
                    out.push(r);
                    j = j + 1;
                }
                proof {
                    assert(lv == Some(res.call_id@) <==> paired);
                    assert(done =~= before + step);
                }
                last = None;
            },
            MessagePart::FileMention { path } => {
                let mut t = chars_of("@");
                push_str(&mut t, path.as_str());
                let r = Row::Styled(span_line(string_of(&t), Color::Blue, false));
                proof {
                    lemma_rows_push(out@, done, r, RowPlan::Mention(path@));
                    done = done.push(RowPlan::Mention(path@));
                    assert(step =~= seq![RowPlan::Mention(path@)]);
                }
                out.push(r);
                last = None;
            },
        }
        proof {
            assert(parts_plan(pv.skip(i as int), lv) == step + parts_plan(
                pv.skip(i + 1),
                call_id_of(msg.parts@[i as int]@),
            ));
        }
        i = i + 1;
    }
    assert(pv.skip(msg.parts.len() as int) =~= Seq::<PartView>::empty());
    out
}

/// The rows of a history on the session screen: each message, then a blank line.
pub open spec fn history_plan(ms: Seq<MessageView>) -> Seq<RowPlan>
    decreases ms.len(),
{
    if ms.len() == 0 {
        Seq::empty()
    } else {
        history_plan(ms.drop_last()) + message_plan(ms.last()) + seq![RowPlan::Blank]
    }
}

/// The spinner frame shown after `ms` milliseconds.
pub open spec fn spinner_at(ms: u128) -> Seq<char> {
    spinner_glyph(((ms / 80) % 10) as int)
}

/// The rows of the turn in flight: a spinner line, then the text so far.
pub open spec fn turn_plan(s: SessionState, turn_ms: u128, fg: Color) -> Seq<RowPlan> {
    match s.streaming {
        Some(st) => seq![RowPlan::Plain(spinner_at(turn_ms) + " assistant"@, fg)] + (if st.buffer@.len() > 0 {
            seq![RowPlan::Text(st.buffer@)]
        } else {
            Seq::empty()
        }),
        None => Seq::empty(),
    }
}

/// The head of the session screen's transcript: the history, or before
/// there is a session a one-line hint (a spinner while it is being created).
pub open spec fn session_head_plan(s: SessionState, creating_ms: u128) -> Seq<RowPlan> {
    match s.session {
        Some(sess) => history_plan(crate::protocol::messages_view(sess.messages@)),
        None => seq![
            RowPlan::Plain(
                if s.creation_started_at is Some {
                    spinner_at(creating_ms) + " starting session\u{2026}"@
                } else {
                    "Type a message to start a new session."@
                },
                Color::DarkGray,
            ),
        ],
    }
}

/// The session screen's transcript: its head, then the turn in flight.
/// `creating_ms` and `turn_ms` are how long the creation and the turn have
/// been running.
pub open spec fn session_transcript_plan(s: SessionState, creating_ms: u128, turn_ms: u128) -> Seq<RowPlan> {
    session_head_plan(s, creating_ms) + turn_plan(s, turn_ms, Color::Yellow)
}

/// Append `more` rows, matched by `plans`, to `rows`.
fn append_rows(out: &mut Vec<Row>, more: Vec<Row>, Ghost(done): Ghost<Seq<RowPlan>>, Ghost(plans): Ghost<Seq<RowPlan>>)
    requires
        rows_match(old(out)@, done),
        rows_match(more@, plans),
    ensures
        rows_match(final(out)@, done + plans),
{
    let mut more = more;
    let ghost orig = more@;
    let n = more.len();
    let mut j: usize = 0;
    let ghost mut acc = done;
    assert(orig.skip(0) =~= orig);
    while j < n
        invariant
            j <= n,
            n == orig.len(),
            more@ == orig.skip(j as int),
            rows_match(orig, plans),
            rows_match(out@, acc),
            acc == done + plans.take(j as int),
        decreases n - j,
    {
        assert(more@[0] == orig[j as int]);
        let r = more.remove(0);
        assert(more@ =~= orig.skip(j + 1));
        proof {
            assert(row_matches(orig[j as int], plans[j as int]));
            lemma_rows_push(out@, acc, r, plans[j as int]);
            acc = acc.push(plans[j as int]);
            assert(acc =~= done + plans.take(j + 1));
        }
        out.push(r);
        j = j + 1;
    }
    assert(plans.take(n as int) =~= plans);
}

/// The rows of a history: each message rendered by `render_message`, then a blank line.
fn history_rows(ms: &Vec<Message>) -> (rows: Vec<Row>)
    ensures
        rows_match(rows@, history_plan(crate::protocol::messages_view(ms@))),
{
    let ghost mv = crate::protocol::messages_view(ms@);
    let mut out: Vec<Row> = Vec::new();
    let mut i: usize = 0;
    while i < ms.len()
        invariant
            i <= ms.len(),
            mv == crate::protocol::messages_view(ms@),
            rows_match(out@, history_plan(mv.take(i as int))),
        decreases ms.len() - i,
    {
        let rows = render_message(&ms[i]);
        let ghost before = history_plan(mv.take(i as int));
        append_rows(&mut out, rows, Ghost(before), Ghost(message_plan(ms@[i as int]@)));
        let b = Row::Styled(blank_line());
        proof {
            lemma_rows_push(out@, before + message_plan(ms@[i as int]@), b, RowPlan::Blank);
            assert(mv.take(i + 1).drop_last() =~= mv.take(i as int));
            assert(mv.take(i + 1).last() == ms@[i as int]@);
            assert(history_plan(mv.take(i + 1)) =~= before + message_plan(ms@[i as int]@) + seq![RowPlan::Blank]);
        }
        out.push(b);
        i = i + 1;
    }
    assert(mv.take(ms.len() as int) =~= mv);
    out
}

/// `prefix` followed by the spinner frame for `ms` milliseconds.
fn spinner_text(ms: u128, rest: &str) -> (s: String)
    ensures
        s@ == spinner_at(ms) + rest@,
{
    let mut t = chars_of(spinner_frame(ms));
    push_str(&mut t, rest);
    string_of(&t)
}

/// The rows of the turn in flight, if there is one.
fn turn_rows(s: &SessionState, turn_ms: u128, fg: Color) -> (rows: Vec<Row>)
    ensures
        rows_match(rows@, turn_plan(*s, turn_ms, fg)),
{
    let mut out: Vec<Row> = Vec::new();
    match &s.streaming {
        Some(st) => {
            let r = Row::Styled(span_line(spinner_text(turn_ms, " assistant"), fg, false));
            proof {
                lemma_rows_push(out@, Seq::empty(), r, RowPlan::Plain(spinner_at(turn_ms) + " assistant"@, fg));
            }
            out.push(r);
            let text = chars_of(st.buffer.as_str());
            if text.len() > 0 {
                let m = Row::Markdown(string_of(&text));
                proof {
                    lemma_rows_push(
                        out@,
                        seq![RowPlan::Plain(spinner_at(turn_ms) + " assistant"@, fg)],
                        m,
                        RowPlan::Text(st.buffer@),
                    );
                }
                out.push(m);
            }
            proof {
                assert(turn_plan(*s, turn_ms, fg) =~= seq![RowPlan::Plain(spinner_at(turn_ms) + " assistant"@, fg)] + (
                if st.buffer@.len() > 0 {
                    seq![RowPlan::Text(st.buffer@)]
                } else {
                    Seq::<RowPlan>::empty()
                }));
            }
        },
        None => {},
    }
    out
}

/// The rows of the session screen's transcript.
pub fn session_transcript(s: &SessionState, creating_ms: u128, turn_ms: u128) -> (rows: Vec<Row>)
    ensures
        rows_match(rows@, session_transcript_plan(*s, creating_ms, turn_ms)),
{
    let ghost head = session_head_plan(*s, creating_ms);
    let mut out = match &s.session {
        Some(sess) => history_rows(&sess.messages),
        None => {
            let text = match s.creation_started_at {
                Some(_) => spinner_text(creating_ms, " starting session\u{2026}"),
                None => "Type a message to start a new session.".to_string(),
            };
            let r = Row::Styled(span_line(text, Color::DarkGray, false));
            let mut v: Vec<Row> = Vec::new();
            proof {
                lemma_rows_push(v@, Seq::empty(), r, head[0]);
                assert(seq![head[0]] =~= head);
                assert(Seq::<RowPlan>::empty().push(head[0]) =~= head);
            }
            v.push(r);
            v
        },
    };
    let turn = turn_rows(s, turn_ms, Color::Yellow);
    append_rows(&mut out, turn, Ghost(head), Ghost(turn_plan(*s, turn_ms, Color::Yellow)));
    out
}

/// `n` clamped to the `u16` range.
pub open spec fn clamp_u16(n: usize) -> u16 {
    if n > u16::MAX {
        u16::MAX
    } else {
        n as u16
    }
}

/// The session after a frame measured its transcript: `total` wrapped lines
/// in a viewport `height` rows tall. The largest scroll leaves the last line
/// at the bottom; a following transcript sits there, any other keeps its
/// offset within range.
pub open spec fn measured(s: SessionState, total: u16, height: u16) -> SessionState {
    let max = sat_sub_u16(total as int, height as int);
    SessionState {
        viewport: height,
        max_scroll: max,
        scroll: if s.follow {
            max
        } else {
            min_u16(s.scroll, max)
        },
        ..s
    }
}

/// Record the measured transcript: `line_count` wrapped lines shown in a
/// viewport `height` rows tall.
pub fn record_transcript_height(s: &mut SessionState, line_count: usize, height: u16)
    ensures
        *final(s) == measured(*old(s), clamp_u16(line_count), height),
{
    let total: u16 = if line_count > 65535 {
        65535
    } else {
        line_count as u16
    };
    s.viewport = height;
    s.max_scroll = if total < height {
        0
    } else {
        total - height
    };
    if s.follow {
        s.scroll = s.max_scroll;
    } else if s.scroll > s.max_scroll {
        s.scroll = s.max_scroll;
    }
}

} // verus!
