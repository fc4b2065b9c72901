//! A compact card for a tool invocation in the chat transcript: the tool's
//! name, a one-line summary of its arguments, and a terse preview of its
//! result. Overlong values are elided with `…`.
use vstd::prelude::*;

use crate::protocol::{json_fields_view, json_list_view, JsonValue, JsonView, ToolCall, ToolResult};
use crate::sort::{sort_strs, sorted_strs, strs_view};
use crate::text::{chars_of, decimal, decimal_of, join, lines, lines_of, push_all, push_str, string_of, sub_vec, utf8_len, utf8_len_exceeds, views};
use crate::runtime::view::style::{Color, Line, Span};

verus! {

/// Longest argument summary shown in a call header.
pub const MAX_ARGS_CHARS: usize = 60;

/// Most result lines shown under a card.
pub const MAX_RESULT_LINES: usize = 2;

/// Longest result line shown under a card.
pub const MAX_RESULT_LINE_CHARS: usize = 80;

/// Longest field value (in UTF-8 bytes) spelled out in an object summary.
pub const SUMMARISED_VALUE_MAX_CHARS: usize = 24;

pub open spec fn ellipsis() -> Seq<char> {
    seq!['\u{2026}']
}

/// The first line of `s` cut to at most `max` characters; a cut, or a
/// dropped later line, is marked by a final `…` within the cap. A zero cap
/// gives `…` alone.
pub open spec fn truncated(s: Seq<char>, max: nat) -> Seq<char> {
    if max == 0 {
        ellipsis()
    } else {
        let first = if lines(s).len() > 0 { lines(s)[0] } else { Seq::<char>::empty() };
        if lines(s).len() <= 1 && first.len() <= max {
            first
        } else if first.len() <= max - 1 {
            first + ellipsis()
        } else {
            first.take(max - 1) + ellipsis()
        }
    }
}

/// `[n items]`, or `[1 item]`.
pub open spec fn array_summary(n: nat) -> Seq<char> {
    "["@ + decimal(n) + (if n == 1 { " item"@ } else { " items"@ }) + "]"@
}

/// How one field of an object is summarised, given its value's summary.
pub open spec fn entry_text(k: Seq<char>, vs: Seq<char>) -> Seq<char> {
    if vs.len() == 0 {
        k
    } else if utf8_len(vs) > SUMMARISED_VALUE_MAX_CHARS {
        k + ": "@ + ellipsis()
    } else {
        k + ": "@ + vs
    }
}

/// The one-line summary of a JSON value: scalars as themselves, `null` as
/// nothing, arrays by their length, objects as their sorted field summaries.
pub open spec fn summary(v: JsonView) -> Seq<char>
    decreases v,
{
    match v {
        JsonView::Null => Seq::empty(),
        JsonView::Bool(b) => if b {
            "true"@
        } else {
            "false"@
        },
        JsonView::Number(n) => n,
        JsonView::Str(s) => s,
        JsonView::Array(a) => array_summary(a.len()),
        JsonView::Object(o) => "{"@ + join(sorted_strs(entry_texts(o)), ", "@) + "}"@,
    }
}

/// The field summaries of an object, in field order.
pub open spec fn entry_texts(o: Seq<(Seq<char>, JsonView)>) -> Seq<Seq<char>>
    decreases o,
{
    if o.len() == 0 {
        Seq::empty()
    } else {
        entry_texts(o.drop_last()).push(entry_text(o.last().0, summary(o.last().1)))
    }
}

/// A copy of `v`.
fn copy_chars(v: &Vec<char>) -> (out: Vec<char>)
    ensures
        out@ == v@,
{
    let out = sub_vec(v, 0, v.len());
    assert(v@.subrange(0, v.len() as int) =~= v@);
    out
}

/// `truncated` over characters.
pub fn truncate_chars(v: &Vec<char>, max_chars: usize) -> (out: Vec<char>)
    ensures
        out@ == truncated(v@, max_chars as nat),
{
    if max_chars == 0 {
        return vec!['\u{2026}'];
    }
    let ls = lines_of(v);
    let first: Vec<char> = if ls.len() > 0 {
        copy_chars(&ls[0])
    } else {
        Vec::new()
    };
    assert(ls.len() > 0 ==> first@ == lines(v@)[0]);
    let had_more = ls.len() > 1;
    if !had_more && first.len() <= max_chars {
        first
    } else {
        let cap = max_chars - 1;
        let n = if first.len() <= cap {
            first.len()
        } else {
            cap
        };
        let mut out = sub_vec(&first, 0, n);
        out.push('\u{2026}');
        assert(first@.subrange(0, n as int) =~= (if first@.len() <= cap { first@ } else { first@.take(cap as int) }));
        out
    }
}

/// Truncate the first line of `s` to at most `max_chars` characters. If the
/// input was cut, or had further lines, the last character is `…`, keeping
/// the total within the cap; with `max_chars == 0` the result is `…`.
pub fn truncate_one_line(s: &str, max_chars: usize) -> (out: String)
    ensures
        out@ == truncated(s@, max_chars as nat),
{
    let v = chars_of(s);
    let t = truncate_chars(&v, max_chars);
    string_of(&t)
}

/// The summary of `v`, as characters.
pub fn summarise_chars(v: &JsonValue) -> (out: Vec<char>)
    ensures
        out@ == summary(v@),
    decreases v,
{
    match v {
        JsonValue::Null => Vec::new(),
        JsonValue::Bool(b) => {
            if *b {
                chars_of("true")
            } else {
                chars_of("false")
            }
        },
        JsonValue::Number(n) => chars_of(n.as_str()),
        JsonValue::String(s) => chars_of(s.as_str()),
        JsonValue::Array(a) => {
            let mut out: Vec<char> = Vec::new();
            push_str(&mut out, "[");
            let d = decimal_of(a.len());
            push_all(&mut out, &d);
            if a.len() == 1 {
                push_str(&mut out, " item");
            } else {
                push_str(&mut out, " items");
            }
            push_str(&mut out, "]");
            proof {
                lemma_json_list_len(a@);
            }
            out
        },
        JsonValue::Object(o) => {
            let mut entries: Vec<Vec<char>> = Vec::new();
            let mut i: usize = 0;
            while i < o.len()
                invariant
                    i <= o.len(),
                    *v == JsonValue::Object(*o),
                    strs_view(entries@) == entry_texts(json_fields_view(o@.take(i as int))),
                decreases o.len() - i,
            {
                proof {
                    assert(decreases_to!(*v => v->Object_0));
                    assert(decreases_to!(v->Object_0 => v->Object_0@));
                    assert(decreases_to!(v->Object_0@ => v->Object_0@[i as int]));
                    assert(decreases_to!(v->Object_0@[i as int] => v->Object_0@[i as int].1));
                }
                let vs = summarise_chars(&o[i].1);
                let key = chars_of(o[i].0.as_str());
                let mut e = copy_chars(&key);
                if vs.len() == 0 {
                } else if utf8_len_exceeds(&vs, SUMMARISED_VALUE_MAX_CHARS) {
                    push_str(&mut e, ": ");
                    e.push('\u{2026}');
                } else {
                    push_str(&mut e, ": ");
                    push_all(&mut e, &vs);
                }
                let ghost before = strs_view(entries@);
                entries.push(e);
                proof {
                    assert(o@.take(i + 1).drop_last() =~= o@.take(i as int));
                    assert(json_fields_view(o@.take(i + 1)).last() == (o@[i as int].0@, o@[i as int].1@));
                    assert(json_fields_view(o@.take(i + 1)).drop_last() == json_fields_view(o@.take(i as int)));
                    assert(strs_view(entries@) =~= before.push(e@));
                    assert(e@ =~= entry_text(o@[i as int].0@, summary(o@[i as int].1@)));
                }
                i = i + 1;
            }
            assert(o@.take(o.len() as int) =~= o@);
            let sorted = sort_strs(entries);
            let sep = chars_of(", ");
            let joined = join_all(&sorted, &sep);
            let mut out: Vec<char> = Vec::new();
            push_str(&mut out, "{");
            push_all(&mut out, &joined);
            push_str(&mut out, "}");
            out
        },
    }
}

proof fn lemma_json_list_len(s: Seq<JsonValue>)
    ensures
        json_list_view(s).len() == s.len(),
    decreases s.len(),
{
    if s.len() > 0 {
        lemma_json_list_len(s.drop_last());
    }
}

/// The items of `parts` joined with `sep` between neighbours.
pub fn join_all(parts: &Vec<Vec<char>>, sep: &Vec<char>) -> (out: Vec<char>)
    ensures
        out@ == join(strs_view(parts@), sep@),
{
    let mut out: Vec<char> = Vec::new();
    if parts.len() == 0 {
        assert(strs_view(parts@) =~= Seq::<Seq<char>>::empty());
        return out;
    }
    let n = parts.len();
    // Built back to front: `acc` is the join of `parts[i..]`.
    let mut acc = copy_chars(&parts[n - 1]);
    let mut i = n - 1;
    assert(strs_view(parts@).skip(i as int) =~= seq![parts@[i as int]@]);
    while i > 0
        invariant
            0 <= i < n == parts.len(),
            acc@ == join(strs_view(parts@).skip(i as int), sep@),
        decreases i,
    {
        let mut next = copy_chars(&parts[i - 1]);
        push_all(&mut next, sep);
        push_all(&mut next, &acc);
        proof {
            let t = strs_view(parts@).skip(i - 1);
            assert(t.drop_first() =~= strs_view(parts@).skip(i as int));
            assert(t[0] == parts@[i - 1]@);
        }
        acc = next;
        i = i - 1;
    }
    assert(strs_view(parts@).skip(0) =~= strs_view(parts@));
    acc
}

/// Compact one-line summary of a JSON value: scalars as themselves,
/// `null` as the empty string, arrays as `[n items]`, objects as
/// `{k: v, k2: v2}` with the fields sorted.
pub fn summarise_json(v: &JsonValue) -> (s: String)
    ensures
        s@ == summary(v@),
{
    let c = summarise_chars(v);
    string_of(&c)
}

/// The header line of a tool call: the tool glyph, then `name(args)`.
pub open spec fn call_header_text(name: Seq<char>, input: JsonView) -> Seq<char> {
    "\u{1F6E0}\u{FE0F} "@ + name + "("@ + truncated(summary(input), MAX_ARGS_CHARS as nat) + ")"@
}

/// Render the `🛠️ ` header line of a tool call, its arguments summarised on one line.
pub fn render_tool_call_header(call: &ToolCall) -> (line: Line)
    ensures
        line.text() == call_header_text(call.name@, call.input@),
        line.spans@.len() == 2,
        line.spans@[0].fg == Color::Cyan && !line.spans@[0].bold,
        line.spans@[1].fg == Color::Cyan && line.spans@[1].bold,
{
    let summary = summarise_chars(&call.input);
    let args = truncate_chars(&summary, MAX_ARGS_CHARS);
    let mut body = chars_of(call.name.as_str());
    push_str(&mut body, "(");
    push_all(&mut body, &args);
    push_str(&mut body, ")");
    let glyph = Span { text: "\u{1F6E0}\u{FE0F} ".to_string(), fg: Color::Cyan, bold: false };
    let head = Span { text: string_of(&body), fg: Color::Cyan, bold: true };
    let line = Line { spans: vec![glyph, head] };
    proof {
        reveal_with_fuel(crate::runtime::view::style::spans_text, 3);
        assert(line.spans@.drop_last() =~= seq![line.spans@[0]]);
        assert(line.spans@.drop_last().drop_last() =~= Seq::<Span>::empty());
        assert(line.text() =~= call_header_text(call.name@, call.input@));
    }
    line
}

/// The color of a result: red for an error, dim otherwise.
pub open spec fn result_color(is_error: bool) -> Color {
    if is_error {
        Color::Red
    } else {
        Color::DarkGray
    }
}

/// The `i`-th body line of a result whose summary is `summary`.
pub open spec fn body_line_text(summary: Seq<char>, is_error: bool, i: int) -> Seq<char> {
    let ls = lines(summary);
    let truncated_lines = ls.len() > MAX_RESULT_LINES;
    let raw = if truncated_lines && i == MAX_RESULT_LINES - 1 {
        ls[i] + ellipsis()
    } else {
        ls[i]
    };
    let prefix = if i == 0 {
        if is_error {
            "\u{23BF} error: "@
        } else {
            "\u{23BF} "@
        }
    } else {
        "  "@
    };
    prefix + truncated(raw, MAX_RESULT_LINE_CHARS as nat)
}

/// How many body lines a result whose summary is `summary` gets.
pub open spec fn body_line_count(summary: Seq<char>) -> nat {
    if summary.len() == 0 {
        0
    } else if lines(summary).len() > MAX_RESULT_LINES {
        MAX_RESULT_LINES as nat
    } else {
        lines(summary).len()
    }
}

/// Render the result body lines, indented under the header: at most two
/// lines of the result's summary, the second marked with `…` when more were
/// dropped. Empty when the result is `null` or empty.
pub fn render_tool_result_body(res: &ToolResult) -> (out: Vec<Line>)
    ensures
        out@.len() == body_line_count(summary(res.output@)),
        forall|i: int|
            0 <= i < out@.len() ==> (#[trigger] out@[i]).text() == body_line_text(
                summary(res.output@),
                res.is_error,
                i,
            ) && out@[i].spans@.len() == 1 && out@[i].spans@[0].fg == result_color(res.is_error)
                && !out@[i].spans@[0].bold,
{
    let summary = summarise_chars(&res.output);
    let mut out: Vec<Line> = Vec::new();
    if summary.len() == 0 {
        return out;
    }
    let ls = lines_of(&summary);
    let truncated_lines = ls.len() > MAX_RESULT_LINES;
    let count = if truncated_lines {
        MAX_RESULT_LINES
    } else {
        ls.len()
    };
    let color = if res.is_error {
        Color::Red
    } else {
        Color::DarkGray
    };
    let mut i: usize = 0;
    while i < count
        invariant
            i <= count <= ls.len(),
            views(ls@) == lines(summary@),
            summary@ == crate::runtime::view::tool_card::summary(res.output@),
            truncated_lines == (ls.len() > MAX_RESULT_LINES),
            count == body_line_count(summary@),
            color == result_color(res.is_error),
            out@.len() == i,
            forall|j: int|
                0 <= j < i ==> (#[trigger] out@[j]).text() == body_line_text(summary@, res.is_error, j)
                    && out@[j].spans@.len() == 1 && out@[j].spans@[0].fg == color
                    && !out@[j].spans@[0].bold,
        decreases count - i,
    {
        let mut raw = copy_chars(&ls[i]);
        if truncated_lines && i == MAX_RESULT_LINES - 1 {
            raw.push('\u{2026}');
        }
        let ghost lsi = lines(summary@)[i as int];
        assert(ls@[i as int]@ == lsi);
        assert(raw@ == (if truncated_lines && i == MAX_RESULT_LINES - 1 { lsi + ellipsis() } else { lsi }));
        let text = truncate_chars(&raw, MAX_RESULT_LINE_CHARS);
        let mut shown: Vec<char> = Vec::new();
        if i == 0 {
            if res.is_error {
                push_str(&mut shown, "\u{23BF} error: ");
            } else {
                push_str(&mut shown, "\u{23BF} ");
            }
        } else {
            push_str(&mut shown, "  ");
        }
        push_all(&mut shown, &text);
        let line = Line { spans: vec![Span { text: string_of(&shown), fg: color, bold: false }] };
        proof {
            assert(ls@[i as int]@ == lines(summary@)[i as int]);
            reveal_with_fuel(crate::runtime::view::style::spans_text, 2);
            assert(line.spans@.drop_last() =~= Seq::<Span>::empty());
            let prefix = if i == 0 {
                if res.is_error {
                    "\u{23BF} error: "@
                } else {
                    "\u{23BF} "@
                }
            } else {
                "  "@
            };
            assert(shown@ =~= prefix + truncated(raw@, MAX_RESULT_LINE_CHARS as nat));
            assert(line.text() =~= shown@);
        }
        out.push(line);
        i = i + 1;
    }
    out
}

/// The header of a standalone tool result: `▸ name ok` or `▸ name error`.
pub open spec fn result_header_text(name: Seq<char>, is_error: bool) -> Seq<char> {
    "\u{25B8} "@ + name + " "@ + (if is_error { "error"@ } else { "ok"@ })
}

/// Render a `▸` header for a standalone tool result.
pub fn render_tool_result_header(res: &ToolResult) -> (line: Line)
    ensures
        line.text() == result_header_text(res.name@, res.is_error),
        line.spans@.len() == 1,
        line.spans@[0].fg == result_color(res.is_error),
        !line.spans@[0].bold,
{
    let mut t = chars_of("\u{25B8} ");
    let name = chars_of(res.name.as_str());
    push_all(&mut t, &name);
    push_str(&mut t, " ");
    if res.is_error {
        push_str(&mut t, "error");
    } else {
        push_str(&mut t, "ok");
    }
    let color = if res.is_error {
        Color::Red
    } else {
        Color::DarkGray
    };
    let line = Line { spans: vec![Span { text: string_of(&t), fg: color, bold: false }] };
    proof {
        reveal_with_fuel(crate::runtime::view::style::spans_text, 2);
        assert(line.spans@.drop_last() =~= Seq::<Span>::empty());
        assert(line.text() =~= result_header_text(res.name@, res.is_error));
    }
    line
}

} // verus!
