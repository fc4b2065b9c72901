//! Highlighting a fenced code block with `syntect`.
use vstd::prelude::*;

use syntect::easy::HighlightLines;
use syntect::highlighting::Theme;
use syntect::parsing::{SyntaxReference, SyntaxSet};

use crate::runtime::view::markdown::plain_lines;
use crate::runtime::view::style::{Color, Line, Span};
use crate::text::{chars_of, lines, string_of};

verus! {

#[verifier::external_type_specification]
#[verifier::external_body]
pub struct ExSyntaxSet(SyntaxSet);

#[verifier::external_type_specification]
#[verifier::external_body]
pub struct ExSyntaxReference(SyntaxReference);

#[verifier::external_type_specification]
#[verifier::external_body]
pub struct ExTheme(Theme);

#[verifier::external_type_specification]
#[verifier::external_body]
pub struct ExHighlightLines<'a>(HighlightLines<'a>);

/// A highlighted piece of a line: the red, green and blue of its foreground,
/// and its text.
pub type Piece = (u8, u8, u8, String);

/// The texts of `pieces`, one after the other.
pub open spec fn pieces_text(pieces: Seq<Piece>) -> Seq<char>
    decreases pieces.len(),
{
    if pieces.len() == 0 {
        Seq::empty()
    } else {
        pieces_text(pieces.drop_last()) + pieces.last().3@
    }
}

/// `s` cut after each newline: every chunk but the last ends with its
/// newline, and an empty text has no chunks.
pub open spec fn lines_with_endings(s: Seq<char>) -> Seq<Seq<char>>
    decreases s.len(),
{
    if s.len() == 0 {
        Seq::empty()
    } else {
        let k = first_newline(s);
        if 0 <= k < s.len() {
            seq![s.take(k + 1)] + lines_with_endings(s.skip(k + 1))
        } else {
            seq![s]
        }
    }
}

/// The index of the first newline of `s`, or its length when it has none.
pub open spec fn first_newline(s: Seq<char>) -> int
    decreases s.len(),
{
    if s.len() == 0 {
        0
    } else if s[0] == '\n' {
        0
    } else {
        1 + first_newline(s.drop_first())
    }
}

/// `s` without its trailing newlines.
pub open spec fn trim_newlines(s: Seq<char>) -> Seq<char>
    decreases s.len(),
{
    if s.len() > 0 && s.last() == '\n' {
        trim_newlines(s.drop_last())
    } else {
        s
    }
}

/// The line drawn for one chunk of code: each highlighted piece as a span in
/// its colour, without trailing newlines; when highlighting failed, the
/// chunk itself, unstyled, without trailing newlines.
pub open spec fn piece_line_spec(chunk: Seq<char>, pieces: Option<Seq<Piece>>, l: Line) -> bool {
    match pieces {
        Some(p) => {
            &&& l.spans@.len() == p.len()
            &&& forall|i: int|
                0 <= i < p.len() ==> {
                    let s = #[trigger] l.spans@[i];
                    &&& s.text@ == trim_newlines(p[i].3@)
                    &&& s.fg == Color::Rgb(p[i].0, p[i].1, p[i].2)
                    &&& !s.bold
                }
        },
        None => {
            &&& l.spans@.len() == 1
            &&& l.spans@[0].text@ == trim_newlines(chunk)
            &&& l.spans@[0].fg == Color::Reset
            &&& !l.spans@[0].bold
        },
    }
}

/// `SyntaxSet::find_syntax_by_token`: the syntax whose file extension or
/// name matches `token`, if the set holds one. Which syntaxes a set holds is
/// not stated.
#[verifier::external_body]
fn find_syntax<'a>(set: &'a SyntaxSet, token: &str) -> Option<&'a SyntaxReference> {
    set.find_syntax_by_token(token)
}

/// `HighlightLines::new`: a highlighter for one syntax in one theme, at the
/// start of a text.
#[verifier::external_body]
fn start_highlighter<'a>(syntax: &SyntaxReference, theme: &'a Theme) -> HighlightLines<'a> {
    HighlightLines::new(syntax, theme)
}

/// `HighlightLines::highlight_line`: the line cut into pieces, each with the
/// foreground colour the theme gives it; `None` when parsing fails. The
/// crate documents that the pieces' texts, put together, give the line back.
/// Which colours come out depends on the theme and on the lines highlighted
/// before, and is not stated.
#[verifier::external_body]
fn highlight_line(h: &mut HighlightLines<'_>, line: &str, set: &SyntaxSet) -> (r: Option<Vec<Piece>>)
    ensures
        r is None || pieces_text(r.unwrap()@) == line@,
{
    match h.highlight_line(line, set) {
        Ok(ranges) => Some(
            ranges.into_iter().map(|(st, t)| (st.foreground.r, st.foreground.g, st.foreground.b, t.to_string())).collect(),
        ),
        Err(_) => None,
    }
}

/// `s` without its trailing newlines.
pub fn trimmed_newlines(s: &Vec<char>) -> (out: Vec<char>)
    ensures
        out@ == trim_newlines(s@),
{
    let mut n = s.len();
    assert(s@.take(n as int) =~= s@);
    while n > 0 && s[n - 1] == '\n'
        invariant
            n <= s.len(),
            trim_newlines(s@) == trim_newlines(s@.take(n as int)),
        decreases n,
    {
        assert(s@.take(n as int).drop_last() =~= s@.take(n - 1));
        n = n - 1;
    }
    let out = crate::text::sub_vec(s, 0, n);
    proof {
        assert(out@ =~= s@.take(n as int));
    }
    out
}

/// `s` cut after each newline.
pub fn lines_with_endings_of(s: &Vec<char>) -> (out: Vec<Vec<char>>)
    ensures
        out@.len() == lines_with_endings(s@).len(),
        forall|i: int| 0 <= i < out@.len() ==> (#[trigger] out@[i])@ == lines_with_endings(s@)[i],
{
    let mut out: Vec<Vec<char>> = Vec::new();
    let mut start: usize = 0;
    let mut i: usize = 0;
    assert(s@.skip(0) =~= s@);
    assert(out@.map_values(|v: Vec<char>| v@) =~= Seq::<Seq<char>>::empty());
    while i < s.len()
        invariant
            start <= i <= s.len(),
            forall|j: int| start <= j < i ==> s@[j] != '\n',
            lines_with_endings(s@) == out@.map_values(|v: Vec<char>| v@) + lines_with_endings(s@.skip(start as int)),
        decreases s.len() - i,
    {
        if s[i] == '\n' {
            let chunk = crate::text::sub_vec(s, start, i + 1);
            proof {
                let rest = s@.skip(start as int);
                lemma_first_newline(rest, i - start);
                assert(rest.take(i - start + 1) =~= chunk@);
                assert(rest.skip(i - start + 1) =~= s@.skip(i + 1));
                assert(out@.push(chunk).map_values(|v: Vec<char>| v@) =~= out@.map_values(|v: Vec<char>| v@).push(
                    chunk@,
                ));
            }
            out.push(chunk);
            start = i + 1;
        }
        i = i + 1;
    }
    if start < s.len() {
        let chunk = crate::text::sub_vec(s, start, s.len());
        proof {
            let rest = s@.skip(start as int);
            lemma_first_newline(rest, rest.len() as int);
            assert(rest =~= chunk@);
            assert(out@.push(chunk).map_values(|v: Vec<char>| v@) =~= out@.map_values(|v: Vec<char>| v@).push(
                chunk@,
            ));
        }
        out.push(chunk);
    } else {
        assert(s@.skip(start as int) =~= Seq::<char>::empty());
    }
    assert forall|k: int| 0 <= k < out@.len() implies (#[trigger] out@[k])@ == lines_with_endings(s@)[k] by {
        assert(out@.map_values(|v: Vec<char>| v@)[k] == out@[k]@);
    }
    out
}

/// The first newline of `s` is at `k` when none comes before `k` and `k` is
/// a newline or the end.
proof fn lemma_first_newline(s: Seq<char>, k: int)
    requires
        0 <= k <= s.len(),
        forall|j: int| 0 <= j < k ==> #[trigger] s[j] != '\n',
        k == s.len() || s[k] == '\n',
    ensures
        first_newline(s) == k,
    decreases k,
{
    if k > 0 {
        lemma_first_newline(s.drop_first(), k - 1);
    }
}

/// What highlighting gave for a line, as values.
pub open spec fn pieces_view(pieces: Option<Vec<Piece>>) -> Option<Seq<Piece>> {
    match pieces {
        Some(p) => Some(p@),
        None => None,
    }
}

/// The line drawn for one chunk of code from what highlighting gave for it.
pub fn piece_line(chunk: &Vec<char>, pieces: Option<Vec<Piece>>) -> (l: Line)
    ensures
        piece_line_spec(chunk@, pieces_view(pieces), l),
{
    match pieces {
        Some(p) => {
            let mut spans: Vec<Span> = Vec::new();
            let mut i: usize = 0;
            while i < p.len()
                invariant
                    i <= p.len(),
                    spans@.len() == i,
                    forall|j: int|
                        0 <= j < i ==> {
                            let s = #[trigger] spans@[j];
                            &&& s.text@ == trim_newlines(p@[j].3@)
                            &&& s.fg == Color::Rgb(p@[j].0, p@[j].1, p@[j].2)
                            &&& !s.bold
                        },
                decreases p.len() - i,
            {
                let text = string_of(&trimmed_newlines(&chars_of(p[i].3.as_str())));
                spans.push(Span { text, fg: Color::Rgb(p[i].0, p[i].1, p[i].2), bold: false });
                i = i + 1;
            }
            Line { spans }
        },
        None => {
            let text = string_of(&trimmed_newlines(chunk));
            Line { spans: vec![Span { text, fg: Color::Reset, bold: false }] }
        },
    }
}

/// A code block drawn without highlighting: one unstyled span per line.
pub open spec fn plain_rendering(code: Seq<char>, out: Seq<Line>) -> bool {
    &&& out.len() == lines(code).len()
    &&& forall|i: int|
        0 <= i < out.len() ==> {
            let l = #[trigger] out[i];
            &&& l.spans@.len() == 1
            &&& l.spans@[0].text@ == lines(code)[i]
            &&& l.spans@[0].fg == Color::Reset
            &&& !l.spans@[0].bold
        }
}

/// `l` is drawn from `chunk` by some highlighting of it: pieces whose texts
/// make up the chunk, or none.
pub open spec fn highlighted_line(chunk: Seq<char>, l: Line) -> bool {
    exists|p: Option<Seq<Piece>>|
        #![trigger piece_line_spec(chunk, p, l)]
        (p is None || pieces_text(p.unwrap()) == chunk) && piece_line_spec(chunk, p, l)
}

/// A code block drawn highlighted: one line per chunk of the code, each drawn
/// from its chunk.
pub open spec fn highlighted_rendering(code: Seq<char>, out: Seq<Line>) -> bool {
    &&& out.len() == lines_with_endings(code).len()
    &&& forall|i: int| 0 <= i < out.len() ==> highlighted_line(lines_with_endings(code)[i], #[trigger] out[i])
}

/// Draw a code block with the syntax the set found for its language: with
/// none, plain; with one, each line highlighted, and a line whose
/// highlighting fails drawn plain.
pub fn highlight_with(code: &str, syntax: Option<&SyntaxReference>, syntaxes: &SyntaxSet, theme: &Theme) -> (out: Vec<Line>)
    ensures
        syntax is None ==> plain_rendering(code@, out@),
        syntax is Some ==> highlighted_rendering(code@, out@),
{
    match syntax {
        None => {
            let out = plain_lines(code);
            proof {
                assert forall|i: int| 0 <= i < out@.len() implies {
                    let l = #[trigger] out@[i];
                    &&& l.spans@.len() == 1
                    &&& l.spans@[0].text@ == lines(code@)[i]
                    &&& l.spans@[0].fg == Color::Reset
                    &&& !l.spans@[0].bold
                } by {}
            }
            out
        },
        Some(syntax) => {
            let mut highlighter = start_highlighter(syntax, theme);
            let chunks = lines_with_endings_of(&chars_of(code));
            let mut out: Vec<Line> = Vec::new();
            let mut i: usize = 0;
            while i < chunks.len()
                invariant
                    i <= chunks.len(),
                    chunks@.len() == lines_with_endings(code@).len(),
                    forall|j: int| 0 <= j < chunks@.len() ==> (#[trigger] chunks@[j])@ == lines_with_endings(code@)[j],
                    out@.len() == i,
                    forall|j: int| 0 <= j < i ==> highlighted_line(lines_with_endings(code@)[j], #[trigger] out@[j]),
                decreases chunks.len() - i,
            {
                let line = string_of(&chunks[i]);
                let pieces = highlight_line(&mut highlighter, line.as_str(), syntaxes);
                let ghost pv = pieces_view(pieces);
                let l = piece_line(&chunks[i], pieces);
                proof {
                    assert(chunks@[i as int]@ == lines_with_endings(code@)[i as int]);
                }
                out.push(l);
                proof {
                    assert(out@[i as int] == l);
                    assert(piece_line_spec(lines_with_endings(code@)[i as int], pv, out@[i as int]));
                    assert(highlighted_line(lines_with_endings(code@)[i as int], out@[i as int]));
                }
                i = i + 1;
            }
            out
        },
    }
}

/// Highlight a fenced code block. Without a language, or with an empty one,
/// the block is drawn plain. Otherwise the language is looked up in the set
/// and the block drawn as `highlight_with` says for what the lookup found:
/// plain when the set does not know the language, highlighted when it does.
pub fn highlight_code_block(code: &str, lang: Option<&str>, syntaxes: &SyntaxSet, theme: &Theme) -> (out: Vec<Line>)
    ensures
        (lang is None || lang.unwrap()@.len() == 0) ==> plain_rendering(code@, out@),
        plain_rendering(code@, out@) || highlighted_rendering(code@, out@),
{
    let syntax = match lang {
        Some(l) => if l.len() == 0 {
            None
        } else {
            find_syntax(syntaxes, l)
        },
        None => None,
    };
    highlight_with(code, syntax, syntaxes, theme)
}

} // verus!
