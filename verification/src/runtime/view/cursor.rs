//! Where the terminal cursor goes inside a wrapped text field.
use vstd::prelude::*;

use unicode_width::UnicodeWidthChar;

use crate::runtime::model::editor::{composer_cursor, composer_text, Composer};
use crate::runtime::view::geometry::{add_u16, min_u16, sat_add_u16, sat_sub_u16, sub_u16, Rect};
use crate::text::chars_of;

verus! {

/// How many columns `c` takes on a terminal, or `None` for a control character.
pub uninterp spec fn char_width(c: char) -> Option<usize>;

/// `unicode_width::UnicodeWidthChar::width`. Its result is named; the
/// crate's source shows that printable ASCII takes one column, that the C0
/// and C1 control characters have no width, and that every other character
/// takes at most three columns.
#[verifier::external_body]
fn display_width(c: char) -> (cells: Option<usize>)
    ensures
        cells == char_width(c),
        cells == Some(1usize) || !(0x20 <= (c as int) < 0x7F),
        cells is None || !((c as int) < 0x20 || (0x7F <= (c as int) && (c as int) < 0xA0)),
        (cells is Some && cells.unwrap() <= 3) || (c as int) < 0xA0,
{
    UnicodeWidthChar::width(c)
}

/// The columns a character advances the cursor by: its display width, and
/// one for a character without one.
pub open spec fn char_cells(c: char) -> nat {
    match char_width(c) {
        Some(w) => w as nat,
        None => 1,
    }
}

/// One character of the walk: (visual row, visual column, text row, text column).
/// A newline starts the next row of both; another character that would pass
/// `width` starts a new visual row first.
pub open spec fn cursor_step(st: (nat, nat, nat, nat), c: char, width: nat) -> (nat, nat, nat, nat) {
    if c == '\n' {
        ((st.0 + 1) as nat, 0, (st.2 + 1) as nat, 0)
    } else if st.1 + char_cells(c) > width {
        ((st.0 + 1) as nat, char_cells(c), st.2, (st.3 + 1) as nat)
    } else {
        (st.0, (st.1 + char_cells(c)) as nat, st.2, (st.3 + 1) as nat)
    }
}

/// Walk `text` from `st` until the text position `(row, col)` is reached or
/// the text ends, and give the visual position where the next character
/// appears: when the character at the cursor would pass `width`, that is the
/// start of the next visual row.
pub open spec fn cursor_walk(text: Seq<char>, row: nat, col: nat, width: nat, st: (nat, nat, nat, nat)) -> (nat, nat)
    decreases text.len(),
{
    if st.2 == row && st.3 == col {
        if text.len() > 0 && text[0] != '\n' && st.1 + char_cells(text[0]) > width {
            ((st.0 + 1) as nat, 0)
        } else {
            (st.0, st.1)
        }
    } else if text.len() == 0 {
        (st.0, st.1)
    } else {
        cursor_walk(text.drop_first(), row, col, width, cursor_step(st, text[0], width))
    }
}

/// The visual (row, column) of the text position `(row, col)` when `text`
/// wraps at `width` columns; a zero width leaves the position as it is.
pub open spec fn visual_cursor(text: Seq<char>, row: nat, col: nat, width: nat) -> (nat, nat) {
    if width == 0 {
        (row, col)
    } else {
        cursor_walk(text, row, col, width, (0, 0, 0, 0))
    }
}

/// The columns a character advances the cursor by. Every character below
/// U+00A0 (printable ASCII, and the control characters, which have no
/// width) takes one column; no character takes more than three.
pub fn char_cells_of(c: char) -> (n: usize)
    ensures
        n == char_cells(c),
        (c as int) < 0xA0 ==> n == 1,
        1 <= n <= 3 || (n == 0 && (c as int) >= 0xA0),
{
    match display_width(c) {
        Some(w) => w,
        None => 1,
    }
}

/// Where the text cursor stands when the walk of `cursor_walk` stops: the
/// text position `(row, col)` once it is reached, or the end of the text.
pub open spec fn text_walk(text: Seq<char>, row: nat, col: nat, st: (nat, nat)) -> (nat, nat)
    decreases text.len(),
{
    if st.0 == row && st.1 == col {
        st
    } else if text.len() == 0 {
        st
    } else if text[0] == '\n' {
        text_walk(text.drop_first(), row, col, ((st.0 + 1) as nat, 0))
    } else {
        text_walk(text.drop_first(), row, col, (st.0, (st.1 + 1) as nat))
    }
}

/// `text` has no newline from index `a` to before `b`.
pub open spec fn newline_free(text: Seq<char>, a: int, b: int) -> bool {
    forall|k: int| a <= k < b ==> #[trigger] text[k] != '\n'
}

/// Every run of `text` without a newline is at most `width` characters long.
pub open spec fn runs_fit(text: Seq<char>, width: nat) -> bool {
    forall|a: int, b: int| 0 <= a <= b <= text.len() && #[trigger] newline_free(text, a, b) ==> b - a <= width
}

/// The length of the run that `text` starts with: the index of its first
/// newline, or its length.
pub open spec fn lead_run(text: Seq<char>) -> nat
    decreases text.len(),
{
    if text.len() == 0 || text[0] == '\n' {
        0
    } else {
        1 + lead_run(text.drop_first())
    }
}

proof fn lemma_lead_run(text: Seq<char>)
    ensures
        lead_run(text) <= text.len(),
        forall|k: int| 0 <= k < lead_run(text) ==> #[trigger] text[k] != '\n',
    decreases text.len(),
{
    if text.len() > 0 && text[0] != '\n' {
        lemma_lead_run(text.drop_first());
        assert forall|k: int| 0 <= k < lead_run(text) implies #[trigger] text[k] != '\n' by {
            if k > 0 {
                assert(text[k] == text.drop_first()[k - 1]);
            }
        }
    }
}

proof fn lemma_unwrapped_walk(text: Seq<char>, row: nat, col: nat, width: nat, r: nat, c: nat)
    requires
        width > 0,
        forall|i: int| 0 <= i < text.len() ==> #[trigger] text[i] == '\n' || char_cells(text[i]) == 1,
        runs_fit(text, width),
        c + lead_run(text) <= width,
    ensures
        cursor_walk(text, row, col, width, (r, c, r, c)) == text_walk(text, row, col, (r, c)),
    decreases text.len(),
{
    if !(r == row && c == col) && text.len() > 0 {
        let rest = text.drop_first();
        assert forall|i: int| 0 <= i < rest.len() implies #[trigger] rest[i] == '\n' || char_cells(rest[i]) == 1 by {
            assert(rest[i] == text[i + 1]);
        }
        assert forall|a: int, b: int| 0 <= a <= b <= rest.len() && #[trigger] newline_free(rest, a, b) implies b - a
            <= width by {
            assert forall|k: int| a + 1 <= k < b + 1 implies #[trigger] text[k] != '\n' by {
                assert(text[k] == rest[k - 1]);
            }
            assert(newline_free(text, a + 1, b + 1));
        }
        lemma_lead_run(rest);
        if text[0] == '\n' {
            assert forall|k: int| 1 <= k < 1 + lead_run(rest) implies #[trigger] text[k] != '\n' by {
                assert(text[k] == rest[k - 1]);
            }
            assert(newline_free(text, 1, 1 + lead_run(rest) as int));
            assert(lead_run(rest) <= width);
            lemma_unwrapped_walk(rest, row, col, width, r + 1, 0);
        } else {
            assert(char_cells(text[0]) == 1);
            lemma_unwrapped_walk(rest, row, col, width, r, c + 1);
        }
    }
}

/// Without wrapping the visual cursor is the text cursor: when every
/// character of `text` but the newlines takes one column (as every character
/// below U+00A0 does, see `char_cells_of`) and no line is longer than
/// `width`, the walk ends where the text walk does, at the text position
/// `(row, col)` once it is reached.
pub proof fn law_unwrapped_cursor(text: Seq<char>, row: nat, col: nat, width: nat)
    requires
        width > 0,
        forall|i: int| 0 <= i < text.len() ==> #[trigger] text[i] == '\n' || char_cells(text[i]) == 1,
        runs_fit(text, width),
    ensures
        visual_cursor(text, row, col, width) == text_walk(text, row, col, (0, 0)),
{
    lemma_lead_run(text);
    assert(newline_free(text, 0, lead_run(text) as int));
    lemma_unwrapped_walk(text, row, col, width, 0, 0);
}

/// Map a text cursor `(cursor_row, cursor_col)` to the visual cursor at the
/// wrap width `width`, wrapping character by character.
pub fn visual_cursor_pos(text: &str, cursor_row: usize, cursor_col: usize, width: usize) -> (r: (usize, usize))
    ensures
        (r.0 as nat, r.1 as nat) == visual_cursor(text@, cursor_row as nat, cursor_col as nat, width as nat),
{
    if width == 0 {
        return (cursor_row, cursor_col);
    }
    let chars = chars_of(text);
    let ghost row = cursor_row as nat;
    let ghost col = cursor_col as nat;
    let ghost wd = width as nat;
    let mut vr: usize = 0;
    let mut vc: usize = 0;
    let mut tr: usize = 0;
    let mut tc: usize = 0;
    let mut i: usize = 0;
    assert(chars@.skip(0) =~= chars@);
    while i < chars.len()
        invariant
            i <= chars.len(),
            chars@ == text@,
            width > 0,
            row == cursor_row as nat,
            col == cursor_col as nat,
            wd == width as nat,
            vr <= i && tr <= i && tc <= i,
            vc <= width || vc <= 3,
            cursor_walk(text@, row, col, wd, (0, 0, 0, 0)) == cursor_walk(
                chars@.skip(i as int),
                row,
                col,
                wd,
                (vr as nat, vc as nat, tr as nat, tc as nat),
            ),
        decreases chars.len() - i,
    {
        let ghost st = (vr as nat, vc as nat, tr as nat, tc as nat);
        if tr == cursor_row && tc == cursor_col {
            // The cursor sits where the next character appears: past the
            // row's end when that character wraps.
            let c = chars[i];
            assert(chars@.skip(i as int)[0] == c);
            if c != '\n' {
                let w = char_cells_of(c);
                if vc > width || w > width - vc {
                    return (vr + 1, 0);
                }
            }
            return (vr, vc);
        }
        let c = chars[i];
        proof {
            assert(chars@.skip(i as int)[0] == c);
            assert(chars@.skip(i as int).drop_first() =~= chars@.skip(i + 1));
            assert(cursor_walk(chars@.skip(i as int), row, col, wd, st) == cursor_walk(
                chars@.skip(i + 1),
                row,
                col,
                wd,
                cursor_step(st, c, wd),
            ));
        }
        if c == '\n' {
            vr = vr + 1;
            vc = 0;
            tr = tr + 1;
            tc = 0;
        } else {
            let w = match display_width(c) {
                Some(w) => w,
                None => 1,
            };
            assert(w as nat == char_cells(c));
            assert(w <= 3);
            if vc > width || w > width - vc {
                vr = vr + 1;
                vc = w;
            } else {
                vc = vc + w;
            }
            tc = tc + 1;
        }
        assert((vr as nat, vc as nat, tr as nat, tc as nat) == cursor_step(st, c, wd));
        i = i + 1;
    }
    assert(chars@.skip(i as int) =~= Seq::<char>::empty());
    (vr, vc)
}

/// The terminal cell for the visual cursor `(vrow, vcol)` inside the
/// bordered box `chunk`: one cell in from the border, and never past the
/// box's last inner row and column.
pub open spec fn field_cell(chunk: Rect, vrow: usize, vcol: usize) -> (u16, u16) {
    let inner_x = sat_add_u16(chunk.x as int, 1);
    let inner_y = sat_add_u16(chunk.y as int, 1);
    let max_x = sat_add_u16(chunk.x as int, sat_sub_u16(chunk.width as int, 2) as int);
    let max_y = sat_add_u16(chunk.y as int, sat_sub_u16(chunk.height as int, 2) as int);
    (
        min_u16(sat_add_u16(inner_x as int, (vcol as u16) as int), max_x),
        min_u16(sat_add_u16(inner_y as int, (vrow as u16) as int), max_y),
    )
}

/// Where the terminal cursor goes for `textarea` drawn in the bordered box
/// `chunk`: its text cursor mapped through the wrap at the box's inner width.
pub fn park_cursor_in_field(chunk: Rect, textarea: &Composer) -> (cell: (u16, u16))
    ensures
        ({
            let (row, col) = composer_cursor(*textarea);
            let v = visual_cursor(
                composer_text(*textarea),
                row as nat,
                col as nat,
                sat_sub_u16(chunk.width as int, 2) as nat,
            );
            cell == field_cell(chunk, v.0 as usize, v.1 as usize)
        }),
{
    let (cursor_row, cursor_col) = textarea.cursor();
    let text = textarea.text();
    let inner_width = sub_u16(chunk.width, 2) as usize;
    let (visual_row, visual_col) = visual_cursor_pos(text.as_str(), cursor_row, cursor_col, inner_width);
    let inner_x = add_u16(chunk.x, 1);
    let inner_y = add_u16(chunk.y, 1);
    let max_x = add_u16(chunk.x, sub_u16(chunk.width, 2));
    let max_y = add_u16(chunk.y, sub_u16(chunk.height, 2));
    let x0 = add_u16(inner_x, visual_col as u16);
    let y0 = add_u16(inner_y, visual_row as u16);
    let x = if x0 <= max_x { x0 } else { max_x };
    let y = if y0 <= max_y { y0 } else { max_y };
    (x, y)
}

} // verus!
