//! The text editor behind the message composer and the title field, and the
//! clock the model stamps its animations with.
use vstd::prelude::*;

use tui_textarea::{Input, Key};

use crate::runtime::model::events::{KeyCode, KeyEvent};
use crate::text::{chars_of, join, push_all};

verus! {

/// A multi-line text editor.
#[verifier::external_body]
#[derive(Debug)]
pub struct Composer {
    inner: tui_textarea::TextArea<'static>,
}

/// The lines of text a composer holds.
pub uninterp spec fn composer_lines(c: Composer) -> Seq<Seq<char>>;

/// The text a composer holds: its lines joined by newlines.
pub open spec fn composer_text(c: Composer) -> Seq<char> {
    join(composer_lines(c), seq!['\n'])
}

/// Where a composer's selection is anchored, when a selection is under way:
/// a (row, column) position in its lines, counted in characters.
pub uninterp spec fn composer_anchor(c: Composer) -> Option<(usize, usize)>;

/// The character a key types into the text: a character key without Ctrl or
/// Alt, other than a line break.
pub open spec fn typed_char(key: KeyEvent) -> Option<char> {
    match key.code {
        KeyCode::Char(ch) => if !key.modifiers.ctrl && !key.modifiers.alt && ch != '\n' && ch != '\r' {
            Some(ch)
        } else {
            None
        },
        _ => None,
    }
}

/// Whether a key breaks the line: Enter, Ctrl-M, or a line-break character
/// without Ctrl or Alt.
pub open spec fn breaks_line(key: KeyEvent) -> bool {
    ||| key.code == KeyCode::Enter
    ||| key.code == KeyCode::Char('m') && key.modifiers.ctrl && !key.modifiers.alt
    ||| (key.code == KeyCode::Char('\n') || key.code == KeyCode::Char('\r')) && !key.modifiers.ctrl
        && !key.modifiers.alt
}

/// Whether the composer is ready for a plain edit: no selection under way,
/// and the cursor on one of its lines, within it.
pub open spec fn plain_cursor(c: Composer) -> bool {
    let (row, col) = composer_cursor(c);
    &&& composer_anchor(c) is None
    &&& row < composer_lines(c).len()
    &&& col <= composer_lines(c)[row as int].len()
}

/// `lines` with `ch` put before column `col` of line `row`.
pub open spec fn with_char(lines: Seq<Seq<char>>, row: int, col: int, ch: char) -> Seq<Seq<char>> {
    lines.update(row, lines[row].take(col).push(ch) + lines[row].skip(col))
}

/// `lines` with line `row` broken before column `col`.
pub open spec fn with_break(lines: Seq<Seq<char>>, row: int, col: int) -> Seq<Seq<char>> {
    lines.take(row) + seq![lines[row].take(col), lines[row].skip(col)] + lines.skip(row + 1)
}

/// Whether a key deletes the character before the cursor: Backspace or
/// Ctrl-H, without Alt (and Backspace without Ctrl).
pub open spec fn deletes_back(key: KeyEvent) -> bool {
    ||| key.code == KeyCode::Backspace && !key.modifiers.ctrl && !key.modifiers.alt
    ||| key.code == KeyCode::Char('h') && key.modifiers.ctrl && !key.modifiers.alt
}

/// Whether a key deletes the character after the cursor: Delete or Ctrl-D,
/// without Alt (and Delete without Ctrl).
pub open spec fn deletes_forward(key: KeyEvent) -> bool {
    ||| key.code == KeyCode::Delete && !key.modifiers.ctrl && !key.modifiers.alt
    ||| key.code == KeyCode::Char('d') && key.modifiers.ctrl && !key.modifiers.alt
}

/// Whether a key moves the cursor one character back: Left or Ctrl-B,
/// without Alt or Shift (and Left without Ctrl).
pub open spec fn moves_back(key: KeyEvent) -> bool {
    &&& !key.modifiers.alt && !key.modifiers.shift
    &&& (key.code == KeyCode::Left && !key.modifiers.ctrl || key.code == KeyCode::Char('b') && key.modifiers.ctrl)
}

/// Whether a key moves the cursor one character forward: Right or Ctrl-F,
/// without Alt or Shift (and Right without Ctrl).
pub open spec fn moves_forward(key: KeyEvent) -> bool {
    &&& !key.modifiers.alt && !key.modifiers.shift
    &&& (key.code == KeyCode::Right && !key.modifiers.ctrl || key.code == KeyCode::Char('f') && key.modifiers.ctrl)
}

/// `lines` without the character at column `col` of line `row`.
pub open spec fn without_char(lines: Seq<Seq<char>>, row: int, col: int) -> Seq<Seq<char>> {
    lines.update(row, lines[row].take(col) + lines[row].skip(col + 1))
}

/// `lines` with line `row` and the line after it made one.
pub open spec fn joined(lines: Seq<Seq<char>>, row: int) -> Seq<Seq<char>> {
    lines.take(row) + seq![lines[row] + lines[row + 1]] + lines.skip(row + 2)
}

/// What a plain edit does to a composer ready for one (see `plain_cursor`),
/// at the cursor `(row, col)` of `lines`: a typed character goes in at the
/// cursor, which moves past it; a line break splits the line there and the
/// cursor goes to the start of the new line; Backspace removes the character
/// before the cursor, or at the start of a line joins it to the line above;
/// Delete removes the character after the cursor, or at the end of a line
/// joins the next line to it. An edit with nothing to remove changes
/// nothing. No selection remains.
pub open spec fn plain_edit_post(lines: Seq<Seq<char>>, row: int, col: int, key: KeyEvent, c1: Composer, changed: bool) -> bool {
    let lines1 = composer_lines(c1);
    let cur1 = composer_cursor(c1);
    &&& composer_anchor(c1) is None
    &&& typed_char(key) is Some ==> changed && lines1 == with_char(lines, row, col, typed_char(key).unwrap())
        && cur1 == (row as usize, (col + 1) as usize)
    &&& breaks_line(key) ==> changed && lines1 == with_break(lines, row, col) && cur1 == ((row + 1) as usize, 0usize)
    &&& deletes_back(key) && col > 0 ==> changed && lines1 == without_char(lines, row, col - 1) && cur1 == (
        row as usize,
        (col - 1) as usize,
    )
    &&& deletes_back(key) && col == 0 && row > 0 ==> changed && lines1 == joined(lines, row - 1) && cur1 == (
        (row - 1) as usize,
        lines[row - 1].len() as usize,
    )
    &&& deletes_back(key) && col == 0 && row == 0 ==> !changed
    &&& deletes_forward(key) && col < lines[row].len() ==> changed && lines1 == without_char(lines, row, col) && cur1
        == (row as usize, col as usize)
    &&& deletes_forward(key) && col == lines[row].len() && row + 1 < lines.len() ==> changed && lines1 == joined(
        lines,
        row,
    ) && cur1 == (row as usize, col as usize)
    &&& deletes_forward(key) && col == lines[row].len() && row + 1 == lines.len() ==> !changed
    &&& moves_back(key) ==> !changed && lines1 == lines && cur1 == (if col > 0 {
        (row as usize, (col - 1) as usize)
    } else if row > 0 {
        ((row - 1) as usize, lines[row - 1].len() as usize)
    } else {
        (row as usize, col as usize)
    })
    &&& moves_forward(key) ==> !changed && lines1 == lines && cur1 == (if col < lines[row].len() {
        (row as usize, (col + 1) as usize)
    } else if row + 1 < lines.len() {
        ((row + 1) as usize, 0usize)
    } else {
        (row as usize, col as usize)
    })
}

/// What handing `key` to the editor does: it answers whether the text
/// changed. With no selection under way an unchanged answer leaves the text
/// as it was (over a selection, a paste can delete the selection and answer
/// unchanged). A composer ready for a plain edit is edited as
/// `plain_edit_post` says.
pub open spec fn input_post(c0: Composer, key: KeyEvent, c1: Composer, changed: bool) -> bool {
    let (row, col) = composer_cursor(c0);
    &&& !changed && composer_anchor(c0) is None ==> composer_lines(c1) == composer_lines(c0)
    &&& plain_cursor(c0) && (typed_char(key) is Some || breaks_line(key) || deletes_back(key) || deletes_forward(key)
        || moves_back(key) || moves_forward(key))
        ==> plain_edit_post(composer_lines(c0), row as int, col as int, key, c1, changed)
}

/// `c1` is what handing `key` to `c0` can give, whatever the editor answered.
pub open spec fn edited(c0: Composer, key: KeyEvent, c1: Composer) -> bool {
    exists|changed: bool| #[trigger] input_post(c0, key, c1, changed)
}

/// The cursor position at the end of the text: the end of its last line.
pub open spec fn text_end(lines: Seq<Seq<char>>) -> (usize, usize) {
    ((lines.len() - 1) as usize, lines.last().len() as usize)
}

/// Where a jump to row and column 65535 lands: the last row, or row 65535
/// of a longer text; the end of that line, or column 65535 of a longer line.
pub open spec fn far_end(lines: Seq<Seq<char>>) -> (usize, usize) {
    let row: int = if lines.len() - 1 <= 65535 { lines.len() - 1 } else { 65535 };
    let col: int = if lines[row].len() <= 65535 { lines[row].len() as int } else { 65535 };
    (row as usize, col as usize)
}

/// What selecting everything does: the text stays, the selection is
/// anchored at the start, and the cursor jumps to row and column 65535, which
/// is the end of the text unless it is longer.
pub open spec fn select_all_post(c0: Composer, c1: Composer) -> bool {
    &&& composer_lines(c1) == composer_lines(c0)
    &&& composer_anchor(c1) == Some((0usize, 0usize))
    &&& composer_lines(c0).len() > 0 ==> composer_cursor(c1) == far_end(composer_lines(c0))
}

/// What a cut does: it answers whether the text changed, an unchanged answer
/// leaves the text as it was, and no selection remains. A selection from the
/// start of the text to its end leaves one empty line.
pub open spec fn cut_post(c0: Composer, c1: Composer, changed: bool) -> bool {
    let lines = composer_lines(c0);
    &&& !changed ==> composer_lines(c1) == lines
    &&& composer_anchor(c1) is None
    &&& lines.len() > 0 && composer_anchor(c0) == Some((0usize, 0usize)) && composer_cursor(c0) == text_end(lines)
        ==> composer_lines(c1) == seq![Seq::<char>::empty()]
}

/// `tui_textarea::TextArea::default`, which holds one empty line, with the
/// cursor at its start and no selection.
#[verifier::external_body]
fn textarea_default() -> (c: Composer)
    ensures
        composer_cursor(c) == (0usize, 0usize),
        composer_anchor(c) is None,
        composer_lines(c) == seq![Seq::<char>::empty()],
{
    Composer { inner: tui_textarea::TextArea::default() }
}

/// `tui_textarea::TextArea::lines`, the lines the editor holds.
#[verifier::external_body]
fn textarea_lines(c: &Composer) -> (v: Vec<String>)
    ensures
        v@.map_values(|s: String| s@) == composer_lines(*c),
{
    c.inner.lines().to_vec()
}

/// Where a composer's cursor is: a (row, column) position in its lines,
/// counted in characters.
pub uninterp spec fn composer_cursor(c: Composer) -> (usize, usize);

/// `tui_textarea::TextArea::cursor`, which hands back the editor's cursor
/// position as it stands.
#[verifier::external_body]
fn textarea_cursor(c: &Composer) -> (p: (usize, usize))
    ensures
        p == composer_cursor(*c),
{
    c.inner.cursor()
}

/// `tui_textarea::TextArea::input`: the editor handles a key press with its
/// default key bindings, and answers whether the text changed. Stated, with
/// no selection under way: a typed character, a line break, Backspace and
/// Delete (the source's `insert_char`, `insert_newline`, `delete_char`,
/// `delete_next_char`), Left and Right (`CursorMove::Back` and `Forward`,
/// which leave the text and answer unchanged), and that an unchanged answer
/// means unchanged text.
/// What other keys do to the text, and any key over a selection, is not
/// stated.
#[verifier::external_body]
fn textarea_input(c: &mut Composer, key: &KeyEvent) -> (changed: bool)
    ensures
        input_post(*old(c), *key, *final(c), changed),
{
    let k = match key.code {
        KeyCode::Char(ch) => Key::Char(ch), KeyCode::Backspace => Key::Backspace,
        KeyCode::Enter => Key::Enter, KeyCode::Left => Key::Left, KeyCode::Right => Key::Right,
        KeyCode::Up => Key::Up, KeyCode::Down => Key::Down, KeyCode::Tab => Key::Tab,
        KeyCode::Delete => Key::Delete, KeyCode::Home => Key::Home, KeyCode::End => Key::End,
        KeyCode::PageUp => Key::PageUp, KeyCode::PageDown => Key::PageDown,
        KeyCode::Esc => Key::Esc, KeyCode::F(x) => Key::F(x), KeyCode::Other => Key::Null,
    };
    let m = key.modifiers;
    c.inner.input(Input { key: k, ctrl: m.ctrl, alt: m.alt, shift: m.shift })
}

/// `tui_textarea::TextArea::select_all`: the text stays, the selection is
/// anchored at (0, 0), and the cursor jumps to `CursorMove::Jump(u16::MAX,
/// u16::MAX)`, which the source clamps to the last row and its line's end.
#[verifier::external_body]
fn textarea_select_all(c: &mut Composer)
    ensures
        select_all_post(*old(c), *final(c)),
{
    c.inner.select_all()
}

/// `tui_textarea::TextArea::cut`: the selection is removed into the yank
/// buffer and cancelled, and the answer says whether the text changed. What
/// remains is stated for a selection from the start of the text to its end
/// (one empty line); for other selections it is not stated.
#[verifier::external_body]
fn textarea_cut(c: &mut Composer) -> (changed: bool)
    ensures
        cut_post(*old(c), *final(c), changed),
{
    c.inner.cut()
}

impl Composer {
    /// An empty editor: one empty line, the cursor at its start, no selection.
    pub fn new() -> (c: Composer)
        ensures
            composer_lines(c) == seq![Seq::<char>::empty()],
            composer_cursor(c) == (0usize, 0usize),
            composer_anchor(c) is None,
            composer_text(c).len() == 0,
    {
        textarea_default()
    }

    /// The text held, its lines joined by newlines.
    pub fn text_chars(&self) -> (v: Vec<char>)
        ensures
            v@ == composer_text(*self),
    {
        let lines = textarea_lines(self);
        let ghost lv = lines@.map_values(|s: String| s@);
        let mut out: Vec<char> = Vec::new();
        let mut i: usize = 0;
        while i < lines.len()
            invariant
                i <= lines.len(),
                lv == lines@.map_values(|s: String| s@),
                lv == composer_lines(*self),
                out@ == join(lv.take(i as int), seq!['\n']),
            decreases lines.len() - i,
        {
            proof {
                lemma_join_push(lv.take(i as int), lv[i as int]);
                assert(lv.take(i + 1) =~= lv.take(i as int).push(lv[i as int]));
            }
            if i > 0 {
                out.push('\n');
            }
            let line = chars_of(lines[i].as_str());
            push_all(&mut out, &line);
            i = i + 1;
        }
        assert(lv.take(lines.len() as int) =~= lv);
        out
    }

    /// The text held, its lines joined by newlines.
    pub fn text(&self) -> (s: String)
        ensures
            s@ == composer_text(*self),
    {
        let v = self.text_chars();
        crate::text::string_of(&v)
    }

    /// The cursor's (row, column) position in the text.
    pub fn cursor(&self) -> (p: (usize, usize))
        ensures
            p == composer_cursor(*self),
    {
        textarea_cursor(self)
    }

    /// Hand a key press to the editor; the answer says whether the text
    /// changed. With no selection under way, a typed character goes in at the
    /// cursor, a line break splits the line there, and Backspace and Delete
    /// remove the character before or after it.
    pub fn input(&mut self, key: &KeyEvent) -> (changed: bool)
        ensures
            input_post(*old(self), *key, *final(self), changed),
    {
        textarea_input(self, key)
    }

    /// Select the whole text: the selection is anchored at the start and the
    /// cursor goes to the end (row and column are capped at 65535).
    pub fn select_all(&mut self)
        ensures
            select_all_post(*old(self), *final(self)),
    {
        textarea_select_all(self)
    }

    /// Cut the selection; the answer says whether the text changed. A
    /// selection of the whole text leaves one empty line.
    pub fn cut(&mut self) -> (changed: bool)
        ensures
            cut_post(*old(self), *final(self), changed),
    {
        textarea_cut(self)
    }
}

/// Joining one more part adds a separator and the part.
pub proof fn lemma_join_push(parts: Seq<Seq<char>>, p: Seq<char>)
    ensures
        join(parts.push(p), seq!['\n']) == (if parts.len() == 0 {
            p
        } else {
            join(parts, seq!['\n']) + seq!['\n'] + p
        }),
    decreases parts.len(),
{
    let sep = seq!['\n'];
    let q = parts.push(p);
    if parts.len() == 0 {
        assert(q =~= seq![p]);
    } else if parts.len() == 1 {
        assert(q.drop_first() =~= seq![p]);
        assert(join(seq![p], sep) == p);
        assert(q[0] == parts[0]);
        assert(join(q, sep) == q[0] + sep + join(q.drop_first(), sep));
    } else {
        lemma_join_push(parts.drop_first(), p);
        assert(q.drop_first() =~= parts.drop_first().push(p));
        assert(q[0] == parts[0]);
        assert(join(q, sep) == q[0] + sep + join(q.drop_first(), sep));
        assert(join(parts, sep) == parts[0] + sep + join(parts.drop_first(), sep));
        assert(parts[0] + sep + (join(parts.drop_first(), sep) + sep + p) =~= parts[0] + sep + join(
            parts.drop_first(),
            sep,
        ) + sep + p);
    }
}

#[verifier::external_type_specification]
#[verifier::external_body]
pub struct ExInstant(std::time::Instant);

/// `std::time::Instant::now`: the current moment, whatever the clock says.
#[verifier::external_body]
pub(crate) fn now() -> std::time::Instant {
    std::time::Instant::now()
}

} // verus!
