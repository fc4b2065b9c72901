//! Markdown prose rendered by `tui-markdown`, as the library's lines.
use vstd::prelude::*;

use crate::runtime::view::style::{Color, Line, Span};
use crate::text::{chars_eq, chars_of};

verus! {

/// A rendered span: its text, the name of its own foreground color if it
/// sets one, and the bits of the modifiers it adds.
pub type ProseSpan = (String, Option<String>, u16);

/// A rendered line: the name of its own foreground color if it sets one, the
/// bits of the modifiers it adds, and its spans.
pub type ProseLine = (Option<String>, u16, Vec<ProseSpan>);

/// The value of a [`ProseSpan`].
pub type ProseSpanView = (Seq<char>, Option<Seq<char>>, u16);

/// The value of a [`ProseLine`].
pub type ProseLineView = (Option<Seq<char>>, u16, Seq<ProseSpanView>);

pub open spec fn opt_name_view(o: Option<String>) -> Option<Seq<char>> {
    match o {
        Some(s) => Some(s@),
        None => None,
    }
}

pub open spec fn span_view(s: ProseSpan) -> ProseSpanView {
    (s.0@, opt_name_view(s.1), s.2)
}

pub open spec fn prose_line_view(l: ProseLine) -> ProseLineView {
    (opt_name_view(l.0), l.1, l.2@.map_values(|s: ProseSpan| span_view(s)))
}

/// What `tui_markdown::from_str` renders `text` into, line by line, with
/// each color given by its displayed name and each modifier set by its bits.
pub uninterp spec fn markdown_prose(text: Seq<char>) -> Seq<ProseLineView>;

/// `tui_markdown::from_str`: the prose rendered into styled lines. Each
/// color is handed on as `ratatui-core` displays it (its name, `#RRGGBB`, or
/// its palette index), and each line's and span's added modifiers as their
/// bits; backgrounds, removed modifiers and alignment are not handed on.
#[verifier::external_body]
fn markdown_prose_of(prose: &str) -> (ls: Vec<ProseLine>)
    ensures
        ls@.map_values(|l: ProseLine| prose_line_view(l)) == markdown_prose(prose@),
{
    tui_markdown::from_str(prose).lines.into_iter().map(|l| (
        l.style.fg.map(|c| c.to_string()),
        l.style.add_modifier.bits(),
        l.spans.into_iter().map(|s| (s.content.into_owned(), s.style.fg.map(|c| c.to_string()), s.style.add_modifier.bits())).collect(),
    )).collect()
}

/// The value of a hexadecimal digit.
pub open spec fn hex_digit(c: char) -> Option<u8> {
    if '0' <= c <= '9' {
        Some((c as int - '0' as int) as u8)
    } else if 'A' <= c <= 'F' {
        Some((c as int - 'A' as int + 10) as u8)
    } else if 'a' <= c <= 'f' {
        Some((c as int - 'a' as int + 10) as u8)
    } else {
        None
    }
}

/// The byte written by the two hexadecimal digits at `i` of `s`.
pub open spec fn hex_byte(s: Seq<char>, i: int) -> Option<u8> {
    match (hex_digit(s[i]), hex_digit(s[i + 1])) {
        (Some(h), Some(l)) => Some((h * 16 + l) as u8),
        _ => None,
    }
}

/// The number written by the decimal digits `s`, when all are digits.
pub open spec fn decimal_value(s: Seq<char>) -> Option<nat>
    decreases s.len(),
{
    if s.len() == 0 {
        Some(0)
    } else if '0' <= s.last() <= '9' {
        match decimal_value(s.drop_last()) {
            Some(v) => Some(v * 10 + (s.last() as int - '0' as int) as nat),
            None => None,
        }
    } else {
        None
    }
}

/// The color a displayed name stands for: one of the named colors, `#`
/// and six hexadecimal digits, or a palette index of one to three digits up
/// to 255.
pub open spec fn color_named(name: Seq<char>) -> Option<Color> {
    if name == "Reset"@ { Some(Color::Reset) }
    else if name == "Black"@ { Some(Color::Black) }
    else if name == "Red"@ { Some(Color::Red) }
    else if name == "Green"@ { Some(Color::Green) }
    else if name == "Yellow"@ { Some(Color::Yellow) }
    else if name == "Blue"@ { Some(Color::Blue) }
    else if name == "Magenta"@ { Some(Color::Magenta) }
    else if name == "Cyan"@ { Some(Color::Cyan) }
    else if name == "Gray"@ { Some(Color::Gray) }
    else if name == "DarkGray"@ { Some(Color::DarkGray) }
    else if name == "LightRed"@ { Some(Color::LightRed) }
    else if name == "LightGreen"@ { Some(Color::LightGreen) }
    else if name == "LightYellow"@ { Some(Color::LightYellow) }
    else if name == "LightBlue"@ { Some(Color::LightBlue) }
    else if name == "LightMagenta"@ { Some(Color::LightMagenta) }
    else if name == "LightCyan"@ { Some(Color::LightCyan) }
    else if name == "White"@ { Some(Color::White) }
    else if name.len() == 7 && name[0] == '#' && hex_byte(name, 1) is Some && hex_byte(name, 3) is Some
        && hex_byte(name, 5) is Some {
        Some(Color::Rgb(hex_byte(name, 1).unwrap(), hex_byte(name, 3).unwrap(), hex_byte(name, 5).unwrap()))
    } else if 1 <= name.len() <= 3 && decimal_value(name) is Some && decimal_value(name).unwrap() <= 255 {
        Some(Color::Indexed(decimal_value(name).unwrap() as u8))
    } else {
        None
    }
}

fn named(v: &Vec<char>, s: &str) -> (r: bool)
    ensures
        r == (v@ == s@),
{
    chars_eq(v, &chars_of(s))
}

fn hex_digit_of(c: char) -> (r: Option<u8>)
    ensures
        r == hex_digit(c),
{
    if '0' <= c && c <= '9' {
        Some((c as u32 - '0' as u32) as u8)
    } else if 'A' <= c && c <= 'F' {
        Some((c as u32 - 'A' as u32 + 10) as u8)
    } else if 'a' <= c && c <= 'f' {
        Some((c as u32 - 'a' as u32 + 10) as u8)
    } else {
        None
    }
}

fn hex_byte_of(v: &Vec<char>, i: usize) -> (r: Option<u8>)
    requires
        i + 1 < v.len(),
    ensures
        r == hex_byte(v@, i as int),
{
    match (hex_digit_of(v[i]), hex_digit_of(v[i + 1])) {
        (Some(h), Some(l)) => Some(h * 16 + l),
        _ => None,
    }
}

/// The palette index written by one to three decimal digits, up to 255.
fn index_of(v: &Vec<char>) -> (r: Option<u8>)
    requires
        1 <= v@.len() <= 3,
    ensures
        match r {
            Some(x) => decimal_value(v@) == Some(x as nat),
            None => decimal_value(v@) is None || decimal_value(v@).unwrap() > 255,
        },
{
    let mut n: u32 = 0;
    let mut i: usize = 0;
    while i < v.len()
        invariant
            i <= v@.len() <= 3,
            decimal_value(v@.take(i as int)) == Some(n as nat),
            n < 1000,
            i == 0 ==> n == 0,
            i == 1 ==> n < 10,
            i == 2 ==> n < 100,
        decreases v.len() - i,
    {
        let c = v[i];
        assert(v@.take(i + 1).drop_last() =~= v@.take(i as int));
        if c < '0' || c > '9' {
            proof { lemma_digits_stop(v@, i as int); }
            return None;
        }
        n = n * 10 + (c as u32 - '0' as u32);
        i = i + 1;
    }
    assert(v@.take(i as int) =~= v@);
    if n > 255 {
        None
    } else {
        Some(n as u8)
    }
}

/// A non-digit at `i` leaves the whole text without a decimal value.
proof fn lemma_digits_stop(s: Seq<char>, i: int)
    requires
        0 <= i < s.len(),
        !('0' <= s[i] <= '9'),
    ensures
        decimal_value(s) is None,
    decreases s.len(),
{
    if i < s.len() - 1 {
        lemma_digits_stop(s.drop_last(), i);
    }
}

/// The color a displayed name stands for.
pub fn color_named_of(name: &String) -> (r: Option<Color>)
    ensures
        r == color_named(name@),
{
    let v = chars_of(name.as_str());
    if named(&v, "Reset") { return Some(Color::Reset); }
    if named(&v, "Black") { return Some(Color::Black); }
    if named(&v, "Red") { return Some(Color::Red); }
    if named(&v, "Green") { return Some(Color::Green); }
    if named(&v, "Yellow") { return Some(Color::Yellow); }
    if named(&v, "Blue") { return Some(Color::Blue); }
    if named(&v, "Magenta") { return Some(Color::Magenta); }
    if named(&v, "Cyan") { return Some(Color::Cyan); }
    if named(&v, "Gray") { return Some(Color::Gray); }
    if named(&v, "DarkGray") { return Some(Color::DarkGray); }
    if named(&v, "LightRed") { return Some(Color::LightRed); }
    if named(&v, "LightGreen") { return Some(Color::LightGreen); }
    if named(&v, "LightYellow") { return Some(Color::LightYellow); }
    if named(&v, "LightBlue") { return Some(Color::LightBlue); }
    if named(&v, "LightMagenta") { return Some(Color::LightMagenta); }
    if named(&v, "LightCyan") { return Some(Color::LightCyan); }
    if named(&v, "White") { return Some(Color::White); }
    if v.len() == 7 && v[0] == '#' {
        match (hex_byte_of(&v, 1), hex_byte_of(&v, 3), hex_byte_of(&v, 5)) {
            (Some(r), Some(g), Some(b)) => { return Some(Color::Rgb(r, g, b)); },
            _ => { return None; },
        }
    }
    if 1 <= v.len() && v.len() <= 3 {
        return match index_of(&v) {
            Some(x) => Some(Color::Indexed(x)),
            None => None,
        };
    }
    None
}

/// The foreground of a span: its own color, or else its line's, as named;
/// the terminal's default when neither names a color.
pub open spec fn span_color(line_fg: Option<Seq<char>>, span_fg: Option<Seq<char>>) -> Color {
    let name = match span_fg {
        Some(n) => Some(n),
        None => line_fg,
    };
    match name {
        Some(n) => match color_named(n) {
            Some(c) => c,
            None => Color::Reset,
        },
        None => Color::Reset,
    }
}

/// Whether modifier bits hold bold (the lowest bit).
pub open spec fn bold_bit(bits: u16) -> bool {
    bits % 2 == 1
}

/// `l` draws the rendered line `p`: one span per rendered span, with its
/// text, its color (see `span_color`), and bold when the span or the line
/// adds it.
pub open spec fn prose_line_matches(l: Line, p: ProseLineView) -> bool {
    &&& l.spans@.len() == p.2.len()
    &&& forall|i: int|
        0 <= i < p.2.len() ==> {
            let s = #[trigger] l.spans@[i];
            &&& s.text@ == p.2[i].0
            &&& s.fg == span_color(p.0, p.2[i].1)
            &&& s.bold == (bold_bit(p.1) || bold_bit(p.2[i].2))
        }
}

fn color_of_names(line_fg: &Option<String>, span_fg: &Option<String>) -> (c: Color)
    ensures
        c == span_color(opt_name_view(*line_fg), opt_name_view(*span_fg)),
{
    let name = match span_fg {
        Some(n) => Some(n),
        None => match line_fg {
            Some(n) => Some(n),
            None => None,
        },
    };
    match name {
        Some(n) => match color_named_of(n) {
            Some(c) => c,
            None => Color::Reset,
        },
        None => Color::Reset,
    }
}

/// The lines of markdown prose as `tui-markdown` renders it, each span with
/// its text, its color and its boldness.
pub fn prose_lines_of(text: &str) -> (ls: Vec<Line>)
    ensures
        ls@.len() == markdown_prose(text@).len(),
        forall|i: int| 0 <= i < ls@.len() ==> prose_line_matches(#[trigger] ls@[i], markdown_prose(text@)[i]),
{
    let rendered = markdown_prose_of(text);
    let ghost rv = rendered@.map_values(|l: ProseLine| prose_line_view(l));
    let mut ls: Vec<Line> = Vec::new();
    let mut i: usize = 0;
    while i < rendered.len()
        invariant
            i <= rendered@.len(),
            rv == rendered@.map_values(|l: ProseLine| prose_line_view(l)),
            rv == markdown_prose(text@),
            ls@.len() == i,
            forall|j: int| 0 <= j < i ==> prose_line_matches(#[trigger] ls@[j], rv[j]),
        decreases rendered.len() - i,
    {
        let line = &rendered[i];
        let ghost pv = prose_line_view(*line);
        assert(rv[i as int] == pv);
        let mut spans: Vec<Span> = Vec::new();
        let mut k: usize = 0;
        while k < line.2.len()
            invariant
                k <= line.2@.len(),
                pv == prose_line_view(*line),
                spans@.len() == k,
                forall|j: int|
                    0 <= j < k ==> {
                        let s = #[trigger] spans@[j];
                        &&& s.text@ == pv.2[j].0
                        &&& s.fg == span_color(pv.0, pv.2[j].1)
                        &&& s.bold == (bold_bit(pv.1) || bold_bit(pv.2[j].2))
                    },
            decreases line.2.len() - k,
        {
            let sp = &line.2[k];
            assert(pv.2[k as int] == span_view(*sp));
            let fg = color_of_names(&line.0, &sp.1);
            let bold = line.1 % 2 == 1 || sp.2 % 2 == 1;
            spans.push(Span { text: sp.0.clone(), fg, bold });
            k = k + 1;
        }
        ls.push(Line { spans });
        proof {
            assert(prose_line_matches(ls@[i as int], rv[i as int]));
        }
        i = i + 1;
    }
    ls
}

} // verus!
