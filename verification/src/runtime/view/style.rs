//! The styled text the views are made of: colors, spans and lines.
use vstd::prelude::*;

verus! {

/// A terminal color.
#[derive(Debug, Clone, Copy, PartialEq, Eq, Structural)]
pub enum Color {
    Reset,
    Red,
    Green,
    Yellow,
    Blue,
    Magenta,
    Cyan,
    DarkGray,
    Black,
    Gray,
    LightRed,
    LightGreen,
    LightYellow,
    LightBlue,
    LightMagenta,
    LightCyan,
    White,
    /// A color given by its red, green and blue.
    Rgb(u8, u8, u8),
    /// A color of the terminal's 256-color palette.
    Indexed(u8),
}

/// A text style: a foreground color, bold or not.
#[derive(Debug, Clone, Copy, PartialEq, Eq, Structural)]
pub struct Style {
    pub fg: Color,
    pub bold: bool,
}

/// A run of text in one style.
#[derive(Debug, Clone, PartialEq)]
pub struct Span {
    pub text: String,
    pub fg: Color,
    pub bold: bool,
}

/// One line of styled text.
#[derive(Debug, Clone, PartialEq)]
pub struct Line {
    pub spans: Vec<Span>,
}

impl Line {
    /// The line's text, its spans concatenated.
    pub open spec fn text(&self) -> Seq<char> {
        spans_text(self.spans@)
    }

    /// All of the line's text, as one string.
    pub fn plain_text(&self) -> (s: String)
        ensures
            s@ == self.text(),
    {
        let mut s = String::new();
        let mut i: usize = 0;
        while i < self.spans.len()
            invariant
                i <= self.spans.len(),
                s@ == spans_text(self.spans@.take(i as int)),
            decreases self.spans.len() - i,
        {
            s.append(self.spans[i].text.as_str());
            assert(self.spans@.take(i + 1).drop_last() =~= self.spans@.take(i as int));
            i = i + 1;
        }
        assert(self.spans@.take(self.spans.len() as int) =~= self.spans@);
        s
    }
}

pub open spec fn spans_text(s: Seq<Span>) -> Seq<char>
    decreases s.len(),
{
    if s.len() == 0 {
        Seq::empty()
    } else {
        spans_text(s.drop_last()) + s.last().text@
    }
}

} // verus!
