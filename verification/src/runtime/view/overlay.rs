//! The bodies of the `/tools` and `/skills` overlays.
use vstd::prelude::*;

use crate::runtime::view::style::{Color, Line};
use crate::runtime::view::transcript::{blank_line, one_span, span_line};
use crate::text::{chars_of, decimal, decimal_of, push_all, push_str, string_of};

verus! {

/// The `/tools` overlay body: one bulleted line per tool, a blank line, and
/// the number of tools.
pub fn tools_lines(tools: &Vec<String>) -> (ls: Vec<Line>)
    ensures
        ls@.len() == tools@.len() + 2,
        forall|i: int| 0 <= i < tools@.len() ==> one_span(#[trigger] ls@[i], "\u{2022} "@ + tools@[i]@, Color::Reset, false),
        ls@[tools@.len() as int].spans@.len() == 0,
        one_span(ls@[tools@.len() as int + 1], decimal(tools@.len()) + " tools available"@, Color::DarkGray, false),
{
    let mut ls: Vec<Line> = Vec::new();
    let mut i: usize = 0;
    while i < tools.len()
        invariant
            i <= tools.len(),
            ls@.len() == i,
            forall|j: int| 0 <= j < i ==> one_span(#[trigger] ls@[j], "\u{2022} "@ + tools@[j]@, Color::Reset, false),
        decreases tools.len() - i,
    {
        let mut t = chars_of("\u{2022} ");
        push_str(&mut t, tools[i].as_str());
        ls.push(span_line(string_of(&t), Color::Reset, false));
        i = i + 1;
    }
    ls.push(blank_line());
    let mut count = decimal_of(tools.len());
    push_str(&mut count, " tools available");
    ls.push(span_line(string_of(&count), Color::DarkGray, false));
    ls
}

/// The `/skills` overlay body: a hint until a skill catalog is loaded.
pub fn skills_lines() -> (ls: Vec<Line>)
    ensures
        ls@.len() == 1,
        one_span(ls@[0], "No skills loaded."@, Color::DarkGray, false),
{
    vec![span_line("No skills loaded.".to_string(), Color::DarkGray, false)]
}

/// The title of an overlay box.
pub fn overlay_title(title: &str) -> (s: String)
    ensures
        s@ == " "@ + title@ + "  (Esc to close) "@,
{
    let mut t = chars_of(" ");
    push_str(&mut t, title);
    push_str(&mut t, "  (Esc to close) ");
    string_of(&t)
}

} // verus!
