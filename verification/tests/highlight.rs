//! Highlighting fenced code blocks.

use syntect::highlighting::ThemeSet;
use syntect::parsing::SyntaxSet;

use mewcode_client::runtime::view::highlight::{highlight_code_block, lines_with_endings_of, piece_line, trimmed_newlines};
use mewcode_client::runtime::view::prose::{color_named_of, prose_lines_of};
use mewcode_client::runtime::view::style::Color;

fn chars(s: &str) -> Vec<char> {
    s.chars().collect()
}

#[test]
fn highlight_without_language_is_plain() {
    let set = SyntaxSet::load_defaults_newlines();
    let themes = ThemeSet::load_defaults();
    let theme = &themes.themes["base16-ocean.dark"];
    let lines = highlight_code_block("hello world\nsecond line", None, &set, theme);
    assert_eq!(lines.len(), 2);
    assert_eq!(lines[0].spans[0].fg, Color::Reset);
    assert_eq!(lines[1].plain_text(), "second line");

    let lines = highlight_code_block("x = 1", Some("totally-not-a-language"), &set, theme);
    assert_eq!(lines.len(), 1);
    assert_eq!(lines[0].spans[0].fg, Color::Reset);
    assert_eq!(lines[0].plain_text(), "x = 1");

    let lines = highlight_code_block("x = 1", Some(""), &set, theme);
    assert_eq!(lines[0].spans[0].fg, Color::Reset);
}

#[test]
fn highlight_with_known_language_keeps_the_text() {
    let set = SyntaxSet::load_defaults_newlines();
    let themes = ThemeSet::load_defaults();
    let theme = &themes.themes["base16-ocean.dark"];
    let lines = highlight_code_block("fn main() {\n    let x = 1;\n}\n", Some("rs"), &set, theme);
    assert_eq!(lines.len(), 3);
    assert_eq!(lines[0].plain_text(), "fn main() {");
    assert_eq!(lines[1].plain_text(), "    let x = 1;");
    assert_eq!(lines[2].plain_text(), "}");
    assert!(lines[0].spans.len() > 1);
    assert!(lines[0].spans.iter().all(|s| matches!(s.fg, Color::Rgb(_, _, _))));
}

#[test]
fn chunks_keep_their_newlines() {
    let out = lines_with_endings_of(&chars("foo\r\nbar\n\nbaz"));
    let out: Vec<String> = out.into_iter().map(|v| v.into_iter().collect()).collect();
    assert_eq!(out, vec!["foo\r\n", "bar\n", "\n", "baz"]);
    assert!(lines_with_endings_of(&chars("")).is_empty());
    assert_eq!(trimmed_newlines(&chars("ab\n\n")), chars("ab"));
}

#[test]
fn piece_lines_take_their_colours() {
    let l = piece_line(&chars("ab\n"), Some(vec![(1, 2, 3, "a".to_string()), (4, 5, 6, "b\n".to_string())]));
    assert_eq!(l.spans.len(), 2);
    assert_eq!(l.spans[1].text, "b");
    assert_eq!(l.spans[1].fg, Color::Rgb(4, 5, 6));
    let l = piece_line(&chars("ab\n"), None);
    assert_eq!(l.plain_text(), "ab");
    assert_eq!(l.spans[0].fg, Color::Reset);
}

#[test]
fn color_names_read_back() {
    assert_eq!(color_named_of(&"LightCyan".to_string()), Some(Color::LightCyan));
    assert_eq!(color_named_of(&"#0A10FF".to_string()), Some(Color::Rgb(10, 16, 255)));
    assert_eq!(color_named_of(&"42".to_string()), Some(Color::Indexed(42)));
    assert_eq!(color_named_of(&"256".to_string()), None);
    assert_eq!(color_named_of(&"Purple".to_string()), None);
}

#[test]
fn prose_keeps_text_and_bold() {
    let ls = prose_lines_of("plain and **strong** words");
    assert_eq!(ls.len(), 1);
    assert_eq!(ls[0].plain_text(), "plain and strong words");
    assert!(ls[0].spans.iter().any(|s| s.bold && s.text == "strong"));
    assert!(ls[0].spans.iter().any(|s| !s.bold && s.text.starts_with("plain")));
    let heading = prose_lines_of("## Title");
    assert!(heading[0].plain_text().contains("Title"));
    assert!(heading[0].spans.iter().any(|s| s.text.contains("Title") && s.fg == Color::Cyan && s.bold));
}
