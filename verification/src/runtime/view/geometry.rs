//! Rectangles of terminal cells.
use vstd::prelude::*;

verus! {

/// A rectangle of terminal cells: its top-left corner and its size.
#[derive(Debug, Clone, Copy, PartialEq, Eq, Structural)]
pub struct Rect {
    pub x: u16,
    pub y: u16,
    pub width: u16,
    pub height: u16,
}

/// `a + b` clamped to the `u16` range.
pub open spec fn sat_add_u16(a: int, b: int) -> u16 {
    if a + b > u16::MAX {
        u16::MAX
    } else {
        (a + b) as u16
    }
}

/// `a - b`, or 0 below zero.
pub open spec fn sat_sub_u16(a: int, b: int) -> u16 {
    if a - b < 0 {
        0
    } else {
        (a - b) as u16
    }
}

/// `u16::saturating_add`.
pub fn add_u16(a: u16, b: u16) -> (r: u16)
    ensures
        r == sat_add_u16(a as int, b as int),
{
    if a > u16::MAX - b {
        u16::MAX
    } else {
        a + b
    }
}

/// `u16::saturating_sub`.
pub fn sub_u16(a: u16, b: u16) -> (r: u16)
    ensures
        r == sat_sub_u16(a as int, b as int),
{
    if a < b {
        0
    } else {
        a - b
    }
}

pub open spec fn min_u16(a: u16, b: u16) -> u16 {
    if a <= b {
        a
    } else {
        b
    }
}

/// The tallest the message box may grow on a screen `height` rows tall:
/// half the screen, and never less than three rows.
pub open spec fn input_box_cap(height: u16) -> int {
    if height / 2 < 3 {
        3
    } else {
        (height / 2) as int
    }
}

/// The rows of the message box for text that wraps to `wrapped` rows: the
/// text and its two borders, at least three rows and at most the cap.
pub open spec fn input_box_rows_spec(wrapped: int, height: u16) -> int {
    if wrapped + 2 > input_box_cap(height) {
        input_box_cap(height)
    } else if wrapped + 2 < 3 {
        3
    } else {
        wrapped + 2
    }
}

/// The rows of the message box: it grows with its wrapped text.
pub fn input_box_rows(wrapped: usize, height: u16) -> (rows: u16)
    ensures
        rows as int == input_box_rows_spec(wrapped as int, height),
{
    let cap: u16 = if height / 2 < 3 {
        3
    } else {
        height / 2
    };
    if wrapped >= cap as usize || wrapped + 2 > cap as usize {
        cap
    } else if wrapped + 2 < 3 {
        3
    } else {
        (wrapped + 2) as u16
    }
}

} // verus!
