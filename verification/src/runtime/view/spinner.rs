//! The spinner shown while a turn or a session creation is under way.
use vstd::prelude::*;

verus! {

/// Number of spinner frames.
pub const SPINNER_LEN: u128 = 10;

/// Milliseconds each spinner frame shows for.
pub const FRAME_MS: u128 = 80;

/// The `i`-th braille spinner frame (`i < 10`).
pub open spec fn spinner_glyph(i: int) -> Seq<char> {
    if i == 0 {
        "\u{280B}"@
    } else if i == 1 {
        "\u{2819}"@
    } else if i == 2 {
        "\u{2839}"@
    } else if i == 3 {
        "\u{2838}"@
    } else if i == 4 {
        "\u{283C}"@
    } else if i == 5 {
        "\u{2834}"@
    } else if i == 6 {
        "\u{2826}"@
    } else if i == 7 {
        "\u{2827}"@
    } else if i == 8 {
        "\u{2807}"@
    } else {
        "\u{280F}"@
    }
}

/// The spinner glyph for something that has been running for `elapsed_ms`
/// milliseconds: the frames cycle, one every 80 ms.
pub fn spinner_frame(elapsed_ms: u128) -> (s: &'static str)
    ensures
        s@ == spinner_glyph(((elapsed_ms / 80) % 10) as int),
{
    let idx = (elapsed_ms / FRAME_MS) % SPINNER_LEN;
    if idx == 0 {
        "\u{280B}"
    } else if idx == 1 {
        "\u{2819}"
    } else if idx == 2 {
        "\u{2839}"
    } else if idx == 3 {
        "\u{2838}"
    } else if idx == 4 {
        "\u{283C}"
    } else if idx == 5 {
        "\u{2834}"
    } else if idx == 6 {
        "\u{2826}"
    } else if idx == 7 {
        "\u{2827}"
    } else if idx == 8 {
        "\u{2807}"
    } else {
        "\u{280F}"
    }
}

} // verus!
