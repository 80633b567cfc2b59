use vstd::prelude::*;
use colorful::Colorful;

verus! {

/// The terminal colors the listing uses.
#[derive(Clone, Copy)]
pub enum GlyphColor {
    Yellow,
    Aqua,
    Red,
}

/// The ANSI 256-color code that colorful assigns to each color used here:
/// 3 for yellow, 86 for aquamarine, 196 for bright red.
pub open spec fn color_code_spec(c: GlyphColor) -> Seq<char> {
    match c {
        GlyphColor::Yellow => "3"@,
        GlyphColor::Aqua => "86"@,
        GlyphColor::Red => "196"@,
    }
}

/// `s` wrapped in the ANSI 256-color foreground sequence for `c`.
pub open spec fn colorize_spec(s: Seq<char>, c: GlyphColor) -> Seq<char> {
    "\u{1b}[38;5;"@ + color_code_spec(c) + "m"@ + s + "\u{1b}[0m"@
}

/// Relies on colorful's `Colorful::color` in 256-color foreground mode and
/// on the `Display` of its `CString`: the result is the text wrapped in
/// `ESC [38;5;<code>m` and `ESC [0m`, with code 3 for `Color::Yellow`,
/// 86 for `Color::Aquamarine1a` and 196 for `Color::Red1`.
#[verifier::external_body]
pub(crate) fn colorize(s: &str, c: GlyphColor) -> (r: String)
    ensures
        r@ == colorize_spec(s@, c),
{
    let col = match c {
        GlyphColor::Yellow => colorful::Color::Yellow,
        GlyphColor::Aqua => colorful::Color::Aquamarine1a,
        GlyphColor::Red => colorful::Color::Red1,
    };
    s.color(col).to_string()
}

} // verus!
