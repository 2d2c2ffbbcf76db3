//! Display-width queries, answered by the `unicode-width` crate.
//!
//! The width of a character or string is a pure function of its code
//! points, so the results are given names that contracts elsewhere in the
//! crate can speak about.

use vstd::prelude::*;

verus! {

/// The number of terminal columns one character occupies, as
/// `unicode_width` computes it: 0 for control characters, otherwise the
/// character's display width.
pub uninterp spec fn char_display_width(c: char) -> nat;

/// The number of terminal columns a string occupies, as `unicode_width`
/// computes it over the whole string (ligatures and joined sequences can
/// make this differ from the sum of the characters' widths).
pub uninterp spec fn str_display_width(s: Seq<char>) -> nat;

/// Relies on `unicode_width::UnicodeWidthChar::width`: the display width
/// of one character, `None` (here 0) for control characters. The packed
/// width tables of that crate hold values up to 3 columns.
#[verifier::external_body]
pub fn char_width(c: char) -> (w: usize)
    ensures
        w == char_display_width(c),
        w <= 3,
        (' ' <= c && c <= '~') ==> w == 1,
{
    unicode_width::UnicodeWidthChar::width(c).unwrap_or(0)
}

/// Relies on `unicode_width::UnicodeWidthStr::width`: the display width
/// of a whole string; an empty string has width zero.
#[verifier::external_body]
pub fn str_width(s: &str) -> (w: usize)
    ensures
        w == str_display_width(s@),
        s@.len() == 0 ==> w == 0,
{
    unicode_width::UnicodeWidthStr::width(s)
}

/// The width `Buffer::set_string` advances by for one character: the
/// display width, but never less than one column, so the cursor always
/// moves forward.
pub open spec fn eff_width(c: char) -> nat {
    if char_display_width(c) == 0 {
        1nat
    } else {
        char_display_width(c)
    }
}

/// The executable counterpart of [`eff_width`].
pub fn char_advance(c: char) -> (w: usize)
    ensures
        w == eff_width(c),
        1 <= w <= 3,
{
    let w = char_width(c);
    if w == 0 {
        1
    } else {
        w
    }
}

} // verus!
