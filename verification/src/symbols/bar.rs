//! Bar symbols for charts, from empty to full, in both axes.

use vstd::prelude::*;

verus! {

/// Empty bar
pub const EMPTY: &'static str = " ";

/// One-eighth bar
pub const ONE_EIGHTH: &'static str = "▁";

/// Quarter bar
pub const QUARTER: &'static str = "▂";

/// Three-eighths bar
pub const THREE_EIGHTHS: &'static str = "▃";

/// Half bar
pub const HALF: &'static str = "▄";

/// Five-eighths bar
pub const FIVE_EIGHTHS: &'static str = "▅";

/// Three-quarters bar
pub const THREE_QUARTERS: &'static str = "▆";

/// Seven-eighths bar
pub const SEVEN_EIGHTHS: &'static str = "▇";

/// Full bar
pub const FULL: &'static str = "█";

/// Left one-eighth bar
pub const HORIZONTAL_ONE_EIGHTH: &'static str = "▏";

/// Left quarter bar
pub const HORIZONTAL_QUARTER: &'static str = "▎";

/// Left three-eighths bar
pub const HORIZONTAL_THREE_EIGHTHS: &'static str = "▍";

/// Left half bar
pub const HORIZONTAL_HALF: &'static str = "▌";

/// Left five-eighths bar
pub const HORIZONTAL_FIVE_EIGHTHS: &'static str = "▋";

/// Left three-quarters bar
pub const HORIZONTAL_THREE_QUARTERS: &'static str = "▊";

/// Left seven-eighths bar
pub const HORIZONTAL_SEVEN_EIGHTHS: &'static str = "▉";

/// The vertical bars from empty to full, one eighth at a time.
pub fn vertical_bars() -> [&'static str; 9] {
    [
        EMPTY,
        ONE_EIGHTH,
        QUARTER,
        THREE_EIGHTHS,
        HALF,
        FIVE_EIGHTHS,
        THREE_QUARTERS,
        SEVEN_EIGHTHS,
        FULL,
    ]
}

/// The horizontal bars from empty to full, one eighth at a time.
pub fn horizontal_bars() -> [&'static str; 9] {
    [
        EMPTY,
        HORIZONTAL_ONE_EIGHTH,
        HORIZONTAL_QUARTER,
        HORIZONTAL_THREE_EIGHTHS,
        HORIZONTAL_HALF,
        HORIZONTAL_FIVE_EIGHTHS,
        HORIZONTAL_THREE_QUARTERS,
        HORIZONTAL_SEVEN_EIGHTHS,
        FULL,
    ]
}

} // verus!
