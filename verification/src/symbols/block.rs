//! Block-fill symbols, from one eighth to a full block, and shades.

use vstd::prelude::*;

verus! {

/// Full block
pub const FULL: &'static str = "█";

/// Seven-eighths block
pub const SEVEN_EIGHTHS: &'static str = "▉";

/// Three-quarters block
pub const THREE_QUARTERS: &'static str = "▊";

/// Five-eighths block
pub const FIVE_EIGHTHS: &'static str = "▋";

/// Half block
pub const HALF: &'static str = "▌";

/// Three-eighths block
pub const THREE_EIGHTHS: &'static str = "▍";

/// Quarter block
pub const QUARTER: &'static str = "▎";

/// One-eighth block
pub const ONE_EIGHTH: &'static str = "▏";

/// Upper half block
pub const UPPER_HALF: &'static str = "▀";

/// Lower half block
pub const LOWER_HALF: &'static str = "▄";

/// Left half block
pub const LEFT_HALF: &'static str = "▌";

/// Right half block
pub const RIGHT_HALF: &'static str = "▐";

/// Light shade
pub const LIGHT_SHADE: &'static str = "░";

/// Medium shade
pub const MEDIUM_SHADE: &'static str = "▒";

/// Dark shade
pub const DARK_SHADE: &'static str = "▓";

} // verus!
