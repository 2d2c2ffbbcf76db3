//! Dot symbols for scatter plots and braille patterns.

use vstd::prelude::*;

verus! {

/// Braille blank pattern (no dots)
pub const BRAILLE_BLANK: char = '⠀';

/// Braille full pattern (all dots)
pub const BRAILLE_FULL: char = '⣿';

/// Small dot
pub const SMALL: &'static str = "·";

/// Medium dot
pub const MEDIUM: &'static str = "•";

/// Large dot
pub const LARGE: &'static str = "●";

} // verus!
