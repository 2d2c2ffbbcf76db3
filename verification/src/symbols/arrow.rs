//! Arrow symbols.

use vstd::prelude::*;

verus! {

/// Up arrow
pub const UP: &'static str = "↑";

/// Down arrow
pub const DOWN: &'static str = "↓";

/// Left arrow
pub const LEFT: &'static str = "←";

/// Right arrow
pub const RIGHT: &'static str = "→";

/// Double up arrow
pub const DOUBLE_UP: &'static str = "⇑";

/// Double down arrow
pub const DOUBLE_DOWN: &'static str = "⇓";

/// Double left arrow
pub const DOUBLE_LEFT: &'static str = "⇐";

/// Double right arrow
pub const DOUBLE_RIGHT: &'static str = "⇒";

/// Up-down arrow
pub const UP_DOWN: &'static str = "↕";

/// Left-right arrow
pub const LEFT_RIGHT: &'static str = "↔";

} // verus!
