//! Line-drawing symbols: thin, thick, double and rounded box lines.

use vstd::prelude::*;

verus! {

/// Vertical line
pub const VERTICAL: &'static str = "│";

/// Horizontal line
pub const HORIZONTAL: &'static str = "─";

/// Top-left corner
pub const TOP_LEFT: &'static str = "┌";

/// Top-right corner
pub const TOP_RIGHT: &'static str = "┐";

/// Bottom-left corner
pub const BOTTOM_LEFT: &'static str = "└";

/// Bottom-right corner
pub const BOTTOM_RIGHT: &'static str = "┘";

/// Junction opening to the right
pub const VERTICAL_RIGHT: &'static str = "├";

/// Junction opening to the left
pub const VERTICAL_LEFT: &'static str = "┤";

/// Junction opening downward
pub const HORIZONTAL_DOWN: &'static str = "┬";

/// Junction opening upward
pub const HORIZONTAL_UP: &'static str = "┴";

/// Cross junction
pub const CROSS: &'static str = "┼";

/// Thick vertical line
pub const THICK_VERTICAL: &'static str = "┃";

/// Thick horizontal line
pub const THICK_HORIZONTAL: &'static str = "━";

/// Thick top-left corner
pub const THICK_TOP_LEFT: &'static str = "┏";

/// Thick top-right corner
pub const THICK_TOP_RIGHT: &'static str = "┓";

/// Thick bottom-left corner
pub const THICK_BOTTOM_LEFT: &'static str = "┗";

/// Thick bottom-right corner
pub const THICK_BOTTOM_RIGHT: &'static str = "┛";

/// Thick junction opening to the right
pub const THICK_VERTICAL_RIGHT: &'static str = "┣";

/// Thick junction opening to the left
pub const THICK_VERTICAL_LEFT: &'static str = "┫";

/// Thick junction opening downward
pub const THICK_HORIZONTAL_DOWN: &'static str = "┳";

/// Thick junction opening upward
pub const THICK_HORIZONTAL_UP: &'static str = "┻";

/// Thick cross junction
pub const THICK_CROSS: &'static str = "╋";

/// Double vertical line
pub const DOUBLE_VERTICAL: &'static str = "║";

/// Double horizontal line
pub const DOUBLE_HORIZONTAL: &'static str = "═";

/// Double top-left corner
pub const DOUBLE_TOP_LEFT: &'static str = "╔";

/// Double top-right corner
pub const DOUBLE_TOP_RIGHT: &'static str = "╗";

/// Double bottom-left corner
pub const DOUBLE_BOTTOM_LEFT: &'static str = "╚";

/// Double bottom-right corner
pub const DOUBLE_BOTTOM_RIGHT: &'static str = "╝";

/// Double junction opening to the right
pub const DOUBLE_VERTICAL_RIGHT: &'static str = "╠";

/// Double junction opening to the left
pub const DOUBLE_VERTICAL_LEFT: &'static str = "╣";

/// Double junction opening downward
pub const DOUBLE_HORIZONTAL_DOWN: &'static str = "╦";

/// Double junction opening upward
pub const DOUBLE_HORIZONTAL_UP: &'static str = "╩";

/// Double cross junction
pub const DOUBLE_CROSS: &'static str = "╬";

/// Rounded top-left corner
pub const ROUNDED_TOP_LEFT: &'static str = "╭";

/// Rounded top-right corner
pub const ROUNDED_TOP_RIGHT: &'static str = "╮";

/// Rounded bottom-left corner
pub const ROUNDED_BOTTOM_LEFT: &'static str = "╰";

/// Rounded bottom-right corner
pub const ROUNDED_BOTTOM_RIGHT: &'static str = "╯";

} // verus!
