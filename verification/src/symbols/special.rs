//! Checkboxes, bullets, stars and other special symbols.

use vstd::prelude::*;

verus! {

/// Bullet
pub const BULLET: &'static str = "•";

/// Unchecked checkbox
pub const CHECKBOX_UNCHECKED: &'static str = "☐";

/// Checked checkbox
pub const CHECKBOX_CHECKED: &'static str = "☑";

/// Crossed checkbox
pub const CHECKBOX_CROSSED: &'static str = "☒";

/// Unchecked radio button
pub const RADIO_UNCHECKED: &'static str = "○";

/// Checked radio button
pub const RADIO_CHECKED: &'static str = "◉";

/// Ellipsis
pub const ELLIPSIS: &'static str = "…";

/// Vertical ellipsis
pub const VERTICAL_ELLIPSIS: &'static str = "⋮";

/// Star
pub const STAR: &'static str = "★";

/// Empty star
pub const STAR_EMPTY: &'static str = "☆";

} // verus!
