//! Unicode symbols for drawing borders, boxes, bars and indicators,
//! grouped by what they draw.

pub mod arrow;
pub mod bar;
pub mod block;
pub mod dot;
pub mod line;
pub mod special;
pub mod spinner;
