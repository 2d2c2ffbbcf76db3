//! Spinner frames for progress indicators.

use vstd::prelude::*;

verus! {

/// The braille spinner frames.
pub fn braille() -> [&'static str; 8] {
    ["⠁", "⠂", "⠄", "⡀", "⢀", "⠠", "⠐", "⠈"]
}

/// The dots spinner frames.
pub fn dots() -> [&'static str; 4] {
    ["⠋", "⠙", "⠹", "⠸"]
}

/// The line spinner frames.
pub fn line() -> [&'static str; 4] {
    ["-", "\\", "|", "/"]
}

/// The simple spinner frames.
pub fn simple() -> [&'static str; 4] {
    ["◴", "◷", "◶", "◵"]
}

/// The block spinner frames.
pub fn block() -> [&'static str; 4] {
    ["▖", "▘", "▝", "▗"]
}

} // verus!
