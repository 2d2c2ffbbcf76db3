//! Small helpers for exercising the engine in tests: terminal size
//! presets, a performance tally, and screen-content normalization.

use crate::strutil::{replace_all, replace_spec};
use vstd::prelude::*;

verus! {

/// Common terminal sizes tests drive the engine at.
#[derive(Debug, Clone, Copy, PartialEq, Eq, Structural)]
pub enum TerminalPreset {
    /// The standard 80 by 24 terminal
    Standard,
    /// A large 120 by 40 terminal
    Large,
    /// A small 40 by 12 terminal
    Small,
    /// A wide 200 by 24 terminal
    Wide,
    /// A tall 80 by 60 terminal
    Tall,
}

impl TerminalPreset {
    /// The preset's size as (columns, rows).
    pub fn dimensions(self) -> (r: (u16, u16))
        ensures
            r == (match self {
                TerminalPreset::Standard => (80u16, 24u16),
                TerminalPreset::Large => (120u16, 40u16),
                TerminalPreset::Small => (40u16, 12u16),
                TerminalPreset::Wide => (200u16, 24u16),
                TerminalPreset::Tall => (80u16, 60u16),
            }),
    {
        match self {
            TerminalPreset::Standard => (80, 24),
            TerminalPreset::Large => (120, 40),
            TerminalPreset::Small => (40, 12),
            TerminalPreset::Wide => (200, 24),
            TerminalPreset::Tall => (80, 60),
        }
    }

    /// A short description of the preset.
    pub fn description(self) -> (r: &'static str)
        ensures
            match self {
                TerminalPreset::Standard => r@ == "Standard 80x24 terminal"@,
                TerminalPreset::Large => r@ == "Large 120x40 terminal"@,
                TerminalPreset::Small => r@ == "Small 40x12 terminal"@,
                TerminalPreset::Wide => r@ == "Wide 200x24 terminal"@,
                TerminalPreset::Tall => r@ == "Tall 80x60 terminal"@,
            },
    {
        match self {
            TerminalPreset::Standard => "Standard 80x24 terminal",
            TerminalPreset::Large => "Large 120x40 terminal",
            TerminalPreset::Small => "Small 40x12 terminal",
            TerminalPreset::Wide => "Wide 200x24 terminal",
            TerminalPreset::Tall => "Tall 80x60 terminal",
        }
    }
}

/// A tally of screen updates, wait time and peak memory observed during
/// a test run.
#[derive(Debug)]
pub struct PerformanceMetrics {
    /// How many screen updates were observed
    pub update_count: usize,
    /// Total milliseconds spent waiting for conditions
    pub total_wait_time_ms: u128,
    /// The largest memory use observed, in bytes
    pub peak_memory_bytes: usize,
}

impl Default for PerformanceMetrics {
    /// A fresh tally of zeroes.
    fn default() -> (m: Self)
        ensures
            m.update_count == 0,
            m.total_wait_time_ms == 0,
            m.peak_memory_bytes == 0,
    {
        PerformanceMetrics { update_count: 0, total_wait_time_ms: 0, peak_memory_bytes: 0 }
    }
}

impl PerformanceMetrics {
    /// Creates a fresh tally.
    pub fn new() -> (m: Self)
        ensures
            m.update_count == 0,
            m.total_wait_time_ms == 0,
            m.peak_memory_bytes == 0,
    {
        Self::default()
    }

    /// Counts one screen update.
    pub fn record_update(&mut self)
        requires
            old(self).update_count < usize::MAX,
        ensures
            final(self).update_count == old(self).update_count + 1,
            final(self).total_wait_time_ms == old(self).total_wait_time_ms,
            final(self).peak_memory_bytes == old(self).peak_memory_bytes,
    {
        self.update_count = self.update_count + 1;
    }

    /// Adds waited milliseconds to the total.
    pub fn record_wait(&mut self, duration_ms: u128)
        requires
            old(self).total_wait_time_ms + duration_ms <= u128::MAX,
        ensures
            final(self).total_wait_time_ms == old(self).total_wait_time_ms + duration_ms,
            final(self).update_count == old(self).update_count,
            final(self).peak_memory_bytes == old(self).peak_memory_bytes,
    {
        self.total_wait_time_ms = self.total_wait_time_ms + duration_ms;
    }

    /// Raises the peak memory figure when the observation is larger.
    pub fn record_memory(&mut self, bytes: usize)
        ensures
            final(self).peak_memory_bytes == (if bytes > old(self).peak_memory_bytes {
                bytes
            } else {
                old(self).peak_memory_bytes
            }),
            final(self).update_count == old(self).update_count,
            final(self).total_wait_time_ms == old(self).total_wait_time_ms,
    {
        if bytes > self.peak_memory_bytes {
            self.peak_memory_bytes = bytes;
        }
    }
}

/// The text after each replacement pair has been applied in order.
pub open spec fn normalize_spec(s: Seq<char>, pats: Seq<(Seq<char>, Seq<char>)>) -> Seq<char>
    decreases pats.len(),
{
    if pats.len() <= 0 {
        s
    } else {
        normalize_spec(replace_spec(s, pats[0].0, pats[0].1), pats.drop_first())
    }
}

/// Normalizes screen contents by replacing dynamic fragments: each
/// `(pattern, replacement)` pair is applied in order as a plain,
/// non-overlapping text replacement.
pub fn normalize_screen(contents: &str, patterns: &[(&str, &str)]) -> (r: String)
    ensures
        r@ == normalize_spec(
            contents@,
            patterns@.map_values(|p: (&str, &str)| (p.0@, p.1@)),
        ),
{
    let ghost pats = patterns@.map_values(|p: (&str, &str)| (p.0@, p.1@));
    let mut result = String::from_str(contents);
    let n = patterns.len();
    proof {
        assert(pats.skip(0) =~= pats);
    }
    let mut i: usize = 0;
    while i < n
        invariant
            n == patterns@.len(),
            pats == patterns@.map_values(|p: (&str, &str)| (p.0@, p.1@)),
            i <= n,
            normalize_spec(result@, pats.skip(i as int)) == normalize_spec(contents@, pats),
        decreases n - i,
    {
        proof {
            assert(pats.skip(i as int)[0] == pats[i as int]);
            assert(pats.skip(i as int).drop_first() =~= pats.skip(i as int + 1));
        }
        result = replace_all(result.as_str(), patterns[i].0, patterns[i].1);
        i = i + 1;
    }
    proof {
        assert(pats.skip(n as int) =~= Seq::<(Seq<char>, Seq<char>)>::empty());
    }
    result
}

} // verus!
