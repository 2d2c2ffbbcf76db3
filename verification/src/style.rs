//! Styling primitives: colors, text modifiers, and combined styles.

use vstd::prelude::*;

verus! {

/// A color as a terminal understands it: the sixteen ANSI names, an RGB
/// triple, an indexed palette entry, or the terminal's default (`Reset`).
#[derive(Debug, Clone, Copy, PartialEq, Eq, Structural, Hash)]
pub enum Color {
    /// Black (ANSI 0)
    Black,
    /// Red (ANSI 1)
    Red,
    /// Green (ANSI 2)
    Green,
    /// Yellow (ANSI 3)
    Yellow,
    /// Blue (ANSI 4)
    Blue,
    /// Magenta (ANSI 5)
    Magenta,
    /// Cyan (ANSI 6)
    Cyan,
    /// White (ANSI 7)
    White,
    /// Dark gray (ANSI 8)
    DarkGray,
    /// Light red (ANSI 9)
    LightRed,
    /// Light green (ANSI 10)
    LightGreen,
    /// Light yellow (ANSI 11)
    LightYellow,
    /// Light blue (ANSI 12)
    LightBlue,
    /// Light magenta (ANSI 13)
    LightMagenta,
    /// Light cyan (ANSI 14)
    LightCyan,
    /// Light white (ANSI 15)
    LightWhite,
    /// An RGB color, components 0-255
    Rgb(u8, u8, u8),
    /// An entry of the 256-color palette
    Indexed(u8),
    /// Reset to the terminal's default color
    Reset,
}

impl Default for Color {
    /// The default color is `Reset`.
    fn default() -> (c: Self)
        ensures
            c == Color::Reset,
    {
        Color::Reset
    }
}

/// The name of a color, as `Color::to_string` renders it.
pub open spec fn color_text(c: Color) -> Seq<char> {
    match c {
        Color::Black => "Black"@,
        Color::Red => "Red"@,
        Color::Green => "Green"@,
        Color::Yellow => "Yellow"@,
        Color::Blue => "Blue"@,
        Color::Magenta => "Magenta"@,
        Color::Cyan => "Cyan"@,
        Color::White => "White"@,
        Color::DarkGray => "DarkGray"@,
        Color::LightRed => "LightRed"@,
        Color::LightGreen => "LightGreen"@,
        Color::LightYellow => "LightYellow"@,
        Color::LightBlue => "LightBlue"@,
        Color::LightMagenta => "LightMagenta"@,
        Color::LightCyan => "LightCyan"@,
        Color::LightWhite => "LightWhite"@,
        Color::Rgb(r, g, b) => "Rgb("@ + crate::strutil::dec_rep(r as nat) + ", "@
            + crate::strutil::dec_rep(g as nat) + ", "@ + crate::strutil::dec_rep(b as nat)
            + ")"@,
        Color::Indexed(i) => "Indexed("@ + crate::strutil::dec_rep(i as nat) + ")"@,
        Color::Reset => "Reset"@,
    }
}

impl Color {
    /// The color's name: the variant name, with RGB and indexed colors
    /// showing their components in decimal.
    pub fn to_string(&self) -> (r: String)
        ensures
            r@ == color_text(*self),
    {
        match *self {
            Color::Black => String::from_str("Black"),
            Color::Red => String::from_str("Red"),
            Color::Green => String::from_str("Green"),
            Color::Yellow => String::from_str("Yellow"),
            Color::Blue => String::from_str("Blue"),
            Color::Magenta => String::from_str("Magenta"),
            Color::Cyan => String::from_str("Cyan"),
            Color::White => String::from_str("White"),
            Color::DarkGray => String::from_str("DarkGray"),
            Color::LightRed => String::from_str("LightRed"),
            Color::LightGreen => String::from_str("LightGreen"),
            Color::LightYellow => String::from_str("LightYellow"),
            Color::LightBlue => String::from_str("LightBlue"),
            Color::LightMagenta => String::from_str("LightMagenta"),
            Color::LightCyan => String::from_str("LightCyan"),
            Color::LightWhite => String::from_str("LightWhite"),
            Color::Rgb(red, green, blue) => {
                let mut s = String::from_str("Rgb(");
                let rt = crate::strutil::u64_to_dec(red as u64);
                s.append(rt.as_str());
                s.append(", ");
                let gt = crate::strutil::u64_to_dec(green as u64);
                s.append(gt.as_str());
                s.append(", ");
                let bt = crate::strutil::u64_to_dec(blue as u64);
                s.append(bt.as_str());
                s.append(")");
                proof {
                    assert(s@ =~= color_text(*self));
                }
                s
            },
            Color::Indexed(i) => {
                let mut s = String::from_str("Indexed(");
                let it = crate::strutil::u64_to_dec(i as u64);
                s.append(it.as_str());
                s.append(")");
                proof {
                    assert(s@ =~= color_text(*self));
                }
                s
            },
            Color::Reset => String::from_str("Reset"),
        }
    }
}

/// A bit-set of text modifiers (bold, italic, underline, and the rest).
///
/// The wrapped `u16` holds one flag per bit; combine values with the
/// bitwise operators or with [`Modifier::insert`] and [`Modifier::remove`].
#[derive(Debug, Clone, Copy, PartialEq, Eq, Structural, Hash)]
pub struct Modifier(pub u16);

impl Modifier {
    /// Bold text
    #[inline]
    pub fn bold() -> (m: Self)
        ensures
            m.0 == 0b0000_0000_0001,
    {
        Self(0b0000_0000_0001)
    }

    /// Dim/faint text
    #[inline]
    pub fn dim() -> (m: Self)
        ensures
            m.0 == 0b0000_0000_0010,
    {
        Self(0b0000_0000_0010)
    }

    /// Italic text
    #[inline]
    pub fn italic() -> (m: Self)
        ensures
            m.0 == 0b0000_0000_0100,
    {
        Self(0b0000_0000_0100)
    }

    /// Underlined text
    #[inline]
    pub fn underlined() -> (m: Self)
        ensures
            m.0 == 0b0000_0000_1000,
    {
        Self(0b0000_0000_1000)
    }

    /// Slowly blinking text
    #[inline]
    pub fn slow_blink() -> (m: Self)
        ensures
            m.0 == 0b0000_0001_0000,
    {
        Self(0b0000_0001_0000)
    }

    /// Rapidly blinking text
    #[inline]
    pub fn rapid_blink() -> (m: Self)
        ensures
            m.0 == 0b0000_0010_0000,
    {
        Self(0b0000_0010_0000)
    }

    /// Reversed foreground and background colors
    #[inline]
    pub fn reversed() -> (m: Self)
        ensures
            m.0 == 0b0000_0100_0000,
    {
        Self(0b0000_0100_0000)
    }

    /// Hidden/invisible text
    #[inline]
    pub fn hidden() -> (m: Self)
        ensures
            m.0 == 0b0000_1000_0000,
    {
        Self(0b0000_1000_0000)
    }

    /// Crossed out text
    #[inline]
    pub fn crossed_out() -> (m: Self)
        ensures
            m.0 == 0b0001_0000_0000,
    {
        Self(0b0001_0000_0000)
    }

    /// Creates a modifier with no flags set.
    #[inline]
    pub fn empty() -> (m: Self)
        ensures
            m.0 == 0,
    {
        Self(0)
    }

    /// Creates a modifier from raw bits.
    #[inline]
    pub fn from_bits(bits: u16) -> (m: Self)
        ensures
            m.0 == bits,
    {
        Self(bits)
    }

    /// Returns the raw bits of this modifier.
    #[inline]
    pub fn bits(self) -> (bits: u16)
        ensures
            bits == self.0,
    {
        self.0
    }

    /// Checks whether every flag of `other` is also set in `self`.
    #[inline]
    pub fn contains(self, other: Self) -> (r: bool)
        ensures
            r == ((self.0 & other.0) == other.0),
    {
        (self.0 & other.0) == other.0
    }

    /// Returns `self` with the flags of `other` added.
    #[inline]
    pub fn insert(self, other: Self) -> (m: Self)
        ensures
            m.0 == (self.0 | other.0),
    {
        Self(self.0 | other.0)
    }

    /// Returns `self` with the flags of `other` removed.
    #[inline]
    pub fn remove(self, other: Self) -> (m: Self)
        ensures
            m.0 == (self.0 & !other.0),
    {
        Self(self.0 & !other.0)
    }

    /// Returns `self` with the flags of `other` toggled.
    #[inline]
    pub fn toggle(self, other: Self) -> (m: Self)
        ensures
            m.0 == (self.0 ^ other.0),
    {
        Self(self.0 ^ other.0)
    }

    /// Checks whether no flag is set.
    #[inline]
    pub fn is_empty(self) -> (r: bool)
        ensures
            r == (self.0 == 0),
    {
        self.0 == 0
    }
}

impl core::ops::BitOr for Modifier {
    type Output = Modifier;

    /// The union of two modifier sets.
    fn bitor(self, rhs: Self) -> Self {
        Modifier(self.0 | rhs.0)
    }
}

impl vstd::std_specs::ops::BitOrSpecImpl for Modifier {
    open spec fn obeys_bitor_spec() -> bool {
        true
    }

    open spec fn bitor_req(self, rhs: Modifier) -> bool {
        true
    }

    open spec fn bitor_spec(self, rhs: Modifier) -> Modifier {
        Modifier(self.0 | rhs.0)
    }
}

impl core::ops::BitAnd for Modifier {
    type Output = Modifier;

    /// The intersection of two modifier sets.
    fn bitand(self, rhs: Self) -> Self {
        Modifier(self.0 & rhs.0)
    }
}

impl vstd::std_specs::ops::BitAndSpecImpl for Modifier {
    open spec fn obeys_bitand_spec() -> bool {
        true
    }

    open spec fn bitand_req(self, rhs: Modifier) -> bool {
        true
    }

    open spec fn bitand_spec(self, rhs: Modifier) -> Modifier {
        Modifier(self.0 & rhs.0)
    }
}

impl core::ops::Not for Modifier {
    type Output = Modifier;

    /// The complement of a modifier set.
    fn not(self) -> Self {
        Modifier(!self.0)
    }
}

impl vstd::std_specs::ops::NotSpecImpl for Modifier {
    open spec fn obeys_not_spec() -> bool {
        true
    }

    open spec fn not_req(self) -> bool {
        true
    }

    open spec fn not_spec(self) -> Modifier {
        Modifier(!self.0)
    }
}

impl Default for Modifier {
    /// The default modifier has no flags set.
    fn default() -> (m: Self)
        ensures
            m.0 == 0,
    {
        Self(0)
    }
}

/// A style: an optional foreground color, an optional background color, and
/// a set of modifiers. An unset color means "leave the cell's color alone"
/// when the style is applied.
#[derive(Debug, Clone, Copy, Hash)]
pub struct Style {
    /// Foreground color, if the style sets one
    pub fg: Option<Color>,
    /// Background color, if the style sets one
    pub bg: Option<Color>,
    /// Text modifiers added by the style
    pub modifiers: Modifier,
}

impl PartialEq for Style {
    fn eq(&self, other: &Self) -> (r: bool) {
        let fg_eq = match (self.fg, other.fg) {
            (Option::None, Option::None) => true,
            (Option::Some(a), Option::Some(b)) => a == b,
            _ => false,
        };
        let bg_eq = match (self.bg, other.bg) {
            (Option::None, Option::None) => true,
            (Option::Some(a), Option::Some(b)) => a == b,
            _ => false,
        };
        fg_eq && bg_eq && self.modifiers == other.modifiers
    }
}

impl Eq for Style {}

impl vstd::std_specs::cmp::PartialEqSpecImpl for Style {
    open spec fn obeys_eq_spec() -> bool {
        true
    }

    open spec fn eq_spec(&self, other: &Self) -> bool {
        self.fg == other.fg && self.bg == other.bg && self.modifiers == other.modifiers
    }
}

impl Default for Style {
    /// The default style sets neither color and no modifiers.
    fn default() -> (s: Self)
        ensures
            s.fg is None,
            s.bg is None,
            s.modifiers.0 == 0,
    {
        Self { fg: Option::None, bg: Option::None, modifiers: Modifier(0) }
    }
}

impl Style {
    /// The empty style, as a spec-level value.
    pub open spec fn spec_new() -> Style {
        Style { fg: Option::None, bg: Option::None, modifiers: Modifier(0) }
    }

    /// A style that only sets the foreground, as a spec-level value.
    pub open spec fn spec_fg(color: Color) -> Style {
        Style { fg: Option::Some(color), bg: Option::None, modifiers: Modifier(0) }
    }

    /// Creates a style that sets neither color and no modifiers.
    #[inline]
    pub fn new() -> (s: Self)
        ensures
            s.fg is None,
            s.bg is None,
            s.modifiers.0 == 0,
    {
        Self { fg: Option::None, bg: Option::None, modifiers: Modifier(0) }
    }

    /// Returns `self` with the foreground color set.
    #[inline]
    pub fn fg(self, color: Color) -> (s: Self)
        ensures
            s.fg == Some(color),
            s.bg == self.bg,
            s.modifiers == self.modifiers,
    {
        Self { fg: Option::Some(color), ..self }
    }

    /// Returns `self` with the background color set.
    #[inline]
    pub fn bg(self, color: Color) -> (s: Self)
        ensures
            s.fg == self.fg,
            s.bg == Some(color),
            s.modifiers == self.modifiers,
    {
        Self { bg: Option::Some(color), ..self }
    }

    /// Returns `self` with the given modifiers added.
    #[inline]
    pub fn add_modifier(self, modifier: Modifier) -> (s: Self)
        ensures
            s.fg == self.fg,
            s.bg == self.bg,
            s.modifiers.0 == (self.modifiers.0 | modifier.0),
    {
        Self { modifiers: self.modifiers.insert(modifier), ..self }
    }

    /// Returns `self` with the given modifiers removed.
    #[inline]
    pub fn remove_modifier(self, modifier: Modifier) -> (s: Self)
        ensures
            s.fg == self.fg,
            s.bg == self.bg,
            s.modifiers.0 == (self.modifiers.0 & !modifier.0),
    {
        Self { modifiers: self.modifiers.remove(modifier), ..self }
    }

    /// Returns the style with both colors unset and no modifiers.
    #[inline]
    pub fn reset(self) -> (s: Self)
        ensures
            s.fg is None,
            s.bg is None,
            s.modifiers.0 == 0,
    {
        Self { fg: Option::None, bg: Option::None, modifiers: Modifier(0) }
    }

    /// Overlays `other` on `self`: colors that `other` sets win, and the
    /// modifier sets are unioned.
    pub fn patch(self, other: Style) -> (s: Self)
        ensures
            s.fg == (if other.fg is Some { other.fg } else { self.fg }),
            s.bg == (if other.bg is Some { other.bg } else { self.bg }),
            s.modifiers.0 == (self.modifiers.0 | other.modifiers.0),
    {
        let fg = if other.fg.is_some() { other.fg } else { self.fg };
        let bg = if other.bg.is_some() { other.bg } else { self.bg };
        Self { fg, bg, modifiers: self.modifiers.insert(other.modifiers) }
    }
}

} // verus!
