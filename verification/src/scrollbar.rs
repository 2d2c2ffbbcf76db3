//! A scrollbar widget: a track with a proportional thumb showing the
//! scroll position.

use crate::buffer::Buffer;
use crate::layout::Rect;
use crate::style::Style;
use crate::widget::StatefulWidget;
use vstd::prelude::*;

verus! {

/// Where the scrollbar sits relative to its content.
#[derive(Debug, Clone, Copy, PartialEq, Eq, Structural)]
pub enum ScrollbarOrientation {
    /// A vertical bar on the right edge
    VerticalRight,
    /// A vertical bar on the left edge
    VerticalLeft,
    /// A horizontal bar on the top edge
    HorizontalTop,
    /// A horizontal bar on the bottom edge
    HorizontalBottom,
}

impl Default for ScrollbarOrientation {
    /// The default orientation is a vertical bar on the right.
    fn default() -> (o: Self)
        ensures
            o == ScrollbarOrientation::VerticalRight,
    {
        ScrollbarOrientation::VerticalRight
    }
}

/// The scroll state a scrollbar visualizes: the content length, the
/// current position, and how much of the content the viewport shows.
#[derive(Debug, Clone)]
pub struct ScrollbarState {
    /// The total content length
    pub content_length: usize,
    /// The current scroll position
    pub position: usize,
    /// The length of the visible viewport
    pub viewport_content_length: usize,
}

impl Default for ScrollbarState {
    /// The default state is empty content at position zero.
    fn default() -> (s: Self)
        ensures
            s.content_length == 0,
            s.position == 0,
            s.viewport_content_length == 0,
    {
        ScrollbarState { content_length: 0, position: 0, viewport_content_length: 0 }
    }
}

impl ScrollbarState {
    /// Creates a state for the given content length, at the top.
    pub fn new(content_length: usize) -> (s: Self)
        ensures
            s.content_length == content_length,
            s.position == 0,
            s.viewport_content_length == 0,
    {
        ScrollbarState { content_length, position: 0, viewport_content_length: 0 }
    }

    /// Returns the state with its content length set.
    pub fn content_length(self, length: usize) -> (s: Self)
        ensures
            s.content_length == length,
            s.position == self.position,
            s.viewport_content_length == self.viewport_content_length,
    {
        ScrollbarState { content_length: length, ..self }
    }

    /// Returns the state with its position set.
    pub fn position(self, position: usize) -> (s: Self)
        ensures
            s.position == position,
            s.content_length == self.content_length,
            s.viewport_content_length == self.viewport_content_length,
    {
        ScrollbarState { position, ..self }
    }

    /// Returns the state with its viewport length set.
    pub fn viewport_content_length(self, length: usize) -> (s: Self)
        ensures
            s.viewport_content_length == length,
            s.content_length == self.content_length,
            s.position == self.position,
    {
        ScrollbarState { viewport_content_length: length, ..self }
    }

    /// The total content length.
    pub fn get_content_length(&self) -> (r: usize)
        ensures
            r == self.content_length,
    {
        self.content_length
    }

    /// The current scroll position.
    pub fn get_position(&self) -> (r: usize)
        ensures
            r == self.position,
    {
        self.position
    }

    /// The viewport length.
    pub fn get_viewport_content_length(&self) -> (r: usize)
        ensures
            r == self.viewport_content_length,
    {
        self.viewport_content_length
    }

    /// Sets the content length.
    pub fn set_content_length(&mut self, length: usize)
        ensures
            final(self).content_length == length,
            final(self).position == old(self).position,
            final(self).viewport_content_length == old(self).viewport_content_length,
    {
        self.content_length = length;
    }

    /// Sets the scroll position.
    pub fn set_position(&mut self, position: usize)
        ensures
            final(self).position == position,
            final(self).content_length == old(self).content_length,
            final(self).viewport_content_length == old(self).viewport_content_length,
    {
        self.position = position;
    }

    /// Sets the viewport length.
    pub fn set_viewport_content_length(&mut self, length: usize)
        ensures
            final(self).viewport_content_length == length,
            final(self).content_length == old(self).content_length,
            final(self).position == old(self).position,
    {
        self.viewport_content_length = length;
    }

    /// Scrolls one step down, never past the last viewport-full.
    pub fn scroll_down(&mut self)
        ensures
            final(self).content_length == old(self).content_length,
            final(self).viewport_content_length == old(self).viewport_content_length,
            final(self).position == (if old(self).position < crate::layout::sat_sub_usize(
                old(self).content_length,
                old(self).viewport_content_length,
            ) {
                (old(self).position + 1) as usize
            } else {
                old(self).position
            }),
    {
        if self.position < self.content_length.saturating_sub(self.viewport_content_length) {
            self.position = self.position + 1;
        }
    }

    /// Scrolls one step up, never past the top.
    pub fn scroll_up(&mut self)
        ensures
            final(self).content_length == old(self).content_length,
            final(self).viewport_content_length == old(self).viewport_content_length,
            final(self).position == crate::layout::sat_sub_usize(old(self).position, 1),
    {
        self.position = self.position.saturating_sub(1);
    }

    /// Scrolls to the top.
    pub fn scroll_to_top(&mut self)
        ensures
            final(self).content_length == old(self).content_length,
            final(self).viewport_content_length == old(self).viewport_content_length,
            final(self).position == 0,
    {
        self.position = 0;
    }

    /// Scrolls to the last viewport-full.
    pub fn scroll_to_bottom(&mut self)
        ensures
            final(self).content_length == old(self).content_length,
            final(self).viewport_content_length == old(self).viewport_content_length,
            final(self).position == crate::layout::sat_sub_usize(
                old(self).content_length,
                old(self).viewport_content_length,
            ),
    {
        self.position = self.content_length.saturating_sub(self.viewport_content_length);
    }
}

/// The thumb's position and size on a track: the size is the viewport's
/// share of the track (at least one cell), and the position is the
/// scroll position's share of the slack, rounded to the nearest cell.
/// Content that fits entirely gives a full-track thumb.
pub open spec fn thumb_spec(track: int, content: int, viewport: int, pos: int) -> (int, int) {
    if content == 0 || viewport >= content {
        (0int, track)
    } else {
        let ts0 = viewport * track / content;
        let ts = if ts0 < 1 {
            1int
        } else {
            ts0
        };
        let scrollable_content = content - viewport;
        let scrollable_track = if track < ts {
            0int
        } else {
            track - ts
        };
        let tp0 = if scrollable_content > 0 {
            (pos * scrollable_track + scrollable_content / 2) / scrollable_content
        } else {
            0int
        };
        let tp = if tp0 > usize::MAX {
            usize::MAX as int
        } else {
            tp0
        };
        (tp, ts)
    }
}

/// A scrollbar: a track with begin/end symbols and a thumb.
#[derive(Debug, Clone)]
pub struct Scrollbar {
    /// Where the bar sits
    pub orientation: ScrollbarOrientation,
    /// The symbol at the start of the track
    pub begin_symbol: Option<String>,
    /// The symbol at the end of the track
    pub end_symbol: Option<String>,
    /// The symbol of the thumb
    pub thumb_symbol: String,
    /// The symbol of the track
    pub track_symbol: String,
    /// The style everything is drawn with
    pub style: Style,
}

impl Default for Scrollbar {
    /// The default scrollbar is vertical on the right, with arrows at
    /// the ends, a full-block thumb and a line track.
    fn default() -> (s: Self)
        ensures
            s.orientation == ScrollbarOrientation::VerticalRight,
            s.begin_symbol is Some && s.begin_symbol.unwrap()@ == "↑"@,
            s.end_symbol is Some && s.end_symbol.unwrap()@ == "↓"@,
            s.thumb_symbol@ == "█"@,
            s.track_symbol@ == "│"@,
            s.style == Style::spec_new(),
    {
        Scrollbar {
            orientation: ScrollbarOrientation::VerticalRight,
            begin_symbol: Option::Some(String::from_str("↑")),
            end_symbol: Option::Some(String::from_str("↓")),
            thumb_symbol: String::from_str("█"),
            track_symbol: String::from_str("│"),
            style: Style::new(),
        }
    }
}

impl Scrollbar {
    /// Creates the default scrollbar.
    pub fn new() -> (s: Self)
        ensures
            s.orientation == ScrollbarOrientation::VerticalRight,
            s.begin_symbol is Some && s.begin_symbol.unwrap()@ == "↑"@,
            s.end_symbol is Some && s.end_symbol.unwrap()@ == "↓"@,
            s.thumb_symbol@ == "█"@,
            s.track_symbol@ == "│"@,
    {
        Self::default()
    }

    /// Returns the scrollbar with its orientation set; default arrow and
    /// track symbols that belong to the other axis are turned to fit.
    pub fn orientation(self, orientation: ScrollbarOrientation) -> (s: Self)
        ensures
            s.orientation == orientation,
            s.thumb_symbol == self.thumb_symbol,
            s.style == self.style,
            match orientation {
                ScrollbarOrientation::VerticalRight | ScrollbarOrientation::VerticalLeft => {
                    &&& if self.begin_symbol is Some && (self.begin_symbol.unwrap()@ == "←"@
                        || self.begin_symbol.unwrap()@ == "→"@) {
                        s.begin_symbol is Some && s.begin_symbol.unwrap()@ == "↑"@
                    } else {
                        s.begin_symbol == self.begin_symbol
                    }
                    &&& if self.end_symbol is Some && (self.end_symbol.unwrap()@ == "←"@
                        || self.end_symbol.unwrap()@ == "→"@) {
                        s.end_symbol is Some && s.end_symbol.unwrap()@ == "↓"@
                    } else {
                        s.end_symbol == self.end_symbol
                    }
                    &&& if self.track_symbol@ == "─"@ {
                        s.track_symbol@ == "│"@
                    } else {
                        s.track_symbol == self.track_symbol
                    }
                },
                ScrollbarOrientation::HorizontalTop | ScrollbarOrientation::HorizontalBottom => {
                    &&& if self.begin_symbol is Some && (self.begin_symbol.unwrap()@ == "↑"@
                        || self.begin_symbol.unwrap()@ == "↓"@) {
                        s.begin_symbol is Some && s.begin_symbol.unwrap()@ == "←"@
                    } else {
                        s.begin_symbol == self.begin_symbol
                    }
                    &&& if self.end_symbol is Some && (self.end_symbol.unwrap()@ == "↑"@
                        || self.end_symbol.unwrap()@ == "↓"@) {
                        s.end_symbol is Some && s.end_symbol.unwrap()@ == "→"@
                    } else {
                        s.end_symbol == self.end_symbol
                    }
                    &&& if self.track_symbol@ == "│"@ {
                        s.track_symbol@ == "─"@
                    } else {
                        s.track_symbol == self.track_symbol
                    }
                },
            },
    {
        let mut begin_symbol = self.begin_symbol;
        let mut end_symbol = self.end_symbol;
        let mut track_symbol = self.track_symbol;
        match orientation {
            ScrollbarOrientation::VerticalRight | ScrollbarOrientation::VerticalLeft => {
                if opt_symbol_is(&begin_symbol, "←") || opt_symbol_is(&begin_symbol, "→") {
                    begin_symbol = Option::Some(String::from_str("↑"));
                }
                if opt_symbol_is(&end_symbol, "←") || opt_symbol_is(&end_symbol, "→") {
                    end_symbol = Option::Some(String::from_str("↓"));
                }
                if symbol_is(&track_symbol, "─") {
                    track_symbol = String::from_str("│");
                }
            },
            ScrollbarOrientation::HorizontalTop | ScrollbarOrientation::HorizontalBottom => {
                if opt_symbol_is(&begin_symbol, "↑") || opt_symbol_is(&begin_symbol, "↓") {
                    begin_symbol = Option::Some(String::from_str("←"));
                }
                if opt_symbol_is(&end_symbol, "↑") || opt_symbol_is(&end_symbol, "↓") {
                    end_symbol = Option::Some(String::from_str("→"));
                }
                if symbol_is(&track_symbol, "│") {
                    track_symbol = String::from_str("─");
                }
            },
        }
        Scrollbar { orientation, begin_symbol, end_symbol, track_symbol, ..self }
    }

    /// Returns the scrollbar with its begin symbol replaced (or
    /// removed).
    pub fn begin_symbol(self, symbol: Option<&str>) -> (s: Self)
        ensures
            s.orientation == self.orientation,
            s.end_symbol == self.end_symbol,
            s.thumb_symbol == self.thumb_symbol,
            s.track_symbol == self.track_symbol,
            s.style == self.style,
            match symbol {
                Option::Some(t) => s.begin_symbol is Some && s.begin_symbol.unwrap()@ == t@,
                Option::None => s.begin_symbol is None,
            },
    {
        let begin_symbol = match symbol {
            Option::Some(t) => Option::Some(String::from_str(t)),
            Option::None => Option::None,
        };
        Scrollbar { begin_symbol, ..self }
    }

    /// Returns the scrollbar with its end symbol replaced (or removed).
    pub fn end_symbol(self, symbol: Option<&str>) -> (s: Self)
        ensures
            s.orientation == self.orientation,
            s.begin_symbol == self.begin_symbol,
            s.thumb_symbol == self.thumb_symbol,
            s.track_symbol == self.track_symbol,
            s.style == self.style,
            match symbol {
                Option::Some(t) => s.end_symbol is Some && s.end_symbol.unwrap()@ == t@,
                Option::None => s.end_symbol is None,
            },
    {
        let end_symbol = match symbol {
            Option::Some(t) => Option::Some(String::from_str(t)),
            Option::None => Option::None,
        };
        Scrollbar { end_symbol, ..self }
    }

    /// Returns the scrollbar with its thumb symbol replaced.
    pub fn thumb_symbol(self, symbol: &str) -> (s: Self)
        ensures
            s.thumb_symbol@ == symbol@,
            s.orientation == self.orientation,
            s.begin_symbol == self.begin_symbol,
            s.end_symbol == self.end_symbol,
            s.track_symbol == self.track_symbol,
            s.style == self.style,
    {
        Scrollbar { thumb_symbol: String::from_str(symbol), ..self }
    }

    /// Returns the scrollbar with its track symbol replaced.
    pub fn track_symbol(self, symbol: &str) -> (s: Self)
        ensures
            s.track_symbol@ == symbol@,
            s.orientation == self.orientation,
            s.begin_symbol == self.begin_symbol,
            s.end_symbol == self.end_symbol,
            s.thumb_symbol == self.thumb_symbol,
            s.style == self.style,
    {
        Scrollbar { track_symbol: String::from_str(symbol), ..self }
    }

    /// Returns the scrollbar with its style replaced.
    pub fn style(self, style: Style) -> (s: Self)
        ensures
            s.style == style,
            s.orientation == self.orientation,
            s.begin_symbol == self.begin_symbol,
            s.end_symbol == self.end_symbol,
            s.thumb_symbol == self.thumb_symbol,
            s.track_symbol == self.track_symbol,
    {
        Scrollbar { style, ..self }
    }

    /// The thumb's position and size for a track of the given length.
    pub fn calculate_thumb(&self, track_length: usize, state: &ScrollbarState) -> (r: (
        usize,
        usize,
    ))
        ensures
            (r.0 as int, r.1 as int) == thumb_spec(
                track_length as int,
                state.content_length as int,
                state.viewport_content_length as int,
                state.position as int,
            ),
    {
        if state.content_length == 0 || state.viewport_content_length >= state.content_length {
            return (0, track_length);
        }
        proof {
            assert((state.viewport_content_length as int) * (track_length as int)
                < 0x1_0000_0000_0000_0000_0000_0000_0000_0000) by (nonlinear_arith)
                requires
                    state.viewport_content_length < 0x1_0000_0000_0000_0000,
                    track_length < 0x1_0000_0000_0000_0000,
            ;
            assert((state.viewport_content_length as int) * (track_length as int) / (
            state.content_length as int) <= track_length as int) by (nonlinear_arith)
                requires
                    state.content_length >= 1,
                    state.viewport_content_length <= state.content_length,
                    track_length >= 0,
            ;
        }
        let ts0: u128 = ((state.viewport_content_length as u128) * (track_length as u128)) / (
        state.content_length as u128);
        let thumb_size: usize = if ts0 < 1 {
            1
        } else {
            ts0 as usize
        };

        let scrollable_content = state.content_length - state.viewport_content_length;
        let scrollable_track: usize = if track_length < thumb_size {
            0
        } else {
            track_length - thumb_size
        };

        let thumb_position: usize = if scrollable_content > 0 {
            proof {
                assert((state.position as int) * (scrollable_track as int) + (
                scrollable_content as int) / 2 < 0x1_0000_0000_0000_0000_0000_0000_0000_0000)
                    by (nonlinear_arith)
                    requires
                        state.position < 0x1_0000_0000_0000_0000,
                        scrollable_track < 0x1_0000_0000_0000_0000,
                        scrollable_content < 0x1_0000_0000_0000_0000,
                ;
            }
            let num: u128 = (state.position as u128) * (scrollable_track as u128) + (
            scrollable_content as u128) / 2;
            let q: u128 = num / (scrollable_content as u128);
            if q > usize::MAX as u128 {
                usize::MAX
            } else {
                q as usize
            }
        } else {
            0
        };

        (thumb_position, thumb_size)
    }

    /// Draws the vertical variant.
    fn render_vertical(&self, area: Rect, buf: &mut Buffer, state: &ScrollbarState)
        requires
            old(buf).wf(),
        ensures
            final(buf).wf(),
            final(buf).area == old(buf).area,
    {
        let x = match self.orientation {
            ScrollbarOrientation::VerticalRight => area.right().saturating_sub(1),
            _ => area.x,
        };

        let mut y = area.y;
        let mut available_height: usize = area.height as usize;

        if let Option::Some(symbol) = &self.begin_symbol {
            if available_height > 0 {
                buf.set_string(x, y, symbol.as_str(), self.style);
                y = y.saturating_add(1);
                available_height = available_height - 1;
            }
        }

        let end_y: Option<u16> = if self.end_symbol.is_some() && available_height > 0 {
            available_height = available_height - 1;
            Option::Some(area.y.saturating_add(area.height.saturating_sub(1)))
        } else {
            Option::None
        };

        let track_length = available_height;
        let (thumb_pos, thumb_size) = self.calculate_thumb(track_length, state);

        let mut i: usize = 0;
        while i < track_length
            invariant
                buf.wf(),
                buf.area == old(buf).area,
            decreases track_length - i,
        {
            let cell_y = y.saturating_add(i as u16);
            if cell_y < area.bottom() {
                if i >= thumb_pos && i < thumb_pos.saturating_add(thumb_size) {
                    buf.set_string(x, cell_y, self.thumb_symbol.as_str(), self.style);
                } else {
                    buf.set_string(x, cell_y, self.track_symbol.as_str(), self.style);
                }
            }
            i = i + 1;
        }

        if let Option::Some(ey) = end_y {
            if let Option::Some(symbol) = &self.end_symbol {
                if ey < area.bottom() {
                    buf.set_string(x, ey, symbol.as_str(), self.style);
                }
            }
        }
    }

    /// Draws the horizontal variant.
    fn render_horizontal(&self, area: Rect, buf: &mut Buffer, state: &ScrollbarState)
        requires
            old(buf).wf(),
        ensures
            final(buf).wf(),
            final(buf).area == old(buf).area,
    {
        let y = match self.orientation {
            ScrollbarOrientation::HorizontalBottom => area.bottom().saturating_sub(1),
            _ => area.y,
        };

        let mut x = area.x;
        let mut available_width: usize = area.width as usize;

        if let Option::Some(symbol) = &self.begin_symbol {
            if available_width > 0 {
                buf.set_string(x, y, symbol.as_str(), self.style);
                x = x.saturating_add(1);
                available_width = available_width - 1;
            }
        }

        let end_x: Option<u16> = if self.end_symbol.is_some() && available_width > 0 {
            available_width = available_width - 1;
            Option::Some(area.x.saturating_add(area.width.saturating_sub(1)))
        } else {
            Option::None
        };

        let track_length = available_width;
        let (thumb_pos, thumb_size) = self.calculate_thumb(track_length, state);

        let mut i: usize = 0;
        while i < track_length
            invariant
                buf.wf(),
                buf.area == old(buf).area,
            decreases track_length - i,
        {
            let cell_x = x.saturating_add(i as u16);
            if cell_x < area.right() {
                if i >= thumb_pos && i < thumb_pos.saturating_add(thumb_size) {
                    buf.set_string(cell_x, y, self.thumb_symbol.as_str(), self.style);
                } else {
                    buf.set_string(cell_x, y, self.track_symbol.as_str(), self.style);
                }
            }
            i = i + 1;
        }

        if let Option::Some(ex) = end_x {
            if let Option::Some(symbol) = &self.end_symbol {
                if ex < area.right() {
                    buf.set_string(ex, y, symbol.as_str(), self.style);
                }
            }
        }
    }
}

impl StatefulWidget for Scrollbar {
    type State = ScrollbarState;

    fn render(&self, area: Rect, buf: &mut Buffer, state: &mut ScrollbarState) {
        if area.width == 0 || area.height == 0 {
            return ;
        }
        match self.orientation {
            ScrollbarOrientation::VerticalRight | ScrollbarOrientation::VerticalLeft => {
                self.render_vertical(area, buf, state);
            },
            ScrollbarOrientation::HorizontalTop | ScrollbarOrientation::HorizontalBottom => {
                self.render_horizontal(area, buf, state);
            },
        }
    }
}

/// Whether an optional symbol reads as the given text.
fn opt_symbol_is(s: &Option<String>, t: &str) -> (r: bool)
    ensures
        r == (s is Some && s.unwrap()@ == t@),
{
    match s {
        Option::Some(v) => {
            let k = String::from_str(t);
            *v == k
        },
        Option::None => false,
    }
}

/// Whether a symbol reads as the given text.
fn symbol_is(s: &String, t: &str) -> (r: bool)
    ensures
        r == (s@ == t@),
{
    let k = String::from_str(t);
    *s == k
}

} // verus!
