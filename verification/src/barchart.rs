//! A bar chart widget: vertical bars scaled into eighth-block glyphs.

use crate::buffer::{Buffer, Cell};
use crate::layout::Rect;
use crate::style::Style;
use crate::widget::Widget;
use crate::width::str_width;
use vstd::prelude::*;

verus! {

/// The direction bars are drawn in.
#[derive(Debug, Clone, Copy, PartialEq, Eq, Structural)]
pub enum Direction {
    /// Bars grow bottom to top
    Vertical,
}

/// One bar: a value, an optional label under it, styles, and an optional
/// text rendering of the value.
#[derive(Debug, Clone)]
pub struct Bar {
    /// The bar's value
    pub value: u64,
    /// The label drawn under the bar
    pub label: Option<String>,
    /// The bar's style
    pub style: Style,
    /// The style of the value text
    pub value_style: Style,
    /// The text shown for the value
    pub text_value: Option<String>,
}

impl Default for Bar {
    /// The default bar has value zero and nothing else set.
    fn default() -> (b: Self)
        ensures
            b.value == 0,
            b.label is None,
            b.style == Style::spec_new(),
            b.value_style == Style::spec_new(),
            b.text_value is None,
    {
        Bar {
            value: 0,
            label: Option::None,
            style: Style::new(),
            value_style: Style::new(),
            text_value: Option::None,
        }
    }
}

impl Bar {
    /// Creates the default bar.
    pub fn new() -> (b: Self)
        ensures
            b.value == 0,
            b.label is None,
            b.text_value is None,
    {
        Self::default()
    }

    /// Returns the bar with its value set.
    pub fn value(self, value: u64) -> (b: Self)
        ensures
            b.value == value,
            b.label == self.label,
            b.style == self.style,
            b.value_style == self.value_style,
            b.text_value == self.text_value,
    {
        Bar { value, ..self }
    }

    /// Returns the bar with a label.
    pub fn label(self, label: &str) -> (b: Self)
        ensures
            b.label is Some,
            b.label.unwrap()@ == label@,
            b.value == self.value,
            b.style == self.style,
            b.value_style == self.value_style,
            b.text_value == self.text_value,
    {
        Bar { label: Option::Some(String::from_str(label)), ..self }
    }

    /// Returns the bar with its style set.
    pub fn style(self, style: Style) -> (b: Self)
        ensures
            b.style == style,
            b.value == self.value,
            b.label == self.label,
            b.value_style == self.value_style,
            b.text_value == self.text_value,
    {
        Bar { style, ..self }
    }

    /// Returns the bar with its value-text style set.
    pub fn value_style(self, style: Style) -> (b: Self)
        ensures
            b.value_style == style,
            b.value == self.value,
            b.label == self.label,
            b.style == self.style,
            b.text_value == self.text_value,
    {
        Bar { value_style: style, ..self }
    }

    /// Returns the bar with a text rendering of its value.
    pub fn text_value(self, text: &str) -> (b: Self)
        ensures
            b.text_value is Some,
            b.text_value.unwrap()@ == text@,
            b.value == self.value,
            b.label == self.label,
            b.style == self.style,
            b.value_style == self.value_style,
    {
        Bar { text_value: Option::Some(String::from_str(text)), ..self }
    }
}

/// A group of bars drawn together under one label.
#[derive(Debug, Clone)]
pub struct BarGroup {
    /// The group's label
    pub label: Option<String>,
    /// The group's bars
    pub bars: Vec<Bar>,
}

impl Default for BarGroup {
    /// The default group is empty and unlabeled.
    fn default() -> (g: Self)
        ensures
            g.label is None,
            g.bars@.len() == 0,
    {
        BarGroup { label: Option::None, bars: Vec::new() }
    }
}

impl BarGroup {
    /// Creates the default group.
    pub fn new() -> (g: Self)
        ensures
            g.label is None,
            g.bars@.len() == 0,
    {
        Self::default()
    }

    /// Returns the group with a label.
    pub fn label(self, label: &str) -> (g: Self)
        ensures
            g.label is Some,
            g.label.unwrap()@ == label@,
            g.bars == self.bars,
    {
        BarGroup { label: Option::Some(String::from_str(label)), ..self }
    }

    /// Returns the group with its bars replaced.
    pub fn bars(self, bars: &[Bar]) -> (g: Self)
        ensures
            g.bars@.len() == bars@.len(),
            forall|i: int| 0 <= i < bars@.len() ==> #[trigger] g.bars@[i].value == bars@[i].value,
            g.label == self.label,
    {
        let mut v: Vec<Bar> = Vec::new();
        let mut i: usize = 0;
        while i < bars.len()
            invariant
                i <= bars@.len(),
                v@.len() == i,
                forall|j: int| 0 <= j < i ==> #[trigger] v@[j].value == bars@[j].value,
            decreases bars@.len() - i,
        {
            let b = Bar {
                value: bars[i].value,
                label: clone_opt_string(&bars[i].label),
                style: bars[i].style,
                value_style: bars[i].value_style,
                text_value: clone_opt_string(&bars[i].text_value),
            };
            v.push(b);
            i = i + 1;
        }
        BarGroup { bars: v, ..self }
    }
}

/// A clone of an optional string, reading the same.
fn clone_opt_string(s: &Option<String>) -> (r: Option<String>)
    ensures
        r is Some <==> s is Some,
        s is Some ==> r.unwrap()@ == s.unwrap()@,
{
    match s {
        Option::Some(v) => Option::Some(v.clone()),
        Option::None => Option::None,
    }
}

/// The largest value among a list of bars (zero for none).
pub open spec fn bars_max(bars: Seq<Bar>) -> int
    decreases bars.len(),
{
    if bars.len() <= 0 {
        0int
    } else {
        let rest = bars_max(bars.drop_first());
        if bars[0].value >= rest {
            bars[0].value as int
        } else {
            rest
        }
    }
}

/// The largest value among the bars of a list of groups.
pub open spec fn groups_max(groups: Seq<BarGroup>) -> int
    decreases groups.len(),
{
    if groups.len() <= 0 {
        0int
    } else {
        let rest = groups_max(groups.drop_first());
        let head = bars_max(groups[0].bars@);
        if head >= rest {
            head
        } else {
            rest
        }
    }
}

/// A value scaled into a height: `value / max` of the available height,
/// rounded to the nearest cell.
pub open spec fn scaled_height(value: u64, max: u64, available: u16) -> int {
    if max == 0 || available == 0 {
        0int
    } else {
        (value * available + max / 2) / (max as int)
    }
}

/// A bar chart drawing its bars as columns of block glyphs.
#[derive(Debug, Clone)]
pub struct BarChart {
    /// The individual bars
    pub data: Vec<Bar>,
    /// The grouped bars, drawn after the individual ones
    pub groups: Vec<BarGroup>,
    /// The width of each bar, in cells
    pub bar_width: u16,
    /// The gap between bars, in cells
    pub bar_gap: u16,
    /// The value the tallest bar represents; the data's maximum if unset
    pub max_value: Option<u64>,
    /// The direction bars are drawn in
    pub direction: Direction,
    /// The style of bars that set none of their own
    pub bar_style: Style,
    /// The style of value texts that set none of their own
    pub value_style: Style,
}

impl Default for BarChart {
    /// The default chart is empty, with three-cell bars one cell apart.
    fn default() -> (c: Self)
        ensures
            c.data@.len() == 0,
            c.groups@.len() == 0,
            c.bar_width == 3,
            c.bar_gap == 1,
            c.max_value is None,
            c.direction == Direction::Vertical,
    {
        BarChart {
            data: Vec::new(),
            groups: Vec::new(),
            bar_width: 3,
            bar_gap: 1,
            max_value: Option::None,
            direction: Direction::Vertical,
            bar_style: Style::new(),
            value_style: Style::new(),
        }
    }
}

impl BarChart {
    /// Creates the default chart.
    pub fn new() -> (c: Self)
        ensures
            c.data@.len() == 0,
            c.groups@.len() == 0,
            c.bar_width == 3,
            c.bar_gap == 1,
            c.max_value is None,
            c.direction == Direction::Vertical,
    {
        Self::default()
    }

    /// Returns the chart with its bars replaced.
    pub fn data(self, data: &[Bar]) -> (c: Self)
        ensures
            c.data@.len() == data@.len(),
            forall|i: int| 0 <= i < data@.len() ==> #[trigger] c.data@[i].value == data@[i].value,
            c.groups == self.groups,
            c.bar_width == self.bar_width,
            c.bar_gap == self.bar_gap,
            c.max_value == self.max_value,
            c.direction == self.direction,
    {
        let mut v: Vec<Bar> = Vec::new();
        let mut i: usize = 0;
        while i < data.len()
            invariant
                i <= data@.len(),
                v@.len() == i,
                forall|j: int| 0 <= j < i ==> #[trigger] v@[j].value == data@[j].value,
            decreases data@.len() - i,
        {
            let b = Bar {
                value: data[i].value,
                label: clone_opt_string(&data[i].label),
                style: data[i].style,
                value_style: data[i].value_style,
                text_value: clone_opt_string(&data[i].text_value),
            };
            v.push(b);
            i = i + 1;
        }
        BarChart { data: v, ..self }
    }

    /// Returns the chart with its groups replaced.
    pub fn groups(self, groups: &[BarGroup]) -> (c: Self)
        ensures
            c.groups@.len() == groups@.len(),
            c.data == self.data,
            c.bar_width == self.bar_width,
            c.bar_gap == self.bar_gap,
            c.max_value == self.max_value,
            c.direction == self.direction,
    {
        let mut v: Vec<BarGroup> = Vec::new();
        let mut i: usize = 0;
        while i < groups.len()
            invariant
                i <= groups@.len(),
                v@.len() == i,
            decreases groups@.len() - i,
        {
            let g = BarGroup {
                label: clone_opt_string(&groups[i].label),
                bars: groups[i].bars.clone(),
            };
            v.push(g);
            i = i + 1;
        }
        BarChart { groups: v, ..self }
    }

    /// Returns the chart with its bar width set (at least one cell).
    pub fn bar_width(self, width: u16) -> (c: Self)
        ensures
            c.bar_width == (if width < 1 {
                1u16
            } else {
                width
            }),
            c.data == self.data,
            c.groups == self.groups,
            c.bar_gap == self.bar_gap,
            c.max_value == self.max_value,
            c.direction == self.direction,
    {
        let w = if width < 1 {
            1
        } else {
            width
        };
        BarChart { bar_width: w, ..self }
    }

    /// Returns the chart with its bar gap set.
    pub fn bar_gap(self, gap: u16) -> (c: Self)
        ensures
            c.bar_gap == gap,
            c.data == self.data,
            c.groups == self.groups,
            c.bar_width == self.bar_width,
            c.max_value == self.max_value,
            c.direction == self.direction,
    {
        BarChart { bar_gap: gap, ..self }
    }

    /// Returns the chart with an explicit scaling maximum.
    pub fn max_value(self, max: u64) -> (c: Self)
        ensures
            c.max_value == Some(max),
            c.data == self.data,
            c.groups == self.groups,
            c.bar_width == self.bar_width,
            c.bar_gap == self.bar_gap,
            c.direction == self.direction,
    {
        BarChart { max_value: Option::Some(max), ..self }
    }

    /// Returns the chart with its direction set.
    pub fn direction(self, direction: Direction) -> (c: Self)
        ensures
            c.direction == direction,
            c.data == self.data,
            c.groups == self.groups,
            c.bar_width == self.bar_width,
            c.bar_gap == self.bar_gap,
            c.max_value == self.max_value,
    {
        BarChart { direction, ..self }
    }

    /// Returns the chart with the default bar style set.
    pub fn bar_style(self, style: Style) -> (c: Self)
        ensures
            c.bar_style == style,
            c.data == self.data,
            c.groups == self.groups,
            c.bar_width == self.bar_width,
            c.bar_gap == self.bar_gap,
            c.max_value == self.max_value,
            c.direction == self.direction,
    {
        BarChart { bar_style: style, ..self }
    }

    /// Returns the chart with the default value-text style set.
    pub fn value_style(self, style: Style) -> (c: Self)
        ensures
            c.value_style == style,
            c.data == self.data,
            c.groups == self.groups,
            c.bar_width == self.bar_width,
            c.bar_gap == self.bar_gap,
            c.max_value == self.max_value,
            c.direction == self.direction,
    {
        BarChart { value_style: style, ..self }
    }

    /// The value bars are scaled against: the explicit maximum if set,
    /// else the largest value anywhere in the chart, and never less
    /// than one.
    pub fn calculate_max(&self) -> (r: u64)
        ensures
            r as int == (match self.max_value {
                Option::Some(m) => m as int,
                Option::None => {
                    let dm = bars_max(self.data@);
                    let gm = groups_max(self.groups@);
                    let m = if dm >= gm {
                        dm
                    } else {
                        gm
                    };
                    if m >= 1 {
                        m
                    } else {
                        1int
                    }
                },
            }),
    {
        if let Option::Some(max) = self.max_value {
            return max;
        }

        let mut data_max: u64 = 0;
        let n = self.data.len();
        proof {
            assert(self.data@.skip(0) =~= self.data@);
        }
        let mut i: usize = 0;
        while i < n
            invariant
                n == self.data@.len(),
                i <= n,
                bars_max(self.data@) == (if data_max as int >= bars_max(
                    self.data@.skip(i as int),
                ) {
                    data_max as int
                } else {
                    bars_max(self.data@.skip(i as int))
                }),
            decreases n - i,
        {
            proof {
                assert(self.data@.skip(i as int)[0] == self.data@[i as int]);
                assert(self.data@.skip(i as int).drop_first() =~= self.data@.skip(i as int + 1));
            }
            if self.data[i].value > data_max {
                data_max = self.data[i].value;
            }
            i = i + 1;
        }
        proof {
            assert(self.data@.skip(n as int) =~= Seq::<Bar>::empty());
        }

        let mut groups_best: u64 = 0;
        let gn = self.groups.len();
        proof {
            assert(self.groups@.skip(0) =~= self.groups@);
        }
        let mut g: usize = 0;
        while g < gn
            invariant
                gn == self.groups@.len(),
                g <= gn,
                groups_max(self.groups@) == (if groups_best as int >= groups_max(
                    self.groups@.skip(g as int),
                ) {
                    groups_best as int
                } else {
                    groups_max(self.groups@.skip(g as int))
                }),
            decreases gn - g,
        {
            proof {
                assert(self.groups@.skip(g as int)[0] == self.groups@[g as int]);
                assert(self.groups@.skip(g as int).drop_first() =~= self.groups@.skip(
                    g as int + 1,
                ));
            }
            let bars = &self.groups[g].bars;
            let bn = bars.len();
            proof {
                assert(bars@.skip(0) =~= bars@);
            }
            let mut group_best: u64 = 0;
            let mut b: usize = 0;
            while b < bn
                invariant
                    bn == bars@.len(),
                    b <= bn,
                    bars_max(bars@) == (if group_best as int >= bars_max(bars@.skip(b as int)) {
                        group_best as int
                    } else {
                        bars_max(bars@.skip(b as int))
                    }),
                decreases bn - b,
            {
                proof {
                    assert(bars@.skip(b as int)[0] == bars@[b as int]);
                    assert(bars@.skip(b as int).drop_first() =~= bars@.skip(b as int + 1));
                }
                if bars[b].value > group_best {
                    group_best = bars[b].value;
                }
                b = b + 1;
            }
            proof {
                assert(bars@.skip(bn as int) =~= Seq::<Bar>::empty());
            }
            if group_best > groups_best {
                groups_best = group_best;
            }
            g = g + 1;
        }
        proof {
            assert(self.groups@.skip(gn as int) =~= Seq::<BarGroup>::empty());
        }

        let best = if data_max > groups_best {
            data_max
        } else {
            groups_best
        };
        if best < 1 {
            1
        } else {
            best
        }
    }

    /// Scales a value into a height: its share of the maximum, applied
    /// to the available cells and rounded to the nearest cell.
    pub fn scale_to_height(&self, value: u64, max: u64, available_height: u16) -> (r: u16)
        requires
            value <= max,
        ensures
            r as int == scaled_height(value, max, available_height),
    {
        if max == 0 || available_height == 0 {
            return 0;
        }
        proof {
            assert((value as int) * (available_height as int) + (max as int) / 2 < 0x1_0000_0000_0000_0000_0000_0000_0000_0000)
                by (nonlinear_arith)
                requires
                    value < 0x1_0000_0000_0000_0000,
                    available_height < 0x1_0000,
                    max < 0x1_0000_0000_0000_0000,
            ;
            assert(((value as int) * (available_height as int) + (max as int) / 2) / (max as int)
                <= available_height as int) by (nonlinear_arith)
                requires
                    max >= 1,
                    value <= max,
                    available_height >= 0,
            ;
            assert(((value as int) * (available_height as int) + (max as int) / 2) / (max as int)
                >= 0) by (nonlinear_arith)
                requires
                    max >= 1,
                    value >= 0,
                    available_height >= 0,
            ;
        }
        let num: u128 = (value as u128) * (available_height as u128) + (max as u128) / 2;
        let q: u128 = num / (max as u128);
        q as u16
    }

    /// The block glyph for a bar top `eighths/8` of a cell tall (full at
    /// eight or more).
    pub fn get_bar_char(&self, eighths: usize) -> (r: &'static str) {
        let index = if eighths > 8 {
            8
        } else {
            eighths
        };
        if index == 0 {
            " "
        } else if index == 1 {
            "▁"
        } else if index == 2 {
            "▂"
        } else if index == 3 {
            "▃"
        } else if index == 4 {
            "▄"
        } else if index == 5 {
            "▅"
        } else if index == 6 {
            "▆"
        } else if index == 7 {
            "▇"
        } else {
            "█"
        }
    }

    /// Draws one vertical bar at column `x`: full blocks from the bottom
    /// up, a partial block on top, then the value text and the label.
    fn render_vertical_bar(&self, bar: &Bar, x: u16, area: Rect, buf: &mut Buffer, max_value: u64)
        requires
            old(buf).wf(),
        ensures
            final(buf).wf(),
            final(buf).area == old(buf).area,
    {
        let label_height: u16 = if bar.label.is_some() {
            1
        } else {
            0
        };
        let value_text_height: u16 = if bar.text_value.is_some() {
            1
        } else {
            0
        };
        let available_height = area.height.saturating_sub(label_height).saturating_sub(
            value_text_height,
        );

        if available_height == 0 {
            return ;
        }

        // The bar's height in eighth-cells, rounded.
        let total_eighths: u64 = (available_height as u64) * 8;
        let bar_eighths: u64 = if max_value == 0 {
            0
        } else {
            proof {
                assert((bar.value as int) * (total_eighths as int) + (max_value as int) / 2
                    < 0x1_0000_0000_0000_0000_0000_0000_0000_0000) by (nonlinear_arith)
                    requires
                        bar.value < 0x1_0000_0000_0000_0000,
                        total_eighths < 0x1_0000_0000_0000_0000,
                        max_value < 0x1_0000_0000_0000_0000,
                ;
            }
            let num: u128 = (bar.value as u128) * (total_eighths as u128) + (max_value as u128)
                / 2;
            let q: u128 = num / (max_value as u128);
            if q > total_eighths as u128 {
                total_eighths
            } else {
                q as u64
            }
        };

        let full_chars: u16 = (bar_eighths / 8) as u16;
        let remainder: usize = (bar_eighths % 8) as usize;

        let bar_style = if bar.style.fg.is_some() || bar.style.bg.is_some() {
            bar.style
        } else {
            self.bar_style
        };

        // Full blocks, bottom up.
        let mut i: u16 = 0;
        while i < full_chars
            invariant
                buf.wf(),
                buf.area == old(buf).area,
            decreases full_chars - i,
        {
            if i < available_height {
                let y = area.y.saturating_add(available_height).saturating_sub(1).saturating_sub(
                    i,
                );
                let mut dx: u16 = 0;
                while dx < self.bar_width
                    invariant
                        buf.wf(),
                        buf.area == old(buf).area,
                    decreases self.bar_width - dx,
                {
                    let cell_x = x.saturating_add(dx);
                    if cell_x < area.x.saturating_add(area.width) {
                        buf.set_string(cell_x, y, "█", bar_style);
                    }
                    dx = dx + 1;
                }
            }
            i = i + 1;
        }

        // The partial block on top.
        if remainder > 0 && full_chars < available_height {
            let y = area.y.saturating_add(available_height).saturating_sub(1).saturating_sub(
                full_chars,
            );
            let partial_char = self.get_bar_char(remainder);
            let mut dx: u16 = 0;
            while dx < self.bar_width
                invariant
                    buf.wf(),
                    buf.area == old(buf).area,
                decreases self.bar_width - dx,
            {
                let cell_x = x.saturating_add(dx);
                if cell_x < area.x.saturating_add(area.width) {
                    buf.set_string(cell_x, y, partial_char, bar_style);
                }
                dx = dx + 1;
            }
        }

        // The value text, centered under the bar.
        if let Option::Some(text) = &bar.text_value {
            let text_width = str_width(text.as_str());
            if text_width <= self.bar_width as usize {
                let text_x = x.saturating_add(
                    self.bar_width.saturating_sub(text_width as u16) / 2,
                );
                let text_y = area.y.saturating_add(available_height);
                let value_style = if bar.value_style.fg.is_some() || bar.value_style.bg.is_some() {
                    bar.value_style
                } else {
                    self.value_style
                };
                buf.set_string(text_x, text_y, text.as_str(), value_style);
            }
        }

        // The label on the bottom row.
        if let Option::Some(label) = &bar.label {
            let label_width = str_width(label.as_str());
            if label_width <= self.bar_width as usize {
                let label_x = x.saturating_add(
                    self.bar_width.saturating_sub(label_width as u16) / 2,
                );
                let label_y = area.y.saturating_add(area.height).saturating_sub(1);
                buf.set_string(label_x, label_y, label.as_str(), Style::new());
            }
        }
    }
}

impl Widget for BarChart {
    fn render(&self, area: Rect, buf: &mut Buffer) {
        if area.width == 0 || area.height == 0 {
            return ;
        }

        // Clear the chart's area to default cells first.
        crate::clear::Clear.render(area, buf);

        let max_value = self.calculate_max();
        let mut current_x = area.x;

        // Individual bars, left to right.
        let n = self.data.len();
        let mut i: usize = 0;
        while i < n
            invariant
                buf.wf(),
                buf.area == old(buf).area,
                n == self.data@.len(),
                i <= n,
            decreases n - i,
        {
            if current_x < area.x.saturating_add(area.width) {
                self.render_vertical_bar(&self.data[i], current_x, area, buf, max_value);
                current_x = current_x.saturating_add(self.bar_width).saturating_add(self.bar_gap);
            }
            i = i + 1;
        }

        // Grouped bars after them, each group labeled beneath.
        let gn = self.groups.len();
        let mut g: usize = 0;
        while g < gn
            invariant
                buf.wf(),
                buf.area == old(buf).area,
                gn == self.groups@.len(),
                g <= gn,
            decreases gn - g,
        {
            if current_x < area.x.saturating_add(area.width) {
                let bn = self.groups[g].bars.len();
                let mut b: usize = 0;
                while b < bn
                    invariant
                        buf.wf(),
                        buf.area == old(buf).area,
                        bn == self.groups@[g as int].bars@.len(),
                        g < gn,
                        gn == self.groups@.len(),
                        b <= bn,
                    decreases bn - b,
                {
                    if current_x < area.x.saturating_add(area.width) {
                        self.render_vertical_bar(
                            &self.groups[g].bars[b],
                            current_x,
                            area,
                            buf,
                            max_value,
                        );
                        current_x = current_x.saturating_add(self.bar_width).saturating_add(
                            self.bar_gap,
                        );
                    }
                    b = b + 1;
                }

                if let Option::Some(label) = &self.groups[g].label {
                    let per_bar = self.bar_width.saturating_add(self.bar_gap);
                    let group_width = sat_mul_u16(bn, per_bar).saturating_sub(self.bar_gap);
                    let label_width = str_width(label.as_str());
                    let group_start_x = current_x.saturating_sub(group_width);
                    if label_width <= group_width as usize {
                        let label_x = group_start_x.saturating_add(
                            group_width.saturating_sub(label_width as u16) / 2,
                        );
                        let label_y = area.y.saturating_add(area.height).saturating_sub(1);
                        buf.set_string(label_x, label_y, label.as_str(), Style::new());
                    }
                }
            }
            g = g + 1;
        }
    }
}

/// A count of cells, multiplied out and clamped to the largest column.
fn sat_mul_u16(count: usize, per: u16) -> (r: u16)
    ensures
        r as int == (if count * per > 0xFFFF {
            0xFFFFint
        } else {
            count * per
        }),
{
    proof {
        assert((count as int) * (per as int) >= 0) by (nonlinear_arith)
            requires
                count >= 0,
                per >= 0,
        ;
    }
    if count > 0xFFFF {
        proof {
            assert((count as int) * (per as int) > 0xFFFF || per == 0) by (nonlinear_arith)
                requires
                    count > 0xFFFF,
            ;
        }
        if per == 0 {
            return 0;
        }
        return 0xFFFF;
    }
    proof {
        assert((count as int) * (per as int) <= 0xFFFF * 0xFFFF) by (nonlinear_arith)
            requires
                count <= 0xFFFF,
                per <= 0xFFFF,
        ;
    }
    let p: u64 = (count as u64) * (per as u64);
    if p > 0xFFFF {
        0xFFFF
    } else {
        p as u16
    }
}

} // verus!
