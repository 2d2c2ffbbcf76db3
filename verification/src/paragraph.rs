//! A paragraph widget: multi-line text drawn line by line into an area.

use crate::buffer::Buffer;
use crate::layout::{rect_covers, Rect};
use crate::strutil::split_lines;
use crate::style::Style;
use crate::widget::Widget;
use vstd::prelude::*;

verus! {

/// Text painted line by line from the top-left of an area.
#[derive(Debug, Clone)]
pub struct Paragraph {
    /// The text; newlines separate the lines
    pub text: String,
    /// The style every line is drawn with
    pub style: Style,
}

impl Paragraph {
    /// Creates a paragraph with the default style.
    pub fn new(text: &str) -> (p: Self)
        ensures
            p.text@ == text@,
            p.style == Style::spec_new(),
    {
        Paragraph { text: String::from_str(text), style: Style::new() }
    }

    /// Returns the paragraph with its style replaced.
    pub fn style(self, style: Style) -> (p: Self)
        ensures
            p.text == self.text,
            p.style == style,
    {
        Paragraph { style, ..self }
    }
}

impl Paragraph {
    /// Paints the text into `area`, line by line from the top-left, each
    /// line clipped at `area`'s right edge and no line below its bottom.
    /// Every cell outside `area` keeps its content.
    pub fn draw(&self, area: Rect, buf: &mut Buffer)
        requires
            old(buf).wf(),
        ensures
            final(buf).wf(),
            final(buf).area == old(buf).area,
            forall|px: int, py: int|
                old(buf).in_bounds(px, py) && !rect_covers(area, px, py) ==> final(buf).cell_at(
                    px,
                    py,
                ) == old(buf).cell_at(px, py),
    {
        let lines = split_lines(self.text.as_str());
        let bottom = area.y.saturating_add(area.height);
        let n = lines.len();
        let mut i: usize = 0;
        while i < n
            invariant
                buf.wf(),
                buf.area == old(buf).area,
                bottom == crate::layout::sat_add16(area.y, area.height),
                n == lines@.len(),
                i <= n,
                forall|px: int, py: int|
                    old(buf).in_bounds(px, py) && !rect_covers(area, px, py) ==> buf.cell_at(
                        px,
                        py,
                    ) == old(buf).cell_at(px, py),
            decreases n - i,
        {
            if i < area.height as usize {
                let row_index: usize = (area.y as usize) + i;
                if row_index < bottom as usize {
                    let y = row_index as u16;
                    crate::widget::draw_text_in(
                        buf,
                        area,
                        area.x,
                        y,
                        lines[i].as_str(),
                        self.style,
                    );
                }
            }
            i = i + 1;
        }
    }
}

impl Widget for Paragraph {
    fn render(&self, area: Rect, buf: &mut Buffer) {
        self.draw(area, buf);
    }
}

} // verus!
