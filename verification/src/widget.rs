//! The drawable-component boundary: anything that can paint itself into a
//! rectangle of a buffer.

use crate::buffer::{lemma_row_major_bound, lemma_set_string_frame, Buffer};
use crate::layout::{rect_covers, sat_add16, Rect};
use crate::style::Style;
use vstd::prelude::*;

verus! {

/// Writes `text` at `(x, y)` clipped to `area`'s right edge; the row must
/// lie on one of `area`'s rows and the start at or right of its left
/// edge, so every cell outside `area` keeps its content.
pub(crate) fn draw_text_in(buf: &mut Buffer, area: Rect, x: u16, y: u16, text: &str, style: Style)
    requires
        old(buf).wf(),
        area.x <= x,
        area.y <= y,
        (y as int) < sat_add16(area.y, area.height) as int,
    ensures
        final(buf).wf(),
        final(buf).area == old(buf).area,
        final(buf).cells() == crate::buffer::set_string_spec(
            old(buf).cells(),
            old(buf).area.width as int,
            old(buf).area.height as int,
            ({
                let right = sat_add16(area.x, area.width);
                if right < old(buf).area.width {
                    right as int
                } else {
                    old(buf).area.width as int
                }
            }),
            x as int,
            y as int,
            text@,
            style,
        ).0,
        forall|px: int, py: int|
            old(buf).in_bounds(px, py) && !rect_covers(area, px, py) ==> final(buf).cell_at(
                px,
                py,
            ) == old(buf).cell_at(px, py),
{
    let ghost pre = buf.cells();
    let right = area.x.saturating_add(area.width);
    buf.set_string_within(x, y, text, style, right);
    proof {
        let w = buf.area.width as int;
        let h = buf.area.height as int;
        let clip = if (right as int) < w {
            right as int
        } else {
            w
        };
        lemma_set_string_frame(pre, w, h, clip, x as int, y as int, text@, style);
        assert forall|px: int, py: int|
            old(buf).in_bounds(px, py) && !rect_covers(area, px, py) implies buf.cell_at(px, py)
            == old(buf).cell_at(px, py) by {
            lemma_row_major_bound(w, h, px, py);
            if py == y as int && x as int <= px < clip {
                assert(rect_covers(area, px, py));
            }
        }
    }
}

/// A drawable component.
pub trait Widget {
    /// Paints the widget into `area` of `buf`. The buffer keeps its area
    /// and stays well formed, whatever is painted.
    fn render(&self, area: Rect, buf: &mut Buffer)
        requires
            old(buf).wf(),
        ensures
            final(buf).wf(),
            final(buf).area == old(buf).area,
    ;
}

/// A drawable component that reads and updates external state as it
/// paints (a scroll position, a selection).
pub trait StatefulWidget {
    /// The state the widget works on
    type State;

    /// Paints the widget into `area` of `buf`, updating `state`.
    fn render(&self, area: Rect, buf: &mut Buffer, state: &mut Self::State)
        requires
            old(buf).wf(),
        ensures
            final(buf).wf(),
            final(buf).area == old(buf).area,
    ;
}

} // verus!
