//! A widget that clears a rectangle of the buffer back to default cells.

use crate::buffer::{default_cell_data, lemma_row_major_bound, lemma_row_major_inj, Buffer, Cell};
use crate::layout::{rect_covers, sat_add16, Rect};
use vstd::prelude::*;

verus! {

/// Clears every cell of a rectangular area to the default state.
pub struct Clear;

impl Clear {
    /// Resets every cell in the part of `area` inside the buffer.
    fn clear_area(area: Rect, buf: &mut Buffer)
        requires
            old(buf).wf(),
        ensures
            final(buf).wf(),
            final(buf).area == old(buf).area,
            forall|px: int, py: int|
                old(buf).in_bounds(px, py) ==> final(buf).cell_at(px, py) == (if rect_covers(
                    area,
                    px,
                    py,
                ) {
                    default_cell_data()
                } else {
                    old(buf).cell_at(px, py)
                }),
    {
        let right = area.right();
        let bottom = area.bottom();
        let mut x = area.left();
        while x < right
            invariant
                buf.wf(),
                buf.area == old(buf).area,
                area.x <= x <= right,
                right == sat_add16(area.x, area.width),
                bottom == sat_add16(area.y, area.height),
                forall|px: int, py: int|
                    old(buf).in_bounds(px, py) ==> buf.cell_at(px, py) == (if rect_covers(
                        area,
                        px,
                        py,
                    ) && px < x {
                        default_cell_data()
                    } else {
                        old(buf).cell_at(px, py)
                    }),
            decreases right - x,
        {
            let mut y = area.top();
            while y < bottom
                invariant
                    buf.wf(),
                    buf.area == old(buf).area,
                    area.x <= x < right,
                    area.y <= y <= bottom,
                    right == sat_add16(area.x, area.width),
                    bottom == sat_add16(area.y, area.height),
                    forall|px: int, py: int|
                        old(buf).in_bounds(px, py) ==> buf.cell_at(px, py) == (if rect_covers(
                            area,
                            px,
                            py,
                        ) && (px < x || (px == x && py < y)) {
                            default_cell_data()
                        } else {
                            old(buf).cell_at(px, py)
                        }),
                decreases bottom - y,
            {
                match buf.index_of(x, y) {
                    Option::Some(i) => {
                        buf.put(i, Cell::default());
                    },
                    Option::None => {},
                }
                proof {
                    assert forall|px: int, py: int|
                        old(buf).in_bounds(px, py) implies buf.cell_at(px, py) == (
                    if rect_covers(area, px, py) && (px < x || (px == x && py < y + 1)) {
                        default_cell_data()
                    } else {
                        old(buf).cell_at(px, py)
                    }) by {
                        if old(buf).in_bounds(x as int, y as int) {
                            lemma_row_major_bound(
                                buf.area.width as int,
                                buf.area.height as int,
                                px,
                                py,
                            );
                            if px == x as int && py == y as int {
                            } else if old(buf).pos_index(px, py) == old(buf).pos_index(
                                x as int,
                                y as int,
                            ) {
                                lemma_row_major_inj(
                                    buf.area.width as int,
                                    px,
                                    py,
                                    x as int,
                                    y as int,
                                );
                            }
                        }
                    }
                }
                y = y + 1;
            }
            x = x + 1;
        }
    }
}

impl crate::widget::Widget for Clear {
    fn render(&self, area: Rect, buf: &mut Buffer) {
        Clear::clear_area(area, buf);
    }
}

} // verus!
