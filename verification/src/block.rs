//! A bordered box with an optional title: the frame most panels draw
//! around themselves.

use crate::buffer::{
    glyph_cell, lemma_blank_run_frame, lemma_row_major_bound, lemma_set_string_frame,
    next_cursor, set_string_spec, set_string_step, Buffer,
};
use crate::layout::{rect_covers, sat_add16, sat_sub16, Rect};
use crate::width::eff_width;
use crate::style::Style;
use crate::widget::Widget;
use vstd::prelude::*;

verus! {

/// Which sides of a block get a border, one bit per side.
#[derive(Debug, Clone, Copy, PartialEq, Eq, Structural)]
pub struct Borders(pub u8);

impl Borders {
    /// No borders.
    pub fn none() -> (b: Self)
        ensures
            b.0 == 0,
    {
        Borders(0)
    }

    /// The top border.
    pub fn top() -> (b: Self)
        ensures
            b.0 == 0b0001,
    {
        Borders(0b0001)
    }

    /// The right border.
    pub fn right() -> (b: Self)
        ensures
            b.0 == 0b0010,
    {
        Borders(0b0010)
    }

    /// The bottom border.
    pub fn bottom() -> (b: Self)
        ensures
            b.0 == 0b0100,
    {
        Borders(0b0100)
    }

    /// The left border.
    pub fn left() -> (b: Self)
        ensures
            b.0 == 0b1000,
    {
        Borders(0b1000)
    }

    /// All four borders.
    pub fn all() -> (b: Self)
        ensures
            b.0 == 0b1111,
    {
        Borders(0b1111)
    }

    /// Whether every side of `other` is also set here.
    #[inline]
    pub fn contains(self, other: Self) -> (r: bool)
        ensures
            r == ((self.0 & other.0) == other.0),
    {
        (self.0 & other.0) == other.0
    }

    /// Combines two border sets.
    #[inline]
    pub fn union(self, other: Self) -> (b: Self)
        ensures
            b.0 == (self.0 | other.0),
    {
        Borders(self.0 | other.0)
    }
}

/// The line style a block's border is drawn with.
#[derive(Debug, Clone, Copy, PartialEq, Eq, Structural)]
pub enum BorderType {
    /// Single thin lines
    Plain,
    /// Thin lines with rounded corners
    Rounded,
    /// Double lines
    Double,
    /// Thick lines
    Thick,
}

/// A styled block title.
#[derive(Debug, Clone)]
pub struct Title {
    /// The title text
    pub content: String,
    /// The style the title is drawn with
    pub style: Style,
}

impl Title {
    /// Creates a title with the default style.
    pub fn new(content: &str) -> (t: Self)
        ensures
            t.content@ == content@,
            t.style == Style::spec_new(),
    {
        Title { content: String::from_str(content), style: Style::new() }
    }

    /// Returns the title with its style replaced.
    pub fn style(self, style: Style) -> (t: Self)
        ensures
            t.content == self.content,
            t.style == style,
    {
        Title { style, ..self }
    }
}

/// When a frame's top-left corner can be claimed visible: the area is at
/// least two cells each way, its edges do not saturate, and its corner
/// lies inside the buffer.
pub open spec fn frame_corner_visible(area: Rect, buf: Buffer) -> bool {
    area.width >= 2 && area.height >= 2 && area.x + area.width <= 0xFFFF && area.y + area.height
        <= 0xFFFF && buf.in_bounds(area.x as int, area.y as int)
}

/// When the top-left corner glyph is claimed of a drawn block: both the
/// top and the left border are on, and the frame corner is visible.
pub open spec fn corner_claim_holds(b: Block, area: Rect, buf: Buffer) -> bool {
    b.borders.0 & 0b1001 == 0b1001 && frame_corner_visible(area, buf)
}

/// The glyph a border type draws in its top-left corner.
pub open spec fn corner_glyph(bt: BorderType) -> Seq<char> {
    match bt {
        BorderType::Plain => "\u{250c}"@,
        BorderType::Rounded => "\u{256d}"@,
        BorderType::Double => "\u{2554}"@,
        BorderType::Thick => "\u{250f}"@,
    }
}

/// A box with optional borders, an optional title, and a fill style.
#[derive(Debug, Clone)]
pub struct Block {
    /// The title, drawn on the top edge
    pub title: Option<Title>,
    /// Which sides get a border
    pub borders: Borders,
    /// The line style of the border
    pub border_type: BorderType,
    /// The style of the border cells
    pub border_style: Style,
    /// The style applied to the whole block area
    pub style: Style,
}

impl Default for Block {
    /// The default block has no title, no borders, and plain styling.
    fn default() -> (b: Self)
        ensures
            b.title is None,
            b.borders.0 == 0,
            b.border_type == BorderType::Plain,
            b.border_style == Style::spec_new(),
            b.style == Style::spec_new(),
    {
        Block {
            title: Option::None,
            borders: Borders(0),
            border_type: BorderType::Plain,
            border_style: Style::new(),
            style: Style::new(),
        }
    }
}

impl Block {
    /// Returns the block with a title.
    pub fn title(self, title: Title) -> (b: Self)
        ensures
            b.title == Some(title),
            b.borders == self.borders,
            b.border_type == self.border_type,
            b.border_style == self.border_style,
            b.style == self.style,
    {
        Block { title: Option::Some(title), ..self }
    }

    /// Returns the block with its border sides replaced.
    pub fn borders(self, borders: Borders) -> (b: Self)
        ensures
            b.borders == borders,
            b.title == self.title,
            b.border_type == self.border_type,
            b.border_style == self.border_style,
            b.style == self.style,
    {
        Block { borders, ..self }
    }

    /// Returns the block with its border line style replaced.
    pub fn border_type(self, border_type: BorderType) -> (b: Self)
        ensures
            b.border_type == border_type,
            b.title == self.title,
            b.borders == self.borders,
            b.border_style == self.border_style,
            b.style == self.style,
    {
        Block { border_type, ..self }
    }

    /// Returns the block with its border style replaced.
    pub fn border_style(self, border_style: Style) -> (b: Self)
        ensures
            b.border_style == border_style,
            b.title == self.title,
            b.borders == self.borders,
            b.border_type == self.border_type,
            b.style == self.style,
    {
        Block { border_style, ..self }
    }

    /// Returns the block with its fill style replaced.
    pub fn style(self, style: Style) -> (b: Self)
        ensures
            b.style == style,
            b.title == self.title,
            b.borders == self.borders,
            b.border_type == self.border_type,
            b.border_style == self.border_style,
    {
        Block { style, ..self }
    }

    /// The area left inside the block once each present border has taken
    /// one cell off its side.
    pub fn inner(&self, area: Rect) -> (r: Rect)
        ensures
            r.x == (if self.borders.0 & 0b1000 == 0b1000 {
                sat_add16(area.x, 1)
            } else {
                area.x
            }),
            r.y == (if self.borders.0 & 0b0001 == 0b0001 {
                sat_add16(area.y, 1)
            } else {
                area.y
            }),
            r.width == ({
                let w1 = if self.borders.0 & 0b1000 == 0b1000 {
                    sat_sub16(area.width, 1)
                } else {
                    area.width
                };
                if self.borders.0 & 0b0010 == 0b0010 {
                    sat_sub16(w1, 1)
                } else {
                    w1
                }
            }),
            r.height == ({
                let h1 = if self.borders.0 & 0b0001 == 0b0001 {
                    sat_sub16(area.height, 1)
                } else {
                    area.height
                };
                if self.borders.0 & 0b0100 == 0b0100 {
                    sat_sub16(h1, 1)
                } else {
                    h1
                }
            }),
    {
        let mut x = area.x;
        let mut y = area.y;
        let mut width = area.width;
        let mut height = area.height;
        if self.borders.0 & 0b1000 == 0b1000 {
            x = x.saturating_add(1);
            width = width.saturating_sub(1);
        }
        if self.borders.0 & 0b0001 == 0b0001 {
            y = y.saturating_add(1);
            height = height.saturating_sub(1);
        }
        if self.borders.0 & 0b0010 == 0b0010 {
            width = width.saturating_sub(1);
        }
        if self.borders.0 & 0b0100 == 0b0100 {
            height = height.saturating_sub(1);
        }
        Rect { x, y, width, height }
    }

    /// The glyphs for the block's border type: horizontal, vertical, and
    /// the four corners.
    fn border_symbols(&self) -> (r: (
        &'static str,
        &'static str,
        &'static str,
        &'static str,
        &'static str,
        &'static str,
    ))
        ensures
            r.2@ == corner_glyph(self.border_type),
            r.2@.len() == 1,
    {
        proof {
            reveal_strlit("\u{250c}");
            reveal_strlit("\u{256d}");
            reveal_strlit("\u{2554}");
            reveal_strlit("\u{250f}");
        }
        match self.border_type {
            BorderType::Plain => ("─", "│", "┌", "┐", "└", "┘"),
            BorderType::Rounded => ("─", "│", "╭", "╮", "╰", "╯"),
            BorderType::Double => ("═", "║", "╔", "╗", "╚", "╝"),
            BorderType::Thick => ("━", "┃", "┏", "┓", "┗", "┛"),
        }
    }
}

impl Block {
    /// Paints the block into `area`: the fill style, each present border
    /// edge, the corners, and the title on the top edge. Every cell
    /// outside `area` keeps its content.
    pub fn draw(&self, area: Rect, buf: &mut Buffer)
        requires
            old(buf).wf(),
        ensures
            final(buf).wf(),
            final(buf).area == old(buf).area,
            forall|px: int, py: int|
                old(buf).in_bounds(px, py) && !rect_covers(area, px, py) ==> final(buf).cell_at(
                    px,
                    py,
                ) == old(buf).cell_at(px, py),
            corner_claim_holds(*self, area, *old(buf)) ==> final(buf).cell_at(
                area.x as int,
                area.y as int,
            ).0 == corner_glyph(self.border_type) && (self.border_style.fg is Some
                ==> final(buf).cell_at(area.x as int, area.y as int).1
                == self.border_style.fg.unwrap()),
    {
        let ghost g = corner_claim_holds(*self, area, *old(buf));
        if area.width == 0 || area.height == 0 {
            return ;
        }
        buf.set_style(area, self.style);

        let (horizontal, vertical, top_left, top_right, bottom_left, bottom_right) =
            self.border_symbols();
        let right = area.x.saturating_add(area.width);
        let bottom = area.y.saturating_add(area.height);

        // Horizontal edges.
        if self.borders.0 & 0b0001 == 0b0001 && area.y < bottom {
            let mut x = area.x;
            while x < right
                invariant
                    buf.wf(),
                    buf.area == old(buf).area,
                    area.x <= x,
                    area.y < bottom,
                    right == sat_add16(area.x, area.width),
                    bottom == sat_add16(area.y, area.height),
                    forall|px: int, py: int|
                        old(buf).in_bounds(px, py) && !rect_covers(area, px, py) ==> buf.cell_at(
                            px,
                            py,
                        ) == old(buf).cell_at(px, py),
                decreases right - x,
            {
                crate::widget::draw_text_in(buf, area, x, area.y, horizontal, self.border_style);
                x = x + 1;
            }
        }
        if self.borders.0 & 0b0100 == 0b0100 && bottom > area.y {
            let row = bottom - 1;
            let mut x = area.x;
            while x < right
                invariant
                    buf.wf(),
                    buf.area == old(buf).area,
                    area.x <= x,
                    area.y <= row,
                    (row as int) < bottom as int,
                    right == sat_add16(area.x, area.width),
                    bottom == sat_add16(area.y, area.height),
                    forall|px: int, py: int|
                        old(buf).in_bounds(px, py) && !rect_covers(area, px, py) ==> buf.cell_at(
                            px,
                            py,
                        ) == old(buf).cell_at(px, py),
                decreases right - x,
            {
                crate::widget::draw_text_in(buf, area, x, row, horizontal, self.border_style);
                x = x + 1;
            }
        }

        // Vertical edges.
        if self.borders.0 & 0b1000 == 0b1000 {
            let mut y = area.y;
            while y < bottom
                invariant
                    buf.wf(),
                    buf.area == old(buf).area,
                    area.y <= y,
                    right == sat_add16(area.x, area.width),
                    bottom == sat_add16(area.y, area.height),
                    forall|px: int, py: int|
                        old(buf).in_bounds(px, py) && !rect_covers(area, px, py) ==> buf.cell_at(
                            px,
                            py,
                        ) == old(buf).cell_at(px, py),
                decreases bottom - y,
            {
                crate::widget::draw_text_in(buf, area, area.x, y, vertical, self.border_style);
                y = y + 1;
            }
        }
        if self.borders.0 & 0b0010 == 0b0010 && right > area.x {
            let col = right - 1;
            let mut y = area.y;
            while y < bottom
                invariant
                    buf.wf(),
                    buf.area == old(buf).area,
                    area.y <= y,
                    area.x <= col,
                    right == sat_add16(area.x, area.width),
                    bottom == sat_add16(area.y, area.height),
                    forall|px: int, py: int|
                        old(buf).in_bounds(px, py) && !rect_covers(area, px, py) ==> buf.cell_at(
                            px,
                            py,
                        ) == old(buf).cell_at(px, py),
                decreases bottom - y,
            {
                crate::widget::draw_text_in(buf, area, col, y, vertical, self.border_style);
                y = y + 1;
            }
        }

        // Corners.
        if self.borders.0 & 0b1001 == 0b1001 && area.y < bottom {
            let ghost cpre = buf.cells();
            crate::widget::draw_text_in(buf, area, area.x, area.y, top_left, self.border_style);
            proof {
                if g {
                    let w = buf.area.width as int;
                    let h = buf.area.height as int;
                    let xx = area.x as int;
                    let yy = area.y as int;
                    let clipv = if (right as int) < w {
                        right as int
                    } else {
                        w
                    };
                    let c0 = top_left@[0];
                    let idx = yy * w + xx;
                    lemma_row_major_bound(w, h, xx, yy);
                    assert(xx < clipv);
                    assert(top_left@.drop_first() =~= Seq::<char>::empty());
                    let cells1 = cpre.update(idx, glyph_cell(cpre[idx], c0, self.border_style));
                    assert(set_string_step(cpre, w, h, clipv, xx, yy, c0, self.border_style)
                        == blank_run_of(cells1, w, h, clipv, yy, xx + 1, xx + eff_width(c0)));
                    lemma_blank_run_frame(cells1, w, h, clipv, yy, xx + 1, xx + eff_width(c0));
                    let stepped = set_string_step(cpre, w, h, clipv, xx, yy, c0,
                        self.border_style);
                    assert(set_string_spec(
                        stepped,
                        w,
                        h,
                        clipv,
                        next_cursor(xx, c0),
                        yy,
                        top_left@.drop_first(),
                        self.border_style,
                    ).0 == stepped);
                    assert(buf.cells() == set_string_spec(
                        cpre,
                        w,
                        h,
                        clipv,
                        xx,
                        yy,
                        top_left@,
                        self.border_style,
                    ).0);
                    assert(buf.cells() == stepped);
                    assert(buf.cells()[idx] == glyph_cell(cpre[idx], c0, self.border_style));
                    assert(buf.cell_at(xx, yy).0 =~= corner_glyph(self.border_type));
                }
            }
        }
        if self.borders.0 & 0b0011 == 0b0011 && right > area.x && area.y < bottom {
            let ghost cpre = buf.cells();
            crate::widget::draw_text_in(
                buf,
                area,
                right - 1,
                area.y,
                top_right,
                self.border_style,
            );
            proof {
                if g {
                    corner_kept(area, *buf, cpre, right, (right - 1) as int, area.y as int,
                        top_right@, self.border_style);
                }
            }
        }
        if self.borders.0 & 0b1100 == 0b1100 && bottom > area.y {
            let ghost cpre = buf.cells();
            crate::widget::draw_text_in(
                buf,
                area,
                area.x,
                bottom - 1,
                bottom_left,
                self.border_style,
            );
            proof {
                if g {
                    corner_kept(area, *buf, cpre, right, area.x as int, (bottom - 1) as int,
                        bottom_left@, self.border_style);
                }
            }
        }
        if self.borders.0 & 0b0110 == 0b0110 && right > area.x && bottom > area.y {
            let ghost cpre = buf.cells();
            crate::widget::draw_text_in(
                buf,
                area,
                right - 1,
                bottom - 1,
                bottom_right,
                self.border_style,
            );
            proof {
                if g {
                    corner_kept(area, *buf, cpre, right, (right - 1) as int, (bottom - 1) as int,
                        bottom_right@, self.border_style);
                }
            }
        }

        // The title sits on the top edge, one cell in.
        if let Option::Some(title) = &self.title {
            if area.y < bottom {
                let ghost cpre = buf.cells();
                crate::widget::draw_text_in(
                    buf,
                    area,
                    area.x.saturating_add(1),
                    area.y,
                    title.content.as_str(),
                    title.style,
                );
                proof {
                    if g {
                        corner_kept(area, *buf, cpre, right,
                            sat_add16(area.x, 1) as int, area.y as int, title.content@,
                            title.style);
                    }
                }
            }
        }
    }
}

/// An alias for [`crate::buffer::blank_run`], so the corner proof can
/// name the run it frames.
pub open spec fn blank_run_of(
    cells: Seq<crate::buffer::CellData>,
    w: int,
    h: int,
    clip: int,
    y: int,
    from: int,
    to: int,
) -> Seq<crate::buffer::CellData> {
    crate::buffer::blank_run(cells, w, h, clip, y, from, to)
}

/// A write whose start column lies right of the area's left edge, or
/// whose row is not the top row, leaves the top-left corner cell alone.
proof fn corner_kept(
    area: Rect,
    buf: Buffer,
    cpre: Seq<crate::buffer::CellData>,
    right: u16,
    sx: int,
    sy: int,
    text: Seq<char>,
    style: crate::style::Style,
)
    requires
        buf.wf(),
        cpre.len() == buf.area.width * buf.area.height,
        buf.in_bounds(area.x as int, area.y as int),
        sx > area.x as int || sy != area.y as int,
        buf.cells() == set_string_spec(
            cpre,
            buf.area.width as int,
            buf.area.height as int,
            (if (right as int) < buf.area.width as int {
                right as int
            } else {
                buf.area.width as int
            }),
            sx,
            sy,
            text,
            style,
        ).0,
    ensures
        buf.cell_at(area.x as int, area.y as int) == cpre[area.y as int * buf.area.width as int
            + area.x as int],
{
    let w = buf.area.width as int;
    let h = buf.area.height as int;
    let clipv = if (right as int) < w {
        right as int
    } else {
        w
    };
    lemma_row_major_bound(w, h, area.x as int, area.y as int);
    lemma_set_string_frame(cpre, w, h, clipv, sx, sy, text, style);
}

impl Widget for Block {
    fn render(&self, area: Rect, buf: &mut Buffer) {
        self.draw(area, buf);
    }
}

/// The coordinate of the far edge: one before `start + extent`, clamped
/// to `start` for empty extents.
fn sat_sub_edge(start: u16, extent: u16) -> (r: u16)
    ensures
        r == sat_sub16(sat_add16(start, extent), 1),
{
    start.saturating_add(extent).saturating_sub(1)
}

} // verus!
