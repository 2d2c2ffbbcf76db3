//! The cell-grid buffer model: one `Cell` per terminal slot, and a
//! `Buffer` that owns a rectangle's worth of them with point access,
//! string writing, style painting, resizing, diffing and merging.

use crate::layout::rect_covers;
use crate::layout::Rect;
use crate::strutil::char_to_string;
use crate::style::{Color, Modifier, Style};
use crate::width::eff_width;
use vstd::prelude::*;
use vstd::std_specs::iter::IteratorSpec;

verus! {

/// The mathematical content of one cell: its glyph (as a character
/// sequence), foreground, background, and modifier bits.
pub type CellData = (Seq<char>, Color, Color, u16);

/// A single cell of the terminal grid: a glyph and its styling.
///
/// A cell covered by the continuation column of a wide glyph holds an
/// empty glyph, so diffing never duplicates visible content.
#[derive(Debug, Hash)]
pub struct Cell {
    /// The character(s) displayed in this cell
    pub symbol: String,
    /// Foreground color
    pub fg: Color,
    /// Background color
    pub bg: Color,
    /// Text modifiers
    pub modifier: Modifier,
}

impl View for Cell {
    type V = CellData;

    open spec fn view(&self) -> CellData {
        (self.symbol@, self.fg, self.bg, self.modifier.0)
    }
}

/// The cell every buffer starts from: a single space, reset colors, no
/// modifiers.
pub open spec fn default_cell_data() -> CellData {
    (" "@, Color::Reset, Color::Reset, 0u16)
}

/// One cell after a style is applied to it: the glyph stays, a color the
/// style sets wins, and the modifier bits are unioned.
pub open spec fn restyled(old: CellData, style: Style) -> CellData {
    (
        old.0,
        match style.fg {
            Option::Some(c) => c,
            Option::None => old.1,
        },
        match style.bg {
            Option::Some(c) => c,
            Option::None => old.2,
        },
        old.3 | style.modifiers.0,
    )
}

/// One cell after a glyph is written into it with a style.
pub open spec fn glyph_cell(old: CellData, c: char, style: Style) -> CellData {
    (
        seq![c],
        match style.fg {
            Option::Some(col) => col,
            Option::None => old.1,
        },
        match style.bg {
            Option::Some(col) => col,
            Option::None => old.2,
        },
        old.3 | style.modifiers.0,
    )
}

/// One cell whose glyph has been cleared to the empty string (a
/// continuation column of a wide glyph).
pub open spec fn blanked(old: CellData) -> CellData {
    (Seq::empty(), old.1, old.2, old.3)
}

impl Default for Cell {
    /// The default cell holds a single space with reset styling.
    fn default() -> (c: Self)
        ensures
            c@ == default_cell_data(),
    {
        Cell {
            symbol: String::from_str(" "),
            fg: Color::Reset,
            bg: Color::Reset,
            modifier: Modifier(0),
        }
    }
}

impl Clone for Cell {
    /// A clone carries exactly the same content.
    fn clone(&self) -> (c: Self)
        ensures
            c@ == self@,
    {
        Cell {
            symbol: self.symbol.clone(),
            fg: self.fg,
            bg: self.bg,
            modifier: self.modifier,
        }
    }
}

impl PartialEq for Cell {
    fn eq(&self, other: &Self) -> (r: bool) {
        self.symbol == other.symbol && self.fg == other.fg && self.bg == other.bg
            && self.modifier == other.modifier
    }
}

impl Eq for Cell {}

impl vstd::std_specs::cmp::PartialEqSpecImpl for Cell {
    open spec fn obeys_eq_spec() -> bool {
        true
    }

    open spec fn eq_spec(&self, other: &Self) -> bool {
        self@ == other@
    }
}

impl Cell {
    /// Creates a cell showing `symbol` with default styling.
    pub fn new(symbol: &str) -> (c: Self)
        ensures
            c@ == (symbol@, Color::Reset, Color::Reset, 0u16),
    {
        Cell {
            symbol: String::from_str(symbol),
            fg: Color::Reset,
            bg: Color::Reset,
            modifier: Modifier(0),
        }
    }

    /// Returns the cell with the foreground color replaced.
    #[inline]
    pub fn fg(self, color: Color) -> (c: Self)
        ensures
            c@ == (self@.0, color, self@.2, self@.3),
    {
        Cell { fg: color, ..self }
    }

    /// Returns the cell with the background color replaced.
    #[inline]
    pub fn bg(self, color: Color) -> (c: Self)
        ensures
            c@ == (self@.0, self@.1, color, self@.3),
    {
        Cell { bg: color, ..self }
    }

    /// Returns the cell with the modifiers replaced.
    #[inline]
    pub fn modifier(self, modifier: Modifier) -> (c: Self)
        ensures
            c@ == (self@.0, self@.1, self@.2, modifier.0),
    {
        Cell { modifier, ..self }
    }

    /// Applies a style: colors the style sets win, modifiers are unioned,
    /// the glyph stays.
    pub fn set_style(&mut self, style: Style)
        ensures
            final(self)@ == restyled(old(self)@, style),
    {
        if let Option::Some(fg) = style.fg {
            self.fg = fg;
        }
        if let Option::Some(bg) = style.bg {
            self.bg = bg;
        }
        self.modifier = self.modifier.insert(style.modifiers);
    }

    /// Resets the cell to the default: a space with reset styling.
    pub fn reset(&mut self)
        ensures
            final(self)@ == default_cell_data(),
    {
        self.symbol = String::from_str(" ");
        self.fg = Color::Reset;
        self.bg = Color::Reset;
        self.modifier = Modifier(0);
    }
}

/// A rectangular grid of cells covering `area`, stored row-major.
#[derive(Debug)]
pub struct Buffer {
    /// The rectangle this buffer covers
    pub area: Rect,
    /// The cells, stored row-major; public so that specifications can
    /// speak about the grid, accessed through the methods below
    pub content: Vec<Cell>,
}

impl Clone for Buffer {
    /// A clone covers the same area with the same cell contents.
    fn clone(&self) -> (b: Self)
        ensures
            b.area == self.area,
            b.cells() == self.cells(),
    {
        let b = Buffer { area: self.area, content: self.content.clone() };
        proof {
            assert forall|i: int| 0 <= i < b.content@.len() implies b.content@[i]@
                == self.content@[i]@ by {
                assert(cloned::<Cell>(self.content@[i], b.content@[i]));
            }
            assert(b.cells() =~= self.cells());
        }
        b
    }
}

impl PartialEq for Buffer {
    fn eq(&self, other: &Self) -> (r: bool) {
        if !(self.area == other.area) {
            return false;
        }
        if self.content.len() != other.content.len() {
            proof {
                assert(self.cells().len() == self.content@.len());
                assert(other.cells().len() == other.content@.len());
            }
            return false;
        }
        let n = self.content.len();
        let mut i: usize = 0;
        while i < n
            invariant
                n == self.content@.len(),
                n == other.content@.len(),
                i <= n,
                forall|k: int| 0 <= k < i ==> self.content@[k]@ == other.content@[k]@,
            decreases n - i,
        {
            if !(self.content[i] == other.content[i]) {
                proof {
                    assert(self.cells()[i as int] == self.content@[i as int]@);
                    assert(other.cells()[i as int] == other.content@[i as int]@);
                }
                return false;
            }
            i = i + 1;
        }
        proof {
            assert(self.cells() =~= other.cells());
        }
        true
    }
}

impl Eq for Buffer {}

impl vstd::std_specs::cmp::PartialEqSpecImpl for Buffer {
    open spec fn obeys_eq_spec() -> bool {
        true
    }

    open spec fn eq_spec(&self, other: &Self) -> bool {
        self.area == other.area && self.cells() == other.cells()
    }
}

/// Distinct in-bounds positions live at distinct storage indices.
pub proof fn lemma_row_major_inj(w: int, x1: int, y1: int, x2: int, y2: int)
    requires
        0 <= x1 < w,
        0 <= x2 < w,
        0 <= y1,
        0 <= y2,
        y1 * w + x1 == y2 * w + x2,
    ensures
        x1 == x2 && y1 == y2,
{
    assert(x1 == x2 && y1 == y2) by (nonlinear_arith)
        requires
            0 <= x1 < w,
            0 <= x2 < w,
            0 <= y1,
            0 <= y2,
            y1 * w + x1 == y2 * w + x2,
    ;
}

/// An in-bounds position's storage index lies within the grid.
pub proof fn lemma_row_major_bound(w: int, h: int, x: int, y: int)
    requires
        0 <= x < w,
        0 <= y < h,
    ensures
        0 <= y * w + x < w * h,
{
    assert(0 <= y * w + x < w * h) by (nonlinear_arith)
        requires
            0 <= x < w,
            0 <= y < h,
    ;
}

/// A storage index decomposes back into its column and row.
pub proof fn lemma_row_major_divmod(w: int, x: int, y: int)
    requires
        0 <= x < w,
        0 <= y,
    ensures
        (y * w + x) % w == x,
        (y * w + x) / w == y,
{
    assert((y * w + x) % w == x && (y * w + x) / w == y) by (nonlinear_arith)
        requires
            0 <= x < w,
            0 <= y,
    ;
}

proof fn lemma_cells_update(s: Seq<Cell>, i: int, c: Cell)
    requires
        0 <= i < s.len(),
    ensures
        s.update(i, c).map_values(|x: Cell| x@) == s.map_values(|x: Cell| x@).update(i, c@),
{
    assert(s.update(i, c).map_values(|x: Cell| x@) =~= s.map_values(|x: Cell| x@).update(
        i,
        c@,
    ));
}

impl Buffer {
    /// The mathematical content of the grid, row-major.
    pub open spec fn cells(self) -> Seq<CellData> {
        self.content@.map_values(|c: Cell| c@)
    }

    /// A buffer is well formed when it holds exactly one cell per slot of
    /// its area.
    pub open spec fn wf(self) -> bool {
        self.cells().len() == self.area.width * self.area.height
    }

    /// Whether `(x, y)` lies inside the grid.
    pub open spec fn in_bounds(self, x: int, y: int) -> bool {
        0 <= x < self.area.width && 0 <= y < self.area.height
    }

    /// The storage index of position `(x, y)`.
    pub open spec fn pos_index(self, x: int, y: int) -> int {
        y * self.area.width + x
    }

    /// The content of the cell at `(x, y)`.
    pub open spec fn cell_at(self, x: int, y: int) -> CellData {
        self.cells()[self.pos_index(x, y)]
    }

    /// Creates a buffer for `area` full of default cells.
    ///
    /// The grid holds exactly `area.width * area.height` cells.
    pub fn new(area: Rect) -> (b: Self)
        ensures
            b.area == area,
            b.wf(),
            b.cells().len() == area.width * area.height,
            forall|k: int| 0 <= k < b.cells().len() ==> b.cells()[k] == default_cell_data(),
    {
        proof {
            assert((area.width as int) * (area.height as int) < 0x1_0000_0000)
                by (nonlinear_arith)
                requires
                    area.width <= 0xFFFF,
                    area.height <= 0xFFFF,
            ;
        }
        let cell_count: usize = (area.width as usize) * (area.height as usize);
        let mut content: Vec<Cell> = Vec::new();
        let mut i: usize = 0;
        while i < cell_count
            invariant
                i <= cell_count,
                content@.len() == i,
                forall|k: int| 0 <= k < i ==> content@[k]@ == default_cell_data(),
            decreases cell_count - i,
        {
            content.push(Cell::default());
            i = i + 1;
        }
        let b = Buffer { area, content };
        proof {
            assert(forall|k: int|
                0 <= k < b.cells().len() ==> b.cells()[k] == b.content@[k]@);
        }
        b
    }

    /// Creates a buffer for `area` (an alias for [`Buffer::new`]).
    pub fn empty(area: Rect) -> (b: Self)
        ensures
            b.area == area,
            b.wf(),
            forall|k: int| 0 <= k < b.cells().len() ==> b.cells()[k] == default_cell_data(),
    {
        Self::new(area)
    }

    /// Creates a buffer for `area` with every cell a copy of `cell`.
    pub fn filled(area: Rect, cell: &Cell) -> (b: Self)
        ensures
            b.area == area,
            b.wf(),
            forall|k: int| 0 <= k < b.cells().len() ==> b.cells()[k] == cell@,
    {
        proof {
            assert((area.width as int) * (area.height as int) < 0x1_0000_0000)
                by (nonlinear_arith)
                requires
                    area.width <= 0xFFFF,
                    area.height <= 0xFFFF,
            ;
        }
        let cell_count: usize = (area.width as usize) * (area.height as usize);
        let mut content: Vec<Cell> = Vec::new();
        let mut i: usize = 0;
        while i < cell_count
            invariant
                i <= cell_count,
                content@.len() == i,
                forall|k: int| 0 <= k < i ==> content@[k]@ == cell@,
            decreases cell_count - i,
        {
            content.push(cell.clone());
            i = i + 1;
        }
        let b = Buffer { area, content };
        proof {
            assert(forall|k: int|
                0 <= k < b.cells().len() ==> b.cells()[k] == b.content@[k]@);
        }
        b
    }

    /// Whether the grid really holds one cell per slot of its area; lets
    /// callers re-establish well-formedness after unverified code held
    /// the buffer.
    pub fn check_wf(&self) -> (b: bool)
        ensures
            b == self.wf(),
    {
        proof {
            assert((self.area.width as int) * (self.area.height as int) < 0x1_0000_0000)
                by (nonlinear_arith)
                requires
                    self.area.width <= 0xFFFF,
                    self.area.height <= 0xFFFF,
            ;
        }
        self.content.len() == (self.area.width as usize) * (self.area.height as usize)
    }

    /// The storage index of `(x, y)`, or `None` outside the grid.
    pub(crate) fn index_of(&self, x: u16, y: u16) -> (r: Option<usize>)
        requires
            self.wf(),
        ensures
            match r {
                Option::Some(i) => self.in_bounds(x as int, y as int) && i == self.pos_index(
                    x as int,
                    y as int,
                ) && i < self.cells().len(),
                Option::None => !self.in_bounds(x as int, y as int),
            },
    {
        if x >= self.area.width || y >= self.area.height {
            return Option::None;
        }
        proof {
            lemma_row_major_bound(
                self.area.width as int,
                self.area.height as int,
                x as int,
                y as int,
            );
            assert((self.area.width as int) * (self.area.height as int) < 0x1_0000_0000)
                by (nonlinear_arith)
                requires
                    self.area.width <= 0xFFFF,
                    self.area.height <= 0xFFFF,
            ;
        }
        Option::Some((y as usize) * (self.area.width as usize) + (x as usize))
    }

    /// The cell at `(x, y)`, or `None` outside the grid.
    pub fn get(&self, x: u16, y: u16) -> (r: Option<&Cell>)
        requires
            self.wf(),
        ensures
            match r {
                Option::Some(c) => self.in_bounds(x as int, y as int) && c@ == self.cell_at(
                    x as int,
                    y as int,
                ),
                Option::None => !self.in_bounds(x as int, y as int),
            },
    {
        match self.index_of(x, y) {
            Option::Some(i) => Option::Some(&self.content[i]),
            Option::None => Option::None,
        }
    }

    /// A mutable reference to the cell at `(x, y)`, or `None` outside the
    /// grid; the buffer afterwards holds whatever the caller leaves in the
    /// referenced cell.
    pub fn get_mut(&mut self, x: u16, y: u16) -> (r: Option<&mut Cell>)
        requires
            old(self).wf(),
        ensures
            !old(self).in_bounds(x as int, y as int) ==> r is None && *final(self) == *old(self),
            old(self).in_bounds(x as int, y as int) ==> r is Some
                && (*r.unwrap())@ == old(self).cell_at(x as int, y as int)
                && final(self).area == old(self).area
                && final(self).cells() == old(self).cells().update(
                    old(self).pos_index(x as int, y as int),
                    (*final(r.unwrap()))@,
                )
                && final(self).wf(),
    {
        match self.index_of(x, y) {
            Option::Some(i) => {
                let ghost oldc = self.content@;
                let cell = &mut self.content[i];
                proof {
                    lemma_cells_update(oldc, i as int, *final(cell));
                }
                Option::Some(cell)
            },
            Option::None => Option::None,
        }
    }

    /// Replaces the cell at storage index `i`.
    pub(crate) fn put(&mut self, i: usize, c: Cell)
        requires
            i < old(self).cells().len(),
        ensures
            final(self).area == old(self).area,
            final(self).cells() == old(self).cells().update(i as int, c@),
    {
        proof {
            lemma_cells_update(self.content@, i as int, c);
        }
        self.content.set(i, c);
    }

    /// A copy of the cell at storage index `i`.
    pub(crate) fn cell_copy(&self, i: usize) -> (c: Cell)
        requires
            self.wf(),
            i < self.cells().len(),
        ensures
            c@ == self.cells()[i as int],
    {
        self.content[i].clone()
    }

    /// Resets every cell to the default.
    pub fn clear(&mut self)
        ensures
            final(self).area == old(self).area,
            final(self).cells().len() == old(self).cells().len(),
            old(self).wf() ==> final(self).wf(),
            forall|k: int|
                0 <= k < final(self).cells().len() ==> final(self).cells()[k]
                    == default_cell_data(),
    {
        let n = self.content.len();
        let mut i: usize = 0;
        while i < n
            invariant
                self.area == old(self).area,
                n == self.cells().len(),
                i <= n,
                forall|k: int| 0 <= k < i ==> self.cells()[k] == default_cell_data(),
            decreases n - i,
        {
            self.put(i, Cell::default());
            i = i + 1;
        }
    }

    /// Applies `style` to every cell in the part of `area` that lies
    /// inside the buffer.
    #[verifier::rlimit(50)]
    pub fn set_style(&mut self, area: Rect, style: Style)
        requires
            old(self).wf(),
        ensures
            final(self).area == old(self).area,
            final(self).wf(),
            forall|px: int, py: int|
                old(self).in_bounds(px, py) ==> final(self).cell_at(px, py) == (if rect_covers(
                    area,
                    px,
                    py,
                ) {
                    restyled(old(self).cell_at(px, py), style)
                } else {
                    old(self).cell_at(px, py)
                }),
    {
        let bottom = area.bottom();
        let right = area.right();
        let mut y = area.top();
        while y < bottom
            invariant
                self.wf(),
                self.area == old(self).area,
                self.cells().len() == old(self).cells().len(),
                area.y <= y <= bottom,
                bottom == crate::layout::sat_add16(area.y, area.height),
                right == crate::layout::sat_add16(area.x, area.width),
                forall|px: int, py: int|
                    old(self).in_bounds(px, py) ==> self.cell_at(px, py) == (if rect_covers(
                        area,
                        px,
                        py,
                    ) && py < y {
                        restyled(old(self).cell_at(px, py), style)
                    } else {
                        old(self).cell_at(px, py)
                    }),
            decreases bottom - y,
        {
            let mut x = area.left();
            while x < right
                invariant
                    self.wf(),
                    self.area == old(self).area,
                    self.cells().len() == old(self).cells().len(),
                    area.y <= y < bottom,
                    area.x <= x <= right,
                    bottom == crate::layout::sat_add16(area.y, area.height),
                    right == crate::layout::sat_add16(area.x, area.width),
                    forall|px: int, py: int|
                        old(self).in_bounds(px, py) ==> self.cell_at(px, py) == (if rect_covers(
                            area,
                            px,
                            py,
                        ) && (py < y || (py == y && px < x)) {
                            restyled(old(self).cell_at(px, py), style)
                        } else {
                            old(self).cell_at(px, py)
                        }),
                decreases right - x,
            {
                let ghost prev = *self;
                match self.index_of(x, y) {
                    Option::Some(i) => {
                        let mut c = self.cell_copy(i);
                        c.set_style(style);
                        self.put(i, c);
                        proof {
                            assert forall|px: int, py: int|
                                old(self).in_bounds(px, py) implies self.cell_at(px, py) == (
                            if rect_covers(area, px, py) && (py < y || (py == y && px < x + 1)) {
                                restyled(old(self).cell_at(px, py), style)
                            } else {
                                old(self).cell_at(px, py)
                            }) by {
                                lemma_row_major_bound(
                                    self.area.width as int,
                                    self.area.height as int,
                                    px,
                                    py,
                                );
                                if px == x as int && py == y as int {
                                } else if old(self).pos_index(px, py) == old(self).pos_index(
                                    x as int,
                                    y as int,
                                ) {
                                    lemma_row_major_inj(
                                        self.area.width as int,
                                        px,
                                        py,
                                        x as int,
                                        y as int,
                                    );
                                }
                            }
                        }
                    },
                    Option::None => {
                        proof {
                            assert forall|px: int, py: int|
                                old(self).in_bounds(px, py) implies self.cell_at(px, py) == (
                            if rect_covers(area, px, py) && (py < y || (py == y && px < x + 1)) {
                                restyled(old(self).cell_at(px, py), style)
                            } else {
                                old(self).cell_at(px, py)
                            }) by {}
                        }
                    },
                }
                x = x + 1;
            }
            y = y + 1;
        }
    }

    /// Resizes the buffer to `area`: cells in the overlap of the old and
    /// new grids keep their content, every other new cell is the default.
    pub fn resize(&mut self, area: Rect)
        requires
            old(self).wf(),
        ensures
            final(self).area == area,
            final(self).wf(),
            forall|x: int, y: int|
                0 <= x < old(self).area.width && 0 <= x < area.width && 0 <= y < old(self).area.height && 0 <= y < area.height ==> final(self).cell_at(x, y) == old(self).cell_at(x, y),
            forall|x: int, y: int|
                final(self).in_bounds(x, y) && !(x < old(self).area.width && y < old(self).area.height) ==> final(self).cell_at(x, y) == default_cell_data(),
    {
        let old_w = self.area.width;
        let old_h = self.area.height;
        let min_w = if old_w < area.width {
            old_w
        } else {
            area.width
        };
        let min_h = if old_h < area.height {
            old_h
        } else {
            area.height
        };
        let new_w = area.width;
        let new_h = area.height;
        let mut content: Vec<Cell> = Vec::new();
        let mut y: u16 = 0;
        while y < new_h
            invariant
                self == old(self),
                self.wf(),
                old_w == self.area.width,
                old_h == self.area.height,
                min_w == if old_w < new_w {
                    old_w
                } else {
                    new_w
                },
                min_h == if old_h < new_h {
                    old_h
                } else {
                    new_h
                },
                new_w == area.width,
                new_h == area.height,
                y <= new_h,
                content@.len() == y * new_w,
                forall|k: int|
                    0 <= k < content@.len() ==> content@[k]@ == (if (k % (new_w as int)) < min_w
                        && (k / (new_w as int)) < min_h {
                        self.cell_at(k % (new_w as int), k / (new_w as int))
                    } else {
                        default_cell_data()
                    }),
            decreases new_h - y,
        {
            let mut x: u16 = 0;
            while x < new_w
                invariant
                    self == old(self),
                    self.wf(),
                    old_w == self.area.width,
                    old_h == self.area.height,
                    min_w == if old_w < new_w {
                        old_w
                    } else {
                        new_w
                    },
                    min_h == if old_h < new_h {
                        old_h
                    } else {
                        new_h
                    },
                    new_w == area.width,
                    new_h == area.height,
                    y < new_h,
                    x <= new_w,
                    content@.len() == y * new_w + x,
                    forall|k: int|
                        0 <= k < content@.len() ==> content@[k]@ == (if (k % (new_w as int))
                            < min_w && (k / (new_w as int)) < min_h {
                            self.cell_at(k % (new_w as int), k / (new_w as int))
                        } else {
                            default_cell_data()
                        }),
                decreases new_w - x,
            {
                proof {
                    lemma_row_major_bound(new_w as int, new_h as int, x as int, y as int);
                    lemma_row_major_divmod(new_w as int, x as int, y as int);
                }
                let ghost cpre = content@;
                let newc: Cell = if x < min_w && y < min_h {
                    match self.index_of(x, y) {
                        Option::Some(i) => self.cell_copy(i),
                        Option::None => {
                            // unreachable: (x, y) lies in the old grid
                            proof {
                                assert(false);
                            }
                            Cell::default()
                        },
                    }
                } else {
                    Cell::default()
                };
                content.push(newc);
                proof {
                    assert forall|k: int| 0 <= k < content@.len() implies content@[k]@ == (
                    if (k % (new_w as int)) < min_w && (k / (new_w as int)) < min_h {
                        self.cell_at(k % (new_w as int), k / (new_w as int))
                    } else {
                        default_cell_data()
                    }) by {
                        if k < cpre.len() {
                            assert(content@[k] == cpre[k]);
                        } else {
                            assert(k == cpre.len());
                            assert(content@[k] == newc);
                        }
                    }
                }
                x = x + 1;
            }
            proof {
                assert((y as int + 1) * (new_w as int) == (y as int) * (new_w as int)
                    + new_w as int) by (nonlinear_arith);
            }
            y = y + 1;
        }
        self.area = area;
        self.content = content;
        proof {
            assert(self.wf()) by (nonlinear_arith)
                requires
                    self.cells().len() == (new_h as int) * (new_w as int),
                    new_w == self.area.width,
                    new_h == self.area.height,
            ;
            assert forall|x: int, y: int|
                0 <= x < old_w && 0 <= x < new_w && 0 <= y < old_h && 0 <= y < new_h implies
                self.cell_at(x, y) == old(self).cell_at(x, y) by {
                lemma_row_major_bound(new_w as int, new_h as int, x, y);
                lemma_row_major_divmod(new_w as int, x, y);
            }
            assert forall|x: int, y: int|
                self.in_bounds(x, y) && !(x < old_w && y < old_h) implies self.cell_at(x, y)
                    == default_cell_data() by {
                lemma_row_major_bound(new_w as int, new_h as int, x, y);
                lemma_row_major_divmod(new_w as int, x, y);
            }
        }
    }


    /// Copies every cell of `other` into this buffer, offset by the
    /// difference of the two origins (clamped to zero); cells that would
    /// land outside this buffer are dropped.
    pub fn merge(&mut self, other: &Buffer)
        requires
            old(self).wf(),
            other.wf(),
        ensures
            final(self).area == old(self).area,
            final(self).wf(),
            forall|tx: int, ty: int|
                old(self).in_bounds(tx, ty) ==> final(self).cell_at(tx, ty) == (if merge_source(
                    *old(self),
                    *other,
                    tx,
                    ty,
                ) {
                    other.cell_at(
                        tx - crate::layout::sat_sub16(other.area.x, old(self).area.x),
                        ty - crate::layout::sat_sub16(other.area.y, old(self).area.y),
                    )
                } else {
                    old(self).cell_at(tx, ty)
                }),
    {
        let offset_x = other.area.x.saturating_sub(self.area.x);
        let offset_y = other.area.y.saturating_sub(self.area.y);
        let ow = other.area.width;
        let oh = other.area.height;
        let mut y: u16 = 0;
        while y < oh
            invariant
                self.wf(),
                self.area == old(self).area,
                other.wf(),
                offset_x == crate::layout::sat_sub16(other.area.x, old(self).area.x),
                offset_y == crate::layout::sat_sub16(other.area.y, old(self).area.y),
                ow == other.area.width,
                oh == other.area.height,
                y <= oh,
                forall|tx: int, ty: int|
                    old(self).in_bounds(tx, ty) ==> self.cell_at(tx, ty) == (if merge_source(
                        *old(self),
                        *other,
                        tx,
                        ty,
                    ) && ty - offset_y < y {
                        other.cell_at(tx - offset_x, ty - offset_y)
                    } else {
                        old(self).cell_at(tx, ty)
                    }),
            decreases oh - y,
        {
            let mut x: u16 = 0;
            while x < ow
                invariant
                    self.wf(),
                    self.area == old(self).area,
                    other.wf(),
                    offset_x == crate::layout::sat_sub16(other.area.x, old(self).area.x),
                    offset_y == crate::layout::sat_sub16(other.area.y, old(self).area.y),
                    ow == other.area.width,
                    oh == other.area.height,
                    y < oh,
                    x <= ow,
                    forall|tx: int, ty: int|
                        old(self).in_bounds(tx, ty) ==> self.cell_at(tx, ty) == (if merge_source(
                            *old(self),
                            *other,
                            tx,
                            ty,
                        ) && (ty - offset_y < y || (ty - offset_y == y && tx - offset_x < x)) {
                            other.cell_at(tx - offset_x, ty - offset_y)
                        } else {
                            old(self).cell_at(tx, ty)
                        }),
                decreases ow - x,
            {
                let txu: usize = (offset_x as usize) + (x as usize);
                let tyu: usize = (offset_y as usize) + (y as usize);
                if txu < self.area.width as usize && tyu < self.area.height as usize {
                    let sc = match other.index_of(x, y) {
                        Option::Some(si) => other.cell_copy(si),
                        Option::None => {
                            // unreachable: (x, y) lies in other's grid
                            proof {
                                assert(false);
                            }
                            Cell::default()
                        },
                    };
                    match self.index_of(txu as u16, tyu as u16) {
                        Option::Some(ti) => {
                            self.put(ti, sc);
                        },
                        Option::None => {
                            // unreachable: the target was just bounds-checked
                            proof {
                                assert(false);
                            }
                        },
                    }
                    proof {
                        assert forall|tx: int, ty: int|
                            old(self).in_bounds(tx, ty) implies self.cell_at(tx, ty) == (
                        if merge_source(*old(self), *other, tx, ty) && (ty - offset_y < y || (ty
                            - offset_y == y && tx - offset_x < x + 1)) {
                            other.cell_at(tx - offset_x, ty - offset_y)
                        } else {
                            old(self).cell_at(tx, ty)
                        }) by {
                            lemma_row_major_bound(
                                self.area.width as int,
                                self.area.height as int,
                                tx,
                                ty,
                            );
                            if tx == txu as int && ty == tyu as int {
                            } else if ty * self.area.width + tx == (tyu as int)
                                * self.area.width + txu as int {
                                lemma_row_major_inj(
                                    self.area.width as int,
                                    tx,
                                    ty,
                                    txu as int,
                                    tyu as int,
                                );
                            }
                        }
                    }
                } else {
                    proof {
                        assert forall|tx: int, ty: int|
                            old(self).in_bounds(tx, ty) implies self.cell_at(tx, ty) == (
                        if merge_source(*old(self), *other, tx, ty) && (ty - offset_y < y || (ty
                            - offset_y == y && tx - offset_x < x + 1)) {
                            other.cell_at(tx - offset_x, ty - offset_y)
                        } else {
                            old(self).cell_at(tx, ty)
                        }) by {}
                    }
                }
                x = x + 1;
            }
            y = y + 1;
        }
    }
}

/// Whether the cell of `b` at `(tx, ty)` is overwritten when `other` is
/// merged into `b`: the position, shifted back by the merge offset, must
/// be a cell of `other`.
pub open spec fn merge_source(b: Buffer, other: Buffer, tx: int, ty: int) -> bool {
    let ox = crate::layout::sat_sub16(other.area.x, b.area.x);
    let oy = crate::layout::sat_sub16(other.area.y, b.area.y);
    ox <= tx < ox + other.area.width && oy <= ty < oy + other.area.height
}

/// The grid after the continuation columns `from..to` of row `y` (those
/// inside the clip, which never exceeds the grid width) have their
/// glyphs cleared.
pub open spec fn blank_run(
    cells: Seq<CellData>,
    w: int,
    h: int,
    clip: int,
    y: int,
    from: int,
    to: int,
) -> Seq<CellData>
    decreases to - from,
{
    if from >= to {
        cells
    } else {
        let cells1 = if 0 <= y < h && 0 <= from < clip {
            cells.update(y * w + from, blanked(cells[y * w + from]))
        } else {
            cells
        };
        blank_run(cells1, w, h, clip, y, from + 1, to)
    }
}

/// The grid after one character is written at `(x, y)`: the glyph cell
/// (if the row is inside the grid), then the continuation columns the
/// character's width covers, all clipped at column `clip`.
pub open spec fn set_string_step(
    cells: Seq<CellData>,
    w: int,
    h: int,
    clip: int,
    x: int,
    y: int,
    c: char,
    style: Style,
) -> Seq<CellData> {
    let cells1 = if 0 <= y < h && 0 <= x < clip {
        cells.update(y * w + x, glyph_cell(cells[y * w + x], c, style))
    } else {
        cells
    };
    blank_run(cells1, w, h, clip, y, x + 1, x + eff_width(c))
}

/// Where the cursor stands after writing one character (the advance
/// saturates at the largest column number).
pub open spec fn next_cursor(x: int, c: char) -> int {
    if x + eff_width(c) > 0xFFFF {
        0xFFFF
    } else {
        x + eff_width(c)
    }
}

/// The columns one character's write touches: the glyph cell plus the
/// continuation cells inside the clip, or none when the row lies outside
/// the grid. (`x < clip` holds wherever a character is written.)
pub open spec fn cells_touched(x: int, clip: int, y: int, h: int, c: char) -> int {
    if 0 <= y < h {
        if x + eff_width(c) > clip {
            clip - x
        } else {
            eff_width(c) as int
        }
    } else {
        0int
    }
}

/// The grid and the touched-column count after a string is written at
/// `(x, y)`: characters are laid out left to right, each advancing the
/// cursor by its display width (at least one column), until the cursor
/// reaches the clip column. The count tallies cells touched, not
/// characters processed.
pub open spec fn set_string_spec(
    cells: Seq<CellData>,
    w: int,
    h: int,
    clip: int,
    x: int,
    y: int,
    s: Seq<char>,
    style: Style,
) -> (Seq<CellData>, int)
    decreases s.len(),
{
    if s.len() <= 0 || x >= clip {
        (cells, 0)
    } else {
        let c = s[0];
        let cells1 = set_string_step(cells, w, h, clip, x, y, c, style);
        let rec = set_string_spec(cells1, w, h, clip, next_cursor(x, c), y, s.drop_first(), style);
        (rec.0, cells_touched(x, clip, y, h, c) + rec.1)
    }
}

/// Clearing a run touches only row `y`, columns `from..to` inside the
/// clip; every other cell keeps its content, and the grid keeps its size.
pub proof fn lemma_blank_run_frame(
    cells: Seq<CellData>,
    w: int,
    h: int,
    clip: int,
    y: int,
    from: int,
    to: int,
)
    requires
        0 <= clip <= w,
        0 <= h,
        cells.len() == w * h,
    ensures
        blank_run(cells, w, h, clip, y, from, to).len() == cells.len(),
        forall|px: int, py: int|
            0 <= px < w && 0 <= py < h && (py != y || px < from || px >= to || px >= clip)
                ==> #[trigger] blank_run(cells, w, h, clip, y, from, to)[py * w + px] == cells[py
                * w + px],
    decreases to - from,
{
    if from >= to {
    } else {
        let cells1 = if 0 <= y < h && 0 <= from < clip {
            cells.update(y * w + from, blanked(cells[y * w + from]))
        } else {
            cells
        };
        if 0 <= y < h && 0 <= from < clip {
            lemma_row_major_bound(w, h, from, y);
        }
        lemma_blank_run_frame(cells1, w, h, clip, y, from + 1, to);
        assert forall|px: int, py: int|
            0 <= px < w && 0 <= py < h && (py != y || px < from || px >= to || px >= clip) implies
            #[trigger] blank_run(cells, w, h, clip, y, from, to)[py * w + px] == cells[py * w
            + px] by {
            lemma_row_major_bound(w, h, px, py);
            if 0 <= y < h && 0 <= from < clip {
                if py * w + px == y * w + from {
                    lemma_row_major_inj(w, px, py, from, y);
                }
            }
        }
    }
}

/// Writing one character touches only row `y`, columns `x` up to the
/// character's width inside the clip.
proof fn lemma_step_frame(
    cells: Seq<CellData>,
    w: int,
    h: int,
    clip: int,
    x: int,
    y: int,
    c: char,
    style: Style,
)
    requires
        0 <= clip <= w,
        0 <= h,
        cells.len() == w * h,
    ensures
        set_string_step(cells, w, h, clip, x, y, c, style).len() == cells.len(),
        forall|px: int, py: int|
            0 <= px < w && 0 <= py < h && (py != y || px < x || px >= x + eff_width(c) || px
                >= clip) ==> #[trigger] set_string_step(cells, w, h, clip, x, y, c, style)[py * w
                + px] == cells[py * w + px],
{
    let cells1 = if 0 <= y < h && 0 <= x < clip {
        cells.update(y * w + x, glyph_cell(cells[y * w + x], c, style))
    } else {
        cells
    };
    if 0 <= y < h && 0 <= x < clip {
        lemma_row_major_bound(w, h, x, y);
    }
    lemma_blank_run_frame(cells1, w, h, clip, y, x + 1, x + eff_width(c));
    assert forall|px: int, py: int|
        0 <= px < w && 0 <= py < h && (py != y || px < x || px >= x + eff_width(c) || px >= clip)
            implies #[trigger] set_string_step(cells, w, h, clip, x, y, c, style)[py * w + px]
        == cells[py * w + px] by {
        lemma_row_major_bound(w, h, px, py);
        if 0 <= y < h && 0 <= x < clip {
            if py * w + px == y * w + x {
                lemma_row_major_inj(w, px, py, x, y);
            }
        }
    }
}

/// Writing a string touches only row `y`, from column `x` up to the clip
/// column; every other cell keeps its content.
pub proof fn lemma_set_string_frame(
    cells: Seq<CellData>,
    w: int,
    h: int,
    clip: int,
    x: int,
    y: int,
    s: Seq<char>,
    style: Style,
)
    requires
        0 <= clip <= w <= 0xFFFF,
        0 <= h,
        cells.len() == w * h,
    ensures
        set_string_spec(cells, w, h, clip, x, y, s, style).0.len() == cells.len(),
        forall|px: int, py: int|
            0 <= px < w && 0 <= py < h && (py != y || px < x || px >= clip)
                ==> #[trigger] set_string_spec(cells, w, h, clip, x, y, s, style).0[py * w + px]
                == cells[py * w + px],
    decreases s.len(),
{
    if s.len() <= 0 || x >= clip {
    } else {
        let c = s[0];
        let cells1 = set_string_step(cells, w, h, clip, x, y, c, style);
        lemma_step_frame(cells, w, h, clip, x, y, c, style);
        lemma_set_string_frame(cells1, w, h, clip, next_cursor(x, c), y, s.drop_first(), style);
        assert(next_cursor(x, c) > x);
        assert forall|px: int, py: int|
            0 <= px < w && 0 <= py < h && (py != y || px < x || px >= clip) implies #[trigger]
        set_string_spec(cells, w, h, clip, x, y, s, style).0[py * w + px] == cells[py * w
            + px] by {
            assert(set_string_spec(cells, w, h, clip, x, y, s, style).0 == set_string_spec(
                cells1,
                w,
                h,
                clip,
                next_cursor(x, c),
                y,
                s.drop_first(),
                style,
            ).0);
            assert(set_string_spec(
                cells1,
                w,
                h,
                clip,
                next_cursor(x, c),
                y,
                s.drop_first(),
                style,
            ).0[py * w + px] == cells1[py * w + px]);
            assert(cells1[py * w + px] == cells[py * w + px]);
        }
    }
}

/// The positions, in row-major scan order, at which the first `k` storage
/// slots of two same-sized buffers differ.
pub open spec fn diff_upto(a: Buffer, b: Buffer, k: int) -> Seq<(int, int)>
    decreases k,
{
    if k <= 0 {
        Seq::empty()
    } else {
        let w = a.area.width as int;
        let i = k - 1;
        let prev = diff_upto(a, b, i);
        if a.cells()[i] != b.cells()[i] {
            prev.push((i % w, i / w))
        } else {
            prev
        }
    }
}

/// Every position at which two same-sized buffers differ, in row-major
/// scan order.
pub open spec fn diff_positions(a: Buffer, b: Buffer) -> Seq<(int, int)> {
    diff_upto(a, b, a.area.width * a.area.height)
}

/// A storage index is recovered from its column and row.
proof fn lemma_index_from_coords(w: int, i: int, x: int, y: int)
    requires
        w > 0,
        0 <= i,
        i % w == x,
        i / w == y,
    ensures
        i == y * w + x,
{
    assert(i == (i / w) * w + (i % w)) by (nonlinear_arith)
        requires
            w > 0,
            0 <= i,
    ;
}

/// Membership in the difference list is exactly "the cells differ here".
proof fn lemma_diff_upto_member(a: Buffer, b: Buffer, k: int, x: int, y: int)
    requires
        a.wf(),
        b.wf(),
        a.area == b.area,
        a.in_bounds(x, y),
        0 <= k <= a.cells().len(),
    ensures
        diff_upto(a, b, k).contains((x, y)) <==> (y * a.area.width + x < k && a.cells()[y
            * a.area.width + x] != b.cells()[y * a.area.width + x]),
    decreases k,
{
    let w = a.area.width as int;
    let idx = y * w + x;
    lemma_row_major_bound(w, a.area.height as int, x, y);
    if k <= 0 {
        assert(!diff_upto(a, b, k).contains((x, y)));
    } else {
        let i = k - 1;
        lemma_diff_upto_member(a, b, i, x, y);
        let prev = diff_upto(a, b, i);
        if a.cells()[i] != b.cells()[i] {
            let coord = (i % w, i / w);
            assert(diff_upto(a, b, k) == prev.push(coord));
            if i == idx {
                lemma_row_major_divmod(w, x, y);
                assert(coord == (x, y));
                assert(diff_upto(a, b, k)[diff_upto(a, b, k).len() - 1] == coord);
                assert(diff_upto(a, b, k).contains((x, y)));
            } else {
                assert(coord != (x, y)) by {
                    if coord == (x, y) {
                        lemma_index_from_coords(w, i, x, y);
                    }
                }
                assert(diff_upto(a, b, k).contains((x, y)) <==> prev.contains((x, y))) by {
                    if prev.contains((x, y)) {
                        let j = choose|j: int|
                            0 <= j < prev.len() && prev[j] == (x, y);
                        assert(prev.push(coord)[j] == (x, y));
                    }
                    if prev.push(coord).contains((x, y)) {
                        let j = choose|j: int|
                            0 <= j < prev.push(coord).len() && prev.push(coord)[j] == (x, y);
                        assert(j < prev.len());
                        assert(prev[j] == (x, y));
                    }
                }
            }
        } else {
            assert(diff_upto(a, b, k) == prev);
        }
    }
}

/// Diff completeness: over equal areas, the difference list holds a
/// position exactly when the two buffers' cells at that position differ.
pub proof fn lemma_diff_complete(a: Buffer, b: Buffer, x: int, y: int)
    requires
        a.wf(),
        b.wf(),
        a.area == b.area,
        a.in_bounds(x, y),
    ensures
        diff_positions(a, b).contains((x, y)) <==> a.cell_at(x, y) != b.cell_at(x, y),
{
    lemma_row_major_bound(a.area.width as int, a.area.height as int, x, y);
    lemma_diff_upto_member(a, b, (a.area.width * a.area.height) as int, x, y);
}

proof fn lemma_diff_upto_empty(a: Buffer, k: int)
    requires
        a.wf(),
        0 <= k <= a.cells().len(),
    ensures
        diff_upto(a, a, k).len() == 0,
    decreases k,
{
    if k > 0 {
        lemma_diff_upto_empty(a, k - 1);
    }
}

/// Diff identity: a buffer never differs from itself.
pub proof fn lemma_diff_identity(b: Buffer)
    requires
        b.wf(),
    ensures
        diff_positions(b, b).len() == 0,
{
    lemma_diff_upto_empty(b, (b.area.width * b.area.height) as int);
}

/// Entries of the difference list sit at strictly increasing storage
/// indices, so no position is reported twice.
proof fn lemma_diff_upto_ordered(a: Buffer, b: Buffer, k: int)
    requires
        a.wf(),
        b.wf(),
        a.area == b.area,
        a.area.width > 0,
        0 <= k <= a.cells().len(),
    ensures
        forall|j: int|
            0 <= j < diff_upto(a, b, k).len() ==> {
                let e = #[trigger] diff_upto(a, b, k)[j];
                0 <= e.1 * a.area.width + e.0 < k && 0 <= e.0 < a.area.width
            },
        forall|j1: int, j2: int|
            0 <= j1 < j2 < diff_upto(a, b, k).len() ==> #[trigger] diff_upto(a, b, k)[j1].1
                * a.area.width + diff_upto(a, b, k)[j1].0 < #[trigger] diff_upto(a, b, k)[j2].1
                * a.area.width + diff_upto(a, b, k)[j2].0,
    decreases k,
{
    let w = a.area.width as int;
    if k > 0 {
        lemma_diff_upto_ordered(a, b, k - 1);
        let i = k - 1;
        let prev = diff_upto(a, b, i);
        let d = diff_upto(a, b, k);
        if a.cells()[i] != b.cells()[i] {
            let coord = (i % w, i / w);
            assert(0 <= coord.0 < w && 0 <= coord.1) by (nonlinear_arith)
                requires
                    w > 0,
                    0 <= i,
                    coord.0 == i % w,
                    coord.1 == i / w,
            ;
            lemma_index_from_coords(w, i, coord.0, coord.1);
            assert(d == prev.push(coord));
            assert forall|j: int| 0 <= j < d.len() implies {
                let e = #[trigger] d[j];
                0 <= e.1 * a.area.width + e.0 < k && 0 <= e.0 < a.area.width
            } by {
                if j < prev.len() {
                    assert(d[j] == prev[j]);
                } else {
                    assert(d[j] == coord);
                }
            }
            assert forall|j1: int, j2: int| 0 <= j1 < j2 < d.len() implies #[trigger] d[j1].1
                * a.area.width + d[j1].0 < #[trigger] d[j2].1 * a.area.width + d[j2].0 by {
                assert(d[j1] == prev[j1]);
                if j2 < prev.len() {
                    assert(d[j2] == prev[j2]);
                } else {
                    assert(d[j2] == coord);
                    assert(prev[j1].1 * a.area.width + prev[j1].0 < i);
                }
            }
        } else {
            assert(d == prev);
        }
    }
}

/// No position appears twice in the difference list.
pub proof fn lemma_diff_positions_distinct(a: Buffer, b: Buffer)
    requires
        a.wf(),
        b.wf(),
        a.area == b.area,
        a.area.width > 0,
    ensures
        forall|j1: int, j2: int|
            0 <= j1 < j2 < diff_positions(a, b).len() ==> #[trigger] diff_positions(a, b)[j1]
                != #[trigger] diff_positions(a, b)[j2],
{
    lemma_diff_upto_ordered(a, b, (a.area.width * a.area.height) as int);
    assert forall|j1: int, j2: int|
        0 <= j1 < j2 < diff_positions(a, b).len() implies #[trigger] diff_positions(a, b)[j1]
        != #[trigger] diff_positions(a, b)[j2] by {
        let e1 = diff_positions(a, b)[j1];
        let e2 = diff_positions(a, b)[j2];
        assert(e1.1 * a.area.width + e1.0 < e2.1 * a.area.width + e2.0);
    }
}

impl Buffer {
    /// Writes `string` at `(x, y)`: characters go left to right, each
    /// advancing the cursor by its display width (at least one column);
    /// continuation columns of wide glyphs are cleared; writing stops at
    /// the right edge. Returns the number of columns actually written
    /// (cells touched, not characters processed).
    pub fn set_string(&mut self, x: u16, y: u16, string: &str, style: Style) -> (written: usize)
        requires
            old(self).wf(),
        ensures
            final(self).area == old(self).area,
            final(self).wf(),
            final(self).cells() == set_string_spec(
                old(self).cells(),
                old(self).area.width as int,
                old(self).area.height as int,
                old(self).area.width as int,
                x as int,
                y as int,
                string@,
                style,
            ).0,
            written == set_string_spec(
                old(self).cells(),
                old(self).area.width as int,
                old(self).area.height as int,
                old(self).area.width as int,
                x as int,
                y as int,
                string@,
                style,
            ).1,
    {
        let clip = self.area.width;
        self.write_string(x, y, string, style, clip)
    }

    /// Writes `string` at `(x, y)` as [`Buffer::set_string`] does, but
    /// stops at column `right_limit` instead of the buffer's right edge
    /// (whichever comes first), so nothing right of the limit is touched.
    pub fn set_string_within(
        &mut self,
        x: u16,
        y: u16,
        string: &str,
        style: Style,
        right_limit: u16,
    ) -> (written: usize)
        requires
            old(self).wf(),
        ensures
            final(self).area == old(self).area,
            final(self).wf(),
            final(self).cells() == set_string_spec(
                old(self).cells(),
                old(self).area.width as int,
                old(self).area.height as int,
                (if right_limit < old(self).area.width {
                    right_limit
                } else {
                    old(self).area.width
                }) as int,
                x as int,
                y as int,
                string@,
                style,
            ).0,
            written == set_string_spec(
                old(self).cells(),
                old(self).area.width as int,
                old(self).area.height as int,
                (if right_limit < old(self).area.width {
                    right_limit
                } else {
                    old(self).area.width
                }) as int,
                x as int,
                y as int,
                string@,
                style,
            ).1,
    {
        let clip = if right_limit < self.area.width {
            right_limit
        } else {
            self.area.width
        };
        self.write_string(x, y, string, style, clip)
    }

    /// The writer behind `set_string` and `set_string_within`: writes up
    /// to the clip column and counts the cells it touches.
    fn write_string(&mut self, x: u16, y: u16, string: &str, style: Style, clip: u16) -> (written:
        usize)
        requires
            old(self).wf(),
            clip <= old(self).area.width,
        ensures
            final(self).area == old(self).area,
            final(self).wf(),
            final(self).cells() == set_string_spec(
                old(self).cells(),
                old(self).area.width as int,
                old(self).area.height as int,
                clip as int,
                x as int,
                y as int,
                string@,
                style,
            ).0,
            written == set_string_spec(
                old(self).cells(),
                old(self).area.width as int,
                old(self).area.height as int,
                clip as int,
                x as int,
                y as int,
                string@,
                style,
            ).1,
    {
        let w = self.area.width;
        let h = self.area.height;
        let ghost target = set_string_spec(
            old(self).cells(),
            w as int,
            h as int,
            clip as int,
            x as int,
            y as int,
            string@,
            style,
        );
        let mut written: usize = 0;
        let mut current_x: u16 = x;
        let mut it = string.chars();
        loop
            invariant_except_break
                self.wf(),
                self.area == old(self).area,
                w == self.area.width,
                h == self.area.height,
                clip <= w,
                x <= current_x <= 0xFFFF,
                written <= current_x - x,
                target == set_string_spec(
                    old(self).cells(),
                    w as int,
                    h as int,
                    clip as int,
                    x as int,
                    y as int,
                    string@,
                    style,
                ),
                set_string_spec(
                    self.cells(),
                    w as int,
                    h as int,
                    clip as int,
                    current_x as int,
                    y as int,
                    it.remaining(),
                    style,
                ) == (target.0, target.1 - written),
                it.decrease() is Some,
            ensures
                self.wf(),
                self.area == old(self).area,
                self.cells() == target.0,
                written == target.1,
            decreases it.decrease().unwrap(),
        {
            let ghost rem_pre = it.remaining();
            match it.next() {
                Option::None => {
                    proof {
                        assert(rem_pre.len() == 0);
                    }
                    break ;
                },
                Option::Some(grapheme) => {
                    if current_x >= clip {
                        break ;
                    }
                    proof {
                        assert(rem_pre.len() > 0);
                        assert(rem_pre[0] == grapheme);
                        assert(it.remaining() == rem_pre.drop_first());
                    }
                    let ghost pre_cells = self.cells();
                    let ghost written_before = written as int;
                    let adv = crate::width::char_advance(grapheme);

                    // Write the glyph cell (only the column was checked;
                    // the row may lie outside the grid).
                    match self.index_of(current_x, y) {
                        Option::Some(i) => {
                            let mut nc = self.cell_copy(i);
                            nc.set_style(style);
                            nc.symbol = char_to_string(grapheme);
                            self.put(i, nc);
                            written = written + 1;
                        },
                        Option::None => {},
                    }
                    let ghost after_glyph = self.cells();
                    proof {
                        assert(after_glyph == (if 0 <= y < h {
                            pre_cells.update(
                                (y as int) * (w as int) + current_x as int,
                                glyph_cell(
                                    pre_cells[(y as int) * (w as int) + current_x as int],
                                    grapheme,
                                    style,
                                ),
                            )
                        } else {
                            pre_cells
                        }));
                    }

                    // Clear the continuation columns the glyph covers,
                    // counting each cell inside the clip.
                    let mut off: usize = 1;
                    while off < adv
                        invariant
                            self.wf(),
                            self.area == old(self).area,
                            w == self.area.width,
                            h == self.area.height,
                            clip <= w,
                            current_x < clip,
                            1 <= off <= adv,
                            written_before <= 0xFFFF,
                            written <= written_before + off,
                            adv == eff_width(grapheme),
                            adv <= 3,
                            written == written_before + (if 0 <= (y as int) < h as int {
                                1 + (if current_x as int + off > clip as int {
                                    clip as int - current_x as int - 1
                                } else {
                                    off - 1
                                })
                            } else {
                                0int
                            }),
                            blank_run(
                                self.cells(),
                                w as int,
                                h as int,
                                clip as int,
                                y as int,
                                current_x as int + off,
                                current_x as int + adv,
                            ) == blank_run(
                                after_glyph,
                                w as int,
                                h as int,
                                clip as int,
                                y as int,
                                current_x as int + 1,
                                current_x as int + adv,
                            ),
                        decreases adv - off,
                    {
                        let ghost step_pre = self.cells();
                        let pos: usize = (current_x as usize) + off;
                        if pos < clip as usize && y < h {
                            match self.index_of(pos as u16, y) {
                                Option::Some(bi) => {
                                    let mut bc = self.cell_copy(bi);
                                    bc.symbol = String::new();
                                    self.put(bi, bc);
                                    written = written + 1;
                                },
                                Option::None => {
                                    // unreachable: the position is inside the clip
                                    proof {
                                        assert(false);
                                    }
                                },
                            }
                        }
                        proof {
                            assert(self.cells() == (if 0 <= y < h && 0 <= current_x as int + off
                                < clip {
                                step_pre.update(
                                    (y as int) * (w as int) + current_x as int + off,
                                    blanked(
                                        step_pre[(y as int) * (w as int) + current_x as int
                                            + off],
                                    ),
                                )
                            } else {
                                step_pre
                            }));
                        }
                        off = off + 1;
                    }
                    proof {
                        assert(self.cells() == set_string_step(
                            pre_cells,
                            w as int,
                            h as int,
                            clip as int,
                            current_x as int,
                            y as int,
                            grapheme,
                            style,
                        ));
                        assert(written == written_before + cells_touched(
                            current_x as int,
                            clip as int,
                            y as int,
                            h as int,
                            grapheme,
                        ));
                    }

                    // Advance the cursor by the glyph's width, saturating.
                    let nx: usize = (current_x as usize) + adv;
                    current_x = if nx > 0xFFFF {
                        0xFFFF
                    } else {
                        nx as u16
                    };
                },
            }
        }
        proof {
            assert(written == target.1);
        }
        written
    }

    /// Computes the cells an output backend must rewrite to turn this
    /// buffer's picture into `other`'s: with equal areas, exactly the
    /// cells whose content differs, in row-major order, each carrying
    /// `other`'s cell; with different areas, every cell of `other`.
    pub fn diff<'a>(&self, other: &'a Buffer) -> (r: Vec<(u16, u16, &'a Cell)>)
        requires
            self.wf(),
            other.wf(),
        ensures
            self.area != other.area ==> r@.len() == other.area.width * other.area.height
                && (forall|j: int|
                0 <= j < r@.len() ==> (#[trigger] r@[j]).0 == j % (other.area.width as int)
                    && r@[j].1 == j / (other.area.width as int) && r@[j].2@ == other.cells()[j]),
            self.area == other.area ==> r@.len() == diff_positions(*self, *other).len() && (
            forall|j: int|
                0 <= j < r@.len() ==> (#[trigger] r@[j]).0 == diff_positions(*self, *other)[j].0
                    && r@[j].1 == diff_positions(*self, *other)[j].1 && r@[j].2@
                    == other.cell_at(
                    diff_positions(*self, *other)[j].0,
                    diff_positions(*self, *other)[j].1,
                )),
    {
        let mut updates: Vec<(u16, u16, &'a Cell)> = Vec::new();

        if !(self.area == other.area) {
            // Different areas: fall back to a full redraw of `other`.
            let ow = other.area.width;
            let oh = other.area.height;
            let mut y: u16 = 0;
            while y < oh
                invariant
                    other.wf(),
                    ow == other.area.width,
                    oh == other.area.height,
                    y <= oh,
                    updates@.len() == y * ow,
                    forall|j: int|
                        0 <= j < updates@.len() ==> (#[trigger] updates@[j]).0 == j % (
                        ow as int) && updates@[j].1 == j / (ow as int) && updates@[j].2@
                            == other.cells()[j],
                decreases oh - y,
            {
                let mut x: u16 = 0;
                while x < ow
                    invariant
                        other.wf(),
                        ow == other.area.width,
                        oh == other.area.height,
                        y < oh,
                        x <= ow,
                        updates@.len() == y * ow + x,
                        forall|j: int|
                            0 <= j < updates@.len() ==> (#[trigger] updates@[j]).0 == j % (
                            ow as int) && updates@[j].1 == j / (ow as int) && updates@[j].2@
                                == other.cells()[j],
                    decreases ow - x,
                {
                    proof {
                        lemma_row_major_bound(ow as int, oh as int, x as int, y as int);
                        lemma_row_major_divmod(ow as int, x as int, y as int);
                    }
                    match other.get(x, y) {
                        Option::Some(cell) => {
                            updates.push((x, y, cell));
                        },
                        Option::None => {
                            // unreachable: (x, y) lies in other's grid
                            proof {
                                assert(false);
                            }
                        },
                    }
                    x = x + 1;
                }
                proof {
                    assert((y as int + 1) * (ow as int) == (y as int) * (ow as int) + ow as int)
                        by (nonlinear_arith);
                }
                y = y + 1;
            }
            proof {
                assert(updates@.len() == (oh as int) * (ow as int));
                assert((oh as int) * (ow as int) == (ow as int) * (oh as int))
                    by (nonlinear_arith);
            }
            return updates;
        }

        // Equal areas: report exactly the differing cells in scan order.
        let w = self.area.width;
        let h = self.area.height;
        let mut y: u16 = 0;
        while y < h
            invariant
                self.wf(),
                other.wf(),
                self.area == other.area,
                w == self.area.width,
                h == self.area.height,
                y <= h,
                updates@.len() == diff_upto(*self, *other, (y as int) * (w as int)).len(),
                forall|j: int|
                    0 <= j < updates@.len() ==> {
                        let d = diff_upto(*self, *other, (y as int) * (w as int));
                        (#[trigger] updates@[j]).0 == d[j].0 && updates@[j].1 == d[j].1
                            && updates@[j].2@ == other.cell_at(d[j].0, d[j].1)
                    },
            decreases h - y,
        {
            let mut x: u16 = 0;
            while x < w
                invariant
                    self.wf(),
                    other.wf(),
                    self.area == other.area,
                    w == self.area.width,
                    h == self.area.height,
                    y < h,
                    x <= w,
                    updates@.len() == diff_upto(
                        *self,
                        *other,
                        (y as int) * (w as int) + x as int,
                    ).len(),
                    forall|j: int|
                        0 <= j < updates@.len() ==> {
                            let d = diff_upto(*self, *other, (y as int) * (w as int) + x as int);
                            (#[trigger] updates@[j]).0 == d[j].0 && updates@[j].1 == d[j].1
                                && updates@[j].2@ == other.cell_at(d[j].0, d[j].1)
                        },
                decreases w - x,
            {
                proof {
                    lemma_row_major_bound(w as int, h as int, x as int, y as int);
                    lemma_row_major_divmod(w as int, x as int, y as int);
                }
                let ghost k = (y as int) * (w as int) + x as int;
                let sc = match self.get(x, y) {
                    Option::Some(c) => c,
                    Option::None => {
                        proof {
                            assert(false);
                        }
                        return updates;
                    },
                };
                let oc = match other.get(x, y) {
                    Option::Some(c) => c,
                    Option::None => {
                        proof {
                            assert(false);
                        }
                        return updates;
                    },
                };
                let ghost pre = updates@;
                if !(sc == oc) {
                    updates.push((x, y, oc));
                }
                proof {
                    let d1 = diff_upto(*self, *other, k + 1);
                    let d0 = diff_upto(*self, *other, k);
                    assert(d1 == if self.cells()[k] != other.cells()[k] {
                        d0.push((k % (w as int), k / (w as int)))
                    } else {
                        d0
                    });
                    assert forall|j: int| 0 <= j < updates@.len() implies {
                        let d = d1;
                        (#[trigger] updates@[j]).0 == d[j].0 && updates@[j].1 == d[j].1
                            && updates@[j].2@ == other.cell_at(d[j].0, d[j].1)
                    } by {
                        if j < pre.len() {
                            assert(updates@[j] == pre[j]);
                            assert(d1[j] == d0[j]);
                        }
                    }
                }
                x = x + 1;
            }
            proof {
                assert((y as int + 1) * (w as int) == (y as int) * (w as int) + w as int)
                    by (nonlinear_arith);
            }
            y = y + 1;
        }
        proof {
            assert((h as int) * (w as int) == (w as int) * (h as int)) by (nonlinear_arith);
        }
        updates
    }
}

} // verus!
