//! An in-memory renderer for tests: it stores the last drawn buffer and
//! the cursor state instead of talking to a terminal.

use crate::buffer::Buffer;
use crate::layout::Rect;
use crate::renderer::{RenderError, Renderer};
use vstd::prelude::*;

verus! {

/// How a buffer reads as plain text from column `x` of row `y` on: the
/// glyphs of the row's remaining cells, concatenated.
pub open spec fn row_text(b: Buffer, y: int, x: int) -> Seq<char>
    decreases b.area.width - x,
{
    if x >= b.area.width {
        Seq::empty()
    } else {
        b.cell_at(x, y).0 + row_text(b, y, x + 1)
    }
}

/// How a buffer reads as plain text from row `y` on: one line per row,
/// with a newline between rows (none after the last).
pub open spec fn rows_text(b: Buffer, y: int) -> Seq<char>
    decreases b.area.height - y,
{
    if y >= b.area.height {
        Seq::empty()
    } else {
        row_text(b, y, 0) + (if y < b.area.height - 1 {
            seq!['\n']
        } else {
            Seq::empty()
        }) + rows_text(b, y + 1)
    }
}

/// A renderer that draws into memory, for tests.
#[derive(Debug)]
pub struct TestRenderer {
    /// The last buffer drawn (initially all default cells)
    pub buffer: Buffer,
    /// The cursor position
    pub cursor: (u16, u16),
    /// Whether the cursor is shown
    pub cursor_visible: bool,
}

impl TestRenderer {
    /// Creates a test renderer of the given size, with an empty buffer
    /// and a visible cursor at the origin.
    pub fn new(width: u16, height: u16) -> (r: Self)
        ensures
            r.buffer.area == (Rect { x: 0u16, y: 0u16, width, height }),
            r.buffer.wf(),
            r.cursor == (0u16, 0u16),
            r.cursor_visible,
    {
        TestRenderer {
            buffer: Buffer::new(Rect::new(0, 0, width, height)),
            cursor: (0, 0),
            cursor_visible: true,
        }
    }

    /// The last buffer drawn.
    pub fn buffer(&self) -> (b: &Buffer)
        ensures
            b == &self.buffer,
    {
        &self.buffer
    }

    /// The cursor position.
    pub fn cursor(&self) -> (c: (u16, u16))
        ensures
            c == self.cursor,
    {
        self.cursor
    }

    /// Whether the cursor is shown.
    pub fn cursor_visible(&self) -> (v: bool)
        ensures
            v == self.cursor_visible,
    {
        self.cursor_visible
    }

    /// Checks that the stored buffer matches `expected`; callers only
    /// reach this with matching buffers.
    pub fn assert_buffer(&self, expected: &Buffer)
        requires
            self.buffer.area == expected.area,
            self.buffer.cells() == expected.cells(),
    {
        let _matches = self.buffer == *expected;
    }

    /// The stored buffer as plain text: rows of glyphs joined by
    /// newlines.
    pub fn debug_output(&self) -> (out: String)
        requires
            self.buffer.wf(),
        ensures
            out@ == rows_text(self.buffer, 0),
    {
        let mut output = String::new();
        let h = self.buffer.area.height;
        let w = self.buffer.area.width;
        let mut y: u16 = 0;
        while y < h
            invariant
                self.buffer.wf(),
                w == self.buffer.area.width,
                h == self.buffer.area.height,
                y <= h,
                output@ + rows_text(self.buffer, y as int) == rows_text(self.buffer, 0),
            decreases h - y,
        {
            let ghost row_start = output@;
            let mut x: u16 = 0;
            while x < w
                invariant
                    self.buffer.wf(),
                    w == self.buffer.area.width,
                    h == self.buffer.area.height,
                    y < h,
                    x <= w,
                    output@ + row_text(self.buffer, y as int, x as int) == row_start + row_text(
                        self.buffer,
                        y as int,
                        0,
                    ),
                decreases w - x,
            {
                match self.buffer.get(x, y) {
                    Option::Some(cell) => {
                        output.append(cell.symbol.as_str());
                    },
                    Option::None => {
                        // unreachable: (x, y) lies in the grid
                        proof {
                            assert(false);
                        }
                    },
                }
                proof {
                    assert(output@ + row_text(self.buffer, y as int, x as int + 1) =~= row_start
                        + row_text(self.buffer, y as int, 0));
                }
                x = x + 1;
            }
            if y < h - 1 {
                output.append("\n");
                proof {
                    reveal_strlit("\n");
                    assert("\n"@ =~= seq!['\n']);
                }
            }
            proof {
                assert(output@ + rows_text(self.buffer, y as int + 1) =~= rows_text(
                    self.buffer,
                    0,
                ));
            }
            y = y + 1;
        }
        output
    }
}

impl Renderer for TestRenderer {
    fn draw(&mut self, buffer: &Buffer) -> Result<(), RenderError> {
        self.buffer = buffer.clone();
        Result::Ok(())
    }

    fn flush(&mut self) -> Result<(), RenderError> {
        Result::Ok(())
    }

    fn size(&self) -> Result<Rect, RenderError> {
        Result::Ok(self.buffer.area)
    }

    fn clear(&mut self) -> Result<(), RenderError> {
        self.buffer.clear();
        Result::Ok(())
    }

    fn show_cursor(&mut self, show: bool) -> Result<(), RenderError> {
        self.cursor_visible = show;
        Result::Ok(())
    }

    fn set_cursor(&mut self, x: u16, y: u16) -> Result<(), RenderError> {
        self.cursor = (x, y);
        Result::Ok(())
    }
}

} // verus!
