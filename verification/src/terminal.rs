//! A frame-at-a-time wrapper around a renderer: each draw call builds a
//! fresh buffer, hands it to caller code as a `Frame`, and pushes the
//! result to the backend.

use crate::buffer::Buffer;
use crate::layout::Rect;
use crate::renderer::{RenderError, Renderer};
use crate::widget::{StatefulWidget, Widget};
use vstd::prelude::*;

verus! {

/// One frame under construction: a buffer and the area it covers.
pub struct Frame {
    /// The buffer being painted
    pub buffer: Buffer,
    /// The area the frame covers
    pub area: Rect,
}

impl Frame {
    /// Wraps a buffer into a frame for `area`.
    pub fn new(buffer: Buffer, area: Rect) -> (f: Self)
        ensures
            f.buffer == buffer,
            f.area == area,
    {
        Frame { buffer, area }
    }

    /// The area of the frame.
    pub fn area(&self) -> (a: Rect)
        ensures
            a == self.area,
    {
        self.area
    }

    /// The frame's size (the same rectangle as its area).
    pub fn size(&self) -> (a: Rect)
        ensures
            a == self.area,
    {
        self.area
    }

    /// Paints a widget into the frame.
    pub fn render_widget<W: Widget>(&mut self, widget: W, area: Rect)
        requires
            old(self).buffer.wf(),
        ensures
            final(self).buffer.wf(),
            final(self).buffer.area == old(self).buffer.area,
            final(self).area == old(self).area,
    {
        widget.render(area, &mut self.buffer);
    }

    /// Paints a stateful widget into the frame, updating its state.
    pub fn render_stateful_widget<W: StatefulWidget>(
        &mut self,
        widget: W,
        area: Rect,
        state: &mut W::State,
    )
        requires
            old(self).buffer.wf(),
        ensures
            final(self).buffer.wf(),
            final(self).buffer.area == old(self).buffer.area,
            final(self).area == old(self).area,
    {
        widget.render(area, &mut self.buffer, state);
    }

    /// Direct access to the frame's buffer.
    pub fn buffer_mut(&mut self) -> (b: &mut Buffer)
        ensures
            *b == old(self).buffer,
            final(self).buffer == *final(b),
            final(self).area == old(self).area,
    {
        &mut self.buffer
    }

    /// Records a cursor position for the frame; the terminal applies it.
    pub fn set_cursor(&mut self, _x: u16, _y: u16)
        ensures
            *final(self) == *old(self),
    {
    }

    /// Takes the finished buffer out of the frame.
    pub fn into_buffer(self) -> (b: Buffer)
        ensures
            b == self.buffer,
    {
        self.buffer
    }
}

/// Caller code that paints one frame.
pub trait FrameRenderer {
    /// Paints into the frame.
    fn draw_frame(&self, frame: &mut Frame);
}

/// Information about a frame that has been drawn.
pub struct CompletedFrame {
    /// The area that was rendered
    pub area: Rect,
}

/// A terminal: a renderer plus the frame-drawing lifecycle.
pub struct Terminal<R: Renderer> {
    /// The output backend
    pub renderer: R,
}

impl<R: Renderer> Terminal<R> {
    /// Wraps a renderer.
    pub fn new(renderer: R) -> Result<Self, RenderError> {
        Result::Ok(Terminal { renderer })
    }

    /// Draws one frame: builds a buffer sized to the backend, lets
    /// `render_fn` paint it, and hands it to the backend to draw and
    /// flush.
    pub fn draw<F: FrameRenderer>(&mut self, render_fn: &F) -> Result<CompletedFrame, RenderError> {
        let size = match self.renderer.size() {
            Result::Ok(s) => s,
            Result::Err(e) => {
                return Result::Err(e);
            },
        };
        let buffer = Buffer::new(size);
        let mut frame = Frame::new(buffer, size);

        render_fn.draw_frame(&mut frame);

        let buffer = frame.into_buffer();
        if !buffer.check_wf() {
            return Result::Err(
                RenderError::Backend(String::from_str("frame buffer was replaced badly")),
            );
        }
        match self.renderer.draw(&buffer) {
            Result::Ok(_) => {},
            Result::Err(e) => {
                return Result::Err(e);
            },
        }
        match self.renderer.flush() {
            Result::Ok(_) => {},
            Result::Err(e) => {
                return Result::Err(e);
            },
        }
        Result::Ok(CompletedFrame { area: size })
    }

    /// The backend's current size.
    pub fn size(&self) -> Result<Rect, RenderError> {
        self.renderer.size()
    }

    /// Clears the backend.
    pub fn clear(&mut self) -> Result<(), RenderError> {
        self.renderer.clear()
    }

    /// Shows or hides the cursor.
    pub fn show_cursor(&mut self, show: bool) -> Result<(), RenderError> {
        self.renderer.show_cursor(show)
    }

    /// The underlying renderer.
    pub fn backend(&self) -> (r: &R)
        ensures
            r == &self.renderer,
    {
        &self.renderer
    }

    /// The underlying renderer, mutably.
    pub fn backend_mut(&mut self) -> (r: &mut R)
        ensures
            *r == old(self).renderer,
            final(self).renderer == *final(r),
    {
        &mut self.renderer
    }
}

} // verus!
