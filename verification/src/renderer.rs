//! The output-backend boundary: a rendering error type and the capability
//! surface the engine drives each frame.

use crate::buffer::Buffer;
use crate::layout::Rect;
use vstd::prelude::*;

verus! {

/// An error from a rendering backend.
#[derive(Debug, Clone)]
pub enum RenderError {
    /// An I/O failure, carried as its message
    Io(String),
    /// A backend-specific failure
    Backend(String),
    /// A drawn buffer did not match the terminal's size
    SizeMismatch {
        /// The size the backend expected
        expected: Rect,
        /// The size it was given
        actual: Rect,
    },
}

impl RenderError {
    /// A short description of the error.
    pub fn message(&self) -> (r: String)
        ensures
            match self {
                RenderError::Io(m) => r@ == "IO error: "@ + m@,
                RenderError::Backend(m) => r@ == "Backend error: "@ + m@,
                RenderError::SizeMismatch { .. } => r@ == "Size mismatch"@,
            },
    {
        match self {
            RenderError::Io(m) => {
                let mut s = String::from_str("IO error: ");
                s.append(m.as_str());
                s
            },
            RenderError::Backend(m) => {
                let mut s = String::from_str("Backend error: ");
                s.append(m.as_str());
                s
            },
            RenderError::SizeMismatch { .. } => String::from_str("Size mismatch"),
        }
    }
}

/// A renderer that can put a finished buffer onto an output device.
///
/// The engine is generic over this trait, so the same logic drives a real
/// terminal and an in-memory test double. Nothing is promised of the
/// results: each backend decides for itself when an operation fails.
pub trait Renderer: Send {
    /// Draws a buffer to the output device.
    fn draw(&mut self, buffer: &Buffer) -> Result<(), RenderError>
        requires
            buffer.wf(),
    ;

    /// Flushes any buffered output.
    fn flush(&mut self) -> Result<(), RenderError>;

    /// The current size of the output device.
    fn size(&self) -> Result<Rect, RenderError>;

    /// Clears the whole output device.
    fn clear(&mut self) -> Result<(), RenderError>;

    /// Shows or hides the cursor.
    fn show_cursor(&mut self, show: bool) -> Result<(), RenderError>;

    /// Moves the cursor.
    fn set_cursor(&mut self, x: u16, y: u16) -> Result<(), RenderError>;
}

} // verus!
