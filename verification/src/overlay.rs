//! The error overlay: a structured error description with a dismissible,
//! optionally auto-dismissing modal panel drawn over the dashboard.

use crate::block::{Block, BorderType, Borders, Title};
use crate::buffer::Buffer;
use crate::clock::now_millis;
use crate::error::{EngineError, LoadError};
use crate::layout::{sat_add16, sat_sub16, Rect};
use crate::paragraph::Paragraph;
use crate::strutil::u64_to_dec;
use crate::style::{Color, Modifier, Style};
use crate::widget::Widget;
use vstd::prelude::*;

verus! {

/// How severe a reported error is; it decides the overlay's colors.
#[derive(Debug, Clone, Copy, PartialEq, Eq, Structural)]
pub enum ErrorSeverity {
    /// A failure that prevents execution
    Error,
    /// Something that might be a problem
    Warning,
    /// Information only
    Info,
}

impl ErrorSeverity {
    /// The label the overlay's title shows for this severity.
    pub fn as_str(&self) -> (r: &'static str)
        ensures
            match self {
                ErrorSeverity::Error => r@ == "ERROR"@,
                ErrorSeverity::Warning => r@ == "WARNING"@,
                ErrorSeverity::Info => r@ == "INFO"@,
            },
    {
        match self {
            ErrorSeverity::Error => "ERROR",
            ErrorSeverity::Warning => "WARNING",
            ErrorSeverity::Info => "INFO",
        }
    }
}

/// A displayable error: a title and message, an optional source location,
/// a severity, and hints toward a fix.
#[derive(Debug, Clone)]
pub struct ErrorMessage {
    /// The error summary
    pub title: String,
    /// The detailed message
    pub message: String,
    /// The source file the error points at, if known
    pub source: Option<String>,
    /// The line the error points at, if known
    pub line: Option<usize>,
    /// The column the error points at, if known
    pub column: Option<usize>,
    /// How severe the error is
    pub severity: ErrorSeverity,
    /// Hints toward fixing the error
    pub hints: Vec<String>,
}

/// The color an overlay frame takes for a severity.
pub open spec fn severity_color(s: ErrorSeverity) -> Color {
    match s {
        ErrorSeverity::Error => Color::Red,
        ErrorSeverity::Warning => Color::Yellow,
        ErrorSeverity::Info => Color::Blue,
    }
}

/// What a message built from an engine error reads: each error kind's
/// exact title, message, severity, source, and hints.
pub open spec fn describes_engine_error(m: ErrorMessage, error: EngineError) -> bool {
    match error {
        EngineError::LoadError(le) => m.severity == ErrorSeverity::Error && (match le {
            LoadError::FileNotFound { path } => m.title@ == "File Not Found"@ && m.message@
                == "Could not find file: "@ + path@ && (match m.source {
                Option::Some(s) => s@ == path@,
                Option::None => false,
            }) && m.hints@.len() == 2 && m.hints@[0]@ == "Check that the file path is correct"@
                && m.hints@[1]@ == "Make sure the file exists in the expected location"@,
            LoadError::ReadFailed { path, reason } => m.title@ == "Failed to Read File"@
                && m.message@ == "Could not read file: "@ + reason@ && (match m.source {
                Option::Some(s) => s@ == path@,
                Option::None => false,
            }) && m.hints@.len() == 2 && m.hints@[0]@ == "Check file permissions"@ && m.hints@[1]@
                == "Ensure the file is not locked by another process"@,
            LoadError::ParseFailed { path, reason } => m.title@ == "Parse Error"@ && m.message@
                == "Failed to parse file: "@ + reason@ && (match m.source {
                Option::Some(s) => s@ == path@,
                Option::None => false,
            }) && m.hints@.len() == 2 && m.hints@[0]@ == "Check the syntax of your dashboard file"@
                && m.hints@[1]@ == "Look for unclosed brackets, quotes, or other syntax errors"@,
            LoadError::Other { reason } => m.title@ == "Load Error"@ && m.message@
                == "load error: "@ + reason@ && m.source is None && m.hints@.len() == 0,
        }),
        EngineError::WatchError(we) => m.title@ == "Watch Error"@ && m.message@ == we.reason@
            && m.severity == ErrorSeverity::Warning && m.source is None && m.hints@.len() == 1
            && m.hints@[0]@ == "Try restarting the application"@,
        EngineError::Render(re) => m.title@ == "Render Error"@ && m.severity
            == ErrorSeverity::Warning && m.source is None && m.hints@.len() == 2 && m.hints@[0]@
            == "This may be a temporary issue"@ && m.hints@[1]@
            == "Try resizing the terminal or reloading"@ && (match re {
            crate::renderer::RenderError::Io(t) => m.message@ == "IO error: "@ + t@,
            crate::renderer::RenderError::Backend(t) => m.message@ == "Backend error: "@ + t@,
            crate::renderer::RenderError::SizeMismatch { .. } => m.message@ == "Size mismatch"@,
        }),
        EngineError::InvalidState(msg) => m.title@ == "Invalid State"@ && m.message@ == msg@
            && m.severity == ErrorSeverity::Error && m.source is None && m.hints@.len() == 1
            && m.hints@[0]@ == "Try reloading the dashboard"@,
    }
}

impl ErrorMessage {
    /// Creates an error message with severity `Error` and no location or
    /// hints.
    pub fn new(title: &str, message: &str) -> (m: Self)
        ensures
            m.title@ == title@,
            m.message@ == message@,
            m.source is None,
            m.line is None,
            m.column is None,
            m.severity == ErrorSeverity::Error,
            m.hints@.len() == 0,
    {
        ErrorMessage {
            title: String::from_str(title),
            message: String::from_str(message),
            source: Option::None,
            line: Option::None,
            column: Option::None,
            severity: ErrorSeverity::Error,
            hints: Vec::new(),
        }
    }

    /// Describes an engine error: each error kind gets its own title,
    /// message, severity, and hints.
    pub fn from_engine_error(error: &EngineError) -> (m: Self)
        ensures
            describes_engine_error(m, *error),
    {
        match error {
            EngineError::LoadError(load_err) => match load_err {
                LoadError::FileNotFound { path } => {
                    let mut message = String::from_str("Could not find file: ");
                    message.append(path.as_str());
                    let m = ErrorMessage::new("File Not Found", message.as_str());
                    let m = m.with_source(path.as_str());
                    let m = m.with_hint("Check that the file path is correct");
                    m.with_hint("Make sure the file exists in the expected location")
                },
                LoadError::ReadFailed { path, reason } => {
                    let mut message = String::from_str("Could not read file: ");
                    message.append(reason.as_str());
                    let m = ErrorMessage::new("Failed to Read File", message.as_str());
                    let m = m.with_source(path.as_str());
                    let m = m.with_hint("Check file permissions");
                    m.with_hint("Ensure the file is not locked by another process")
                },
                LoadError::ParseFailed { path, reason } => {
                    let mut message = String::from_str("Failed to parse file: ");
                    message.append(reason.as_str());
                    let m = ErrorMessage::new("Parse Error", message.as_str());
                    let m = m.with_source(path.as_str());
                    let m = m.with_hint("Check the syntax of your dashboard file");
                    m.with_hint("Look for unclosed brackets, quotes, or other syntax errors")
                },
                LoadError::Other { .. } => {
                    let msg = load_err.message();
                    ErrorMessage::new("Load Error", msg.as_str())
                },
            },
            EngineError::WatchError(watch_err) => {
                let msg = watch_err.message();
                let m = ErrorMessage::new("Watch Error", msg.as_str());
                let m = m.with_hint("Try restarting the application");
                m.with_severity(ErrorSeverity::Warning)
            },
            EngineError::Render(render_err) => {
                let msg = render_err.message();
                let m = ErrorMessage::new("Render Error", msg.as_str());
                let m = m.with_hint("This may be a temporary issue");
                let m = m.with_hint("Try resizing the terminal or reloading");
                m.with_severity(ErrorSeverity::Warning)
            },
            EngineError::InvalidState(msg) => {
                let m = ErrorMessage::new("Invalid State", msg.as_str());
                m.with_hint("Try reloading the dashboard")
            },
        }
    }

    /// Returns the message with its source file set.
    pub fn with_source(self, source: &str) -> (m: Self)
        ensures
            m.source is Some,
            m.source.unwrap()@ == source@,
            m.title == self.title,
            m.message == self.message,
            m.line == self.line,
            m.column == self.column,
            m.severity == self.severity,
            m.hints == self.hints,
    {
        ErrorMessage { source: Option::Some(String::from_str(source)), ..self }
    }

    /// Returns the message with its line number set.
    pub fn with_line(self, line: usize) -> (m: Self)
        ensures
            m.line == Some(line),
            m.title == self.title,
            m.message == self.message,
            m.source == self.source,
            m.column == self.column,
            m.severity == self.severity,
            m.hints == self.hints,
    {
        ErrorMessage { line: Option::Some(line), ..self }
    }

    /// Returns the message with its column number set.
    pub fn with_column(self, column: usize) -> (m: Self)
        ensures
            m.column == Some(column),
            m.title == self.title,
            m.message == self.message,
            m.source == self.source,
            m.line == self.line,
            m.severity == self.severity,
            m.hints == self.hints,
    {
        ErrorMessage { column: Option::Some(column), ..self }
    }

    /// Returns the message with its severity set.
    pub fn with_severity(self, severity: ErrorSeverity) -> (m: Self)
        ensures
            m.severity == severity,
            m.title == self.title,
            m.message == self.message,
            m.source == self.source,
            m.line == self.line,
            m.column == self.column,
            m.hints == self.hints,
    {
        ErrorMessage { severity, ..self }
    }

    /// Returns the message with one more hint appended.
    pub fn with_hint(self, hint: &str) -> (m: Self)
        ensures
            m.hints@.len() == self.hints@.len() + 1,
            m.hints@[m.hints@.len() - 1]@ == hint@,
            forall|i: int| 0 <= i < self.hints@.len() ==> m.hints@[i] == self.hints@[i],
            m.title == self.title,
            m.message == self.message,
            m.source == self.source,
            m.line == self.line,
            m.column == self.column,
            m.severity == self.severity,
    {
        let mut hints = self.hints;
        hints.push(String::from_str(hint));
        ErrorMessage { hints, ..self }
    }
}

/// The centered rectangle covering the given percentages of an area.
pub open spec fn centered_rect_spec(percent_x: u16, percent_y: u16, area: Rect) -> Rect {
    let hm = (area.width - (area.width * percent_x) / 100) / 2;
    let vm = (area.height - (area.height * percent_y) / 100) / 2;
    Rect {
        x: sat_add16(area.x, hm as u16),
        y: sat_add16(area.y, vm as u16),
        width: sat_sub16(area.width, (2 * hm) as u16),
        height: sat_sub16(area.height, (2 * vm) as u16),
    }
}

/// A dismissible modal panel wrapping one error, with an optional
/// auto-dismiss deadline.
#[derive(Debug, Clone)]
pub struct ErrorOverlay {
    /// The error being shown
    pub error: ErrorMessage,
    /// When the overlay was (last) shown, in clock milliseconds
    pub timestamp: u64,
    /// Whether the overlay is visible
    pub visible: bool,
    /// Hide the overlay this many milliseconds after it was shown
    pub auto_dismiss_after: Option<u64>,
}

impl ErrorOverlay {
    /// Shows a new overlay for an error: visible, with no auto-dismiss.
    pub fn new(error: ErrorMessage) -> (o: Self)
        ensures
            o.error == error,
            o.visible,
            o.auto_dismiss_after is None,
    {
        ErrorOverlay {
            error,
            timestamp: now_millis(),
            visible: true,
            auto_dismiss_after: Option::None,
        }
    }

    /// Shows a new overlay describing an engine error.
    pub fn from_engine_error(error: &EngineError) -> (o: Self)
        ensures
            o.visible,
            o.auto_dismiss_after is None,
            describes_engine_error(o.error, *error),
    {
        Self::new(ErrorMessage::from_engine_error(error))
    }

    /// Returns the overlay with an auto-dismiss window set, in
    /// milliseconds after the moment it was shown.
    pub fn with_auto_dismiss(self, duration_ms: u64) -> (o: Self)
        ensures
            o.auto_dismiss_after == Some(duration_ms),
            o.error == self.error,
            o.timestamp == self.timestamp,
            o.visible == self.visible,
    {
        ErrorOverlay { auto_dismiss_after: Option::Some(duration_ms), ..self }
    }

    /// Whether the overlay is visible.
    pub fn is_visible(&self) -> (r: bool)
        ensures
            r == self.visible,
    {
        self.visible
    }

    /// Hides the overlay for good; a fresh overlay is built for the next
    /// error.
    pub fn dismiss(&mut self)
        ensures
            !final(self).visible,
            final(self).error == old(self).error,
            final(self).timestamp == old(self).timestamp,
            final(self).auto_dismiss_after == old(self).auto_dismiss_after,
    {
        self.visible = false;
    }

    /// Shows the overlay again, restarting its clock.
    pub fn show(&mut self)
        ensures
            final(self).visible,
            final(self).error == old(self).error,
            final(self).auto_dismiss_after == old(self).auto_dismiss_after,
    {
        self.visible = true;
        self.timestamp = now_millis();
    }

    /// One clock step of the auto-dismiss state machine: at or past the
    /// deadline the overlay hides itself; without a deadline nothing
    /// changes.
    pub fn update_at(&mut self, now_ms: u64)
        ensures
            final(self).error == old(self).error,
            final(self).timestamp == old(self).timestamp,
            final(self).auto_dismiss_after == old(self).auto_dismiss_after,
            final(self).visible == (match old(self).auto_dismiss_after {
                Option::Some(d) => if now_ms >= old(self).timestamp && now_ms - old(
                    self,
                ).timestamp >= d {
                    false
                } else {
                    old(self).visible
                },
                Option::None => old(self).visible,
            }),
    {
        if let Option::Some(duration) = self.auto_dismiss_after {
            let elapsed = now_ms.saturating_sub(self.timestamp);
            if elapsed >= duration && now_ms >= self.timestamp {
                self.visible = false;
            }
        }
    }

    /// Advances the auto-dismiss state machine against the wall clock.
    /// Whatever the clock read, the overlay can only go from visible to
    /// hidden here, and only when a deadline was set.
    pub fn update(&mut self)
        ensures
            final(self).error == old(self).error,
            final(self).timestamp == old(self).timestamp,
            final(self).auto_dismiss_after == old(self).auto_dismiss_after,
            final(self).visible ==> old(self).visible,
            old(self).auto_dismiss_after is None ==> final(self).visible == old(self).visible,
    {
        let now = now_millis();
        self.update_at(now);
    }

    /// Milliseconds since the overlay was shown, by the wall clock
    /// (zero if the clock reads earlier than the showing).
    pub fn elapsed(&self) -> u64 {
        now_millis().saturating_sub(self.timestamp)
    }

    /// The error being shown.
    pub fn error(&self) -> (e: &ErrorMessage)
        ensures
            e == &self.error,
    {
        &self.error
    }

    /// Draws the overlay as a centered panel over `area`; hidden overlays
    /// draw nothing, and a visible one touches only the cells of its
    /// centered panel (80% of the width, 60% of the height), so whatever
    /// was rendered beneath stays visible around it.
    pub fn render(&self, area: Rect, buf: &mut Buffer)
        requires
            old(buf).wf(),
        ensures
            final(buf).wf(),
            final(buf).area == old(buf).area,
            !self.visible ==> *final(buf) == *old(buf),
            forall|px: int, py: int|
                old(buf).in_bounds(px, py) && !crate::layout::rect_covers(
                    centered_rect_spec(80, 60, area),
                    px,
                    py,
                ) ==> final(buf).cell_at(px, py) == old(buf).cell_at(px, py),
            self.visible && crate::block::frame_corner_visible(
                centered_rect_spec(80, 60, area),
                *old(buf),
            ) ==> final(buf).cell_at(
                centered_rect_spec(80, 60, area).x as int,
                centered_rect_spec(80, 60, area).y as int,
            ).0 == crate::block::corner_glyph(BorderType::Rounded) && final(buf).cell_at(
                centered_rect_spec(80, 60, area).x as int,
                centered_rect_spec(80, 60, area).y as int,
            ).1 == severity_color(self.error.severity),
    {
        if !self.visible {
            return ;
        }
        let overlay_area = Self::centered_rect(80, 60, area);
        self.render_error_panel(overlay_area, buf);
    }

    /// Draws the framed panel: severity-colored border and title, the
    /// message, the location if known, the hints, and the footer. Only
    /// cells inside `area` are touched, and the panel's top-left corner
    /// really shows its rounded, severity-colored frame.
    fn render_error_panel(&self, area: Rect, buf: &mut Buffer)
        requires
            old(buf).wf(),
        ensures
            final(buf).wf(),
            final(buf).area == old(buf).area,
            forall|px: int, py: int|
                old(buf).in_bounds(px, py) && !crate::layout::rect_covers(area, px, py)
                    ==> final(buf).cell_at(px, py) == old(buf).cell_at(px, py),
            crate::block::frame_corner_visible(area, *old(buf)) ==> final(buf).cell_at(
                area.x as int,
                area.y as int,
            ).0 == crate::block::corner_glyph(BorderType::Rounded) && final(buf).cell_at(
                area.x as int,
                area.y as int,
            ).1 == severity_color(self.error.severity),
    {
        let border_color = match self.error.severity {
            ErrorSeverity::Error => Color::Red,
            ErrorSeverity::Warning => Color::Yellow,
            ErrorSeverity::Info => Color::Blue,
        };
        let title_color = border_color;

        let mut title_str = String::from_str(" ");
        title_str.append(self.error.severity.as_str());
        title_str.append(": ");
        title_str.append(self.error.title.as_str());
        title_str.append(" ");
        let title = Title::new(title_str.as_str()).style(
            Style::new().fg(title_color).add_modifier(Modifier::bold()),
        );

        let block = Block::default().title(title).borders(Borders::all()).border_type(
            BorderType::Rounded,
        ).border_style(Style::new().fg(border_color)).style(Style::new().bg(Color::Black));

        let inner = block.inner(area);
        proof {
            // The inner rectangle sits inside the block's area, so
            // painting within it stays within the panel.
            assert forall|px: int, py: int|
                crate::layout::rect_covers(inner, px, py) implies crate::layout::rect_covers(
                area,
                px,
                py,
            ) by {}
        }
        block.draw(area, buf);

        let mut content = String::new();
        content.append(self.error.message.as_str());
        content.append("\n\n");

        if let Option::Some(source) = &self.error.source {
            content.append("Location: ");
            content.append(source.as_str());
            if let Option::Some(line) = self.error.line {
                content.append(":");
                let line_text = u64_to_dec(line as u64);
                content.append(line_text.as_str());
                if let Option::Some(column) = self.error.column {
                    content.append(":");
                    let col_text = u64_to_dec(column as u64);
                    content.append(col_text.as_str());
                }
            }
            content.append("\n\n");
        }

        if self.error.hints.len() > 0 {
            content.append("Hints:\n");
            let n = self.error.hints.len();
            let mut i: usize = 0;
            while i < n
                invariant
                    n == self.error.hints@.len(),
                    i <= n,
                decreases n - i,
            {
                content.append("  * ");
                content.append(self.error.hints[i].as_str());
                content.append("\n");
                i = i + 1;
            }
            content.append("\n");
        }

        content.append("Press Ctrl+D to dismiss, Ctrl+R to reload");

        let para = Paragraph::new(content.as_str()).style(Style::new().fg(Color::White));
        para.draw(inner, buf);
        proof {
            if crate::block::frame_corner_visible(area, *old(buf)) {
                assert(block.borders.0 == 0b1111);
                assert(0b1111u8 & 0b1000u8 == 0b1000u8) by (bit_vector);
                assert(0b1111u8 & 0b1001u8 == 0b1001u8) by (bit_vector);
                assert(inner.x == sat_add16(area.x, 1));
                assert(inner.x as int == area.x as int + 1);
                assert(!crate::layout::rect_covers(inner, area.x as int, area.y as int));
                assert(crate::block::corner_claim_holds(block, area, *old(buf)));
            }
        }
    }

    /// The centered rectangle covering the given percentages of `area`.
    fn centered_rect(percent_x: u16, percent_y: u16, area: Rect) -> (r: Rect)
        requires
            percent_x <= 100,
            percent_y <= 100,
        ensures
            r == centered_rect_spec(percent_x, percent_y, area),
    {
        proof {
            assert((area.width as int) * (percent_x as int) <= 0xFFFF * 100) by (nonlinear_arith)
                requires
                    area.width <= 0xFFFF,
                    percent_x <= 100,
            ;
            assert((area.height as int) * (percent_y as int) <= 0xFFFF * 100) by (nonlinear_arith)
                requires
                    area.height <= 0xFFFF,
                    percent_y <= 100,
            ;
            assert((area.width as int) * (percent_x as int) / 100 <= area.width as int)
                by (nonlinear_arith)
                requires
                    percent_x <= 100,
            ;
            assert((area.height as int) * (percent_y as int) / 100 <= area.height as int)
                by (nonlinear_arith)
                requires
                    percent_y <= 100,
            ;
        }
        let scaled_w: u32 = ((area.width as u32) * (percent_x as u32)) / 100;
        let scaled_h: u32 = ((area.height as u32) * (percent_y as u32)) / 100;
        let horizontal_margin: u16 = ((area.width as u32 - scaled_w) / 2) as u16;
        let vertical_margin: u16 = ((area.height as u32 - scaled_h) / 2) as u16;
        Rect {
            x: area.x.saturating_add(horizontal_margin),
            y: area.y.saturating_add(vertical_margin),
            width: area.width.saturating_sub(horizontal_margin * 2),
            height: area.height.saturating_sub(vertical_margin * 2),
        }
    }
}

/// The overlay's whole lifecycle in one statement: a freshly built
/// overlay is visible; dismissing hides it; with an auto-dismiss window
/// `d`, a clock step at or past `d` milliseconds after the showing hides
/// it, and an earlier step leaves it visible.
pub proof fn lemma_overlay_lifecycle(o0: ErrorOverlay, d: u64, now: u64)
    requires
        o0.visible,
        o0.auto_dismiss_after == Some(d),
    ensures
        now >= o0.timestamp && now - o0.timestamp >= d ==> !overlay_after_update(o0, now).visible,
        now >= o0.timestamp && now - o0.timestamp < d ==> overlay_after_update(o0, now).visible,
        !overlay_after_dismiss(o0).visible,
{
}

/// The overlay after one clock step, as a value.
pub open spec fn overlay_after_update(o: ErrorOverlay, now_ms: u64) -> ErrorOverlay {
    ErrorOverlay {
        visible: (match o.auto_dismiss_after {
            Option::Some(d) => if now_ms >= o.timestamp && now_ms - o.timestamp >= d {
                false
            } else {
                o.visible
            },
            Option::None => o.visible,
        }),
        ..o
    }
}

/// The overlay after an explicit dismissal, as a value.
pub open spec fn overlay_after_dismiss(o: ErrorOverlay) -> ErrorOverlay {
    ErrorOverlay { visible: false, ..o }
}

} // verus!
