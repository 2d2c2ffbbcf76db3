//! Tests for the terminal wrapper and the in-memory test renderer.

use fusabi_tui::buffer::Buffer;
use fusabi_tui::layout::Rect;
use fusabi_tui::paragraph::Paragraph;
use fusabi_tui::renderer::Renderer;
use fusabi_tui::style::Style;
use fusabi_tui::terminal::{Frame, FrameRenderer, Terminal};
use fusabi_tui::test_render::TestRenderer;

struct HelloFrame;

impl FrameRenderer for HelloFrame {
    fn draw_frame(&self, frame: &mut Frame) {
        let para = Paragraph::new("Hello");
        let area = frame.area();
        frame.render_widget(para, area);
    }
}

#[test]
fn test_terminal_draw() {
    let renderer = TestRenderer::new(20, 5);
    let mut terminal = Terminal::new(renderer).unwrap();

    let result = terminal.draw(&HelloFrame);

    assert!(result.is_ok());
    assert_eq!(terminal.backend().buffer().get(0, 0).unwrap().symbol, "H");
}

#[test]
fn test_frame_area() {
    let buffer = Buffer::new(Rect::new(0, 0, 80, 24));
    let frame = Frame::new(buffer, Rect::new(0, 0, 80, 24));

    assert_eq!(frame.area(), Rect::new(0, 0, 80, 24));
    assert_eq!(frame.size(), Rect::new(0, 0, 80, 24));
}

#[test]
fn test_new() {
    let renderer = TestRenderer::new(80, 24);
    assert_eq!(renderer.buffer.area, Rect::new(0, 0, 80, 24));
    assert_eq!(renderer.cursor, (0, 0));
    assert!(renderer.cursor_visible);
}

#[test]
fn test_draw() {
    let mut renderer = TestRenderer::new(10, 5);
    let mut buffer = Buffer::new(Rect::new(0, 0, 10, 5));

    buffer.set_string(0, 0, "Hello", Style::default());

    renderer.draw(&buffer).unwrap();

    assert_eq!(renderer.buffer().get(0, 0).unwrap().symbol, "H");
    assert_eq!(renderer.buffer().get(4, 0).unwrap().symbol, "o");
}

#[test]
fn test_test_clear() {
    let mut renderer = TestRenderer::new(10, 5);
    let mut buffer = Buffer::new(Rect::new(0, 0, 10, 5));

    buffer.set_string(0, 0, "Hello", Style::default());
    renderer.draw(&buffer).unwrap();

    renderer.clear().unwrap();

    for y in 0..5 {
        for x in 0..10 {
            let cell = renderer.buffer().get(x, y).unwrap();
            assert_eq!(cell.symbol, " ");
        }
    }
}

#[test]
fn test_cursor_operations() {
    let mut renderer = TestRenderer::new(10, 5);

    assert_eq!(renderer.cursor(), (0, 0));
    assert!(renderer.cursor_visible());

    renderer.set_cursor(5, 3).unwrap();
    assert_eq!(renderer.cursor(), (5, 3));

    renderer.show_cursor(false).unwrap();
    assert!(!renderer.cursor_visible());

    renderer.show_cursor(true).unwrap();
    assert!(renderer.cursor_visible());
}

#[test]
fn test_size() {
    let renderer = TestRenderer::new(100, 50);
    let size = renderer.size().unwrap();
    assert_eq!(size, Rect::new(0, 0, 100, 50));
}

#[test]
fn test_assert_buffer_success() {
    let mut renderer = TestRenderer::new(5, 1);
    let mut buffer = Buffer::new(Rect::new(0, 0, 5, 1));

    buffer.set_string(0, 0, "Test", Style::default());
    renderer.draw(&buffer).unwrap();

    renderer.assert_buffer(&buffer);
}

#[test]
fn test_debug_output() {
    let mut renderer = TestRenderer::new(5, 3);
    let mut buffer = Buffer::new(Rect::new(0, 0, 5, 3));

    buffer.set_string(0, 0, "Hello", Style::default());
    buffer.set_string(0, 1, "World", Style::default());

    renderer.draw(&buffer).unwrap();

    let output = renderer.debug_output();
    let lines: Vec<&str> = output.lines().collect();
    assert_eq!(lines.len(), 3);
    assert!(lines[0].starts_with("Hello"));
    assert!(lines[1].starts_with("World"));
}
