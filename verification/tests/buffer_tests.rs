//! Tests for the cell and buffer model.

use fusabi_tui::buffer::{Buffer, Cell};
use fusabi_tui::layout::Rect;
use fusabi_tui::style::{Color, Modifier, Style};

#[test]
fn test_cell_default() {
    let cell = Cell::default();
    assert_eq!(cell.symbol, " ");
    assert_eq!(cell.fg, Color::Reset);
    assert_eq!(cell.bg, Color::Reset);
    assert!(cell.modifier.is_empty());
}

#[test]
fn test_cell_new() {
    let cell = Cell::new("a");
    assert_eq!(cell.symbol, "a");
}

#[test]
fn test_cell_builder() {
    let cell = Cell::new("X")
        .fg(Color::Red)
        .bg(Color::Black)
        .modifier(Modifier::bold());

    assert_eq!(cell.symbol, "X");
    assert_eq!(cell.fg, Color::Red);
    assert_eq!(cell.bg, Color::Black);
    assert!(cell.modifier.contains(Modifier::bold()));
}

#[test]
fn test_cell_set_style() {
    let mut cell = Cell::new("a");
    let style = Style::new()
        .fg(Color::Blue)
        .bg(Color::White)
        .add_modifier(Modifier::italic());

    cell.set_style(style);
    assert_eq!(cell.fg, Color::Blue);
    assert_eq!(cell.bg, Color::White);
    assert!(cell.modifier.contains(Modifier::italic()));
}

#[test]
fn test_cell_reset() {
    let mut cell = Cell::new("X")
        .fg(Color::Red)
        .bg(Color::Black)
        .modifier(Modifier::bold());

    cell.reset();
    assert_eq!(cell.symbol, " ");
    assert_eq!(cell.fg, Color::Reset);
    assert_eq!(cell.bg, Color::Reset);
    assert!(cell.modifier.is_empty());
}

#[test]
fn test_buffer_new() {
    let area = Rect::new(0, 0, 10, 5);
    let buffer = Buffer::new(area);
    assert_eq!(buffer.area, area);
    assert_eq!(buffer.content.len(), 50);
}

#[test]
fn test_buffer_filled() {
    let area = Rect::new(0, 0, 5, 5);
    let cell = Cell::new("X").fg(Color::Red);
    let buffer = Buffer::filled(area, &cell);

    for y in 0..5 {
        for x in 0..5 {
            let c = buffer.get(x, y).unwrap();
            assert_eq!(c.symbol, "X");
            assert_eq!(c.fg, Color::Red);
        }
    }
}

#[test]
fn test_buffer_get_set() {
    let area = Rect::new(0, 0, 5, 5);
    let mut buffer = Buffer::new(area);

    assert!(buffer.get(0, 0).is_some());
    assert!(buffer.get(4, 4).is_some());
    assert!(buffer.get(5, 5).is_none());

    if let Some(cell) = buffer.get_mut(2, 2) {
        cell.symbol = "X".to_string();
    }

    assert_eq!(buffer.get(2, 2).unwrap().symbol, "X");
}

#[test]
fn test_buffer_set_string() {
    let area = Rect::new(0, 0, 10, 1);
    let mut buffer = Buffer::new(area);
    let style = Style::new().fg(Color::Green);

    let written = buffer.set_string(0, 0, "Hello", style);
    assert_eq!(written, 5);

    assert_eq!(buffer.get(0, 0).unwrap().symbol, "H");
    assert_eq!(buffer.get(1, 0).unwrap().symbol, "e");
    assert_eq!(buffer.get(4, 0).unwrap().symbol, "o");
    assert_eq!(buffer.get(0, 0).unwrap().fg, Color::Green);
}

#[test]
fn test_buffer_set_string_wide_glyph() {
    // A double-width glyph touches two columns (its glyph cell and the
    // blanked continuation cell), so it counts as two written columns
    // and the following character lands one column later.
    let area = Rect::new(0, 0, 10, 1);
    let mut buffer = Buffer::new(area);

    let written = buffer.set_string(0, 0, "世a", Style::new());
    assert_eq!(written, 3);
    assert_eq!(buffer.get(0, 0).unwrap().symbol, "世");
    assert_eq!(buffer.get(1, 0).unwrap().symbol, "");
    assert_eq!(buffer.get(2, 0).unwrap().symbol, "a");
}

#[test]
fn test_buffer_set_string_within_clips() {
    let area = Rect::new(0, 0, 10, 1);
    let mut buffer = Buffer::new(area);

    let written = buffer.set_string_within(0, 0, "Hello", Style::new(), 3);
    assert_eq!(written, 3);
    assert_eq!(buffer.get(2, 0).unwrap().symbol, "l");
    assert_eq!(buffer.get(3, 0).unwrap().symbol, " ");
}

#[test]
fn test_buffer_set_string_stops_at_edge() {
    let area = Rect::new(0, 0, 3, 1);
    let mut buffer = Buffer::new(area);

    let written = buffer.set_string(0, 0, "Hello", Style::new());
    assert_eq!(written, 3);
    assert_eq!(buffer.get(2, 0).unwrap().symbol, "l");
}

#[test]
fn test_buffer_set_style() {
    let area = Rect::new(0, 0, 5, 5);
    let mut buffer = Buffer::new(area);
    let style = Style::new().bg(Color::Blue);

    buffer.set_style(Rect::new(1, 1, 3, 3), style);

    assert_eq!(buffer.get(0, 0).unwrap().bg, Color::Reset);
    assert_eq!(buffer.get(1, 1).unwrap().bg, Color::Blue);
    assert_eq!(buffer.get(3, 3).unwrap().bg, Color::Blue);
    assert_eq!(buffer.get(4, 4).unwrap().bg, Color::Reset);
}

#[test]
fn test_buffer_clear() {
    let area = Rect::new(0, 0, 5, 5);
    let mut buffer = Buffer::filled(area, &Cell::new("X"));

    buffer.clear();

    for y in 0..5 {
        for x in 0..5 {
            let cell = buffer.get(x, y).unwrap();
            assert_eq!(cell.symbol, " ");
        }
    }
}

#[test]
fn test_buffer_resize() {
    let area1 = Rect::new(0, 0, 3, 3);
    let mut buffer = Buffer::new(area1);

    if let Some(cell) = buffer.get_mut(1, 1) {
        cell.symbol = "X".to_string();
    }

    let area2 = Rect::new(0, 0, 5, 5);
    buffer.resize(area2);

    assert_eq!(buffer.area, area2);
    assert_eq!(buffer.content.len(), 25);
    assert_eq!(buffer.get(1, 1).unwrap().symbol, "X");
}

#[test]
fn test_buffer_resize_fills_defaults() {
    let mut buffer = Buffer::filled(Rect::new(0, 0, 2, 2), &Cell::new("X"));
    buffer.resize(Rect::new(0, 0, 3, 3));

    assert_eq!(buffer.get(0, 0).unwrap().symbol, "X");
    assert_eq!(buffer.get(1, 1).unwrap().symbol, "X");
    assert_eq!(buffer.get(2, 2).unwrap().symbol, " ");
    assert_eq!(buffer.get(2, 0).unwrap().symbol, " ");
}

#[test]
fn test_buffer_diff() {
    let area = Rect::new(0, 0, 3, 3);
    let buffer1 = Buffer::new(area);
    let mut buffer2 = Buffer::new(area);

    if let Some(cell) = buffer2.get_mut(1, 1) {
        cell.symbol = "X".to_string();
    }

    let diff = buffer1.diff(&buffer2);
    assert_eq!(diff.len(), 1);
    assert_eq!(diff[0].0, 1);
    assert_eq!(diff[0].1, 1);
    assert_eq!(diff[0].2.symbol, "X");
}

#[test]
fn test_buffer_diff_identity() {
    let mut buffer = Buffer::new(Rect::new(0, 0, 4, 4));
    buffer.set_string(0, 0, "ab", Style::new().fg(Color::Red));

    let copy = buffer.clone();
    let diff = buffer.diff(&copy);
    assert!(diff.is_empty());
}

#[test]
fn test_buffer_diff_area_mismatch_full_redraw() {
    let small = Buffer::new(Rect::new(0, 0, 2, 2));
    let large = Buffer::new(Rect::new(0, 0, 3, 3));

    let diff = small.diff(&large);
    assert_eq!(diff.len(), 9);
    assert_eq!((diff[0].0, diff[0].1), (0, 0));
    assert_eq!((diff[8].0, diff[8].1), (2, 2));
}

#[test]
fn test_buffer_merge() {
    let area1 = Rect::new(0, 0, 5, 5);
    let mut buffer1 = Buffer::new(area1);

    let area2 = Rect::new(1, 1, 3, 3);
    let mut buffer2 = Buffer::new(area2);
    if let Some(cell) = buffer2.get_mut(0, 0) {
        cell.symbol = "X".to_string();
    }

    buffer1.merge(&buffer2);
    assert_eq!(buffer1.get(1, 1).unwrap().symbol, "X");
}
