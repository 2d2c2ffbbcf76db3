//! Tests for the bar chart, the scrollbar, and the clear widget.

use fusabi_tui::barchart::{Bar, BarChart, BarGroup, Direction};
use fusabi_tui::buffer::Buffer;
use fusabi_tui::clear::Clear;
use fusabi_tui::layout::Rect;
use fusabi_tui::scrollbar::{Scrollbar, ScrollbarOrientation, ScrollbarState};
use fusabi_tui::style::{Color, Style};
use fusabi_tui::symbols;
use fusabi_tui::widget::{StatefulWidget, Widget};

#[test]
fn test_bar_new() {
    let b = Bar::new();
    assert_eq!(b.value, 0);
    assert_eq!(b.label, None);
    assert_eq!(b.text_value, None);
}

#[test]
fn test_bar_builder() {
    let b = Bar::default()
        .value(42)
        .label("Test")
        .style(Style::default().fg(Color::Red))
        .value_style(Style::default().fg(Color::Green))
        .text_value("42");

    assert_eq!(b.value, 42);
    assert_eq!(b.label, Some("Test".to_string()));
    assert_eq!(b.text_value, Some("42".to_string()));
    assert_eq!(b.style.fg, Some(Color::Red));
    assert_eq!(b.value_style.fg, Some(Color::Green));
}

#[test]
fn test_bar_group_new() {
    let group = BarGroup::new();
    assert_eq!(group.label, None);
    assert!(group.bars.is_empty());
}

#[test]
fn test_bar_group_builder() {
    let bars = vec![Bar::default().value(10), Bar::default().value(20)];
    let group = BarGroup::default().label("Group 1").bars(&bars);

    assert_eq!(group.label, Some("Group 1".to_string()));
    assert_eq!(group.bars.len(), 2);
}

#[test]
fn test_barchart_new() {
    let chart = BarChart::new();
    assert!(chart.data.is_empty());
    assert!(chart.groups.is_empty());
    assert_eq!(chart.bar_width, 3);
    assert_eq!(chart.bar_gap, 1);
    assert_eq!(chart.max_value, None);
    assert_eq!(chart.direction, Direction::Vertical);
}

#[test]
fn test_barchart_builder() {
    let data = vec![Bar::default().value(10), Bar::default().value(20)];
    let chart = BarChart::default()
        .data(&data)
        .bar_width(5)
        .bar_gap(2)
        .max_value(100)
        .direction(Direction::Vertical);

    assert_eq!(chart.data.len(), 2);
    assert_eq!(chart.bar_width, 5);
    assert_eq!(chart.bar_gap, 2);
    assert_eq!(chart.max_value, Some(100));
    assert_eq!(chart.direction, Direction::Vertical);
}

#[test]
fn test_barchart_calculate_max_from_data() {
    let data = vec![
        Bar::default().value(10),
        Bar::default().value(50),
        Bar::default().value(30),
    ];
    let chart = BarChart::default().data(&data);
    assert_eq!(chart.calculate_max(), 50);
}

#[test]
fn test_barchart_calculate_max_explicit() {
    let data = vec![Bar::default().value(10), Bar::default().value(20)];
    let chart = BarChart::default().data(&data).max_value(100);
    assert_eq!(chart.calculate_max(), 100);
}

#[test]
fn test_barchart_calculate_max_empty() {
    let chart = BarChart::new();
    assert_eq!(chart.calculate_max(), 1);
}

#[test]
fn test_barchart_scale_to_height() {
    let chart = BarChart::new();
    assert_eq!(chart.scale_to_height(50, 100, 10), 5);
    assert_eq!(chart.scale_to_height(100, 100, 10), 10);
    assert_eq!(chart.scale_to_height(0, 100, 10), 0);
}

#[test]
fn test_barchart_get_bar_char() {
    let chart = BarChart::new();
    assert_eq!(chart.get_bar_char(0), symbols::bar::EMPTY);
    assert_eq!(chart.get_bar_char(4), symbols::bar::HALF);
    assert_eq!(chart.get_bar_char(8), symbols::bar::FULL);
}

#[test]
fn test_barchart_render_empty() {
    let chart = BarChart::new();
    let area = Rect::new(0, 0, 10, 10);
    let mut buffer = Buffer::new(area);
    chart.render(area, &mut buffer);

    for y in 0..10 {
        for x in 0..10 {
            let cell = buffer.get(x, y).unwrap();
            assert_eq!(cell.symbol, " ");
        }
    }
}

#[test]
fn test_barchart_render_with_data() {
    let data = vec![
        Bar::default()
            .value(50)
            .label("A")
            .style(Style::default().fg(Color::Red)),
        Bar::default()
            .value(100)
            .label("B")
            .style(Style::default().fg(Color::Green)),
    ];

    let chart = BarChart::default()
        .data(&data)
        .bar_width(3)
        .bar_gap(1)
        .max_value(100);

    let area = Rect::new(0, 0, 20, 10);
    let mut buffer = Buffer::new(area);
    chart.render(area, &mut buffer);

    assert_eq!(buffer.get(1, 9).unwrap().symbol, "A");
    assert_eq!(buffer.get(5, 9).unwrap().symbol, "B");

    let has_red = (0..10).any(|y| {
        (0..3).any(|x| {
            if let Some(cell) = buffer.get(x, y) {
                cell.fg == Color::Red
            } else {
                false
            }
        })
    });
    assert!(has_red);
}

#[test]
fn test_bar_width_minimum() {
    let chart = BarChart::default().bar_width(0);
    assert_eq!(chart.bar_width, 1);
}

#[test]
fn test_clear_widget() {
    let mut buffer = Buffer::new(Rect::new(0, 0, 10, 10));
    buffer.set_string(0, 0, "XXXXXXXXXX", Style::new().fg(Color::Red));
    buffer.set_string(0, 5, "XXXXXXXXXX", Style::new().fg(Color::Red));

    Clear.render(Rect::new(0, 0, 10, 3), &mut buffer);

    assert_eq!(buffer.get(0, 0).unwrap().symbol, " ");
    assert_eq!(buffer.get(0, 0).unwrap().fg, Color::Reset);
    assert_eq!(buffer.get(0, 5).unwrap().symbol, "X");
}

#[test]
fn test_scrollbar_state_new() {
    let state = ScrollbarState::new(100);
    assert_eq!(state.content_length, 100);
    assert_eq!(state.position, 0);
    assert_eq!(state.viewport_content_length, 0);
}

#[test]
fn test_scrollbar_state_builder() {
    let state = ScrollbarState::new(100).position(25).viewport_content_length(10);
    assert_eq!(state.content_length, 100);
    assert_eq!(state.position, 25);
    assert_eq!(state.viewport_content_length, 10);
}

#[test]
fn test_scrollbar_state_getters() {
    let state = ScrollbarState::new(100).position(25).viewport_content_length(10);
    assert_eq!(state.get_content_length(), 100);
    assert_eq!(state.get_position(), 25);
    assert_eq!(state.get_viewport_content_length(), 10);
}

#[test]
fn test_scrollbar_state_setters() {
    let mut state = ScrollbarState::new(100);
    state.set_position(25);
    state.set_viewport_content_length(10);
    state.set_content_length(200);
    assert_eq!(state.get_content_length(), 200);
    assert_eq!(state.get_position(), 25);
    assert_eq!(state.get_viewport_content_length(), 10);
}

#[test]
fn test_scrollbar_state_scroll_down() {
    let mut state = ScrollbarState::new(100).position(0).viewport_content_length(10);
    state.scroll_down();
    assert_eq!(state.position, 1);
    state.scroll_down();
    assert_eq!(state.position, 2);
}

#[test]
fn test_scrollbar_state_scroll_up() {
    let mut state = ScrollbarState::new(100).position(25).viewport_content_length(10);
    state.scroll_up();
    assert_eq!(state.position, 24);
    state.scroll_up();
    assert_eq!(state.position, 23);
}

#[test]
fn test_scrollbar_state_scroll_to_top() {
    let mut state = ScrollbarState::new(100).position(50).viewport_content_length(10);
    state.scroll_to_top();
    assert_eq!(state.position, 0);
}

#[test]
fn test_scrollbar_state_scroll_to_bottom() {
    let mut state = ScrollbarState::new(100).position(0).viewport_content_length(10);
    state.scroll_to_bottom();
    assert_eq!(state.position, 90);
}

#[test]
fn test_scrollbar_orientation_default() {
    let orientation = ScrollbarOrientation::default();
    assert_eq!(orientation, ScrollbarOrientation::VerticalRight);
}

#[test]
fn test_scrollbar_new() {
    let scrollbar = Scrollbar::new();
    assert_eq!(scrollbar.orientation, ScrollbarOrientation::VerticalRight);
    assert_eq!(scrollbar.begin_symbol, Some(symbols::arrow::UP.to_string()));
    assert_eq!(scrollbar.end_symbol, Some(symbols::arrow::DOWN.to_string()));
    assert_eq!(scrollbar.thumb_symbol, symbols::block::FULL.to_string());
    assert_eq!(scrollbar.track_symbol, symbols::line::VERTICAL.to_string());
}

#[test]
fn test_scrollbar_builder() {
    let scrollbar = Scrollbar::new()
        .orientation(ScrollbarOrientation::HorizontalBottom)
        .thumb_symbol("X")
        .track_symbol("-")
        .style(Style::default().fg(Color::Green));

    assert_eq!(scrollbar.orientation, ScrollbarOrientation::HorizontalBottom);
    assert_eq!(scrollbar.thumb_symbol, "X");
    assert_eq!(scrollbar.track_symbol, "-");
    assert_eq!(scrollbar.style.fg, Some(Color::Green));
}

#[test]
fn test_scrollbar_calculate_thumb() {
    let scrollbar = Scrollbar::new();
    let state = ScrollbarState::new(100).position(0).viewport_content_length(10);

    let (pos, size) = scrollbar.calculate_thumb(20, &state);
    assert_eq!(size, 2);
    assert_eq!(pos, 0);
}

#[test]
fn test_scrollbar_calculate_thumb_middle() {
    let scrollbar = Scrollbar::new();
    let state = ScrollbarState::new(100).position(45).viewport_content_length(10);

    let (pos, size) = scrollbar.calculate_thumb(20, &state);
    assert_eq!(size, 2);
    assert_eq!(pos, 9);
}

#[test]
fn test_scrollbar_render_vertical() {
    let scrollbar = Scrollbar::new();
    let mut state = ScrollbarState::new(100).position(0).viewport_content_length(10);

    let area = Rect::new(0, 0, 1, 10);
    let mut buffer = Buffer::new(area);
    scrollbar.render(area, &mut buffer, &mut state);

    assert_eq!(buffer.get(0, 0).unwrap().symbol, symbols::arrow::UP);
    assert_eq!(buffer.get(0, 9).unwrap().symbol, symbols::arrow::DOWN);
}

#[test]
fn test_scrollbar_render_horizontal() {
    let scrollbar = Scrollbar::new().orientation(ScrollbarOrientation::HorizontalBottom);
    let mut state = ScrollbarState::new(100).position(0).viewport_content_length(10);

    let area = Rect::new(0, 0, 10, 1);
    let mut buffer = Buffer::new(area);
    scrollbar.render(area, &mut buffer, &mut state);

    assert_eq!(buffer.get(0, 0).unwrap().symbol, symbols::arrow::LEFT);
    assert_eq!(buffer.get(9, 0).unwrap().symbol, symbols::arrow::RIGHT);
}
