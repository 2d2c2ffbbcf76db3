//! Tests for rectangles, constraints and the layout solver.

use fusabi_tui::layout::{Constraint, Direction, Layout, Rect};

#[test]
fn test_rect_new() {
    let rect = Rect::new(1, 2, 10, 20);
    assert_eq!(rect.x, 1);
    assert_eq!(rect.y, 2);
    assert_eq!(rect.width, 10);
    assert_eq!(rect.height, 20);
}

#[test]
fn test_rect_area() {
    let rect = Rect::new(0, 0, 10, 20);
    assert_eq!(rect.area(), 200);
}

#[test]
fn test_rect_edges() {
    let rect = Rect::new(5, 10, 20, 30);
    assert_eq!(rect.left(), 5);
    assert_eq!(rect.right(), 25);
    assert_eq!(rect.top(), 10);
    assert_eq!(rect.bottom(), 40);
}

#[test]
fn test_rect_inner() {
    let rect = Rect::new(0, 0, 10, 10);
    let inner = rect.inner(1);
    assert_eq!(inner.x, 1);
    assert_eq!(inner.y, 1);
    assert_eq!(inner.width, 8);
    assert_eq!(inner.height, 8);
}

#[test]
fn test_rect_inner_too_small() {
    let rect = Rect::new(0, 0, 3, 3);
    let inner = rect.inner(2);
    assert_eq!(inner, Rect::default());
}

#[test]
fn test_rect_intersection() {
    let rect1 = Rect::new(0, 0, 10, 10);
    let rect2 = Rect::new(5, 5, 10, 10);
    let inter = rect1.intersection(rect2);
    assert_eq!(inter, Rect::new(5, 5, 5, 5));
}

#[test]
fn test_rect_union() {
    let rect1 = Rect::new(0, 0, 5, 5);
    let rect2 = Rect::new(3, 3, 5, 5);
    let union = rect1.union(rect2);
    assert_eq!(union, Rect::new(0, 0, 8, 8));
}

#[test]
fn test_rect_contains() {
    let rect = Rect::new(5, 5, 10, 10);
    assert!(rect.contains(5, 5));
    assert!(rect.contains(10, 10));
    assert!(rect.contains(14, 14));
    assert!(!rect.contains(15, 15));
    assert!(!rect.contains(4, 5));
}

#[test]
fn test_rect_intersects() {
    let rect1 = Rect::new(0, 0, 10, 10);
    let rect2 = Rect::new(5, 5, 10, 10);
    let rect3 = Rect::new(20, 20, 10, 10);

    assert!(rect1.intersects(rect2));
    assert!(rect2.intersects(rect1));
    assert!(!rect1.intersects(rect3));
}

#[test]
fn test_constraint_length() {
    let c = Constraint::Length(10);
    assert_eq!(c.apply(20), 10);
    assert_eq!(c.apply(5), 5);
}

#[test]
fn test_constraint_percentage() {
    let c = Constraint::Percentage(50);
    assert_eq!(c.apply(100), 50);

    let c = Constraint::Percentage(150);
    assert_eq!(c.apply(100), 100);
}

#[test]
fn test_constraint_ratio() {
    let c = Constraint::Ratio(1, 3);
    assert_eq!(c.apply(99), 33);

    let c = Constraint::Ratio(1, 0);
    assert_eq!(c.apply(100), 0);
}

#[test]
fn test_layout_vertical() {
    let area = Rect::new(0, 0, 100, 100);
    let chunks = Layout::default()
        .direction(Direction::Vertical)
        .constraints(&[
            Constraint::Length(10),
            Constraint::Length(20),
            Constraint::Length(30),
        ])
        .split(area);

    assert_eq!(chunks.len(), 3);
    assert_eq!(chunks[0], Rect::new(0, 0, 100, 10));
    assert_eq!(chunks[1], Rect::new(0, 10, 100, 20));
    assert_eq!(chunks[2], Rect::new(0, 30, 100, 30));
}

#[test]
fn test_layout_horizontal() {
    let area = Rect::new(0, 0, 100, 100);
    let chunks = Layout::default()
        .direction(Direction::Horizontal)
        .constraints(&[
            Constraint::Length(10),
            Constraint::Length(20),
            Constraint::Length(30),
        ])
        .split(area);

    assert_eq!(chunks.len(), 3);
    assert_eq!(chunks[0], Rect::new(0, 0, 10, 100));
    assert_eq!(chunks[1], Rect::new(10, 0, 20, 100));
    assert_eq!(chunks[2], Rect::new(30, 0, 30, 100));
}

#[test]
fn test_layout_percentage() {
    let area = Rect::new(0, 0, 100, 100);
    let chunks = Layout::default()
        .direction(Direction::Vertical)
        .constraints(&[Constraint::Percentage(25), Constraint::Percentage(75)])
        .split(area);

    assert_eq!(chunks[0].height, 25);
    assert_eq!(chunks[1].height, 75);
}

#[test]
fn test_layout_fill() {
    let area = Rect::new(0, 0, 100, 100);
    let chunks = Layout::default()
        .direction(Direction::Vertical)
        .constraints(&[
            Constraint::Length(10),
            Constraint::Fill(1),
            Constraint::Length(10),
        ])
        .split(area);

    assert_eq!(chunks[0].height, 10);
    assert_eq!(chunks[1].height, 80);
    assert_eq!(chunks[2].height, 10);
}

#[test]
fn test_layout_multiple_fill() {
    let area = Rect::new(0, 0, 100, 100);
    let chunks = Layout::default()
        .direction(Direction::Vertical)
        .constraints(&[
            Constraint::Length(10),
            Constraint::Fill(1),
            Constraint::Fill(1),
        ])
        .split(area);

    assert_eq!(chunks[0].height, 10);
    assert_eq!(chunks[1].height, 45);
    assert_eq!(chunks[2].height, 45);
}

#[test]
fn test_layout_fill_remainder_goes_first() {
    // Three equal fills over 100 cells: 34, 33, 33 — the leftover cell
    // goes to the earliest fill.
    let area = Rect::new(0, 0, 10, 100);
    let chunks = Layout::default()
        .direction(Direction::Vertical)
        .constraints(&[
            Constraint::Fill(1),
            Constraint::Fill(1),
            Constraint::Fill(1),
        ])
        .split(area);

    assert_eq!(chunks[0].height, 34);
    assert_eq!(chunks[1].height, 33);
    assert_eq!(chunks[2].height, 33);
    assert_eq!(
        chunks.iter().map(|c| c.height as u32).sum::<u32>(),
        100
    );
}

#[test]
fn test_layout_length_conservation() {
    // Lengths that sum to the full height are granted exactly.
    let area = Rect::new(0, 0, 80, 60);
    let chunks = Layout::default()
        .direction(Direction::Vertical)
        .constraints(&[
            Constraint::Length(10),
            Constraint::Length(20),
            Constraint::Length(30),
        ])
        .split(area);

    assert_eq!(
        chunks.iter().map(|c| c.height as u32).sum::<u32>(),
        60
    );
    assert!(chunks.iter().all(|c| c.width == 80));
}

#[test]
fn test_layout_min_max_clamp() {
    let area = Rect::new(0, 0, 10, 100);
    let chunks = Layout::default()
        .direction(Direction::Vertical)
        .constraints(&[Constraint::Max(10), Constraint::Min(95)])
        .split(area);

    assert_eq!(chunks[0].height, 10);
    assert_eq!(chunks[1].height, 95);
}

#[test]
fn test_layout_margin() {
    let area = Rect::new(0, 0, 100, 100);
    let chunks = Layout::default()
        .direction(Direction::Vertical)
        .margin(5)
        .constraints(&[Constraint::Percentage(100)])
        .split(area);

    assert_eq!(chunks[0], Rect::new(5, 5, 90, 90));
}

#[test]
fn test_layout_empty_constraints() {
    let area = Rect::new(0, 0, 100, 100);
    let chunks = Layout::default().split(area);

    assert_eq!(chunks.len(), 1);
    assert_eq!(chunks[0], area);
}
