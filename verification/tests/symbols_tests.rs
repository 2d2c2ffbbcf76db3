//! Tests for the drawing symbols.

use fusabi_tui::symbols;

#[test]
fn test_line_symbols() {
    assert_eq!(symbols::line::VERTICAL, "│");
    assert_eq!(symbols::line::HORIZONTAL, "─");
    assert_eq!(symbols::line::TOP_LEFT, "┌");
    assert_eq!(symbols::line::THICK_VERTICAL, "┃");
    assert_eq!(symbols::line::DOUBLE_VERTICAL, "║");
    assert_eq!(symbols::line::ROUNDED_TOP_LEFT, "╭");
}

#[test]
fn test_block_symbols() {
    assert_eq!(symbols::block::FULL, "█");
    assert_eq!(symbols::block::HALF, "▌");
    assert_eq!(symbols::block::LIGHT_SHADE, "░");
}

#[test]
fn test_bar_symbols() {
    assert_eq!(symbols::bar::FULL, "█");
    assert_eq!(symbols::bar::HALF, "▄");
    assert_eq!(symbols::bar::vertical_bars().len(), 9);
    assert_eq!(symbols::bar::horizontal_bars().len(), 9);
}

#[test]
fn test_arrow_symbols() {
    assert_eq!(symbols::arrow::UP, "↑");
    assert_eq!(symbols::arrow::DOWN, "↓");
    assert_eq!(symbols::arrow::LEFT, "←");
    assert_eq!(symbols::arrow::RIGHT, "→");
}

#[test]
fn test_special_symbols() {
    assert_eq!(symbols::special::BULLET, "•");
    assert_eq!(symbols::special::CHECKBOX_CHECKED, "☑");
    assert_eq!(symbols::special::STAR, "★");
}

#[test]
fn test_spinner_symbols() {
    assert_eq!(symbols::spinner::braille().len(), 8);
    assert_eq!(symbols::spinner::dots().len(), 4);
    assert_eq!(symbols::spinner::line().len(), 4);
}
