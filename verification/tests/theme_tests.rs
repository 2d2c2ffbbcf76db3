//! Tests for palettes and themes.

use fusabi_tui::style::{Color, Style};
use fusabi_tui::theme::{ColorPalette, Theme};

#[test]
fn test_color_palette_dark() {
    let palette = ColorPalette::dark();
    assert_eq!(palette.background, Color::Black);
    assert_eq!(palette.foreground, Color::White);
    assert_eq!(palette.primary, Color::Blue);
}

#[test]
fn test_color_palette_light() {
    let palette = ColorPalette::light();
    assert_eq!(palette.background, Color::White);
    assert_eq!(palette.foreground, Color::Black);
}

#[test]
fn test_color_palette_slime() {
    let palette = ColorPalette::slime();
    assert_eq!(palette.background, Color::Rgb(30, 35, 36));
    assert_eq!(palette.foreground, Color::Rgb(224, 224, 224));
    assert_eq!(palette.primary, Color::Rgb(168, 223, 90));
}

#[test]
fn test_theme_dark() {
    let theme = Theme::dark();
    assert_eq!(theme.name, "Dark");
    assert_eq!(theme.colors.background, Color::Black);
}

#[test]
fn test_theme_light() {
    let theme = Theme::light();
    assert_eq!(theme.name, "Light");
    assert_eq!(theme.colors.background, Color::White);
}

#[test]
fn test_theme_slime() {
    let theme = Theme::slime();
    assert_eq!(theme.name, "Slime");
    assert_eq!(theme.colors.background, Color::Rgb(30, 35, 36));
}

#[test]
fn test_theme_get_style() {
    let theme = Theme::dark();
    let title_style = theme.get_style("title");
    assert_eq!(title_style.fg, Some(Color::Blue));

    let unknown_style = theme.get_style("unknown");
    assert_eq!(unknown_style.fg, Some(Color::White));
}

#[test]
fn test_theme_set_style() {
    let mut theme = Theme::dark();
    let custom_style = Style::new().fg(Color::Red);
    theme.set_style("custom", custom_style);

    let retrieved_style = theme.get_style("custom");
    assert_eq!(retrieved_style.fg, Some(Color::Red));
}

#[test]
fn test_theme_base_style() {
    let theme = Theme::dark();
    let base = theme.base_style();
    assert_eq!(base.fg, Some(Color::White));
    assert_eq!(base.bg, Some(Color::Black));
}

#[test]
fn test_theme_helper_styles() {
    let theme = Theme::dark();

    assert_eq!(theme.primary_style().fg, Some(Color::Blue));
    assert_eq!(theme.secondary_style().fg, Some(Color::Cyan));
    assert_eq!(theme.accent_style().fg, Some(Color::Magenta));
    assert_eq!(theme.error_style().fg, Some(Color::Red));
    assert_eq!(theme.warning_style().fg, Some(Color::Yellow));
    assert_eq!(theme.success_style().fg, Some(Color::Green));
}

#[test]
fn test_theme_default() {
    let theme = Theme::default();
    assert_eq!(theme.name, "Dark");
}

#[test]
fn test_color_palette_default() {
    let palette = ColorPalette::default();
    assert_eq!(palette.background, Color::Black);
    assert_eq!(palette.foreground, Color::White);
}

#[test]
fn test_default_styles_generated() {
    let theme = Theme::dark();

    assert!(theme.styles.contains_key("base"));
    assert!(theme.styles.contains_key("title"));
    assert!(theme.styles.contains_key("border"));
    assert!(theme.styles.contains_key("selected"));
    assert!(theme.styles.contains_key("error"));
    assert!(theme.styles.contains_key("warning"));
    assert!(theme.styles.contains_key("success"));
    assert!(theme.styles.contains_key("gauge_bar"));
    assert!(theme.styles.contains_key("table_header"));
    assert!(theme.styles.contains_key("list_selected"));
    assert!(theme.styles.contains_key("tab_active"));
}

#[test]
fn test_style_map_replaces_on_insert() {
    let mut theme = Theme::dark();
    theme.set_style("custom", Style::new().fg(Color::Red));
    theme.set_style("custom", Style::new().fg(Color::Green));

    assert_eq!(theme.get_style("custom").fg, Some(Color::Green));
    assert_eq!(theme.styles.get("custom").unwrap().fg, Some(Color::Green));
}
