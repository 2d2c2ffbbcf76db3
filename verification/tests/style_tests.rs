//! Tests for colors, modifiers and styles.

use fusabi_tui::style::{Color, Modifier, Style};

#[test]
fn test_color_default() {
    assert_eq!(Color::default(), Color::Reset);
}

#[test]
fn test_color_display() {
    assert_eq!(Color::Red.to_string(), "Red");
    assert_eq!(Color::Rgb(255, 128, 0).to_string(), "Rgb(255, 128, 0)");
    assert_eq!(Color::Indexed(42).to_string(), "Indexed(42)");
}

#[test]
fn test_modifier_empty() {
    let m = Modifier::empty();
    assert!(m.is_empty());
    assert_eq!(m.bits(), 0);
}

#[test]
fn test_modifier_insert() {
    let m = Modifier::bold().insert(Modifier::italic());
    assert!(m.contains(Modifier::bold()));
    assert!(m.contains(Modifier::italic()));
    assert!(!m.contains(Modifier::underlined()));
}

#[test]
fn test_modifier_remove() {
    let m = Modifier::bold()
        .insert(Modifier::italic())
        .remove(Modifier::bold());
    assert!(!m.contains(Modifier::bold()));
    assert!(m.contains(Modifier::italic()));
}

#[test]
fn test_modifier_toggle() {
    let m = Modifier::bold().toggle(Modifier::bold());
    assert!(!m.contains(Modifier::bold()));

    let m = Modifier::bold().toggle(Modifier::italic());
    assert!(m.contains(Modifier::bold()));
    assert!(m.contains(Modifier::italic()));
}

#[test]
fn test_modifier_bitops() {
    let m1 = Modifier::bold() | Modifier::italic();
    assert!(m1.contains(Modifier::bold()));
    assert!(m1.contains(Modifier::italic()));

    let m2 = m1 & Modifier::bold();
    assert!(m2.contains(Modifier::bold()));
    assert!(!m2.contains(Modifier::italic()));

    let m3 = !Modifier::bold();
    assert!(!m3.contains(Modifier::bold()));
}

#[test]
fn test_modifier_from_bits() {
    let m = Modifier::from_bits(0b101);
    assert_eq!(m.bits(), 0b101);
}

#[test]
fn test_style_default() {
    let style = Style::default();
    assert_eq!(style.fg, None);
    assert_eq!(style.bg, None);
    assert!(style.modifiers.is_empty());
}

#[test]
fn test_style_builder() {
    let style = Style::new()
        .fg(Color::Red)
        .bg(Color::Black)
        .add_modifier(Modifier::bold())
        .add_modifier(Modifier::italic());

    assert_eq!(style.fg, Some(Color::Red));
    assert_eq!(style.bg, Some(Color::Black));
    assert!(style.modifiers.contains(Modifier::bold()));
    assert!(style.modifiers.contains(Modifier::italic()));
}

#[test]
fn test_style_remove_modifier() {
    let style = Style::new()
        .add_modifier(Modifier::bold())
        .add_modifier(Modifier::italic())
        .remove_modifier(Modifier::bold());

    assert!(!style.modifiers.contains(Modifier::bold()));
    assert!(style.modifiers.contains(Modifier::italic()));
}

#[test]
fn test_style_reset() {
    let style = Style::new()
        .fg(Color::Red)
        .bg(Color::Black)
        .add_modifier(Modifier::bold())
        .reset();

    assert_eq!(style.fg, None);
    assert_eq!(style.bg, None);
    assert!(style.modifiers.is_empty());
}

#[test]
fn test_style_patch() {
    let style1 = Style::new().fg(Color::Red).add_modifier(Modifier::bold());

    let style2 = Style::new().bg(Color::Black).add_modifier(Modifier::italic());

    let patched = style1.patch(style2);
    assert_eq!(patched.fg, Some(Color::Red));
    assert_eq!(patched.bg, Some(Color::Black));
    assert!(patched.modifiers.contains(Modifier::bold()));
    assert!(patched.modifiers.contains(Modifier::italic()));
}

#[test]
fn test_style_patch_override() {
    let style1 = Style::new().fg(Color::Red);
    let style2 = Style::new().fg(Color::Blue);
    let patched = style1.patch(style2);
    assert_eq!(patched.fg, Some(Color::Blue));
}
