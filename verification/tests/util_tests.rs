//! Tests for the test-support helpers and the string utilities.

use fusabi_tui::strutil::{join_path, parent_dir, replace_all, split_lines, u64_to_dec};
use fusabi_tui::testutil::{normalize_screen, PerformanceMetrics, TerminalPreset};

#[test]
fn test_terminal_presets() {
    assert_eq!(TerminalPreset::Standard.dimensions(), (80, 24));
    assert_eq!(TerminalPreset::Large.dimensions(), (120, 40));
    assert_eq!(TerminalPreset::Small.dimensions(), (40, 12));
    assert_eq!(TerminalPreset::Wide.dimensions(), (200, 24));
    assert_eq!(TerminalPreset::Tall.dimensions(), (80, 60));
}

#[test]
fn test_performance_metrics() {
    let mut metrics = PerformanceMetrics::new();
    metrics.record_update();
    metrics.record_update();
    metrics.record_wait(100);
    metrics.record_memory(1024);

    assert_eq!(metrics.update_count, 2);
    assert_eq!(metrics.total_wait_time_ms, 100);
    assert_eq!(metrics.peak_memory_bytes, 1024);
}

#[test]
fn test_normalize_screen() {
    let contents = "Counter: 42\nUptime: 123s\nVersion: 0.1.1";
    let normalized = normalize_screen(
        contents,
        &[("Counter: 42", "Counter: <N>"), ("Uptime: 123s", "Uptime: <N>s")],
    );

    assert!(normalized.contains("Counter: <N>"));
    assert!(normalized.contains("Uptime: <N>s"));
    assert!(normalized.contains("Version: 0.1.1"));
}

#[test]
fn test_replace_all_non_overlapping() {
    assert_eq!(replace_all("aaa", "aa", "b"), "ba");
    assert_eq!(replace_all("hello", "l", "L"), "heLLo");
    assert_eq!(replace_all("hello", "zz", "x"), "hello");
}

#[test]
fn test_split_and_join_lines() {
    let lines = split_lines("a\nb\n\nc");
    assert_eq!(lines, vec!["a", "b", "", "c"]);

    let lines = split_lines("");
    assert_eq!(lines, vec![""]);

    let lines = split_lines("trailing\n");
    assert_eq!(lines, vec!["trailing", ""]);
}

#[test]
fn test_u64_to_dec() {
    assert_eq!(u64_to_dec(0), "0");
    assert_eq!(u64_to_dec(7), "7");
    assert_eq!(u64_to_dec(1234567890), "1234567890");
}

#[test]
fn test_join_path_and_parent() {
    assert_eq!(join_path("/a/b", "c.fsx"), "/a/b/c.fsx");
    assert_eq!(join_path("/a/b", "/abs.fsx"), "/abs.fsx");
    assert_eq!(join_path("", "c.fsx"), "c.fsx");
    assert_eq!(parent_dir("/a/b/c.fsx"), "/a/b");
    assert_eq!(parent_dir("c.fsx"), "");
}
