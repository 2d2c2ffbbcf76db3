//! Tests for directive parsing, hashing, and the evaluation context.

use fusabi_tui::loader::FileLoader;
use fusabi_tui::runtime::{
    extract_quoted_string, hash_source, parse_load_directives, FusabiContext,
};
use fusabi_tui::watcher::FileWatcher;

#[test]
fn test_parse_load_directives() {
    let source = r#"
// Dashboard file
#load "../tui.fsx"
#load "widgets/block.fsx"

let x = 42
"#;
    let deps = parse_load_directives(source, "/app/fsx/dashboard.fsx");

    assert_eq!(deps.len(), 2);
    assert!(deps[0].ends_with("tui.fsx"));
    assert!(deps[1].ends_with("block.fsx"));
}

#[test]
fn test_parse_load_directives_paths() {
    let source = "#load \"a.fsx\"\n#load \"/abs/b.fsx\"\n";
    let deps = parse_load_directives(source, "/root/entry.fsx");
    assert_eq!(deps.len(), 2);
    assert_eq!(deps[0], "/root/a.fsx");
    assert_eq!(deps[1], "/abs/b.fsx");
}

#[test]
fn test_extract_quoted_string() {
    assert_eq!(extract_quoted_string(r#""hello""#), Some("hello"));
    assert_eq!(extract_quoted_string(r#"  "path/to/file"  "#), Some("path/to/file"));
    assert_eq!(extract_quoted_string(r#"unquoted"#), None);
    assert_eq!(extract_quoted_string(r#""unclosed"#), None);
}

#[test]
fn test_hash_source() {
    let hash1 = hash_source("let x = 42");
    let hash2 = hash_source("let x = 42");
    let hash3 = hash_source("let x = 43");

    assert_eq!(hash1, hash2);
    assert_ne!(hash1, hash3);
}

#[test]
fn test_fusabi_context_new() {
    let ctx = FusabiContext::new(String::from("test.fsx"));
    assert!(!ctx.is_initialized());
    assert!(!ctx.registered_functions().is_empty());
}

#[test]
fn test_fusabi_context_registered_functions() {
    let ctx = FusabiContext::new(String::from("test.fsx"));
    let funcs = ctx.registered_functions();

    assert!(funcs.contains(&"tui.color.rgb".to_string()));
    assert!(funcs.contains(&"tui.style.new".to_string()));
    assert!(funcs.contains(&"tui.layout.rect".to_string()));
    assert!(funcs.contains(&"tui.widget.block".to_string()));
    assert!(funcs.contains(&"tui.buffer.setString".to_string()));
}

#[test]
fn test_fusabi_context_evaluate() {
    let mut ctx = FusabiContext::new(String::from("test.fsx"));
    assert!(ctx.evaluate("let x = 1").is_ok());
    assert!(ctx.is_initialized());
    ctx.invalidate(&vec!["test.fsx".to_string()]);
    assert!(!ctx.is_initialized());
}

#[test]
fn test_loader_load_and_invalidate() {
    let mut loader = FileLoader::new();
    loader.provide("/d/main.fsx", "#load \"lib.fsx\"\nbody\n");
    loader.provide("/d/lib.fsx", "helpers\n");

    let lf = loader.load("/d/main.fsx").unwrap();
    assert_eq!(lf.path, "/d/main.fsx");
    assert_eq!(lf.dependencies, vec!["/d/lib.fsx".to_string()]);

    loader.load("/d/lib.fsx").unwrap();
    assert!(loader.get("/d/main.fsx").is_some());
    assert!(loader.get("/d/lib.fsx").is_some());

    // Invalidating the library also drops the file depending on it.
    let removed = loader.invalidate("/d/lib.fsx");
    assert!(removed.contains(&"/d/lib.fsx".to_string()));
    assert!(removed.contains(&"/d/main.fsx".to_string()));
    assert!(loader.get("/d/main.fsx").is_none());
    assert!(loader.get("/d/lib.fsx").is_none());
}

#[test]
fn test_loader_missing_file() {
    let mut loader = FileLoader::new();
    let r = loader.load("/nope.fsx");
    assert!(r.is_err());
}

#[test]
fn test_watcher_poll_drains() {
    let mut w = FileWatcher::new(100).unwrap();
    assert_eq!(w.debounce_ms(), 100);
    w.watch("/a").unwrap();
    w.record_change("/a");
    w.record_change("/a");
    w.record_change("/unwatched");

    let changed = w.poll();
    assert_eq!(changed, vec!["/a".to_string()]);
    assert!(w.poll().is_empty());
}

#[test]
fn test_loader_invalidate_keeps_independents() {
    // Invalidation drops only the path and what depends on it.
    let mut loader = FileLoader::new();
    loader.provide("/d/main.fsx", "#load \"lib.fsx\"\n");
    loader.provide("/d/lib.fsx", "helpers\n");
    loader.provide("/d/other.fsx", "standalone\n");
    loader.load("/d/main.fsx").unwrap();
    loader.load("/d/lib.fsx").unwrap();
    loader.load("/d/other.fsx").unwrap();

    let removed = loader.invalidate("/d/lib.fsx");
    assert_eq!(removed.len(), 2);
    assert!(loader.get("/d/other.fsx").is_some());
}
