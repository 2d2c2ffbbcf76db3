//! Tests for the dashboard engine, its events, and the overlay.

use fusabi_tui::dashboard::DashboardEngine;
use fusabi_tui::error::{EngineError, LoadError};
use fusabi_tui::event::{Action, Event, KeyCode, KeyEvent, KeyModifiers};
use fusabi_tui::overlay::{ErrorMessage, ErrorOverlay, ErrorSeverity};
use fusabi_tui::buffer::Buffer;
use fusabi_tui::layout::Rect;
use fusabi_tui::renderer::RenderError;
use fusabi_tui::test_render::TestRenderer;

#[test]
fn test_dashboard_engine_new() {
    let renderer = TestRenderer::new(80, 24);
    let engine = DashboardEngine::new(renderer, String::from("."));

    assert_eq!(engine.root_path(), ".");
    assert!(!engine.is_hot_reload_enabled());
    assert!(engine.entry_file().is_none());
}

#[test]
fn test_load_file() {
    let renderer = TestRenderer::new(80, 24);
    let mut engine = DashboardEngine::new(renderer, String::from("."));

    engine.loader_mut().provide("./dashboard.fsx", "let x = 42\n");

    let result = engine.load("dashboard.fsx");
    assert!(result.is_ok());
    assert!(engine.entry_file().is_some());
}

#[test]
fn test_enable_hot_reload() {
    let renderer = TestRenderer::new(80, 24);
    let mut engine = DashboardEngine::new(renderer, String::from("."));

    assert!(!engine.is_hot_reload_enabled());

    let result = engine.enable_hot_reload();
    assert!(result.is_ok());
    assert!(engine.is_hot_reload_enabled());

    engine.disable_hot_reload();
    assert!(!engine.is_hot_reload_enabled());
}

#[test]
fn test_poll_changes_without_watcher() {
    let renderer = TestRenderer::new(80, 24);
    let mut engine = DashboardEngine::new(renderer, String::from("."));

    let changes = engine.poll_changes();
    assert!(changes.is_none());
}

#[test]
fn test_poll_changes_with_watcher() {
    let renderer = TestRenderer::new(80, 24);
    let mut engine = DashboardEngine::new(renderer, String::from("."));

    engine.enable_hot_reload().unwrap();

    let changes = engine.poll_changes();
    assert!(changes.is_some());
    assert!(changes.unwrap().is_empty());
}

#[test]
fn test_handle_quit_event() {
    let renderer = TestRenderer::new(80, 24);
    let mut engine = DashboardEngine::new(renderer, String::from("."));

    let event = Event::Key(KeyEvent {
        code: KeyCode::Char('c'),
        modifiers: KeyModifiers::ctrl(),
    });

    let action = engine.handle_event(event).unwrap();
    assert_eq!(action, Action::Quit);
}

#[test]
fn test_handle_quit_event_overrides_state() {
    // Ctrl+C answers Quit whatever the engine is doing: with a file
    // loaded, hot reload on, and an error shown, the answer is the same.
    let renderer = TestRenderer::new(80, 24);
    let mut engine = DashboardEngine::new(renderer, String::from("."));
    engine.loader_mut().provide("./a.fsx", "x\n");
    engine.load("a.fsx").unwrap();
    engine.enable_hot_reload().unwrap();
    engine.show_error(&EngineError::InvalidState("boom".to_string()));

    let event = Event::Key(KeyEvent {
        code: KeyCode::Char('c'),
        modifiers: KeyModifiers::ctrl(),
    });
    let action = engine.handle_event(event).unwrap();
    assert_eq!(action, Action::Quit);
    assert!(engine.has_error());
}

#[test]
fn test_handle_reload_event() {
    let renderer = TestRenderer::new(80, 24);
    let mut engine = DashboardEngine::new(renderer, String::from("."));

    engine.loader_mut().provide("./dashboard.fsx", "let x = 42\n");
    engine.load("dashboard.fsx").unwrap();

    let event = Event::Key(KeyEvent {
        code: KeyCode::Char('r'),
        modifiers: KeyModifiers::ctrl(),
    });

    let action = engine.handle_event(event).unwrap();
    assert_eq!(action, Action::Render);
}

#[test]
fn test_handle_resize_event() {
    let renderer = TestRenderer::new(80, 24);
    let mut engine = DashboardEngine::new(renderer, String::from("."));

    let event = Event::Resize(100, 30);
    let action = engine.handle_event(event).unwrap();
    assert_eq!(action, Action::Render);
    assert!(engine.state().dirty);
}

#[test]
fn test_handle_dismiss_event() {
    let renderer = TestRenderer::new(80, 24);
    let mut engine = DashboardEngine::new(renderer, String::from("."));
    engine.show_error(&EngineError::InvalidState("boom".to_string()));
    assert!(engine.has_error());

    let event = Event::Key(KeyEvent {
        code: KeyCode::Char('d'),
        modifiers: KeyModifiers::ctrl(),
    });
    let action = engine.handle_event(event).unwrap();
    assert_eq!(action, Action::Render);
    assert!(!engine.has_error());

    let event = Event::Key(KeyEvent {
        code: KeyCode::Char('d'),
        modifiers: KeyModifiers::ctrl(),
    });
    let action = engine.handle_event(event).unwrap();
    assert_eq!(action, Action::Nothing);
}

#[test]
fn test_handle_file_change_event() {
    let renderer = TestRenderer::new(80, 24);
    let mut engine = DashboardEngine::new(renderer, String::from("."));
    engine.loader_mut().provide("./a.fsx", "one\n");
    engine.load("a.fsx").unwrap();

    engine.loader_mut().provide("./a.fsx", "two\n");
    let action = engine
        .handle_event(Event::FileChange("./a.fsx".to_string()))
        .unwrap();
    assert_eq!(action, Action::Render);
    assert_eq!(
        engine.loader().get("./a.fsx").unwrap().content,
        "two\n"
    );
}

#[test]
fn test_render() {
    let renderer = TestRenderer::new(80, 24);
    let mut engine = DashboardEngine::new(renderer, String::from("."));

    let result = engine.render();
    assert!(result.is_ok());
}

#[test]
fn dashboard_test_clear() {
    let renderer = TestRenderer::new(80, 24);
    let mut engine = DashboardEngine::new(renderer, String::from("."));

    let result = engine.clear();
    assert!(result.is_ok());
}

#[test]
fn test_engine_resilience() {
    // A failed load leaves the engine able to render, and a later
    // successful load does not dismiss a shown overlay by itself.
    let renderer = TestRenderer::new(80, 24);
    let mut engine = DashboardEngine::new(renderer, String::from("."));

    let result = engine.load("missing.fsx");
    assert!(result.is_err());
    match result {
        Err(EngineError::LoadError(LoadError::FileNotFound { path })) => {
            assert_eq!(path, "./missing.fsx");
        }
        _ => panic!("expected a file-not-found error"),
    }
    assert!(engine.render().is_ok());

    engine.show_error(&EngineError::InvalidState("load failed".to_string()));
    assert!(engine.has_error());
    assert!(engine.render().is_ok());

    engine.loader_mut().provide("./ok.fsx", "fine\n");
    assert!(engine.load("ok.fsx").is_ok());
    assert!(engine.has_error());

    engine.dismiss_error();
    assert!(!engine.has_error());
}

#[test]
fn test_reload_without_entry_fails() {
    let renderer = TestRenderer::new(80, 24);
    let mut engine = DashboardEngine::new(renderer, String::from("."));
    let result = engine.reload();
    assert!(matches!(result, Err(EngineError::InvalidState(_))));
}

#[test]
fn test_error_message_new() {
    let msg = ErrorMessage::new("Test Error", "This is a test error message");
    assert_eq!(msg.title, "Test Error");
    assert_eq!(msg.message, "This is a test error message");
    assert_eq!(msg.severity, ErrorSeverity::Error);
}

#[test]
fn test_error_message_with_source() {
    let msg = ErrorMessage::new("Error", "Message").with_source("test.fsx");
    assert_eq!(msg.source, Some("test.fsx".to_string()));
}

#[test]
fn test_error_message_with_location() {
    let msg = ErrorMessage::new("Error", "Message").with_line(42).with_column(10);
    assert_eq!(msg.line, Some(42));
    assert_eq!(msg.column, Some(10));
}

#[test]
fn test_error_message_with_hints() {
    let msg = ErrorMessage::new("Error", "Message")
        .with_hint("Hint 1")
        .with_hint("Hint 2");
    assert_eq!(msg.hints.len(), 2);
    assert_eq!(msg.hints[0], "Hint 1");
    assert_eq!(msg.hints[1], "Hint 2");
}

#[test]
fn test_error_severity_as_str() {
    assert_eq!(ErrorSeverity::Error.as_str(), "ERROR");
    assert_eq!(ErrorSeverity::Warning.as_str(), "WARNING");
    assert_eq!(ErrorSeverity::Info.as_str(), "INFO");
}

#[test]
fn test_error_overlay_new() {
    let msg = ErrorMessage::new("Test", "Message");
    let overlay = ErrorOverlay::new(msg);
    assert!(overlay.is_visible());
}

#[test]
fn test_error_overlay_dismiss() {
    let msg = ErrorMessage::new("Test", "Message");
    let mut overlay = ErrorOverlay::new(msg);
    assert!(overlay.is_visible());

    overlay.dismiss();
    assert!(!overlay.is_visible());
}

#[test]
fn test_error_overlay_auto_dismiss_deadline() {
    // Stepping the clock explicitly: before the deadline the overlay
    // stays, at the deadline it hides.
    let msg = ErrorMessage::new("Test", "Message");
    let mut overlay = ErrorOverlay::new(msg).with_auto_dismiss(50);
    let shown_at = overlay.timestamp;

    overlay.update_at(shown_at + 49);
    assert!(overlay.is_visible());

    overlay.update_at(shown_at + 50);
    assert!(!overlay.is_visible());
}

#[test]
fn test_error_overlay_update_without_deadline() {
    let msg = ErrorMessage::new("Test", "Message");
    let mut overlay = ErrorOverlay::new(msg);
    overlay.update();
    assert!(overlay.is_visible());
}

#[test]
fn test_error_overlay_show_again() {
    let msg = ErrorMessage::new("Test", "Message");
    let mut overlay = ErrorOverlay::new(msg);
    overlay.dismiss();
    assert!(!overlay.is_visible());
    overlay.show();
    assert!(overlay.is_visible());
}

#[test]
fn test_from_engine_error_severities() {
    let load = EngineError::LoadError(LoadError::FileNotFound {
        path: "a.fsx".to_string(),
    });
    let m = ErrorMessage::from_engine_error(&load);
    assert_eq!(m.title, "File Not Found");
    assert_eq!(m.severity, ErrorSeverity::Error);
    assert_eq!(m.source, Some("a.fsx".to_string()));
    assert_eq!(m.hints.len(), 2);

    let invalid = EngineError::InvalidState("nope".to_string());
    let m = ErrorMessage::from_engine_error(&invalid);
    assert_eq!(m.title, "Invalid State");
    assert_eq!(m.message, "nope");
}

#[test]
fn test_load_error_messages() {
    let e = LoadError::FileNotFound { path: "p.fsx".to_string() };
    assert_eq!(e.message(), "file not found: p.fsx");

    let e = LoadError::ReadFailed { path: "p.fsx".to_string(), reason: "denied".to_string() };
    assert_eq!(e.message(), "failed to read: p.fsx");

    let e = LoadError::ParseFailed { path: "p.fsx".to_string(), reason: "syntax".to_string() };
    assert_eq!(e.message(), "failed to parse: p.fsx");

    let e = LoadError::Other { reason: "odd".to_string() };
    assert_eq!(e.message(), "load error: odd");
}

#[test]
fn test_from_engine_error_warning_kinds() {
    let watch = EngineError::WatchError(fusabi_tui::error::WatchError {
        reason: "stopped".to_string(),
    });
    let m = ErrorMessage::from_engine_error(&watch);
    assert_eq!(m.title, "Watch Error");
    assert_eq!(m.severity, ErrorSeverity::Warning);

    let render = EngineError::Render(fusabi_tui::renderer::RenderError::Backend(
        "broken pipe".to_string(),
    ));
    let m = ErrorMessage::from_engine_error(&render);
    assert_eq!(m.title, "Render Error");
    assert_eq!(m.severity, ErrorSeverity::Warning);
}

#[test]
fn test_render_error_messages() {
    assert_eq!(RenderError::Io("gone".to_string()).message(), "IO error: gone");
    assert_eq!(
        RenderError::Backend("oops".to_string()).message(),
        "Backend error: oops"
    );
    let mismatch = RenderError::SizeMismatch {
        expected: Rect::new(0, 0, 80, 24),
        actual: Rect::new(0, 0, 10, 10),
    };
    assert_eq!(mismatch.message(), "Size mismatch");
}

#[test]
fn test_overlay_render_draws_panel() {
    let msg = ErrorMessage::new("Broken", "something failed")
        .with_source("dash.fsx")
        .with_line(3)
        .with_column(7)
        .with_hint("try again");
    let overlay = ErrorOverlay::new(msg);

    let area = Rect::new(0, 0, 40, 20);
    let mut buffer = Buffer::new(area);
    overlay.render(area, &mut buffer);

    // The centered panel covers 80% x 60%: a border corner appears at
    // the panel's top-left, (4, 4) for this area.
    assert_eq!(buffer.get(4, 4).unwrap().symbol, "╭");
    // A hidden overlay paints nothing.
    let mut hidden = ErrorOverlay::new(ErrorMessage::new("t", "m"));
    hidden.dismiss();
    let mut untouched = Buffer::new(area);
    hidden.render(area, &mut untouched);
    assert_eq!(untouched.get(4, 4).unwrap().symbol, " ");
}

#[test]
fn test_reload_refreshes_cache() {
    let renderer = TestRenderer::new(80, 24);
    let mut engine = DashboardEngine::new(renderer, String::from("."));
    engine.loader_mut().provide("./a.fsx", "one\n");
    engine.load("a.fsx").unwrap();
    assert_eq!(engine.loader().get("./a.fsx").unwrap().content, "one\n");

    engine.loader_mut().provide("./a.fsx", "two\n");
    let event = Event::Key(KeyEvent {
        code: KeyCode::Char('r'),
        modifiers: KeyModifiers::ctrl(),
    });
    assert_eq!(engine.handle_event(event).unwrap(), Action::Render);
    assert_eq!(engine.loader().get("./a.fsx").unwrap().content, "two\n");
}

#[test]
fn test_reload_event_fails_when_store_empty() {
    // Ctrl+R with nothing ever loaded propagates the reload error
    // instead of swallowing it.
    let renderer = TestRenderer::new(80, 24);
    let mut engine = DashboardEngine::new(renderer, String::from("."));
    let event = Event::Key(KeyEvent {
        code: KeyCode::Char('r'),
        modifiers: KeyModifiers::ctrl(),
    });
    assert!(engine.handle_event(event).is_err());
}

#[test]
fn test_overlay_render_keeps_surroundings() {
    // A visible overlay only paints its centered panel; the backdrop
    // outside it stays exactly as it was.
    let msg = ErrorMessage::new("Broken", "something failed");
    let overlay = ErrorOverlay::new(msg);

    let area = Rect::new(0, 0, 40, 20);
    let mut buffer = Buffer::new(area);
    buffer.set_string(0, 0, "backdrop", fusabi_tui::style::Style::new());
    overlay.render(area, &mut buffer);

    // The panel covers columns 4..36 and rows 4..16; row 0 is outside it.
    assert_eq!(buffer.get(0, 0).unwrap().symbol, "b");
    assert_eq!(buffer.get(7, 0).unwrap().symbol, "p");
    // Inside the panel the frame was drawn.
    assert_eq!(buffer.get(4, 4).unwrap().symbol, "╭");
}

#[test]
fn test_render_paints_placeholder_frame() {
    // With nothing loaded the empty-state placeholder draws its
    // double-line frame; with an entry loaded the dashboard frame is
    // rounded. The drawn corner lands in the test backend's buffer.
    let renderer = TestRenderer::new(80, 24);
    let mut engine = DashboardEngine::new(renderer, String::from("."));
    engine.render().unwrap();
    assert_eq!(engine.renderer().buffer().get(0, 0).unwrap().symbol, "╔");

    engine.loader_mut().provide("./a.fsx", "x\n");
    engine.load("a.fsx").unwrap();
    engine.render().unwrap();
    assert_eq!(engine.renderer().buffer().get(0, 0).unwrap().symbol, "╭");
}

#[test]
fn test_show_error_content_matches_error() {
    let renderer = TestRenderer::new(80, 24);
    let mut engine = DashboardEngine::new(renderer, String::from("."));
    engine.show_error(&EngineError::LoadError(LoadError::FileNotFound {
        path: "gone.fsx".to_string(),
    }));
    let overlay = engine.error_overlay().unwrap();
    assert_eq!(overlay.error.title, "File Not Found");
    assert_eq!(overlay.error.message, "Could not find file: gone.fsx");
    assert_eq!(overlay.error.source, Some("gone.fsx".to_string()));
    assert_eq!(overlay.error.hints.len(), 2);
}
