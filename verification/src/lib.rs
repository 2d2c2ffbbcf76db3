//! A terminal-rendering core: a cell-grid buffer model with differential
//! updates, a constraint-based rectangular layout solver, and a
//! hot-reloadable dashboard engine with an error-overlay state machine.
//!
//! The foundation is in [`style`], [`layout`] and [`buffer`]; widgets
//! paint through the [`widget`] traits; output backends implement
//! [`renderer::Renderer`]; and [`dashboard::DashboardEngine`] drives the
//! load / reload / render / event loop over all of it.

pub mod barchart;
pub mod block;
pub mod buffer;
pub mod clear;
pub mod clock;
pub mod dashboard;
pub mod error;
pub mod event;
pub mod layout;
pub mod loader;
pub mod overlay;
pub mod paragraph;
pub mod renderer;
pub mod runtime;
pub mod scrollbar;
pub mod state;
pub mod strutil;
pub mod style;
pub mod symbols;
pub mod terminal;
pub mod test_render;
pub mod testutil;
pub mod theme;
pub mod watcher;
pub mod widget;
pub mod width;
