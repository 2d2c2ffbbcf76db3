//! The per-session dashboard state: a dirty flag and a widget registry.

use vstd::prelude::*;

verus! {

/// State the engine and the render callback share: whether the next
/// render must repaint, and the registered widget names.
#[derive(Debug, Clone)]
pub struct DashboardState {
    /// Whether state changed since the last successful draw
    pub dirty: bool,
    /// The registered widgets, in registration order
    pub widgets: Vec<String>,
}

impl DashboardState {
    /// A fresh state: clean, with no widgets.
    pub fn new() -> (s: Self)
        ensures
            !s.dirty,
            s.widgets@.len() == 0,
    {
        DashboardState { dirty: false, widgets: Vec::new() }
    }

    /// Marks that the next render must repaint.
    pub fn mark_dirty(&mut self)
        ensures
            final(self).dirty,
            final(self).widgets == old(self).widgets,
    {
        self.dirty = true;
    }

    /// Records a successful draw.
    pub fn clear_dirty(&mut self)
        ensures
            !final(self).dirty,
            final(self).widgets == old(self).widgets,
    {
        self.dirty = false;
    }

    /// Registers a widget name.
    pub fn register_widget(&mut self, name: String)
        ensures
            final(self).dirty == old(self).dirty,
            final(self).widgets@ == old(self).widgets@.push(name),
    {
        self.widgets.push(name);
    }

    /// Forgets all widgets and marks the state dirty (the emptied screen
    /// must be repainted).
    pub fn clear(&mut self)
        ensures
            final(self).dirty,
            final(self).widgets@.len() == 0,
    {
        self.widgets = Vec::new();
        self.dirty = true;
    }
}

impl Default for DashboardState {
    /// The default state is a fresh one.
    fn default() -> (s: Self)
        ensures
            !s.dirty,
            s.widgets@.len() == 0,
    {
        Self::new()
    }
}

} // verus!
