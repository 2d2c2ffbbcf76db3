//! The dashboard engine: the orchestrator that owns the renderer, the
//! file loader, the optional watcher, the session state, and the error
//! overlay, and drives the load / reload / render / event loop.

use crate::block::{corner_claim_holds, Block, BorderType, Borders, Title};
use crate::buffer::Buffer;
use crate::error::{EngineError, EngineResult, LoadError};
use crate::event::{Action, Event, KeyCode};
use crate::layout::Rect;
use crate::loader::{assoc_lookup, FileLoader};
use crate::overlay::ErrorOverlay;
use crate::paragraph::Paragraph;
use crate::renderer::Renderer;
use crate::state::DashboardState;
use crate::strutil::{join_path, join_path_spec, u64_to_dec};
use crate::style::{Color, Modifier, Style};
use crate::watcher::FileWatcher;
use crate::widget::Widget;
use vstd::prelude::*;

verus! {

/// Externally supplied paint logic: the engine calls it each frame with
/// the frame's buffer, the area, and a read-only view of the state.
/// Nothing is assumed of what it paints.
pub trait RenderCallback: Send + Sync {
    /// Paints the widget tree for one frame.
    fn paint(&self, buffer: &mut Buffer, area: Rect, state: &DashboardState);
}

/// The dashboard engine.
pub struct DashboardEngine<R: Renderer> {
    /// The output backend
    pub renderer: R,
    /// The file store and cache
    pub loader: FileLoader,
    /// The watcher, when hot reload is enabled
    pub watcher: Option<FileWatcher>,
    /// The session state
    pub state: DashboardState,
    /// The directory relative paths resolve against
    pub root_path: String,
    /// The resolved path of the loaded entry file, if any
    pub entry_file: Option<String>,
    /// The error overlay, if one was shown
    pub error_overlay: Option<ErrorOverlay>,
    /// The paint logic, if the host installed one
    pub render_callback: Option<Box<dyn RenderCallback>>,
}

impl<R: Renderer> DashboardEngine<R> {
    /// The engine's structural invariant: its loader is well formed.
    pub open spec fn wf(self) -> bool {
        self.loader.wf()
    }

    /// Creates an engine around a renderer, resolving relative paths
    /// against `root_path`: nothing loaded, no watcher, no overlay, no
    /// callback.
    pub fn new(renderer: R, root_path: String) -> (e: Self)
        ensures
            e.wf(),
            e.root_path == root_path,
            e.watcher is None,
            e.entry_file is None,
            e.error_overlay is None,
            e.render_callback is None,
            !e.state.dirty,
            e.loader.files@.len() == 0,
            e.loader.cache@.len() == 0,
    {
        DashboardEngine {
            renderer,
            loader: FileLoader::new(),
            watcher: Option::None,
            state: DashboardState::new(),
            root_path,
            entry_file: Option::None,
            error_overlay: Option::None,
            render_callback: Option::None,
        }
    }

    /// Installs the paint logic used by `render`.
    pub fn set_render_callback(&mut self, callback: Box<dyn RenderCallback>)
        ensures
            final(self).render_callback is Some,
            final(self).renderer == old(self).renderer,
            final(self).loader == old(self).loader,
            final(self).watcher == old(self).watcher,
            final(self).state == old(self).state,
            final(self).root_path == old(self).root_path,
            final(self).entry_file == old(self).entry_file,
            final(self).error_overlay == old(self).error_overlay,
    {
        self.render_callback = Option::Some(callback);
    }

    /// Removes the paint logic; `render` falls back to its placeholders.
    pub fn clear_render_callback(&mut self)
        ensures
            final(self).render_callback is None,
            final(self).renderer == old(self).renderer,
            final(self).loader == old(self).loader,
            final(self).watcher == old(self).watcher,
            final(self).state == old(self).state,
            final(self).root_path == old(self).root_path,
            final(self).entry_file == old(self).entry_file,
            final(self).error_overlay == old(self).error_overlay,
    {
        self.render_callback = Option::None;
    }

    /// Shows an error as an overlay, replacing any earlier one, and
    /// marks the state dirty.
    pub fn show_error(&mut self, error: &EngineError)
        ensures
            final(self).error_overlay is Some,
            final(self).error_overlay.unwrap().visible,
            final(self).error_overlay.unwrap().auto_dismiss_after is None,
            crate::overlay::describes_engine_error(
                final(self).error_overlay.unwrap().error,
                *error,
            ),
            final(self).state.dirty,
            final(self).state.widgets == old(self).state.widgets,
            final(self).renderer == old(self).renderer,
            final(self).loader == old(self).loader,
            final(self).watcher == old(self).watcher,
            final(self).root_path == old(self).root_path,
            final(self).entry_file == old(self).entry_file,
    {
        self.error_overlay = Option::Some(ErrorOverlay::from_engine_error(error));
        self.state.mark_dirty();
    }

    /// Drops the error overlay; the state turns dirty exactly when there
    /// was one to drop.
    pub fn dismiss_error(&mut self)
        ensures
            final(self).error_overlay is None,
            final(self).state.dirty == (old(self).state.dirty || old(self).error_overlay is Some),
            final(self).state.widgets == old(self).state.widgets,
            final(self).renderer == old(self).renderer,
            final(self).loader == old(self).loader,
            final(self).watcher == old(self).watcher,
            final(self).root_path == old(self).root_path,
            final(self).entry_file == old(self).entry_file,
    {
        if self.error_overlay.is_some() {
            self.error_overlay = Option::None;
            self.state.mark_dirty();
        }
    }

    /// Whether an error overlay is currently shown.
    pub fn has_error(&self) -> (r: bool)
        ensures
            r == (self.error_overlay is Some && self.error_overlay.unwrap().visible),
    {
        match &self.error_overlay {
            Option::Some(o) => o.is_visible(),
            Option::None => false,
        }
    }

    /// The error overlay, if one exists.
    pub fn error_overlay(&self) -> (r: Option<&ErrorOverlay>)
        ensures
            match r {
                Option::Some(o) => self.error_overlay == Some(*o),
                Option::None => self.error_overlay is None,
            },
    {
        match &self.error_overlay {
            Option::Some(o) => Option::Some(o),
            Option::None => Option::None,
        }
    }

    /// Loads the entry file: resolves the path against the root, loads
    /// it through the loader, records it as the entry, registers it and
    /// its dependencies with the watcher, and marks the state dirty.
    /// Fails, leaving the engine untouched, exactly when no content is
    /// stored for the resolved path; the overlay is never touched, so a
    /// successful load alone does not dismiss an earlier error.
    pub fn load(&mut self, entry: &str) -> (r: EngineResult<()>)
        requires
            old(self).wf(),
        ensures
            final(self).wf(),
            final(self).renderer == old(self).renderer,
            final(self).root_path == old(self).root_path,
            final(self).error_overlay == old(self).error_overlay,
            final(self).state.widgets == old(self).state.widgets,
            r is Ok <==> assoc_lookup(
                old(self).loader.files@,
                join_path_spec(old(self).root_path@, entry@),
            ) is Some,
            r is Err ==> *final(self) == *old(self) && (match r {
                Result::Err(EngineError::LoadError(LoadError::FileNotFound { path })) => path@
                    == join_path_spec(old(self).root_path@, entry@),
                _ => false,
            }),
            final(self).loader.files == old(self).loader.files,
            r is Ok ==> final(self).entry_file is Some && final(self).entry_file.unwrap()@
                == join_path_spec(old(self).root_path@, entry@) && final(self).state.dirty && (
            final(self).watcher is Some <==> old(self).watcher is Some),
            r is Ok ==> {
                let p = join_path_spec(old(self).root_path@, entry@);
                &&& assoc_lookup(final(self).loader.cache@, p) is Some
                &&& assoc_lookup(final(self).loader.cache@, p).unwrap().content@ == assoc_lookup(
                    old(self).loader.files@,
                    p,
                ).unwrap()@
                &&& (forall|n: Seq<char>|
                    n != p ==> assoc_lookup(final(self).loader.cache@, n) == assoc_lookup(
                        old(self).loader.cache@,
                        n,
                    ))
                &&& (old(self).watcher is Some ==> crate::watcher::holds_str(
                    final(self).watcher.unwrap().watched@,
                    p,
                ) && (forall|i: int|
                    0 <= i < assoc_lookup(
                        final(self).loader.cache@,
                        p,
                    ).unwrap().dependencies@.len() ==> crate::watcher::holds_str(
                        final(self).watcher.unwrap().watched@,
                        (#[trigger] assoc_lookup(
                            final(self).loader.cache@,
                            p,
                        ).unwrap().dependencies@[i])@,
                    )))
            },
    {
        let path = join_path(self.root_path.as_str(), entry);

        let loaded_file = match self.loader.load(path.as_str()) {
            Result::Ok(lf) => lf,
            Result::Err(e) => {
                return Result::Err(EngineError::LoadError(e));
            },
        };

        self.entry_file = Option::Some(loaded_file.path.clone());

        if self.watcher.is_some() {
            self.watch_paths(&loaded_file);
        }

        self.state.mark_dirty();
        proof {
            let p = path@;
            let cached = assoc_lookup(self.loader.cache@, p).unwrap();
            assert(cached.dependencies@.map_values(|d: String| d@).len()
                == cached.dependencies@.len());
            assert(loaded_file.dependencies@.map_values(|d: String| d@).len()
                == loaded_file.dependencies@.len());
            assert forall|i: int| 0 <= i < cached.dependencies@.len() implies (
            #[trigger] cached.dependencies@[i])@ == loaded_file.dependencies@[i]@ by {
                assert(cached.dependencies@.map_values(|d: String| d@)[i] == cached.dependencies@[
                    i
                ]@);
                assert(loaded_file.dependencies@.map_values(|d: String| d@)[i]
                    == loaded_file.dependencies@[i]@);
            }
        }
        Result::Ok(())
    }

    /// Registers a loaded file and its dependencies with the watcher:
    /// afterwards the watcher covers everything it covered before, plus
    /// the file's path and each of its dependency paths.
    fn watch_paths(&mut self, loaded_file: &crate::loader::LoadedFile)
        requires
            old(self).watcher is Some,
        ensures
            final(self).watcher is Some,
            final(self).watcher.unwrap().debounce_ms == old(self).watcher.unwrap().debounce_ms,
            final(self).watcher.unwrap().pending == old(self).watcher.unwrap().pending,
            forall|p: Seq<char>|
                crate::watcher::holds_str(old(self).watcher.unwrap().watched@, p)
                    ==> crate::watcher::holds_str(final(self).watcher.unwrap().watched@, p),
            crate::watcher::holds_str(
                final(self).watcher.unwrap().watched@,
                loaded_file.path@,
            ),
            forall|i: int|
                0 <= i < loaded_file.dependencies@.len() ==> crate::watcher::holds_str(
                    final(self).watcher.unwrap().watched@,
                    (#[trigger] loaded_file.dependencies@[i])@,
                ),
            final(self).renderer == old(self).renderer,
            final(self).loader == old(self).loader,
            final(self).state == old(self).state,
            final(self).root_path == old(self).root_path,
            final(self).entry_file == old(self).entry_file,
            final(self).error_overlay == old(self).error_overlay,
            final(self).render_callback == old(self).render_callback,
    {
        let w = match &mut self.watcher {
            Option::Some(w) => w,
            Option::None => {
                // unreachable: a watcher is required
                proof {
                    assert(false);
                }
                return ;
            },
        };
        let ghost watched0 = w.watched@;
        let _ = w.watch(loaded_file.path.as_str());
        let n = loaded_file.dependencies.len();
        let mut i: usize = 0;
        while i < n
            invariant
                n == loaded_file.dependencies@.len(),
                i <= n,
                w.debounce_ms == old(self).watcher.unwrap().debounce_ms,
                w.pending == old(self).watcher.unwrap().pending,
                forall|p: Seq<char>|
                    crate::watcher::holds_str(watched0, p) ==> crate::watcher::holds_str(
                        w.watched@,
                        p,
                    ),
                crate::watcher::holds_str(w.watched@, loaded_file.path@),
                forall|j: int|
                    0 <= j < i ==> crate::watcher::holds_str(
                        w.watched@,
                        (#[trigger] loaded_file.dependencies@[j])@,
                    ),
            decreases n - i,
        {
            let _ = w.watch(loaded_file.dependencies[i].as_str());
            i = i + 1;
        }
    }

    /// Reloads the entry file: invalidates its cache entry and every
    /// dependent, loads it afresh, re-registers watches, and marks the
    /// state dirty. Fails with `InvalidState`, leaving the engine
    /// untouched, when nothing has ever been loaded; fails with the load
    /// error when the entry's content is gone from the store.
    pub fn reload(&mut self) -> (r: EngineResult<()>)
        requires
            old(self).wf(),
        ensures
            final(self).wf(),
            final(self).renderer == old(self).renderer,
            final(self).root_path == old(self).root_path,
            final(self).error_overlay == old(self).error_overlay,
            final(self).entry_file == old(self).entry_file,
            final(self).state.widgets == old(self).state.widgets,
            old(self).entry_file is None ==> *final(self) == *old(self) && (match r {
                Result::Err(EngineError::InvalidState(_)) => true,
                _ => false,
            }),
            final(self).loader.files == old(self).loader.files,
            old(self).entry_file is Some ==> (r is Ok <==> assoc_lookup(
                old(self).loader.files@,
                old(self).entry_file.unwrap()@,
            ) is Some),
            old(self).entry_file is Some && assoc_lookup(
                old(self).loader.files@,
                old(self).entry_file.unwrap()@,
            ) is None ==> (match r {
                Result::Err(EngineError::LoadError(LoadError::FileNotFound { path })) => path@
                    == old(self).entry_file.unwrap()@,
                _ => false,
            }),
            old(self).entry_file is Some ==> forall|n: Seq<char>|
                n != old(self).entry_file.unwrap()@ && assoc_lookup(
                    final(self).loader.cache@,
                    n,
                ) is Some ==> assoc_lookup(final(self).loader.cache@, n) == assoc_lookup(
                    old(self).loader.cache@,
                    n,
                ),
            r is Ok ==> final(self).state.dirty,
            r is Ok ==> {
                let entry = old(self).entry_file.unwrap()@;
                &&& assoc_lookup(final(self).loader.cache@, entry) is Some
                &&& assoc_lookup(final(self).loader.cache@, entry).unwrap().content@
                    == assoc_lookup(old(self).loader.files@, entry).unwrap()@
                &&& (forall|n: Seq<char>|
                    n != entry && assoc_lookup(final(self).loader.cache@, n) is Some
                        ==> !crate::loader::dep_on(
                        assoc_lookup(final(self).loader.cache@, n).unwrap(),
                        entry,
                    ))
                &&& (old(self).watcher is Some ==> crate::watcher::holds_str(
                    final(self).watcher.unwrap().watched@,
                    entry,
                ) && (forall|i: int|
                    0 <= i < assoc_lookup(
                        final(self).loader.cache@,
                        entry,
                    ).unwrap().dependencies@.len() ==> crate::watcher::holds_str(
                        final(self).watcher.unwrap().watched@,
                        (#[trigger] assoc_lookup(
                            final(self).loader.cache@,
                            entry,
                        ).unwrap().dependencies@[i])@,
                    )))
            },
    {
        let entry_path = match &self.entry_file {
            Option::Some(p) => p.clone(),
            Option::None => {
                return Result::Err(
                    EngineError::InvalidState(String::from_str("no entry file loaded")),
                );
            },
        };

        let _invalidated = self.loader.invalidate(entry_path.as_str());
        let ghost mid_cache = self.loader.cache@;

        let loaded_file = match self.loader.load(entry_path.as_str()) {
            Result::Ok(lf) => lf,
            Result::Err(e) => {
                return Result::Err(EngineError::LoadError(e));
            },
        };

        if self.watcher.is_some() {
            self.watch_paths(&loaded_file);
        }

        self.state.mark_dirty();
        proof {
            let entry = entry_path@;
            let cached = assoc_lookup(self.loader.cache@, entry).unwrap();
            assert(cached.dependencies@.map_values(|d: String| d@).len()
                == cached.dependencies@.len());
            assert(loaded_file.dependencies@.map_values(|d: String| d@).len()
                == loaded_file.dependencies@.len());
            assert forall|i: int| 0 <= i < cached.dependencies@.len() implies (
            #[trigger] cached.dependencies@[i])@ == loaded_file.dependencies@[i]@ by {
                assert(cached.dependencies@.map_values(|d: String| d@)[i] == cached.dependencies@[
                    i
                ]@);
                assert(loaded_file.dependencies@.map_values(|d: String| d@)[i]
                    == loaded_file.dependencies@[i]@);
            }
            assert forall|n: Seq<char>|
                n != entry && assoc_lookup(self.loader.cache@, n) is Some implies !
            crate::loader::dep_on(assoc_lookup(self.loader.cache@, n).unwrap(), entry) by {
                assert(assoc_lookup(self.loader.cache@, n) == assoc_lookup(mid_cache, n));
                crate::loader::lemma_assoc_lookup_index(mid_cache, n);
            }
        }
        Result::Ok(())
    }

    /// Renders one frame: sizes a fresh buffer to the backend, lets the
    /// callback (or a placeholder) paint it, overlays a visible error,
    /// and hands the buffer to the backend. The dirty flag is cleared
    /// exactly on success, so a failed draw leaves the next tick
    /// repainting.
    pub fn render(&mut self) -> (r: EngineResult<()>)
        requires
            old(self).wf(),
        ensures
            final(self).wf(),
            final(self).loader == old(self).loader,
            final(self).watcher == old(self).watcher,
            final(self).root_path == old(self).root_path,
            final(self).entry_file == old(self).entry_file,
            final(self).state.widgets == old(self).state.widgets,
            final(self).error_overlay is Some <==> old(self).error_overlay is Some,
            r is Ok ==> !final(self).state.dirty,
            r is Err ==> final(self).state.dirty == old(self).state.dirty,
            final(self).error_overlay is Some ==> {
                let before = old(self).error_overlay.unwrap();
                let after = final(self).error_overlay.unwrap();
                &&& after.error == before.error
                &&& after.timestamp == before.timestamp
                &&& after.auto_dismiss_after == before.auto_dismiss_after
                &&& (after.visible ==> before.visible)
                &&& (before.auto_dismiss_after is None ==> after.visible == before.visible)
            },
    {
        let size = match self.renderer.size() {
            Result::Ok(s) => s,
            Result::Err(e) => {
                return Result::Err(EngineError::Render(e));
            },
        };

        let mut buffer = Buffer::new(size);

        match &self.render_callback {
            Option::Some(callback) => {
                callback.paint(&mut buffer, size, &self.state);
                if !buffer.check_wf() {
                    // The callback swapped in a malformed buffer; refuse
                    // to hand it to the backend.
                    return Result::Err(
                        EngineError::Render(
                            crate::renderer::RenderError::Backend(
                                String::from_str("render callback damaged the buffer"),
                            ),
                        ),
                    );
                }
            },
            Option::None => {
                if self.entry_file.is_some() {
                    self.render_placeholder(&mut buffer, size);
                } else {
                    self.render_empty_state(&mut buffer, size);
                }
            },
        }

        if self.error_overlay.is_some() {
            let overlay = match &mut self.error_overlay {
                Option::Some(o) => o,
                Option::None => {
                    proof {
                        assert(false);
                    }
                    return Result::Ok(());
                },
            };
            overlay.update();
            if overlay.is_visible() {
                overlay.render(size, &mut buffer);
            }
        }

        match self.renderer.draw(&buffer) {
            Result::Ok(_) => {},
            Result::Err(e) => {
                return Result::Err(EngineError::Render(e));
            },
        }
        match self.renderer.flush() {
            Result::Ok(_) => {},
            Result::Err(e) => {
                return Result::Err(EngineError::Render(e));
            },
        }

        self.state.clear_dirty();
        Result::Ok(())
    }

    /// Paints the placeholder shown when a file is loaded but no render
    /// callback is installed: a rounded cyan frame titled as a dashboard,
    /// holding the entry path, the hot-reload state, and the key help.
    fn render_placeholder(&self, buffer: &mut Buffer, area: Rect)
        requires
            old(buffer).wf(),
        ensures
            final(buffer).wf(),
            final(buffer).area == old(buffer).area,
            crate::block::frame_corner_visible(area, *old(buffer)) ==> final(buffer).cell_at(
                area.x as int,
                area.y as int,
            ).0 == crate::block::corner_glyph(BorderType::Rounded) && final(buffer).cell_at(
                area.x as int,
                area.y as int,
            ).1 == Color::Cyan,
    {
        let title = Title::new(" Dashboard ").style(
            Style::new().fg(Color::Cyan).add_modifier(Modifier::bold()),
        );
        let block = Block::default().title(title).borders(Borders::all()).border_type(
            BorderType::Rounded,
        ).border_style(Style::new().fg(Color::Cyan));
        let inner = block.inner(area);
        block.draw(area, buffer);
        let ghost after_block = *buffer;

        let mut info_text = String::from_str("Loaded: ");
        match &self.entry_file {
            Option::Some(p) => info_text.append(p.as_str()),
            Option::None => info_text.append("unknown"),
        }
        info_text.append("\n\nHot reload: ");
        if self.watcher.is_some() {
            info_text.append("enabled");
        } else {
            info_text.append("disabled");
        }
        info_text.append("\nWidgets: ");
        let count = u64_to_dec(self.state.widgets.len() as u64);
        info_text.append(count.as_str());
        info_text.append("\n\nWaiting for a render callback...");
        info_text.append("\n\nPress Ctrl+R to reload, Ctrl+C to quit");

        let para = Paragraph::new(info_text.as_str()).style(Style::new().fg(Color::White));
        para.draw(inner, buffer);
        proof {
            if crate::block::frame_corner_visible(area, *old(buffer)) {
                assert(block.borders.0 == 0b1111);
                assert(0b1111u8 & 0b1000u8 == 0b1000u8) by (bit_vector);
                assert(0b1111u8 & 0b1001u8 == 0b1001u8) by (bit_vector);
                assert(inner.x == crate::layout::sat_add16(area.x, 1));
                assert(inner.x as int == area.x as int + 1);
                assert(!crate::layout::rect_covers(inner, area.x as int, area.y as int));
                assert(corner_claim_holds(block, area, *old(buffer)));
            }
        }
    }

    /// Paints the placeholder shown when nothing is loaded: a double-line
    /// blue frame around a short feature summary and the key help.
    fn render_empty_state(&self, buffer: &mut Buffer, area: Rect)
        requires
            old(buffer).wf(),
        ensures
            final(buffer).wf(),
            final(buffer).area == old(buffer).area,
            crate::block::frame_corner_visible(area, *old(buffer)) ==> final(buffer).cell_at(
                area.x as int,
                area.y as int,
            ).0 == crate::block::corner_glyph(BorderType::Double) && final(buffer).cell_at(
                area.x as int,
                area.y as int,
            ).1 == Color::Blue,
    {
        let title = Title::new(" Dashboard Engine ").style(
            Style::new().fg(Color::Blue).add_modifier(Modifier::bold()),
        );
        let block = Block::default().title(title).borders(Borders::all()).border_type(
            BorderType::Double,
        ).border_style(Style::new().fg(Color::Blue));
        let inner = block.inner(area);
        block.draw(area, buffer);

        let info_text = Paragraph::new(
            "No dashboard loaded.\n\nLoad a dashboard file to begin.\n\nFeatures:\n  - Hot reload with file watching\n  - Script integration\n  - Widget state management\n  - Error overlay for debugging\n\nPress Ctrl+C to quit",
        ).style(Style::new().fg(Color::DarkGray));
        info_text.draw(inner, buffer);
        proof {
            if crate::block::frame_corner_visible(area, *old(buffer)) {
                assert(block.borders.0 == 0b1111);
                assert(0b1111u8 & 0b1000u8 == 0b1000u8) by (bit_vector);
                assert(0b1111u8 & 0b1001u8 == 0b1001u8) by (bit_vector);
                assert(inner.x == crate::layout::sat_add16(area.x, 1));
                assert(inner.x as int == area.x as int + 1);
                assert(!crate::layout::rect_covers(inner, area.x as int, area.y as int));
                assert(corner_claim_holds(block, area, *old(buffer)));
            }
        }
    }

    /// Enables hot reload with the default debounce window of 100
    /// milliseconds.
    pub fn enable_hot_reload(&mut self) -> (r: EngineResult<()>)
        requires
            old(self).wf(),
        ensures
            final(self).wf(),
            r is Ok,
            final(self).watcher is Some,
            final(self).watcher.unwrap().debounce_ms == 100,
            final(self).renderer == old(self).renderer,
            final(self).loader == old(self).loader,
            final(self).state == old(self).state,
            final(self).root_path == old(self).root_path,
            final(self).entry_file == old(self).entry_file,
            final(self).error_overlay == old(self).error_overlay,
            old(self).entry_file is Some ==> crate::watcher::holds_str(
                final(self).watcher.unwrap().watched@,
                old(self).entry_file.unwrap()@,
            ),
            old(self).entry_file is Some && assoc_lookup(
                old(self).loader.cache@,
                old(self).entry_file.unwrap()@,
            ) is Some ==> forall|i: int|
                0 <= i < assoc_lookup(
                    old(self).loader.cache@,
                    old(self).entry_file.unwrap()@,
                ).unwrap().dependencies@.len() ==> crate::watcher::holds_str(
                    final(self).watcher.unwrap().watched@,
                    (#[trigger] assoc_lookup(
                        old(self).loader.cache@,
                        old(self).entry_file.unwrap()@,
                    ).unwrap().dependencies@[i])@,
                ),
    {
        self.enable_hot_reload_with_debounce(100)
    }

    /// Enables hot reload with the given debounce window: builds a
    /// watcher and, when an entry is already loaded, registers it and
    /// its known dependencies at once.
    pub fn enable_hot_reload_with_debounce(&mut self, debounce_ms: u64) -> (r: EngineResult<()>)
        requires
            old(self).wf(),
        ensures
            final(self).wf(),
            r is Ok,
            final(self).watcher is Some,
            final(self).watcher.unwrap().debounce_ms == debounce_ms,
            final(self).renderer == old(self).renderer,
            final(self).loader == old(self).loader,
            final(self).state == old(self).state,
            final(self).root_path == old(self).root_path,
            final(self).entry_file == old(self).entry_file,
            final(self).error_overlay == old(self).error_overlay,
            old(self).entry_file is Some ==> crate::watcher::holds_str(
                final(self).watcher.unwrap().watched@,
                old(self).entry_file.unwrap()@,
            ),
            old(self).entry_file is Some && assoc_lookup(
                old(self).loader.cache@,
                old(self).entry_file.unwrap()@,
            ) is Some ==> forall|i: int|
                0 <= i < assoc_lookup(
                    old(self).loader.cache@,
                    old(self).entry_file.unwrap()@,
                ).unwrap().dependencies@.len() ==> crate::watcher::holds_str(
                    final(self).watcher.unwrap().watched@,
                    (#[trigger] assoc_lookup(
                        old(self).loader.cache@,
                        old(self).entry_file.unwrap()@,
                    ).unwrap().dependencies@[i])@,
                ),
    {
        let mut watcher = match FileWatcher::new(debounce_ms) {
            Result::Ok(w) => w,
            Result::Err(e) => {
                return Result::Err(EngineError::WatchError(e));
            },
        };

        if let Option::Some(entry_path) = &self.entry_file {
            let _ = watcher.watch(entry_path.as_str());
            match self.loader.get(entry_path.as_str()) {
                Option::Some(loaded) => {
                    let n = loaded.dependencies.len();
                    let mut i: usize = 0;
                    while i < n
                        invariant
                            n == loaded.dependencies@.len(),
                            i <= n,
                            watcher.debounce_ms == debounce_ms,
                            crate::watcher::holds_str(watcher.watched@, entry_path@),
                            forall|j: int|
                                0 <= j < i ==> crate::watcher::holds_str(
                                    watcher.watched@,
                                    (#[trigger] loaded.dependencies@[j])@,
                                ),
                        decreases n - i,
                    {
                        let _ = watcher.watch(loaded.dependencies[i].as_str());
                        i = i + 1;
                    }
                },
                Option::None => {},
            }
        }

        self.watcher = Option::Some(watcher);
        Result::Ok(())
    }

    /// Disables hot reload; further polls report it as off.
    pub fn disable_hot_reload(&mut self)
        ensures
            final(self).watcher is None,
            final(self).renderer == old(self).renderer,
            final(self).loader == old(self).loader,
            final(self).state == old(self).state,
            final(self).root_path == old(self).root_path,
            final(self).entry_file == old(self).entry_file,
            final(self).error_overlay == old(self).error_overlay,
            final(self).render_callback == old(self).render_callback,
    {
        self.watcher = Option::None;
    }

    /// Drains the changed paths since the last poll, or reports that hot
    /// reload is off.
    pub fn poll_changes(&mut self) -> (r: Option<Vec<String>>)
        ensures
            final(self).renderer == old(self).renderer,
            final(self).loader == old(self).loader,
            final(self).state == old(self).state,
            final(self).root_path == old(self).root_path,
            final(self).entry_file == old(self).entry_file,
            final(self).error_overlay == old(self).error_overlay,
            old(self).watcher is None ==> r is None && final(self).watcher is None,
            old(self).watcher is Some ==> final(self).watcher is Some && (match r {
                Option::Some(v) => v@.len() == old(self).watcher.unwrap().pending@.len() && (
                forall|i: int|
                    0 <= i < v@.len() ==> (#[trigger] v@[i])@ == old(self).watcher.unwrap().pending@[i]@) && final(self).watcher.unwrap().pending@.len()
                    == 0,
                Option::None => false,
            }),
    {
        match &mut self.watcher {
            Option::Some(w) => Option::Some(w.poll()),
            Option::None => Option::None,
        }
    }

    /// Answers one event:
    /// a file change invalidates the path and reloads; a resize marks
    /// the state dirty; Ctrl+C always answers `Quit`, whatever the
    /// engine's state; Ctrl+R reloads; Ctrl+D dismisses a shown error;
    /// anything else does nothing.
    pub fn handle_event(&mut self, event: Event) -> (r: EngineResult<Action>)
        requires
            old(self).wf(),
        ensures
            final(self).wf(),
            final(self).renderer == old(self).renderer,
            final(self).root_path == old(self).root_path,
            match event {
                Event::Key(ke) => {
                    if ke.code == KeyCode::Char('c') && ke.modifiers.ctrl {
                        r == Result::<Action, EngineError>::Ok(Action::Quit) && *final(self)
                            == *old(self)
                    } else if ke.code == KeyCode::Char('r') && ke.modifiers.ctrl {
                        &&& final(self).entry_file == old(self).entry_file
                        &&& final(self).error_overlay == old(self).error_overlay
                        &&& final(self).loader.files == old(self).loader.files
                        &&& (r is Ok <==> old(self).entry_file is Some && assoc_lookup(
                            old(self).loader.files@,
                            old(self).entry_file.unwrap()@,
                        ) is Some)
                        &&& (r is Ok ==> r.unwrap() == Action::Render && final(self).state.dirty
                            && assoc_lookup(
                            final(self).loader.cache@,
                            old(self).entry_file.unwrap()@,
                        ) is Some)
                    } else if ke.code == KeyCode::Char('d') && ke.modifiers.ctrl {
                        if old(self).error_overlay is Some && old(self).error_overlay.unwrap().visible {
                            r == Result::<Action, EngineError>::Ok(Action::Render) && final(self).error_overlay is None && final(self).state.dirty
                        } else {
                            r == Result::<Action, EngineError>::Ok(Action::Nothing) && *final(self) == *old(self)
                        }
                    } else {
                        r == Result::<Action, EngineError>::Ok(Action::Nothing) && *final(self)
                            == *old(self)
                    }
                },
                Event::Resize(_, _) => r == Result::<Action, EngineError>::Ok(Action::Render)
                    && final(self).state.dirty && final(self).entry_file == old(self).entry_file
                    && final(self).error_overlay == old(self).error_overlay && final(self).loader
                    == old(self).loader && final(self).watcher == old(self).watcher,
                Event::FileChange(p) => {
                    &&& final(self).entry_file == old(self).entry_file
                    &&& final(self).error_overlay == old(self).error_overlay
                    &&& final(self).loader.files == old(self).loader.files
                    &&& (r is Ok <==> old(self).entry_file is Some && assoc_lookup(
                        old(self).loader.files@,
                        old(self).entry_file.unwrap()@,
                    ) is Some)
                    &&& (r is Ok ==> r.unwrap() == Action::Render && final(self).state.dirty
                        && assoc_lookup(
                        final(self).loader.cache@,
                        old(self).entry_file.unwrap()@,
                    ) is Some)
                    &&& (assoc_lookup(final(self).loader.cache@, p@) is None || (old(self).entry_file is Some
                        && p@ == old(self).entry_file.unwrap()@))
                },
                Event::Tick => r == Result::<Action, EngineError>::Ok(Action::Nothing) && *final(self) == *old(self),
            },
    {
        match event {
            Event::FileChange(path) => {
                let _invalidated = self.loader.invalidate(path.as_str());
                let ghost mid = *self;
                let out = match self.reload() {
                    Result::Ok(_) => Result::Ok(Action::Render),
                    Result::Err(e) => Result::Err(e),
                };
                proof {
                    // The changed path's cache entry is gone unless it is
                    // the entry file, which the reload re-adds.
                    if !(old(self).entry_file is Some && path@ == old(self).entry_file.unwrap()@) {
                        assert(assoc_lookup(mid.loader.cache@, path@) is None);
                        if mid.entry_file is Some {
                            assert(assoc_lookup(self.loader.cache@, path@) is None) by {
                                if assoc_lookup(self.loader.cache@, path@) is Some {
                                    assert(assoc_lookup(self.loader.cache@, path@)
                                        == assoc_lookup(mid.loader.cache@, path@));
                                }
                            }
                        }
                    }
                }
                out
            },
            Event::Resize(_, _) => {
                self.state.mark_dirty();
                Result::Ok(Action::Render)
            },
            Event::Key(key_event) => {
                if key_event.code == KeyCode::Char('c') && key_event.modifiers.ctrl {
                    return Result::Ok(Action::Quit);
                }
                if key_event.code == KeyCode::Char('r') && key_event.modifiers.ctrl {
                    return match self.reload() {
                        Result::Ok(_) => Result::Ok(Action::Render),
                        Result::Err(e) => Result::Err(e),
                    };
                }
                if key_event.code == KeyCode::Char('d') && key_event.modifiers.ctrl {
                    if self.has_error() {
                        self.dismiss_error();
                        return Result::Ok(Action::Render);
                    }
                }
                Result::Ok(Action::Nothing)
            },
            Event::Tick => Result::Ok(Action::Nothing),
        }
    }

    /// The session state.
    pub fn state(&self) -> (s: &DashboardState)
        ensures
            s == &self.state,
    {
        &self.state
    }

    /// The session state, mutably.
    pub fn state_mut(&mut self) -> (s: &mut DashboardState)
        ensures
            *s == old(self).state,
            final(self).state == *final(s),
            final(self).renderer == old(self).renderer,
            final(self).loader == old(self).loader,
            final(self).watcher == old(self).watcher,
            final(self).root_path == old(self).root_path,
            final(self).entry_file == old(self).entry_file,
            final(self).error_overlay == old(self).error_overlay,
            final(self).render_callback == old(self).render_callback,
    {
        &mut self.state
    }

    /// The renderer.
    pub fn renderer(&self) -> (r: &R)
        ensures
            r == &self.renderer,
    {
        &self.renderer
    }

    /// The renderer, mutably.
    pub fn renderer_mut(&mut self) -> (r: &mut R)
        ensures
            *r == old(self).renderer,
            final(self).renderer == *final(r),
            final(self).loader == old(self).loader,
            final(self).watcher == old(self).watcher,
            final(self).state == old(self).state,
            final(self).root_path == old(self).root_path,
            final(self).entry_file == old(self).entry_file,
            final(self).error_overlay == old(self).error_overlay,
            final(self).render_callback == old(self).render_callback,
    {
        &mut self.renderer
    }

    /// The file loader.
    pub fn loader(&self) -> (l: &FileLoader)
        ensures
            l == &self.loader,
    {
        &self.loader
    }

    /// The file loader, mutably; the host provides file contents through
    /// this.
    pub fn loader_mut(&mut self) -> (l: &mut FileLoader)
        ensures
            *l == old(self).loader,
            final(self).loader == *final(l),
            final(self).renderer == old(self).renderer,
            final(self).watcher == old(self).watcher,
            final(self).state == old(self).state,
            final(self).root_path == old(self).root_path,
            final(self).entry_file == old(self).entry_file,
            final(self).error_overlay == old(self).error_overlay,
            final(self).render_callback == old(self).render_callback,
    {
        &mut self.loader
    }

    /// The directory relative paths resolve against.
    pub fn root_path(&self) -> (r: &str)
        ensures
            r@ == self.root_path@,
    {
        self.root_path.as_str()
    }

    /// The resolved path of the loaded entry file, if any.
    pub fn entry_file(&self) -> (r: Option<&str>)
        ensures
            match r {
                Option::Some(p) => self.entry_file is Some && p@ == self.entry_file.unwrap()@,
                Option::None => self.entry_file is None,
            },
    {
        match &self.entry_file {
            Option::Some(p) => Option::Some(p.as_str()),
            Option::None => Option::None,
        }
    }

    /// Whether hot reload is enabled.
    pub fn is_hot_reload_enabled(&self) -> (r: bool)
        ensures
            r == (self.watcher is Some),
    {
        self.watcher.is_some()
    }

    /// Clears the backend and the session state.
    pub fn clear(&mut self) -> (r: EngineResult<()>)
        ensures
            final(self).loader == old(self).loader,
            final(self).watcher == old(self).watcher,
            final(self).root_path == old(self).root_path,
            final(self).entry_file == old(self).entry_file,
            final(self).error_overlay == old(self).error_overlay,
            r is Ok ==> final(self).state.dirty && final(self).state.widgets@.len() == 0,
            r is Err ==> final(self).state == old(self).state,
    {
        match self.renderer.clear() {
            Result::Ok(_) => {},
            Result::Err(e) => {
                return Result::Err(EngineError::Render(e));
            },
        }
        self.state.clear();
        Result::Ok(())
    }
}

} // verus!
