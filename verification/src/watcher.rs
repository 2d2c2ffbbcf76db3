//! The file-watching boundary, as a deterministic state machine: the host
//! observes the filesystem and feeds changes in; the engine polls them
//! out. The debounce window is recorded for the host to honor.

use crate::error::WatchError;
use vstd::prelude::*;

verus! {

/// Whether a list of strings holds one that reads `s`.
pub open spec fn holds_str(v: Seq<String>, s: Seq<char>) -> bool {
    exists|i: int| 0 <= i < v.len() && (#[trigger] v[i])@ == s
}

/// A watch set with a debounce window and the changes not yet polled.
#[derive(Debug, Clone)]
pub struct FileWatcher {
    /// The debounce window, in milliseconds
    pub debounce_ms: u64,
    /// The watched paths
    pub watched: Vec<String>,
    /// The changed paths not yet drained by `poll`
    pub pending: Vec<String>,
}

impl FileWatcher {
    /// Creates a watcher with the given debounce window.
    pub fn new(debounce_ms: u64) -> (r: Result<Self, WatchError>)
        ensures
            r is Ok,
            r.unwrap().debounce_ms == debounce_ms,
            r.unwrap().watched@.len() == 0,
            r.unwrap().pending@.len() == 0,
    {
        Result::Ok(FileWatcher { debounce_ms, watched: Vec::new(), pending: Vec::new() })
    }

    /// The debounce window in milliseconds.
    pub fn debounce_ms(&self) -> (d: u64)
        ensures
            d == self.debounce_ms,
    {
        self.debounce_ms
    }

    /// Starts watching a path (idempotent).
    pub fn watch(&mut self, path: &str) -> (r: Result<(), WatchError>)
        ensures
            r is Ok,
            final(self).debounce_ms == old(self).debounce_ms,
            final(self).pending == old(self).pending,
            forall|p: Seq<char>|
                holds_str(final(self).watched@, p) == (holds_str(old(self).watched@, p) || p
                    == path@),
    {
        if !self.is_watched(path) {
            self.watched.push(String::from_str(path));
            proof {
                assert forall|p: Seq<char>|
                    holds_str(self.watched@, p) == (holds_str(old(self).watched@, p) || p
                        == path@) by {
                    if holds_str(old(self).watched@, p) {
                        let i = choose|i: int|
                            0 <= i < old(self).watched@.len() && (#[trigger] old(
                                self,
                            ).watched@[i])@ == p;
                        assert(self.watched@[i]@ == p);
                    }
                    if p == path@ {
                        assert(self.watched@[self.watched@.len() - 1]@ == p);
                    }
                    if holds_str(self.watched@, p) {
                        let i = choose|i: int|
                            0 <= i < self.watched@.len() && (#[trigger] self.watched@[i])@ == p;
                        if i < self.watched@.len() - 1 {
                            assert(old(self).watched@[i]@ == p);
                        }
                    }
                }
            }
        }
        Result::Ok(())
    }

    /// Whether a path is being watched.
    pub fn is_watched(&self, path: &str) -> (r: bool)
        ensures
            r == holds_str(self.watched@, path@),
    {
        let key = String::from_str(path);
        let n = self.watched.len();
        let mut i: usize = 0;
        while i < n
            invariant
                n == self.watched@.len(),
                i <= n,
                key@ == path@,
                forall|j: int| 0 <= j < i ==> (#[trigger] self.watched@[j])@ != path@,
            decreases n - i,
        {
            if self.watched[i] == key {
                return true;
            }
            i = i + 1;
        }
        false
    }

    /// Records that a watched path changed; the host calls this after its
    /// debounce window has passed. Unwatched paths and paths already
    /// pending are ignored.
    pub fn record_change(&mut self, path: &str)
        ensures
            final(self).debounce_ms == old(self).debounce_ms,
            final(self).watched == old(self).watched,
            forall|p: Seq<char>|
                holds_str(final(self).pending@, p) == (holds_str(old(self).pending@, p) || (p
                    == path@ && holds_str(old(self).watched@, path@))),
    {
        let watched = self.is_watched(path);
        let pending = self.is_pending(path);
        if watched && !pending {
            self.pending.push(String::from_str(path));
            proof {
                assert forall|p: Seq<char>|
                    holds_str(self.pending@, p) == (holds_str(old(self).pending@, p) || (p
                        == path@ && holds_str(old(self).watched@, path@))) by {
                    if holds_str(old(self).pending@, p) {
                        let i = choose|i: int|
                            0 <= i < old(self).pending@.len() && (#[trigger] old(
                                self,
                            ).pending@[i])@ == p;
                        assert(self.pending@[i]@ == p);
                    }
                    if p == path@ {
                        assert(self.pending@[self.pending@.len() - 1]@ == p);
                    }
                    if holds_str(self.pending@, p) {
                        let i = choose|i: int|
                            0 <= i < self.pending@.len() && (#[trigger] self.pending@[i])@ == p;
                        if i < self.pending@.len() - 1 {
                            assert(old(self).pending@[i]@ == p);
                        }
                    }
                }
            }
        }
    }

    /// Whether a change for this path is already pending.
    pub fn is_pending(&self, path: &str) -> (r: bool)
        ensures
            r == holds_str(self.pending@, path@),
    {
        let key = String::from_str(path);
        let n = self.pending.len();
        let mut i: usize = 0;
        while i < n
            invariant
                n == self.pending@.len(),
                i <= n,
                key@ == path@,
                forall|j: int| 0 <= j < i ==> (#[trigger] self.pending@[j])@ != path@,
            decreases n - i,
        {
            if self.pending[i] == key {
                return true;
            }
            i = i + 1;
        }
        false
    }

    /// Drains and returns the changed paths accumulated since the last
    /// poll (possibly none).
    pub fn poll(&mut self) -> (r: Vec<String>)
        ensures
            final(self).debounce_ms == old(self).debounce_ms,
            final(self).watched == old(self).watched,
            final(self).pending@.len() == 0,
            r@.len() == old(self).pending@.len(),
            forall|i: int| 0 <= i < r@.len() ==> (#[trigger] r@[i])@ == old(self).pending@[i]@,
    {
        let n = self.pending.len();
        let mut out: Vec<String> = Vec::new();
        let mut i: usize = 0;
        while i < n
            invariant
                self.watched == old(self).watched,
                self.debounce_ms == old(self).debounce_ms,
                self.pending == old(self).pending,
                n == self.pending@.len(),
                i <= n,
                out@.len() == i,
                forall|j: int| 0 <= j < i ==> (#[trigger] out@[j])@ == old(self).pending@[j]@,
            decreases n - i,
        {
            let s = self.pending[i].clone();
            out.push(s);
            i = i + 1;
        }
        self.pending = Vec::new();
        out
    }
}

} // verus!
