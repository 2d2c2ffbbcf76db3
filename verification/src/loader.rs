//! The file-loading boundary, as a deterministic store: the host feeds
//! file contents in; `load` parses dependency directives and caches the
//! result; `invalidate` drops a path and everything depending on it.

use crate::error::LoadError;
use crate::runtime::{directives_of_lines, parse_load_directives};
use crate::strutil::{join_lines, parent_dir_spec};
use vstd::prelude::*;

verus! {

/// What a name resolves to in an association list: the first entry whose
/// name matches, scanned front to back.
pub open spec fn assoc_lookup<V>(entries: Seq<(String, V)>, name: Seq<char>) -> Option<V>
    decreases entries.len(),
{
    if entries.len() <= 0 {
        Option::None
    } else if entries[0].0@ == name {
        Option::Some(entries[0].1)
    } else {
        assoc_lookup(entries.drop_first(), name)
    }
}

/// No two entries of the list share a name.
pub open spec fn assoc_unique<V>(entries: Seq<(String, V)>) -> bool {
    forall|i: int, j: int|
        0 <= i < j < entries.len() ==> (#[trigger] entries[i]).0@ != (#[trigger] entries[j]).0@
}

proof fn lemma_assoc_skip<V>(entries: Seq<(String, V)>, i: int, name: Seq<char>)
    requires
        0 <= i < entries.len(),
        entries[i].0@ != name,
    ensures
        assoc_lookup(entries.skip(i), name) == assoc_lookup(entries.skip(i + 1), name),
{
    assert(entries.skip(i)[0] == entries[i]);
    assert(entries.skip(i).drop_first() =~= entries.skip(i + 1));
}

proof fn lemma_assoc_update<V>(entries: Seq<(String, V)>, i: int, v: (String, V))
    requires
        0 <= i < entries.len(),
        entries[i].0@ == v.0@,
        forall|j: int| 0 <= j < i ==> (#[trigger] entries[j]).0@ != v.0@,
    ensures
        assoc_lookup(entries.update(i, v), v.0@) == Option::Some(v.1),
        forall|n: Seq<char>|
            n != v.0@ ==> assoc_lookup(entries.update(i, v), n) == assoc_lookup(entries, n),
    decreases i,
{
    if i == 0 {
        assert(entries.update(0, v)[0] == v);
        assert(entries.update(0, v).drop_first() =~= entries.drop_first());
        assert forall|n: Seq<char>|
            n != v.0@ implies assoc_lookup(entries.update(0, v), n) == assoc_lookup(
            entries,
            n,
        ) by {
            assert(assoc_lookup(entries.update(0, v), n) == assoc_lookup(
                entries.update(0, v).drop_first(),
                n,
            ));
            assert(assoc_lookup(entries, n) == assoc_lookup(entries.drop_first(), n));
        }
    } else {
        lemma_assoc_update(entries.drop_first(), i - 1, v);
        assert(entries.update(i, v).drop_first() =~= entries.drop_first().update(i - 1, v));
        assert(entries.update(i, v)[0] == entries[0]);
        assert(entries[0].0@ != v.0@);
        assert forall|n: Seq<char>|
            n != v.0@ implies assoc_lookup(entries.update(i, v), n) == assoc_lookup(
            entries,
            n,
        ) by {
            if entries[0].0@ == n {
            } else {
                assert(assoc_lookup(entries.update(i, v), n) == assoc_lookup(
                    entries.drop_first().update(i - 1, v),
                    n,
                ));
                assert(assoc_lookup(entries.drop_first().update(i - 1, v), n) == assoc_lookup(
                    entries.drop_first(),
                    n,
                ));
                assert(assoc_lookup(entries, n) == assoc_lookup(entries.drop_first(), n));
            }
        }
    }
}

proof fn lemma_assoc_push<V>(entries: Seq<(String, V)>, v: (String, V))
    requires
        forall|j: int| 0 <= j < entries.len() ==> (#[trigger] entries[j]).0@ != v.0@,
    ensures
        assoc_lookup(entries.push(v), v.0@) == Option::Some(v.1),
        forall|n: Seq<char>|
            n != v.0@ ==> assoc_lookup(entries.push(v), n) == assoc_lookup(entries, n),
    decreases entries.len(),
{
    if entries.len() == 0 {
        assert(entries.push(v)[0] == v);
        assert(entries.push(v).drop_first() =~= entries);
        assert forall|n: Seq<char>|
            n != v.0@ implies assoc_lookup(entries.push(v), n) == assoc_lookup(entries, n) by {
            assert(assoc_lookup(entries.push(v), n) == assoc_lookup(
                entries.push(v).drop_first(),
                n,
            ));
        }
    } else {
        lemma_assoc_push(entries.drop_first(), v);
        assert(entries.push(v).drop_first() =~= entries.drop_first().push(v));
        assert(entries.push(v)[0] == entries[0]);
        assert(entries[0].0@ != v.0@);
        assert forall|n: Seq<char>|
            n != v.0@ implies assoc_lookup(entries.push(v), n) == assoc_lookup(entries, n) by {
            if entries[0].0@ == n {
            } else {
                assert(assoc_lookup(entries.push(v), n) == assoc_lookup(
                    entries.drop_first().push(v),
                    n,
                ));
                assert(assoc_lookup(entries.drop_first().push(v), n) == assoc_lookup(
                    entries.drop_first(),
                    n,
                ));
                assert(assoc_lookup(entries, n) == assoc_lookup(entries.drop_first(), n));
            }
        }
    }
}

proof fn lemma_assoc_remove<V>(entries: Seq<(String, V)>, i: int)
    requires
        0 <= i < entries.len(),
        assoc_unique(entries),
    ensures
        assoc_lookup(entries.remove(i), entries[i].0@) is None,
        forall|n: Seq<char>|
            n != entries[i].0@ ==> assoc_lookup(entries.remove(i), n) == assoc_lookup(entries, n),
        assoc_unique(entries.remove(i)),
    decreases i,
{
    assert forall|a: int, b: int|
        0 <= a < b < entries.remove(i).len() implies (#[trigger] entries.remove(i)[a]).0@ != (
    #[trigger] entries.remove(i)[b]).0@ by {
        let a2 = if a < i {
            a
        } else {
            a + 1
        };
        let b2 = if b < i {
            b
        } else {
            b + 1
        };
        assert(entries.remove(i)[a] == entries[a2]);
        assert(entries.remove(i)[b] == entries[b2]);
    }
    if i == 0 {
        assert(entries.remove(0) =~= entries.drop_first());
        lemma_assoc_absent(entries.drop_first(), entries[0].0@);
        assert forall|n: Seq<char>|
            n != entries[0].0@ implies assoc_lookup(entries.remove(0), n) == assoc_lookup(
            entries,
            n,
        ) by {
            assert(assoc_lookup(entries, n) == assoc_lookup(entries.drop_first(), n));
        }
    } else {
        lemma_assoc_remove(entries.drop_first(), i - 1);
        assert(entries.remove(i).drop_first() =~= entries.drop_first().remove(i - 1));
        assert(entries.remove(i)[0] == entries[0]);
        assert(entries.drop_first()[i - 1] == entries[i]);
        assert(entries[0].0@ != entries[i].0@);
        assert forall|n: Seq<char>|
            n != entries[i].0@ implies assoc_lookup(entries.remove(i), n) == assoc_lookup(
            entries,
            n,
        ) by {
            if entries[0].0@ == n {
            } else {
                assert(assoc_lookup(entries.remove(i), n) == assoc_lookup(
                    entries.drop_first().remove(i - 1),
                    n,
                ));
                assert(assoc_lookup(entries.drop_first().remove(i - 1), n) == assoc_lookup(
                    entries.drop_first(),
                    n,
                ));
                assert(assoc_lookup(entries, n) == assoc_lookup(entries.drop_first(), n));
            }
        }
        assert(assoc_lookup(entries.remove(i), entries[i].0@) == assoc_lookup(
            entries.drop_first().remove(i - 1),
            entries[i].0@,
        ));
    }
}

/// A name held by no entry resolves to nothing.
proof fn lemma_assoc_absent<V>(entries: Seq<(String, V)>, name: Seq<char>)
    requires
        forall|j: int| 0 <= j < entries.len() ==> (#[trigger] entries[j]).0@ != name,
    ensures
        assoc_lookup(entries, name) is None,
    decreases entries.len(),
{
    if entries.len() > 0 {
        lemma_assoc_absent(entries.drop_first(), name);
    }
}

/// A loaded file: its resolved path, its content, and the dependency
/// paths its directives declare.
#[derive(Debug)]
pub struct LoadedFile {
    /// The path the file was loaded under
    pub path: String,
    /// The file's content
    pub content: String,
    /// The paths the file's directives declare
    pub dependencies: Vec<String>,
}

impl Clone for LoadedFile {
    /// A clone reads the same: same path, content, and dependencies.
    fn clone(&self) -> (c: Self)
        ensures
            c.path@ == self.path@,
            c.content@ == self.content@,
            c.dependencies@.map_values(|d: String| d@) == self.dependencies@.map_values(
                |d: String| d@,
            ),
    {
        let c = LoadedFile {
            path: self.path.clone(),
            content: self.content.clone(),
            dependencies: self.dependencies.clone(),
        };
        proof {
            assert forall|i: int| 0 <= i < c.dependencies@.len() implies c.dependencies@[i]@
                == self.dependencies@[i]@ by {
                assert(cloned::<String>(self.dependencies@[i], c.dependencies@[i]));
            }
            assert(c.dependencies@.map_values(|d: String| d@) =~= self.dependencies@.map_values(
                |d: String| d@,
            ));
        }
        c
    }
}

/// Whether a loaded file declares a dependency on `p`.
pub open spec fn dep_on(lf: LoadedFile, p: Seq<char>) -> bool {
    exists|i: int| 0 <= i < lf.dependencies@.len() && (#[trigger] lf.dependencies@[i])@ == p
}

/// The file store and cache the engine loads through: the host provides
/// file contents; `load` parses and caches them.
#[derive(Debug)]
pub struct FileLoader {
    /// The provided file contents, by path
    pub files: Vec<(String, String)>,
    /// The parsed files, by path
    pub cache: Vec<(String, LoadedFile)>,
}

impl FileLoader {
    /// Both association lists hold each path at most once.
    pub open spec fn wf(self) -> bool {
        assoc_unique(self.files@) && assoc_unique(self.cache@)
    }

    /// Creates an empty loader.
    pub fn new() -> (l: Self)
        ensures
            l.wf(),
            l.files@.len() == 0,
            l.cache@.len() == 0,
    {
        FileLoader { files: Vec::new(), cache: Vec::new() }
    }

    /// Provides (or replaces) the content stored under a path; the cache
    /// is left alone, so an already-loaded file stays loaded until it is
    /// invalidated.
    pub fn provide(&mut self, path: &str, content: &str)
        requires
            old(self).wf(),
        ensures
            final(self).wf(),
            final(self).cache == old(self).cache,
            assoc_lookup(final(self).files@, path@) is Some,
            assoc_lookup(final(self).files@, path@).unwrap()@ == content@,
            forall|n: Seq<char>|
                n != path@ ==> assoc_lookup(final(self).files@, n) == assoc_lookup(
                    old(self).files@,
                    n,
                ),
    {
        let key = String::from_str(path);
        let value = String::from_str(content);
        let n = self.files.len();
        let mut i: usize = 0;
        while i < n
            invariant
                self == old(self),
                self.wf(),
                n == self.files@.len(),
                i <= n,
                key@ == path@,
                value@ == content@,
                forall|j: int| 0 <= j < i ==> (#[trigger] self.files@[j]).0@ != path@,
            decreases n - i,
        {
            if self.files[i].0 == key {
                proof {
                    lemma_assoc_update(self.files@, i as int, (key, value));
                    assert(self.files@[i as int].0@ == key@);
                    assert forall|a: int, b: int|
                        0 <= a < b < self.files@.update(i as int, (key, value)).len() implies (
                    #[trigger] self.files@.update(i as int, (key, value))[a]).0@ != (
                    #[trigger] self.files@.update(i as int, (key, value))[b]).0@ by {
                        if a != i {
                            assert(self.files@.update(i as int, (key, value))[a]
                                == self.files@[a]);
                        }
                        if b != i {
                            assert(self.files@.update(i as int, (key, value))[b]
                                == self.files@[b]);
                        }
                        assert(self.files@[a].0@ != self.files@[b].0@);
                    }
                }
                self.files.set(i, (key, value));
                return ;
            }
            i = i + 1;
        }
        proof {
            lemma_assoc_push(self.files@, (key, value));
            assert forall|a: int, b: int|
                0 <= a < b < self.files@.push((key, value)).len() implies (
            #[trigger] self.files@.push((key, value))[a]).0@ != (#[trigger] self.files@.push(
                (key, value),
            )[b]).0@ by {
                if b < self.files@.len() {
                    assert(self.files@.push((key, value))[a] == self.files@[a]);
                    assert(self.files@.push((key, value))[b] == self.files@[b]);
                    assert(self.files@[a].0@ != self.files@[b].0@);
                } else {
                    assert(self.files@.push((key, value))[a] == self.files@[a]);
                    assert(self.files@.push((key, value))[b] == (key, value));
                }
            }
        }
        self.files.push((key, value));
    }

    /// The content stored under a path, if any.
    pub fn content_of(&self, path: &str) -> (r: Option<String>)
        ensures
            match r {
                Option::Some(c) => assoc_lookup(self.files@, path@) is Some && c@ == assoc_lookup(
                    self.files@,
                    path@,
                ).unwrap()@,
                Option::None => assoc_lookup(self.files@, path@) is None,
            },
    {
        let key = String::from_str(path);
        let n = self.files.len();
        proof {
            assert(self.files@.skip(0) =~= self.files@);
        }
        let mut i: usize = 0;
        while i < n
            invariant
                n == self.files@.len(),
                i <= n,
                key@ == path@,
                assoc_lookup(self.files@, path@) == assoc_lookup(
                    self.files@.skip(i as int),
                    path@,
                ),
            decreases n - i,
        {
            if self.files[i].0 == key {
                proof {
                    assert(self.files@.skip(i as int)[0] == self.files@[i as int]);
                }
                return Option::Some(self.files[i].1.clone());
            }
            proof {
                lemma_assoc_skip(self.files@, i as int, path@);
            }
            i = i + 1;
        }
        proof {
            assert(self.files@.skip(n as int) =~= Seq::<(String, String)>::empty());
        }
        Option::None
    }

    /// Loads a file: parses its dependency directives, caches the
    /// result, and returns it. Fails with `FileNotFound` exactly when no
    /// content was provided for the path.
    pub fn load(&mut self, path: &str) -> (r: Result<LoadedFile, LoadError>)
        requires
            old(self).wf(),
        ensures
            final(self).wf(),
            final(self).files == old(self).files,
            r is Err ==> *final(self) == *old(self) && (match r {
                Result::Err(LoadError::FileNotFound { path: p }) => p@ == path@
                    && assoc_lookup(old(self).files@, path@) is None,
                _ => false,
            }),
            r is Ok ==> {
                let lf = r.unwrap();
                &&& assoc_lookup(old(self).files@, path@) is Some
                &&& lf.path@ == path@
                &&& lf.content@ == assoc_lookup(old(self).files@, path@).unwrap()@
                &&& (exists|lines: Seq<Seq<char>>|
                    join_lines(lines) == lf.content@
                        && #[trigger] directives_of_lines(lines, parent_dir_spec(path@))
                        == lf.dependencies@.map_values(|d: String| d@))
                &&& assoc_lookup(final(self).cache@, path@) is Some
                &&& {
                    let cached = assoc_lookup(final(self).cache@, path@).unwrap();
                    cached.path@ == lf.path@ && cached.content@ == lf.content@
                        && cached.dependencies@.map_values(|d: String| d@)
                        == lf.dependencies@.map_values(|d: String| d@)
                }
                &&& (forall|n: Seq<char>|
                    n != path@ ==> assoc_lookup(final(self).cache@, n) == assoc_lookup(
                        old(self).cache@,
                        n,
                    ))
            },
    {
        let content = match self.content_of(path) {
            Option::Some(c) => c,
            Option::None => {
                return Result::Err(LoadError::FileNotFound { path: String::from_str(path) });
            },
        };
        let dependencies = parse_load_directives(content.as_str(), path);
        let lf = LoadedFile { path: String::from_str(path), content, dependencies };
        let out = lf.clone();
        self.cache_insert(lf);
        Result::Ok(out)
    }

    /// Stores a loaded file in the cache under its path, replacing any
    /// earlier entry.
    fn cache_insert(&mut self, lf: LoadedFile)
        requires
            old(self).wf(),
        ensures
            final(self).wf(),
            final(self).files == old(self).files,
            assoc_lookup(final(self).cache@, lf.path@) == Some(lf),
            forall|n: Seq<char>|
                n != lf.path@ ==> assoc_lookup(final(self).cache@, n) == assoc_lookup(
                    old(self).cache@,
                    n,
                ),
    {
        let key = lf.path.clone();
        let ghost keyview = key@;
        let n = self.cache.len();
        let mut i: usize = 0;
        while i < n
            invariant
                self == old(self),
                self.wf(),
                n == self.cache@.len(),
                i <= n,
                key@ == keyview,
                keyview == lf.path@,
                forall|j: int| 0 <= j < i ==> (#[trigger] self.cache@[j]).0@ != keyview,
            decreases n - i,
        {
            if self.cache[i].0 == key {
                proof {
                    assert(self.cache@[i as int].0@ == keyview);
                    lemma_assoc_update(self.cache@, i as int, (key, lf));
                    assert forall|a: int, b: int|
                        0 <= a < b < self.cache@.update(i as int, (key, lf)).len() implies (
                    #[trigger] self.cache@.update(i as int, (key, lf))[a]).0@ != (
                    #[trigger] self.cache@.update(i as int, (key, lf))[b]).0@ by {
                        if a != i {
                            assert(self.cache@.update(i as int, (key, lf))[a] == self.cache@[a]);
                        }
                        if b != i {
                            assert(self.cache@.update(i as int, (key, lf))[b] == self.cache@[b]);
                        }
                        assert(self.cache@[a].0@ != self.cache@[b].0@);
                    }
                }
                self.cache.set(i, (key, lf));
                return ;
            }
            i = i + 1;
        }
        proof {
            lemma_assoc_push(self.cache@, (key, lf));
            assert forall|a: int, b: int|
                0 <= a < b < self.cache@.push((key, lf)).len() implies (
            #[trigger] self.cache@.push((key, lf))[a]).0@ != (#[trigger] self.cache@.push(
                (key, lf),
            )[b]).0@ by {
                if b < self.cache@.len() {
                    assert(self.cache@.push((key, lf))[a] == self.cache@[a]);
                    assert(self.cache@.push((key, lf))[b] == self.cache@[b]);
                    assert(self.cache@[a].0@ != self.cache@[b].0@);
                } else {
                    assert(self.cache@.push((key, lf))[a] == self.cache@[a]);
                    assert(self.cache@.push((key, lf))[b] == (key, lf));
                }
            }
        }
        self.cache.push((key, lf));
    }

    /// The cached entry for a path, if any.
    pub fn get(&self, path: &str) -> (r: Option<&LoadedFile>)
        ensures
            match r {
                Option::Some(lf) => assoc_lookup(self.cache@, path@) == Option::Some(*lf),
                Option::None => assoc_lookup(self.cache@, path@) is None,
            },
    {
        let key = String::from_str(path);
        let n = self.cache.len();
        proof {
            assert(self.cache@.skip(0) =~= self.cache@);
        }
        let mut i: usize = 0;
        while i < n
            invariant
                n == self.cache@.len(),
                i <= n,
                key@ == path@,
                assoc_lookup(self.cache@, path@) == assoc_lookup(
                    self.cache@.skip(i as int),
                    path@,
                ),
            decreases n - i,
        {
            if self.cache[i].0 == key {
                proof {
                    assert(self.cache@.skip(i as int)[0] == self.cache@[i as int]);
                }
                return Option::Some(&self.cache[i].1);
            }
            proof {
                lemma_assoc_skip(self.cache@, i as int, path@);
            }
            i = i + 1;
        }
        proof {
            assert(self.cache@.skip(n as int) =~= Seq::<(String, LoadedFile)>::empty());
        }
        Option::None
    }

    /// Whether a loaded file declares a dependency that reads `key`.
    fn deps_contain(lf: &LoadedFile, key: &str) -> (r: bool)
        ensures
            r == dep_on(*lf, key@),
    {
        let k = String::from_str(key);
        let n = lf.dependencies.len();
        let mut i: usize = 0;
        while i < n
            invariant
                n == lf.dependencies@.len(),
                i <= n,
                k@ == key@,
                forall|j: int| 0 <= j < i ==> (#[trigger] lf.dependencies@[j])@ != key@,
            decreases n - i,
        {
            if lf.dependencies[i] == k {
                return true;
            }
            i = i + 1;
        }
        false
    }

    /// Whether a loaded file depends on any of the given keys.
    fn deps_contain_any(lf: &LoadedFile, keys: &Vec<String>) -> (r: bool)
        ensures
            r == exists|k: int| 0 <= k < keys@.len() && dep_on(*lf, (#[trigger] keys@[k])@),
    {
        let n = keys.len();
        let mut i: usize = 0;
        while i < n
            invariant
                n == keys@.len(),
                i <= n,
                forall|k: int| 0 <= k < i ==> !dep_on(*lf, (#[trigger] keys@[k])@),
            decreases n - i,
        {
            if Self::deps_contain(lf, keys[i].as_str()) {
                return true;
            }
            i = i + 1;
        }
        false
    }

    /// Removes the cache entry under `key`, if present.
    fn cache_remove(&mut self, key: &str) -> (found: bool)
        requires
            old(self).wf(),
        ensures
            final(self).wf(),
            final(self).files == old(self).files,
            found == (assoc_lookup(old(self).cache@, key@) is Some),
            assoc_lookup(final(self).cache@, key@) is None,
            forall|n: Seq<char>|
                n != key@ ==> assoc_lookup(final(self).cache@, n) == assoc_lookup(
                    old(self).cache@,
                    n,
                ),
            final(self).cache@.len() == old(self).cache@.len() - (if found {
                1int
            } else {
                0int
            }),
    {
        let k = String::from_str(key);
        let n = self.cache.len();
        proof {
            assert(self.cache@.skip(0) =~= self.cache@);
        }
        let mut i: usize = 0;
        while i < n
            invariant
                self == old(self),
                self.wf(),
                n == self.cache@.len(),
                i <= n,
                k@ == key@,
                forall|j: int| 0 <= j < i ==> (#[trigger] self.cache@[j]).0@ != key@,
                assoc_lookup(self.cache@, key@) == assoc_lookup(self.cache@.skip(i as int), key@),
            decreases n - i,
        {
            if self.cache[i].0 == k {
                proof {
                    assert(self.cache@.skip(i as int)[0] == self.cache@[i as int]);
                    lemma_assoc_remove(self.cache@, i as int);
                }
                self.cache.remove(i);
                return true;
            }
            proof {
                lemma_assoc_skip(self.cache@, i as int, key@);
            }
            i = i + 1;
        }
        proof {
            assert(self.cache@.skip(n as int) =~= Seq::<(String, LoadedFile)>::empty());
        }
        false
    }

    /// The index of a cached entry that depends on `path` or on any of
    /// the already-removed keys.
    fn find_dependent(&self, path: &str, removed: &Vec<String>) -> (r: Option<usize>)
        ensures
            match r {
                Option::Some(j) => j < self.cache@.len() && (dep_on(self.cache@[j as int].1, path@)
                    || exists|k: int|
                    0 <= k < removed@.len() && dep_on(
                        self.cache@[j as int].1,
                        (#[trigger] removed@[k])@,
                    )),
                Option::None => forall|j: int|
                    0 <= j < self.cache@.len() ==> !dep_on(
                        (#[trigger] self.cache@[j]).1,
                        path@,
                    ) && (forall|k: int|
                        0 <= k < removed@.len() ==> !dep_on(
                            self.cache@[j].1,
                            (#[trigger] removed@[k])@,
                        )),
            },
    {
        let n = self.cache.len();
        let mut j: usize = 0;
        while j < n
            invariant
                n == self.cache@.len(),
                j <= n,
                forall|m: int|
                    0 <= m < j ==> !dep_on((#[trigger] self.cache@[m]).1, path@) && (forall|
                        k: int,
                    |
                        0 <= k < removed@.len() ==> !dep_on(
                            self.cache@[m].1,
                            (#[trigger] removed@[k])@,
                        )),
            decreases n - j,
        {
            if Self::deps_contain(&self.cache[j].1, path) || Self::deps_contain_any(
                &self.cache[j].1,
                removed,
            ) {
                return Option::Some(j);
            }
            j = j + 1;
        }
        Option::None
    }

    /// Invalidates a path: drops its cache entry and, transitively, every
    /// cached entry depending on it. Returns the keys that were dropped.
    /// Afterwards no cached entry depends on the path or on anything
    /// dropped, and everything else is untouched.
    pub fn invalidate(&mut self, path: &str) -> (removed: Vec<String>)
        requires
            old(self).wf(),
        ensures
            final(self).wf(),
            final(self).files == old(self).files,
            assoc_lookup(final(self).cache@, path@) is None,
            forall|j: int|
                0 <= j < removed@.len() ==> assoc_lookup(
                    final(self).cache@,
                    (#[trigger] removed@[j])@,
                ) is None,
            forall|j: int|
                0 <= j < removed@.len() ==> assoc_lookup(
                    old(self).cache@,
                    (#[trigger] removed@[j])@,
                ) is Some && ((removed@[j])@ == path@ || dep_on(
                    assoc_lookup(old(self).cache@, (removed@[j])@).unwrap(),
                    path@,
                ) || (exists|j2: int|
                    0 <= j2 < j && dep_on(
                        assoc_lookup(old(self).cache@, (removed@[j])@).unwrap(),
                        (#[trigger] removed@[j2])@,
                    ))),
            forall|n: Seq<char>|
                assoc_lookup(final(self).cache@, n) is Some ==> assoc_lookup(
                    final(self).cache@,
                    n,
                ) == assoc_lookup(old(self).cache@, n),
            forall|j: int|
                0 <= j < final(self).cache@.len() ==> !dep_on(
                    (#[trigger] final(self).cache@[j]).1,
                    path@,
                ) && (forall|k: int|
                    0 <= k < removed@.len() ==> !dep_on(
                        final(self).cache@[j].1,
                        (#[trigger] removed@[k])@,
                    )),
    {
        let mut removed: Vec<String> = Vec::new();
        if self.cache_remove(path) {
            removed.push(String::from_str(path));
        }
        loop
            invariant_except_break
                self.wf(),
                self.files == old(self).files,
                assoc_lookup(self.cache@, path@) is None,
                forall|j: int|
                    0 <= j < removed@.len() ==> assoc_lookup(
                        self.cache@,
                        (#[trigger] removed@[j])@,
                    ) is None,
                forall|j: int|
                    0 <= j < removed@.len() ==> assoc_lookup(
                        old(self).cache@,
                        (#[trigger] removed@[j])@,
                    ) is Some && ((removed@[j])@ == path@ || dep_on(
                        assoc_lookup(old(self).cache@, (removed@[j])@).unwrap(),
                        path@,
                    ) || (exists|j2: int|
                        0 <= j2 < j && dep_on(
                            assoc_lookup(old(self).cache@, (removed@[j])@).unwrap(),
                            (#[trigger] removed@[j2])@,
                        ))),
                forall|n: Seq<char>|
                    assoc_lookup(self.cache@, n) is Some ==> assoc_lookup(self.cache@, n)
                        == assoc_lookup(old(self).cache@, n),
            ensures
                self.wf(),
                self.files == old(self).files,
                assoc_lookup(self.cache@, path@) is None,
                forall|j: int|
                    0 <= j < removed@.len() ==> assoc_lookup(
                        self.cache@,
                        (#[trigger] removed@[j])@,
                    ) is None,
                forall|j: int|
                    0 <= j < removed@.len() ==> assoc_lookup(
                        old(self).cache@,
                        (#[trigger] removed@[j])@,
                    ) is Some && ((removed@[j])@ == path@ || dep_on(
                        assoc_lookup(old(self).cache@, (removed@[j])@).unwrap(),
                        path@,
                    ) || (exists|j2: int|
                        0 <= j2 < j && dep_on(
                            assoc_lookup(old(self).cache@, (removed@[j])@).unwrap(),
                            (#[trigger] removed@[j2])@,
                        ))),
                forall|n: Seq<char>|
                    assoc_lookup(self.cache@, n) is Some ==> assoc_lookup(self.cache@, n)
                        == assoc_lookup(old(self).cache@, n),
                forall|j: int|
                    0 <= j < self.cache@.len() ==> !dep_on(
                        (#[trigger] self.cache@[j]).1,
                        path@,
                    ) && (forall|k: int|
                        0 <= k < removed@.len() ==> !dep_on(
                            self.cache@[j].1,
                            (#[trigger] removed@[k])@,
                        )),
            decreases self.cache@.len(),
        {
            match self.find_dependent(path, &removed) {
                Option::Some(j) => {
                    let key = self.cache[j].0.clone();
                    let ghost pre_removed = removed@;
                    let ghost victim = self.cache@[j as int].1;
                    proof {
                        lemma_assoc_key_present(self.cache@, j as int);
                        assert(assoc_lookup(old(self).cache@, key@) == Some(victim));
                    }
                    let was = self.cache_remove(key.as_str());
                    removed.push(key);
                    proof {
                        assert forall|jj: int|
                            0 <= jj < removed@.len() implies assoc_lookup(
                            self.cache@,
                            (#[trigger] removed@[jj])@,
                        ) is None by {
                            if jj < removed@.len() - 1 {
                                assert(removed@[jj] == pre_removed[jj]);
                            }
                        }
                        assert forall|jj: int|
                            0 <= jj < removed@.len() implies assoc_lookup(
                            old(self).cache@,
                            (#[trigger] removed@[jj])@,
                        ) is Some && ((removed@[jj])@ == path@ || dep_on(
                            assoc_lookup(old(self).cache@, (removed@[jj])@).unwrap(),
                            path@,
                        ) || (exists|j2: int|
                            0 <= j2 < jj && dep_on(
                                assoc_lookup(old(self).cache@, (removed@[jj])@).unwrap(),
                                (#[trigger] removed@[j2])@,
                            ))) by {
                            if jj < removed@.len() - 1 {
                                assert(removed@[jj] == pre_removed[jj]);
                                if pre_removed[jj]@ != path@ && !dep_on(
                                    assoc_lookup(old(self).cache@, pre_removed[jj]@).unwrap(),
                                    path@,
                                ) {
                                    let w2 = choose|j2: int|
                                        0 <= j2 < jj && dep_on(
                                            assoc_lookup(
                                                old(self).cache@,
                                                pre_removed[jj]@,
                                            ).unwrap(),
                                            (#[trigger] pre_removed[j2])@,
                                        );
                                    assert(removed@[w2] == pre_removed[w2]);
                                    assert(dep_on(
                                        assoc_lookup(old(self).cache@, (removed@[jj])@).unwrap(),
                                        (removed@[w2])@,
                                    ));
                                }
                            } else {
                                assert((removed@[jj])@ == key@);
                                if !dep_on(victim, path@) {
                                    let wk = choose|k: int|
                                        0 <= k < pre_removed.len() && dep_on(
                                            victim,
                                            (#[trigger] pre_removed[k])@,
                                        );
                                    assert(removed@[wk] == pre_removed[wk]);
                                    assert(dep_on(victim, (removed@[wk])@));
                                }
                            }
                        }
                    }
                },
                Option::None => {
                    break ;
                },
            }
        }
        removed
    }
}

/// A successful lookup is witnessed by an entry of the list.
pub proof fn lemma_assoc_lookup_index<V>(entries: Seq<(String, V)>, n: Seq<char>)
    ensures
        assoc_lookup(entries, n) is Some ==> exists|i: int|
            0 <= i < entries.len() && (#[trigger] entries[i]).0@ == n && entries[i].1
                == assoc_lookup(entries, n).unwrap(),
    decreases entries.len(),
{
    if entries.len() > 0 {
        if entries[0].0@ == n {
            assert(entries[0].0@ == n && entries[0].1 == assoc_lookup(entries, n).unwrap());
        } else {
            lemma_assoc_lookup_index(entries.drop_first(), n);
            if assoc_lookup(entries, n) is Some {
                let i = choose|i: int|
                    0 <= i < entries.drop_first().len() && (#[trigger] entries.drop_first()[
                        i
                    ]).0@ == n && entries.drop_first()[i].1 == assoc_lookup(
                        entries.drop_first(),
                        n,
                    ).unwrap();
                assert(entries[i + 1] == entries.drop_first()[i]);
                assert((entries[i + 1]).0@ == n && entries[i + 1].1 == assoc_lookup(
                    entries,
                    n,
                ).unwrap());
            }
        }
    }
}

/// In a unique list an entry's own key resolves to exactly its value.
proof fn lemma_assoc_key_present<V>(entries: Seq<(String, V)>, i: int)
    requires
        0 <= i < entries.len(),
        assoc_unique(entries),
    ensures
        assoc_lookup(entries, entries[i].0@) == Some(entries[i].1),
    decreases i,
{
    if i == 0 {
    } else {
        assert(entries[0].0@ != entries[i].0@);
        assert forall|a: int, b: int|
            0 <= a < b < entries.drop_first().len() implies (
        #[trigger] entries.drop_first()[a]).0@ != (#[trigger] entries.drop_first()[b]).0@ by {
            assert(entries.drop_first()[a] == entries[a + 1]);
            assert(entries.drop_first()[b] == entries[b + 1]);
        }
        lemma_assoc_key_present(entries.drop_first(), i - 1);
        assert(entries.drop_first()[i - 1] == entries[i]);
    }
}

} // verus!
