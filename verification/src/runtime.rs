//! The scripting-bridge stub: dependency-directive extraction from
//! dashboard source text, source hashing for cache invalidation, and the
//! evaluation context the bridge would drive.

use crate::error::{EngineError, EngineResult};
use crate::buffer::Buffer;
use crate::layout::Rect;
use crate::state::DashboardState;
use crate::strutil::{
    chars_to_string, is_space, join_path, join_path_spec, leading_spaces, parent_dir,
    parent_dir_spec, split_lines, str_chars, trim_spec, trimmed_end, find_char, join_lines,
};
use vstd::prelude::*;
use vstd::string::StringSliceAdditionalSpecFns;

verus! {

/// The quoted string at the front of a text, once surrounding whitespace
/// is dropped: the characters between the opening quote and the first
/// closing quote, or nothing when there is no well-formed quote pair.
pub open spec fn extract_quoted(s: Seq<char>) -> Option<Seq<char>> {
    let t = trim_spec(s);
    if t.len() >= 1 && t[0] == '"' {
        let rest = t.drop_first();
        let j = find_char(rest, '"');
        if j < 0 {
            Option::None
        } else {
            Option::Some(rest.take(j))
        }
    } else {
        Option::None
    }
}

/// The dependency a line declares, if any: a trimmed line reading
/// `#load "some/path"` contributes the quoted path joined onto the base
/// directory.
pub open spec fn line_dep(line: Seq<char>, dir: Seq<char>) -> Option<Seq<char>> {
    let t = trim_spec(line);
    if t.len() >= 5 && t[0] == '#' && t[1] == 'l' && t[2] == 'o' && t[3] == 'a' && t[4] == 'd' {
        match extract_quoted(t.skip(5)) {
            Option::Some(p) => Option::Some(join_path_spec(dir, p)),
            Option::None => Option::None,
        }
    } else {
        Option::None
    }
}

/// The dependencies a list of lines declares, in order.
pub open spec fn directives_of_lines(lines: Seq<Seq<char>>, dir: Seq<char>) -> Seq<Seq<char>>
    decreases lines.len(),
{
    if lines.len() <= 0 {
        Seq::empty()
    } else {
        (match line_dep(lines[0], dir) {
            Option::Some(d) => seq![d],
            Option::None => Seq::empty(),
        }) + directives_of_lines(lines.drop_first(), dir)
    }
}

/// Whether a character is one of the trimmed whitespace characters.
fn char_is_space(c: char) -> (r: bool)
    ensures
        r == is_space(c),
{
    c == ' ' || c == '\t' || c == '\r' || c == '\n'
}

/// The trimmed range of a character vector: the index of the first
/// non-space, and one past the last.
fn trim_bounds(v: &Vec<char>) -> (b: (usize, usize))
    ensures
        b.0 == leading_spaces(v@),
        b.1 == trimmed_end(v@),
        b.0 <= v@.len(),
        b.1 <= v@.len(),
{
    let n = v.len();
    let mut lead: usize = 0;
    while lead < n && char_is_space(v[lead])
        invariant
            n == v@.len(),
            lead <= n,
            forall|k: int| 0 <= k < lead ==> is_space(v@[k]),
        decreases n - lead,
    {
        lead = lead + 1;
    }
    proof {
        crate::strutil::lemma_leading_spaces(v@);
        if lead < leading_spaces(v@) {
            assert(is_space(v@[lead as int]));
        }
        if lead > leading_spaces(v@) {
            assert(is_space(v@[leading_spaces(v@)]));
        }
    }
    let mut end: usize = n;
    while end > 0 && char_is_space(v[end - 1])
        invariant
            n == v@.len(),
            end <= n,
            forall|k: int| end <= k < n ==> is_space(v@[k]),
        decreases end,
    {
        end = end - 1;
    }
    proof {
        crate::strutil::lemma_trimmed_end(v@);
        if end < trimmed_end(v@) {
            assert(is_space(v@[end as int]));
        }
        if end > trimmed_end(v@) {
            assert(is_space(v@[trimmed_end(v@)]));
        }
    }
    (lead, end)
}

/// The first occurrence of `c` in `v[from..to]`, as an absolute index.
fn find_char_in(v: &Vec<char>, from: usize, to: usize, c: char) -> (r: Option<usize>)
    requires
        from <= to <= v@.len(),
    ensures
        match r {
            Option::Some(j) => from <= j < to && find_char(v@.subrange(from as int, to as int), c)
                == j - from,
            Option::None => find_char(v@.subrange(from as int, to as int), c) == -1,
        },
{
    let ghost sub = v@.subrange(from as int, to as int);
    proof {
        crate::strutil::lemma_find_char(sub, c);
    }
    let mut i = from;
    while i < to
        invariant
            from <= i <= to <= v@.len(),
            sub == v@.subrange(from as int, to as int),
            forall|k: int| from <= k < i ==> v@[k] != c,
        decreases to - i,
    {
        if v[i] == c {
            proof {
                crate::strutil::lemma_find_char(sub, c);
                let f = find_char(sub, c);
                assert(sub[i - from] == v@[i as int]);
                if f < i - from {
                    assert(sub[f] == c);
                    assert(v@[from + f] != c);
                }
                if f > i - from || f < 0 {
                    assert(sub[i - from] != c);
                }
            }
            return Option::Some(i);
        }
        i = i + 1;
    }
    proof {
        crate::strutil::lemma_find_char(sub, c);
        let f = find_char(sub, c);
        if f >= 0 {
            assert(sub[f] == c);
            assert(v@[from + f] != c);
        }
    }
    Option::None
}

/// Extracts the quoted string at the front of `input`, ignoring
/// surrounding whitespace: `Some` of the text between the opening quote
/// and the first closing quote, or `None` without a well-formed pair.
pub fn extract_quoted_string(input: &str) -> (r: Option<&str>)
    ensures
        match r {
            Option::Some(t) => extract_quoted(input@) == Option::Some(t@),
            Option::None => extract_quoted(input@) is None,
        },
{
    let v = str_chars(input);
    let (ts, te) = trim_bounds(&v);
    if ts < te && v[ts] == '"' {
        proof {
            assert(trim_spec(input@) == input@.subrange(ts as int, te as int));
            assert(trim_spec(input@)[0] == input@[ts as int]);
            assert(trim_spec(input@).drop_first() =~= input@.subrange(ts as int + 1, te as int));
        }
        match find_char_in(&v, ts + 1, te, '"') {
            Option::Some(j) => {
                let t = input.substring_char(ts + 1, j);
                proof {
                    assert(trim_spec(input@).drop_first().take(j - (ts + 1)) =~= input@.subrange(
                        ts as int + 1,
                        j as int,
                    ));
                }
                Option::Some(t)
            },
            Option::None => Option::None,
        }
    } else {
        proof {
            if ts < te {
                assert(trim_spec(input@) == input@.subrange(ts as int, te as int));
                assert(trim_spec(input@)[0] == input@[ts as int]);
            } else {
                assert(trim_spec(input@) =~= Seq::<char>::empty());
            }
        }
        Option::None
    }
}

/// The dependency one line declares, if any.
fn line_dep_exec(line: &str, dir: &str) -> (r: Option<String>)
    ensures
        match r {
            Option::Some(d) => line_dep(line@, dir@) == Option::Some(d@),
            Option::None => line_dep(line@, dir@) is None,
        },
{
    let v = str_chars(line);
    let (ts, te) = trim_bounds(&v);
    if te >= 5 && ts <= te - 5 && v[ts] == '#' && v[ts + 1] == 'l' && v[ts + 2] == 'o' && v[ts
        + 3] == 'a' && v[ts + 4] == 'd' {
        proof {
            assert(trim_spec(line@) == line@.subrange(ts as int, te as int));
            assert(trim_spec(line@).len() >= 5);
            assert(trim_spec(line@)[0] == line@[ts as int]);
            assert(trim_spec(line@)[1] == line@[ts as int + 1]);
            assert(trim_spec(line@)[2] == line@[ts as int + 2]);
            assert(trim_spec(line@)[3] == line@[ts as int + 3]);
            assert(trim_spec(line@)[4] == line@[ts as int + 4]);
        }
        let rest = chars_to_string(&v, ts + 5, te);
        proof {
            assert(rest@ =~= trim_spec(line@).skip(5));
        }
        match extract_quoted_string(rest.as_str()) {
            Option::Some(p) => Option::Some(join_path(dir, p)),
            Option::None => Option::None,
        }
    } else {
        proof {
            if ts < te {
                assert(trim_spec(line@) == line@.subrange(ts as int, te as int));
                if trim_spec(line@).len() >= 5 {
                    assert(trim_spec(line@)[0] == line@[ts as int]);
                    assert(trim_spec(line@)[1] == line@[ts as int + 1]);
                    assert(trim_spec(line@)[2] == line@[ts as int + 2]);
                    assert(trim_spec(line@)[3] == line@[ts as int + 3]);
                    assert(trim_spec(line@)[4] == line@[ts as int + 4]);
                }
            } else {
                assert(trim_spec(line@) =~= Seq::<char>::empty());
            }
        }
        Option::None
    }
}

/// Scans dashboard source text for `#load "path"` directives and returns
/// the declared dependencies, resolved against the directory of
/// `base_path`: the dependencies of the source's lines, where the lines
/// are the newline-free list that joins back to the source (unique, by
/// `crate::strutil::lemma_join_lines_unique`).
pub fn parse_load_directives(source: &str, base_path: &str) -> (r: Vec<String>)
    ensures
        exists|lines: Seq<Seq<char>>|
            join_lines(lines) == source@ && crate::strutil::newline_free(lines)
                && #[trigger] directives_of_lines(lines, parent_dir_spec(base_path@))
                == r@.map_values(|d: String| d@),
{
    let dir = parent_dir(base_path);
    let lines = split_lines(source);
    let ghost lsv = lines@.map_values(|l: String| l@);
    let n = lines.len();
    let mut deps: Vec<String> = Vec::new();
    proof {
        assert(lsv.skip(0) =~= lsv);
        assert(deps@.map_values(|d: String| d@) =~= Seq::<Seq<char>>::empty());
    }
    let mut i: usize = 0;
    while i < n
        invariant
            n == lines@.len(),
            i <= n,
            lsv == lines@.map_values(|l: String| l@),
            dir@ == parent_dir_spec(base_path@),
            directives_of_lines(lsv, dir@) == deps@.map_values(|d: String| d@)
                + directives_of_lines(lsv.skip(i as int), dir@),
        decreases n - i,
    {
        let ghost pre = deps@.map_values(|d: String| d@);
        match line_dep_exec(lines[i].as_str(), dir.as_str()) {
            Option::Some(d) => {
                deps.push(d);
            },
            Option::None => {},
        }
        proof {
            assert(lsv.skip(i as int)[0] == lsv[i as int]);
            assert(lsv.skip(i as int).drop_first() =~= lsv.skip(i as int + 1));
            assert(directives_of_lines(lsv.skip(i as int), dir@) == (match line_dep(
                lsv[i as int],
                dir@,
            ) {
                Option::Some(d) => seq![d],
                Option::None => Seq::empty(),
            }) + directives_of_lines(lsv.skip(i as int + 1), dir@));
            assert(directives_of_lines(lsv, dir@) =~= deps@.map_values(|d: String| d@)
                + directives_of_lines(lsv.skip(i as int + 1), dir@));
        }
        i = i + 1;
    }
    proof {
        assert(lsv.skip(n as int) =~= Seq::<Seq<char>>::empty());
        assert(directives_of_lines(lsv, dir@) =~= deps@.map_values(|d: String| d@));
    }
    deps
}

/// The FNV-1a offset basis.
pub open spec fn fnv_offset() -> u64 {
    0xcbf2_9ce4_8422_2325u64
}

/// The FNV-1a prime.
pub open spec fn fnv_prime() -> u64 {
    0x0000_0100_0000_01b3u64
}

/// One FNV-1a step: fold a byte into the running hash.
pub open spec fn fnv_step(h: u64, b: u8) -> u64 {
    (((h ^ (b as u64)) * fnv_prime()) % 0x1_0000_0000_0000_0000) as u64
}

/// The FNV-1a hash of the remaining bytes, from a running hash.
pub open spec fn fnv_from(h: u64, bytes: Seq<u8>) -> u64
    decreases bytes.len(),
{
    if bytes.len() <= 0 {
        h
    } else {
        fnv_from(fnv_step(h, bytes[0]), bytes.drop_first())
    }
}

/// The FNV-1a hash of a byte sequence.
pub open spec fn fnv1a(bytes: Seq<u8>) -> u64 {
    fnv_from(fnv_offset(), bytes)
}

/// Hashes source text (FNV-1a over its bytes), for cache invalidation:
/// equal sources always hash equally.
pub fn hash_source(source: &str) -> (h: u64)
    ensures
        h == fnv1a(source.spec_bytes()),
{
    let bytes = source.as_bytes();
    let n = bytes.len();
    let mut h: u64 = 0xcbf2_9ce4_8422_2325;
    proof {
        assert(bytes@.skip(0) =~= bytes@);
    }
    let mut i: usize = 0;
    while i < n
        invariant
            n == bytes@.len(),
            i <= n,
            bytes@ == source.spec_bytes(),
            fnv_from(h, bytes@.skip(i as int)) == fnv1a(source.spec_bytes()),
        decreases n - i,
    {
        proof {
            assert(bytes@.skip(i as int)[0] == bytes@[i as int]);
            assert(bytes@.skip(i as int).drop_first() =~= bytes@.skip(i as int + 1));
        }
        h = (h ^ (bytes[i] as u64)).wrapping_mul(0x0000_0100_0000_01b3);
        i = i + 1;
    }
    proof {
        assert(bytes@.skip(n as int) =~= Seq::<u8>::empty());
    }
    h
}

/// A compiled module of the scripting bridge, kept for hot-reload reuse.
#[derive(Debug, Clone)]
pub struct CompiledModule {
    /// The source file the module came from
    pub path: String,
    /// The hash of the source it was compiled from
    pub source_hash: u64,
    /// The files the module loads
    pub dependencies: Vec<String>,
}

/// The evaluation context the scripting bridge would drive: the entry
/// file, a compiled-module cache, and the host functions the bridge
/// offers scripts. Evaluation itself is a stub; the context only tracks
/// its lifecycle.
#[derive(Debug)]
pub struct FusabiContext {
    /// The entry script
    pub entry_file: String,
    /// Compiled modules by path
    pub module_cache: Vec<(String, CompiledModule)>,
    /// The registered host function names
    pub registered_functions: Vec<String>,
    /// Whether the entry script has been evaluated
    pub initialized: bool,
}

impl FusabiContext {
    /// Creates a context for an entry file and registers the host
    /// function names.
    pub fn new(entry_file: String) -> (c: Self)
        ensures
            c.entry_file == entry_file,
            c.module_cache@.len() == 0,
            !c.initialized,
            c.registered_functions@.len() > 0,
    {
        let mut ctx = FusabiContext {
            entry_file,
            module_cache: Vec::new(),
            registered_functions: Vec::new(),
            initialized: false,
        };
        ctx.register_color_functions();
        ctx.register_style_functions();
        ctx.register_layout_functions();
        ctx.register_widget_functions();
        ctx.register_buffer_functions();
        ctx
    }

    /// Evaluates the entry script (a stub: it only marks the context
    /// initialized).
    pub fn evaluate(&mut self, _source: &str) -> (r: EngineResult<()>)
        ensures
            r is Ok,
            final(self).initialized,
            final(self).entry_file == old(self).entry_file,
            final(self).module_cache == old(self).module_cache,
            final(self).registered_functions == old(self).registered_functions,
    {
        self.initialized = true;
        Result::Ok(())
    }

    /// Renders through the script's paint entry point (a stub: it only
    /// checks the lifecycle). Fails exactly when the context has not been
    /// evaluated.
    pub fn render(&mut self, _buffer: &mut Buffer, _area: Rect, _state: &DashboardState) -> (r:
        EngineResult<()>)
        ensures
            *final(self) == *old(self),
            *final(_buffer) == *old(_buffer),
            r is Ok <==> old(self).initialized,
    {
        if !self.initialized {
            return Result::Err(
                EngineError::InvalidState(String::from_str("context not initialized")),
            );
        }
        Result::Ok(())
    }

    /// Drops the cached modules for the given paths and marks the
    /// context uninitialized, so the next evaluation recompiles.
    pub fn invalidate(&mut self, paths: &Vec<String>)
        ensures
            !final(self).initialized,
            final(self).entry_file == old(self).entry_file,
            final(self).registered_functions == old(self).registered_functions,
            final(self).module_cache@.len() <= old(self).module_cache@.len(),
    {
        let n = paths.len();
        let mut i: usize = 0;
        while i < n
            invariant
                n == paths@.len(),
                i <= n,
                self.entry_file == old(self).entry_file,
                self.registered_functions == old(self).registered_functions,
                self.initialized == old(self).initialized,
                self.module_cache@.len() <= old(self).module_cache@.len(),
            decreases n - i,
        {
            self.remove_module(&paths[i]);
            i = i + 1;
        }
        self.initialized = false;
    }

    /// Drops one cached module, if present.
    fn remove_module(&mut self, path: &String)
        ensures
            final(self).entry_file == old(self).entry_file,
            final(self).registered_functions == old(self).registered_functions,
            final(self).initialized == old(self).initialized,
            final(self).module_cache@.len() <= old(self).module_cache@.len(),
    {
        let n = self.module_cache.len();
        let mut i: usize = 0;
        while i < n
            invariant
                n == self.module_cache@.len(),
                i <= n,
                self.entry_file == old(self).entry_file,
                self.registered_functions == old(self).registered_functions,
                self.initialized == old(self).initialized,
                self.module_cache@.len() == old(self).module_cache@.len(),
            decreases n - i,
        {
            if &self.module_cache[i].0 == path {
                self.module_cache.remove(i);
                return ;
            }
            i = i + 1;
        }
    }

    /// Whether the context is ready to render.
    pub fn is_initialized(&self) -> (r: bool)
        ensures
            r == self.initialized,
    {
        self.initialized
    }

    /// The registered host function names.
    pub fn registered_functions(&self) -> (r: &Vec<String>)
        ensures
            r == &self.registered_functions,
    {
        &self.registered_functions
    }

    fn register_color_functions(&mut self)
        ensures
            final(self).registered_functions@.len() == old(self).registered_functions@.len() + 18,
            final(self).entry_file == old(self).entry_file,
            final(self).module_cache == old(self).module_cache,
            final(self).initialized == old(self).initialized,
    {
        self.registered_functions.push(String::from_str("tui.color.rgb"));
        self.registered_functions.push(String::from_str("tui.color.indexed"));
        self.registered_functions.push(String::from_str("tui.color.reset"));
        self.registered_functions.push(String::from_str("tui.color.black"));
        self.registered_functions.push(String::from_str("tui.color.red"));
        self.registered_functions.push(String::from_str("tui.color.green"));
        self.registered_functions.push(String::from_str("tui.color.yellow"));
        self.registered_functions.push(String::from_str("tui.color.blue"));
        self.registered_functions.push(String::from_str("tui.color.magenta"));
        self.registered_functions.push(String::from_str("tui.color.cyan"));
        self.registered_functions.push(String::from_str("tui.color.white"));
        self.registered_functions.push(String::from_str("tui.color.darkGray"));
        self.registered_functions.push(String::from_str("tui.color.lightRed"));
        self.registered_functions.push(String::from_str("tui.color.lightGreen"));
        self.registered_functions.push(String::from_str("tui.color.lightYellow"));
        self.registered_functions.push(String::from_str("tui.color.lightBlue"));
        self.registered_functions.push(String::from_str("tui.color.lightMagenta"));
        self.registered_functions.push(String::from_str("tui.color.lightCyan"));
    }

    fn register_style_functions(&mut self)
        ensures
            final(self).registered_functions@.len() == old(self).registered_functions@.len() + 12,
            final(self).entry_file == old(self).entry_file,
            final(self).module_cache == old(self).module_cache,
            final(self).initialized == old(self).initialized,
    {
        self.registered_functions.push(String::from_str("tui.style.new"));
        self.registered_functions.push(String::from_str("tui.style.fg"));
        self.registered_functions.push(String::from_str("tui.style.bg"));
        self.registered_functions.push(String::from_str("tui.style.bold"));
        self.registered_functions.push(String::from_str("tui.style.dim"));
        self.registered_functions.push(String::from_str("tui.style.italic"));
        self.registered_functions.push(String::from_str("tui.style.underlined"));
        self.registered_functions.push(String::from_str("tui.style.slowBlink"));
        self.registered_functions.push(String::from_str("tui.style.rapidBlink"));
        self.registered_functions.push(String::from_str("tui.style.reversed"));
        self.registered_functions.push(String::from_str("tui.style.hidden"));
        self.registered_functions.push(String::from_str("tui.style.crossedOut"));
    }

    fn register_layout_functions(&mut self)
        ensures
            final(self).registered_functions@.len() == old(self).registered_functions@.len() + 8,
            final(self).entry_file == old(self).entry_file,
            final(self).module_cache == old(self).module_cache,
            final(self).initialized == old(self).initialized,
    {
        self.registered_functions.push(String::from_str("tui.layout.rect"));
        self.registered_functions.push(String::from_str("tui.layout.split"));
        self.registered_functions.push(String::from_str("tui.layout.length"));
        self.registered_functions.push(String::from_str("tui.layout.percentage"));
        self.registered_functions.push(String::from_str("tui.layout.ratio"));
        self.registered_functions.push(String::from_str("tui.layout.fill"));
        self.registered_functions.push(String::from_str("tui.layout.min"));
        self.registered_functions.push(String::from_str("tui.layout.max"));
    }

    fn register_widget_functions(&mut self)
        ensures
            final(self).registered_functions@.len() == old(self).registered_functions@.len() + 14,
            final(self).entry_file == old(self).entry_file,
            final(self).module_cache == old(self).module_cache,
            final(self).initialized == old(self).initialized,
    {
        self.registered_functions.push(String::from_str("tui.widget.block"));
        self.registered_functions.push(String::from_str("tui.widget.blockTitle"));
        self.registered_functions.push(String::from_str("tui.widget.blockBorders"));
        self.registered_functions.push(String::from_str("tui.widget.paragraph"));
        self.registered_functions.push(String::from_str("tui.widget.paragraphAlignment"));
        self.registered_functions.push(String::from_str("tui.widget.list"));
        self.registered_functions.push(String::from_str("tui.widget.listItem"));
        self.registered_functions.push(String::from_str("tui.widget.gauge"));
        self.registered_functions.push(String::from_str("tui.widget.gaugePercent"));
        self.registered_functions.push(String::from_str("tui.widget.table"));
        self.registered_functions.push(String::from_str("tui.widget.tableRow"));
        self.registered_functions.push(String::from_str("tui.widget.sparkline"));
        self.registered_functions.push(String::from_str("tui.widget.tabs"));
        self.registered_functions.push(String::from_str("tui.widget.render"));
    }

    fn register_buffer_functions(&mut self)
        ensures
            final(self).registered_functions@.len() == old(self).registered_functions@.len() + 4,
            final(self).entry_file == old(self).entry_file,
            final(self).module_cache == old(self).module_cache,
            final(self).initialized == old(self).initialized,
    {
        self.registered_functions.push(String::from_str("tui.buffer.setString"));
        self.registered_functions.push(String::from_str("tui.buffer.setStyle"));
        self.registered_functions.push(String::from_str("tui.buffer.get"));
        self.registered_functions.push(String::from_str("tui.buffer.clear"));
    }
}

} // verus!
