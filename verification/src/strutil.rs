//! Small string helpers: single-character strings, decimal rendering,
//! trimming, line splitting and path joining, with exact specifications.

use vstd::prelude::*;
use vstd::std_specs::iter::IteratorSpec;

verus! {

/// The whitespace characters trimming removes (the ASCII ones).
pub open spec fn is_space(c: char) -> bool {
    c == ' ' || c == '\t' || c == '\r' || c == '\n'
}

/// How many leading whitespace characters a text starts with.
pub open spec fn leading_spaces(s: Seq<char>) -> int
    decreases s.len(),
{
    if s.len() > 0 && is_space(s[0]) {
        1 + leading_spaces(s.drop_first())
    } else {
        0int
    }
}

/// Where the text ends once trailing whitespace is dropped.
pub open spec fn trimmed_end(s: Seq<char>) -> int
    decreases s.len(),
{
    if s.len() > 0 && is_space(s.last()) {
        trimmed_end(s.drop_last())
    } else {
        s.len() as int
    }
}

/// The text with leading and trailing whitespace removed.
pub open spec fn trim_spec(s: Seq<char>) -> Seq<char> {
    if leading_spaces(s) >= trimmed_end(s) {
        Seq::empty()
    } else {
        s.subrange(leading_spaces(s), trimmed_end(s))
    }
}

/// The index of the first occurrence of `c`, or `-1` when absent.
pub open spec fn find_char(s: Seq<char>, c: char) -> int
    decreases s.len(),
{
    if s.len() <= 0 {
        -1int
    } else if s[0] == c {
        0int
    } else {
        let r = find_char(s.drop_first(), c);
        if r < 0 {
            -1int
        } else {
            r + 1
        }
    }
}

/// What `find_char` promises: an index in range pointing at `c`, with no
/// earlier occurrence, or `-1` when `c` does not occur at all.
pub proof fn lemma_find_char(s: Seq<char>, c: char)
    ensures
        -1 <= find_char(s, c) < s.len(),
        find_char(s, c) >= 0 ==> s[find_char(s, c)] == c,
        forall|k: int| 0 <= k < find_char(s, c) ==> s[k] != c,
        find_char(s, c) < 0 ==> forall|k: int| 0 <= k < s.len() ==> s[k] != c,
    decreases s.len(),
{
    if s.len() > 0 && s[0] != c {
        lemma_find_char(s.drop_first(), c);
        assert forall|k: int| 0 <= k < find_char(s, c) implies s[k] != c by {
            if k > 0 {
                assert(s.drop_first()[k - 1] == s[k]);
            }
        }
        if find_char(s, c) < 0 {
            assert forall|k: int| 0 <= k < s.len() implies s[k] != c by {
                if k > 0 {
                    assert(s.drop_first()[k - 1] == s[k]);
                }
            }
        }
    }
}

/// `leading_spaces` is exactly the first index holding a non-space (or
/// the length, when the text is all spaces).
pub proof fn lemma_leading_spaces(s: Seq<char>)
    ensures
        0 <= leading_spaces(s) <= s.len(),
        forall|k: int| 0 <= k < leading_spaces(s) ==> is_space(s[k]),
        leading_spaces(s) < s.len() ==> !is_space(s[leading_spaces(s)]),
    decreases s.len(),
{
    if s.len() > 0 && is_space(s[0]) {
        lemma_leading_spaces(s.drop_first());
        assert forall|k: int| 0 <= k < leading_spaces(s) implies is_space(s[k]) by {
            if k > 0 {
                assert(s.drop_first()[k - 1] == s[k]);
            }
        }
        if leading_spaces(s) < s.len() {
            assert(s.drop_first()[leading_spaces(s) - 1] == s[leading_spaces(s)]);
        }
    }
}

/// `trimmed_end` is exactly one past the last non-space (or zero, when
/// the text is all spaces).
pub proof fn lemma_trimmed_end(s: Seq<char>)
    ensures
        0 <= trimmed_end(s) <= s.len(),
        forall|k: int| trimmed_end(s) <= k < s.len() ==> is_space(s[k]),
        trimmed_end(s) > 0 ==> !is_space(s[trimmed_end(s) - 1]),
    decreases s.len(),
{
    if s.len() > 0 && is_space(s.last()) {
        lemma_trimmed_end(s.drop_last());
        assert forall|k: int| trimmed_end(s) <= k < s.len() implies is_space(s[k]) by {
            if k < s.len() - 1 {
                assert(s.drop_last()[k] == s[k]);
            }
        }
        if trimmed_end(s) > 0 {
            assert(s.drop_last()[trimmed_end(s) - 1] == s[trimmed_end(s) - 1]);
        }
    }
}

/// The characters of a string, as a vector.
pub fn str_chars(s: &str) -> (v: Vec<char>)
    ensures
        v@ == s@,
{
    let mut v: Vec<char> = Vec::new();
    let mut it = s.chars();
    loop
        invariant_except_break
            v@ + it.remaining() == s@,
            it.decrease() is Some,
        ensures
            v@ == s@,
        decreases it.decrease().unwrap(),
    {
        let ghost pre = it.remaining();
        match it.next() {
            Option::None => {
                proof {
                    assert(pre.len() == 0);
                    assert(v@ =~= s@);
                }
                break ;
            },
            Option::Some(c) => {
                v.push(c);
                proof {
                    assert(v@ + it.remaining() =~= s@);
                }
            },
        }
    }
    v
}

/// A string holding the given characters.
pub fn chars_to_string(v: &Vec<char>, from: usize, to: usize) -> (s: String)
    requires
        from <= to <= v@.len(),
    ensures
        s@ == v@.subrange(from as int, to as int),
    decreases to - from,
{
    let mut s = String::new();
    let mut i = from;
    while i < to
        invariant
            from <= i <= to <= v@.len(),
            s@ == v@.subrange(from as int, i as int),
        decreases to - i,
    {
        s.append(char_to_string(v[i]).as_str());
        proof {
            assert(s@ =~= v@.subrange(from as int, i as int + 1));
        }
        i = i + 1;
    }
    s
}

/// The lines joined back together with newlines.
pub open spec fn join_lines(ls: Seq<Seq<char>>) -> Seq<char>
    decreases ls.len(),
{
    if ls.len() <= 0 {
        Seq::empty()
    } else if ls.len() == 1 {
        ls[0]
    } else {
        ls[0] + seq!['\n'] + join_lines(ls.drop_first())
    }
}

/// Joining after appending a line appends the line after a newline.
pub proof fn lemma_join_push(ls: Seq<Seq<char>>, l: Seq<char>)
    requires
        ls.len() >= 1,
    ensures
        join_lines(ls.push(l)) == join_lines(ls) + seq!['\n'] + l,
    decreases ls.len(),
{
    if ls.len() == 1 {
        assert(ls.push(l)[0] == ls[0]);
        assert(ls.push(l).drop_first() =~= seq![l]);
        assert(join_lines(seq![l]) == l);
        assert(join_lines(ls.push(l)) =~= join_lines(ls) + seq!['\n'] + l);
    } else {
        lemma_join_push(ls.drop_first(), l);
        assert(ls.push(l).drop_first() =~= ls.drop_first().push(l));
        assert(ls.push(l)[0] == ls[0]);
        assert(join_lines(ls.push(l)) =~= join_lines(ls) + seq!['\n'] + l);
    }
}

/// Splits a text into its lines: the returned lines contain no newline,
/// and joined with newlines they give the text back exactly. By
/// [`lemma_join_lines_unique`] this determines the lines completely.
pub fn split_lines(s: &str) -> (r: Vec<String>)
    ensures
        r@.len() >= 1,
        join_lines(r@.map_values(|l: String| l@)) == s@,
        newline_free(r@.map_values(|l: String| l@)),
{
    let mut done: Vec<String> = Vec::new();
    let mut cur = String::new();
    let mut it = s.chars();
    loop
        invariant_except_break
            join_lines(done@.map_values(|l: String| l@).push(cur@)) + it.remaining() == s@,
            forall|i: int|
                0 <= i < done@.len() ==> forall|k: int|
                    0 <= k < (#[trigger] done@[i])@.len() ==> (done@[i])@[k] != '\n',
            forall|k: int| 0 <= k < cur@.len() ==> cur@[k] != '\n',
            it.decrease() is Some,
        ensures
            join_lines(done@.map_values(|l: String| l@).push(cur@)) == s@,
            forall|i: int|
                0 <= i < done@.len() ==> forall|k: int|
                    0 <= k < (#[trigger] done@[i])@.len() ==> (done@[i])@[k] != '\n',
            forall|k: int| 0 <= k < cur@.len() ==> cur@[k] != '\n',
        decreases it.decrease().unwrap(),
    {
        let ghost pre = it.remaining();
        let ghost lsv = done@.map_values(|l: String| l@);
        let ghost cur0 = cur@;
        match it.next() {
            Option::None => {
                proof {
                    assert(pre.len() == 0);
                    assert(join_lines(done@.map_values(|l: String| l@).push(cur@)) =~= s@);
                }
                break ;
            },
            Option::Some(c) => {
                if c == '\n' {
                    done.push(cur);
                    cur = String::new();
                    proof {
                        assert(done@.map_values(|l: String| l@) =~= lsv.push(cur0));
                        lemma_join_push(lsv.push(cur0), cur@);
                        assert(join_lines(lsv.push(cur0).push(cur@)) =~= join_lines(
                            lsv.push(cur0),
                        ) + seq!['\n'] + cur@);
                        assert(join_lines(lsv.push(cur0).push(cur@)) + it.remaining() =~= s@);
                    }
                } else {
                    cur.append(char_to_string(c).as_str());
                    proof {
                        assert(cur@ =~= cur0.push(c));
                        if lsv.len() == 0 {
                            assert(join_lines(lsv.push(cur@)) == cur@);
                            assert(join_lines(lsv.push(cur0)) == cur0);
                        } else {
                            lemma_join_push(lsv, cur@);
                            lemma_join_push(lsv, cur0);
                        }
                        assert(join_lines(lsv.push(cur@)) =~= join_lines(lsv.push(cur0)) + seq![
                            c,
                        ]);
                        assert(join_lines(lsv.push(cur@)) + it.remaining() =~= s@);
                    }
                }
            },
        }
    }
    let ghost lsv = done@.map_values(|l: String| l@);
    let ghost cur0 = cur@;
    done.push(cur);
    proof {
        assert(done@.map_values(|l: String| l@) =~= lsv.push(cur0));
    }
    done
}

/// A line list with no newline inside any line.
pub open spec fn newline_free(ls: Seq<Seq<char>>) -> bool {
    forall|i: int|
        0 <= i < ls.len() ==> forall|k: int|
            0 <= k < (#[trigger] ls[i]).len() ==> ls[i][k] != '\n'
}

proof fn lemma_join_single(ls: Seq<Seq<char>>)
    requires
        ls.len() >= 2,
        newline_free(ls),
    ensures
        join_lines(ls).len() > ls[0].len(),
        forall|i: int| 0 <= i < ls[0].len() ==> join_lines(ls)[i] == ls[0][i],
        join_lines(ls)[ls[0].len() as int] == '\n',
        join_lines(ls).skip(ls[0].len() as int + 1) == join_lines(ls.drop_first()),
{
    assert(join_lines(ls) == ls[0] + seq!['\n'] + join_lines(ls.drop_first()));
    assert(join_lines(ls).skip(ls[0].len() as int + 1) =~= join_lines(ls.drop_first()));
}

/// Lines without newlines are recovered uniquely from their joined text:
/// two newline-free line lists with the same join are the same list.
pub proof fn lemma_join_lines_unique(ls1: Seq<Seq<char>>, ls2: Seq<Seq<char>>)
    requires
        ls1.len() >= 1,
        ls2.len() >= 1,
        newline_free(ls1),
        newline_free(ls2),
        join_lines(ls1) == join_lines(ls2),
    ensures
        ls1 == ls2,
    decreases ls1.len(),
{
    if ls1.len() == 1 && ls2.len() == 1 {
        assert(join_lines(ls1) == ls1[0]);
        assert(join_lines(ls2) == ls2[0]);
        assert(ls1 =~= ls2);
    } else if ls1.len() == 1 {
        lemma_join_single(ls2);
        assert(join_lines(ls1) == ls1[0]);
        assert(ls1[0][ls2[0].len() as int] == '\n');
    } else if ls2.len() == 1 {
        lemma_join_single(ls1);
        assert(join_lines(ls2) == ls2[0]);
        assert(ls2[0][ls1[0].len() as int] == '\n');
    } else {
        lemma_join_single(ls1);
        lemma_join_single(ls2);
        let l1 = ls1[0].len() as int;
        let l2 = ls2[0].len() as int;
        assert(l1 == l2) by {
            if l1 < l2 {
                assert(join_lines(ls1)[l1] == '\n');
                assert(join_lines(ls2)[l1] == ls2[0][l1]);
            }
            if l2 < l1 {
                assert(join_lines(ls2)[l2] == '\n');
                assert(join_lines(ls1)[l2] == ls1[0][l2]);
            }
        }
        assert forall|i: int| 0 <= i < ls1[0].len() implies ls1[0][i] == ls2[0][i] by {
            assert(join_lines(ls1)[i] == ls1[0][i]);
            assert(join_lines(ls2)[i] == ls2[0][i]);
        }
        assert(ls1[0] =~= ls2[0]);
        assert(newline_free(ls1.drop_first())) by {
            assert forall|i: int|
                0 <= i < ls1.drop_first().len() implies forall|k: int|
                    0 <= k < (#[trigger] ls1.drop_first()[i]).len() ==> ls1.drop_first()[i][k]
                        != '\n' by {
                assert(ls1.drop_first()[i] == ls1[i + 1]);
            }
        }
        assert(newline_free(ls2.drop_first())) by {
            assert forall|i: int|
                0 <= i < ls2.drop_first().len() implies forall|k: int|
                    0 <= k < (#[trigger] ls2.drop_first()[i]).len() ==> ls2.drop_first()[i][k]
                        != '\n' by {
                assert(ls2.drop_first()[i] == ls2[i + 1]);
            }
        }
        lemma_join_lines_unique(ls1.drop_first(), ls2.drop_first());
        assert(ls1 =~= ls2) by {
            assert forall|i: int| 0 <= i < ls1.len() implies ls1[i] == ls2[i] by {
                if i > 0 {
                    assert(ls1.drop_first()[i - 1] == ls1[i]);
                    assert(ls2.drop_first()[i - 1] == ls2[i]);
                }
            }
        }
    }
}

/// Joins a directory and a relative path with a slash; an absolute path
/// (or an empty directory) leaves the path as it is.
pub open spec fn join_path_spec(dir: Seq<char>, p: Seq<char>) -> Seq<char> {
    if p.len() > 0 && p[0] == '/' {
        p
    } else if dir.len() == 0 {
        p
    } else {
        dir + seq!['/'] + p
    }
}

/// Joins a directory and a path.
pub fn join_path(dir: &str, p: &str) -> (r: String)
    ensures
        r@ == join_path_spec(dir@, p@),
{
    let pv = str_chars(p);
    if pv.len() > 0 && pv[0] == '/' {
        return String::from_str(p);
    }
    if dir.unicode_len() == 0 {
        return String::from_str(p);
    }
    let mut s = String::from_str(dir);
    s.append("/");
    s.append(p);
    proof {
        reveal_strlit("/");
        assert("/"@ =~= seq!['/']);
        assert(s@ =~= join_path_spec(dir@, p@));
    }
    s
}

/// The directory part of a path: everything before the last slash, or
/// the empty string when there is none.
pub open spec fn parent_dir_spec(s: Seq<char>) -> Seq<char> {
    if last_slash(s) < 0 {
        Seq::empty()
    } else {
        s.take(last_slash(s))
    }
}

/// The index of the last slash, or `-1` when there is none.
pub open spec fn last_slash(s: Seq<char>) -> int
    decreases s.len(),
{
    if s.len() <= 0 {
        -1int
    } else if s.last() == '/' {
        s.len() - 1
    } else {
        last_slash(s.drop_last())
    }
}

proof fn lemma_last_slash(s: Seq<char>)
    ensures
        -1 <= last_slash(s) < s.len(),
        last_slash(s) >= 0 ==> s[last_slash(s)] == '/',
        forall|k: int| last_slash(s) < k < s.len() ==> s[k] != '/',
    decreases s.len(),
{
    if s.len() > 0 && s.last() != '/' {
        lemma_last_slash(s.drop_last());
        assert forall|k: int| last_slash(s) < k < s.len() implies s[k] != '/' by {
            if k < s.len() - 1 {
                assert(s.drop_last()[k] == s[k]);
            }
        }
        if last_slash(s) >= 0 {
            assert(s.drop_last()[last_slash(s)] == s[last_slash(s)]);
        }
    }
}

/// Whether `pat` occurs in `s` starting at index `i`.
pub open spec fn match_at(s: Seq<char>, pat: Seq<char>, i: int) -> bool {
    0 <= i && i + pat.len() <= s.len() && s.subrange(i, i + pat.len()) == pat
}

/// The first index at which `pat` occurs in `s`, or `-1` when it never
/// does.
pub open spec fn find_sub(s: Seq<char>, pat: Seq<char>) -> int
    decreases s.len(),
{
    if pat.len() > s.len() {
        -1int
    } else if s.subrange(0, pat.len() as int) == pat {
        0int
    } else if s.len() == 0 {
        -1int
    } else {
        let r = find_sub(s.drop_first(), pat);
        if r < 0 {
            -1int
        } else {
            r + 1
        }
    }
}

/// What `find_sub` promises: the first match, or no match at all.
pub proof fn lemma_find_sub(s: Seq<char>, pat: Seq<char>)
    ensures
        -1 <= find_sub(s, pat),
        find_sub(s, pat) >= 0 ==> match_at(s, pat, find_sub(s, pat)),
        forall|k: int| 0 <= k < find_sub(s, pat) ==> !match_at(s, pat, k),
        find_sub(s, pat) < 0 ==> forall|k: int| 0 <= k ==> !match_at(s, pat, k),
    decreases s.len(),
{
    if pat.len() > s.len() {
        assert forall|k: int| 0 <= k implies !match_at(s, pat, k) by {}
    } else if s.subrange(0, pat.len() as int) == pat {
    } else if s.len() == 0 {
        assert forall|k: int| 0 <= k implies !match_at(s, pat, k) by {
            if match_at(s, pat, k) {
                assert(s.subrange(k, k + pat.len()) =~= s.subrange(0, pat.len() as int));
            }
        }
    } else {
        lemma_find_sub(s.drop_first(), pat);
        assert forall|k: int| 1 <= k implies (match_at(s, pat, k) == match_at(
            s.drop_first(),
            pat,
            k - 1,
        )) by {
            if match_at(s, pat, k) {
                assert(s.drop_first().subrange(k - 1, k - 1 + pat.len()) =~= s.subrange(
                    k,
                    k + pat.len(),
                ));
            }
            if match_at(s.drop_first(), pat, k - 1) {
                assert(s.subrange(k, k + pat.len()) =~= s.drop_first().subrange(
                    k - 1,
                    k - 1 + pat.len(),
                ));
            }
        }
        assert(!match_at(s, pat, 0));
    }
}

/// `s` with every non-overlapping occurrence of `pat` replaced by `rep`,
/// scanning left to right; an empty pattern replaces nothing.
pub open spec fn replace_spec(s: Seq<char>, pat: Seq<char>, rep: Seq<char>) -> Seq<char>
    decreases s.len(),
{
    if pat.len() == 0 {
        s
    } else {
        let i = find_sub(s, pat);
        if i < 0 || i + pat.len() > s.len() {
            s
        } else {
            s.subrange(0, i) + rep + replace_spec(s.skip(i + pat.len()), pat, rep)
        }
    }
}

/// When the text does not start with the pattern, replacing leaves the
/// first character alone.
proof fn lemma_replace_step(s: Seq<char>, pat: Seq<char>, rep: Seq<char>)
    requires
        s.len() > 0,
        pat.len() > 0,
        !match_at(s, pat, 0),
    ensures
        replace_spec(s, pat, rep) == seq![s[0]] + replace_spec(s.drop_first(), pat, rep),
{
    lemma_find_sub(s, pat);
    lemma_find_sub(s.drop_first(), pat);
    if pat.len() > s.len() {
        assert(pat.len() > s.drop_first().len());
        assert(replace_spec(s, pat, rep) == s);
        assert(replace_spec(s.drop_first(), pat, rep) == s.drop_first());
        assert(s =~= seq![s[0]] + s.drop_first());
    } else {
        if s.subrange(0, pat.len() as int) == pat {
            assert(match_at(s, pat, 0));
        }
        let r = find_sub(s.drop_first(), pat);
        if r < 0 {
            assert(find_sub(s, pat) == -1);
            assert(replace_spec(s, pat, rep) == s);
            assert(replace_spec(s.drop_first(), pat, rep) == s.drop_first());
            assert(s =~= seq![s[0]] + s.drop_first());
        } else {
            assert(find_sub(s, pat) == r + 1);
            assert(match_at(s.drop_first(), pat, r));
            assert(r + 1 + pat.len() <= s.len());
            assert(s.skip(r + 1 + pat.len()) =~= s.drop_first().skip(r + pat.len()));
            assert(s.subrange(0, r + 1) =~= seq![s[0]] + s.drop_first().subrange(0, r));
            assert(replace_spec(s, pat, rep) =~= seq![s[0]] + replace_spec(
                s.drop_first(),
                pat,
                rep,
            ));
        }
    }
}

/// Whether `pat` occurs in `v` starting at index `i`.
fn match_at_exec(v: &Vec<char>, pat: &Vec<char>, i: usize) -> (r: bool)
    requires
        i <= v@.len(),
    ensures
        r == match_at(v@, pat@, i as int),
{
    if v.len() - i < pat.len() {
        proof {
            assert(!match_at(v@, pat@, i as int));
        }
        return false;
    }
    let n = pat.len();
    let mut k: usize = 0;
    while k < n
        invariant
            i + n <= v@.len(),
            i + n <= usize::MAX,
            n == pat@.len(),
            k <= n,
            forall|m: int| 0 <= m < k ==> v@[i + m] == pat@[m],
        decreases n - k,
    {
        if v[i + k] != pat[k] {
            proof {
                if match_at(v@, pat@, i as int) {
                    assert(v@.subrange(i as int, i + pat@.len())[k as int] == pat@[k as int]);
                }
            }
            return false;
        }
        k = k + 1;
    }
    proof {
        assert(v@.subrange(i as int, i + pat@.len()) =~= pat@);
    }
    true
}

/// Replaces every non-overlapping occurrence of `pat` in `s` by `rep`,
/// scanning left to right.
pub fn replace_all(s: &str, pat: &str, rep: &str) -> (r: String)
    ensures
        r@ == replace_spec(s@, pat@, rep@),
    decreases s@.len(),
{
    let v = str_chars(s);
    let pv = str_chars(pat);
    if pv.len() == 0 {
        return String::from_str(s);
    }
    let mut out = String::new();
    let n = v.len();
    proof {
        assert(v@.skip(0) =~= v@);
        assert(out@ + replace_spec(v@, pat@, rep@) =~= replace_spec(s@, pat@, rep@));
    }
    let mut cursor: usize = 0;
    while cursor < n
        invariant
            v@ == s@,
            pv@ == pat@,
            pv@.len() > 0,
            n == v@.len(),
            cursor <= n,
            out@ + replace_spec(v@.skip(cursor as int), pat@, rep@) == replace_spec(
                s@,
                pat@,
                rep@,
            ),
        decreases n - cursor,
    {
        let ghost rem = v@.skip(cursor as int);
        if match_at_exec(&v, &pv, cursor) {
            out.append(rep);
            proof {
                lemma_find_sub(rem, pat@);
                assert(match_at(rem, pat@, 0)) by {
                    assert(rem.subrange(0, pat@.len() as int) =~= v@.subrange(
                        cursor as int,
                        cursor + pat@.len(),
                    ));
                }
                assert(find_sub(rem, pat@) == 0);
                assert(replace_spec(rem, pat@, rep@) == rem.subrange(0, 0) + rep@ + replace_spec(
                    rem.skip(pat@.len() as int),
                    pat@,
                    rep@,
                ));
                assert(rem.subrange(0, 0) =~= Seq::<char>::empty());
                assert(rem.skip(pat@.len() as int) =~= v@.skip(cursor + pat@.len()));
                assert(out@ + replace_spec(v@.skip(cursor + pat@.len()), pat@, rep@)
                    =~= replace_spec(s@, pat@, rep@));
            }
            cursor = cursor + pv.len();
        } else {
            out.append(char_to_string(v[cursor]).as_str());
            proof {
                assert(!match_at(rem, pat@, 0)) by {
                    if match_at(rem, pat@, 0) {
                        assert(v@.subrange(cursor as int, cursor + pat@.len()) =~= rem.subrange(
                            0,
                            pat@.len() as int,
                        ));
                    }
                }
                lemma_replace_step(rem, pat@, rep@);
                assert(rem[0] == v@[cursor as int]);
                assert(rem.drop_first() =~= v@.skip(cursor as int + 1));
                assert(out@ + replace_spec(v@.skip(cursor as int + 1), pat@, rep@)
                    =~= replace_spec(s@, pat@, rep@));
            }
            cursor = cursor + 1;
        }
    }
    proof {
        assert(v@.skip(n as int) =~= Seq::<char>::empty());
        assert(replace_spec(Seq::<char>::empty(), pat@, rep@) =~= Seq::<char>::empty());
        assert(out@ =~= replace_spec(s@, pat@, rep@));
    }
    out
}

/// The directory part of a path.
pub fn parent_dir(s: &str) -> (r: String)
    ensures
        r@ == parent_dir_spec(s@),
{
    let v = str_chars(s);
    let n = v.len();
    proof {
        lemma_last_slash(s@);
    }
    let mut i = n;
    while i > 0
        invariant
            n == v@.len(),
            v@ == s@,
            i <= n,
            forall|k: int| i <= k < n ==> v@[k] != '/',
        decreases i,
    {
        if v[i - 1] == '/' {
            proof {
                lemma_last_slash(s@);
                assert(last_slash(s@) == i - 1);
            }
            return chars_to_string(&v, 0, i - 1);
        }
        i = i - 1;
    }
    proof {
        assert(last_slash(s@) < 0);
    }
    String::new()
}

/// Relies on `char::to_string` from the standard library: the string
/// holding exactly the one character.
#[verifier::external_body]
pub fn char_to_string(c: char) -> (r: String)
    ensures
        r@ == seq![c],
{
    c.to_string()
}

/// The digit character for one decimal digit.
pub open spec fn digit_char(d: int) -> char {
    if d == 0 {
        '0'
    } else if d == 1 {
        '1'
    } else if d == 2 {
        '2'
    } else if d == 3 {
        '3'
    } else if d == 4 {
        '4'
    } else if d == 5 {
        '5'
    } else if d == 6 {
        '6'
    } else if d == 7 {
        '7'
    } else if d == 8 {
        '8'
    } else {
        '9'
    }
}

/// The decimal rendering of a natural number, most significant digit
/// first, without leading zeros (zero itself renders as "0").
pub open spec fn dec_rep(n: nat) -> Seq<char>
    decreases n,
{
    if n < 10 {
        seq![digit_char(n as int)]
    } else {
        dec_rep(n / 10).push(digit_char((n % 10) as int))
    }
}

/// The one-character string for a decimal digit.
fn digit_str(d: u64) -> (r: &'static str)
    requires
        d < 10,
    ensures
        r@ == seq![digit_char(d as int)],
{
    if d == 0 {
        proof {
            reveal_strlit("0");
        }
        assert("0"@ =~= seq![digit_char(0)]);
        "0"
    } else if d == 1 {
        proof {
            reveal_strlit("1");
        }
        assert("1"@ =~= seq![digit_char(1)]);
        "1"
    } else if d == 2 {
        proof {
            reveal_strlit("2");
        }
        assert("2"@ =~= seq![digit_char(2)]);
        "2"
    } else if d == 3 {
        proof {
            reveal_strlit("3");
        }
        assert("3"@ =~= seq![digit_char(3)]);
        "3"
    } else if d == 4 {
        proof {
            reveal_strlit("4");
        }
        assert("4"@ =~= seq![digit_char(4)]);
        "4"
    } else if d == 5 {
        proof {
            reveal_strlit("5");
        }
        assert("5"@ =~= seq![digit_char(5)]);
        "5"
    } else if d == 6 {
        proof {
            reveal_strlit("6");
        }
        assert("6"@ =~= seq![digit_char(6)]);
        "6"
    } else if d == 7 {
        proof {
            reveal_strlit("7");
        }
        assert("7"@ =~= seq![digit_char(7)]);
        "7"
    } else if d == 8 {
        proof {
            reveal_strlit("8");
        }
        assert("8"@ =~= seq![digit_char(8)]);
        "8"
    } else {
        proof {
            reveal_strlit("9");
        }
        assert("9"@ =~= seq![digit_char(9)]);
        "9"
    }
}

/// Renders a number in decimal.
pub fn u64_to_dec(n: u64) -> (s: String)
    ensures
        s@ == dec_rep(n as nat),
    decreases n,
{
    if n < 10 {
        String::from_str(digit_str(n))
    } else {
        let mut s = u64_to_dec(n / 10);
        s.append(digit_str(n % 10));
        proof {
            assert(s@ =~= dec_rep(n as nat));
        }
        s
    }
}

} // verus!
