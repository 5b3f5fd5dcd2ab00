//! A model of slash-separated file paths: the final component, its stem and
//! extension, and the path with another extension.
use vstd::prelude::*;
use vstd::string::*;

verus! {

/// The path with every trailing separator removed.
pub open spec fn trim_end_seps(p: Seq<char>) -> Seq<char>
    decreases p.len(),
{
    if p.len() > 0 && p.last() == '/' {
        trim_end_seps(p.drop_last())
    } else {
        p
    }
}

/// The position just past the last `c` in `s`, or 0 when `s` holds no `c`.
pub open spec fn after_last(s: Seq<char>, c: char) -> int
    decreases s.len(),
{
    if s.len() == 0 {
        0
    } else if s.last() == c {
        s.len() as int
    } else {
        after_last(s.drop_last(), c)
    }
}

/// The final component of a path, trailing separators ignored; none when it is
/// empty, `.` or `..`.
pub open spec fn file_name(p: Seq<char>) -> Option<Seq<char>> {
    let t = trim_end_seps(p);
    let n = t.subrange(after_last(t, '/'), t.len() as int);
    if n.len() == 0 || n == seq!['.'] || n == seq!['.', '.'] {
        None
    } else {
        Some(n)
    }
}

/// Whether a file name carries an extension: a dot that is not its first character.
pub open spec fn name_has_ext(n: Seq<char>) -> bool {
    after_last(n, '.') > 1
}

/// The file name without its extension.
pub open spec fn file_stem(p: Seq<char>) -> Option<Seq<char>> {
    match file_name(p) {
        None => None,
        Some(n) => if name_has_ext(n) {
            Some(n.subrange(0, after_last(n, '.') - 1))
        } else {
            Some(n)
        },
    }
}

/// What follows the last dot of the file name, unless that dot leads the name.
pub open spec fn extension(p: Seq<char>) -> Option<Seq<char>> {
    match file_name(p) {
        None => None,
        Some(n) => if name_has_ext(n) {
            Some(n.subrange(after_last(n, '.'), n.len() as int))
        } else {
            None
        },
    }
}

/// The path with its extension replaced by `e` (removed when `e` is empty);
/// a path without a file name is left as it is.
pub open spec fn with_extension(p: Seq<char>, e: Seq<char>) -> Seq<char> {
    match file_stem(p) {
        None => p,
        Some(s) => {
            let t = trim_end_seps(p);
            let dir = t.subrange(0, after_last(t, '/'));
            if e.len() == 0 {
                dir + s
            } else {
                dir + s + seq!['.'] + e
            }
        },
    }
}

proof fn lemma_after_last_bounds(s: Seq<char>, c: char)
    ensures
        0 <= after_last(s, c) <= s.len(),
        after_last(s, c) > 0 ==> s[after_last(s, c) - 1] == c,
    decreases s.len(),
{
    if s.len() > 0 && s.last() != c {
        lemma_after_last_bounds(s.drop_last(), c);
    }
}

/// The directory part of a path: everything before its file name.
pub open spec fn parent(p: Seq<char>) -> Seq<char> {
    let t = trim_end_seps(p);
    t.subrange(0, after_last(t, '/'))
}

pub open spec fn free_of(s: Seq<char>, c: char) -> bool {
    forall|i: int| 0 <= i < s.len() ==> s[i] != c
}

proof fn lemma_after_last_tail(s: Seq<char>, c: char)
    ensures
        free_of(s.subrange(after_last(s, c), s.len() as int), c),
    decreases s.len(),
{
    lemma_after_last_bounds(s, c);
    if s.len() > 0 && s.last() != c {
        let d = s.drop_last();
        lemma_after_last_tail(d, c);
        lemma_after_last_bounds(d, c);
        let a = after_last(s, c);
        assert forall|i: int| 0 <= i < s.len() - a implies #[trigger] s.subrange(a, s.len() as int)[i] != c by {
            if a + i < s.len() - 1 {
                assert(s.subrange(a, s.len() as int)[i] == d.subrange(a, d.len() as int)[i]);
            }
        }
    }
}

proof fn lemma_after_last_concat(a: Seq<char>, b: Seq<char>, c: char)
    requires
        free_of(b, c),
    ensures
        after_last(a + b, c) == after_last(a, c),
    decreases b.len(),
{
    if b.len() == 0 {
        assert(a + b =~= a);
    } else {
        assert((a + b).last() == b.last());
        assert((a + b).drop_last() =~= a + b.drop_last());
        lemma_after_last_concat(a, b.drop_last(), c);
    }
}

proof fn lemma_after_last_ends_with(a: Seq<char>, c: char)
    requires
        a.len() > 0,
        a.last() == c,
    ensures
        after_last(a, c) == a.len(),
{
}

/// Replacing the extension with one free of separators and dots keeps the
/// directory and the stem, and gives the new extension.
pub proof fn lemma_with_extension_sibling(p: Seq<char>, e: Seq<char>)
    requires
        file_stem(p) is Some,
        e.len() > 0,
        free_of(e, '/'),
        free_of(e, '.'),
    ensures
        parent(with_extension(p, e)) == parent(p),
        file_stem(with_extension(p, e)) == file_stem(p),
        extension(with_extension(p, e)) == Some(e),
{
    let t = trim_end_seps(p);
    let d = after_last(t, '/');
    let dir = t.subrange(0, d);
    let n = t.subrange(d, t.len() as int);
    let s = file_stem(p)->0;
    lemma_after_last_bounds(t, '/');
    lemma_after_last_tail(t, '/');
    lemma_after_last_bounds(n, '.');
    // the stem is a non-empty prefix of the file name, so it holds no separator
    assert(s.len() > 0 && s.len() <= n.len() && s == n.subrange(0, s.len() as int));
    assert(free_of(s, '/')) by {
        assert forall|i: int| 0 <= i < s.len() implies s[i] != '/' by {
            assert(s[i] == n[i]);
        }
    }
    let tail = s + seq!['.'] + e;
    let q = dir + tail;
    assert(q == with_extension(p, e));
    // q does not end with a separator
    assert(q.last() == e.last());
    assert(trim_end_seps(q) == q);
    // its file name begins right after the directory
    assert(free_of(tail, '/')) by {
        assert forall|i: int| 0 <= i < tail.len() implies tail[i] != '/' by {
            if i < s.len() {
                assert(tail[i] == s[i]);
            } else if i > s.len() {
                assert(tail[i] == e[i - s.len() - 1]);
            }
        }
    }
    lemma_after_last_concat(dir, tail, '/');
    if d > 0 {
        lemma_after_last_ends_with(dir, '/');
    }
    assert(after_last(q, '/') == d);
    assert(q.subrange(0, d) =~= dir);
    assert(q.subrange(d, q.len() as int) =~= tail);
    assert(tail.len() >= 3);
    assert(tail != seq!['.'] && tail != seq!['.', '.']) by {
        if tail == seq!['.'] || tail == seq!['.', '.'] {
            assert(tail.len() <= 2);
        }
    }
    assert(file_name(q) == Some(tail));
    // the extension's dot is the one put between the stem and `e`
    let head = s + seq!['.'];
    assert(tail =~= head + e);
    lemma_after_last_concat(head, e, '.');
    lemma_after_last_ends_with(head, '.');
    assert(after_last(tail, '.') == s.len() + 1);
    assert(tail.subrange(0, s.len() as int) =~= s);
    assert(tail.subrange(s.len() + 1int, tail.len() as int) =~= e);
}

/// Number of characters of `p` that remain once trailing separators are removed.
fn trimmed_len(p: &str) -> (n: usize)
    ensures
        n <= p@.len(),
        trim_end_seps(p@) == p@.subrange(0, n as int),
{
    let mut n = p.unicode_len();
    assert(p@.subrange(0, n as int) =~= p@);
    while n > 0 && p.get_char(n - 1) == '/'
        invariant
            n <= p@.len(),
            trim_end_seps(p@) == trim_end_seps(p@.subrange(0, n as int)),
        decreases n,
    {
        assert(p@.subrange(0, n as int).drop_last() =~= p@.subrange(0, n - 1));
        n = n - 1;
    }
    n
}

/// Position just past the last `c` in `p[lo..hi]`, counted from the start of `p`;
/// `lo` when that range holds no `c`.
fn after_last_in(p: &str, lo: usize, hi: usize, c: char) -> (r: usize)
    requires
        lo <= hi <= p@.len(),
    ensures
        lo <= r <= hi,
        r - lo == after_last(p@.subrange(lo as int, hi as int), c),
{
    let mut k = hi;
    while k > lo && p.get_char(k - 1) != c
        invariant
            lo <= k <= hi <= p@.len(),
            after_last(p@.subrange(lo as int, hi as int), c) == after_last(
                p@.subrange(lo as int, k as int),
                c,
            ),
        decreases k,
    {
        assert(p@.subrange(lo as int, k as int).drop_last() =~= p@.subrange(
            lo as int,
            k - 1,
        ));
        k = k - 1;
    }
    k
}


/// Locates the final component of `p`: where it begins, where its stem ends and
/// where it ends.  The stem ends at the extension's dot, or at the end.
fn split_name(p: &str) -> (r: Option<(usize, usize, usize)>)
    ensures
        r is None <==> file_name(p@) is None,
        r matches Some((b, s, e)) ==> {
            &&& b <= s <= e <= p@.len()
            &&& file_name(p@) == Some(p@.subrange(b as int, e as int))
            &&& file_stem(p@) == Some(p@.subrange(b as int, s as int))
            &&& s == e ==> extension(p@) is None
            &&& s < e ==> p@[s as int] == '.' && extension(p@) == Some(
                p@.subrange(s + 1, e as int),
            )
            &&& trim_end_seps(p@).subrange(0, after_last(trim_end_seps(p@), '/')) == p@.subrange(
                0,
                b as int,
            )
        },
{
    let end = trimmed_len(p);
    let begin = after_last_in(p, 0, end, '/');
    let ghost t = trim_end_seps(p@);
    let ghost n = t.subrange(after_last(t, '/'), t.len() as int);
    assert(n =~= p@.subrange(begin as int, end as int));
    assert(t.subrange(0, after_last(t, '/')) =~= p@.subrange(0, begin as int));
    let len = end - begin;
    if len == 0 {
        return None;
    }
    if len == 1 && p.get_char(begin) == '.' {
        assert(n =~= seq!['.']);
        return None;
    }
    if len == 2 && p.get_char(begin) == '.' && p.get_char(begin + 1) == '.' {
        assert(n =~= seq!['.', '.']);
        return None;
    }
    assert(n != seq!['.']) by {
        if n == seq!['.'] {
            assert(n[0] == '.');
        }
    }
    assert(n != seq!['.', '.']) by {
        if n == seq!['.', '.'] {
            assert(n[0] == '.' && n[1] == '.');
        }
    }
    let d = after_last_in(p, begin, end, '.');
    proof {
        lemma_after_last_bounds(n, '.');
    }
    if d - begin > 1 {
        assert(n.subrange(0, after_last(n, '.') - 1) =~= p@.subrange(begin as int, d - 1));
        assert(n.subrange(after_last(n, '.'), n.len() as int) =~= p@.subrange(
            d as int,
            end as int,
        ));
        Some((begin, d - 1, end))
    } else {
        Some((begin, end, end))
    }
}

/// The final component of `p`, if it has one.
pub fn file_name_of(p: &str) -> (r: Option<&str>)
    ensures
        r is None <==> file_name(p@) is None,
        r matches Some(n) ==> file_name(p@) == Some(n@),
{
    match split_name(p) {
        None => None,
        Some((b, _s, e)) => Some(p.substring_char(b, e)),
    }
}

/// The final component of `p` without its extension, if `p` has a file name.
pub fn file_stem_of(p: &str) -> (r: Option<&str>)
    ensures
        r is None <==> file_stem(p@) is None,
        r matches Some(n) ==> file_stem(p@) == Some(n@),
{
    match split_name(p) {
        None => None,
        Some((b, s, _e)) => Some(p.substring_char(b, s)),
    }
}

/// The extension of `p`'s file name, without its dot.
pub fn extension_of(p: &str) -> (r: Option<&str>)
    ensures
        r is None <==> extension(p@) is None,
        r matches Some(x) ==> extension(p@) == Some(x@),
{
    match split_name(p) {
        None => None,
        Some((_b, s, e)) => if s < e {
            Some(p.substring_char(s + 1, e))
        } else {
            None
        },
    }
}

/// `p` with the extension of its file name replaced by `e`.
pub fn with_extension_of(p: &str, e: &str) -> (r: String)
    ensures
        r@ == with_extension(p@, e@),
{
    match split_name(p) {
        None => p.to_owned(),
        Some((b, s, _e)) => {
            let mut out = String::from_str(p.substring_char(0, s));
            assert(out@ =~= p@.subrange(0, b as int) + p@.subrange(b as int, s as int));
            if e.unicode_len() > 0 {
                let dot = ".";
                proof {
                    reveal_strlit(".");
                }
                out.append(dot);
                out.append(e);
            }
            out
        },
    }
}

} // verus!
