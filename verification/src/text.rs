//! Character-level text operations shared by the agent modules.
//!
//! Strings are reasoned about through their view, a `Seq<char>`. Every
//! operation here is stated over a spec function of that view.

use vstd::prelude::*;

verus! {

pub assume_specification[ std::string::String::push ](s: &mut String, ch: char)
    ensures
        final(s)@ == old(s)@.push(ch),
;

pub assume_specification[ std::string::String::push_str ](s: &mut String, other: &str)
    ensures
        final(s)@ == old(s)@ + other@,
;

// ---------------------------------------------------------------------------
// Whitespace and trimming
// ---------------------------------------------------------------------------

/// The Unicode `White_Space` property, which `char::is_whitespace` tests.
pub open spec fn is_ws(c: char) -> bool {
    let u = c as u32;
    (0x9 <= u && u <= 0xd) || u == 0x20 || u == 0x85 || u == 0xa0 || u == 0x1680
        || (0x2000 <= u && u <= 0x200a) || u == 0x2028 || u == 0x2029 || u == 0x202f
        || u == 0x205f || u == 0x3000
}

/// `s` without its leading whitespace.
pub open spec fn trim_start_spec(s: Seq<char>) -> Seq<char>
    decreases s.len(),
{
    if s.len() > 0 && is_ws(s[0]) {
        trim_start_spec(s.drop_first())
    } else {
        s
    }
}

/// `s` without its trailing whitespace.
pub open spec fn trim_end_spec(s: Seq<char>) -> Seq<char>
    decreases s.len(),
{
    if s.len() > 0 && is_ws(s.last()) {
        trim_end_spec(s.drop_last())
    } else {
        s
    }
}

/// `s` without leading and trailing whitespace, as `str::trim` gives it.
pub open spec fn trim_spec(s: Seq<char>) -> Seq<char> {
    trim_end_spec(trim_start_spec(s))
}

/// True when `s` holds nothing but whitespace.
pub open spec fn is_blank(s: Seq<char>) -> bool {
    trim_spec(s).len() == 0
}

proof fn lemma_trim_start_head(s: Seq<char>)
    ensures
        trim_start_spec(s).len() == 0 || !is_ws(trim_start_spec(s)[0]),
    decreases s.len(),
{
    if s.len() > 0 && is_ws(s[0]) {
        lemma_trim_start_head(s.drop_first());
    }
}

proof fn lemma_trim_end_prefix(s: Seq<char>)
    ensures
        trim_end_spec(s).len() <= s.len(),
        trim_end_spec(s) == s.take(trim_end_spec(s).len() as int),
        trim_end_spec(s).len() == 0 || !is_ws(trim_end_spec(s).last()),
    decreases s.len(),
{
    if s.len() > 0 && is_ws(s.last()) {
        lemma_trim_end_prefix(s.drop_last());
        let k = trim_end_spec(s.drop_last()).len() as int;
        assert(s.drop_last().take(k) =~= s.take(k));
    } else {
        assert(s.take(s.len() as int) =~= s);
    }
}

/// Trimming twice is trimming once.
pub proof fn lemma_trim_idempotent(s: Seq<char>)
    ensures
        trim_spec(trim_spec(s)) == trim_spec(s),
{
    let t = trim_start_spec(s);
    let u = trim_end_spec(t);
    lemma_trim_start_head(s);
    lemma_trim_end_prefix(t);
    if u.len() > 0 {
        assert(u[0] == t[0]);
    }
    assert(trim_start_spec(u) == u);
    assert(trim_end_spec(u) == u);
}

pub fn is_whitespace_char(c: char) -> (b: bool)
    ensures
        b == is_ws(c),
{
    let u = c as u32;
    (0x9 <= u && u <= 0xd) || u == 0x20 || u == 0x85 || u == 0xa0 || u == 0x1680 || (0x2000
        <= u && u <= 0x200a) || u == 0x2028 || u == 0x2029 || u == 0x202f || u == 0x205f || u
        == 0x3000
}

proof fn lemma_trim_start_skip(s: Seq<char>, a: int)
    requires
        0 <= a < s.len(),
        is_ws(s[a]),
    ensures
        trim_start_spec(s.skip(a)) == trim_start_spec(s.skip(a + 1)),
{
    assert(s.skip(a).drop_first() =~= s.skip(a + 1));
}

proof fn lemma_trim_end_take(s: Seq<char>, b: int)
    requires
        0 < b <= s.len(),
        is_ws(s[b - 1]),
    ensures
        trim_end_spec(s.take(b)) == trim_end_spec(s.take(b - 1)),
{
    assert(s.take(b).drop_last() =~= s.take(b - 1));
}

/// Bounds `(a, b)` such that `v[a..b]` is `v` trimmed.
pub fn trim_bounds(v: &[char]) -> (r: (usize, usize))
    ensures
        r.0 <= r.1 <= v@.len(),
        v@.subrange(r.0 as int, r.1 as int) == trim_spec(v@),
{
    let n = v.len();
    let mut a: usize = 0;
    assert(v@.skip(0) =~= v@);
    while a < n && is_whitespace_char(v[a])
        invariant
            a <= n == v@.len(),
            trim_start_spec(v@) == trim_start_spec(v@.skip(a as int)),
        decreases n - a,
    {
        proof {
            lemma_trim_start_skip(v@, a as int);
        }
        a += 1;
    }
    let ghost t = v@.skip(a as int);
    assert(trim_start_spec(v@) == t) by {
        if a < n {
            assert(t[0] == v@[a as int]);
        } else {
            assert(t.len() == 0);
        }
    }
    let mut b: usize = n;
    assert(t.take(t.len() as int) =~= t);
    while b > a && is_whitespace_char(v[b - 1])
        invariant
            a <= b <= n == v@.len(),
            t == v@.skip(a as int),
            trim_end_spec(t) == trim_end_spec(t.take(b - a)),
        decreases b,
    {
        proof {
            assert(t[b - a - 1] == v@[b - 1]);
            lemma_trim_end_take(t, (b - a) as int);
        }
        b -= 1;
    }
    let ghost u = t.take(b - a);
    assert(trim_end_spec(u) == u) by {
        if b > a {
            assert(u.last() == v@[b - 1]);
        }
    }
    assert(u =~= v@.subrange(a as int, b as int));
    (a, b)
}


// ---------------------------------------------------------------------------
// Conversions between `str`, `String` and character vectors
// ---------------------------------------------------------------------------

/// The characters of `s`, in order.
pub fn chars_of(s: &str) -> (v: Vec<char>)
    ensures
        v@ == s@,
{
    let mut v: Vec<char> = Vec::new();
    for c in it: s.chars()
        invariant
            v@ == it.seq().take(it.index() as int),
            it.seq() == s@,
    {
        v.push(c);
    }
    v
}

/// A string holding the characters `v[a..b]`.
pub fn string_of_range(v: &[char], a: usize, b: usize) -> (s: String)
    requires
        a <= b <= v@.len(),
    ensures
        s@ == v@.subrange(a as int, b as int),
{
    let mut s = String::new();
    let mut i: usize = a;
    while i < b
        invariant
            a <= i <= b <= v@.len(),
            s@ == v@.subrange(a as int, i as int),
        decreases b - i,
    {
        s.push(v[i]);
        i += 1;
        assert(v@.subrange(a as int, i as int) == v@.subrange(a as int, i - 1).push(v@[i - 1]));
    }
    s
}

/// A string holding exactly the characters of `v`.
pub fn string_of(v: &[char]) -> (s: String)
    ensures
        s@ == v@,
{
    let s = string_of_range(v, 0, v.len());
    assert(v@.subrange(0, v@.len() as int) =~= v@);
    s
}

/// `s` without leading and trailing whitespace.
pub fn trim(s: &str) -> (r: String)
    ensures
        r@ == trim_spec(s@),
{
    let v = chars_of(s);
    let (a, b) = trim_bounds(v.as_slice());
    string_of_range(v.as_slice(), a, b)
}

/// True when `s` holds nothing but whitespace (or nothing at all).
pub fn blank(s: &str) -> (b: bool)
    ensures
        b == is_blank(s@),
{
    let v = chars_of(s);
    let (a, b) = trim_bounds(v.as_slice());
    a == b
}

// ---------------------------------------------------------------------------
// Searching
// ---------------------------------------------------------------------------

/// True when `p` occurs in `s` starting at index `i`.
pub open spec fn matches_at(s: Seq<char>, p: Seq<char>, i: int) -> bool {
    0 <= i && i + p.len() <= s.len() && s.subrange(i, i + p.len()) == p
}

/// Index of the first occurrence of `p` in `s`, or -1.
pub open spec fn find_spec(s: Seq<char>, p: Seq<char>) -> int
    decreases s.len(),
{
    if s.len() < p.len() {
        -1
    } else if s.take(p.len() as int) == p {
        0
    } else if s.len() == 0 {
        -1
    } else {
        let r = find_spec(s.drop_first(), p);
        if r < 0 {
            -1
        } else {
            r + 1
        }
    }
}

/// True when `p` occurs in `s`.
pub open spec fn contains_spec(s: Seq<char>, p: Seq<char>) -> bool {
    find_spec(s, p) >= 0
}

/// True when `s` begins with `p`.
pub open spec fn starts_with_spec(s: Seq<char>, p: Seq<char>) -> bool {
    p.len() <= s.len() && s.take(p.len() as int) == p
}

proof fn lemma_matches_shift(s: Seq<char>, p: Seq<char>, j: int)
    requires
        s.len() > 0,
        j >= 0,
    ensures
        matches_at(s.drop_first(), p, j) == matches_at(s, p, j + 1),
{
    if 0 <= j && j + p.len() <= s.drop_first().len() {
        assert(s.drop_first().subrange(j, j + p.len()) =~= s.subrange(j + 1, j + 1 + p.len()));
    }
}

/// `find_spec` gives the first match, and -1 exactly when there is none.
pub proof fn lemma_find_spec(s: Seq<char>, p: Seq<char>)
    ensures
        -1 <= find_spec(s, p) <= s.len(),
        find_spec(s, p) >= 0 ==> matches_at(s, p, find_spec(s, p)),
        forall|j: int| 0 <= j < find_spec(s, p) ==> !matches_at(s, p, j),
        find_spec(s, p) < 0 ==> forall|j: int| !matches_at(s, p, j),
    decreases s.len(),
{
    if s.len() < p.len() {
    } else if s.take(p.len() as int) == p {
        assert(s.subrange(0, p.len() as int) == s.take(p.len() as int));
    } else {
        assert(p.len() > 0) by {
            if p.len() == 0 {
                assert(s.take(0) =~= p);
            }
        }
        lemma_find_spec(s.drop_first(), p);
        assert forall|j: int| #![trigger matches_at(s.drop_first(), p, j)] j >= 0 implies
            matches_at(s.drop_first(), p, j) == matches_at(s, p, j + 1) by {
            lemma_matches_shift(s, p, j);
        }
        assert(!matches_at(s, p, 0)) by {
            assert(s.subrange(0, p.len() as int) == s.take(p.len() as int));
        }
        let r = find_spec(s.drop_first(), p);
        if r < 0 {
            assert forall|j: int| !matches_at(s, p, j) by {
                if j >= 1 {
                    assert(!matches_at(s.drop_first(), p, j - 1));
                }
            }
        } else {
            assert forall|j: int| 0 <= j < r + 1 implies !matches_at(s, p, j) by {
                if j >= 1 {
                    assert(!matches_at(s.drop_first(), p, j - 1));
                }
            }
            assert(matches_at(s.drop_first(), p, r));
        }
    }
}

/// The first match is the only index with a match and none before it.
pub proof fn lemma_find_unique(s: Seq<char>, p: Seq<char>, k: int)
    requires
        matches_at(s, p, k),
        forall|j: int| 0 <= j < k ==> !matches_at(s, p, j),
    ensures
        find_spec(s, p) == k,
{
    lemma_find_spec(s, p);
}

/// Index of the first occurrence of `p` in `v[start..]`, relative to `start`.
pub fn find_from(v: &[char], p: &[char], start: usize) -> (r: Option<usize>)
    requires
        start <= v@.len(),
    ensures
        match r {
            Some(k) => start <= k && find_spec(v@.skip(start as int), p@) == k - start,
            None => find_spec(v@.skip(start as int), p@) == -1,
        },
{
    let ghost t = v@.skip(start as int);
    let n = v.len();
    let m = p.len();
    if m > n - start {
        proof {
            lemma_find_spec(t, p@);
        }
        return None;
    }
    let mut i: usize = start;
    while i <= n - m
        invariant
            start <= i,
            m <= n - start,
            n == v@.len(),
            m == p@.len(),
            t == v@.skip(start as int),
            forall|j: int| 0 <= j < i - start ==> !matches_at(t, p@, j),
        decreases n - i,
    {
        let mut k: usize = 0;
        while k < m && v[i + k] == p[k]
            invariant
                k <= m,
                i + m <= n,
                n == v@.len(),
                m == p@.len(),
                forall|q: int| 0 <= q < k ==> v@[i + q] == p@[q],
            decreases m - k,
        {
            k += 1;
        }
        if k == m {
            proof {
                assert(t.subrange(i - start, i - start + m) =~= p@);
                lemma_find_unique(t, p@, i - start);
            }
            return Some(i);
        }
        proof {
            assert(!matches_at(t, p@, i - start)) by {
                if matches_at(t, p@, i - start) {
                    assert(t.subrange(i - start, i - start + m)[k as int] == p@[k as int]);
                }
            }
        }
        i += 1;
    }
    proof {
        lemma_find_spec(t, p@);
        if find_spec(t, p@) >= 0 {
            assert(!matches_at(t, p@, find_spec(t, p@)));
        }
    }
    None
}

/// True when `p` occurs in `s`.
pub fn contains(s: &str, p: &str) -> (b: bool)
    ensures
        b == contains_spec(s@, p@),
{
    let v = chars_of(s);
    let q = chars_of(p);
    assert(v@.skip(0) =~= v@);
    find_from(v.as_slice(), q.as_slice(), 0).is_some()
}

/// True when `s` begins with `p`.
pub fn starts_with_chars(v: &[char], p: &[char]) -> (b: bool)
    ensures
        b == starts_with_spec(v@, p@),
{
    if p.len() > v.len() {
        return false;
    }
    let mut k: usize = 0;
    while k < p.len()
        invariant
            k <= p@.len() <= v@.len(),
            forall|q: int| 0 <= q < k ==> v@[q] == p@[q],
        decreases p@.len() - k,
    {
        if v[k] != p[k] {
            assert(v@.take(p@.len() as int)[k as int] != p@[k as int]);
            return false;
        }
        k += 1;
    }
    assert(v@.take(p@.len() as int) =~= p@);
    true
}

/// True when `v[start..]` begins with `p`.
pub fn starts_with_at(v: &[char], p: &[char], start: usize) -> (b: bool)
    requires
        start <= v@.len(),
    ensures
        b == starts_with_spec(v@.skip(start as int), p@),
{
    let n = v.len();
    if p.len() > n - start {
        return false;
    }
    let mut k: usize = 0;
    while k < p.len()
        invariant
            start <= n == v@.len(),
            k <= p@.len() <= n - start,
            forall|q: int| 0 <= q < k ==> v@[start + q] == p@[q],
        decreases p@.len() - k,
    {
        if v[start + k] != p[k] {
            assert(v@.skip(start as int).take(p@.len() as int)[k as int] != p@[k as int]);
            return false;
        }
        k += 1;
    }
    assert(v@.skip(start as int).take(p@.len() as int) =~= p@);
    true
}

/// True when `s` begins with `p`.
pub fn starts_with(s: &str, p: &str) -> (b: bool)
    ensures
        b == starts_with_spec(s@, p@),
{
    let v = chars_of(s);
    let q = chars_of(p);
    starts_with_chars(v.as_slice(), q.as_slice())
}


// ---------------------------------------------------------------------------
// Counting and replacing occurrences
// ---------------------------------------------------------------------------

/// Number of non-overlapping occurrences of `p` in `s`, scanning left to right
/// (what `str::matches(p).count()` gives for a non-empty `p`).
pub open spec fn count_spec(s: Seq<char>, p: Seq<char>) -> nat
    decreases s.len(),
{
    let k = find_spec(s, p);
    if p.len() == 0 || k < 0 {
        0
    } else {
        proof {
            lemma_find_spec(s, p);
        }
        1 + count_spec(s.skip(k + p.len()), p)
    }
}

/// `s` with every non-overlapping occurrence of `p` replaced by `r`, scanning
/// left to right (what `str::replace` gives for a non-empty `p`).
pub open spec fn replace_all_spec(s: Seq<char>, p: Seq<char>, r: Seq<char>) -> Seq<char>
    decreases s.len(),
{
    let k = find_spec(s, p);
    if p.len() == 0 || k < 0 {
        s
    } else {
        proof {
            lemma_find_spec(s, p);
        }
        s.take(k) + r + replace_all_spec(s.skip(k + p.len()), p, r)
    }
}

/// `s` with its first occurrence of `p` replaced by `r` (`str::replacen(p, r, 1)`).
pub open spec fn replace_first_spec(s: Seq<char>, p: Seq<char>, r: Seq<char>) -> Seq<char> {
    let k = find_spec(s, p);
    if k < 0 {
        s
    } else {
        s.take(k) + r + s.skip(k + p.len())
    }
}

/// Appends `v[a..b]` to `out`.
pub fn push_range(out: &mut String, v: &[char], a: usize, b: usize)
    requires
        a <= b <= v@.len(),
    ensures
        final(out)@ == old(out)@ + v@.subrange(a as int, b as int),
{
    let mut i: usize = a;
    while i < b
        invariant
            a <= i <= b <= v@.len(),
            out@ == old(out)@ + v@.subrange(a as int, i as int),
        decreases b - i,
    {
        out.push(v[i]);
        i += 1;
        assert(v@.subrange(a as int, i as int) == v@.subrange(a as int, i - 1).push(v@[i - 1]));
    }
}

proof fn lemma_skip_skip(v: Seq<char>, a: int, b: int)
    requires
        0 <= a <= v.len(),
        0 <= b <= v.len() - a,
    ensures
        v.skip(a).skip(b) == v.skip(a + b),
{
    assert(v.skip(a).skip(b) =~= v.skip(a + b));
}

/// Number of non-overlapping occurrences of `p` in `v`.
pub fn count_matches(v: &[char], p: &[char]) -> (c: usize)
    requires
        p@.len() > 0,
    ensures
        c == count_spec(v@, p@),
{
    let n = v.len();
    let m = p.len();
    let mut pos: usize = 0;
    let mut cnt: usize = 0;
    assert(v@.skip(0) =~= v@);
    loop
        invariant
            pos <= n == v@.len(),
            m == p@.len() > 0,
            cnt <= pos,
            count_spec(v@, p@) == cnt + count_spec(v@.skip(pos as int), p@),
        decreases n - pos,
    {
        match find_from(v, p, pos) {
            None => {
                return cnt;
            },
            Some(k) => {
                proof {
                    lemma_find_spec(v@.skip(pos as int), p@);
                    lemma_skip_skip(v@, pos as int, k - pos + m);
                }
                cnt += 1;
                pos = k + m;
            },
        }
    }
}

/// `v` with every non-overlapping occurrence of `p` replaced by `r`.
pub fn replace_all(v: &[char], p: &[char], r: &str) -> (out: String)
    requires
        p@.len() > 0,
    ensures
        out@ == replace_all_spec(v@, p@, r@),
{
    let n = v.len();
    let m = p.len();
    let mut pos: usize = 0;
    let mut out = String::new();
    assert(v@.skip(0) =~= v@);
    loop
        invariant
            pos <= n == v@.len(),
            m == p@.len() > 0,
            replace_all_spec(v@, p@, r@) == out@ + replace_all_spec(v@.skip(pos as int), p@, r@),
        decreases n - pos,
    {
        match find_from(v, p, pos) {
            None => {
                push_range(&mut out, v, pos, n);
                assert(v@.subrange(pos as int, n as int) =~= v@.skip(pos as int));
                return out;
            },
            Some(k) => {
                proof {
                    lemma_find_spec(v@.skip(pos as int), p@);
                    lemma_skip_skip(v@, pos as int, k - pos + m);
                    assert(v@.skip(pos as int).take(k - pos) =~= v@.subrange(pos as int, k as int));
                }
                push_range(&mut out, v, pos, k);
                out.push_str(r);
                pos = k + m;
            },
        }
    }
}

/// `v` with its first occurrence of `p` replaced by `r`.
pub fn replace_first(v: &[char], p: &[char], r: &str) -> (out: String)
    ensures
        out@ == replace_first_spec(v@, p@, r@),
{
    assert(v@.skip(0) =~= v@);
    match find_from(v, p, 0) {
        None => string_of(v),
        Some(k) => {
            proof {
                lemma_find_spec(v@, p@);
                assert(matches_at(v@, p@, k as int));
                assert(k + p@.len() <= v@.len());
            }
            let n = v.len();
            let end = k + p.len();
            let mut out = string_of_range(v, 0, k);
            out.push_str(r);
            push_range(&mut out, v, end, n);
            assert(v@.subrange((k + p@.len()) as int, v@.len() as int) =~= v@.skip(k + p@.len()));
            assert(v@.subrange(0, k as int) =~= v@.take(k as int));
            out
        },
    }
}


// ---------------------------------------------------------------------------
// Lines
// ---------------------------------------------------------------------------

/// Index of the first `c` in `s`, or -1.
pub open spec fn index_of_spec(s: Seq<char>, c: char) -> int
    decreases s.len(),
{
    if s.len() == 0 {
        -1
    } else if s[0] == c {
        0
    } else {
        let r = index_of_spec(s.drop_first(), c);
        if r < 0 {
            -1
        } else {
            r + 1
        }
    }
}

pub proof fn lemma_index_of(s: Seq<char>, c: char)
    ensures
        -1 <= index_of_spec(s, c) < s.len(),
        index_of_spec(s, c) >= 0 ==> s[index_of_spec(s, c)] == c,
        forall|j: int| 0 <= j < index_of_spec(s, c) ==> s[j] != c,
        index_of_spec(s, c) < 0 ==> forall|j: int| 0 <= j < s.len() ==> s[j] != c,
    decreases s.len(),
{
    if s.len() > 0 && s[0] != c {
        lemma_index_of(s.drop_first(), c);
        let r = index_of_spec(s.drop_first(), c);
        assert forall|j: int| 1 <= j < s.len() implies s[j] == s.drop_first()[j - 1] by {}
        if r < 0 {
            assert forall|j: int| 0 <= j < s.len() implies s[j] != c by {
                if j >= 1 {
                    assert(s.drop_first()[j - 1] != c);
                }
            }
        } else {
            assert forall|j: int| 0 <= j < r + 1 implies s[j] != c by {
                if j >= 1 {
                    assert(s.drop_first()[j - 1] != c);
                }
            }
        }
    }
}

proof fn lemma_index_of_unique(s: Seq<char>, c: char, k: int)
    requires
        0 <= k < s.len(),
        s[k] == c,
        forall|j: int| 0 <= j < k ==> s[j] != c,
    ensures
        index_of_spec(s, c) == k,
{
    lemma_index_of(s, c);
}

/// `s` without one trailing carriage return.
pub open spec fn strip_cr(s: Seq<char>) -> Seq<char> {
    if s.len() > 0 && s.last() == '\r' {
        s.drop_last()
    } else {
        s
    }
}

/// The lines of `s` as `str::lines` yields them: split at `\n`, one `\r`
/// before each `\n` removed, and no empty line after a final `\n`.
pub open spec fn lines_spec(s: Seq<char>) -> Seq<Seq<char>>
    decreases s.len(),
{
    let k = index_of_spec(s, '\n');
    if s.len() == 0 {
        seq![]
    } else if k < 0 {
        seq![s]
    } else {
        proof {
            lemma_index_of(s, '\n');
        }
        seq![strip_cr(s.take(k))] + lines_spec(s.skip(k + 1))
    }
}

/// The first line of `s`, or the empty sequence when `s` has no line.
pub open spec fn first_line_spec(s: Seq<char>) -> Seq<char> {
    if lines_spec(s).len() > 0 {
        lines_spec(s)[0]
    } else {
        Seq::empty()
    }
}

/// Views of a vector of strings.
pub open spec fn views(v: Seq<String>) -> Seq<Seq<char>> {
    v.map_values(|x: String| x@)
}

/// Copies `v[a..b]` with one trailing carriage return removed.
fn line_of_range(v: &[char], a: usize, b: usize) -> (s: String)
    requires
        a <= b <= v@.len(),
    ensures
        s@ == strip_cr(v@.subrange(a as int, b as int)),
{
    if b > a && v[b - 1] == '\r' {
        let s = string_of_range(v, a, b - 1);
        assert(v@.subrange(a as int, b as int).drop_last() =~= v@.subrange(a as int, b - 1));
        s
    } else {
        string_of_range(v, a, b)
    }
}

/// The lines of `v`.
pub fn split_lines(v: &[char]) -> (out: Vec<String>)
    ensures
        views(out@) == lines_spec(v@),
{
    let n = v.len();
    let mut out: Vec<String> = Vec::new();
    let mut start: usize = 0;
    let mut i: usize = 0;
    assert(v@.skip(0) =~= v@);
    while i < n
        invariant
            start <= i <= n == v@.len(),
            lines_spec(v@) == views(out@) + lines_spec(v@.skip(start as int)),
            forall|j: int| start <= j < i ==> v@[j] != '\n',
        decreases n - i,
    {
        if v[i] == '\n' {
            let ghost t = v@.skip(start as int);
            proof {
                lemma_index_of_unique(t, '\n', i - start);
                assert(t.take(i - start) =~= v@.subrange(start as int, i as int));
                lemma_skip_skip(v@, start as int, i - start + 1);
            }
            let line = line_of_range(v, start, i);
            let ghost before = out@;
            out.push(line);
            proof {
                assert(views(out@) =~= views(before) + seq![line@]);
            }
            start = i + 1;
        }
        i += 1;
    }
    proof {
        let t = v@.skip(start as int);
        if t.len() > 0 {
            lemma_index_of(t, '\n');
            assert(index_of_spec(t, '\n') < 0) by {
                if index_of_spec(t, '\n') >= 0 {
                    assert(t[index_of_spec(t, '\n')] == v@[start + index_of_spec(t, '\n')]);
                }
            }
        }
    }
    if start < n {
        let line = string_of_range(v, start, n);
        let ghost before = out@;
        out.push(line);
        proof {
            assert(v@.subrange(start as int, n as int) =~= v@.skip(start as int));
            assert(views(out@) =~= views(before) + seq![line@]);
        }
    } else {
        assert(views(out@) =~= views(out@) + lines_spec(v@.skip(start as int)));
    }
    out
}

/// The lines of `s`.
pub fn lines(s: &str) -> (out: Vec<String>)
    ensures
        views(out@) == lines_spec(s@),
{
    let v = chars_of(s);
    split_lines(v.as_slice())
}

// ---------------------------------------------------------------------------
// Decimal numbers
// ---------------------------------------------------------------------------

/// The digit character for `d`.
pub open spec fn digit_char(d: nat) -> char {
    if d == 0 { '0' } else if d == 1 { '1' } else if d == 2 { '2' } else if d == 3 { '3' }
    else if d == 4 { '4' } else if d == 5 { '5' } else if d == 6 { '6' } else if d == 7 { '7' }
    else if d == 8 { '8' } else { '9' }
}

/// Decimal digits of `n`, as `Display` writes an unsigned integer.
pub open spec fn decimal_spec(n: nat) -> Seq<char>
    decreases n,
{
    if n < 10 {
        seq![digit_char(n)]
    } else {
        decimal_spec(n / 10).push(digit_char(n % 10))
    }
}

fn digit(d: u64) -> (c: char)
    requires
        d < 10,
    ensures
        c == digit_char(d as nat),
{
    if d == 0 { '0' } else if d == 1 { '1' } else if d == 2 { '2' } else if d == 3 { '3' }
    else if d == 4 { '4' } else if d == 5 { '5' } else if d == 6 { '6' } else if d == 7 { '7' }
    else if d == 8 { '8' } else { '9' }
}

/// Appends the decimal digits of `n` to `out`.
pub fn push_decimal(out: &mut String, n: u64)
    ensures
        final(out)@ == old(out)@ + decimal_spec(n as nat),
    decreases n,
{
    if n < 10 {
        out.push(digit(n));
    } else {
        push_decimal(out, n / 10);
        out.push(digit(n % 10));
    }
}

/// The decimal digits of `n`.
pub fn decimal(n: u64) -> (s: String)
    ensures
        s@ == decimal_spec(n as nat),
{
    let mut s = String::new();
    push_decimal(&mut s, n);
    assert(s@ =~= decimal_spec(n as nat));
    s
}


/// True when `a` and `b` hold the same characters.
pub fn same_text(a: &str, b: &str) -> (r: bool)
    ensures
        r == (a@ == b@),
{
    let v = chars_of(a);
    let w = chars_of(b);
    if v.len() != w.len() {
        return false;
    }
    let mut i: usize = 0;
    while i < v.len()
        invariant
            i <= v@.len() == w@.len(),
            v@ == a@,
            w@ == b@,
            forall|j: int| 0 <= j < i ==> v@[j] == w@[j],
        decreases v@.len() - i,
    {
        if v[i] != w[i] {
            assert(v@[i as int] != w@[i as int]);
            return false;
        }
        i += 1;
    }
    assert(v@ =~= w@);
    true
}

/// A copy of `s`.
pub fn copy_str(s: &str) -> (r: String)
    ensures
        r@ == s@,
{
    let mut r = String::new();
    r.push_str(s);
    assert(r@ =~= s@);
    r
}


// ---------------------------------------------------------------------------
// Ordering of strings
// ---------------------------------------------------------------------------

/// `a` sorts strictly before `b`: the order of `String` (byte-wise UTF-8, which
/// is the order of the characters' code points, then shorter first).
pub open spec fn text_less(a: Seq<char>, b: Seq<char>) -> bool
    decreases a.len(),
{
    if a.len() == 0 {
        b.len() > 0
    } else if b.len() == 0 {
        false
    } else if a[0] != b[0] {
        (a[0] as u32) < (b[0] as u32)
    } else {
        text_less(a.drop_first(), b.drop_first())
    }
}

pub proof fn lemma_text_less_irreflexive(a: Seq<char>)
    ensures
        !text_less(a, a),
    decreases a.len(),
{
    if a.len() > 0 {
        lemma_text_less_irreflexive(a.drop_first());
    }
}

pub proof fn lemma_text_less_total(a: Seq<char>, b: Seq<char>)
    ensures
        text_less(a, b) || text_less(b, a) || a == b,
        !(text_less(a, b) && text_less(b, a)),
    decreases a.len(),
{
    if a.len() > 0 && b.len() > 0 {
        if a[0] == b[0] {
            lemma_text_less_total(a.drop_first(), b.drop_first());
            if a.drop_first() == b.drop_first() {
                assert(a =~= seq![a[0]] + a.drop_first());
                assert(b =~= seq![b[0]] + b.drop_first());
            }
        } else {
            vstd::utf8::char_u32_cast(a[0], a[0] as u32);
            vstd::utf8::char_u32_cast(b[0], b[0] as u32);
            assert((a[0] as u32) != (b[0] as u32));
        }
    } else if a.len() == 0 && b.len() == 0 {
        assert(a =~= b);
    }
}

pub proof fn lemma_text_less_transitive(a: Seq<char>, b: Seq<char>, c: Seq<char>)
    requires
        text_less(a, b),
        text_less(b, c),
    ensures
        text_less(a, c),
    decreases a.len(),
{
    if a.len() > 0 && b.len() > 0 && c.len() > 0 {
        if a[0] == b[0] && b[0] == c[0] {
            lemma_text_less_transitive(a.drop_first(), b.drop_first(), c.drop_first());
        }
    }
}

/// Whether `a` sorts strictly before `b`.
pub fn str_less(a: &str, b: &str) -> (r: bool)
    ensures
        r == text_less(a@, b@),
{
    let v = chars_of(a);
    let w = chars_of(b);
    let mut i: usize = 0;
    assert(a@.skip(0) =~= a@);
    assert(b@.skip(0) =~= b@);
    while i < v.len() && i < w.len() && v[i] == w[i]
        invariant
            i <= v@.len(),
            i <= w@.len(),
            v@ == a@,
            w@ == b@,
            forall|j: int| 0 <= j < i ==> v@[j] == w@[j],
            text_less(a@, b@) == text_less(a@.skip(i as int), b@.skip(i as int)),
        decreases v@.len() - i,
    {
        proof {
            assert(a@.skip(i as int).drop_first() =~= a@.skip(i + 1));
            assert(b@.skip(i as int).drop_first() =~= b@.skip(i + 1));
        }
        i += 1;
    }
    proof {
        let x = a@.skip(i as int);
        let y = b@.skip(i as int);
        if i < v@.len() && i < w@.len() {
            assert(x[0] == v@[i as int] && y[0] == w@[i as int]);
        }
    }
    if i < v.len() && i < w.len() {
        (v[i] as u32) < (w[i] as u32)
    } else {
        i == v.len() && i < w.len()
    }
}


// ---------------------------------------------------------------------------
// Joining
// ---------------------------------------------------------------------------

/// The items of `v` with `sep` between each two.
pub open spec fn join_spec(v: Seq<Seq<char>>, sep: Seq<char>) -> Seq<char>
    decreases v.len(),
{
    if v.len() == 0 {
        Seq::empty()
    } else if v.len() == 1 {
        v[0]
    } else {
        join_spec(v.drop_last(), sep) + sep + v.last()
    }
}

/// Joins `v[..n]` with `sep`.
pub fn join_prefix(v: &[String], n: usize, sep: &str) -> (r: String)
    requires
        n <= v@.len(),
    ensures
        r@ == join_spec(views(v@).take(n as int), sep@),
{
    let mut out = String::new();
    let mut i: usize = 0;
    while i < n
        invariant
            i <= n <= v@.len(),
            out@ == join_spec(views(v@).take(i as int), sep@),
        decreases n - i,
    {
        if i > 0 {
            out.push_str(sep);
        }
        out.push_str(v[i].as_str());
        proof {
            let t = views(v@).take(i + 1);
            assert(t.drop_last() =~= views(v@).take(i as int));
            if i == 0 {
                assert(out@ =~= t[0]);
            }
        }
        i += 1;
    }
    out
}

/// Joins `v` with `sep`.
pub fn join(v: &[String], sep: &str) -> (r: String)
    ensures
        r@ == join_spec(views(v@), sep@),
{
    let r = join_prefix(v, v.len(), sep);
    assert(views(v@).take(v@.len() as int) =~= views(v@));
    r
}


/// `v` is in non-decreasing order.
pub open spec fn texts_sorted(v: Seq<Seq<char>>) -> bool {
    forall|i: int, j: int| 0 <= i < j < v.len() ==> !text_less(#[trigger] v[j], #[trigger] v[i])
}

/// Sorts strings in `String` order.
pub fn sort_strings(v: Vec<String>) -> (r: Vec<String>)
    ensures
        texts_sorted(views(r@)),
        views(r@).to_multiset() == views(v@).to_multiset(),
{
    let mut r: Vec<String> = Vec::new();
    let mut i: usize = 0;
    assert(views(v@).take(0) =~= Seq::<Seq<char>>::empty());
    assert(views(r@) =~= Seq::<Seq<char>>::empty());
    while i < v.len()
        invariant
            i <= v@.len(),
            texts_sorted(views(r@)),
            views(r@).to_multiset() == views(v@).take(i as int).to_multiset(),
        decreases v@.len() - i,
    {
        let x = &v[i];
        let ghost rv = views(r@);
        let mut q: usize = 0;
        while q < r.len() && !str_less(x.as_str(), r[q].as_str())
            invariant
                q <= r@.len(),
                rv == views(r@),
                forall|p: int| 0 <= p < q ==> !text_less(x@, #[trigger] rv[p]),
            decreases r@.len() - q,
        {
            q += 1;
        }
        let ghost nv = rv.insert(q as int, x@);
        proof {
            assert forall|p1: int, p2: int| 0 <= p1 < p2 < nv.len() implies !text_less(#[trigger] nv[p2], #[trigger] nv[p1]) by {
                if p1 < q && p2 < q {
                    assert(nv[p1] == rv[p1] && nv[p2] == rv[p2]);
                } else if p1 < q && p2 == q {
                    lemma_text_less_total(x@, rv[p1]);
                } else if p1 < q {
                    assert(nv[p2] == rv[p2 - 1] && nv[p1] == rv[p1]);
                } else if p1 == q {
                    assert(nv[p2] == rv[p2 - 1]);
                    if p2 - 1 > q {
                        if text_less(rv[p2 - 1], x@) {
                            lemma_text_less_total(rv[q as int], rv[p2 - 1]);
                            if text_less(rv[q as int], rv[p2 - 1]) {
                                lemma_text_less_transitive(rv[q as int], rv[p2 - 1], x@);
                            } else if rv[q as int] == rv[p2 - 1] {
                            }
                            lemma_text_less_total(x@, rv[q as int]);
                        }
                    } else {
                        lemma_text_less_total(x@, rv[q as int]);
                    }
                } else {
                    assert(nv[p1] == rv[p1 - 1] && nv[p2] == rv[p2 - 1]);
                }
            }
            assert(views(v@).take(i + 1) =~= views(v@).take(i as int).push(x@));
            vstd::seq_lib::to_multiset_insert(rv, q as int, x@);
            vstd::seq_lib::to_multiset_build(views(v@).take(i as int), x@);
        }
        let s = x.clone();
        r.insert(q, s);
        assert(views(r@) =~= nv);
        i += 1;
    }
    assert(views(v@).take(v@.len() as int) =~= views(v@));
    r
}

// ---------------------------------------------------------------------------
// Splitting
// ---------------------------------------------------------------------------

/// `s` cut at each non-overlapping occurrence of `p`, scanning left to right
/// (what `str::split` gives for a non-empty `p`).
pub open spec fn split_spec(s: Seq<char>, p: Seq<char>) -> Seq<Seq<char>>
    decreases s.len(),
{
    let k = find_spec(s, p);
    if p.len() == 0 || k < 0 {
        seq![s]
    } else {
        proof {
            lemma_find_spec(s, p);
        }
        seq![s.take(k)] + split_spec(s.skip(k + p.len()), p)
    }
}

/// Joining a list behind a first item puts one separator between them.
pub proof fn lemma_join_prepend(a: Seq<char>, v: Seq<Seq<char>>, sep: Seq<char>)
    requires
        v.len() > 0,
    ensures
        join_spec(seq![a] + v, sep) == a + sep + join_spec(v, sep),
    decreases v.len(),
{
    let w = seq![a] + v;
    if v.len() == 1 {
        assert(w.drop_last() =~= seq![a]);
        assert(w.last() == v[0]);
        assert(a + sep + v[0] =~= join_spec(seq![a], sep) + sep + w.last());
    } else {
        assert(w.drop_last() =~= seq![a] + v.drop_last());
        lemma_join_prepend(a, v.drop_last(), sep);
        assert(w.last() == v.last());
        assert(join_spec(w, sep) =~= a + sep + join_spec(v, sep));
    }
}

/// Replacing every occurrence is cutting at every occurrence and joining the
/// pieces again with the replacement; the pieces hold no occurrence, and
/// joining them with the pattern gives the text back.
pub proof fn lemma_replace_all_is_split_join(s: Seq<char>, p: Seq<char>, r: Seq<char>)
    requires
        p.len() > 0,
    ensures
        replace_all_spec(s, p, r) == join_spec(split_spec(s, p), r),
        join_spec(split_spec(s, p), p) == s,
        split_spec(s, p).len() == count_spec(s, p) + 1,
        forall|i: int| 0 <= i < split_spec(s, p).len() ==> !contains_spec(#[trigger] split_spec(s, p)[i], p),
    decreases s.len(),
{
    lemma_find_spec(s, p);
    let k = find_spec(s, p);
    if k < 0 {
        assert(split_spec(s, p) == seq![s]);
    } else {
        let rest = s.skip(k + p.len());
        lemma_replace_all_is_split_join(rest, p, r);
        let tail = split_spec(rest, p);
        lemma_join_prepend(s.take(k), tail, r);
        lemma_join_prepend(s.take(k), tail, p);
        assert(s.subrange(k, k + p.len()) == p);
        assert(s =~= s.take(k) + p + rest);
        let head = s.take(k);
        lemma_find_spec(head, p);
        if contains_spec(head, p) {
            let j = find_spec(head, p);
            assert(matches_at(head, p, j));
            assert(head.subrange(j, j + p.len()) =~= s.subrange(j, j + p.len()));
            assert(matches_at(s, p, j));
        }
        assert forall|i: int| 0 <= i < split_spec(s, p).len() implies !contains_spec(#[trigger] split_spec(s, p)[i], p) by {
            if i > 0 {
                assert(split_spec(s, p)[i] == tail[i - 1]);
            }
        }
    }
}

/// Trimming leaves text alone that neither starts nor ends with whitespace.
pub proof fn lemma_trim_plain(s: Seq<char>)
    requires
        s.len() > 0,
        !is_ws(s[0]),
        !is_ws(s.last()),
    ensures
        trim_spec(s) == s,
{
    assert(trim_start_spec(s) == s);
    assert(trim_end_spec(s) == s);
}

} // verus!
