//! Searching and trimming text, as sequences of characters.

use vstd::prelude::*;

verus! {

/// Whether `c` is white space: one of the 25 code points that carry the
/// Unicode property `White_Space`.
pub open spec fn is_whitespace(c: char) -> bool {
    let n = c as u32;
    ||| 0x09 <= n <= 0x0D
    ||| n == 0x20
    ||| n == 0x85
    ||| n == 0xA0
    ||| n == 0x1680
    ||| 0x2000 <= n <= 0x200A
    ||| n == 0x2028
    ||| n == 0x2029
    ||| n == 0x202F
    ||| n == 0x205F
    ||| n == 0x3000
}

/// `s` without the white space it begins with.
pub open spec fn trim_start(s: Seq<char>) -> Seq<char>
    decreases s.len(),
{
    if s.len() > 0 && is_whitespace(s.first()) {
        trim_start(s.drop_first())
    } else {
        s
    }
}

/// `s` without the white space it ends with.
pub open spec fn trim_end(s: Seq<char>) -> Seq<char>
    decreases s.len(),
{
    if s.len() > 0 && is_whitespace(s.last()) {
        trim_end(s.drop_last())
    } else {
        s
    }
}

/// `s` without the white space at either end.
pub open spec fn trim(s: Seq<char>) -> Seq<char> {
    trim_end(trim_start(s))
}

/// Whether `pat` stands in `s` at index `i`.
pub open spec fn occurs_at(s: Seq<char>, pat: Seq<char>, i: int) -> bool {
    0 <= i && i + pat.len() <= s.len() && s.subrange(i, i + pat.len()) == pat
}

/// Whether `pat` stands somewhere in `s`.
pub open spec fn contains(s: Seq<char>, pat: Seq<char>) -> bool {
    exists|i: int| occurs_at(s, pat, i)
}

/// Whether `i` is the leftmost index at which `pat` stands in `s`.
pub open spec fn first_at(s: Seq<char>, pat: Seq<char>, i: int) -> bool {
    occurs_at(s, pat, i) && forall|j: int| 0 <= j < i ==> !occurs_at(s, pat, j)
}

/// The leftmost index at which `pat` stands in `s`, if it stands there at all.
pub open spec fn find(s: Seq<char>, pat: Seq<char>) -> Option<int> {
    if contains(s, pat) {
        Some(choose|i: int| first_at(s, pat, i))
    } else {
        None
    }
}

/// Whether every character of `s` is white space.
pub open spec fn all_whitespace(s: Seq<char>) -> bool {
    forall|i: int| 0 <= i < s.len() ==> is_whitespace(#[trigger] s[i])
}

/// A leftmost occurrence is the one that `find` names.
pub proof fn lemma_find_first(s: Seq<char>, pat: Seq<char>, i: int)
    requires
        first_at(s, pat, i),
    ensures
        find(s, pat) == Some(i),
{
    assert(occurs_at(s, pat, i));
    let k = choose|k: int| first_at(s, pat, k);
    assert(first_at(s, pat, k));
    if k < i {
        assert(!occurs_at(s, pat, k));
    } else if i < k {
        assert(!occurs_at(s, pat, i));
    }
}

/// Where `pat` stands at `i`, it has a leftmost occurrence at or before `i`.
proof fn lemma_leftmost_exists(s: Seq<char>, pat: Seq<char>, i: int)
    requires
        occurs_at(s, pat, i),
    ensures
        exists|k: int| 0 <= k <= i && first_at(s, pat, k),
    decreases i,
{
    if exists|j: int| 0 <= j < i && occurs_at(s, pat, j) {
        let j = choose|j: int| 0 <= j < i && occurs_at(s, pat, j);
        lemma_leftmost_exists(s, pat, j);
        let k = choose|k: int| 0 <= k <= j && first_at(s, pat, k);
        assert(0 <= k <= i && first_at(s, pat, k));
    } else {
        assert(first_at(s, pat, i));
    }
}

/// What `find` returns: nothing exactly where `pat` is absent, and else the
/// leftmost index at which it stands.
pub proof fn lemma_find(s: Seq<char>, pat: Seq<char>)
    ensures
        find(s, pat) is None <==> !contains(s, pat),
        find(s, pat) matches Some(i) ==> first_at(s, pat, i),
{
    if contains(s, pat) {
        let i = choose|i: int| occurs_at(s, pat, i);
        lemma_leftmost_exists(s, pat, i);
        let k = choose|k: int| 0 <= k <= i && first_at(s, pat, k);
        lemma_find_first(s, pat, k);
    }
}

/// `trim_start` drops a run of white space from the front, and all of it.
proof fn lemma_trim_start(s: Seq<char>)
    ensures
        ({
            let k = s.len() - trim_start(s).len();
            &&& 0 <= k <= s.len()
            &&& trim_start(s) == s.skip(k)
            &&& forall|j: int| 0 <= j < k ==> is_whitespace(#[trigger] s[j])
            &&& k < s.len() ==> !is_whitespace(s[k])
        }),
    decreases s.len(),
{
    if s.len() > 0 && is_whitespace(s.first()) {
        let d = s.drop_first();
        lemma_trim_start(d);
        let k = d.len() - trim_start(d).len();
        assert(d.skip(k) =~= s.skip(k + 1));
        assert forall|j: int| 0 <= j < k + 1 implies is_whitespace(#[trigger] s[j]) by {
            if j > 0 {
                assert(s[j] == d[j - 1]);
            }
        }
        assert(k + 1 < s.len() ==> s[k + 1] == d[k]);
    } else {
        assert(s.skip(0) =~= s);
    }
}

/// `trim_end` drops a run of white space from the back, and all of it.
proof fn lemma_trim_end(s: Seq<char>)
    ensures
        ({
            let b = trim_end(s).len() as int;
            &&& 0 <= b <= s.len()
            &&& trim_end(s) == s.take(b)
            &&& forall|j: int| b <= j < s.len() ==> is_whitespace(#[trigger] s[j])
            &&& b > 0 ==> !is_whitespace(s[b - 1])
        }),
    decreases s.len(),
{
    if s.len() > 0 && is_whitespace(s.last()) {
        let d = s.drop_last();
        lemma_trim_end(d);
        let b = trim_end(d).len() as int;
        assert(d.take(b) =~= s.take(b));
        assert forall|j: int| b <= j < s.len() implies is_whitespace(#[trigger] s[j]) by {
            if j < d.len() {
                assert(s[j] == d[j]);
            }
        }
        assert(b > 0 ==> s[b - 1] == d[b - 1]);
    } else {
        assert(s.take(s.len() as int) =~= s);
    }
}

/// Whether `s` from `a` up to `b` is `s` without the white space at either
/// end: white space alone stands before `a` and from `b` on, and none at
/// either end of what lies between.
pub open spec fn trims_to(s: Seq<char>, a: int, b: int) -> bool {
    &&& 0 <= a <= b <= s.len()
    &&& forall|j: int| 0 <= j < a ==> is_whitespace(#[trigger] s[j])
    &&& forall|j: int| b <= j < s.len() ==> is_whitespace(#[trigger] s[j])
    &&& a < b ==> !is_whitespace(s[a]) && !is_whitespace(s[b - 1])
}

/// `trim` cuts a text at bounds that `trims_to` accepts.
pub proof fn lemma_trim_bounds(s: Seq<char>) -> (bounds: (int, int))
    ensures
        trims_to(s, bounds.0, bounds.1),
        trim(s) == s.subrange(bounds.0, bounds.1),
{
    lemma_trim_start(s);
    let a = s.len() - trim_start(s).len();
    let t = trim_start(s);
    lemma_trim_end(t);
    let b = a + trim_end(t).len();
    assert(t.take(b - a) =~= s.subrange(a, b));
    assert forall|j: int| b <= j < s.len() implies is_whitespace(#[trigger] s[j]) by {
        assert(s[j] == t[j - a]);
    }
    if a < b {
        assert(s[b - 1] == t[b - a - 1]);
    }
    (a, b)
}

/// Bounds that `trims_to` accepts are those at which `trim` cuts.
pub proof fn lemma_trim_unique(s: Seq<char>, a: int, b: int)
    requires
        trims_to(s, a, b),
    ensures
        trim(s) == s.subrange(a, b),
{
    let (a0, b0) = lemma_trim_bounds(s);
    if a < b {
        assert(a0 <= a) by {
            if a < a0 {
                assert(is_whitespace(s[a]));
            }
        }
        assert(a <= a0) by {
            if a0 < a {
                if a0 < b0 {
                    assert(is_whitespace(s[a0]));
                } else {
                    assert(is_whitespace(s[a]));
                }
            }
        }
        assert(a0 < b0) by {
            if a0 == b0 {
                assert(is_whitespace(s[a]));
            }
        }
        assert(b0 <= b) by {
            if b < b0 {
                assert(is_whitespace(s[b0 - 1]));
            }
        }
        assert(b <= b0) by {
            if b0 < b {
                assert(is_whitespace(s[b - 1]));
            }
        }
    } else {
        if a0 < b0 {
            if a0 < a {
                assert(is_whitespace(s[a0]));
            } else {
                assert(is_whitespace(s[a0]));
            }
        }
        assert(s.subrange(a0, b0) =~= s.subrange(a, b));
    }
}

/// Trimming what is trimmed changes nothing.
pub proof fn lemma_trim_idempotent(s: Seq<char>)
    ensures
        trim(trim(s)) == trim(s),
{
    let (a, b) = lemma_trim_bounds(s);
    let t = trim(s);
    assert(trims_to(t, 0, t.len() as int));
    lemma_trim_unique(t, 0, t.len() as int);
    assert(t.subrange(0, t.len() as int) =~= t);
}

/// White space around a text does not change what `trim` leaves of it.
pub proof fn lemma_trim_padded(before: Seq<char>, s: Seq<char>, after: Seq<char>)
    requires
        all_whitespace(before),
        all_whitespace(after),
    ensures
        trim(before + s + after) == trim(s),
{
    let (a, b) = lemma_trim_bounds(s);
    let t = before + s + after;
    let n = before.len() as int;
    assert forall|j: int| 0 <= j < n + a implies is_whitespace(#[trigger] t[j]) by {
        if j < n {
            assert(t[j] == before[j]);
        } else {
            assert(t[j] == s[j - n]);
        }
    }
    assert forall|j: int| n + b <= j < t.len() implies is_whitespace(#[trigger] t[j]) by {
        if j < n + s.len() {
            assert(t[j] == s[j - n]);
        } else {
            assert(t[j] == after[j - n - s.len()]);
        }
    }
    if a < b {
        assert(t[n + a] == s[a]);
        assert(t[n + b - 1] == s[b - 1]);
    }
    lemma_trim_unique(t, n + a, n + b);
    assert(t.subrange(n + a, n + b) =~= s.subrange(a, b));
}

/// A pattern that stands inside a part of a text stands in the text.
pub proof fn lemma_occurs_in_subrange(s: Seq<char>, a: int, b: int, pat: Seq<char>, i: int)
    requires
        0 <= a <= b <= s.len(),
        occurs_at(s.subrange(a, b), pat, i),
    ensures
        occurs_at(s, pat, a + i),
{
    assert(s.subrange(a + i, a + i + pat.len()) =~= s.subrange(a, b).subrange(i, i + pat.len()));
}

/// Whether `c` is white space.
pub fn is_white_space(c: char) -> (b: bool)
    ensures
        b == is_whitespace(c),
{
    let n: u32 = c as u32;
    (0x09 <= n && n <= 0x0D) || n == 0x20 || n == 0x85 || n == 0xA0 || n == 0x1680 || (0x2000 <= n
        && n <= 0x200A) || n == 0x2028 || n == 0x2029 || n == 0x202F || n == 0x205F || n
        == 0x3000
}

/// Whether `a` and `b` hold the same text.
pub fn same_text(a: &str, b: &str) -> (same: bool)
    ensures
        same == (a@ == b@),
{
    let x = chars_of(a);
    let y = chars_of(b);
    if x.len() != y.len() {
        return false;
    }
    let n = x.len();
    let mut i: usize = 0;
    while i < n
        invariant
            x@ == a@,
            y@ == b@,
            n == x@.len(),
            n == y@.len(),
            i <= n,
            forall|j: int| 0 <= j < i ==> x@[j] == y@[j],
        decreases n - i,
    {
        if x[i] != y[i] {
            assert(a@[i as int] != b@[i as int]);
            return false;
        }
        i += 1;
    }
    assert(x@ =~= y@);
    true
}

/// The characters of `s`, in order.
pub fn chars_of(s: &str) -> (chars: Vec<char>)
    ensures
        chars@ == s@,
{
    let mut chars: Vec<char> = Vec::new();
    for c in it: s.chars()
        invariant
            it.seq() == s@,
            chars@ == s@.take(it.index() as int),
    {
        chars.push(c);
    }
    chars
}

/// Whether `pat` stands in `s` at index `at`.
fn stands_at(s: &[char], pat: &[char], at: usize) -> (b: bool)
    requires
        at + pat@.len() <= s@.len(),
    ensures
        b == occurs_at(s@, pat@, at as int),
{
    let n = s.len();
    let m = pat.len();
    let mut k: usize = 0;
    while k < m
        invariant
            n == s@.len(),
            m == pat@.len(),
            k <= m,
            at + m <= n,
            forall|j: int| 0 <= j < k ==> s@[at + j] == pat@[j],
        decreases m - k,
    {
        if s[at + k] != pat[k] {
            assert(s@.subrange(at as int, at + m)[k as int] != pat@[k as int]);
            return false;
        }
        k += 1;
    }
    assert(s@.subrange(at as int, at + m) =~= pat@);
    true
}

/// The leftmost index at which `pat` stands in `s`.
pub fn find_in(s: &[char], pat: &[char]) -> (found: Option<usize>)
    ensures
        match find(s@, pat@) {
            Some(i) => found == Some(i as usize) && i <= usize::MAX,
            None => found is None,
        },
{
    let n = s.len();
    let m = pat.len();
    if m > n {
        assert(forall|i: int| !occurs_at(s@, pat@, i));
        return None;
    }
    let mut at: usize = 0;
    while at <= n - m
        invariant
            n == s@.len(),
            m == pat@.len(),
            m <= n,
            at <= n - m + 1,
            forall|j: int| 0 <= j < at ==> !occurs_at(s@, pat@, j),
        decreases n - m + 1 - at,
    {
        if stands_at(s, pat, at) {
            proof {
                lemma_find_first(s@, pat@, at as int);
            }
            return Some(at);
        }
        assert(m > 0) by {
            assert(m == 0 ==> s@.subrange(at as int, at as int) =~= pat@);
        }
        at += 1;
    }
    assert(forall|i: int| !occurs_at(s@, pat@, i));
    None
}

/// Where `s` without the white space at either end begins and ends in `s`.
pub fn trim_bounds(s: &[char]) -> (bounds: (usize, usize))
    ensures
        bounds.0 <= bounds.1 <= s@.len(),
        s@.subrange(bounds.0 as int, bounds.1 as int) == trim(s@),
{
    let n = s.len();
    let mut a: usize = 0;
    assert(s@.subrange(0, n as int) =~= s@);
    while a < n && is_white_space(s[a])
        invariant
            n == s@.len(),
            a <= n,
            trim_start(s@) == trim_start(s@.subrange(a as int, n as int)),
        decreases n - a,
    {
        assert(s@.subrange(a as int, n as int).drop_first() =~= s@.subrange(a + 1, n as int));
        a += 1;
    }
    assert(trim_start(s@) == s@.subrange(a as int, n as int));
    let mut b: usize = n;
    while b > a && is_white_space(s[b - 1])
        invariant
            a <= b <= n,
            n == s@.len(),
            trim(s@) == trim_end(s@.subrange(a as int, b as int)),
        decreases b,
    {
        assert(s@.subrange(a as int, b as int).drop_last() =~= s@.subrange(a as int, b - 1));
        b -= 1;
    }
    (a, b)
}

} // verus!
