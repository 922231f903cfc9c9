use vstd::prelude::*;

verus! {

broadcast use vstd::string::group_string_axioms;

// ---------------------------------------------------------------------------
// Conversions between strings and character vectors
// ---------------------------------------------------------------------------

/// Appends one character to a string (std's `String::push`).
#[verifier::external_body]
pub(crate) fn push_char(s: &mut String, c: char)
    ensures
        final(s)@ == old(s)@.push(c),
{
    s.push(c);
}

/// The characters of a string slice, in order.
pub fn chars_of(s: &str) -> (r: Vec<char>)
    ensures
        r@ == s@,
{
    let mut r: Vec<char> = Vec::new();
    for c in it: s.chars()
        invariant
            it.seq() == s@,
            r@ == s@.take(it.index() as int),
    {
        r.push(c);
    }
    r
}

/// Appends a slice of characters to a string.
pub fn push_chars(s: &mut String, cs: &[char])
    ensures
        final(s)@ == old(s)@ + cs@,
{
    let mut i: usize = 0;
    while i < cs.len()
        invariant
            i <= cs@.len(),
            s@ == old(s)@ + cs@.take(i as int),
        decreases cs@.len() - i,
    {
        push_char(s, cs[i]);
        i = i + 1;
        assert(cs@.take(i as int) == cs@.take((i - 1) as int).push(cs@[i - 1]));
    }
    assert(cs@.take(cs@.len() as int) == cs@);
}

/// The string made of the given characters.
pub fn string_of(cs: &[char]) -> (s: String)
    ensures
        s@ == cs@,
{
    let mut s = String::new();
    push_chars(&mut s, cs);
    s
}

/// Appends a string slice to a string.
pub fn push_str(s: &mut String, t: &str)
    ensures
        final(s)@ == old(s)@ + t@,
{
    let cs = chars_of(t);
    push_chars(s, cs.as_slice());
}

/// Concatenation of two string slices into a new string.
pub fn concat2(a: &str, b: &str) -> (s: String)
    ensures
        s@ == a@ + b@,
{
    let mut s = String::new();
    push_str(&mut s, a);
    push_str(&mut s, b);
    s
}

/// Concatenation of three string slices into a new string.
pub fn concat3(a: &str, b: &str, c: &str) -> (s: String)
    ensures
        s@ == a@ + b@ + c@,
{
    let mut s = String::new();
    push_str(&mut s, a);
    push_str(&mut s, b);
    push_str(&mut s, c);
    s
}

/// Character-wise equality of two slices.
pub fn chars_eq(a: &[char], b: &[char]) -> (r: bool)
    ensures
        r == (a@ == b@),
{
    if a.len() != b.len() {
        return false;
    }
    let mut i: usize = 0;
    while i < a.len()
        invariant
            a@.len() == b@.len(),
            i <= a@.len(),
            forall|j: int| 0 <= j < i ==> a@[j] == b@[j],
        decreases a@.len() - i,
    {
        if a[i] != b[i] {
            return false;
        }
        i = i + 1;
    }
    assert(a@ == b@);
    true
}

/// String equality by content.
pub fn str_eq(a: &str, b: &str) -> (r: bool)
    ensures
        r == (a@ == b@),
{
    let ac = chars_of(a);
    let bc = chars_of(b);
    chars_eq(ac.as_slice(), bc.as_slice())
}

// ---------------------------------------------------------------------------
// Searching
// ---------------------------------------------------------------------------

/// `n` occurs in `h` at position `i`.
pub open spec fn matches_at(h: Seq<char>, n: Seq<char>, i: int) -> bool {
    0 <= i && i + n.len() <= h.len() && h.subrange(i, i + n.len()) == n
}

/// The first position at or after `from` where `n` occurs in `h`
/// (what `h[from..].find(n)` gives, shifted by `from`).
pub open spec fn find_from(h: Seq<char>, n: Seq<char>, from: int) -> Option<int>
    decreases h.len() + 1 - from,
{
    if from < 0 || from + n.len() > h.len() {
        None
    } else if matches_at(h, n, from) {
        Some(from)
    } else {
        find_from(h, n, from + 1)
    }
}

/// `n` occurs somewhere in `h` (`str::contains`).
pub open spec fn contains_seq(h: Seq<char>, n: Seq<char>) -> bool {
    find_from(h, n, 0) is Some
}

/// `p` is a prefix of `s` (`str::starts_with`).
pub open spec fn has_prefix(s: Seq<char>, p: Seq<char>) -> bool {
    p.len() <= s.len() && s.take(p.len() as int) == p
}

/// The characters of `s` after the prefix `p`, if `s` starts with `p` (`str::strip_prefix`).
pub open spec fn strip_prefix_seq(s: Seq<char>, p: Seq<char>) -> Option<Seq<char>> {
    if has_prefix(s, p) {
        Some(s.skip(p.len() as int))
    } else {
        None
    }
}

/// What `find_from` gives is the first occurrence at or after `from`.
pub proof fn lemma_find_from(h: Seq<char>, n: Seq<char>, from: int)
    requires
        0 <= from,
    ensures
        find_from(h, n, from) matches Some(k) ==> from <= k && matches_at(h, n, k) && (forall|j: int|
            from <= j < k ==> !matches_at(h, n, j)),
        find_from(h, n, from) is None ==> forall|j: int| from <= j ==> !matches_at(h, n, j),
    decreases h.len() + 1 - from,
{
    if from + n.len() > h.len() {
    } else if matches_at(h, n, from) {
    } else {
        lemma_find_from(h, n, from + 1);
        assert forall|j: int| from <= j && find_from(h, n, from) is None implies !matches_at(
            h,
            n,
            j,
        ) by {
            if j > from {
            }
        }
    }
}

fn matches_here(h: &[char], n: &[char], i: usize) -> (r: bool)
    requires
        i + n@.len() <= h@.len(),
    ensures
        r == matches_at(h@, n@, i as int),
{
    let hl = h.len();
    let mut k: usize = 0;
    while k < n.len()
        invariant
            hl == h@.len(),
            i + n@.len() <= h@.len(),
            k <= n@.len(),
            forall|j: int| 0 <= j < k ==> h@[i + j] == n@[j],
        decreases n@.len() - k,
    {
        if h[i + k] != n[k] {
            assert(h@.subrange(i as int, i + n@.len())[k as int] != n@[k as int]);
            return false;
        }
        k = k + 1;
    }
    assert(h@.subrange(i as int, i + n@.len()) == n@);
    true
}

/// First occurrence of `n` in `h` at or after `from`.
pub fn find_chars(h: &[char], n: &[char], from: usize) -> (r: Option<usize>)
    ensures
        r matches Some(k) ==> find_from(h@, n@, from as int) == Some(k as int),
        r is None ==> find_from(h@, n@, from as int) is None,
{
    if n.len() > h.len() {
        return None;
    }
    let last = h.len() - n.len();
    let mut i = from;
    while i <= last
        invariant
            last + n@.len() == h@.len(),
            from <= i,
            find_from(h@, n@, from as int) == find_from(h@, n@, i as int),
        decreases last + 1 - i,
    {
        if matches_here(h, n, i) {
            return Some(i);
        }
        if i == last {
            return None;
        }
        i = i + 1;
    }
    None
}

/// `n` occurs in `h`.
pub fn contains_chars(h: &[char], n: &[char]) -> (r: bool)
    ensures
        r == contains_seq(h@, n@),
{
    find_chars(h, n, 0).is_some()
}

/// `str::contains`.
pub fn str_contains(h: &str, n: &str) -> (r: bool)
    ensures
        r == contains_seq(h@, n@),
{
    let hc = chars_of(h);
    let nc = chars_of(n);
    contains_chars(hc.as_slice(), nc.as_slice())
}

/// `s` starts with `p`.
pub fn starts_with_chars(s: &[char], p: &[char]) -> (r: bool)
    ensures
        r == has_prefix(s@, p@),
{
    if p.len() > s.len() {
        return false;
    }
    let m = matches_here(s, p, 0);
    assert(s@.subrange(0, p@.len() as int) == s@.take(p@.len() as int));
    m
}

/// A copy of `s[from..to]`.
pub fn slice_to_vec(s: &[char], from: usize, to: usize) -> (r: Vec<char>)
    requires
        from <= to <= s@.len(),
    ensures
        r@ == s@.subrange(from as int, to as int),
{
    let mut r: Vec<char> = Vec::new();
    let mut i = from;
    while i < to
        invariant
            from <= i <= to <= s@.len(),
            r@ == s@.subrange(from as int, i as int),
        decreases to - i,
    {
        r.push(s[i]);
        i = i + 1;
        assert(r@ == s@.subrange(from as int, i as int));
    }
    r
}

// ---------------------------------------------------------------------------
// Splitting
// ---------------------------------------------------------------------------

/// The pieces of `s` between occurrences of `c` (`str::split` by a character).
pub open spec fn split_char(s: Seq<char>, c: char) -> Seq<Seq<char>>
    decreases s.len(),
{
    if s.len() == 0 {
        seq![Seq::<char>::empty()]
    } else {
        let init = split_char(s.drop_last(), c);
        if s.last() == c {
            init.push(Seq::<char>::empty())
        } else {
            init.update(init.len() - 1, init.last().push(s.last()))
        }
    }
}

/// A piece without the separator splits into itself.
pub proof fn lemma_split_no_sep(q: Seq<char>, c: char)
    requires
        forall|i: int| 0 <= i < q.len() ==> q[i] != c,
    ensures
        split_char(q, c) == seq![q],
    decreases q.len(),
{
    if q.len() > 0 {
        lemma_split_no_sep(q.drop_last(), c);
        assert(q[q.len() - 1] != c);
        assert(q.drop_last().push(q.last()) =~= q);
        assert(split_char(q, c) =~= seq![q]);
    } else {
        assert(q =~= Seq::<char>::empty());
        assert(split_char(q, c) =~= seq![q]);
    }
}

/// Splitting two texts joined by the separator gives the pieces of the first, then those of
/// the second.
pub proof fn lemma_split_joined(p: Seq<char>, q: Seq<char>, c: char)
    ensures
        split_char(p + seq![c] + q, c) == split_char(p, c) + split_char(q, c),
    decreases q.len(),
{
    if q.len() == 0 {
        assert(p + seq![c] + q =~= p.push(c));
        assert((p + seq![c] + q).drop_last() =~= p);
        assert(split_char(q, c) =~= seq![Seq::<char>::empty()]);
        assert(split_char(p + seq![c] + q, c) =~= split_char(p, c) + split_char(q, c));
    } else {
        let q1 = q.drop_last();
        lemma_split_joined(p, q1, c);
        lemma_split_nonempty(q1, c);
        lemma_split_nonempty(p, c);
        let whole = p + seq![c] + q;
        assert(whole.drop_last() =~= p + seq![c] + q1);
        assert(whole.last() == q.last());
        let a = split_char(p, c);
        let b1 = split_char(q1, c);
        if q.last() == c {
            assert(split_char(whole, c) =~= a + split_char(q, c));
        } else {
            assert((a + b1).update((a + b1).len() - 1, (a + b1).last().push(q.last())) =~= a + b1.update(
                b1.len() - 1,
                b1.last().push(q.last()),
            ));
            assert(split_char(whole, c) =~= a + split_char(q, c));
        }
    }
}

/// Splitting always gives at least one piece.
pub proof fn lemma_split_nonempty(s: Seq<char>, c: char)
    ensures
        split_char(s, c).len() >= 1,
    decreases s.len(),
{
    if s.len() > 0 {
        lemma_split_nonempty(s.drop_last(), c);
    }
}

/// `s.split(c)` collected into vectors of characters.
pub fn split_chars(s: &[char], c: char) -> (r: Vec<Vec<char>>)
    ensures
        r@.len() == split_char(s@, c).len(),
        forall|i: int| 0 <= i < r@.len() ==> #[trigger] r@[i]@ == split_char(s@, c)[i],
{
    let mut done: Vec<Vec<char>> = Vec::new();
    let mut cur: Vec<char> = Vec::new();
    let mut i: usize = 0;
    while i < s.len()
        invariant
            i <= s@.len(),
            done@.len() + 1 == split_char(s@.take(i as int), c).len(),
            forall|j: int| 0 <= j < done@.len() ==> #[trigger] done@[j]@ == split_char(
                s@.take(i as int),
                c,
            )[j],
            cur@ == split_char(s@.take(i as int), c).last(),
        decreases s@.len() - i,
    {
        proof {
            lemma_split_nonempty(s@.take(i as int), c);
            assert(s@.take(i + 1).drop_last() == s@.take(i as int));
        }
        if s[i] == c {
            done.push(cur);
            cur = Vec::new();
        } else {
            cur.push(s[i]);
        }
        i = i + 1;
    }
    done.push(cur);
    assert(s@.take(s@.len() as int) == s@);
    done
}


// ---------------------------------------------------------------------------
// Character classes, case and trimming
// ---------------------------------------------------------------------------

/// `char::is_whitespace`: the characters with Unicode's White_Space property.
pub open spec fn is_ws(c: char) -> bool {
    ('\u{9}' <= c && c <= '\u{d}') || c == ' ' || c == '\u{85}' || c == '\u{a0}' || c
        == '\u{1680}' || ('\u{2000}' <= c && c <= '\u{200a}') || c == '\u{2028}' || c
        == '\u{2029}' || c == '\u{202f}' || c == '\u{205f}' || c == '\u{3000}'
}

pub fn is_whitespace(c: char) -> (r: bool)
    ensures
        r == is_ws(c),
{
    ('\u{9}' <= c && c <= '\u{d}') || c == ' ' || c == '\u{85}' || c == '\u{a0}' || c
        == '\u{1680}' || ('\u{2000}' <= c && c <= '\u{200a}') || c == '\u{2028}' || c
        == '\u{2029}' || c == '\u{202f}' || c == '\u{205f}' || c == '\u{3000}'
}

/// `s` without its leading whitespace (`str::trim_start`).
pub open spec fn trim_start_ws(s: Seq<char>) -> Seq<char>
    decreases s.len(),
{
    if s.len() > 0 && is_ws(s[0]) {
        trim_start_ws(s.drop_first())
    } else {
        s
    }
}

/// `s` without its trailing whitespace (`str::trim_end`).
pub open spec fn trim_end_ws(s: Seq<char>) -> Seq<char>
    decreases s.len(),
{
    if s.len() > 0 && is_ws(s.last()) {
        trim_end_ws(s.drop_last())
    } else {
        s
    }
}

/// `str::trim`.
pub open spec fn trim_ws(s: Seq<char>) -> Seq<char> {
    trim_end_ws(trim_start_ws(s))
}

/// `s` without its leading characters from `set` (`str::trim_start_matches` with characters).
pub open spec fn trim_start_set(s: Seq<char>, set: Seq<char>) -> Seq<char>
    decreases s.len(),
{
    if s.len() > 0 && set.contains(s[0]) {
        trim_start_set(s.drop_first(), set)
    } else {
        s
    }
}

/// `s` without its trailing characters from `set` (`str::trim_end_matches` with characters).
pub open spec fn trim_end_set(s: Seq<char>, set: Seq<char>) -> Seq<char>
    decreases s.len(),
{
    if s.len() > 0 && set.contains(s.last()) {
        trim_end_set(s.drop_last(), set)
    } else {
        s
    }
}

/// `str::trim_matches` with a set of characters.
pub open spec fn trim_set(s: Seq<char>, set: Seq<char>) -> Seq<char> {
    trim_end_set(trim_start_set(s, set), set)
}

proof fn lemma_trim_start_ws_skip(s: Seq<char>, i: int)
    requires
        0 <= i <= s.len(),
        forall|j: int| 0 <= j < i ==> is_ws(#[trigger] s[j]),
    ensures
        trim_start_ws(s) == trim_start_ws(s.skip(i)),
    decreases i,
{
    if i > 0 {
        assert(s.skip(1) == s.drop_first());
        lemma_trim_start_ws_skip(s.drop_first(), i - 1);
        assert(s.drop_first().skip(i - 1) == s.skip(i));
    } else {
        assert(s.skip(0) == s);
    }
}

proof fn lemma_trim_end_ws_take(s: Seq<char>, i: int)
    requires
        0 <= i <= s.len(),
        forall|j: int| i <= j < s.len() ==> is_ws(#[trigger] s[j]),
    ensures
        trim_end_ws(s) == trim_end_ws(s.take(i)),
    decreases s.len() - i,
{
    if i < s.len() {
        lemma_trim_end_ws_take(s.drop_last(), i);
        assert(s.drop_last().take(i) == s.take(i));
    } else {
        assert(s.take(i) == s);
    }
}

proof fn lemma_trim_start_set_skip(s: Seq<char>, set: Seq<char>, i: int)
    requires
        0 <= i <= s.len(),
        forall|j: int| 0 <= j < i ==> set.contains(#[trigger] s[j]),
    ensures
        trim_start_set(s, set) == trim_start_set(s.skip(i), set),
    decreases i,
{
    if i > 0 {
        lemma_trim_start_set_skip(s.drop_first(), set, i - 1);
        assert(s.drop_first().skip(i - 1) == s.skip(i));
    } else {
        assert(s.skip(0) == s);
    }
}

proof fn lemma_trim_end_set_take(s: Seq<char>, set: Seq<char>, i: int)
    requires
        0 <= i <= s.len(),
        forall|j: int| i <= j < s.len() ==> set.contains(#[trigger] s[j]),
    ensures
        trim_end_set(s, set) == trim_end_set(s.take(i), set),
    decreases s.len() - i,
{
    if i < s.len() {
        lemma_trim_end_set_take(s.drop_last(), set, i);
        assert(s.drop_last().take(i) == s.take(i));
    } else {
        assert(s.take(i) == s);
    }
}

/// `str::trim` on characters.
pub fn trim_chars(s: &[char]) -> (r: Vec<char>)
    ensures
        r@ == trim_ws(s@),
{
    let mut a: usize = 0;
    while a < s.len() && is_whitespace(s[a])
        invariant
            a <= s@.len(),
            forall|j: int| 0 <= j < a ==> is_ws(#[trigger] s@[j]),
        decreases s@.len() - a,
    {
        a = a + 1;
    }
    proof {
        lemma_trim_start_ws_skip(s@, a as int);
    }
    let mut b: usize = s.len();
    while b > a && is_whitespace(s[b - 1])
        invariant
            a <= b <= s@.len(),
            forall|j: int| b <= j < s@.len() ==> is_ws(#[trigger] s@[j]),
        decreases b,
    {
        b = b - 1;
    }
    let r = slice_to_vec(s, a, b);
    proof {
        let t = s@.skip(a as int);
        assert(a < s@.len() ==> !is_ws(t[0]));
        assert(trim_start_ws(t) == t);
        assert forall|j: int| b - a <= j < t.len() implies is_ws(#[trigger] t[j]) by {
            assert(t[j] == s@[a + j]);
        }
        lemma_trim_end_ws_take(t, b - a);
        assert(t.take(b - a) == s@.subrange(a as int, b as int));
        let u = t.take(b - a);
        assert(b > a ==> u.last() == s@[b - 1]);
        assert(trim_end_ws(u) == u);
    }
    r
}

/// `str::trim` on a string slice.
pub fn trim_str(s: &str) -> (r: String)
    ensures
        r@ == trim_ws(s@),
{
    let cs = chars_of(s);
    let t = trim_chars(cs.as_slice());
    string_of(t.as_slice())
}

fn in_set(set: &[char], c: char) -> (r: bool)
    ensures
        r == set@.contains(c),
{
    let mut i: usize = 0;
    while i < set.len()
        invariant
            i <= set@.len(),
            forall|j: int| 0 <= j < i ==> set@[j] != c,
        decreases set@.len() - i,
    {
        if set[i] == c {
            assert(set@[i as int] == c);
            return true;
        }
        i = i + 1;
    }
    false
}

/// The bounds `[a, b)` of `s` that remain after trimming characters of `set` at both ends.
fn trim_set_bounds(s: &[char], set: &[char], at_start: bool, at_end: bool) -> (r: (usize, usize))
    ensures
        r.0 <= r.1 <= s@.len(),
        at_start ==> s@.skip(r.0 as int) == trim_start_set(s@, set@),
        !at_start ==> r.0 == 0,
        at_end ==> s@.subrange(r.0 as int, r.1 as int) == trim_end_set(s@.skip(r.0 as int), set@),
        !at_end ==> r.1 == s@.len(),
{
    let mut a: usize = 0;
    if at_start {
        while a < s.len() && in_set(set, s[a])
            invariant
                a <= s@.len(),
                forall|j: int| 0 <= j < a ==> set@.contains(#[trigger] s@[j]),
            decreases s@.len() - a,
        {
            a = a + 1;
        }
        proof {
            lemma_trim_start_set_skip(s@, set@, a as int);
            let t = s@.skip(a as int);
            assert(a < s@.len() ==> !set@.contains(t[0]));
        }
    }
    let mut b: usize = s.len();
    if at_end {
        while b > a && in_set(set, s[b - 1])
            invariant
                a <= b <= s@.len(),
                forall|j: int| b <= j < s@.len() ==> set@.contains(#[trigger] s@[j]),
            decreases b,
        {
            b = b - 1;
        }
        proof {
            let t = s@.skip(a as int);
            assert forall|j: int| b - a <= j < t.len() implies set@.contains(#[trigger] t[j]) by {
                assert(t[j] == s@[a + j]);
            }
            lemma_trim_end_set_take(t, set@, b - a);
            assert(t.take(b - a) == s@.subrange(a as int, b as int));
            let u = t.take(b - a);
            assert(b > a ==> u.last() == s@[b - 1]);
        }
    }
    (a, b)
}

/// `str::trim_matches` with a set of characters.
pub fn trim_set_chars(s: &[char], set: &[char]) -> (r: Vec<char>)
    ensures
        r@ == trim_set(s@, set@),
{
    let (a, b) = trim_set_bounds(s, set, true, true);
    slice_to_vec(s, a, b)
}

/// `str::trim_start_matches` with a set of characters.
pub fn trim_start_set_chars(s: &[char], set: &[char]) -> (r: Vec<char>)
    ensures
        r@ == trim_start_set(s@, set@),
{
    let (a, b) = trim_set_bounds(s, set, true, false);
    assert(s@.subrange(a as int, b as int) == s@.skip(a as int));
    slice_to_vec(s, a, b)
}

/// `str::trim_end_matches` with a set of characters.
pub fn trim_end_set_chars(s: &[char], set: &[char]) -> (r: Vec<char>)
    ensures
        r@ == trim_end_set(s@, set@),
{
    let (a, b) = trim_set_bounds(s, set, false, true);
    assert(s@.skip(0) == s@);
    slice_to_vec(s, a, b)
}

/// `s.trim_end_matches(c)` for one character.
pub fn trim_end_char_str(s: &str, c: char) -> (r: String)
    ensures
        r@ == trim_end_set(s@, seq![c]),
{
    let cs = chars_of(s);
    let set = vec![c];
    assert(set@ == seq![c]);
    let t = trim_end_set_chars(cs.as_slice(), set.as_slice());
    string_of(t.as_slice())
}

/// ASCII lower case of one character (`char::to_ascii_lowercase`).
pub open spec fn ascii_lower(c: char) -> char {
    if 'A' <= c && c <= 'Z' {
        ((c as u32) + 32) as char
    } else {
        c
    }
}

pub fn to_ascii_lower(c: char) -> (r: char)
    ensures
        r == ascii_lower(c),
{
    if 'A' <= c && c <= 'Z' {
        ((c as u8) + 32) as char
    } else {
        c
    }
}

/// `str::eq_ignore_ascii_case`.
pub open spec fn eq_ignore_ascii_case(a: Seq<char>, b: Seq<char>) -> bool {
    a.len() == b.len() && forall|i: int| 0 <= i < a.len() ==> ascii_lower(#[trigger] a[i])
        == ascii_lower(b[i])
}

pub fn eq_ignore_case_chars(a: &[char], b: &[char]) -> (r: bool)
    ensures
        r == eq_ignore_ascii_case(a@, b@),
{
    if a.len() != b.len() {
        return false;
    }
    let mut i: usize = 0;
    while i < a.len()
        invariant
            a@.len() == b@.len(),
            i <= a@.len(),
            forall|j: int| 0 <= j < i ==> ascii_lower(#[trigger] a@[j]) == ascii_lower(b@[j]),
        decreases a@.len() - i,
    {
        if to_ascii_lower(a[i]) != to_ascii_lower(b[i]) {
            return false;
        }
        i = i + 1;
    }
    true
}

// ---------------------------------------------------------------------------
// Lines and words
// ---------------------------------------------------------------------------

/// `s` without one trailing `\r`, if it has one.
pub open spec fn drop_cr(s: Seq<char>) -> Seq<char> {
    if s.len() > 0 && s.last() == '\r' {
        s.drop_last()
    } else {
        s
    }
}

/// `str::lines`: the pieces between `\n`, each line ended by `\n` losing a trailing `\r`,
/// and no final empty line.
pub open spec fn lines_of(s: Seq<char>) -> Seq<Seq<char>> {
    let p = split_char(s, '\n');
    let n: int = p.len() as int;
    let kept: int = if p[n - 1].len() == 0 {
        n - 1
    } else {
        n
    };
    Seq::new(
        kept as nat,
        |i: int|
            if i < n - 1 {
                drop_cr(p[i])
            } else {
                p[i]
            },
    )
}

fn drop_cr_vec(v: Vec<char>) -> (r: Vec<char>)
    ensures
        r@ == drop_cr(v@),
{
    let mut v = v;
    if v.len() > 0 && v[v.len() - 1] == '\r' {
        v.pop();
    }
    v
}

/// `s.lines()` collected into vectors of characters.
pub fn lines_chars(s: &[char]) -> (r: Vec<Vec<char>>)
    ensures
        r@.len() == lines_of(s@).len(),
        forall|i: int| 0 <= i < r@.len() ==> #[trigger] r@[i]@ == lines_of(s@)[i],
{
    proof {
        lemma_split_nonempty(s@, '\n');
    }
    let pieces = split_chars(s, '\n');
    let n = pieces.len();
    let mut out: Vec<Vec<char>> = Vec::new();
    let mut i: usize = 0;
    let kept = if pieces[n - 1].len() == 0 { n - 1 } else { n };
    assert(pieces@[n - 1]@ == split_char(s@, '\n')[n - 1]);
    while i < kept
        invariant
            n == pieces@.len(),
            n == split_char(s@, '\n').len(),
            n >= 1,
            kept == lines_of(s@).len(),
            kept <= n,
            i <= kept,
            forall|j: int| 0 <= j < n ==> #[trigger] pieces@[j]@ == split_char(s@, '\n')[j],
            out@.len() == i,
            forall|j: int| 0 <= j < i ==> #[trigger] out@[j]@ == lines_of(s@)[j],
        decreases kept - i,
    {
        let piece = pieces[i].clone();
        assert(piece@ == split_char(s@, '\n')[i as int]);
        if i < n - 1 {
            out.push(drop_cr_vec(piece));
        } else {
            out.push(piece);
        }
        i = i + 1;
    }
    out
}

/// `str::split_whitespace`: the maximal runs of non-whitespace characters.
pub open spec fn words_of(s: Seq<char>) -> Seq<Seq<char>>
    decreases s.len(),
{
    if s.len() == 0 {
        Seq::empty()
    } else {
        let w = words_of(s.drop_last());
        let c = s.last();
        if is_ws(c) {
            w
        } else if s.len() >= 2 && !is_ws(s[s.len() - 2]) {
            w.update(w.len() - 1, w.last().push(c))
        } else {
            w.push(seq![c])
        }
    }
}

proof fn lemma_words_nonempty(s: Seq<char>)
    requires
        s.len() > 0,
        !is_ws(s.last()),
    ensures
        words_of(s).len() >= 1,
    decreases s.len(),
{
    if s.len() >= 2 && !is_ws(s[s.len() - 2]) {
        lemma_words_nonempty(s.drop_last());
    }
}

/// `s.split_whitespace()` collected into vectors of characters.
pub fn words_chars(s: &[char]) -> (r: Vec<Vec<char>>)
    ensures
        r@.len() == words_of(s@).len(),
        forall|i: int| 0 <= i < r@.len() ==> #[trigger] r@[i]@ == words_of(s@)[i],
{
    let mut out: Vec<Vec<char>> = Vec::new();
    let mut i: usize = 0;
    while i < s.len()
        invariant
            i <= s@.len(),
            out@.len() == words_of(s@.take(i as int)).len(),
            forall|j: int| 0 <= j < out@.len() ==> #[trigger] out@[j]@ == words_of(
                s@.take(i as int),
            )[j],
        decreases s@.len() - i,
    {
        let c = s[i];
        proof {
            assert(s@.take(i + 1).drop_last() == s@.take(i as int));
            assert(s@.take(i + 1).last() == c);
            if i >= 1 {
                assert(s@.take(i + 1)[i - 1] == s@[i - 1]);
                assert(s@.take(i as int).last() == s@[i - 1]);
                if !is_ws(s@[i - 1]) {
                    lemma_words_nonempty(s@.take(i as int));
                }
            }
        }
        if !is_whitespace(c) {
            if i >= 1 && !is_whitespace(s[i - 1]) {
                let k = out.len() - 1;
                let mut last = out.pop().unwrap();
                last.push(c);
                out.push(last);
                assert(out@[k as int]@ == words_of(s@.take(i + 1))[k as int]);
            } else {
                let mut w: Vec<char> = Vec::new();
                w.push(c);
                assert(w@ == seq![c]);
                out.push(w);
            }
        }
        i = i + 1;
    }
    assert(s@.take(s@.len() as int) == s@);
    out
}

// ---------------------------------------------------------------------------
// Replacing and joining
// ---------------------------------------------------------------------------

/// `s` with every `from` replaced by the characters `to` (`str::replace` with a character).
pub open spec fn replace_char(s: Seq<char>, from: char, to: Seq<char>) -> Seq<char>
    decreases s.len(),
{
    if s.len() == 0 {
        Seq::empty()
    } else {
        let init = replace_char(s.drop_last(), from, to);
        if s.last() == from {
            init + to
        } else {
            init.push(s.last())
        }
    }
}

pub fn replace_char_chars(s: &[char], from: char, to: &[char]) -> (r: Vec<char>)
    ensures
        r@ == replace_char(s@, from, to@),
{
    let mut out: Vec<char> = Vec::new();
    let mut i: usize = 0;
    while i < s.len()
        invariant
            i <= s@.len(),
            out@ == replace_char(s@.take(i as int), from, to@),
        decreases s@.len() - i,
    {
        assert(s@.take(i + 1).drop_last() == s@.take(i as int));
        if s[i] == from {
            let mut k: usize = 0;
            let ghost base = out@;
            while k < to.len()
                invariant
                    k <= to@.len(),
                    out@ == base + to@.take(k as int),
                decreases to@.len() - k,
            {
                out.push(to[k]);
                k = k + 1;
                assert(to@.take(k as int) == to@.take(k - 1).push(to@[k - 1]));
            }
            assert(to@.take(to@.len() as int) == to@);
        } else {
            out.push(s[i]);
        }
        i = i + 1;
    }
    assert(s@.take(s@.len() as int) == s@);
    out
}

/// The pieces joined with `sep` between them (`[String]::join`).
pub open spec fn join_seq(parts: Seq<Seq<char>>, sep: Seq<char>) -> Seq<char>
    decreases parts.len(),
{
    if parts.len() == 0 {
        Seq::empty()
    } else if parts.len() == 1 {
        parts[0]
    } else {
        join_seq(parts.drop_last(), sep) + sep + parts.last()
    }
}

/// The views of a vector of strings.
pub open spec fn views_of(v: Seq<String>) -> Seq<Seq<char>> {
    Seq::new(v.len(), |i: int| v[i]@)
}

/// `parts.join(sep)`.
pub fn join_strings(parts: &Vec<String>, sep: &str) -> (r: String)
    ensures
        r@ == join_seq(views_of(parts@), sep@),
{
    let mut r = String::new();
    let mut i: usize = 0;
    while i < parts.len()
        invariant
            i <= parts@.len(),
            r@ == join_seq(views_of(parts@).take(i as int), sep@),
        decreases parts@.len() - i,
    {
        let ghost before = views_of(parts@).take(i as int);
        if i > 0 {
            push_str(&mut r, sep);
        }
        push_str(&mut r, parts[i].as_str());
        i = i + 1;
        proof {
            let now = views_of(parts@).take(i as int);
            assert(now.drop_last() == before);
            if i == 1 {
                assert(now == seq![parts@[0]@]);
            }
        }
    }
    assert(views_of(parts@).take(parts@.len() as int) == views_of(parts@));
    r
}

// ---------------------------------------------------------------------------
// Case (std's Unicode case mapping) and conveniences on string slices
// ---------------------------------------------------------------------------

/// ASCII upper case of one character (`char::to_ascii_uppercase`).
pub open spec fn ascii_upper(c: char) -> char {
    if 'a' <= c && c <= 'z' {
        ((c as u32) - 32) as char
    } else {
        c
    }
}

/// Whether every character is ASCII.
pub open spec fn all_ascii(s: Seq<char>) -> bool {
    forall|i: int| 0 <= i < s.len() ==> (#[trigger] s[i] as u32) < 128
}

/// What `str::to_uppercase` gives for `s`.
pub uninterp spec fn unicode_upper(s: Seq<char>) -> Seq<char>;

/// What `str::to_lowercase` gives for `s`.
pub uninterp spec fn unicode_lower(s: Seq<char>) -> Seq<char>;

/// `str::to_uppercase`: the Unicode upper case of `s`; for ASCII text, each letter in upper
/// case.
#[verifier::external_body]
pub(crate) fn to_upper(s: &str) -> (r: String)
    ensures
        r@ == unicode_upper(s@),
        all_ascii(s@) ==> r@ == s@.map_values(|c: char| ascii_upper(c)),
{
    s.to_uppercase()
}

/// `str::to_lowercase`: the Unicode lower case of `s`; for ASCII text, each letter in lower
/// case.
#[verifier::external_body]
pub(crate) fn to_lower(s: &str) -> (r: String)
    ensures
        r@ == unicode_lower(s@),
        all_ascii(s@) ==> r@ == s@.map_values(|c: char| ascii_lower(c)),
{
    s.to_lowercase()
}

/// `s.replace(from, to)` for one character replaced by another.
pub fn replace_char_str(s: &str, from: char, to: char) -> (r: String)
    ensures
        r@ == replace_char(s@, from, seq![to]),
{
    let cs = chars_of(s);
    let t = vec![to];
    assert(t@ == seq![to]);
    let out = replace_char_chars(cs.as_slice(), from, t.as_slice());
    string_of(out.as_slice())
}

/// `s.trim_start_matches(c)` for one character.
pub fn trim_start_char_str(s: &str, c: char) -> (r: String)
    ensures
        r@ == trim_start_set(s@, seq![c]),
{
    let cs = chars_of(s);
    let set = vec![c];
    assert(set@ == seq![c]);
    let t = trim_start_set_chars(cs.as_slice(), set.as_slice());
    string_of(t.as_slice())
}

pub proof fn lemma_views_of_push(v: Seq<String>, x: String)
    ensures
        views_of(v.push(x)) == views_of(v).push(x@),
{
    assert(views_of(v.push(x)) =~= views_of(v).push(x@));
}

/// The lines of a string slice (`str::lines`).
pub fn lines_str(s: &str) -> (r: Vec<String>)
    ensures
        views_of(r@) == lines_of(s@),
{
    let cs = chars_of(s);
    let ls = lines_chars(cs.as_slice());
    let mut r: Vec<String> = Vec::new();
    let mut i: usize = 0;
    while i < ls.len()
        invariant
            i <= ls@.len(),
            ls@.len() == lines_of(s@).len(),
            cs@ == s@,
            forall|j: int| 0 <= j < ls@.len() ==> #[trigger] ls@[j]@ == lines_of(s@)[j],
            views_of(r@) == lines_of(s@).take(i as int),
        decreases ls@.len() - i,
    {
        let line = string_of(ls[i].as_slice());
        proof {
            assert(ls@[i as int]@ == lines_of(s@)[i as int]);
            assert(line@ == lines_of(s@)[i as int]);
            lemma_views_of_push(r@, line);
            assert(lines_of(s@).take(i + 1) =~= lines_of(s@).take(i as int).push(line@));
        }
        r.push(line);
        i = i + 1;
    }
    assert(lines_of(s@).take(ls@.len() as int) == lines_of(s@));
    r
}

/// The words of a string slice (`str::split_whitespace`).
pub fn words_str(s: &str) -> (r: Vec<String>)
    ensures
        views_of(r@) == words_of(s@),
{
    let cs = chars_of(s);
    let ws = words_chars(cs.as_slice());
    let mut r: Vec<String> = Vec::new();
    let mut i: usize = 0;
    while i < ws.len()
        invariant
            i <= ws@.len(),
            ws@.len() == words_of(s@).len(),
            cs@ == s@,
            forall|j: int| 0 <= j < ws@.len() ==> #[trigger] ws@[j]@ == words_of(s@)[j],
            views_of(r@) == words_of(s@).take(i as int),
        decreases ws@.len() - i,
    {
        let w = string_of(ws[i].as_slice());
        proof {
            assert(ws@[i as int]@ == words_of(s@)[i as int]);
            assert(w@ == words_of(s@)[i as int]);
            lemma_views_of_push(r@, w);
            assert(words_of(s@).take(i + 1) =~= words_of(s@).take(i as int).push(w@));
        }
        r.push(w);
        i = i + 1;
    }
    assert(words_of(s@).take(ws@.len() as int) == words_of(s@));
    r
}

/// The characters that occur after replacing `from` by `to` are those of `s` and of `to`.
pub proof fn lemma_replace_char_chars(s: Seq<char>, from: char, to: Seq<char>)
    ensures
        forall|c: char| #[trigger] replace_char(s, from, to).contains(c) ==> s.contains(c) || to.contains(c),
    decreases s.len(),
{
    if s.len() > 0 {
        let init = replace_char(s.drop_last(), from, to);
        lemma_replace_char_chars(s.drop_last(), from, to);
        let r = replace_char(s, from, to);
        assert forall|c: char| #[trigger] r.contains(c) implies s.contains(c) || to.contains(c) by {
            let k = choose|k: int| 0 <= k < r.len() && r[k] == c;
            if s.last() == from {
                assert(r == init + to);
                if k < init.len() {
                    assert(init[k] == c);
                    assert(init.contains(c));
                    if !to.contains(c) {
                        let j = choose|j: int| 0 <= j < s.drop_last().len() && s.drop_last()[j] == c;
                        assert(s[j] == c);
                    }
                } else {
                    assert(to[k - init.len()] == c);
                }
            } else {
                assert(r == init.push(s.last()));
                if k < init.len() {
                    assert(init[k] == c);
                    assert(init.contains(c));
                    if !to.contains(c) {
                        let j = choose|j: int| 0 <= j < s.drop_last().len() && s.drop_last()[j] == c;
                        assert(s[j] == c);
                    }
                } else {
                    assert(s[s.len() - 1] == c);
                }
            }
        }
    }
}

/// After replacing `from` by a text without it, `from` no longer occurs.
pub proof fn lemma_replace_char_removes(s: Seq<char>, from: char, to: Seq<char>)
    requires
        !to.contains(from),
    ensures
        !replace_char(s, from, to).contains(from),
    decreases s.len(),
{
    if s.len() > 0 {
        let init = replace_char(s.drop_last(), from, to);
        lemma_replace_char_removes(s.drop_last(), from, to);
        let r = replace_char(s, from, to);
        if r.contains(from) {
            let k = choose|k: int| 0 <= k < r.len() && r[k] == from;
            if s.last() == from {
                assert(r == init + to);
                if k < init.len() {
                    assert(init[k] == from);
                } else {
                    assert(to[k - init.len()] == from);
                }
            } else {
                assert(r == init.push(s.last()));
                if k < init.len() {
                    assert(init[k] == from);
                }
            }
        }
    }
}

} // verus!
