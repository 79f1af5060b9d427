//! Character-level text helpers shared by the parsers and formatters of the
//! library: Unicode whitespace trimming, searching, splitting and building
//! strings, each with a specification over `Seq<char>`.

use vstd::prelude::*;

verus! {

/// Unicode `White_Space` property, the set that `char::is_whitespace` tests.
pub open spec fn is_ws(c: char) -> bool {
    let u = c as u32;
    ||| 0x9 <= u <= 0xD
    ||| u == 0x20
    ||| u == 0x85
    ||| u == 0xA0
    ||| u == 0x1680
    ||| 0x2000 <= u <= 0x200A
    ||| u == 0x2028
    ||| u == 0x2029
    ||| u == 0x202F
    ||| u == 0x205F
    ||| u == 0x3000
}

/// Number of leading whitespace characters.
pub open spec fn lead_ws(s: Seq<char>) -> nat
    decreases s.len(),
{
    if s.len() > 0 && is_ws(s[0]) {
        1 + lead_ws(s.subrange(1, s.len() as int))
    } else {
        0
    }
}

/// Number of trailing whitespace characters.
pub open spec fn trail_ws(s: Seq<char>) -> nat
    decreases s.len(),
{
    if s.len() > 0 && is_ws(s.last()) {
        1 + trail_ws(s.drop_last())
    } else {
        0
    }
}

/// `s` without its leading whitespace.
pub open spec fn trim_start_seq(s: Seq<char>) -> Seq<char> {
    s.subrange(lead_ws(s) as int, s.len() as int)
}

/// `s` without leading and trailing whitespace (what `str::trim` returns).
pub open spec fn trim_seq(s: Seq<char>) -> Seq<char> {
    let t = trim_start_seq(s);
    t.subrange(0, t.len() - trail_ws(t))
}

/// True when `needle` occurs in `hay` at position `i`.
pub open spec fn occurs_at(hay: Seq<char>, needle: Seq<char>, i: int) -> bool {
    0 <= i && i + needle.len() <= hay.len() && hay.subrange(i, i + needle.len()) == needle
}

/// True when `needle` occurs somewhere in `hay`.
pub open spec fn contains_seq(hay: Seq<char>, needle: Seq<char>) -> bool {
    exists|i: int| occurs_at(hay, needle, i)
}

/// Index of the first `c` in `s`, or the length of `s` when there is none.
pub open spec fn first_index(s: Seq<char>, c: char) -> nat
    decreases s.len(),
{
    if s.len() == 0 {
        0
    } else if s[0] == c {
        0
    } else {
        1 + first_index(s.subrange(1, s.len() as int), c)
    }
}

/// `str::split_once` on a character: the text before and after the first
/// `c`, or `None` when `c` does not occur.
pub open spec fn split_once_seq(s: Seq<char>, c: char) -> Option<(Seq<char>, Seq<char>)> {
    let i = first_index(s, c);
    if i < s.len() {
        Some((s.subrange(0, i as int), s.subrange(i as int + 1, s.len() as int)))
    } else {
        None
    }
}

/// Characterises `first_index` by a position before which `c` does not
/// occur and at which it does (or the end).
pub proof fn lemma_first_index_is(s: Seq<char>, c: char, k: int)
    requires
        0 <= k <= s.len(),
        forall|j: int| 0 <= j < k ==> s[j] != c,
        k < s.len() ==> s[k] == c,
    ensures
        first_index(s, c) == k,
    decreases s.len(),
{
    if s.len() > 0 && s[0] != c {
        let t = s.subrange(1, s.len() as int);
        assert forall|j: int| 0 <= j < k - 1 implies t[j] != c by {
            assert(t[j] == s[j + 1]);
        }
        if k - 1 < t.len() {
            assert(t[k - 1] == s[k]);
        }
        lemma_first_index_is(t, c, k - 1);
    }
}

proof fn lemma_lead_ws_bound(s: Seq<char>)
    ensures
        lead_ws(s) <= s.len(),
        forall|j: int| 0 <= j < lead_ws(s) ==> is_ws(#[trigger] s[j]),
        lead_ws(s) < s.len() ==> !is_ws(s[lead_ws(s) as int]),
    decreases s.len(),
{
    if s.len() > 0 && is_ws(s[0]) {
        let t = s.subrange(1, s.len() as int);
        lemma_lead_ws_bound(t);
        assert forall|j: int| 0 <= j < lead_ws(s) implies is_ws(#[trigger] s[j]) by {
            if j > 0 {
                assert(s[j] == t[j - 1]);
            }
        }
        if lead_ws(s) < s.len() {
            assert(s[lead_ws(s) as int] == t[lead_ws(t) as int]);
        }
    }
}

proof fn lemma_trail_ws_bound(s: Seq<char>)
    ensures
        trail_ws(s) <= s.len(),
        forall|j: int| s.len() - trail_ws(s) <= j < s.len() ==> is_ws(#[trigger] s[j]),
        trail_ws(s) < s.len() ==> !is_ws(s[s.len() - trail_ws(s) - 1]),
    decreases s.len(),
{
    if s.len() > 0 && is_ws(s.last()) {
        let t = s.drop_last();
        lemma_trail_ws_bound(t);
        assert forall|j: int| s.len() - trail_ws(s) <= j < s.len() implies is_ws(#[trigger] s[j]) by {
            if j < s.len() - 1 {
                assert(s[j] == t[j]);
            }
        }
        if trail_ws(s) < s.len() {
            assert(s[s.len() - trail_ws(s) - 1] == t[t.len() - trail_ws(t) - 1]);
        }
    }
}

/// Characterises `lead_ws` by the index of the first non-whitespace character.
proof fn lemma_lead_ws_is(s: Seq<char>, k: int)
    requires
        0 <= k <= s.len(),
        forall|j: int| 0 <= j < k ==> is_ws(#[trigger] s[j]),
        k < s.len() ==> !is_ws(s[k]),
    ensures
        lead_ws(s) == k,
{
    lemma_lead_ws_bound(s);
    if lead_ws(s) < k {
        assert(is_ws(s[lead_ws(s) as int]));
    }
    if lead_ws(s) > k {
        assert(is_ws(s[k]));
    }
}

/// Characterises `trail_ws` by the index after the last non-whitespace character.
proof fn lemma_trail_ws_is(s: Seq<char>, e: int)
    requires
        0 <= e <= s.len(),
        forall|j: int| e <= j < s.len() ==> is_ws(#[trigger] s[j]),
        e > 0 ==> !is_ws(s[e - 1]),
    ensures
        trail_ws(s) == s.len() - e,
{
    lemma_trail_ws_bound(s);
    let t = s.len() - trail_ws(s);
    if t > e {
        assert(is_ws(s[t - 1]));
    }
    if t < e {
        assert(is_ws(s[e - 1]));
    }
}

/// A text without any whitespace is its own trimmed form.
pub proof fn lemma_trim_without_whitespace(s: Seq<char>)
    requires
        forall|j: int| 0 <= j < s.len() ==> !is_ws(#[trigger] s[j]),
    ensures
        trim_seq(s) == s,
{
    lemma_lead_ws_is(s, 0);
    let t = trim_start_seq(s);
    assert(t =~= s);
    lemma_trail_ws_is(t, t.len() as int);
    assert(t.subrange(0, t.len() as int) =~= t);
}

/// Whitespace test on a single character (`char::is_whitespace`).
pub fn char_is_ws(c: char) -> (r: bool)
    ensures
        r == is_ws(c),
{
    let u = c as u32;
    (0x9 <= u && u <= 0xD) || u == 0x20 || u == 0x85 || u == 0xA0 || u == 0x1680 || (0x2000 <= u
        && u <= 0x200A) || u == 0x2028 || u == 0x2029 || u == 0x202F || u == 0x205F || u == 0x3000
}

/// The characters of a string slice, in order.
pub fn chars_of(s: &str) -> (r: Vec<char>)
    ensures
        r@ == s@,
{
    let mut out: Vec<char> = Vec::new();
    for c in it: s.chars()
        invariant
            out@ == it.seq().take(it.index() as int),
            it.seq() == s@,
    {
        out.push(c);
    }
    out
}

/// Appends one character to a string (`String::push`).
#[verifier::external_body]
pub(crate) fn push_char(s: &mut String, c: char)
    ensures
        final(s)@ == old(s)@.push(c),
{
    s.push(c);
}

/// Appends a string slice to a string (`String::push_str`).
#[verifier::external_body]
pub(crate) fn push_str(s: &mut String, t: &str)
    ensures
        final(s)@ == old(s)@ + t@,
{
    s.push_str(t);
}

/// Builds a string from the characters `cs[from..to]`.
pub fn string_from_chars(cs: &Vec<char>, from: usize, to: usize) -> (r: String)
    requires
        from <= to <= cs@.len(),
    ensures
        r@ == cs@.subrange(from as int, to as int),
{
    let mut out = String::new();
    let mut i = from;
    while i < to
        invariant
            from <= i <= to <= cs@.len(),
            out@ == cs@.subrange(from as int, i as int),
        decreases to - i,
    {
        push_char(&mut out, cs[i]);
        assert(cs@.subrange(from as int, i + 1) == cs@.subrange(from as int, i as int).push(cs@[i as int]));
        i += 1;
    }
    out
}

/// Copies a string slice into an owned string.
pub fn owned(s: &str) -> (r: String)
    ensures
        r@ == s@,
{
    let mut out = String::new();
    push_str(&mut out, s);
    assert(out@ == Seq::<char>::empty() + s@);
    out
}

/// Indices `(start, end)` of the trimmed part of `cs`.
pub fn trim_bounds(cs: &Vec<char>) -> (r: (usize, usize))
    ensures
        r.0 <= r.1 <= cs@.len(),
        cs@.subrange(r.0 as int, r.1 as int) == trim_seq(cs@),
{
    let n = cs.len();
    let mut i: usize = 0;
    while i < n && char_is_ws(cs[i])
        invariant
            i <= n == cs@.len(),
            forall|j: int| 0 <= j < i ==> is_ws(#[trigger] cs@[j]),
        decreases n - i,
    {
        i += 1;
    }
    proof {
        lemma_lead_ws_is(cs@, i as int);
    }
    let mut e: usize = n;
    while e > i && char_is_ws(cs[e - 1])
        invariant
            i <= e <= n == cs@.len(),
            forall|j: int| e <= j < n ==> is_ws(#[trigger] cs@[j]),
        decreases e,
    {
        e -= 1;
    }
    proof {
        let t = trim_start_seq(cs@);
        assert(t == cs@.subrange(i as int, n as int));
        lemma_trail_ws_is(t, e - i);
        assert(t.subrange(0, t.len() - trail_ws(t)) == cs@.subrange(i as int, e as int));
    }
    (i, e)
}

/// `str::trim` as an owned string.
pub fn trim(s: &str) -> (r: String)
    ensures
        r@ == trim_seq(s@),
{
    let cs = chars_of(s);
    let (a, b) = trim_bounds(&cs);
    string_from_chars(&cs, a, b)
}

/// Position of the first `c` in `cs`, if any.
pub fn find_char(cs: &Vec<char>, c: char) -> (r: Option<usize>)
    ensures
        match r {
            Some(i) => i < cs@.len() && cs@[i as int] == c && forall|j: int|
                0 <= j < i ==> cs@[j] != c,
            None => !cs@.contains(c),
        },
{
    let mut i: usize = 0;
    while i < cs.len()
        invariant
            i <= cs@.len(),
            forall|j: int| 0 <= j < i ==> cs@[j] != c,
        decreases cs@.len() - i,
    {
        if cs[i] == c {
            return Some(i);
        }
        i += 1;
    }
    None
}

/// `str::split_once` on a character, as owned strings.
pub fn split_once_char(s: &str, c: char) -> (r: Option<(String, String)>)
    ensures
        match split_once_seq(s@, c) {
            Some(p) => r matches Some(q) && q.0@ == p.0 && q.1@ == p.1,
            None => r is None,
        },
{
    let cs = chars_of(s);
    match find_char(&cs, c) {
        Some(i) => {
            proof {
                lemma_first_index_is(cs@, c, i as int);
            }
            assert(i < cs.len());
            let before = string_from_chars(&cs, 0, i);
            let after = string_from_chars(&cs, i + 1, cs.len());
            Some((before, after))
        },
        None => {
            proof {
                lemma_first_index_is(cs@, c, cs@.len() as int);
            }
            None
        },
    }
}

/// Whether `needle` occurs in `hay` (`str::contains` with a string pattern).
pub fn contains_chars(hay: &Vec<char>, needle: &Vec<char>) -> (r: bool)
    ensures
        r == contains_seq(hay@, needle@),
{
    let n = hay.len();
    let m = needle.len();
    if m > n {
        assert forall|i: int| !occurs_at(hay@, needle@, i) by {}
        return false;
    }
    if m == 0 {
        assert(hay@.subrange(0, 0) =~= needle@);
        assert(occurs_at(hay@, needle@, 0));
        return true;
    }
    let mut i: usize = 0;
    while m <= n - i
        invariant
            0 < m <= n,
            n == hay@.len(),
            m == needle@.len(),
            i <= n,
            forall|k: int| 0 <= k < i ==> !occurs_at(hay@, needle@, k),
        decreases n - i,
    {
        let mut j: usize = 0;
        let mut ok = true;
        while j < m
            invariant
                m <= n,
                n == hay@.len(),
                m == needle@.len(),
                i + m <= n,
                j <= m,
                ok ==> forall|t: int| 0 <= t < j ==> hay@[i + t] == needle@[t],
                !ok ==> !occurs_at(hay@, needle@, i as int),
            decreases m - j,
        {
            if ok && hay[i + j] != needle[j] {
                ok = false;
                assert(hay@.subrange(i as int, i + m)[j as int] != needle@[j as int]);
            }
            j += 1;
        }
        if ok {
            assert(hay@.subrange(i as int, i + m) =~= needle@);
            assert(occurs_at(hay@, needle@, i as int));
            return true;
        }
        i += 1;
    }
    proof {
        assert forall|k: int| !occurs_at(hay@, needle@, k) by {
            if 0 <= k && k + m <= n {
                assert(k < i);
            }
        }
    }
    false
}

/// `str::contains` on a string slice and a string slice pattern.
pub fn str_contains(hay: &str, needle: &str) -> (r: bool)
    ensures
        r == contains_seq(hay@, needle@),
{
    let h = chars_of(hay);
    let n = chars_of(needle);
    contains_chars(&h, &n)
}

/// `s` begins with `p`.
pub open spec fn has_prefix(s: Seq<char>, p: Seq<char>) -> bool {
    p.len() <= s.len() && s.subrange(0, p.len() as int) == p
}

/// `str::strip_prefix`: the rest of `s` after `p` when `s` begins with `p`.
pub open spec fn strip_prefix_seq(s: Seq<char>, p: Seq<char>) -> Option<Seq<char>> {
    if has_prefix(s, p) {
        Some(s.subrange(p.len() as int, s.len() as int))
    } else {
        None
    }
}

/// `str::strip_prefix` with a string pattern, as an owned string.
pub fn strip_prefix(s: &str, p: &str) -> (r: Option<String>)
    ensures
        match strip_prefix_seq(s@, p@) {
            Some(t) => r matches Some(u) && u@ == t,
            None => r is None,
        },
{
    let cs = chars_of(s);
    let ps = chars_of(p);
    if ps.len() > cs.len() {
        return None;
    }
    let mut i: usize = 0;
    while i < ps.len()
        invariant
            cs@ == s@,
            ps@ == p@,
            ps@.len() <= cs@.len(),
            i <= ps@.len(),
            forall|j: int| 0 <= j < i ==> cs@[j] == ps@[j],
        decreases ps@.len() - i,
    {
        if cs[i] != ps[i] {
            assert(cs@.subrange(0, ps@.len() as int)[i as int] != ps@[i as int]);
            return None;
        }
        i += 1;
    }
    assert(cs@.subrange(0, ps@.len() as int) =~= ps@);
    Some(string_from_chars(&cs, ps.len(), cs.len()))
}

/// Lower-case mapping of a string (`str::to_lowercase`), named by its result.
pub uninterp spec fn lowercase_of(s: Seq<char>) -> Seq<char>;

/// Upper-case mapping of a string (`str::to_uppercase`), named by its result.
pub uninterp spec fn uppercase_of(s: Seq<char>) -> Seq<char>;

/// `str::to_lowercase`: Unicode lower-case mapping, a function of the input
/// characters alone. The mapping tables are not restated here.
#[verifier::external_body]
pub(crate) fn to_lowercase(s: &str) -> (r: String)
    ensures
        r@ == lowercase_of(s@),
{
    s.to_lowercase()
}

/// `str::to_uppercase`: Unicode upper-case mapping, a function of the input
/// characters alone. The mapping tables are not restated here.
#[verifier::external_body]
pub(crate) fn to_uppercase(s: &str) -> (r: String)
    ensures
        r@ == uppercase_of(s@),
{
    s.to_uppercase()
}

} // verus!
