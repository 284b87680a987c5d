//! Character-level string helpers with exact specifications.

use vstd::prelude::*;
use vstd::string::StringSliceAdditionalSpecFns;

verus! {

/// `p` is a prefix of `s`.
pub open spec fn has_prefix(s: Seq<char>, p: Seq<char>) -> bool {
    p.len() <= s.len() && s.subrange(0, p.len() as int) == p
}

/// `p` is a suffix of `s`.
pub open spec fn has_suffix(s: Seq<char>, p: Seq<char>) -> bool {
    p.len() <= s.len() && s.subrange(s.len() - p.len(), s.len() as int) == p
}

/// `p` occurs in `s` starting at position `i`.
pub open spec fn occurs_at(s: Seq<char>, p: Seq<char>, i: int) -> bool {
    0 <= i && i + p.len() <= s.len() && s.subrange(i, i + p.len()) == p
}

/// `p` occurs somewhere in `s`.
pub open spec fn has_substring(s: Seq<char>, p: Seq<char>) -> bool {
    exists|i: int| occurs_at(s, p, i)
}

/// Equality of two string slices, character by character.
pub fn str_eq(a: &str, b: &str) -> (r: bool)
    ensures
        r == (a@ == b@),
{
    let n = a.unicode_len();
    let m = b.unicode_len();
    if n != m {
        return false;
    }
    let mut i: usize = 0;
    while i < n
        invariant
            n == a@.len(),
            m == b@.len(),
            n == m,
            i <= n,
            forall|j: int| 0 <= j < i ==> a@[j] == b@[j],
        decreases n - i,
    {
        if a.get_char(i) != b.get_char(i) {
            return false;
        }
        i = i + 1;
    }
    assert(a@ =~= b@);
    true
}

/// Whether `p` occurs in `s` at character position `i`.
pub fn matches_at(s: &str, p: &str, i: usize) -> (r: bool)
    ensures
        r == occurs_at(s@, p@, i as int),
{
    let n = s.unicode_len();
    let m = p.unicode_len();
    if i > n || m > n - i {
        return false;
    }
    let mut j: usize = 0;
    while j < m
        invariant
            n == s@.len(),
            m == p@.len(),
            i + m <= n,
            j <= m,
            forall|k: int| 0 <= k < j ==> s@[i + k] == p@[k],
        decreases m - j,
    {
        if s.get_char(i + j) != p.get_char(j) {
            assert(s@.subrange(i as int, i + m)[j as int] != p@[j as int]);
            return false;
        }
        j = j + 1;
    }
    assert(s@.subrange(i as int, i + m) =~= p@);
    true
}

/// `s.starts_with(p)`.
pub fn starts_with(s: &str, p: &str) -> (r: bool)
    ensures
        r == has_prefix(s@, p@),
{
    matches_at(s, p, 0)
}

/// `s.ends_with(p)`.
pub fn ends_with(s: &str, p: &str) -> (r: bool)
    ensures
        r == has_suffix(s@, p@),
{
    let n = s.unicode_len();
    let m = p.unicode_len();
    if m > n {
        return false;
    }
    matches_at(s, p, n - m)
}

/// First character position at which `p` occurs in `s`, if any.
pub fn find(s: &str, p: &str) -> (r: Option<usize>)
    ensures
        match r {
            Some(i) => occurs_at(s@, p@, i as int) && forall|j: int| 0 <= j < i ==> !occurs_at(s@, p@, j),
            None => !has_substring(s@, p@),
        },
{
    let n = s.unicode_len();
    let m = p.unicode_len();
    if m > n {
        return None;
    }
    let last = n - m;
    let mut i: usize = 0;
    loop
        invariant
            n == s@.len(),
            m == p@.len(),
            m <= n,
            last == n - m,
            i <= last,
            forall|j: int| 0 <= j < i ==> !occurs_at(s@, p@, j),
        ensures
            forall|j: int| 0 <= j <= last ==> !occurs_at(s@, p@, j),
        decreases last - i,
    {
        if matches_at(s, p, i) {
            return Some(i);
        }
        if i == last {
            break;
        }
        i = i + 1;
    }
    assert forall|j: int| !occurs_at(s@, p@, j) by {
        if 0 <= j <= last {
        }
    }
    None
}

/// `s.contains(p)`.
pub fn contains(s: &str, p: &str) -> (r: bool)
    ensures
        r == has_substring(s@, p@),
{
    find(s, p).is_some()
}

/// `s` with every leading repetition of `p` removed (`str::trim_start_matches`).
pub open spec fn strip_all(s: Seq<char>, p: Seq<char>) -> Seq<char>
    decreases s.len(),
{
    if p.len() > 0 && has_prefix(s, p) {
        strip_all(s.subrange(p.len() as int, s.len() as int), p)
    } else {
        s
    }
}

/// `s` with every occurrence of `p` removed, the occurrences taken from the
/// left without overlapping (`s.replace(p, "")`).
pub open spec fn remove_all_spec(s: Seq<char>, p: Seq<char>) -> Seq<char>
    decreases s.len(),
{
    if p.len() == 0 || s.len() == 0 {
        s
    } else if has_prefix(s, p) {
        remove_all_spec(s.subrange(p.len() as int, s.len() as int), p)
    } else {
        seq![s[0]] + remove_all_spec(s.drop_first(), p)
    }
}

/// `s.replace(p, "")`.
pub fn remove_all(s: &str, p: &str) -> (r: String)
    ensures
        r@ == remove_all_spec(s@, p@),
{
    let n = s.unicode_len();
    let m = p.unicode_len();
    let mut out = String::new();
    if m == 0 {
        out.append(s);
        return out;
    }
    let mut i: usize = 0;
    assert(s@.subrange(0, n as int) =~= s@);
    while i < n
        invariant
            n == s@.len(),
            m == p@.len(),
            m > 0,
            i <= n,
            remove_all_spec(s@, p@) == out@ + remove_all_spec(s@.subrange(i as int, n as int), p@),
        decreases n - i,
    {
        let ghost t = s@.subrange(i as int, n as int);
        if m <= n - i && matches_at(s, p, i) {
            assert(t.subrange(0, m as int) =~= s@.subrange(i as int, i + m));
            assert(t.subrange(m as int, t.len() as int) =~= s@.subrange(i + m, n as int));
            i = i + m;
        } else {
            proof {
                if has_prefix(t, p@) {
                    assert(t.subrange(0, m as int) =~= s@.subrange(i as int, i + m));
                }
                assert(t.drop_first() =~= s@.subrange(i + 1, n as int));
            }
            let c = s.get_char(i);
            let piece = char_text(c);
            out.append(piece.as_str());
            i = i + 1;
            assert(out@ + remove_all_spec(s@.subrange(i as int, n as int), p@)
                =~= (out@.drop_last() + seq![c]) + remove_all_spec(t.drop_first(), p@));
        }
    }
    assert(s@.subrange(n as int, n as int) =~= Seq::<char>::empty());
    assert(out@ + Seq::<char>::empty() =~= out@);
    out
}

/// The text made of the first `n` bytes of the UTF-8 encoding of `s` (all of
/// it when it is shorter): what `&s[..n.min(s.len())]` gives.
pub open spec fn byte_prefix(s: Seq<char>, n: nat) -> Seq<char> {
    let b = vstd::utf8::encode_utf8(s);
    vstd::utf8::decode_utf8(b.subrange(0, if n < b.len() { n as int } else { b.len() as int }))
}

/// Whether `byte_prefix(s, n)` cuts the encoding of `s` (whose length, like
/// that of every string in memory, fits in a `usize`) at a character boundary.
pub open spec fn prefix_at_boundary(s: Seq<char>, n: nat) -> bool {
    let b = vstd::utf8::encode_utf8(s);
    b.len() <= usize::MAX
        && vstd::utf8::is_char_boundary(b, if n < b.len() { n as int } else { b.len() as int })
}

/// `s.trim_start_matches(p)`.
pub fn trim_start_matches<'a>(s: &'a str, p: &str) -> (r: &'a str)
    ensures
        r@ == strip_all(s@, p@),
{
    let n = s.unicode_len();
    let m = p.unicode_len();
    if m == 0 {
        let r = s.substring_char(0, n);
        assert(r@ =~= s@);
        return r;
    }
    let mut i: usize = 0;
    assert(s@.subrange(0, n as int) =~= s@);
    while i <= n && m <= n - i && matches_at(s, p, i)
        invariant
            n == s@.len(),
            m == p@.len(),
            m > 0,
            i <= n,
            strip_all(s@, p@) == strip_all(s@.subrange(i as int, n as int), p@),
        decreases n - i,
    {
        let ghost t = s@.subrange(i as int, n as int);
        assert(t.subrange(0, m as int) =~= p@);
        assert(t.subrange(m as int, t.len() as int) =~= s@.subrange(i + m, n as int));
        i = i + m;
    }
    let r = s.substring_char(i, n);
    proof {
        let t = s@.subrange(i as int, n as int);
        if has_prefix(t, p@) {
            assert(t.subrange(0, m as int) =~= s@.subrange(i as int, i + m));
        }
    }
    r
}

/// `&s[..n.min(s.len())]`: the first `n` bytes of `s`.
pub fn prefix_bytes(s: &str, n: usize) -> (r: &str)
    requires
        prefix_at_boundary(s@, n as nat),
    ensures
        r@ == byte_prefix(s@, n as nat),
{
    let len = s.len();
    assert(len == s.spec_bytes().len());
    let k = if n < len { n } else { len };
    let (a, _b) = s.split_at(k);
    proof {
        vstd::utf8::encode_utf8_decode_utf8(a@);
    }
    a
}


/// Length in bytes of the UTF-8 encoding of `s`.
pub open spec fn utf8_len(s: Seq<char>) -> nat {
    vstd::utf8::encode_utf8(s).len()
}

/// The text held by bytes `a..b` of the UTF-8 encoding of `s`.
pub open spec fn bytes_text(s: Seq<char>, a: int, b: int) -> Seq<char> {
    vstd::utf8::decode_utf8(vstd::utf8::encode_utf8(s).subrange(a, b))
}

/// Whether `&s[a..b]` can be taken: the bounds are in order, within the
/// encoding, and on character boundaries.
pub open spec fn can_slice(s: Seq<char>, a: int, b: int) -> bool {
    let e = vstd::utf8::encode_utf8(s);
    &&& 0 <= a <= b <= e.len()
    &&& vstd::utf8::is_char_boundary(e, a)
    &&& vstd::utf8::is_char_boundary(e, b)
}

proof fn lemma_boundary_shift(e: Seq<u8>, a: int, k: int)
    requires
        vstd::utf8::valid_utf8(e),
        vstd::utf8::is_char_boundary(e, a),
        0 <= a,
        0 <= k,
        a + k <= e.len(),
    ensures
        vstd::utf8::valid_utf8(e.subrange(a, e.len() as int)),
        vstd::utf8::is_char_boundary(e.subrange(a, e.len() as int), k) == vstd::utf8::is_char_boundary(e, a + k),
{
    let r = e.subrange(a, e.len() as int);
    vstd::utf8::valid_utf8_split(e, a);
    if k == 0 {
    } else if k == r.len() {
        vstd::utf8::is_char_boundary_start_end_of_seq(r);
        vstd::utf8::is_char_boundary_start_end_of_seq(e);
    } else {
        vstd::utf8::is_char_boundary_iff_not_is_continuation_byte(r, k);
        vstd::utf8::is_char_boundary_iff_not_is_continuation_byte(e, a + k);
        assert(r[k] == e[a + k]);
    }
}

/// `&s[a..b]`.
pub fn slice_bytes(s: &str, a: usize, b: usize) -> (r: &str)
    requires
        can_slice(s@, a as int, b as int),
    ensures
        r@ == bytes_text(s@, a as int, b as int),
{
    let ghost e = vstd::utf8::encode_utf8(s@);
    proof {
        vstd::utf8::encode_utf8_valid_utf8(s@);
        lemma_boundary_shift(e, a as int, (b - a) as int);
    }
    let (_x, rest) = s.split_at(a);
    let (m, _y) = rest.split_at(b - a);
    proof {
        assert(m.spec_bytes() =~= e.subrange(a as int, b as int));
        vstd::utf8::encode_utf8_decode_utf8(m@);
    }
    m
}

/// The first `n` bytes of `s` (all of it when it is shorter), when that cut
/// falls on a character boundary: `&s[..n.min(s.len())]` where it does not
/// panic.
pub fn head_bytes(s: &str, n: usize) -> (r: Option<&str>)
    ensures
        prefix_at_boundary(s@, n as nat) ==> (r matches Some(t) && t@ == byte_prefix(s@, n as nat)),
        !prefix_at_boundary(s@, n as nat) ==> r is None,
{
    let len = s.as_bytes().len();
    let k = if n < len { n } else { len };
    proof {
        vstd::utf8::encode_utf8_valid_utf8(s@);
    }
    if s.is_char_boundary(k) {
        Some(prefix_bytes(s, n))
    } else {
        None
    }
}

/// `s.get(a..b)`: the slice when it can be taken.
pub fn try_slice(s: &str, a: usize, b: usize) -> (r: Option<&str>)
    ensures
        can_slice(s@, a as int, b as int) ==> (r matches Some(t) && t@ == bytes_text(s@, a as int, b as int)),
        !can_slice(s@, a as int, b as int) ==> r is None,
{
    proof {
        vstd::utf8::encode_utf8_valid_utf8(s@);
    }
    if a <= b && s.is_char_boundary(a) && s.is_char_boundary(b) {
        Some(slice_bytes(s, a, b))
    } else {
        None
    }
}

/// Whether every character of `s` is ASCII.
pub open spec fn is_ascii_text(s: Seq<char>) -> bool {
    forall|i: int| 0 <= i < s.len() ==> (s[i] as u32) < 128
}

/// The ASCII lowercase of `c`: `A` to `Z` become `a` to `z`, every other
/// character stays.
pub open spec fn ascii_lower(c: char) -> char {
    if 'A' <= c && c <= 'Z' { ((c as u32) + 32) as char } else { c }
}

/// The ASCII uppercase of `c`: `a` to `z` become `A` to `Z`, every other
/// character stays.
pub open spec fn ascii_upper(c: char) -> char {
    if 'a' <= c && c <= 'z' { ((c as u32) - 32) as char } else { c }
}

/// `s.to_lowercase()`: every character by its Unicode lowercase mapping.
pub uninterp spec fn lowercase(s: Seq<char>) -> Seq<char>;

/// `str::to_lowercase`; the contract names its result, and states what the
/// documentation gives of ASCII text: each letter mapped one to one, every
/// other character kept. Of other characters it states nothing.
#[verifier::external_body]
pub(crate) fn to_lowercase(s: &str) -> (r: String)
    ensures
        r@ == lowercase(s@),
        is_ascii_text(s@) ==> r@ == s@.map_values(|c: char| ascii_lower(c)),
{
    s.to_lowercase()
}

/// `s.to_uppercase()`: every character by its Unicode uppercase mapping.
pub uninterp spec fn uppercase(s: Seq<char>) -> Seq<char>;

/// `str::to_uppercase`; the contract names its result, and states what the
/// documentation gives of ASCII text: each letter mapped one to one, every
/// other character kept. Of other characters it states nothing.
#[verifier::external_body]
pub(crate) fn to_uppercase(s: &str) -> (r: String)
    ensures
        r@ == uppercase(s@),
        is_ascii_text(s@) ==> r@ == s@.map_values(|c: char| ascii_upper(c)),
{
    s.to_uppercase()
}

/// `s` with every `from` replaced by `to`.
pub open spec fn replace_char_spec(s: Seq<char>, from: char, to: char) -> Seq<char> {
    s.map_values(|c: char| if c == from { to } else { c })
}

/// `s.replace(from, to)` for single characters.
pub fn replace_char(s: &str, from: char, to: char) -> (r: String)
    ensures
        r@ == replace_char_spec(s@, from, to),
{
    let n = s.unicode_len();
    let mut out = String::new();
    let mut i: usize = 0;
    while i < n
        invariant
            n == s@.len(),
            i <= n,
            out@ == replace_char_spec(s@, from, to).subrange(0, i as int),
        decreases n - i,
    {
        let c = s.get_char(i);
        let d = if c == from { to } else { c };
        let piece = char_text(d);
        out.append(piece.as_str());
        i = i + 1;
        assert(out@ =~= replace_char_spec(s@, from, to).subrange(0, i as int));
    }
    assert(replace_char_spec(s@, from, to).subrange(0, n as int) =~= replace_char_spec(s@, from, to));
    out
}

/// The one-character text `c`.
#[verifier::external_body]
pub(crate) fn char_text(c: char) -> (r: String)
    ensures
        r@ == seq![c],
{
    c.to_string()
}


/// `a` comes before `b` in dictionary order of characters (the order of
/// `String`, whose UTF-8 bytes compare as their characters do).
pub open spec fn lex_lt(a: Seq<char>, b: Seq<char>) -> bool
    decreases a.len(),
{
    if a.len() == 0 {
        b.len() > 0
    } else if b.len() == 0 {
        false
    } else if a[0] != b[0] {
        a[0] < b[0]
    } else {
        lex_lt(a.drop_first(), b.drop_first())
    }
}

/// Dictionary order is a strict total order.
pub proof fn lemma_lex_order(a: Seq<char>, b: Seq<char>, c: Seq<char>)
    ensures
        !(lex_lt(a, b) && lex_lt(b, a)),
        lex_lt(a, b) && lex_lt(b, c) ==> lex_lt(a, c),
        a != b ==> lex_lt(a, b) || lex_lt(b, a),
        !lex_lt(a, a),
    decreases a.len(),
{
    if a.len() > 0 && b.len() > 0 && c.len() > 0 {
        lemma_lex_order(a.drop_first(), b.drop_first(), c.drop_first());
    } else if a.len() > 0 && b.len() > 0 {
        lemma_lex_order(a.drop_first(), b.drop_first(), b.drop_first());
    }
    if a != b && a.len() > 0 && b.len() > 0 && a[0] == b[0] {
        assert(a.drop_first() != b.drop_first()) by {
            if a.drop_first() == b.drop_first() {
                assert(a =~= seq![a[0]] + a.drop_first());
                assert(b =~= seq![b[0]] + b.drop_first());
            }
        }
    }
    if a.len() == 0 && b.len() == 0 {
        assert(a =~= b);
    }
    lemma_lex_irreflexive(a);
}

proof fn lemma_lex_irreflexive(a: Seq<char>)
    ensures
        !lex_lt(a, a),
    decreases a.len(),
{
    if a.len() > 0 {
        lemma_lex_irreflexive(a.drop_first());
    }
}

/// Whether `a` comes before `b` in dictionary order.
pub fn lex_less(a: &str, b: &str) -> (r: bool)
    ensures
        r == lex_lt(a@, b@),
{
    let n = a.unicode_len();
    let m = b.unicode_len();
    let mut i: usize = 0;
    assert(a@.subrange(0, n as int) =~= a@);
    assert(b@.subrange(0, m as int) =~= b@);
    while i < n && i < m
        invariant
            n == a@.len(),
            m == b@.len(),
            i <= n,
            i <= m,
            lex_lt(a@, b@) == lex_lt(a@.subrange(i as int, n as int), b@.subrange(i as int, m as int)),
        decreases n - i,
    {
        let x = a.get_char(i);
        let y = b.get_char(i);
        let ghost sa = a@.subrange(i as int, n as int);
        let ghost sb = b@.subrange(i as int, m as int);
        assert(sa[0] == x && sb[0] == y);
        if x != y {
            return x < y;
        }
        assert(sa.drop_first() =~= a@.subrange(i + 1, n as int));
        assert(sb.drop_first() =~= b@.subrange(i + 1, m as int));
        i = i + 1;
    }
    i < m
}

} // verus!
