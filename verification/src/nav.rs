//! Cyclic list navigation that skips date headers.

use vstd::prelude::*;

verus! {

/// Position `k` steps after `start` in a cyclic list of `len` entries.
pub open spec fn fwd(start: int, k: int, len: int) -> int {
    (start + k) % len
}

/// Position `k` steps before `start` in a cyclic list of `len` entries.
pub open spec fn back(start: int, k: int, len: int) -> int {
    (start - k) % len
}

/// The first entry at or after `start + k` (cyclically, examining the
/// entries `k..len` steps away) that is not a header, or `start` when all are.
pub open spec fn free_fwd(hdr: Seq<bool>, start: int, k: int, len: int) -> int
    decreases len - k,
{
    if k >= len {
        start
    } else if !hdr[fwd(start, k, len)] {
        fwd(start, k, len)
    } else {
        free_fwd(hdr, start, k + 1, len)
    }
}

/// Like `free_fwd`, walking backwards.
pub open spec fn free_back(hdr: Seq<bool>, start: int, k: int, len: int) -> int
    decreases len - k,
{
    if k >= len {
        start
    } else if !hdr[back(start, k, len)] {
        back(start, k, len)
    } else {
        free_back(hdr, start, k + 1, len)
    }
}

/// Selection after moving down: wraps to the top, skips headers when they are given.
pub open spec fn next_spec(sel: Option<usize>, len: nat, hdr: Option<Seq<bool>>) -> Option<usize> {
    if len == 0 {
        sel
    } else {
        let start: int = match sel {
            Some(i) => (i + 1) % (len as int),
            None => 0,
        };
        match hdr {
            Some(h) => Some(free_fwd(h, start, 0, len as int) as usize),
            None => Some(start as usize),
        }
    }
}

/// Selection after moving up: wraps to the bottom, skips headers when they are given.
pub open spec fn prev_spec(sel: Option<usize>, len: nat, hdr: Option<Seq<bool>>) -> Option<usize> {
    if len == 0 {
        sel
    } else {
        let start: int = match sel {
            Some(i) => if i == 0 { len - 1 } else { i - 1 },
            None => 0,
        };
        match hdr {
            Some(h) => Some(free_back(h, start, 0, len as int) as usize),
            None => Some(start as usize),
        }
    }
}

proof fn lemma_free_fwd_range(hdr: Seq<bool>, start: int, k: int, len: int)
    requires
        0 <= start < len,
        0 <= k,
    ensures
        0 <= free_fwd(hdr, start, k, len) < len,
    decreases len - k,
{
    if k < len && hdr[fwd(start, k, len)] {
        lemma_free_fwd_range(hdr, start, k + 1, len);
    }
}

proof fn lemma_free_back_range(hdr: Seq<bool>, start: int, k: int, len: int)
    requires
        0 <= start < len,
        0 <= k,
    ensures
        0 <= free_back(hdr, start, k, len) < len,
    decreases len - k,
{
    if k < len && hdr[back(start, k, len)] {
        lemma_free_back_range(hdr, start, k + 1, len);
    }
}

/// Move the selection down one entry.
pub fn next(selected: Option<usize>, len: usize, headers: Option<&Vec<bool>>) -> (r: Option<usize>)
    requires
        headers matches Some(h) ==> h@.len() == len,
        selected matches Some(i) ==> i < usize::MAX,
    ensures
        r == next_spec(selected, len as nat, match headers { Some(h) => Some(h@), None => None }),
        len > 0 ==> (r matches Some(i) && i < len),
{
    if len == 0 {
        return selected;
    }
    let start: usize = match selected {
        Some(i) => (i + 1) % len,
        None => 0,
    };
    match headers {
        None => Some(start),
        Some(h) => {
            let mut k: usize = 0;
            let mut i: usize = start;
            proof { vstd::arithmetic::div_mod::lemma_small_mod(start as nat, len as nat); }
            while k < len
                invariant
                    h@.len() == len,
                    0 <= start < len,
                    k <= len,
                    i == fwd(start as int, k as int, len as int),
                    next_spec(selected, len as nat, match headers { Some(hh) => Some(hh@), None => None })
                        == Some(free_fwd(h@, start as int, 0, len as int) as usize),
                    free_fwd(h@, start as int, 0, len as int) == free_fwd(h@, start as int, k as int, len as int),
                decreases len - k,
            {
                assert(0 <= i < len) by (nonlinear_arith)
                    requires i == (start + k) % (len as int), len > 0;
                if !h[i] {
                    assert(free_fwd(h@, start as int, k as int, len as int) == i as int);
                    return Some(i);
                }
                assert((start + k + 1) % (len as int) == (i + 1) % (len as int)) by (nonlinear_arith)
                    requires i == (start + k) % (len as int), len > 0;
                proof {
                    if i + 1 < len {
                        vstd::arithmetic::div_mod::lemma_small_mod((i + 1) as nat, len as nat);
                    } else {
                        vstd::arithmetic::div_mod::lemma_mod_self_0(len as int);
                    }
                }
                i = if i + 1 == len { 0 } else { i + 1 };
                k = k + 1;
            }
            Some(start)
        },
    }
}

/// Move the selection up one entry.
pub fn prev(selected: Option<usize>, len: usize, headers: Option<&Vec<bool>>) -> (r: Option<usize>)
    requires
        headers matches Some(h) ==> h@.len() == len && (len > 0 ==> (selected matches Some(i) ==> i <= len)),
    ensures
        r == prev_spec(selected, len as nat, match headers { Some(h) => Some(h@), None => None }),
        len > 0 ==> r is Some,
        len > 0 && (selected matches Some(i) ==> i <= len) ==> (r matches Some(i) && i < len),
{
    if len == 0 {
        return selected;
    }
    let start: usize = match selected {
        Some(i) => if i == 0 { len - 1 } else { i - 1 },
        None => 0,
    };
    match headers {
        None => {
            // a stale selection beyond the end stays beyond it, as with a list widget
            Some(start)
        },
        Some(h) => {
            let mut k: usize = 0;
            let mut i: usize = start;
            proof { vstd::arithmetic::div_mod::lemma_small_mod(start as nat, len as nat); }
            while k < len
                invariant
                    h@.len() == len,
                    0 <= start < len,
                    k <= len,
                    i == back(start as int, k as int, len as int),
                    prev_spec(selected, len as nat, match headers { Some(hh) => Some(hh@), None => None })
                        == Some(free_back(h@, start as int, 0, len as int) as usize),
                    free_back(h@, start as int, 0, len as int) == free_back(h@, start as int, k as int, len as int),
                decreases len - k,
            {
                assert(0 <= i < len) by (nonlinear_arith)
                    requires i == (start - k) % (len as int), len > 0;
                if !h[i] {
                    assert(free_back(h@, start as int, k as int, len as int) == i as int);
                    return Some(i);
                }
                assert((start - (k + 1)) % (len as int) == (if i == 0 { len - 1 } else { i - 1 }) as int) by (nonlinear_arith)
                    requires i == (start - k) % (len as int), len > 0, 0 <= i < len;
                i = if i == 0 { len - 1 } else { i - 1 };
                k = k + 1;
            }
            Some(start)
        },
    }
}

/// Moving down and then up returns to the entry one started from, in a list
/// without headers.
pub proof fn law_prev_undoes_next(i: usize, len: usize)
    requires
        i < len,
    ensures
        prev_spec(next_spec(Some(i), len as nat, None), len as nat, None) == Some(i),
{
    if i + 1 < len {
        vstd::arithmetic::div_mod::lemma_small_mod((i + 1) as nat, len as nat);
    } else {
        vstd::arithmetic::div_mod::lemma_mod_self_0(len as int);
    }
}

/// Moving up and then down returns to the entry one started from, in a list
/// without headers.
pub proof fn law_next_undoes_prev(i: usize, len: usize)
    requires
        i < len,
    ensures
        next_spec(prev_spec(Some(i), len as nat, None), len as nat, None) == Some(i),
{
    if i == 0 {
        vstd::arithmetic::div_mod::lemma_mod_self_0(len as int);
    } else {
        vstd::arithmetic::div_mod::lemma_small_mod(i as nat, len as nat);
    }
}

proof fn lemma_fwd_covers(start: int, j: int, len: int) -> (k: int)
    requires
        0 <= start < len,
        0 <= j < len,
    ensures
        0 <= k < len,
        fwd(start, k, len) == j,
{
    let k = if j >= start { j - start } else { j + len - start };
    if j >= start {
        vstd::arithmetic::div_mod::lemma_small_mod(j as nat, len as nat);
    } else {
        vstd::arithmetic::div_mod::lemma_mod_add_multiples_vanish(j, len);
        vstd::arithmetic::div_mod::lemma_small_mod(j as nat, len as nat);
    }
    k
}

proof fn lemma_back_covers(start: int, j: int, len: int) -> (k: int)
    requires
        0 <= start < len,
        0 <= j < len,
    ensures
        0 <= k < len,
        back(start, k, len) == j,
{
    let k = if j <= start { start - j } else { start + len - j };
    if j <= start {
        vstd::arithmetic::div_mod::lemma_small_mod(j as nat, len as nat);
    } else {
        assert(start - k == j - len);
        vstd::arithmetic::div_mod::lemma_mod_sub_multiples_vanish(j, len);
        vstd::arithmetic::div_mod::lemma_small_mod(j as nat, len as nat);
    }
    k
}

proof fn lemma_free_fwd_lands(hdr: Seq<bool>, start: int, k0: int, kj: int, len: int)
    requires
        0 <= start < len,
        hdr.len() == len,
        0 <= k0 <= kj < len,
        !hdr[fwd(start, kj, len)],
    ensures
        !hdr[free_fwd(hdr, start, k0, len)],
    decreases kj - k0,
{
    if hdr[fwd(start, k0, len)] {
        assert(k0 != kj);
        lemma_free_fwd_lands(hdr, start, k0 + 1, kj, len);
    }
}

proof fn lemma_free_back_lands(hdr: Seq<bool>, start: int, k0: int, kj: int, len: int)
    requires
        0 <= start < len,
        hdr.len() == len,
        0 <= k0 <= kj < len,
        !hdr[back(start, kj, len)],
    ensures
        !hdr[free_back(hdr, start, k0, len)],
    decreases kj - k0,
{
    if hdr[back(start, k0, len)] {
        assert(k0 != kj);
        lemma_free_back_lands(hdr, start, k0 + 1, kj, len);
    }
}

/// When some entry is not a header, moving down or up lands on an entry
/// that is not a header.
pub proof fn law_moves_skip_headers(sel: Option<usize>, hdr: Seq<bool>, j: int)
    requires
        0 <= j < hdr.len(),
        !hdr[j],
        hdr.len() <= usize::MAX,
        sel matches Some(i) ==> i <= hdr.len(),
    ensures
        next_spec(sel, hdr.len(), Some(hdr)) matches Some(n) && n < hdr.len() && !hdr[n as int],
        prev_spec(sel, hdr.len(), Some(hdr)) matches Some(p) && p < hdr.len() && !hdr[p as int],
{
    let len = hdr.len() as int;
    let sf: int = match sel {
        Some(i) => (i + 1) % len,
        None => 0,
    };
    let sb: int = match sel {
        Some(i) => if i == 0 { len - 1 } else { i - 1 },
        None => 0,
    };
    match sel {
        Some(i) => {
            assert(0 <= sf < len) by (nonlinear_arith)
                requires sf == (i + 1) % len, len > 0;
        },
        None => {},
    }
    let kf = lemma_fwd_covers(sf, j, len);
    lemma_free_fwd_lands(hdr, sf, 0, kf, len);
    lemma_free_fwd_range(hdr, sf, 0, len);
    let kb = lemma_back_covers(sb, j, len);
    lemma_free_back_lands(hdr, sb, 0, kb, len);
    lemma_free_back_range(hdr, sb, 0, len);
}

proof fn lemma_mod_shift(a: int, b: int, c: int, len: int)
    requires
        len > 0,
        a % len == b % len,
    ensures
        (a + c) % len == (b + c) % len,
{
    vstd::arithmetic::div_mod::lemma_add_mod_noop(a, c, len);
    vstd::arithmetic::div_mod::lemma_add_mod_noop(b, c, len);
}

proof fn lemma_free_fwd_first(hdr: Seq<bool>, start: int, k0: int, kt: int, len: int) -> (k: int)
    requires
        0 <= start < len,
        hdr.len() == len,
        0 <= k0 <= kt < len,
        !hdr[fwd(start, kt, len)],
    ensures
        k0 <= k <= kt,
        free_fwd(hdr, start, k0, len) == fwd(start, k, len),
        !hdr[fwd(start, k, len)],
        forall|m: int| k0 <= m < k ==> hdr[#[trigger] fwd(start, m, len)],
    decreases kt - k0,
{
    if !hdr[fwd(start, k0, len)] {
        k0
    } else {
        lemma_free_fwd_first(hdr, start, k0 + 1, kt, len)
    }
}

proof fn lemma_free_back_is(hdr: Seq<bool>, start: int, k0: int, kt: int, len: int)
    requires
        hdr.len() == len,
        0 <= k0 <= kt < len,
        !hdr[back(start, kt, len)],
        forall|m: int| k0 <= m < kt ==> hdr[#[trigger] back(start, m, len)],
    ensures
        free_back(hdr, start, k0, len) == back(start, kt, len),
    decreases kt - k0,
{
    if k0 < kt {
        assert(hdr[back(start, k0, len)]);
        lemma_free_back_is(hdr, start, k0 + 1, kt, len);
    }
}

/// Moving down and then up returns to the entry one started from, also in a
/// list with headers, when that entry is not a header.
pub proof fn law_prev_undoes_next_with_headers(i: usize, hdr: Seq<bool>)
    requires
        i < hdr.len() <= usize::MAX,
        !hdr[i as int],
    ensures
        prev_spec(next_spec(Some(i), hdr.len(), Some(hdr)), hdr.len(), Some(hdr)) == Some(i),
{
    let len = hdr.len() as int;
    let sf = (i + 1) % len;
    assert(0 <= sf < len) by (nonlinear_arith)
        requires sf == (i + 1) % len, len > 0;
    // the start entry itself is reached after len - 1 steps
    assert(fwd(sf, len - 1, len) == i) by {
        vstd::arithmetic::div_mod::lemma_add_mod_noop(i + 1, len - 1, len);
        vstd::arithmetic::div_mod::lemma_mod_self_0(len);
        vstd::arithmetic::div_mod::lemma_small_mod((len - 1) as nat, len as nat);
        vstd::arithmetic::div_mod::lemma_mod_add_multiples_vanish(i as int, len);
        vstd::arithmetic::div_mod::lemma_small_mod(i as nat, len as nat);
        assert((i + 1) + (len - 1) == i + len);
    }
    let kn = lemma_free_fwd_first(hdr, sf, 0, len - 1, len);
    let n = fwd(sf, kn, len);
    lemma_free_fwd_range(hdr, sf, 0, len);
    assert(next_spec(Some(i), hdr.len(), Some(hdr)) == Some(n as usize));
    let sb: int = if n == 0 { len - 1 } else { n - 1 };
    assert(0 <= sb < len);
    // walking back from n - 1 retraces the forward walk
    assert(sb % len == (n - 1) % len) by {
        vstd::arithmetic::div_mod::lemma_small_mod(sb as nat, len as nat);
        if n == 0 {
            vstd::arithmetic::div_mod::lemma_mod_add_multiples_vanish(-1, len);
            vstd::arithmetic::div_mod::lemma_small_mod((len - 1) as nat, len as nat);
        } else {
            vstd::arithmetic::div_mod::lemma_small_mod((n - 1) as nat, len as nat);
        }
    }
    assert(n % len == (sf + kn) % len) by {
        vstd::arithmetic::div_mod::lemma_mod_twice(sf + kn, len);
    }
    assert forall|m: int| 0 <= m <= kn implies #[trigger] back(sb, m, len) == fwd(sf, kn - 1 - m, len) by {
        lemma_mod_shift(sb, n - 1, -m, len);
        lemma_mod_shift(n, sf + kn, -1 - m, len);
        assert(sb + -m == sb - m);
        assert(n - 1 + -m == n + (-1 - m));
        assert(sf + kn + (-1 - m) == sf + (kn - 1 - m));
    }
    assert(back(sb, kn, len) == i) by {
        assert(back(sb, kn, len) == fwd(sf, -1, len));
        assert(sf % len == (i + 1) % len) by {
            vstd::arithmetic::div_mod::lemma_mod_twice(i + 1, len);
        }
        lemma_mod_shift(sf, i + 1, -1, len);
        vstd::arithmetic::div_mod::lemma_small_mod(i as nat, len as nat);
    }
    assert forall|m: int| 0 <= m < kn implies hdr[#[trigger] back(sb, m, len)] by {
        assert(back(sb, m, len) == fwd(sf, kn - 1 - m, len));
        assert(hdr[fwd(sf, kn - 1 - m, len)]);
    }
    lemma_free_back_is(hdr, sb, 0, kn, len);
}


/// Where a move lands: inside a non-empty list (moving up from a selection
/// past its end can leave it), and nowhere new in an empty one.
pub proof fn lemma_move_range(sel: Option<usize>, len: nat, hdr: Option<Seq<bool>>)
    requires
        sel matches Some(i) ==> i < usize::MAX,
        len <= usize::MAX,
    ensures
        len == 0 ==> next_spec(sel, len, hdr) == sel && prev_spec(sel, len, hdr) == sel,
        len > 0 ==> (next_spec(sel, len, hdr) matches Some(n) && n < len),
        len > 0 && (sel matches Some(i) ==> i <= len) ==> (prev_spec(sel, len, hdr) matches Some(p) && p < len),
        len > 0 && hdr is None ==> (prev_spec(sel, len, hdr) matches Some(p) && p < usize::MAX),
{
    if len > 0 {
        let start: int = match sel {
            Some(i) => (i + 1) % (len as int),
            None => 0,
        };
        if let Some(h) = hdr {
            lemma_free_fwd_range(h, start, 0, len as int);
        }
        if sel matches Some(i) ==> i <= len {
            let b: int = match sel {
                Some(i) => if i == 0 { len - 1 } else { i - 1 },
                None => 0,
            };
            if let Some(h) = hdr {
                lemma_free_back_range(h, b, 0, len as int);
            }
        }
    }
}

} // verus!
