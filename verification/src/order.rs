//! Byte-string ordering.
//!
//! Every engine the adapter drives stores keys in lexicographic byte order.
//! This module defines that order for specifications, together with the
//! shortest strict upper bound of a prefix: the half-open window
//! `[p, upper)` holds exactly the keys that start with `p`, which lets the
//! adapter answer prefix queries through plain range queries.

use vstd::prelude::*;

verus! {

/// `k` starts with `p`.
pub open spec fn starts_with(k: Seq<u8>, p: Seq<u8>) -> bool {
    p.len() <= k.len() && k.take(p.len() as int) == p
}

/// Strict lexicographic order on byte strings: a proper prefix sorts first,
/// otherwise the first differing byte decides.
pub open spec fn lex_lt(a: Seq<u8>, b: Seq<u8>) -> bool
    decreases a.len(),
{
    if b.len() == 0 {
        false
    } else if a.len() == 0 {
        true
    } else if a.first() < b.first() {
        true
    } else if a.first() > b.first() {
        false
    } else {
        lex_lt(a.drop_first(), b.drop_first())
    }
}

/// Reflexive closure of `lex_lt`.
pub open spec fn lex_le(a: Seq<u8>, b: Seq<u8>) -> bool {
    lex_lt(a, b) || a == b
}

/// `u` is the shortest byte string strictly above every key that starts
/// with `p`: `p` with its trailing `0xff` run removed and the last remaining
/// byte incremented.
pub open spec fn is_prefix_upper_bound(p: Seq<u8>, u: Seq<u8>) -> bool {
    &&& 1 <= u.len() <= p.len()
    &&& u.take(u.len() - 1) == p.take(u.len() - 1)
    &&& p[u.len() - 1] < 0xff
    &&& u[u.len() - 1] == p[u.len() - 1] + 1
    &&& forall|i: int| u.len() <= i < p.len() ==> p[i] == 0xff
}

/// Two byte strings with equal first bytes and equal tails are equal.
proof fn lemma_head_tail_eq(a: Seq<u8>, b: Seq<u8>)
    requires
        a.len() >= 1,
        b.len() >= 1,
        a[0] == b[0],
        a.drop_first() == b.drop_first(),
    ensures
        a == b,
{
    assert(a.len() == b.len()) by {
        assert(a.drop_first().len() == a.len() - 1);
        assert(b.drop_first().len() == b.len() - 1);
    }
    assert forall|i: int| 0 <= i < a.len() implies a[i] == b[i] by {
        if i >= 1 {
            assert(a.drop_first()[i - 1] == a[i]);
            assert(b.drop_first()[i - 1] == b[i]);
        }
    }
    assert(a =~= b);
}

/// When the first bytes agree, the order of two byte strings is the order of
/// their tails.
proof fn lemma_lex_le_tail(p: Seq<u8>, k: Seq<u8>)
    requires
        p.len() >= 1,
        k.len() >= 1,
        p[0] == k[0],
    ensures
        lex_le(p, k) <==> lex_le(p.drop_first(), k.drop_first()),
{
    if p == k {
        assert(p.drop_first() =~= k.drop_first());
    }
    if p.drop_first() == k.drop_first() {
        lemma_head_tail_eq(p, k);
    }
    assert(lex_lt(p, k) == lex_lt(p.drop_first(), k.drop_first()));
}

/// For a run of `0xff` bytes, sorting at or above the run is the same as
/// starting with it.
pub proof fn lemma_all_max_window(p: Seq<u8>, k: Seq<u8>)
    requires
        forall|i: int| 0 <= i < p.len() ==> p[i] == 0xff,
    ensures
        lex_le(p, k) <==> starts_with(k, p),
    decreases p.len(),
{
    if p.len() == 0 {
        assert(k.take(0) =~= p);
        if k.len() == 0 {
            assert(p =~= k);
        }
    } else if k.len() == 0 {
        assert(!lex_lt(p, k));
        assert(p != k);
    } else {
        assert(p[0] == 0xff);
        if k[0] < 0xff {
            assert(!lex_lt(p, k));
            assert(p != k);
            assert(!starts_with(k, p)) by {
                if starts_with(k, p) {
                    assert(k.take(p.len() as int)[0] == p[0]);
                }
            }
        } else {
            assert(k[0] == 0xff);
            lemma_all_max_window(p.drop_first(), k.drop_first());
            lemma_lex_le_tail(p, k);
            lemma_heads_equal_starts_with(k, p);
        }
    }
}

/// When the first bytes agree, a prefix relation on the tails is a prefix
/// relation on the whole strings.
proof fn lemma_heads_equal_starts_with(k: Seq<u8>, p: Seq<u8>)
    requires
        p.len() >= 1,
        k.len() >= 1,
        p[0] == k[0],
    ensures
        starts_with(k, p) <==> starts_with(k.drop_first(), p.drop_first()),
{
    if starts_with(k, p) {
        assert(k.drop_first().take(p.len() - 1) =~= k.take(p.len() as int).drop_first());
        assert(k.take(p.len() as int).drop_first() =~= p.drop_first());
    }
    if starts_with(k.drop_first(), p.drop_first()) {
        assert(k.take(p.len() as int) =~= p) by {
            assert(k.drop_first().take(p.len() - 1) == p.drop_first());
            assert(forall|i: int|
                1 <= i < p.len() ==> k.take(p.len() as int)[i] == k.drop_first().take(
                    p.len() - 1,
                )[i - 1]);
        }
    }
}

/// The window theorem: a key starts with `p` exactly when it lies in the
/// half-open interval from `p` (inclusive) to `p`'s upper bound (exclusive).
pub proof fn lemma_prefix_window(p: Seq<u8>, u: Seq<u8>, k: Seq<u8>)
    requires
        is_prefix_upper_bound(p, u),
    ensures
        starts_with(k, p) <==> (lex_le(p, k) && lex_lt(k, u)),
    decreases u.len(),
{
    if u.len() == 1 {
        if k.len() == 0 {
            assert(!starts_with(k, p));
            assert(!lex_lt(p, k));
            assert(p != k);
        } else if k[0] < p[0] {
            assert(!lex_lt(p, k));
            assert(p != k);
            assert(!starts_with(k, p)) by {
                if starts_with(k, p) {
                    assert(k.take(p.len() as int)[0] == p[0]);
                }
            }
        } else if k[0] == p[0] {
            assert(lex_lt(k, u)) by {
                assert(u[0] == p[0] + 1);
                assert(k[0] < u[0]);
            }
            assert(forall|i: int| 0 <= i < p.drop_first().len() ==> p.drop_first()[i] == 0xff);
            lemma_all_max_window(p.drop_first(), k.drop_first());
            lemma_lex_le_tail(p, k);
            lemma_heads_equal_starts_with(k, p);
        } else {
            assert(k[0] > p[0]);
            assert(!starts_with(k, p)) by {
                if starts_with(k, p) {
                    assert(k.take(p.len() as int)[0] == p[0]);
                }
            }
            assert(!lex_lt(k, u)) by {
                assert(u[0] == p[0] + 1);
                assert(k[0] >= u[0]);
                if k[0] == u[0] {
                    assert(k.first() == u.first());
                    assert(lex_lt(k, u) == lex_lt(k.drop_first(), u.drop_first()));
                    assert(u.drop_first().len() == 0);
                }
            }
        }
    } else {
        assert(p[0] == u[0]) by {
            assert(u.take(u.len() - 1)[0] == u[0]);
            assert(p.take(u.len() - 1)[0] == p[0]);
        }
        if k.len() == 0 {
            assert(!starts_with(k, p));
            assert(!lex_lt(p, k));
            assert(p != k);
        } else if k[0] < p[0] {
            assert(!lex_lt(p, k));
            assert(p != k);
            assert(!starts_with(k, p)) by {
                if starts_with(k, p) {
                    assert(k.take(p.len() as int)[0] == p[0]);
                }
            }
        } else if k[0] > p[0] {
            assert(!lex_lt(k, u));
            assert(!starts_with(k, p)) by {
                if starts_with(k, p) {
                    assert(k.take(p.len() as int)[0] == p[0]);
                }
            }
        } else {
            assert(is_prefix_upper_bound(p.drop_first(), u.drop_first())) by {
                assert(u.drop_first().take(u.drop_first().len() - 1) =~= u.take(
                    u.len() - 1,
                ).drop_first());
                assert(p.drop_first().take(u.drop_first().len() - 1) =~= p.take(
                    u.len() - 1,
                ).drop_first());
                assert(forall|i: int|
                    u.drop_first().len() <= i < p.drop_first().len() ==> p.drop_first()[i] == p[i
                        + 1]);
            }
            lemma_prefix_window(p.drop_first(), u.drop_first(), k.drop_first());
            lemma_lex_le_tail(p, k);
            assert(lex_lt(k, u) <==> lex_lt(k.drop_first(), u.drop_first()));
            lemma_heads_equal_starts_with(k, p);
        }
    }
}

/// Compute the exclusive upper bound of the key window of prefix `p`, or
/// `None` when no byte string is above every key starting with `p` (that is,
/// when `p` is empty or all `0xff`).
pub fn prefix_upper_bound(p: &Vec<u8>) -> (r: Option<Vec<u8>>)
    ensures
        match r {
            Some(u) => is_prefix_upper_bound(p@, u@),
            None => forall|i: int| 0 <= i < p@.len() ==> p@[i] == 0xff,
        },
{
    let mut end: usize = p.len();
    while end > 0 && p[end - 1] == 0xff
        invariant
            end <= p@.len(),
            forall|i: int| end <= i < p@.len() ==> p@[i] == 0xff,
        decreases end,
    {
        end = end - 1;
    }
    if end == 0 {
        None
    } else {
        let mut u: Vec<u8> = Vec::new();
        let mut i: usize = 0;
        while i < end - 1
            invariant
                end >= 1,
                end <= p@.len(),
                i <= end - 1,
                u@ =~= p@.take(i as int),
            decreases end - 1 - i,
        {
            u.push(p[i]);
            i = i + 1;
        }
        u.push(p[end - 1] + 1);
        assert(u@.take(u@.len() - 1) =~= p@.take(end - 1));
        Some(u)
    }
}

} // verus!
