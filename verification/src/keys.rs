//! Key construction for the synthetic workloads.
//!
//! Monotonic patterns use fixed-width big-endian counters, so later keys
//! sort after earlier ones; the feed pattern namespaces every record under a
//! zero-padded user id; the webtable pattern namespaces documents under a
//! domain.  Everything here is byte arithmetic, written down exactly.

use vstd::prelude::*;

verus! {

/// The big-endian base-256 digits of `x`, `width` bytes, most significant
/// first (`x` taken modulo `256^width`).
pub open spec fn be_rep(x: int, width: nat) -> Seq<u8>
    decreases width,
{
    if width == 0 {
        Seq::empty()
    } else {
        be_rep(x / 256, (width - 1) as nat) + seq![(x % 256) as u8]
    }
}

/// `be_rep` always yields exactly `width` bytes.
pub proof fn lemma_be_rep_len(x: int, width: nat)
    ensures
        be_rep(x, width).len() == width,
    decreases width,
{
    if width > 0 {
        lemma_be_rep_len(x / 256, (width - 1) as nat);
    }
}

fn push_be(out: &mut Vec<u8>, x: u128, width: usize)
    ensures
        final(out)@ == old(out)@ + be_rep(x as int, width as nat),
    decreases width,
{
    if width > 0 {
        push_be(out, x / 256, width - 1);
        out.push((x % 256) as u8);
        proof {
            assert((x as int) % 256 == x as int % 256);
            assert(final(out)@ =~= old(out)@ + be_rep(x as int, width as nat));
        }
    } else {
        proof {
            assert(final(out)@ =~= old(out)@ + be_rep(x as int, width as nat));
        }
    }
}

/// The sixteen-byte big-endian key of counter `x`, as the monotonic and
/// timeseries patterns write it.
pub fn monotonic_key(x: u128) -> (r: Vec<u8>)
    ensures
        r@ == be_rep(x as int, 16),
        r@.len() == 16,
{
    let mut out: Vec<u8> = Vec::new();
    push_be(&mut out, x, 16);
    proof {
        lemma_be_rep_len(x as int, 16);
    }
    out
}

/// The decimal digits of `x`, zero-padded on the left to exactly `width`
/// digits (`x` taken modulo `10^width`).
pub open spec fn pad_dec(x: int, width: nat) -> Seq<u8>
    decreases width,
{
    if width == 0 {
        Seq::empty()
    } else {
        pad_dec(x / 10, (width - 1) as nat) + seq![(48 + x % 10) as u8]
    }
}

/// `pad_dec` always yields exactly `width` digits.
pub proof fn lemma_pad_dec_len(x: int, width: nat)
    ensures
        pad_dec(x, width).len() == width,
    decreases width,
{
    if width > 0 {
        lemma_pad_dec_len(x / 10, (width - 1) as nat);
    }
}

fn push_pad_dec(out: &mut Vec<u8>, x: u64, width: usize)
    ensures
        final(out)@ == old(out)@ + pad_dec(x as int, width as nat),
    decreases width,
{
    if width > 0 {
        push_pad_dec(out, x / 10, width - 1);
        out.push(48 + (x % 10) as u8);
        proof {
            assert(final(out)@ =~= old(out)@ + pad_dec(x as int, width as nat));
        }
    } else {
        proof {
            assert(final(out)@ =~= old(out)@ + pad_dec(x as int, width as nat));
        }
    }
}

/// The key bytes of virtual user `idx`: the letter `u` followed by the
/// seven-digit zero-padded index.
pub open spec fn user_key_spec(idx: int) -> Seq<u8> {
    seq![117u8] + pad_dec(idx, 7)
}

/// The key of virtual user `idx`.
pub fn user_key(idx: u64) -> (r: Vec<u8>)
    ensures
        r@ == user_key_spec(idx as int),
        r@.len() == 8,
{
    let mut out: Vec<u8> = Vec::new();
    out.push(117);
    push_pad_dec(&mut out, idx, 7);
    proof {
        lemma_pad_dec_len(idx as int, 7);
        assert(out@ =~= user_key_spec(idx as int));
    }
    out
}

/// A user's profile key: the user key followed by `#p`.
pub open spec fn profile_key_spec(user: Seq<u8>) -> Seq<u8> {
    user + seq![35u8, 112u8]
}

/// The profile key of `user`.
pub fn profile_key(user: &Vec<u8>) -> (r: Vec<u8>)
    ensures
        r@ == profile_key_spec(user@),
{
    let mut out: Vec<u8> = Vec::new();
    out.extend_from_slice(user.as_slice());
    out.push(35);
    out.push(112);
    proof {
        assert(out@ =~= profile_key_spec(user@));
    }
    out
}

/// A user's feed namespace: the user key followed by `#f#`.
pub open spec fn feed_prefix_spec(user: Seq<u8>) -> Seq<u8> {
    user + seq![35u8, 102u8, 35u8]
}

/// The feed prefix of `user`.
pub fn feed_prefix(user: &Vec<u8>) -> (r: Vec<u8>)
    ensures
        r@ == feed_prefix_spec(user@),
{
    let mut out: Vec<u8> = Vec::new();
    out.extend_from_slice(user.as_slice());
    out.push(35);
    out.push(102);
    out.push(35);
    proof {
        assert(out@ =~= feed_prefix_spec(user@));
    }
    out
}

/// A post's key: the user's feed prefix followed by the post id.
pub open spec fn post_key_spec(user: Seq<u8>, post_id: Seq<u8>) -> Seq<u8> {
    feed_prefix_spec(user) + post_id
}

/// The key of post `post_id` in `user`'s feed.
pub fn post_key(user: &Vec<u8>, post_id: &Vec<u8>) -> (r: Vec<u8>)
    ensures
        r@ == post_key_spec(user@, post_id@),
{
    let mut out = feed_prefix(user);
    out.extend_from_slice(post_id.as_slice());
    proof {
        assert(out@ =~= post_key_spec(user@, post_id@));
    }
    out
}

/// A stored document's key in the webtable pattern: the domain, `#`, and
/// the document id.
pub open spec fn domain_item_key_spec(domain: Seq<u8>, id: Seq<u8>) -> Seq<u8> {
    domain + seq![35u8] + id
}

/// The key of document `id` under `domain`.
pub fn domain_item_key(domain: &Vec<u8>, id: &Vec<u8>) -> (r: Vec<u8>)
    ensures
        r@ == domain_item_key_spec(domain@, id@),
{
    let mut out: Vec<u8> = Vec::new();
    out.extend_from_slice(domain.as_slice());
    out.push(35);
    out.extend_from_slice(id.as_slice());
    proof {
        assert(out@ =~= domain_item_key_spec(domain@, id@));
    }
    out
}

/// The namespace of all documents under `domain`: the domain followed by
/// `#`.
pub fn domain_prefix(domain: &Vec<u8>) -> (r: Vec<u8>)
    ensures
        r@ == domain@ + seq![35u8],
{
    let mut out: Vec<u8> = Vec::new();
    out.extend_from_slice(domain.as_slice());
    out.push(35);
    proof {
        assert(out@ =~= domain@ + seq![35u8]);
    }
    out
}

} // verus!
