//! The workload engine: access-pattern policies and their drivers.
//!
//! Every driver makes exactly one storage call per step; the shell around
//! the library runs the worker loops, feeding each step the random draws it
//! needs and checking the stop token between steps.

use vstd::prelude::*;

use crate::db::{pair_views, valid_key, DatabaseWrapper};
use crate::gen::{blake2b512, blake2b512_of, random_bytes};
use crate::keys::{
    be_rep, feed_prefix, monotonic_key, post_key, post_key_spec, profile_key, profile_key_spec,
    user_key, user_key_spec,
};
use crate::metrics::{lemma_sat_add_chain, sat_add_int};

verus! {

/// Access patterns the canonical runner can generate.
#[derive(Copy, Clone, Debug, PartialEq, Eq, Structural)]
pub enum Workload {
    TimeseriesWrite,
}

/// What one feed-pattern step does.
#[derive(Copy, Clone, Debug, PartialEq, Eq, Structural)]
pub enum FeedOp {
    /// Write a fresh post for the drawn user.
    NewPost,
    /// Read the drawn user's profile and latest posts.
    ReadFeed,
}

/// The feed pattern's read/write policy: one draw in ten posts, the other
/// nine read.
pub fn feed_action(draw: u64) -> (r: FeedOp)
    requires
        draw < 100,
    ensures
        r is NewPost <==> draw >= 90,
{
    if draw >= 90 {
        FeedOp::NewPost
    } else {
        FeedOp::ReadFeed
    }
}

/// One step of the timeseries pattern: write counter `x` under its own
/// monotonic key, with the key doubling as the value, never waiting for
/// durability.
pub fn timeseries_write_step(db: &mut DatabaseWrapper, x: u128)
    ensures
        final(db).inner.kind() == old(db).inner.kind(),
        final(db).contents() == old(db).contents().insert(
            be_rep(x as int, 16),
            be_rep(x as int, 16),
        ),
        exists|d: u64| final(db).metrics == #[trigger] old(db).metrics.with_write(32, d),
{
    let key = monotonic_key(x);
    db.insert(&key, &key, false);
}

/// Bulk pre-population: write `items` monotonic keys, each carrying
/// `value_size` fresh random bytes, before any worker starts.
pub fn prepopulate(db: &mut DatabaseWrapper, items: u32, value_size: u32)
    requires
        value_size <= 0xC000_0000,
    ensures
        final(db).inner.kind() == old(db).inner.kind(),
        final(db).metrics.write_ops == sat_add_int(old(db).metrics.write_ops, items as int),
        final(db).metrics.written_bytes == sat_add_int(
            old(db).metrics.written_bytes,
            items as int * (16 + value_size as int),
        ),
        final(db).metrics.read_ops == old(db).metrics.read_ops,
        final(db).metrics.scan_ops == old(db).metrics.scan_ops,
        final(db).metrics.delete_ops == old(db).metrics.delete_ops,
        final(db).metrics.deleted_bytes == old(db).metrics.deleted_bytes,
        forall|y: int|
            0 <= y < items ==> final(db).contents().dom().contains(#[trigger] be_rep(y, 16))
                && final(db).contents()[be_rep(y, 16)].len() == value_size,
{
    let mut x: u32 = 0;
    while x < items
        invariant
            value_size <= 0xC000_0000,
            db.inner.kind() == old(db).inner.kind(),
            x <= items,
            db.metrics.write_ops == sat_add_int(old(db).metrics.write_ops, x as int),
            db.metrics.written_bytes == sat_add_int(
                old(db).metrics.written_bytes,
                x as int * (16 + value_size as int),
            ),
            db.metrics.read_ops == old(db).metrics.read_ops,
            db.metrics.scan_ops == old(db).metrics.scan_ops,
            db.metrics.delete_ops == old(db).metrics.delete_ops,
            db.metrics.deleted_bytes == old(db).metrics.deleted_bytes,
            forall|y: int|
                0 <= y < x ==> db.contents().dom().contains(#[trigger] be_rep(y, 16))
                    && db.contents()[be_rep(y, 16)].len() == value_size,
        decreases items - x,
    {
        let val = random_bytes(value_size as usize);
        let key = monotonic_key(x as u128);
        proof {
            assert((x as u128) as int == x as int);
        }
        db.insert(&key, &val, false);
        proof {
            lemma_sat_add_chain(old(db).metrics.write_ops, x as int, 1);
            lemma_sat_add_chain(
                old(db).metrics.written_bytes,
                x as int * (16 + value_size as int),
                16 + value_size as int,
            );
            assert((x as int + 1) * (16 + value_size as int) == x as int * (16 + value_size as int)
                + (16 + value_size as int)) by (nonlinear_arith);
        }
        x = x + 1;
    }
}

/// A burst of point reads at the drawn monotonic key indices: exactly one
/// point-read operation per index, never a scan.
pub fn zipfian_point_reads(db: &mut DatabaseWrapper, idxs: &Vec<u64>)
    ensures
        final(db).inner == old(db).inner,
        final(db).metrics.read_ops == sat_add_int(old(db).metrics.read_ops, idxs@.len() as int),
        final(db).metrics.scan_ops == old(db).metrics.scan_ops,
        final(db).metrics.write_ops == old(db).metrics.write_ops,
        final(db).metrics.delete_ops == old(db).metrics.delete_ops,
        final(db).metrics.written_bytes == old(db).metrics.written_bytes,
        final(db).metrics.deleted_bytes == old(db).metrics.deleted_bytes,
{
    let mut i: usize = 0;
    while i < idxs.len()
        invariant
            db.inner == old(db).inner,
            i <= idxs@.len(),
            db.metrics.read_ops == sat_add_int(old(db).metrics.read_ops, i as int),
            db.metrics.scan_ops == old(db).metrics.scan_ops,
            db.metrics.write_ops == old(db).metrics.write_ops,
            db.metrics.delete_ops == old(db).metrics.delete_ops,
            db.metrics.written_bytes == old(db).metrics.written_bytes,
            db.metrics.deleted_bytes == old(db).metrics.deleted_bytes,
        decreases idxs@.len() - i,
    {
        let key = monotonic_key(idxs[i] as u128);
        let _found = db.get(&key);
        proof {
            lemma_sat_add_chain(old(db).metrics.read_ops, i as int, 1);
        }
        i = i + 1;
    }
}

/// One point read of monotonic key `idx`; whether the key was present.
pub fn monotonic_point_read(db: &mut DatabaseWrapper, idx: u128) -> (found: bool)
    ensures
        final(db).inner == old(db).inner,
        exists|d: u64| final(db).metrics == #[trigger] old(db).metrics.with_point_read(d),
        found <==> old(db).contents().dom().contains(be_rep(idx as int, 16)),
{
    let key = monotonic_key(idx);
    let got = db.get(&key);
    match got {
        Some(_) => true,
        None => false,
    }
}

/// One read step of the feed pattern for the drawn user: fetch the
/// profile, then the latest `feed_len` posts.  Returns whether the profile
/// existed and how many posts came back; the shell treats a missing
/// profile as a workload invariant violation.
pub fn feed_read_step(db: &mut DatabaseWrapper, user_idx: u64, feed_len: usize) -> (r: (
    bool,
    usize,
))
    ensures
        final(db).inner == old(db).inner,
        exists|d1: u64, d2: u64|
            final(db).metrics == #[trigger] old(db).metrics.with_point_read(d1).with_scan(d2),
        r.0 <==> old(db).contents().dom().contains(
            profile_key_spec(user_key_spec(user_idx as int)),
        ),
        exists|l: Seq<(Seq<u8>, Seq<u8>)>|
            #[trigger] crate::db::is_prefix_listing(
                l,
                old(db).contents(),
                crate::keys::feed_prefix_spec(user_key_spec(user_idx as int)),
                true,
                feed_len as nat,
            ) && r.1 == l.len(),
        r.1 <= feed_len,
{
    let user = user_key(user_idx);
    let pkey = profile_key(&user);
    let got = db.get(&pkey);
    let fp = feed_prefix(&user);
    let posts = db.prefix(&fp, true, feed_len);
    proof {
        assert(pair_views(posts@).len() == posts@.len());
        assert(crate::db::is_prefix_listing(
            pair_views(posts@),
            old(db).contents(),
            crate::keys::feed_prefix_spec(user_key_spec(user_idx as int)),
            true,
            feed_len as nat,
        ) && posts@.len() == pair_views(posts@).len());
    }
    let found = match got {
        Some(_) => true,
        None => false,
    };
    (found, posts.len())
}

/// One write step of the feed pattern: store `payload` as post `post_id`
/// in the drawn user's feed.
pub fn feed_post_step(
    db: &mut DatabaseWrapper,
    user_idx: u64,
    post_id: &Vec<u8>,
    payload: &Vec<u8>,
    durable: bool,
)
    requires
        post_id@.len() + 11 <= 65535,
        payload@.len() <= 0xC000_0000,
    ensures
        final(db).inner.kind() == old(db).inner.kind(),
        final(db).contents() == old(db).contents().insert(
            post_key_spec(user_key_spec(user_idx as int), post_id@),
            payload@,
        ),
        exists|d: u64|
            final(db).metrics == #[trigger] old(db).metrics.with_write(
                (11 + post_id@.len() + payload@.len()) as u64,
                d,
            ),
{
    let user = user_key(user_idx);
    let key = post_key(&user, post_id);
    db.insert(&key, payload, durable);
}

/// The key and value of one block-reference entry: the first half of the
/// BLAKE2b digest of one random id, the other id appended, and the value
/// the key with a zero byte behind it.
pub fn garage_entry(u1: &Vec<u8>, u2: &Vec<u8>) -> (r: (Vec<u8>, Vec<u8>))
    requires
        u1@.len() == 16,
        u2@.len() == 16,
    ensures
        r.0@ == blake2b512_of(u1@).subrange(0, 32) + u2@,
        r.1@ == r.0@ + seq![0u8],
        r.0@.len() == 48,
{
    let digest = blake2b512(u1);
    let mut key: Vec<u8> = Vec::new();
    let mut i: usize = 0;
    while i < 32
        invariant
            digest@.len() == 64,
            i <= 32,
            key@ == digest@.subrange(0, i as int),
        decreases 32 - i,
    {
        key.push(digest[i]);
        proof {
            assert(key@ =~= digest@.subrange(0, i + 1));
        }
        i = i + 1;
    }
    key.extend_from_slice(u2.as_slice());
    let mut val: Vec<u8> = Vec::new();
    val.extend_from_slice(key.as_slice());
    val.push(0);
    proof {
        assert(key@ =~= blake2b512_of(u1@).subrange(0, 32) + u2@);
    }
    (key, val)
}

/// One step of the block-reference pattern: derive an entry from two
/// random ids and write it.
pub fn garage_step(db: &mut DatabaseWrapper, u1: &Vec<u8>, u2: &Vec<u8>, durable: bool)
    requires
        u1@.len() == 16,
        u2@.len() == 16,
    ensures
        final(db).inner.kind() == old(db).inner.kind(),
        final(db).contents() == old(db).contents().insert(
            blake2b512_of(u1@).subrange(0, 32) + u2@,
            blake2b512_of(u1@).subrange(0, 32) + u2@ + seq![0u8],
        ),
        exists|d: u64| final(db).metrics == #[trigger] old(db).metrics.with_write(97, d),
{
    let (key, val) = garage_entry(u1, u2);
    db.insert(&key, &val, durable);
    proof {
        assert(blake2b512_of(u1@).subrange(0, 32) + u2@ + seq![0u8] =~= (blake2b512_of(
            u1@,
        ).subrange(0, 32) + u2@) + seq![0u8]);
    }
}

/// The contents after removing the keys of the first `n` listed entries.
pub open spec fn remove_listed(
    m: Map<Seq<u8>, Seq<u8>>,
    l: Seq<(Seq<u8>, Seq<u8>)>,
    n: int,
) -> Map<Seq<u8>, Seq<u8>>
    decreases n,
{
    if n <= 0 {
        m
    } else {
        remove_listed(m, l, n - 1).remove(l[n - 1].0)
    }
}

/// The byte hints of the first `n` listed entries: each entry's value
/// length, as the eviction reports them.
pub open spec fn hint_total(l: Seq<(Seq<u8>, Seq<u8>)>, n: int) -> int
    decreases n,
{
    if n <= 0 {
        0
    } else {
        hint_total(l, n - 1) + l[n - 1].1.len()
    }
}

/// The byte hints of a listing are never negative.
proof fn lemma_hint_total_nonneg(l: Seq<(Seq<u8>, Seq<u8>)>, n: int)
    ensures
        hint_total(l, n) >= 0,
    decreases n,
{
    if n > 0 {
        lemma_hint_total_nonneg(l, n - 1);
    }
}

/// Whether every listed entry's key is one the adapter accepts.
pub fn all_keys_valid(items: &Vec<(Vec<u8>, Vec<u8>)>) -> (r: bool)
    ensures
        r <==> forall|i: int| 0 <= i < items@.len() ==> valid_key(#[trigger] items@[i].0@),
{
    let mut i: usize = 0;
    while i < items.len()
        invariant
            i <= items@.len(),
            forall|j: int| 0 <= j < i ==> valid_key(#[trigger] items@[j].0@),
        decreases items@.len() - i,
    {
        let len = items[i].0.len();
        if len < 1 || len > 65535 {
            return false;
        }
        i = i + 1;
    }
    true
}

/// The bounded-growth pattern's reclaim step: of the listed oldest-first
/// entries, remove all but the newest `retain`, each with its value length
/// as the byte hint.  Returns how many were removed.
pub fn evict_overshoot(
    db: &mut DatabaseWrapper,
    items: &Vec<(Vec<u8>, Vec<u8>)>,
    retain: usize,
) -> (removed: usize)
    requires
        forall|i: int| 0 <= i < items@.len() ==> valid_key(#[trigger] items@[i].0@),
        forall|i: int| 0 <= i < items@.len() ==> (#[trigger] items@[i].1@).len() <= u64::MAX,
    ensures
        final(db).inner.kind() == old(db).inner.kind(),
        removed == if items@.len() > retain {
            items@.len() - retain
        } else {
            0
        },
        final(db).contents() == remove_listed(
            old(db).contents(),
            pair_views(items@),
            removed as int,
        ),
        final(db).metrics.delete_ops == sat_add_int(old(db).metrics.delete_ops, removed as int),
        final(db).metrics.deleted_bytes == sat_add_int(
            old(db).metrics.deleted_bytes,
            hint_total(pair_views(items@), removed as int),
        ),
        final(db).metrics.write_ops == old(db).metrics.write_ops,
        final(db).metrics.read_ops == old(db).metrics.read_ops,
        final(db).metrics.scan_ops == old(db).metrics.scan_ops,
        final(db).metrics.written_bytes == old(db).metrics.written_bytes,
{
    let overshoot = if items.len() > retain {
        items.len() - retain
    } else {
        0
    };
    let mut i: usize = 0;
    while i < overshoot
        invariant
            db.inner.kind() == old(db).inner.kind(),
            overshoot <= items@.len(),
            forall|j: int| 0 <= j < items@.len() ==> valid_key(#[trigger] items@[j].0@),
            forall|j: int| 0 <= j < items@.len() ==> (#[trigger] items@[j].1@).len() <= u64::MAX,
            i <= overshoot,
            db.contents() == remove_listed(old(db).contents(), pair_views(items@), i as int),
            db.metrics.delete_ops == sat_add_int(old(db).metrics.delete_ops, i as int),
            db.metrics.deleted_bytes == sat_add_int(
                old(db).metrics.deleted_bytes,
                hint_total(pair_views(items@), i as int),
            ),
            db.metrics.write_ops == old(db).metrics.write_ops,
            db.metrics.read_ops == old(db).metrics.read_ops,
            db.metrics.scan_ops == old(db).metrics.scan_ops,
            db.metrics.written_bytes == old(db).metrics.written_bytes,
        decreases overshoot - i,
    {
        let entry = &items[i];
        let hint = entry.1.len() as u64;
        db.remove(&entry.0, hint, false);
        proof {
            lemma_sat_add_chain(old(db).metrics.delete_ops, i as int, 1);
            lemma_hint_total_nonneg(pair_views(items@), i as int);
            lemma_sat_add_chain(
                old(db).metrics.deleted_bytes,
                hint_total(pair_views(items@), i as int),
                items@[i as int].1@.len() as int,
            );
            assert(pair_views(items@)[i as int].0 == items@[i as int].0@);
            assert(pair_views(items@)[i as int].1 == items@[i as int].1@);
        }
        i = i + 1;
    }
    overshoot
}

} // verus!
