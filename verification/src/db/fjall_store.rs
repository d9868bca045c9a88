//! Trusted boundary to the `fjall` engine.
//!
//! Each function relies on `fjall`'s documented behaviour: a partition maps
//! byte keys to byte values, iterates in lexicographic key order, and keys
//! must be non-empty and at most 65535 bytes.  Durability is a keyspace
//! journal flush (`PersistMode::SyncData`), matching an `fsync`-style
//! guarantee.  Engine failures abort the run.

use vstd::prelude::*;

use crate::db::{is_window_listing, pair_views};
use crate::order::lex_le;

verus! {

#[verifier::external_type_specification]
#[verifier::external_body]
pub struct ExFjallKeyspace(fjall::Keyspace);

#[verifier::external_type_specification]
#[verifier::external_body]
pub struct ExFjallPartition(fjall::PartitionHandle);

/// What the partition holds: its keys and values as plain byte strings.
pub uninterp spec fn fjall_contents(db: fjall::PartitionHandle) -> Map<Seq<u8>, Seq<u8>>;

/// Relies on `fjall::Config::open` and `Keyspace::open_partition`: opens
/// (or creates) the keyspace at `path` with the given cache budget and one
/// partition holding the benchmark data.
#[verifier::external_body]
pub(crate) fn fjall_open(path: &str, cache_size: u64) -> (fjall::Keyspace, fjall::PartitionHandle) {
    let keyspace = fjall::Config::new(path).cache_size(cache_size).open().unwrap();
    let part = keyspace.open_partition("data", fjall::PartitionCreateOptions::default()).unwrap();
    (keyspace, part)
}

/// Relies on `fjall::PartitionHandle::insert` (overwrites the key) and
/// `Keyspace::persist`: `SyncData` forces the write to disk before
/// returning, `Buffer` leaves it in the journal buffer.
#[verifier::external_body]
pub(crate) fn fjall_insert(
    keyspace: &fjall::Keyspace,
    db: &mut fjall::PartitionHandle,
    key: &Vec<u8>,
    value: &Vec<u8>,
    durable: bool,
)
    requires
        1 <= key@.len() <= 65535,
        value@.len() < 0x1_0000_0000,
    ensures
        fjall_contents(*final(db)) == fjall_contents(*old(db)).insert(key@, value@),
{
    db.insert(key.as_slice(), value.as_slice()).unwrap();
    let mode = if durable { fjall::PersistMode::SyncData } else { fjall::PersistMode::Buffer };
    keyspace.persist(mode).unwrap();
}

/// Relies on `fjall::PartitionHandle::remove` and `Keyspace::persist`.
#[verifier::external_body]
pub(crate) fn fjall_remove(
    keyspace: &fjall::Keyspace,
    db: &mut fjall::PartitionHandle,
    key: &Vec<u8>,
    durable: bool,
)
    requires
        1 <= key@.len() <= 65535,
    ensures
        fjall_contents(*final(db)) == fjall_contents(*old(db)).remove(key@),
{
    db.remove(key.as_slice()).unwrap();
    if durable {
        keyspace.persist(fjall::PersistMode::SyncData).unwrap();
    }
}

/// Relies on `fjall::PartitionHandle::get`: the value stored under `key`,
/// or `None` if the key is absent.
#[verifier::external_body]
pub(crate) fn fjall_get(db: &fjall::PartitionHandle, key: &Vec<u8>) -> (r: Option<Vec<u8>>)
    ensures
        match r {
            Some(v) => fjall_contents(*db).contains_pair(key@, v@),
            None => !fjall_contents(*db).dom().contains(key@),
        },
{
    db.get(key.as_slice()).unwrap().map(|v| v.to_vec())
}

/// Relies on `fjall::PartitionHandle::last_key_value`: the maximum-key
/// entry, or `None` when the partition is empty.
#[verifier::external_body]
pub(crate) fn fjall_last(db: &fjall::PartitionHandle) -> (r: Option<(Vec<u8>, Vec<u8>)>)
    ensures
        match r {
            Some(kv) => fjall_contents(*db).contains_pair(kv.0@, kv.1@) && forall|k: Seq<u8>|
                fjall_contents(*db).dom().contains(k) ==> lex_le(k, kv.0@),
            None => forall|k: Seq<u8>| !fjall_contents(*db).dom().contains(k),
        },
{
    db.last_key_value().unwrap().map(|(k, v)| (k.to_vec(), v.to_vec()))
}

/// Relies on `fjall::PartitionHandle::range`: all entries with `lo <= key`
/// (and `key < hi` when a bound is given), in lexicographic key order,
/// reversed on request.
#[verifier::external_body]
pub(crate) fn fjall_range(
    db: &fjall::PartitionHandle,
    lo: &Vec<u8>,
    hi: Option<&Vec<u8>>,
    rev: bool,
) -> (r: Vec<(Vec<u8>, Vec<u8>)>)
    ensures
        is_window_listing(
            pair_views(r@),
            fjall_contents(*db),
            lo@,
            match hi {
                Some(h) => Some(h@),
                None => None,
            },
            rev,
        ),
{
    let lo_b = std::ops::Bound::Included(lo.as_slice());
    let hi_b = match hi {
        Some(h) => std::ops::Bound::Excluded(h.as_slice()),
        None => std::ops::Bound::Unbounded,
    };
    let mut out: Vec<(Vec<u8>, Vec<u8>)> = Vec::new();
    for kv in db.range::<&[u8], _>((lo_b, hi_b)) {
        let (k, v) = kv.unwrap();
        out.push((k.to_vec(), v.to_vec()));
    }
    if rev {
        out.reverse();
    }
    out
}

} // verus!
