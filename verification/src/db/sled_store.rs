//! Trusted boundary to the `sled` engine.
//!
//! Each function here relies on `sled`'s documented behaviour: the tree maps
//! byte keys to byte values and iterates in lexicographic key order.  Engine
//! failures are fatal for a benchmark run, so every wrapper aborts on them
//! rather than masking the fault.

use vstd::prelude::*;

use crate::db::{is_window_listing, pair_views};
use crate::order::lex_le;

verus! {

#[verifier::external_type_specification]
#[verifier::external_body]
pub struct ExSledDb(sled::Db);

/// What the tree holds: its keys and values as plain byte strings.
pub uninterp spec fn sled_contents(db: sled::Db) -> Map<Seq<u8>, Seq<u8>>;

/// Relies on `sled::Config::open`: opens (or creates) the tree rooted at
/// `path`.  Nothing is known of the contents, which survive from earlier
/// runs on the same directory.
#[verifier::external_body]
pub(crate) fn sled_open(path: &str) -> sled::Db {
    sled::Config::new().path(path).open().unwrap()
}

/// Relies on `sled::Tree::insert` (overwrites the key) and
/// `sled::Tree::flush` (makes the write durable before returning).
#[verifier::external_body]
pub(crate) fn sled_insert(db: &mut sled::Db, key: &Vec<u8>, value: &Vec<u8>, durable: bool)
    ensures
        sled_contents(*final(db)) == sled_contents(*old(db)).insert(key@, value@),
{
    db.insert(key.as_slice(), value.as_slice()).unwrap();
    if durable {
        db.flush().unwrap();
    }
}

/// Relies on `sled::Tree::remove` (deletes the key) and `sled::Tree::flush`.
#[verifier::external_body]
pub(crate) fn sled_remove(db: &mut sled::Db, key: &Vec<u8>, durable: bool)
    ensures
        sled_contents(*final(db)) == sled_contents(*old(db)).remove(key@),
{
    db.remove(key.as_slice()).unwrap();
    if durable {
        db.flush().unwrap();
    }
}

/// Relies on `sled::Tree::get`: the value stored under `key`, or `None` if
/// the key is absent.
#[verifier::external_body]
pub(crate) fn sled_get(db: &sled::Db, key: &Vec<u8>) -> (r: Option<Vec<u8>>)
    ensures
        match r {
            Some(v) => sled_contents(*db).contains_pair(key@, v@),
            None => !sled_contents(*db).dom().contains(key@),
        },
{
    db.get(key.as_slice()).unwrap().map(|v| v.to_vec())
}

/// Relies on `sled::Tree::last`: the maximum-key entry, or `None` when the
/// tree is empty.
#[verifier::external_body]
pub(crate) fn sled_last(db: &sled::Db) -> (r: Option<(Vec<u8>, Vec<u8>)>)
    ensures
        match r {
            Some(kv) => sled_contents(*db).contains_pair(kv.0@, kv.1@) && forall|k: Seq<u8>|
                sled_contents(*db).dom().contains(k) ==> lex_le(k, kv.0@),
            None => forall|k: Seq<u8>| !sled_contents(*db).dom().contains(k),
        },
{
    db.last().unwrap().map(|(k, v)| (k.to_vec(), v.to_vec()))
}

/// Relies on `sled::Tree::range`: all entries with `lo <= key` (and
/// `key < hi` when a bound is given), in lexicographic key order, reversed
/// on request.
#[verifier::external_body]
pub(crate) fn sled_range(db: &sled::Db, lo: &Vec<u8>, hi: Option<&Vec<u8>>, rev: bool) -> (r: Vec<
    (Vec<u8>, Vec<u8>),
>)
    ensures
        is_window_listing(
            pair_views(r@),
            sled_contents(*db),
            lo@,
            match hi {
                Some(h) => Some(h@),
                None => None,
            },
            rev,
        ),
{
    let lo_b = std::ops::Bound::Included(lo.as_slice());
    let hi_b = match hi {
        Some(h) => std::ops::Bound::Excluded(h.as_slice()),
        None => std::ops::Bound::Unbounded,
    };
    let mut out: Vec<(Vec<u8>, Vec<u8>)> = Vec::new();
    for kv in db.range::<&[u8], _>((lo_b, hi_b)) {
        let (k, v) = kv.unwrap();
        out.push((k.to_vec(), v.to_vec()));
    }
    if rev {
        out.reverse();
    }
    out
}

} // verus!
