//! Trusted boundary to the `redb` engine.
//!
//! Each function relies on `redb`'s documented behaviour: one table of byte
//! keys to byte values, keys ordered lexicographically, every mutation its
//! own committed transaction.  A durable call commits with
//! `Durability::Immediate` (persistent once `commit` returns); a
//! non-durable one commits with `Durability::None`.  Engine failures abort
//! the run.

use redb::ReadableDatabase;
use redb::ReadableTable;
use vstd::prelude::*;

use crate::db::{is_window_listing, pair_views};
use crate::order::lex_le;

verus! {

#[verifier::external_type_specification]
#[verifier::external_body]
pub struct ExRedbDatabase(redb::Database);

/// What the data table holds: its keys and values as plain byte strings.
pub uninterp spec fn redb_contents(db: redb::Database) -> Map<Seq<u8>, Seq<u8>>;

/// Relies on `redb::Builder::create`: creates (or opens) the database file
/// inside the existing directory `dir` with the given cache budget, and
/// makes sure the data table exists.
#[verifier::external_body]
pub(crate) fn redb_open(dir: &str, cache_size: u64) -> redb::Database {
    let def: redb::TableDefinition<&[u8], &[u8]> = redb::TableDefinition::new("data");
    let path = std::path::Path::new(dir).join("my_db.redb");
    let db = redb::Builder::new().set_cache_size(cache_size as usize).create(path).unwrap();
    let tx = db.begin_write().unwrap();
    tx.open_table(def).unwrap();
    tx.commit().unwrap();
    db
}

/// Relies on `redb::Table::insert` inside one committed write transaction,
/// with the durability level chosen by `durable`.  The engine refuses a
/// key or value over three gibibytes, or a pair over 3.75 gibibytes; the
/// bounds below exclude exactly those inputs.
#[verifier::external_body]
pub(crate) fn redb_insert(db: &mut redb::Database, key: &Vec<u8>, value: &Vec<u8>, durable: bool)
    requires
        key@.len() <= 0xC000_0000,
        value@.len() <= 0xC000_0000,
        key@.len() + value@.len() <= 0xF000_0000,
    ensures
        redb_contents(*final(db)) == redb_contents(*old(db)).insert(key@, value@),
{
    let def: redb::TableDefinition<&[u8], &[u8]> = redb::TableDefinition::new("data");
    let mut tx = db.begin_write().unwrap();
    let dur = if durable { redb::Durability::Immediate } else { redb::Durability::None };
    tx.set_durability(dur).unwrap();
    {
        let mut table = tx.open_table(def).unwrap();
        table.insert(key.as_slice(), value.as_slice()).unwrap();
    }
    tx.commit().unwrap();
}

/// Relies on `redb::Table::remove` inside one committed write transaction.
#[verifier::external_body]
pub(crate) fn redb_remove(db: &mut redb::Database, key: &Vec<u8>, durable: bool)
    ensures
        redb_contents(*final(db)) == redb_contents(*old(db)).remove(key@),
{
    let def: redb::TableDefinition<&[u8], &[u8]> = redb::TableDefinition::new("data");
    let mut tx = db.begin_write().unwrap();
    let dur = if durable { redb::Durability::Immediate } else { redb::Durability::None };
    tx.set_durability(dur).unwrap();
    {
        let mut table = tx.open_table(def).unwrap();
        table.remove(key.as_slice()).unwrap();
    }
    tx.commit().unwrap();
}

/// Relies on `redb::ReadOnlyTable::get`: the value stored under `key`, or
/// `None` if the key is absent.
#[verifier::external_body]
pub(crate) fn redb_get(db: &redb::Database, key: &Vec<u8>) -> (r: Option<Vec<u8>>)
    ensures
        match r {
            Some(v) => redb_contents(*db).contains_pair(key@, v@),
            None => !redb_contents(*db).dom().contains(key@),
        },
{
    let def: redb::TableDefinition<&[u8], &[u8]> = redb::TableDefinition::new("data");
    let tx = db.begin_read().unwrap();
    let table = tx.open_table(def).unwrap();
    table.get(key.as_slice()).unwrap().map(|v| v.value().to_vec())
}

/// Relies on `redb::ReadableTable::last`: the maximum-key entry, or `None`
/// when the table is empty.
#[verifier::external_body]
pub(crate) fn redb_last(db: &redb::Database) -> (r: Option<(Vec<u8>, Vec<u8>)>)
    ensures
        match r {
            Some(kv) => redb_contents(*db).contains_pair(kv.0@, kv.1@) && forall|k: Seq<u8>|
                redb_contents(*db).dom().contains(k) ==> lex_le(k, kv.0@),
            None => forall|k: Seq<u8>| !redb_contents(*db).dom().contains(k),
        },
{
    let def: redb::TableDefinition<&[u8], &[u8]> = redb::TableDefinition::new("data");
    let tx = db.begin_read().unwrap();
    let table = tx.open_table(def).unwrap();
    table.last().unwrap().map(|(k, v)| (k.value().to_vec(), v.value().to_vec()))
}

/// Relies on `redb::ReadableTable::range`: all entries with `lo <= key`
/// (and `key < hi` when a bound is given), in lexicographic key order,
/// reversed on request.
#[verifier::external_body]
pub(crate) fn redb_range(db: &redb::Database, lo: &Vec<u8>, hi: Option<&Vec<u8>>, rev: bool) -> (r:
    Vec<(Vec<u8>, Vec<u8>)>)
    ensures
        is_window_listing(
            pair_views(r@),
            redb_contents(*db),
            lo@,
            match hi {
                Some(h) => Some(h@),
                None => None,
            },
            rev,
        ),
{
    let tx = db.begin_read().unwrap();
    let table = tx.open_table(redb::TableDefinition::<&[u8], &[u8]>::new("data")).unwrap();
    let lo_b = std::ops::Bound::Included(lo.as_slice());
    let hi_b = match hi {
        Some(h) => std::ops::Bound::Excluded(h.as_slice()),
        None => std::ops::Bound::Unbounded,
    };
    let mut out = Vec::new();
    for x in table.range::<&[u8]>((lo_b, hi_b)).unwrap() {
        let (k, v) = x.unwrap();
        out.push((k.value().to_vec(), v.value().to_vec()));
    }
    if rev { out.reverse(); }
    out
}

} // verus!
