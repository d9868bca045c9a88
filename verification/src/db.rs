//! The storage adapter: one operation contract over interchangeable engines.
//!
//! A [`DatabaseWrapper`] pairs one open engine with the run's
//! [`MetricsRegistry`] and exposes the uniform operations the workloads
//! drive: point get, insert with a durability toggle, remove with a byte
//! hint, ordered range and prefix scans, and the maximum-key entry.  Every
//! call records exactly one operation of its kind together with its wall
//! clock latency and byte deltas.
//!
//! The engines themselves are outside collaborators; what each call does to
//! an engine is written down at the trusted boundary in the per-engine
//! modules, over one abstract map of byte keys to byte values per engine.

use vstd::prelude::*;

use crate::clock::{elapsed_nanos, instant_now};
use crate::metrics::MetricsRegistry;
use crate::order::{
    lemma_all_max_window, lemma_prefix_window, lex_lt, prefix_upper_bound, starts_with,
};

pub mod backend;
pub mod fjall_store;
pub mod redb_store;
pub mod sled_store;

verus! {

pub use backend::Backend;

/// The views of a listing of owned key-value pairs.
pub open spec fn pair_views(s: Seq<(Vec<u8>, Vec<u8>)>) -> Seq<(Seq<u8>, Seq<u8>)> {
    s.map_values(|p: (Vec<u8>, Vec<u8>)| (p.0@, p.1@))
}

/// `k` lies in the half-open window from `lo` to `hi` (`hi` absent meaning
/// unbounded above).
pub open spec fn in_window(k: Seq<u8>, lo: Seq<u8>, hi: Option<Seq<u8>>) -> bool {
    crate::order::lex_le(lo, k) && match hi {
        Some(h) => lex_lt(k, h),
        None => true,
    }
}

/// Some entry of the listing carries key `k`.
pub open spec fn listing_has_key(l: Seq<(Seq<u8>, Seq<u8>)>, k: Seq<u8>) -> bool {
    exists|i: int| 0 <= i < l.len() && (#[trigger] l[i]).0 == k
}

/// The listing's keys are strictly ordered: ascending, or descending when
/// `rev` is set.
pub open spec fn listing_sorted(l: Seq<(Seq<u8>, Seq<u8>)>, rev: bool) -> bool {
    forall|i: int, j: int| #![trigger l[i], l[j]]
        0 <= i < j < l.len() ==> if rev {
            lex_lt(l[j].0, l[i].0)
        } else {
            lex_lt(l[i].0, l[j].0)
        }
}

/// `l` lists exactly the entries of `m` whose keys lie in the window from
/// `lo` to `hi`, strictly ordered by key.
pub open spec fn is_window_listing(
    l: Seq<(Seq<u8>, Seq<u8>)>,
    m: Map<Seq<u8>, Seq<u8>>,
    lo: Seq<u8>,
    hi: Option<Seq<u8>>,
    rev: bool,
) -> bool {
    &&& forall|i: int|
        0 <= i < l.len() ==> m.contains_pair((#[trigger] l[i]).0, l[i].1) && in_window(
            l[i].0,
            lo,
            hi,
        )
    &&& forall|k: Seq<u8>|
        #[trigger] m.dom().contains(k) && in_window(k, lo, hi) ==> listing_has_key(l, k)
    &&& listing_sorted(l, rev)
}

/// `l` lists entries of `m` whose keys start with `p`, strictly ordered by
/// key, cut off after `limit` entries: when the cut bites, the entries kept
/// are the first `limit` in the requested order, every omitted matching key
/// lying beyond the last kept one.
pub open spec fn is_prefix_listing(
    l: Seq<(Seq<u8>, Seq<u8>)>,
    m: Map<Seq<u8>, Seq<u8>>,
    p: Seq<u8>,
    rev: bool,
    limit: nat,
) -> bool {
    &&& l.len() <= limit
    &&& forall|i: int|
        0 <= i < l.len() ==> m.contains_pair((#[trigger] l[i]).0, l[i].1) && starts_with(l[i].0, p)
    &&& listing_sorted(l, rev)
    &&& l.len() < limit ==> forall|k: Seq<u8>|
        #[trigger] m.dom().contains(k) && starts_with(k, p) ==> listing_has_key(l, k)
    &&& l.len() == limit && limit > 0 ==> forall|k: Seq<u8>|
        #[trigger] m.dom().contains(k) && starts_with(k, p) && !listing_has_key(l, k) ==> if rev {
            lex_lt(k, l[l.len() - 1].0)
        } else {
            lex_lt(l[l.len() - 1].0, k)
        }
}

/// Cutting a window listing for the prefix's window down to `limit` entries
/// yields a prefix listing.
proof fn lemma_truncate_prefix_listing(
    l0: Seq<(Seq<u8>, Seq<u8>)>,
    m: Map<Seq<u8>, Seq<u8>>,
    p: Seq<u8>,
    hi: Option<Seq<u8>>,
    rev: bool,
    n: int,
    limit: nat,
)
    requires
        is_window_listing(l0, m, p, hi, rev),
        forall|k: Seq<u8>| #[trigger] starts_with(k, p) <==> in_window(k, p, hi),
        n == if limit < l0.len() {
            limit as int
        } else {
            l0.len() as int
        },
    ensures
        is_prefix_listing(l0.take(n), m, p, rev, limit),
{
    let l = l0.take(n);
    assert forall|i: int| 0 <= i < l.len() implies m.contains_pair((#[trigger] l[i]).0, l[i].1)
        && starts_with(l[i].0, p) by {
        assert(l[i] == l0[i]);
        assert(in_window(l0[i].0, p, hi));
    }
    if l.len() < limit {
        assert forall|k: Seq<u8>| #[trigger] m.dom().contains(k) && starts_with(k, p) implies
            listing_has_key(l, k) by {
            assert(in_window(k, p, hi));
            let i = choose|i: int| 0 <= i < l0.len() && (#[trigger] l0[i]).0 == k;
            assert(l[i] == l0[i]);
        }
    }
    if l.len() == limit && limit > 0 {
        assert forall|k: Seq<u8>|
            #[trigger] m.dom().contains(k) && starts_with(k, p) && !listing_has_key(l, k) implies (
        if rev {
            lex_lt(k, l[l.len() - 1].0)
        } else {
            lex_lt(l[l.len() - 1].0, k)
        }) by {
            assert(in_window(k, p, hi));
            assert(listing_has_key(l0, k));
            let i = choose|i: int| 0 <= i < l0.len() && (#[trigger] l0[i]).0 == k;
            assert(i >= n) by {
                if i < n {
                    assert(l[i] == l0[i]);
                }
            }
            assert(l[n - 1] == l0[n - 1]);
        }
    }
}

/// `k` is the maximum key of `m`.
pub open spec fn max_key_entry(m: Map<Seq<u8>, Seq<u8>>, k: Seq<u8>) -> bool {
    m.dom().contains(k) && forall|k2: Seq<u8>|
        m.dom().contains(k2) ==> crate::order::lex_le(k2, k)
}

/// One open storage engine.
pub enum GenericDatabase {
    Fjall { keyspace: fjall::Keyspace, db: fjall::PartitionHandle },
    Sled(sled::Db),
    Redb(redb::Database),
}

impl GenericDatabase {
    /// The abstract contents of the engine: its keys and values.
    pub open spec fn contents(self) -> Map<Seq<u8>, Seq<u8>> {
        match self {
            GenericDatabase::Fjall { keyspace, db } => fjall_store::fjall_contents(db),
            GenericDatabase::Sled(db) => sled_store::sled_contents(db),
            GenericDatabase::Redb(db) => redb_store::redb_contents(db),
        }
    }

    /// Which engine this is.
    pub open spec fn kind(self) -> Backend {
        match self {
            GenericDatabase::Fjall { .. } => Backend::Fjall,
            GenericDatabase::Sled(_) => Backend::Sled,
            GenericDatabase::Redb(_) => Backend::Redb,
        }
    }
}

/// Keys every engine accepts: non-empty and at most 65535 bytes (the
/// strictest engine's limit, imposed uniformly).
pub open spec fn valid_key(k: Seq<u8>) -> bool {
    1 <= k.len() <= 65535
}

/// Values every engine accepts: at most three gibibytes (the strictest
/// engine's limit, imposed uniformly).
pub open spec fn valid_value(v: Seq<u8>) -> bool {
    v.len() <= 0xC000_0000
}

/// One open engine together with the run's metrics registry.
pub struct DatabaseWrapper {
    pub inner: GenericDatabase,
    pub metrics: MetricsRegistry,
}

impl DatabaseWrapper {
    /// The abstract contents of the wrapped engine.
    pub open spec fn contents(self) -> Map<Seq<u8>, Seq<u8>> {
        self.inner.contents()
    }

    /// Open the engine `args` selects, rooted at `path`, with a fresh
    /// metrics registry.
    pub fn load(path: &str, args: &crate::args::RunOptions) -> (r: DatabaseWrapper)
        ensures
            r.inner.kind() == args.backend,
            r.metrics == MetricsRegistry::zeroed(),
    {
        let inner = match args.backend {
            Backend::Sled => GenericDatabase::Sled(sled_store::sled_open(path)),
            Backend::Fjall => {
                let (keyspace, db) = fjall_store::fjall_open(path, args.cache_size);
                GenericDatabase::Fjall { keyspace, db }
            },
            Backend::Redb => GenericDatabase::Redb(
                redb_store::redb_open(path, args.cache_size),
            ),
        };
        DatabaseWrapper { inner, metrics: MetricsRegistry::new() }
    }

    /// Point lookup.  Records one point-read operation and its latency; an
    /// absent key is a `None` result, not an error.
    pub fn get(&mut self, key: &Vec<u8>) -> (r: Option<Vec<u8>>)
        ensures
            final(self).inner == old(self).inner,
            exists|d: u64| final(self).metrics == #[trigger] old(self).metrics.with_point_read(d),
            match r {
                Some(v) => old(self).contents().contains_pair(key@, v@),
                None => !old(self).contents().dom().contains(key@),
            },
    {
        let start = instant_now();
        let r = match &self.inner {
            GenericDatabase::Fjall { keyspace: _, db } => fjall_store::fjall_get(db, key),
            GenericDatabase::Sled(db) => sled_store::sled_get(db, key),
            GenericDatabase::Redb(db) => redb_store::redb_get(db, key),
        };
        let lat = elapsed_nanos(&start);
        self.metrics.record_point_read(lat);
        proof {
            assert(self.metrics == old(self).metrics.with_point_read(lat));
        }
        r
    }

    /// Write or overwrite one key.  When `durable` is set the engine must
    /// make the write crash-safe before returning; either way one write
    /// operation, its latency, and `key.len() + value.len()` logical bytes
    /// are recorded.
    pub fn insert(&mut self, key: &Vec<u8>, value: &Vec<u8>, durable: bool)
        requires
            valid_key(key@),
            valid_value(value@),
        ensures
            final(self).inner.kind() == old(self).inner.kind(),
            final(self).contents() == old(self).contents().insert(key@, value@),
            exists|d: u64|
                final(self).metrics == #[trigger] old(self).metrics.with_write(
                    (key@.len() + value@.len()) as u64,
                    d,
                ),
    {
        let start = instant_now();
        match &mut self.inner {
            GenericDatabase::Fjall { keyspace, db } => {
                fjall_store::fjall_insert(keyspace, db, key, value, durable)
            },
            GenericDatabase::Sled(db) => sled_store::sled_insert(db, key, value, durable),
            GenericDatabase::Redb(db) => redb_store::redb_insert(db, key, value, durable),
        }
        let lat = elapsed_nanos(&start);
        let bytes = key.len() as u64 + value.len() as u64;
        self.metrics.record_write(bytes, lat);
        proof {
            assert(bytes == (key@.len() + value@.len()) as u64);
            assert(self.metrics == old(self).metrics.with_write(bytes, lat));
        }
    }

    /// Delete one key.  `val_len` is the caller's hint of how many logical
    /// bytes the deletion retires; one delete operation, its latency, and
    /// the hint are recorded.
    pub fn remove(&mut self, key: &Vec<u8>, val_len: u64, durable: bool)
        requires
            valid_key(key@),
        ensures
            final(self).inner.kind() == old(self).inner.kind(),
            final(self).contents() == old(self).contents().remove(key@),
            exists|d: u64|
                final(self).metrics == #[trigger] old(self).metrics.with_delete(val_len, d),
    {
        let start = instant_now();
        match &mut self.inner {
            GenericDatabase::Fjall { keyspace, db } => {
                fjall_store::fjall_remove(keyspace, db, key, durable)
            },
            GenericDatabase::Sled(db) => sled_store::sled_remove(db, key, durable),
            GenericDatabase::Redb(db) => redb_store::redb_remove(db, key, durable),
        }
        let lat = elapsed_nanos(&start);
        self.metrics.record_delete(val_len, lat);
        proof {
            assert(self.metrics == old(self).metrics.with_delete(val_len, lat));
        }
    }

    /// All entries with keys in `[lo, hi)`, in ascending key order, or
    /// descending when `rev` is set.  Records one scan operation and its
    /// total latency.
    pub fn range(&mut self, lo: &Vec<u8>, hi: &Vec<u8>, rev: bool) -> (r: Vec<(Vec<u8>, Vec<u8>)>)
        ensures
            final(self).inner == old(self).inner,
            exists|d: u64| final(self).metrics == #[trigger] old(self).metrics.with_scan(d),
            is_window_listing(pair_views(r@), old(self).contents(), lo@, Some(hi@), rev),
    {
        let start = instant_now();
        let r = match &self.inner {
            GenericDatabase::Fjall { keyspace: _, db } => {
                fjall_store::fjall_range(db, lo, Some(hi), rev)
            },
            GenericDatabase::Sled(db) => sled_store::sled_range(db, lo, Some(hi), rev),
            GenericDatabase::Redb(db) => redb_store::redb_range(db, lo, Some(hi), rev),
        };
        let lat = elapsed_nanos(&start);
        self.metrics.record_scan(lat);
        proof {
            assert(self.metrics == old(self).metrics.with_scan(lat));
        }
        r
    }

    /// How many entries lie in `[lo, hi)`.  Records one scan operation.
    pub fn range_len(&mut self, lo: &Vec<u8>, hi: &Vec<u8>, rev: bool) -> (r: usize)
        ensures
            final(self).inner == old(self).inner,
            exists|d: u64| final(self).metrics == #[trigger] old(self).metrics.with_scan(d),
            exists|l: Seq<(Seq<u8>, Seq<u8>)>|
                is_window_listing(l, old(self).contents(), lo@, Some(hi@), rev) && r == l.len(),
    {
        let v = self.range(lo, hi, rev);
        proof {
            let l = pair_views(v@);
            assert(l.len() == v@.len());
            assert(is_window_listing(l, old(self).contents(), lo@, Some(hi@), rev) && v@.len()
                == l.len());
        }
        v.len()
    }

    /// Up to `take` entries whose keys start with `prefix`, in ascending
    /// key order, or descending when `rev` is set.  Records one scan
    /// operation and its total latency.
    pub fn prefix(&mut self, prefix: &Vec<u8>, rev: bool, take: usize) -> (r: Vec<
        (Vec<u8>, Vec<u8>),
    >)
        ensures
            final(self).inner == old(self).inner,
            exists|d: u64| final(self).metrics == #[trigger] old(self).metrics.with_scan(d),
            is_prefix_listing(pair_views(r@), old(self).contents(), prefix@, rev, take as nat),
    {
        let start = instant_now();
        let upper = prefix_upper_bound(prefix);
        let hi: Option<&Vec<u8>> = match &upper {
            Some(u) => Some(u),
            None => None,
        };
        let ghost hi_view: Option<Seq<u8>> = match &upper {
            Some(u) => Some(u@),
            None => None,
        };
        let mut full = match &self.inner {
            GenericDatabase::Fjall { keyspace: _, db } => {
                fjall_store::fjall_range(db, prefix, hi, rev)
            },
            GenericDatabase::Sled(db) => sled_store::sled_range(db, prefix, hi, rev),
            GenericDatabase::Redb(db) => redb_store::redb_range(db, prefix, hi, rev),
        };
        let ghost full0 = pair_views(full@);
        proof {
            assert forall|k: Seq<u8>| #[trigger]
                starts_with(k, prefix@) <==> in_window(k, prefix@, hi_view) by {
                match hi_view {
                    Some(u) => lemma_prefix_window(prefix@, u, k),
                    None => lemma_all_max_window(prefix@, k),
                }
            }
        }
        full.truncate(take);
        proof {
            let n: int = if take < full0.len() {
                take as int
            } else {
                full0.len() as int
            };
            lemma_truncate_prefix_listing(
                full0,
                old(self).contents(),
                prefix@,
                hi_view,
                rev,
                n,
                take as nat,
            );
            assert(pair_views(full@) =~= full0.take(n));
        }
        let lat = elapsed_nanos(&start);
        self.metrics.record_scan(lat);
        proof {
            assert(self.metrics == old(self).metrics.with_scan(lat));
        }
        full
    }

    /// The value of the maximum-key entry, or `None` when the store is
    /// empty.  Records one scan operation.
    pub fn last(&mut self) -> (r: Option<Vec<u8>>)
        ensures
            final(self).inner == old(self).inner,
            exists|d: u64| final(self).metrics == #[trigger] old(self).metrics.with_scan(d),
            match r {
                Some(v) => exists|k: Seq<u8>|
                    #[trigger] max_key_entry(old(self).contents(), k) && old(self).contents()[k]
                        == v@,
                None => forall|k: Seq<u8>| !old(self).contents().dom().contains(k),
            },
    {
        let start = instant_now();
        let kv = match &self.inner {
            GenericDatabase::Fjall { keyspace: _, db } => fjall_store::fjall_last(db),
            GenericDatabase::Sled(db) => sled_store::sled_last(db),
            GenericDatabase::Redb(db) => redb_store::redb_last(db),
        };
        let lat = elapsed_nanos(&start);
        self.metrics.record_scan(lat);
        proof {
            assert(self.metrics == old(self).metrics.with_scan(lat));
        }
        match kv {
            Some(kv) => {
                proof {
                    assert(max_key_entry(old(self).contents(), kv.0@) && old(
                        self,
                    ).contents()[kv.0@] == kv.1@);
                }
                Some(kv.1)
            },
            None => None,
        }
    }

    /// The length of the maximum-key entry's value, or `None` when the
    /// store is empty.  Records one scan operation.
    pub fn last_len(&mut self) -> (r: Option<usize>)
        ensures
            final(self).inner == old(self).inner,
            exists|d: u64| final(self).metrics == #[trigger] old(self).metrics.with_scan(d),
            match r {
                Some(n) => exists|k: Seq<u8>|
                    #[trigger] max_key_entry(old(self).contents(), k) && n == old(
                        self,
                    ).contents()[k].len(),
                None => forall|k: Seq<u8>| !old(self).contents().dom().contains(k),
            },
    {
        let start = instant_now();
        let kv = match &self.inner {
            GenericDatabase::Fjall { keyspace: _, db } => fjall_store::fjall_last(db),
            GenericDatabase::Sled(db) => sled_store::sled_last(db),
            GenericDatabase::Redb(db) => redb_store::redb_last(db),
        };
        let lat = elapsed_nanos(&start);
        self.metrics.record_scan(lat);
        proof {
            assert(self.metrics == old(self).metrics.with_scan(lat));
        }
        match kv {
            Some(kv) => {
                proof {
                    assert(max_key_entry(old(self).contents(), kv.0@) && old(
                        self,
                    ).contents()[kv.0@] == kv.1@);
                }
                Some(kv.1.len())
            },
            None => None,
        }
    }

    /// The length of the value stored under `key`, or `None` if the key is
    /// absent.  Records one point-read operation: the caller pays for the
    /// value read even though only its length is kept.
    pub fn len_of_value(&mut self, key: &Vec<u8>) -> (r: Option<usize>)
        ensures
            final(self).inner == old(self).inner,
            exists|d: u64| final(self).metrics == #[trigger] old(self).metrics.with_point_read(d),
            match r {
                Some(n) => old(self).contents().dom().contains(key@) && n == old(
                    self,
                ).contents()[key@].len(),
                None => !old(self).contents().dom().contains(key@),
            },
    {
        let start = instant_now();
        let v = match &self.inner {
            GenericDatabase::Fjall { keyspace: _, db } => fjall_store::fjall_get(db, key),
            GenericDatabase::Sled(db) => sled_store::sled_get(db, key),
            GenericDatabase::Redb(db) => redb_store::redb_get(db, key),
        };
        let lat = elapsed_nanos(&start);
        self.metrics.record_point_read(lat);
        proof {
            assert(self.metrics == old(self).metrics.with_point_read(lat));
        }
        match v {
            Some(v) => Some(v.len()),
            None => None,
        }
    }
}

} // verus!
