use kv_bench_core::args::RunOptions;
use kv_bench_core::db::{Backend, DatabaseWrapper};
use kv_bench_core::workload::{
    all_keys_valid, evict_overshoot, feed_action, feed_post_step, feed_read_step,
    monotonic_point_read, timeseries_write_step, FeedOp, Workload,
};

fn open(data_dir: &str) -> DatabaseWrapper {
    let opts = RunOptions {
        backend: Backend::Sled,
        data_dir: String::from(data_dir),
        out: String::from("/tmp/kvb_out.jsonl"),
        display_name: None,
        workload: Workload::TimeseriesWrite,
        minutes: 1,
        granularity_ms: 500,
        cache_size: 16_000_000,
    };
    DatabaseWrapper::load(data_dir, &opts)
}

#[test]
fn feed_policy_writes_one_draw_in_ten() {
    for draw in 0..90 {
        assert_eq!(feed_action(draw), FeedOp::ReadFeed);
    }
    for draw in 90..100 {
        assert_eq!(feed_action(draw), FeedOp::NewPost);
    }
}

#[test]
fn timeseries_step_writes_key_as_value() {
    let mut db = open("/tmp/kvb_ts");
    timeseries_write_step(&mut db, 5);
    timeseries_write_step(&mut db, 6);
    assert_eq!(db.metrics.write_ops, 2);
    // Sixteen key bytes plus sixteen value bytes per step.
    assert_eq!(db.metrics.written_bytes, 64);
    assert!(monotonic_point_read(&mut db, 5));
    assert!(monotonic_point_read(&mut db, 6));
    assert!(!monotonic_point_read(&mut db, 7));
    assert_eq!(db.metrics.read_ops, 3);
}

#[test]
fn feed_steps_store_and_find_the_profile() {
    let mut db = open("/tmp/kvb_feed");
    // The profile is stored under user#p; a post under user#f#id.
    db.insert(&b"u0000003#p".to_vec(), &b"profile".to_vec(), false);
    feed_post_step(&mut db, 3, &b"01HZX".to_vec(), &b"post body".to_vec(), false);
    let (found, posts) = feed_read_step(&mut db, 3, 10);
    assert!(found);
    assert_eq!(posts, 1);
    let (missing, none) = feed_read_step(&mut db, 4, 10);
    assert!(!missing);
    assert_eq!(none, 0);
    assert_eq!(db.metrics.read_ops, 2);
    assert_eq!(db.metrics.scan_ops, 2);
}

#[test]
fn feed_read_caps_at_the_requested_posts() {
    let mut db = open("/tmp/kvb_feed_cap");
    db.insert(&b"u0000009#p".to_vec(), &b"profile".to_vec(), false);
    for i in 0..15u8 {
        let id = vec![b'a' + (i % 26)];
        feed_post_step(&mut db, 9, &id, &b"x".to_vec(), false);
    }
    let (found, posts) = feed_read_step(&mut db, 9, 10);
    assert!(found);
    assert_eq!(posts, 10);
}

#[test]
fn feed_post_ids_may_use_the_whole_key_budget() {
    // The only bound on a post id is the engines' key budget: the user
    // namespace takes 11 bytes, the id the rest.
    let mut db = open("/tmp/kvb_feed_long");
    db.insert(&b"u0000011#p".to_vec(), &b"profile".to_vec(), false);
    let long_id = vec![b'z'; 65524];
    feed_post_step(&mut db, 11, &long_id, &b"body".to_vec(), false);
    let (found, posts) = feed_read_step(&mut db, 11, 10);
    assert!(found);
    assert_eq!(posts, 1);
}

#[test]
fn eviction_removes_all_but_the_retained() {
    let mut db = open("/tmp/kvb_evict");
    for i in 0..8u8 {
        let key = vec![b'e', b'v', b'#', b'0' + i];
        db.insert(&key, &b"doc".to_vec(), false);
    }
    let items = db.prefix(&b"ev#".to_vec(), false, 1000);
    assert_eq!(items.len(), 8);
    assert!(all_keys_valid(&items));
    let hint_total: u64 = items.iter().take(3).map(|kv| kv.1.len() as u64).sum();
    let removed = evict_overshoot(&mut db, &items, 5);
    assert_eq!(removed, 3);
    assert_eq!(db.metrics.delete_ops, 3);
    assert_eq!(db.metrics.deleted_bytes, hint_total);
    // The oldest three are gone; the newest five remain.
    assert_eq!(db.get(&b"ev#0".to_vec()), None);
    assert_eq!(db.get(&b"ev#2".to_vec()), None);
    assert_eq!(db.get(&b"ev#3".to_vec()), Some(b"doc".to_vec()));
    assert_eq!(db.prefix(&b"ev#".to_vec(), false, 1000).len(), 5);
}

#[test]
fn eviction_below_the_threshold_removes_nothing() {
    let mut db = open("/tmp/kvb_evict_low");
    db.insert(&b"lw#1".to_vec(), &b"doc".to_vec(), false);
    let items = db.prefix(&b"lw#".to_vec(), false, 1000);
    let removed = evict_overshoot(&mut db, &items, 5);
    assert_eq!(removed, 0);
    assert_eq!(db.metrics.delete_ops, 0);
    assert_eq!(db.get(&b"lw#1".to_vec()), Some(b"doc".to_vec()));
}

#[test]
fn key_validity_check_rejects_the_empty_key() {
    let good: Vec<(Vec<u8>, Vec<u8>)> = vec![(b"k".to_vec(), Vec::new())];
    assert!(all_keys_valid(&good));
    let bad: Vec<(Vec<u8>, Vec<u8>)> = vec![(Vec::new(), Vec::new())];
    assert!(!all_keys_valid(&bad));
}
