use kv_bench_core::keys::{
    domain_item_key, domain_prefix, feed_prefix, monotonic_key, post_key, profile_key, user_key,
};
use kv_bench_core::order::prefix_upper_bound;
use kv_bench_core::workload::garage_entry;

#[test]
fn monotonic_key_is_sixteen_big_endian_bytes() {
    assert_eq!(monotonic_key(0), vec![0u8; 16]);
    let k = monotonic_key(258);
    let mut expected = vec![0u8; 16];
    expected[14] = 1;
    expected[15] = 2;
    assert_eq!(k, expected);
    // Later counters sort after earlier ones.
    assert!(monotonic_key(999) < monotonic_key(1000));
}

#[test]
fn user_key_zero_pads_to_seven_digits() {
    assert_eq!(user_key(7), b"u0000007".to_vec());
    assert_eq!(user_key(1234567), b"u1234567".to_vec());
}

#[test]
fn feed_keys_namespace_under_the_user() {
    let user = user_key(42);
    assert_eq!(profile_key(&user), b"u0000042#p".to_vec());
    assert_eq!(feed_prefix(&user), b"u0000042#f#".to_vec());
    assert_eq!(post_key(&user, &b"abc".to_vec()), b"u0000042#f#abc".to_vec());
}

#[test]
fn webtable_keys_namespace_under_the_domain() {
    let domain = b"com.example.www".to_vec();
    assert_eq!(domain_prefix(&domain), b"com.example.www#".to_vec());
    assert_eq!(
        domain_item_key(&domain, &b"0001".to_vec()),
        b"com.example.www#0001".to_vec()
    );
}

#[test]
fn prefix_upper_bound_increments_the_last_byte() {
    assert_eq!(prefix_upper_bound(&b"ab#".to_vec()), Some(b"ab$".to_vec()));
    // A trailing 0xff run is stripped before the increment.
    assert_eq!(
        prefix_upper_bound(&vec![b'a', 0xff, 0xff]),
        Some(vec![b'b'])
    );
    // All-0xff prefixes have no upper bound.
    assert_eq!(prefix_upper_bound(&vec![0xff, 0xff]), None);
    assert_eq!(prefix_upper_bound(&Vec::new()), None);
}

#[test]
fn garage_entry_hashes_the_first_id() {
    let u1 = b"AAAAAAAAAAAAAAAA".to_vec();
    let u2 = b"BBBBBBBBBBBBBBBB".to_vec();
    let (key, val) = garage_entry(&u1, &u2);
    assert_eq!(key.len(), 48);
    assert_eq!(&key[32..], &u2[..]);
    // The digest is deterministic and is not the id handed in.
    let (key2, _) = garage_entry(&u1, &u2);
    assert_eq!(key, key2);
    assert_ne!(&key[..16], &u1[..]);
    let (other, _) = garage_entry(&b"AAAAAAAAAAAAAAAB".to_vec(), &u2);
    assert_ne!(&key[..32], &other[..32]);
    assert_eq!(val.len(), 49);
    assert_eq!(&val[..48], &key[..]);
    assert_eq!(val[48], 0);
}
