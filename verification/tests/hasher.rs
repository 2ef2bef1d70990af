use std::collections::HashMap;
use std::hash::{BuildHasher, Hasher};
use wyhash::{wyhash_single, WyHash};

#[test]
fn adding_to_map() {
    let hasher = WyHash::with_seed(0);
    let mut map: HashMap<String, String, WyHash> = HashMap::with_hasher(hasher);

    map.insert("Testing".to_string(), "value".to_string());

    assert!(map.contains_key("Testing"));
    assert!(map.get("Testing").unwrap() == "value")
}

#[test]
fn one_write_is_the_one_shot_hash() {
    let data: Vec<u8> = (0u8..200).collect();
    for len in [1usize, 2, 3, 4, 8, 9, 16, 17, 48, 49, 200] {
        for seed in [0u64, 1, 42, u64::MAX] {
            let mut hasher = WyHash::with_seed(seed);
            hasher.write(&data[..len]);
            assert_eq!(hasher.finish(), wyhash_single(&data[..len], seed));
        }
    }
}

#[test]
fn one_write_has_a_known_value() {
    let mut hasher = WyHash::with_seed(42);
    hasher.write(b"hello world");
    assert_eq!(hasher.finish(), 0xf2fd_f178_2c8b_1939);
    assert_eq!(wyhash_single(b"hello world", 42), 0xf2fd_f178_2c8b_1939);
}

#[test]
fn two_writes_are_not_one_write() {
    let mut split = WyHash::with_seed(42);
    split.write(b"hello ");
    split.write(b"world");
    assert_eq!(split.finish(), 0x099a_6317_302a_cc93);

    let mut whole = WyHash::with_seed(42);
    whole.write(b"hello world");
    assert_ne!(split.finish(), whole.finish());
    assert_ne!(split.finish(), wyhash_single(b"hello world", 42));
}

#[test]
fn an_empty_write_salts_the_state() {
    let mut hasher = WyHash::with_seed(42);
    hasher.write(&[]);
    assert_eq!(hasher.finish(), 0x386a_fcf6_dde9_d8b4);
    assert_eq!(wyhash_single(&[], 42), 0x6ce8_e3db_ab1f_b49d);

    let mut hasher = WyHash::with_seed(0);
    hasher.write(&[]);
    assert_eq!(hasher.finish(), 0x1ff5_c292_3a78_8d2c);
    assert_ne!(hasher.finish(), wyhash_single(&[], 0));
}

#[test]
fn two_empty_writes_cancel() {
    let mut hasher = WyHash::with_seed(42);
    let fresh: u64 = hasher.finish();
    hasher.write(&[]);
    assert_ne!(hasher.finish(), fresh);
    hasher.write(&[]);
    assert_eq!(hasher.finish(), fresh);
}

#[test]
fn a_fresh_hasher_mixes_its_seed_with_no_length() {
    assert_eq!(WyHash::with_seed(0).finish(), 0);
    assert_eq!(WyHash::with_seed(42).finish(), 0xe692_ce64_5d8e_b3cb);
}

#[test]
fn finish_leaves_the_hasher_alone() {
    let mut hasher = WyHash::with_seed(5);
    hasher.write(b"abc");
    let first: u64 = hasher.finish();
    assert_eq!(hasher.finish(), first);
    assert_eq!(hasher.finish(), first);

    hasher.write(&[]);
    let chunk: Vec<u8> = (0u8..60).collect();
    hasher.write(&chunk);
    assert_eq!(hasher.finish(), 0x4e3b_daf7_fe7c_68a2);
    assert_eq!(hasher.finish(), 0x4e3b_daf7_fe7c_68a2);
}

#[test]
fn the_order_of_writes_counts() {
    let mut forward = WyHash::with_seed(1);
    forward.write(b"AB");
    forward.write(b"CD");
    let mut backward = WyHash::with_seed(1);
    backward.write(b"CD");
    backward.write(b"AB");
    assert_ne!(forward.finish(), backward.finish());
}

#[test]
fn the_default_hasher_has_seed_zero() {
    let mut default = WyHash::default();
    let mut seeded = WyHash::with_seed(0);
    assert_eq!(default.finish(), seeded.finish());
    default.write(b"key");
    seeded.write(b"key");
    assert_eq!(default.finish(), seeded.finish());
    assert_eq!(default.finish(), wyhash_single(b"key", 0));
}

#[test]
fn built_hashers_start_from_seed_zero() {
    let builder = WyHash::with_seed(99);
    let mut built = builder.build_hasher();
    assert_eq!(built.finish(), WyHash::with_seed(0).finish());
    built.write(b"key");
    assert_eq!(built.finish(), wyhash_single(b"key", 0));

    let mut used = WyHash::with_seed(99);
    used.write(b"something");
    let mut built = used.build_hasher();
    built.write(b"key");
    assert_eq!(built.finish(), wyhash_single(b"key", 0));
}

#[test]
fn a_copy_goes_its_own_way() {
    let mut hasher = WyHash::with_seed(8);
    hasher.write(b"shared");
    let mut copy = hasher;
    let cloned = hasher.clone();
    copy.write(b"more");
    assert_ne!(copy.finish(), hasher.finish());
    assert_eq!(cloned.finish(), hasher.finish());
}

#[test]
fn a_map_finds_many_keys() {
    let mut map: HashMap<u64, u64, WyHash> = HashMap::with_hasher(WyHash::default());
    for n in 0u64..1000 {
        map.insert(n, n * n);
    }
    assert_eq!(map.len(), 1000);
    for n in 0u64..1000 {
        assert_eq!(map.get(&n), Some(&(n * n)));
    }
    assert_eq!(map.get(&1000), None);
}
