use spl_risk::address::Address;
use spl_risk::cache::Cache;

#[test]
fn test_cache_insert_and_get() {
    let mut cache: Cache<String> = Cache::new(60, 100);
    let key = Address::new([7u8; 32]);
    let value = "test_value".to_string();

    cache.insert(key, value.clone(), 0);

    assert_eq!(cache.get(&key, 0), Some(&value));
}

#[test]
fn test_cache_expiration() {
    let mut cache: Cache<String> = Cache::new(100, 100);
    let key = Address::new([8u8; 32]);
    let value = "test_value".to_string();

    cache.insert(key, value.clone(), 0);
    assert_eq!(cache.get(&key, 0), Some(&value));

    // Exactly at the time-to-live the entry is still valid.
    assert_eq!(cache.get(&key, 100), Some(&value));

    // Past the time-to-live it is gone.
    assert_eq!(cache.get(&key, 150), None);
}

#[test]
fn test_cache_just_past_expiry() {
    let mut cache: Cache<u32> = Cache::new(100, 10);
    let key = Address::new([9u8; 32]);
    cache.insert(key, 5, 1000);
    assert_eq!(cache.get(&key, 1100), Some(&5));
    assert_eq!(cache.get(&key, 1101), None);
}

#[test]
fn test_cache_max_size() {
    let mut cache: Cache<u64> = Cache::new(60, 3);

    for i in 0..5u64 {
        let key = Address::new([i as u8 + 1; 32]);
        cache.insert(key, i, 0);
    }

    let stats = cache.stats(0);
    assert!(stats.size <= 3);
}

#[test]
fn test_cache_clear() {
    let mut cache: Cache<String> = Cache::new(60, 100);

    for i in 0..10u8 {
        cache.insert(Address::new([i + 1; 32]), "value".to_string(), 0);
    }

    assert!(cache.stats(0).size > 0);

    cache.clear();
    assert_eq!(cache.stats(0).size, 0);
}

#[test]
fn test_cache_clone() {
    let mut cache1: Cache<String> = Cache::new(60, 100);
    let key = Address::new([3u8; 32]);

    cache1.insert(key, "value".to_string(), 0);

    let cache2 = cache1.clone();
    assert_eq!(cache2.get(&key, 0), Some(&"value".to_string()));
}

#[test]
fn test_cache_overwrite_same_key() {
    let mut cache: Cache<u32> = Cache::new(60, 10);
    let key = Address::new([4u8; 32]);
    cache.insert(key, 1, 0);
    cache.insert(key, 2, 1);
    assert_eq!(cache.get(&key, 1), Some(&2));
    assert_eq!(cache.stats(1).size, 1);
}

#[test]
fn test_cache_evicts_oldest_when_full() {
    let mut cache: Cache<u32> = Cache::new(1000, 2);
    let k1 = Address::new([1u8; 32]);
    let k2 = Address::new([2u8; 32]);
    let k3 = Address::new([3u8; 32]);
    cache.insert(k1, 10, 0);
    cache.insert(k2, 20, 1);
    cache.insert(k3, 30, 2);
    // k1 was inserted first, so it is the one evicted.
    assert_eq!(cache.get(&k1, 2), None);
    assert_eq!(cache.get(&k2, 2), Some(&20));
    assert_eq!(cache.get(&k3, 2), Some(&30));
    assert_eq!(cache.stats(2).size, 2);
}

#[test]
fn test_cache_capacity_zero_accepts_and_drops() {
    let mut cache: Cache<u32> = Cache::new(60, 0);
    let key = Address::new([5u8; 32]);
    cache.insert(key, 1, 0);
    assert_eq!(cache.get(&key, 0), None);
    assert_eq!(cache.stats(0).size, 0);
}

#[test]
fn test_cache_ttl_zero_expires_immediately() {
    let mut cache: Cache<u32> = Cache::new(0, 10);
    let key = Address::new([6u8; 32]);
    cache.insert(key, 1, 0);
    // Zero elapsed is not strictly more than zero, so the entry is valid...
    assert_eq!(cache.get(&key, 0), Some(&1));
    // ...and one instant later it is expired.
    assert_eq!(cache.get(&key, 1), None);
}

#[test]
fn test_cache_insert_purges_expired() {
    let mut cache: Cache<u32> = Cache::new(10, 100);
    let k1 = Address::new([1u8; 32]);
    let k2 = Address::new([2u8; 32]);
    cache.insert(k1, 1, 0);
    // k1 expires strictly after instant 10; inserting at 50 purges it.
    cache.insert(k2, 2, 50);
    assert_eq!(cache.stats(50).size, 1);
    assert_eq!(cache.get(&k2, 50), Some(&2));
}

#[test]
fn test_cache_stats_counts_expired() {
    let mut cache: Cache<u32> = Cache::new(10, 100);
    let k1 = Address::new([1u8; 32]);
    let k2 = Address::new([2u8; 32]);
    cache.insert(k1, 1, 0);
    cache.insert(k2, 2, 8);
    let stats = cache.stats(15);
    assert_eq!(stats.size, 2);
    assert_eq!(stats.capacity, 100);
    // k1 (inserted at 0) is expired at 15; k2 (inserted at 8) is not.
    assert_eq!(stats.expired_entries, 1);
}
