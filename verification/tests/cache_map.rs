use serwus::containers::cache_map::age_within_ttl;
use serwus::containers::cache_map::CacheMap;
use serwus::containers::cache_map::CacheValue;
use std::time::Duration;
use std::time::Instant;

fn wait_for(span: Duration) {
    let start = Instant::now();
    while start.elapsed() < span {
        std::hint::spin_loop();
    }
}

#[test]
fn new_map_holds_nothing() {
    let map: CacheMap<&str, i32> = CacheMap::new(60);
    assert_eq!(map.get(&"a"), None);
    assert_eq!(map.should_retain(&"a"), None);
    assert!(map.entry(&"a").is_none());
    assert_eq!(map.should_retain_at(&"a", 0), None);
}

#[test]
fn insert_then_read_back() {
    let mut map: CacheMap<String, u32> = CacheMap::new(60);
    let key = "answer".to_string();
    assert!(map.insert(key.clone(), 42).is_none());
    assert_eq!(map.get(&key), Some(&42));
    let entry = map.entry(&key).unwrap();
    assert!(entry.is_fresh());
    assert!(entry.should_retain());
    assert_eq!(entry.value.value, Some(42));
    assert_eq!(map.should_retain(&key), Some(true));
    assert_eq!(map.get(&"other".to_string()), None);
}

#[test]
fn second_insert_displaces_first() {
    let mut map: CacheMap<u8, &str> = CacheMap::new(60);
    assert!(map.insert(7, "first").is_none());
    let displaced = map.insert(7, "second");
    let displaced = displaced.unwrap();
    assert_eq!(displaced.value, Some("first"));
    assert!(displaced.is_fresh(60));
    assert_eq!(map.get(&7), Some(&"second"));
}

#[test]
fn insert_leaves_other_keys() {
    let mut map: CacheMap<u8, u8> = CacheMap::new(60);
    map.insert(1, 10);
    map.insert(2, 20);
    assert_eq!(map.get(&1), Some(&10));
    assert_eq!(map.get(&2), Some(&20));
    assert_eq!(map.get(&3), None);
}

#[test]
fn aged_entry_is_stale_but_readable() {
    let mut map: CacheMap<&str, i32> = CacheMap::new(1);
    map.insert("k", 5);
    wait_for(Duration::from_millis(1100));
    assert_eq!(map.should_retain(&"k"), Some(false));
    let entry = map.entry(&"k").unwrap();
    assert!(!entry.is_fresh());
    assert!(!entry.should_retain());
    assert!(entry.value.age() >= 1);
    assert_eq!(map.get(&"k"), Some(&5));
}

#[test]
fn age_equal_to_ttl_is_stale() {
    assert!(age_within_ttl(59, 60));
    assert!(!age_within_ttl(60, 60));
    assert!(!age_within_ttl(61, 60));
    assert!(!age_within_ttl(0, 0));
    let mut map: CacheMap<u32, u32> = CacheMap::new(60);
    map.insert(1, 1);
    let entry = map.entry(&1).unwrap();
    assert!(entry.is_fresh_at(59));
    assert!(!entry.is_fresh_at(60));
    assert!(entry.should_retain_at(59));
    assert!(!entry.should_retain_at(60));
    assert_eq!(map.should_retain_at(&1, 59), Some(true));
    assert_eq!(map.should_retain_at(&1, 60), Some(false));
    assert_eq!(map.should_retain_at(&2, 0), None);
    let slot = CacheValue::from(Some(3));
    assert!(slot.is_fresh_at(59, 60));
    assert!(!slot.is_fresh_at(60, 60));
}

#[test]
fn zero_ttl_is_never_fresh() {
    let mut map: CacheMap<&str, i32> = CacheMap::new(0);
    map.insert("k", 1);
    let entry = map.entry(&"k").unwrap();
    assert!(!entry.is_fresh());
    assert!(!entry.should_retain());
    assert_eq!(map.should_retain(&"k"), Some(false));
    assert_eq!(map.get(&"k"), Some(&1));
}

#[test]
fn scenario_insert_fresh_overwrite() {
    let mut map: CacheMap<&str, i32> = CacheMap::new(60);
    map.insert("a", 1);
    assert!(map.entry(&"a").unwrap().is_fresh());
    map.insert("a", 2);
    assert_eq!(map.get(&"a"), Some(&2));
}

#[test]
fn placeholder_is_never_fresh() {
    let slot: CacheValue<i32> = CacheValue::default();
    assert_eq!(slot.value, None);
    assert!(slot.age() < 60);
    assert!(!slot.is_fresh(60));
    assert!(!slot.is_fresh_at(0, 60));
    assert!(!slot.is_fresh_at(0, u64::MAX));
}

#[test]
fn populated_slot_without_payload_is_fresh() {
    let slot: CacheValue<i32> = CacheValue::from(None);
    assert_eq!(slot.value, None);
    assert!(slot.is_fresh(60));
    assert!(slot.is_fresh_at(0, 1));
}

#[test]
fn payload_through_accessors() {
    let mut map: CacheMap<u8, String> = CacheMap::new(60);
    map.insert(1, "one".to_string());
    let entry = map.entry(&1).unwrap();
    assert_eq!(entry.cached().as_ref(), Some(&"one".to_string()));
    assert_eq!(entry.value.value, Some("one".to_string()));
    let displaced = map.insert(1, "two".to_string()).unwrap();
    assert_eq!(displaced.as_ref(), Some(&"one".to_string()));
    assert_eq!(displaced.into_value(), Some("one".to_string()));
    let placeholder: CacheValue<u8> = CacheValue::default();
    assert_eq!(placeholder.as_ref(), None);
    assert_eq!(placeholder.into_value(), None);
}

#[test]
fn cloned_slot_keeps_payload_and_state() {
    let slot = CacheValue::from(Some("v".to_string()));
    let copy = slot.clone();
    assert_eq!(copy.value, Some("v".to_string()));
    assert!(copy.is_fresh_at(0, 1));
    let placeholder: CacheValue<u8> = CacheValue::default();
    assert!(!placeholder.clone().is_fresh_at(0, 1));
}
