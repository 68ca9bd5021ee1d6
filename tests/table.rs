use std::cell::Cell;

use typedcache::error::Error;
use typedcache::item::CacheItem;
use typedcache::table::{CacheTable, Notice, NoticeKind, SchedulerState};
use typedcache::typed::typedvalue::TypedValueBase;
use typedcache::typed::TypedMap;

#[derive(Debug, Clone, Eq, PartialEq, Hash)]
pub struct TestKey(usize);

impl TypedMap for TestKey {
    type Value = TestValue;
}

#[derive(Debug, PartialEq)]
pub struct TestValue(usize);

type Table = CacheTable<TestKey, TestValue>;

const MS: u64 = 1_000_000;

fn notice(kind: NoticeKind, callback: u64, item: usize) -> Notice {
    Notice { kind, callback, item }
}

#[test]
fn not_found_add() {
    let mut cache: Table = CacheTable::new("test".into());
    assert!(cache.not_found_add(TestKey(1), 0, TestValue(1), 0));
    assert!(!cache.not_found_add(TestKey(1), 0, TestValue(1), 0));
}

#[test]
fn not_found_add_keeps_first_value() {
    let mut cache: Table = CacheTable::new("t".into());
    let results: Vec<bool> = (0..5)
        .map(|i| cache.not_found_add(TestKey(3), 0, TestValue(10 + i), 0))
        .collect();
    assert_eq!(results, vec![true, false, false, false, false]);
    assert_eq!(cache.count(), 1);
    assert_eq!(cache.get(&TestKey(3)).unwrap().value, TestValue(10));
}

#[test]
fn item_expires_after_its_life_span() {
    let mut cache: Table = CacheTable::new("t".into());
    assert!(cache.add(TestKey(1), 200 * MS, TestValue(1), 0).is_none());
    let removed = cache.expire(100 * MS);
    assert!(removed.is_empty());
    assert!(cache.get(&TestKey(1)).is_some());
    assert_eq!(cache.scheduler_state(), SchedulerState::Armed(100 * MS));
    let removed = cache.expire(400 * MS);
    assert_eq!(removed.len(), 1);
    assert_eq!(removed[0].key, TestKey(1));
    assert!(cache.get(&TestKey(1)).is_none());
    assert_eq!(cache.value(TestKey(1), 400 * MS).err(), Some(Error::KeyNotFound));
    assert_eq!(cache.scheduler_state(), SchedulerState::Idle);
}

#[test]
fn expiry_at_exactly_the_life_span() {
    let mut cache: Table = CacheTable::new("t".into());
    cache.add(TestKey(1), 200 * MS, TestValue(1), 50 * MS);
    assert!(cache.expire(249 * MS).is_empty());
    assert_eq!(cache.scheduler_state(), SchedulerState::Armed(MS));
    assert_eq!(cache.expire(250 * MS).len(), 1);
}

#[test]
fn sweep_arms_with_least_time_left() {
    let mut cache: Table = CacheTable::new("t".into());
    cache.add(TestKey(1), 500 * MS, TestValue(1), 0);
    cache.add(TestKey(2), 200 * MS, TestValue(2), 0);
    cache.add(TestKey(3), 0, TestValue(3), 0);
    cache.add(TestKey(4), 50 * MS, TestValue(4), 0);
    let removed = cache.expire(100 * MS);
    assert_eq!(removed.len(), 1);
    assert_eq!(removed[0].key, TestKey(4));
    assert_eq!(cache.count(), 3);
    assert_eq!(cache.scheduler_state(), SchedulerState::Armed(100 * MS));
}

#[test]
fn keep_alive_extends_life() {
    let mut cache: Table = CacheTable::new("t".into());
    cache.add(TestKey(1), 200 * MS, TestValue(1), 0);
    assert!(cache.value(TestKey(1), 150 * MS).is_ok());
    assert!(cache.expire(300 * MS).is_empty());
    assert_eq!(cache.expire(350 * MS).len(), 1);
}

#[test]
fn value_counts_accesses() {
    let mut cache: Table = CacheTable::new("t".into());
    cache.add(TestKey(1), 0, TestValue(1), 10);
    let first = cache.value(TestKey(1), 20).unwrap();
    assert_eq!(first.access_count(), 1);
    assert_eq!(first.accessed_on(), 20);
    assert_eq!(first.created_on(), 10);
    let second = cache.value(TestKey(1), 35).unwrap();
    assert_eq!(second.access_count(), 2);
    assert_eq!(second.accessed_on(), 35);
    let third = cache.value(TestKey(1), 30).unwrap();
    assert_eq!(third.access_count(), 3);
    assert_eq!(third.accessed_on(), 35);
}

#[test]
fn get_records_no_access() {
    let mut cache: Table = CacheTable::new("t".into());
    cache.add(TestKey(1), 0, TestValue(1), 10);
    let it = cache.get(&TestKey(1)).unwrap();
    assert_eq!(it.access_count(), 0);
    assert_eq!(it.accessed_on(), 10);
    assert!(cache.get(&TestKey(2)).is_none());
}

#[test]
fn delete_absent_key_fails() {
    let mut cache: Table = CacheTable::new("t".into());
    cache.set_about_to_delete_item_callback(1);
    assert_eq!(cache.delete(&TestKey(9)).err(), Some(Error::KeyNotFound));
    assert!(cache.take_notices().is_empty());
}

#[test]
fn delete_tears_down_in_order() {
    let mut cache: Table = CacheTable::new("t".into());
    cache.set_about_to_delete_item_callback(7);
    cache.add_about_to_delete_item_callback(8);
    let mut item = CacheItem::new(TestKey(1), 0, TestValue(1), 0);
    item.set_about_to_expire_callback(9);
    item.add_about_to_expire_callback(10);
    assert!(cache.load(TestKey(1), Some(item)).is_ok());
    cache.take_notices();
    let removed = cache.delete(&TestKey(1)).unwrap();
    assert_eq!(removed.value, TestValue(1));
    assert_eq!(cache.count(), 0);
    assert_eq!(
        cache.take_notices(),
        vec![
            notice(NoticeKind::ItemAboutToDelete, 7, 0),
            notice(NoticeKind::ItemAboutToDelete, 8, 0),
            notice(NoticeKind::KeyAboutToExpire, 9, 0),
            notice(NoticeKind::KeyAboutToExpire, 10, 0),
        ]
    );
    assert!(cache.take_notices().is_empty());
}

#[test]
fn sweep_tears_down_each_item() {
    let mut cache: Table = CacheTable::new("t".into());
    cache.set_about_to_delete_item_callback(1);
    let mut a = CacheItem::new(TestKey(1), 10, TestValue(1), 0);
    a.set_about_to_expire_callback(5);
    cache.load(TestKey(1), Some(a)).unwrap();
    cache.add(TestKey(2), 0, TestValue(2), 0);
    cache.add(TestKey(3), 10, TestValue(3), 0);
    cache.take_notices();
    let removed = cache.expire(10);
    assert_eq!(removed.len(), 2);
    assert_eq!(removed[0].key, TestKey(1));
    assert_eq!(removed[1].key, TestKey(3));
    assert_eq!(
        cache.take_notices(),
        vec![
            notice(NoticeKind::ItemAboutToDelete, 1, 0),
            notice(NoticeKind::KeyAboutToExpire, 5, 0),
            notice(NoticeKind::ItemAboutToDelete, 1, 1),
        ]
    );
}

#[test]
fn loader_fills_a_miss_once() {
    let mut cache: Table = CacheTable::new("t".into());
    let calls = Cell::new(0usize);
    let loader = |k: &TestKey| {
        calls.set(calls.get() + 1);
        Some(CacheItem::new(k.clone(), 0, TestValue(k.0 * 2), 5))
    };
    let first = cache.value_or_load(TestKey(21), 5, &loader).unwrap();
    assert_eq!(first.value, TestValue(42));
    assert_eq!(calls.get(), 1);
    let second = cache.value_or_load(TestKey(21), 6, &loader).unwrap();
    assert_eq!(second.value, TestValue(42));
    assert_eq!(second.access_count(), 1);
    assert_eq!(calls.get(), 1);
    assert_eq!(cache.count(), 1);
}

#[test]
fn loader_that_declines() {
    let mut cache: Table = CacheTable::new("t".into());
    let loader = |_: &TestKey| None;
    assert_eq!(
        cache.value_or_load(TestKey(1), 0, &loader).err(),
        Some(Error::KeyNotFoundOrLoadable)
    );
    assert_eq!(cache.count(), 0);
}

#[test]
fn loaded_item_is_stored_under_the_requested_key() {
    let mut cache: Table = CacheTable::new("t".into());
    let loader = |_: &TestKey| Some(CacheItem::new(TestKey(99), 0, TestValue(7), 0));
    let it = cache.value_or_load(TestKey(1), 0, &loader).unwrap();
    assert_eq!(it.key, TestKey(1));
    assert!(cache.key_exists(TestKey(1)));
    assert!(!cache.key_exists(TestKey(99)));
}

#[test]
fn flush_empties_and_idles() {
    let mut cache: Table = CacheTable::new("t".into());
    cache.set_about_to_delete_item_callback(1);
    cache.add(TestKey(1), 100, TestValue(1), 0);
    cache.add(TestKey(2), 300, TestValue(2), 0);
    cache.expire(50);
    assert_eq!(cache.scheduler_state(), SchedulerState::Armed(50));
    cache.take_notices();
    cache.take_wake();
    cache.flush();
    assert_eq!(cache.count(), 0);
    assert_eq!(cache.scheduler_state(), SchedulerState::Idle);
    assert!(cache.take_notices().is_empty());
    cache.add(TestKey(3), 1000, TestValue(3), 60);
    assert!(cache.take_wake());
}

#[test]
fn unexpiring_item_survives() {
    let mut cache: Table = CacheTable::new("t".into());
    cache.add(TestKey(1), 0, TestValue(1), 0);
    assert!(cache.expire(u64::MAX).is_empty());
    assert!(cache.key_exists(TestKey(1)));
    assert_eq!(cache.scheduler_state(), SchedulerState::Idle);
    assert!(!cache.take_wake());
}

#[test]
fn add_replaces_and_returns_previous() {
    let mut cache: Table = CacheTable::new("t".into());
    assert!(cache.add(TestKey(1), 0, TestValue(1), 0).is_none());
    let prev = cache.add(TestKey(1), 0, TestValue(2), 0).unwrap();
    assert_eq!(prev.value, TestValue(1));
    assert_eq!(cache.count(), 1);
    assert_eq!(cache.get(&TestKey(1)).unwrap().value, TestValue(2));
}

#[test]
fn add_wakes_only_for_sooner_expiry() {
    let mut cache: Table = CacheTable::new("t".into());
    cache.add(TestKey(1), 100, TestValue(1), 0);
    assert!(cache.take_wake());
    cache.expire(0);
    assert_eq!(cache.scheduler_state(), SchedulerState::Armed(100));
    cache.add(TestKey(2), 200, TestValue(2), 0);
    assert!(!cache.take_wake());
    cache.add(TestKey(3), 0, TestValue(3), 0);
    assert!(!cache.take_wake());
    cache.add(TestKey(4), 50, TestValue(4), 0);
    assert!(cache.take_wake());
}

#[test]
fn added_item_callbacks_are_queued() {
    let mut cache: Table = CacheTable::new("t".into());
    cache.add_added_item_callback(3);
    cache.add_added_item_callback(4);
    cache.add(TestKey(1), 0, TestValue(1), 0);
    assert_eq!(
        cache.take_notices(),
        vec![notice(NoticeKind::ItemAdded, 3, 0), notice(NoticeKind::ItemAdded, 4, 0)]
    );
    cache.set_added_item_callback(5);
    cache.not_found_add(TestKey(2), 0, TestValue(2), 0);
    cache.not_found_add(TestKey(2), 0, TestValue(2), 0);
    assert_eq!(cache.take_notices(), vec![notice(NoticeKind::ItemAdded, 5, 0)]);
    cache.remove_added_item_callbacks();
    cache.add(TestKey(3), 0, TestValue(3), 0);
    assert!(cache.take_notices().is_empty());
}

#[test]
fn remove_about_to_delete_callbacks() {
    let mut cache: Table = CacheTable::new("t".into());
    cache.add_about_to_delete_item_callback(3);
    cache.remove_about_to_delete_item_callbacks();
    cache.add(TestKey(1), 0, TestValue(1), 0);
    cache.take_notices();
    cache.delete(&TestKey(1)).unwrap();
    assert!(cache.take_notices().is_empty());
}

#[test]
fn foreach_visits_every_entry() {
    let mut cache: Table = CacheTable::new("t".into());
    cache.add(TestKey(1), 0, TestValue(1), 0);
    cache.add(TestKey(2), 0, TestValue(2), 0);
    let sum = Cell::new(0usize);
    cache.foreach(|k: &TestKey, it: &CacheItem<TestKey, TestValue>| {
        sum.set(sum.get() + k.0 * 10 + it.value.0)
    });
    assert_eq!(sum.get(), 33);
}

#[test]
fn item_callbacks_and_counter() {
    let mut item = CacheItem::new(TestKey(1), 5, TestValue(1), 3);
    item.add_about_to_expire_callback(1);
    item.add_about_to_expire_callback(2);
    assert_eq!(item.about_to_expire, vec![1, 2]);
    item.set_about_to_expire_callback(3);
    assert_eq!(item.about_to_expire, vec![3]);
    item.remove_about_to_expire_callback();
    assert!(item.about_to_expire.is_empty());
    assert_eq!(item.life_span(), 5);
    assert_eq!(*item.key(), TestKey(1));
    assert_eq!(*item.value(), TestValue(1));
    item.access_count = usize::MAX;
    item.keep_alive(4);
    assert_eq!(item.access_count(), 0);
    assert!(item.is_expired(9));
    assert!(!item.is_expired(8));
    assert_eq!(item.remaining(6), 3);
}

#[test]
fn typed_value_round_trip() {
    let v = TypedValueBase::from_value(TestValue(4));
    assert_eq!(v.downcast_ref(), Some(&TestValue(4)));
    let mut v = v;
    if let Some(inner) = v.downcast_mut() {
        inner.0 = 5;
    }
    assert_eq!(v.downcast(), Some(TestValue(5)));
}

#[test]
fn error_messages() {
    assert_eq!(Error::KeyNotFound.message(), "Key not found in cache");
    assert_eq!(
        Error::KeyNotFoundOrLoadable.message(),
        "Key not found and could not be loaded into cache"
    );
}
