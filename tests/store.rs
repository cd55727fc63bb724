use justshop::shopping_list::{all_keyed_by_id, DeleteFilter, ShoppingItem, ShoppingList};
use justshop::state::{load_state, SnapshotFile, StateError};
use std::collections::HashMap;

fn item(id: u128, content: &str, checked: bool, timestamp: i64) -> ShoppingItem {
    ShoppingItem { id, content: content.to_string(), checked, timestamp }
}

#[test]
fn milk_and_bread_scenario() {
    let mut list = ShoppingList::new();
    assert!(list.get_snapshot().is_empty());
    list.upsert(item(0xA, "milk", false, 100));
    let snap = list.get_snapshot();
    assert_eq!(snap.len(), 1);
    assert_eq!(snap[&0xA], item(0xA, "milk", false, 100));
    list.upsert(item(0xA, "milk", true, 200));
    let snap = list.get_snapshot();
    assert_eq!(snap.len(), 1);
    assert_eq!(snap[&0xA], item(0xA, "milk", true, 200));
    list.upsert(item(0xB, "bread", true, 150));
    assert_eq!(list.len(), 2);
    let removed = list.delete_where(DeleteFilter::Checked);
    assert_eq!(removed, 2);
    assert!(list.get_snapshot().is_empty());
}

#[test]
fn distinct_upserts_give_one_entry_each() {
    let mut list = ShoppingList::new();
    for i in 0..20u128 {
        list.upsert(item(i, &format!("item {}", i), i % 2 == 0, i as i64 - 10));
    }
    let snap = list.get_snapshot();
    assert_eq!(snap.len(), 20);
    for i in 0..20u128 {
        assert_eq!(snap[&i], item(i, &format!("item {}", i), i % 2 == 0, i as i64 - 10));
    }
}

#[test]
fn upsert_replaces_without_merging() {
    let mut list = ShoppingList::new();
    list.upsert(item(7, "eggs", true, 1));
    list.upsert(item(7, "a dozen eggs", false, -5));
    let snap = list.get_snapshot();
    assert_eq!(snap.len(), 1);
    assert_eq!(snap[&7], item(7, "a dozen eggs", false, -5));
}

#[test]
fn upsert_same_record_twice_is_idempotent() {
    let mut list = ShoppingList::new();
    list.upsert(item(3, "tea", false, 9));
    let once = list.get_snapshot();
    list.upsert(item(3, "tea", false, 9));
    assert_eq!(list.get_snapshot(), once);
}

#[test]
fn delete_checked_keeps_unchecked_records() {
    let mut list = ShoppingList::new();
    list.upsert(item(1, "apples", true, 10));
    list.upsert(item(2, "pears", false, 20));
    list.upsert(item(3, "plums", true, 30));
    list.upsert(item(4, "figs", false, -40));
    let removed = list.delete_where(DeleteFilter::Checked);
    assert_eq!(removed, 2);
    let snap = list.get_snapshot();
    assert_eq!(snap.len(), 2);
    assert_eq!(snap[&2], item(2, "pears", false, 20));
    assert_eq!(snap[&4], item(4, "figs", false, -40));
}

#[test]
fn delete_checked_on_empty_store_removes_nothing() {
    let mut list = ShoppingList::new();
    assert_eq!(list.delete_where(DeleteFilter::Checked), 0);
    assert!(list.get_snapshot().is_empty());
}

#[test]
fn delete_all_empties_the_store() {
    let mut list = ShoppingList::new();
    list.upsert(item(1, "apples", true, 10));
    list.upsert(item(2, "pears", false, 20));
    assert_eq!(list.delete_where(DeleteFilter::All), 2);
    assert!(list.get_snapshot().is_empty());
    assert_eq!(list.len(), 0);
}

#[test]
fn snapshot_is_detached_from_the_store() {
    let mut list = ShoppingList::new();
    list.upsert(item(1, "apples", false, 10));
    let snap = list.get_snapshot();
    list.delete_where(DeleteFilter::All);
    assert_eq!(snap.len(), 1);
    assert_eq!(snap[&1], item(1, "apples", false, 10));
}

#[test]
fn snapshot_reloads_to_equal_contents() {
    let mut list = ShoppingList::new();
    list.upsert(item(u128::MAX, "salt", true, i64::MIN));
    list.upsert(item(0, "", false, i64::MAX));
    list.upsert(item(42, "pepper", false, -1));
    let snap = list.get_snapshot();
    let reloaded = load_state(SnapshotFile::Parsed(snap.clone())).unwrap();
    assert_eq!(reloaded.get_snapshot(), snap);
}

#[test]
fn missing_snapshot_starts_empty() {
    let list = load_state(SnapshotFile::Missing).unwrap();
    assert!(list.get_snapshot().is_empty());
}

#[test]
fn unreadable_snapshot_is_fatal() {
    assert_eq!(load_state(SnapshotFile::Unreadable).unwrap_err(), StateError::Unreadable);
}

#[test]
fn misplaced_record_in_snapshot_is_fatal() {
    let mut m = HashMap::new();
    m.insert(1u128, item(1, "ok", false, 0));
    m.insert(2u128, item(3, "wrong key", false, 0));
    assert!(!all_keyed_by_id(&m));
    assert_eq!(load_state(SnapshotFile::Parsed(m)).unwrap_err(), StateError::MisplacedRecord);
}

#[test]
fn load_rejects_misplaced_and_keeps_contents() {
    let mut list = ShoppingList::new();
    list.upsert(item(5, "rice", false, 1));
    let mut bad = HashMap::new();
    bad.insert(6u128, item(7, "beans", false, 2));
    assert!(!list.load(bad));
    assert_eq!(list.get_snapshot().len(), 1);
    let mut good = HashMap::new();
    good.insert(8u128, item(8, "oats", true, 3));
    assert!(list.load(good.clone()));
    assert_eq!(list.get_snapshot(), good);
}
