use todo_api::memory::{StoreError, TodoStore};
use todo_api::models::Todo;

fn titled(t: &str) -> String {
    t.to_string()
}

#[test]
fn create_then_get_returns_title_and_not_done() {
    let mut store = TodoStore::new();
    let t = store.create(titled("write report")).unwrap();
    assert_eq!(t.id, 1);
    let got = store.get(t.id).unwrap();
    assert_eq!(got, Todo { id: 1, title: titled("write report"), done: false });
}

#[test]
fn update_then_get_keeps_title() {
    let mut store = TodoStore::new();
    let t = store.create(titled("water plants")).unwrap();
    let u = store.update(t.id, true).unwrap();
    assert_eq!(u, Todo { id: t.id, title: titled("water plants"), done: true });
    let got = store.get(t.id).unwrap();
    assert!(got.done);
    assert_eq!(got.title, "water plants");
    let back = store.update(t.id, false).unwrap();
    assert!(!back.done);
}

#[test]
fn delete_then_get_is_not_found() {
    let mut store = TodoStore::new();
    let t = store.create(titled("a")).unwrap();
    assert!(store.delete(t.id));
    assert!(store.get(t.id).is_none());
    assert!(!store.delete(t.id));
    assert!(store.update(t.id, true).is_none());
}

#[test]
fn empty_title_is_refused_without_trace() {
    let mut store = TodoStore::new();
    assert_eq!(store.create(String::new()), Err(StoreError::EmptyTitle));
    assert!(store.list().is_empty());
    let t = store.create(titled("first")).unwrap();
    assert_eq!(t.id, 1);
}

#[test]
fn list_counts_creates_less_deletes() {
    let mut store = TodoStore::new();
    for i in 0..7 {
        store.create(format!("item {}", i)).unwrap();
    }
    assert!(store.delete(2));
    assert!(store.delete(5));
    assert!(store.delete(7));
    let all = store.list();
    assert_eq!(all.len(), 4);
    let ids: Vec<i64> = all.iter().map(|t| t.id).collect();
    assert_eq!(ids, vec![1, 3, 4, 6]);
    for t in &all {
        assert_eq!(store.get(t.id).as_ref(), Some(t));
    }
}

#[test]
fn ids_are_not_reused_after_delete() {
    let mut store = TodoStore::new();
    store.create(titled("a")).unwrap();
    store.create(titled("b")).unwrap();
    assert!(store.delete(1));
    let c = store.create(titled("c")).unwrap();
    assert_eq!(c.id, 3);
    let ids: Vec<i64> = store.list().iter().map(|t| t.id).collect();
    assert_eq!(ids, vec![2, 3]);
}

#[test]
fn fifty_creates_behind_a_lock_give_distinct_ids() {
    let shared = std::sync::Arc::new(std::sync::Mutex::new(TodoStore::new()));
    for i in 0..50 {
        let handle = std::sync::Arc::clone(&shared);
        let mut guard = handle.lock().unwrap();
        guard.create(format!("task {}", i)).unwrap();
    }
    let all = shared.lock().unwrap().list();
    assert_eq!(all.len(), 50);
    let mut ids: Vec<i64> = all.iter().map(|t| t.id).collect();
    ids.sort();
    ids.dedup();
    assert_eq!(ids.len(), 50);
}

#[test]
fn get_on_empty_store_is_none() {
    let store = TodoStore::new();
    assert!(store.get(1).is_none());
    assert!(store.get(0).is_none());
    assert!(store.get(-1).is_none());
}
