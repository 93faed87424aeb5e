use tasklist::store::{StoreCommand, StoreError, TaskStore};
use tasklist::task::{filter_tasks, Filter, Task};
use tasklist::text::normalize;

fn ids(tasks: &[Task]) -> Vec<i64> {
    tasks.iter().map(|t| t.id).collect()
}

fn row(id: i64, title: &str, done: bool, deleted: bool) -> Task {
    Task { id, title: title.to_string(), description: None, done, deleted }
}

#[test]
fn buy_milk_lifecycle() {
    let mut store = TaskStore::new();
    store.add("Buy milk", "");
    assert_eq!(store.tasks().len(), 1);
    let id = store.tasks()[0].id;
    assert_eq!(store.tasks()[0].title, "Buy milk");
    assert!(store.tasks()[0].description.is_none());
    store.toggle_done(id, false);
    assert!(store.tasks()[0].done);
    assert_eq!(ids(&store.filtered(Filter::Completed)), vec![id]);
    assert!(store.filtered(Filter::Active).is_empty());
    store.soft_delete(id);
    assert!(store.filtered(Filter::All).is_empty());
    let deleted = store.filtered(Filter::Deleted);
    assert_eq!(ids(&deleted), vec![id]);
    assert!(deleted[0].done);
}

#[test]
fn two_adds_get_distinct_ids() {
    let mut store = TaskStore::new();
    store.add("A", "");
    store.add("B", "notes");
    let all = store.filtered(Filter::All);
    assert_eq!(all.len(), 2);
    assert_ne!(all[0].id, all[1].id);
    assert_eq!(all[0].title, "A");
    assert_eq!(all[1].title, "B");
    assert_eq!(all[1].description.as_deref(), Some("notes"));
}

#[test]
fn add_trims_and_appends_one_row() {
    let mut store = TaskStore::new();
    store.add("first", "");
    let cmd = store.add("  Walk dog \t", "  around the park \n");
    assert_eq!(store.tasks().len(), 2);
    let t = &store.tasks()[1];
    assert_eq!(t.title, "Walk dog");
    assert_eq!(t.description.as_deref(), Some("around the park"));
    assert!(!t.done);
    assert!(!t.deleted);
    assert_ne!(t.id, store.tasks()[0].id);
    match cmd {
        Some(StoreCommand::Insert { id, title, description }) => {
            assert_eq!(id, t.id);
            assert_eq!(title, "Walk dog");
            assert_eq!(description.as_deref(), Some("around the park"));
        }
        other => panic!("unexpected command {:?}", other),
    }
}

#[test]
fn blank_description_is_absent() {
    let mut store = TaskStore::new();
    store.add("x", " \n\t ");
    assert!(store.tasks()[0].description.is_none());
}

#[test]
fn blank_title_add_is_noop() {
    let mut store = TaskStore::new();
    store.add("A", "");
    assert!(store.add("   ", "anything").is_none());
    assert!(store.add("", "").is_none());
    assert_eq!(store.tasks().len(), 1);
    assert_eq!(store.tasks()[0].title, "A");
}

#[test]
fn blank_title_update_is_noop() {
    let mut store = TaskStore::new();
    store.add("A", "keep");
    let id = store.tasks()[0].id;
    assert!(store.update(id, "  ", "anything").is_none());
    assert_eq!(store.tasks()[0].title, "A");
    assert_eq!(store.tasks()[0].description.as_deref(), Some("keep"));
}

#[test]
fn update_sets_text_only() {
    let mut store = TaskStore::new();
    store.add("A", "old");
    let id = store.tasks()[0].id;
    store.toggle_done(id, false);
    store.soft_delete(id);
    let cmd = store.update(id, " New ", "   ");
    assert!(matches!(cmd, Some(StoreCommand::SetText { .. })));
    let t = &store.tasks()[0];
    assert_eq!(t.title, "New");
    assert!(t.description.is_none());
    assert!(t.done);
    assert!(t.deleted);
}

#[test]
fn restore_is_idempotent() {
    let mut store = TaskStore::new();
    store.add("A", "");
    let id = store.tasks()[0].id;
    store.restore(id);
    let t = &store.tasks()[0];
    assert_eq!(t.title, "A");
    assert!(!t.deleted);
    assert!(!t.done);
    assert_eq!(store.tasks().len(), 1);
}

#[test]
fn soft_delete_is_idempotent() {
    let mut store = TaskStore::new();
    store.add("A", "");
    let id = store.tasks()[0].id;
    store.soft_delete(id);
    store.soft_delete(id);
    assert!(store.tasks()[0].deleted);
    assert_eq!(store.tasks().len(), 1);
}

#[test]
fn delete_then_restore_round_trip() {
    let mut store = TaskStore::new();
    store.add("Read", "a book");
    let id = store.tasks()[0].id;
    store.toggle_done(id, false);
    let cmd = store.soft_delete(id);
    assert!(matches!(cmd, StoreCommand::SetDeleted { deleted: true, .. }));
    let cmd = store.restore(id);
    assert!(matches!(cmd, StoreCommand::SetDeleted { deleted: false, .. }));
    let t = &store.tasks()[0];
    assert_eq!(t.title, "Read");
    assert_eq!(t.description.as_deref(), Some("a book"));
    assert!(t.done);
    assert!(!t.deleted);
}

#[test]
fn toggle_uses_callers_value() {
    let mut store = TaskStore::new();
    store.add("A", "");
    let id = store.tasks()[0].id;
    store.toggle_done(id, false);
    // a stale value flips the row back
    let cmd = store.toggle_done(id, false);
    assert!(matches!(cmd, StoreCommand::SetDone { done: true, .. }));
    assert!(store.tasks()[0].done);
    store.toggle_done(id, true);
    assert!(!store.tasks()[0].done);
}

#[test]
fn operations_on_missing_id_change_nothing() {
    let mut store = TaskStore::new();
    store.add("A", "");
    let id = store.tasks()[0].id;
    store.toggle_done(id + 100, false);
    store.soft_delete(id + 100);
    store.update(id + 100, "B", "");
    let t = &store.tasks()[0];
    assert_eq!(t.title, "A");
    assert!(!t.done);
    assert!(!t.deleted);
}

#[test]
fn filters_partition_tasks() {
    let rows = vec![
        row(1, "a", false, false),
        row(2, "b", true, false),
        row(3, "c", false, true),
        row(4, "d", true, true),
    ];
    assert_eq!(ids(&filter_tasks(&rows, Filter::All)), vec![1, 2]);
    assert_eq!(ids(&filter_tasks(&rows, Filter::Active)), vec![1]);
    assert_eq!(ids(&filter_tasks(&rows, Filter::Completed)), vec![2]);
    assert_eq!(ids(&filter_tasks(&rows, Filter::Deleted)), vec![3, 4]);
}

#[test]
fn filter_of_empty_snapshot_is_empty() {
    let store = TaskStore::new();
    assert!(store.filtered(Filter::All).is_empty());
    assert!(store.filtered(Filter::Deleted).is_empty());
}

#[test]
fn from_rows_keeps_rows_and_continues_ids() {
    let rows = vec![row(7, "a", false, false), row(3, "b", true, true)];
    let mut store = TaskStore::from_rows(rows).unwrap();
    assert_eq!(ids(store.tasks()), vec![7, 3]);
    store.add("c", "");
    assert_eq!(store.tasks()[2].id, 8);
}

#[test]
fn from_rows_rejects_duplicate_ids() {
    let rows = vec![row(1, "a", false, false), row(1, "b", false, false)];
    assert!(matches!(TaskStore::from_rows(rows), Err(StoreError::DuplicateId)));
}

#[test]
fn from_rows_rejects_empty_title() {
    let rows = vec![row(1, "a", false, false), row(2, "", false, false)];
    assert!(matches!(TaskStore::from_rows(rows), Err(StoreError::EmptyTitle)));
}

#[test]
fn add_stops_when_ids_run_out() {
    let rows = vec![row(i64::MAX, "a", false, false)];
    let mut store = TaskStore::from_rows(rows).unwrap();
    assert!(store.add("b", "").is_none());
    assert_eq!(store.tasks().len(), 1);
}

#[test]
fn normalize_trims_unicode_whitespace() {
    assert_eq!(normalize("  x y \n").as_deref(), Some("x y"));
    assert_eq!(normalize("\u{3000}z\u{a0}").as_deref(), Some("z"));
    assert_eq!(normalize(" \t\r\n"), None);
    assert_eq!(normalize(""), None);
}
