use flowlocker::cleaner::{Cleaner, DEFAULT_DELETION_INTERVAL};
use flowlocker::repository::{
    create_new_process, get_process_by_id, update_process_status, LockStore,
};
use flowlocker::status::{OperationStatus, Origin};

fn acquire(store: &mut LockStore, app: &str, process: &str, sla: u64, now: u64, id: &str) {
    create_new_process(
        store,
        app.to_string(),
        process.to_string(),
        sla,
        now,
        id.to_string(),
    )
    .unwrap();
}

// Create a lock with an SLA of one second; two seconds later one
// reconciliation pass moves it to Outdated.
#[test]
fn overdue_lock_becomes_outdated() {
    let mut store = LockStore::new();
    let t: u64 = 1_000_000;
    acquire(&mut store, "app", "job", 1, t, "id-1");
    let cleaner = Cleaner::new(DEFAULT_DELETION_INTERVAL);
    cleaner.run(&mut store, t + 2).unwrap();
    let p = get_process_by_id(&store, "id-1").unwrap();
    assert_eq!(p.status, OperationStatus::Outdated);
    assert_eq!(p.updated_at, t + 2);
    assert_eq!(p.ended_at, t + 2);
}

#[test]
fn lock_within_sla_is_left_alone() {
    let mut store = LockStore::new();
    let t: u64 = 1_000_000;
    acquire(&mut store, "app", "job", 100, t, "id-1");
    Cleaner::new(600).run(&mut store, t + 50).unwrap();
    let p = get_process_by_id(&store, "id-1").unwrap();
    assert_eq!(p.status, OperationStatus::New);
    assert_eq!(p.updated_at, t);
}

// Mark a lock Completed at time T; a pass at T + 601 with retention 600
// deletes it, while a pass at T + 599 leaves it present.
#[test]
fn retention_window_decides_deletion() {
    let mut store = LockStore::new();
    let t: u64 = 2_000_000;
    acquire(&mut store, "app", "job", 3600, t - 10, "id-1");
    update_process_status(&mut store, "id-1", OperationStatus::Completed, t, Origin::Client)
        .unwrap();
    let cleaner = Cleaner::new(600);

    cleaner.run(&mut store, t + 599).unwrap();
    assert!(get_process_by_id(&store, "id-1").is_ok());

    cleaner.run(&mut store, t + 600).unwrap();
    assert!(get_process_by_id(&store, "id-1").is_ok());

    cleaner.run(&mut store, t + 601).unwrap();
    assert!(get_process_by_id(&store, "id-1").is_err());
}

#[test]
fn outdated_records_are_deleted_after_retention() {
    let mut store = LockStore::new();
    let t: u64 = 1_000_000;
    acquire(&mut store, "app", "job", 1, t, "id-1");
    let cleaner = Cleaner::new(600);
    cleaner.run(&mut store, t + 10).unwrap();
    assert_eq!(
        get_process_by_id(&store, "id-1").unwrap().status,
        OperationStatus::Outdated
    );
    cleaner.run(&mut store, t + 10 + 601).unwrap();
    assert!(get_process_by_id(&store, "id-1").is_err());
}

// Running two consecutive passes at the same moment, with no writes in
// between, leaves exactly the state one pass produces.
#[test]
fn pass_is_idempotent() {
    let mut store = LockStore::new();
    let t: u64 = 1_000_000;
    acquire(&mut store, "a", "overdue", 1, t - 100, "id-1");
    acquire(&mut store, "a", "fresh", 3600, t - 100, "id-2");
    acquire(&mut store, "b", "done", 3600, t - 2000, "id-3");
    update_process_status(&mut store, "id-3", OperationStatus::Completed, t - 700, Origin::Client)
        .unwrap();

    let cleaner = Cleaner::new(600);
    cleaner.run(&mut store, t).unwrap();
    let after_one = store.recs.clone();
    cleaner.run(&mut store, t).unwrap();
    assert_eq!(store.recs, after_one);

    // The one pass did what it should: id-1 outdated, id-2 untouched,
    // id-3 deleted.
    assert_eq!(after_one.len(), 2);
    assert_eq!(get_process_by_id(&store, "id-1").unwrap().status, OperationStatus::Outdated);
    assert_eq!(get_process_by_id(&store, "id-2").unwrap().status, OperationStatus::New);
    assert!(get_process_by_id(&store, "id-3").is_err());
}

#[test]
fn pass_on_empty_store_does_nothing() {
    let mut store = LockStore::new();
    Cleaner::new(600).run(&mut store, 42).unwrap();
    assert_eq!(store.recs.len(), 0);
}
