use flowlocker::errors::{ClientError, Error};
use flowlocker::query::Parameter;
use flowlocker::repository::{
    check_running_processes, create_new_process, delete_process_by_id, get_process_by_id,
    get_processes, get_processes_query, get_running_processes, set_process_status,
    update_process_status, LockStore,
};
use flowlocker::params::{UnlockProcess, UpdateProcess};
use flowlocker::status::{OperationStatus, Origin};

fn acquire(store: &mut LockStore, app: &str, process: &str, sla: u64, now: u64, id: &str) -> Result<String, Error> {
    create_new_process(
        store,
        app.to_string(),
        process.to_string(),
        sla,
        now,
        id.to_string(),
    )
}

// Acquire a lock for a key, acquire again for the same key before
// completion: the second call reports a conflict.
#[test]
fn second_acquire_conflicts() {
    let mut store = LockStore::new();
    let r1 = acquire(&mut store, "x", "y", 60, 1000, "id-1");
    assert_eq!(r1, Ok("id-1".to_string()));
    let r2 = acquire(&mut store, "x", "y", 60, 1001, "id-2");
    assert_eq!(r2, Err(Error::Conflict));
}

// The conflict holds until the active record turns terminal; after that the
// key is free again.
#[test]
fn conflict_until_terminal() {
    let mut store = LockStore::new();
    acquire(&mut store, "x", "y", 60, 1000, "id-1").unwrap();
    acquire(&mut store, "x", "y", 60, 1001, "id-1b").unwrap_err();
    update_process_status(&mut store, "id-1", OperationStatus::InProgress, 1002, Origin::Client)
        .unwrap();
    assert_eq!(acquire(&mut store, "x", "y", 60, 1003, "id-2"), Err(Error::Conflict));
    update_process_status(&mut store, "id-1", OperationStatus::Completed, 1004, Origin::Client)
        .unwrap();
    let r = acquire(&mut store, "x", "y", 60, 1005, "id-3");
    assert_eq!(r, Ok("id-3".to_string()));
}

#[test]
fn different_keys_do_not_conflict() {
    let mut store = LockStore::new();
    acquire(&mut store, "x", "y", 60, 1000, "id-1").unwrap();
    acquire(&mut store, "x", "z", 60, 1000, "id-2").unwrap();
    acquire(&mut store, "w", "y", 60, 1000, "id-3").unwrap();
    assert_eq!(store.recs.len(), 3);
}

#[test]
fn duplicate_id_is_a_storage_error() {
    let mut store = LockStore::new();
    acquire(&mut store, "x", "y", 60, 1000, "id-1").unwrap();
    update_process_status(&mut store, "id-1", OperationStatus::Completed, 1001, Origin::Client)
        .unwrap();
    let r = acquire(&mut store, "x", "y", 60, 1002, "id-1");
    assert_eq!(r, Err(Error::Storage));
}

#[test]
fn get_process_by_id_found_and_not_found() {
    let mut store = LockStore::new();
    acquire(&mut store, "x", "y", 60, 1000, "id-1").unwrap();
    let p = get_process_by_id(&store, "id-1").unwrap();
    assert_eq!(p.process_id, "id-1");
    assert_eq!(p.app, "x");
    assert_eq!(p.process_name, "y");
    assert_eq!(p.status, OperationStatus::New);
    assert_eq!(p.create_at, 1000);
    assert_eq!(p.updated_at, 1000);
    assert_eq!(p.ended_at, 0);
    assert_eq!(p.sla, 60);
    assert_eq!(get_process_by_id(&store, "missing"), Err(Error::NotFound));
}

#[test]
fn check_running_sees_only_active_records_of_the_key() {
    let mut store = LockStore::new();
    acquire(&mut store, "x", "y", 60, 1000, "id-1").unwrap();
    acquire(&mut store, "x", "z", 60, 1000, "id-2").unwrap();
    let running = check_running_processes(&store, "x", "y").unwrap().unwrap();
    assert_eq!(running.len(), 1);
    assert_eq!(running[0].process_id, "id-1");
    update_process_status(&mut store, "id-1", OperationStatus::Canceled, 1001, Origin::Client)
        .unwrap();
    assert_eq!(check_running_processes(&store, "x", "y").unwrap(), None);
}

#[test]
fn update_rejects_invalid_transitions() {
    let mut store = LockStore::new();
    acquire(&mut store, "x", "y", 60, 1000, "id-1").unwrap();
    // A client may not outdate a record.
    assert_eq!(
        update_process_status(&mut store, "id-1", OperationStatus::Outdated, 1001, Origin::Client),
        Err(Error::InvalidTransition)
    );
    update_process_status(&mut store, "id-1", OperationStatus::Completed, 1002, Origin::Client)
        .unwrap();
    // Terminal records accept nothing, not even the same status again.
    for to in [
        OperationStatus::New,
        OperationStatus::InProgress,
        OperationStatus::Completed,
        OperationStatus::Canceled,
        OperationStatus::Outdated,
    ] {
        assert_eq!(
            update_process_status(&mut store, "id-1", to, 1003, Origin::Client),
            Err(Error::InvalidTransition)
        );
    }
    assert_eq!(
        update_process_status(&mut store, "missing", OperationStatus::Completed, 1003, Origin::Client),
        Err(Error::NotFound)
    );
}

#[test]
fn terminal_update_stamps_ended_at() {
    let mut store = LockStore::new();
    acquire(&mut store, "x", "y", 60, 1000, "id-1").unwrap();
    update_process_status(&mut store, "id-1", OperationStatus::InProgress, 1005, Origin::Client)
        .unwrap();
    let p = get_process_by_id(&store, "id-1").unwrap();
    assert_eq!(p.status, OperationStatus::InProgress);
    assert_eq!(p.updated_at, 1005);
    assert_eq!(p.ended_at, 0);
    update_process_status(&mut store, "id-1", OperationStatus::Completed, 1010, Origin::Client)
        .unwrap();
    let p = get_process_by_id(&store, "id-1").unwrap();
    assert_eq!(p.status, OperationStatus::Completed);
    assert_eq!(p.updated_at, 1010);
    assert_eq!(p.ended_at, 1010);
}

#[test]
fn set_process_status_applies_payload_status() {
    let mut store = LockStore::new();
    acquire(&mut store, "x", "y", 60, 1000, "id-1").unwrap();
    let update = UpdateProcess { status: OperationStatus::InProgress };
    set_process_status(&mut store, "id-1", &update, 1001).unwrap();
    assert_eq!(get_process_by_id(&store, "id-1").unwrap().status, OperationStatus::InProgress);
    let unlock = UnlockProcess {};
    set_process_status(&mut store, "id-1", &unlock, 1002).unwrap();
    let p = get_process_by_id(&store, "id-1").unwrap();
    assert_eq!(p.status, OperationStatus::Completed);
    assert_eq!(p.ended_at, 1002);
    // The outdating payload is refused on the client path.
    let mut store2 = LockStore::new();
    acquire(&mut store2, "x", "y", 60, 1000, "id-2").unwrap();
    let bad = UpdateProcess { status: OperationStatus::Outdated };
    assert_eq!(
        set_process_status(&mut store2, "id-2", &bad, 1001),
        Err(Error::InvalidTransition)
    );
}

#[test]
fn delete_is_idempotent() {
    let mut store = LockStore::new();
    acquire(&mut store, "x", "y", 60, 1000, "id-1").unwrap();
    assert_eq!(delete_process_by_id(&mut store, "id-1"), Ok(()));
    assert_eq!(store.recs.len(), 0);
    assert_eq!(delete_process_by_id(&mut store, "id-1"), Ok(()));
    assert_eq!(store.recs.len(), 0);
}

#[test]
fn list_all_and_filtered() {
    let mut store = LockStore::new();
    acquire(&mut store, "a", "p1", 60, 1000, "id-1").unwrap();
    acquire(&mut store, "a", "p2", 60, 1000, "id-2").unwrap();
    acquire(&mut store, "b", "p1", 60, 1000, "id-3").unwrap();
    update_process_status(&mut store, "id-2", OperationStatus::Completed, 1001, Origin::Client)
        .unwrap();

    let all = get_running_processes(&store).unwrap().unwrap();
    assert_eq!(all.len(), 3);

    let by_app = get_processes(&store, Some("a".to_string()), None, None)
        .unwrap()
        .unwrap();
    assert_eq!(by_app.len(), 2);
    assert!(by_app.iter().all(|p| p.app == "a"));

    let by_app_and_status = get_processes(
        &store,
        Some("a".to_string()),
        None,
        Some(OperationStatus::New),
    )
    .unwrap()
    .unwrap();
    assert_eq!(by_app_and_status.len(), 1);
    assert_eq!(by_app_and_status[0].process_id, "id-1");

    let by_name = get_processes(&store, None, Some("p1".to_string()), None)
        .unwrap()
        .unwrap();
    assert_eq!(by_name.len(), 2);

    let nothing = get_processes(&store, Some("zzz".to_string()), None, None)
        .unwrap()
        .unwrap();
    assert!(nothing.is_empty());

    let empty_store = LockStore::new();
    assert_eq!(get_running_processes(&empty_store).unwrap(), None);
}

#[test]
fn listing_query_text() {
    let (q, args) = get_processes_query(
        Some("svc-a".to_string()),
        None,
        Some(OperationStatus::New),
    );
    assert_eq!(q, "SELECT * FROM type::table($1) WHERE app = $2 AND status = $3");
    assert_eq!(
        args,
        vec![
            Parameter::StringArg("process".to_string()),
            Parameter::StringArg("svc-a".to_string()),
            Parameter::StringArg("New".to_string()),
        ]
    );

    let (q, args) = get_processes_query(None, None, None);
    assert_eq!(q, "SELECT * FROM type::table($1)");
    assert_eq!(args.len(), 1);

    let (q, _) = get_processes_query(
        Some("a".to_string()),
        Some("p".to_string()),
        Some(OperationStatus::Completed),
    );
    assert_eq!(
        q,
        "SELECT * FROM type::table($1) WHERE app = $2 AND process_name = $3 AND status = $4"
    );
}

#[test]
fn client_error_mapping() {
    assert_eq!(Error::Conflict.client_status_and_error(), (423, ClientError::Exist));
    assert_eq!(Error::NotFound.client_status_and_error(), (404, ClientError::NotExist));
    assert_eq!(
        Error::InvalidTransition.client_status_and_error(),
        (400, ClientError::ServiceError)
    );
    assert_eq!(Error::Storage.client_status_and_error(), (500, ClientError::ServiceError));
    assert_eq!(Error::TimeConversion.client_status_and_error(), (500, ClientError::ServiceError));
}

#[test]
fn to_response_hides_zero_ended_at() {
    let mut store = LockStore::new();
    acquire(&mut store, "x", "y", 60, 1000, "id-1").unwrap();
    let p = get_process_by_id(&store, "id-1").unwrap();
    let resp = p.to_response();
    assert_eq!(resp.ended_at, None);
    assert_eq!(resp.create_at, 1000);
    update_process_status(&mut store, "id-1", OperationStatus::Canceled, 1007, Origin::Client)
        .unwrap();
    let resp = get_process_by_id(&store, "id-1").unwrap().to_response();
    assert_eq!(resp.ended_at, Some(1007));
    assert_eq!(resp.status, OperationStatus::Canceled);
}
