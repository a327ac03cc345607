use visitor_counter::{
    step_after_update, CounterError, PersistentStore, StoreError, VisitorRecord, WriteStep,
    MAX_COUNT,
};

fn ready_store() -> PersistentStore {
    let mut store = PersistentStore::open_in_memory().unwrap();
    store.ensure_schema().unwrap();
    store
}

#[test]
fn fresh_store_holds_no_record() {
    let store = ready_store();
    assert_eq!(store.get("ann"), Ok(None));
    assert_eq!(store.get("bob"), Ok(None));
}

#[test]
fn upsert_inserts_a_new_record() {
    let mut store = ready_store();
    assert_eq!(store.upsert("ann", 3), Ok(()));
    assert_eq!(store.get("ann"), Ok(Some(VisitorRecord { name: "ann".to_string(), count: 3 })));
    assert_eq!(store.get("bob"), Ok(None));
}

#[test]
fn upsert_overwrites_an_existing_record() {
    let mut store = ready_store();
    store.upsert("ann", 3).unwrap();
    store.upsert("bob", 5).unwrap();
    assert_eq!(store.upsert("ann", 9), Ok(()));
    assert_eq!(store.get("ann").unwrap().unwrap().count, 9);
    assert_eq!(store.get("bob").unwrap().unwrap().count, 5);
    assert_eq!(store.upsert("ann", 1), Ok(()));
    assert_eq!(store.get("ann").unwrap().unwrap().count, 1);
}

#[test]
fn upsert_takes_the_largest_count() {
    let mut store = ready_store();
    assert_eq!(store.upsert("ann", MAX_COUNT), Ok(()));
    assert_eq!(store.get("ann").unwrap().unwrap().count, 9223372036854775807);
}

#[test]
fn upsert_refuses_an_invalid_record() {
    let mut store = ready_store();
    store.upsert("ann", 3).unwrap();
    assert_eq!(store.upsert("ann", 0), Err(StoreError::Constraint));
    assert_eq!(store.upsert("ann", MAX_COUNT + 1), Err(StoreError::Constraint));
    assert_eq!(store.upsert("ann", u64::MAX), Err(StoreError::Constraint));
    assert_eq!(store.upsert("", 1), Err(StoreError::Constraint));
    assert_eq!(store.get("ann").unwrap().unwrap().count, 3);
    assert_eq!(store.get(""), Ok(None));
}

#[test]
fn invalid_record_is_refused_before_the_database_is_asked() {
    let mut store = PersistentStore::open_in_memory().unwrap();
    assert_eq!(store.upsert("", 1), Err(StoreError::Constraint));
    assert_eq!(store.upsert("ann", 0), Err(StoreError::Constraint));
}

#[test]
fn store_without_table_reports_a_database_failure() {
    let mut store = PersistentStore::open_in_memory().unwrap();
    match store.get("ann") {
        Err(StoreError::Database(_)) => {}
        other => panic!("expected a database failure, got {:?}", other),
    }
    match store.upsert("ann", 1) {
        Err(StoreError::Database(_)) => {}
        other => panic!("expected a database failure, got {:?}", other),
    }
    store.ensure_schema().unwrap();
    assert_eq!(store.get("ann"), Ok(None));
}

#[test]
fn ensure_schema_can_be_repeated_and_keeps_the_records() {
    let mut store = ready_store();
    store.upsert("ann", 2).unwrap();
    assert_eq!(store.ensure_schema(), Ok(()));
    assert_eq!(store.ensure_schema(), Ok(()));
    assert_eq!(store.get("ann").unwrap().unwrap().count, 2);
}

#[test]
fn stores_do_not_share_records() {
    let mut one = ready_store();
    let other = ready_store();
    one.upsert("ann", 2).unwrap();
    assert_eq!(other.get("ann"), Ok(None));
}

#[test]
fn message_gives_the_database_its_own_words() {
    let store = PersistentStore::open_in_memory().unwrap();
    let failure = store.get("ann").unwrap_err();
    assert_eq!(failure.message(), "no such table: visitors".to_string());
    let visit_failure = CounterError { cause: failure };
    assert_eq!(visit_failure.message(), "no such table: visitors".to_string());
}

#[test]
fn message_names_a_broken_constraint() {
    assert_eq!(
        StoreError::Constraint.message(),
        "the record breaks a constraint of the table".to_string()
    );
    assert_eq!(
        CounterError { cause: StoreError::Constraint }.message(),
        "the record breaks a constraint of the table".to_string()
    );
}

#[test]
fn record_can_be_cloned() {
    let record = VisitorRecord { name: "ann".to_string(), count: 3 };
    let copy = record.clone();
    assert_eq!(copy, record);
    assert_eq!(copy.name, "ann".to_string());
    assert_eq!(copy.count, 3);
}

#[test]
fn update_that_changed_nothing_is_followed_by_an_insert() {
    assert_eq!(step_after_update(Ok(0)), Ok(WriteStep::Insert));
}

#[test]
fn update_that_changed_a_row_ends_the_write() {
    assert_eq!(step_after_update(Ok(1)), Ok(WriteStep::Done));
    assert_eq!(step_after_update(Ok(2)), Ok(WriteStep::Done));
    assert_eq!(step_after_update(Ok(usize::MAX)), Ok(WriteStep::Done));
}

#[test]
fn failed_update_fails_the_write_with_its_cause() {
    assert_eq!(step_after_update(Err(StoreError::Constraint)), Err(StoreError::Constraint));
    let cause = PersistentStore::open_in_memory().unwrap().get("ann").unwrap_err();
    match step_after_update(Err(cause)) {
        Err(StoreError::Database(error)) => {
            assert_eq!(StoreError::Database(error).message(), "no such table: visitors".to_string())
        }
        other => panic!("expected a database failure, got {:?}", other),
    }
}
