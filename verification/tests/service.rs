use visitor_counter::{hello, index, ok, ContentType, PersistentStore, Status, VisitorCounter};

fn counter_without_table() -> VisitorCounter {
    VisitorCounter::new(PersistentStore::open_in_memory().unwrap())
}

fn counter_with_table() -> VisitorCounter {
    let mut store = PersistentStore::open_in_memory().unwrap();
    store.ensure_schema().unwrap();
    VisitorCounter::new(store)
}

#[test]
fn index_returns_hello_world() {
    let response = ok(index().to_string());
    assert_eq!(response.status, Status::Success);
    assert_eq!(response.body, "Hello, world!".to_string());
}

#[test]
fn hello_returns_error_when_visitors_table_not_there() {
    let mut counter = counter_without_table();
    let response = hello(&mut counter, "name");
    assert_eq!(response.status, Status::InternalServerError);
    assert_ne!(
        response.body,
        "Hello, name. Previous visits were 0, now it's 1 times!".to_string()
    );
    assert_eq!(response.body, "Error occurred no such table: visitors".to_string());
}

#[test]
fn hello_returns_param_with_counter() {
    let mut counter = counter_with_table();
    let response = hello(&mut counter, "name");
    assert_eq!(response.status, Status::Success);
    assert_eq!(
        response.body,
        "Hello, name. Previous visits were 0, now it's 1 times!".to_string()
    );
}

#[test]
fn hello_counts_up_on_every_request() {
    let mut counter = counter_with_table();
    let first = hello(&mut counter, "ann");
    let second = hello(&mut counter, "ann");
    let third = hello(&mut counter, "ann");
    assert_eq!(first.body, "Hello, ann. Previous visits were 0, now it's 1 times!".to_string());
    assert_eq!(second.body, "Hello, ann. Previous visits were 1, now it's 2 times!".to_string());
    assert_eq!(third.body, "Hello, ann. Previous visits were 2, now it's 3 times!".to_string());
    assert_eq!(third.status.code(), 200);
    assert_eq!(third.content_type, ContentType::Plain);
}

#[test]
fn hello_answers_a_failure_with_status_500_and_plain_text() {
    let mut counter = counter_without_table();
    let response = hello(&mut counter, "ann");
    assert_eq!(response.status.code(), 500);
    assert_eq!(response.content_type, ContentType::Plain);
    assert!(response.body.starts_with("Error occurred "));
}

#[test]
fn hello_does_not_count_a_failed_request() {
    let mut store = PersistentStore::open_in_memory().unwrap();
    store.ensure_schema().unwrap();
    store.upsert("ann", 4).unwrap();
    let mut counter = VisitorCounter::new(store);
    let refused = hello(&mut counter, "");
    assert_eq!(refused.status, Status::InternalServerError);
    assert_eq!(
        refused.body,
        "Error occurred the record breaks a constraint of the table".to_string()
    );
    assert_eq!(counter.store().get("ann").unwrap().unwrap().count, 4);
    assert_eq!(counter.store().get("").unwrap(), None);
}

#[test]
fn hello_recovers_once_the_table_is_there() {
    let mut store = PersistentStore::open_in_memory().unwrap();
    let before = store.get("ann");
    assert!(before.is_err());
    store.ensure_schema().unwrap();
    let mut counter = VisitorCounter::new(store);
    let response = hello(&mut counter, "ann");
    assert_eq!(response.status, Status::Success);
    assert_eq!(response.body, "Hello, ann. Previous visits were 0, now it's 1 times!".to_string());
}
