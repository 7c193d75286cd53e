use secret_messages::handlers::{
    begin, finish, handle, perform, submit_step, Outcome, Page, Reply, Request, Step, StoreCall,
    LIST_ACCESS_ID,
};
use secret_messages::{fetch_all, insert_data, MessageTable, StoreError};

fn location(r: &Reply) -> Option<String> {
    match r {
        Reply::Found { location } => Some(location.clone()),
        _ => None,
    }
}

fn status(r: &Reply) -> Option<u16> {
    match r {
        Reply::Show { status, .. } => Some(*status),
        _ => None,
    }
}

// 2024-01-01 04:30:00 UTC, which is 10:00 in India.
const NEW_YEAR_MORNING: i64 = 1704083400;

#[test]
fn submission_is_stamped_in_india_time() {
    match begin(Request::Submit { message: "hi".to_string() }, 0) {
        Step::Call(StoreCall::Insert { timestamp, message }) => {
            assert_eq!(timestamp, "01/01/1970 05:30:00");
            assert_eq!(message, "hi");
        }
        _ => panic!("expected an insert"),
    }
    match begin(Request::Submit { message: "x".to_string() }, NEW_YEAR_MORNING) {
        Step::Call(StoreCall::Insert { timestamp, .. }) => {
            assert_eq!(timestamp, "01/01/2024 10:00:00")
        }
        _ => panic!("expected an insert"),
    }
}

#[test]
fn submission_without_stamp_is_a_server_error() {
    match submit_step(None, "m".to_string()) {
        Step::Respond(r) => {
            assert_eq!(status(&r), Some(500));
            assert!(matches!(r, Reply::Show { page: Page::ServerError, .. }));
        }
        _ => panic!("expected a reply"),
    }
    match begin(Request::Submit { message: "m".to_string() }, i64::MAX) {
        Step::Respond(r) => assert_eq!(status(&r), Some(500)),
        _ => panic!("expected a reply"),
    }
}

#[test]
fn submit_inserts_and_redirects_home() {
    let mut t = MessageTable::new();
    let r = handle(&mut t, Request::Submit { message: "hello".to_string() }, NEW_YEAR_MORNING);
    assert_eq!(location(&r), Some("/".to_string()));
    let rows = fetch_all(&t);
    assert_eq!(rows.len(), 1);
    assert_eq!(rows[0].id, 1);
    assert_eq!(rows[0].timestamp, "01/01/2024 10:00:00");
    assert_eq!(rows[0].message, "hello");
}

#[test]
fn submit_on_full_table_is_a_server_error() {
    let mut t = MessageTable::resuming_at(2147483648);
    let r = handle(&mut t, Request::Submit { message: "m".to_string() }, 0);
    assert_eq!(status(&r), Some(500));
    assert!(fetch_all(&t).is_empty());
}

#[test]
fn wrong_list_id_redirects_without_content() {
    let mut t = MessageTable::new();
    insert_data(&mut t, "t", "secret").unwrap();
    for id in [0, 1, -121121, 121120, 121122, i32::MAX, i32::MIN] {
        let r = handle(&mut t, Request::List { id }, 0);
        assert_eq!(location(&r), Some("/".to_string()));
    }
    assert_eq!(fetch_all(&t).len(), 1);
}

#[test]
fn access_id_lists_every_message() {
    let mut t = MessageTable::new();
    insert_data(&mut t, "t1", "a").unwrap();
    insert_data(&mut t, "t2", "b").unwrap();
    let r = handle(&mut t, Request::List { id: LIST_ACCESS_ID }, 0);
    match r {
        Reply::Show { status: 200, page: Page::Listing(rows) } => {
            let got: Vec<(i32, String)> = rows.into_iter().map(|m| (m.id, m.message)).collect();
            assert_eq!(got, vec![(1, "a".to_string()), (2, "b".to_string())]);
        }
        _ => panic!("expected the listing"),
    }
}

#[test]
fn delete_redirects_to_listing_either_way() {
    let mut t = MessageTable::new();
    insert_data(&mut t, "t1", "a").unwrap();
    let r = handle(&mut t, Request::Delete { id: 1 }, 0);
    assert_eq!(location(&r), Some("/messages/121121".to_string()));
    assert!(fetch_all(&t).is_empty());
    let r = handle(&mut t, Request::Delete { id: 1 }, 0);
    assert_eq!(location(&r), Some("/messages/121121".to_string()));
}

#[test]
fn home_and_unmatched_pages() {
    let mut t = MessageTable::new();
    let r = handle(&mut t, Request::Home, 0);
    assert!(matches!(r, Reply::Show { status: 200, page: Page::Form }));
    let r = handle(&mut t, Request::Unmatched, 0);
    assert!(matches!(r, Reply::Show { status: 404, page: Page::NotFound }));
}

#[test]
fn store_failures_become_error_pages() {
    let backend = || Outcome::Failed(StoreError::Backend("connection reset".to_string()));
    let ins = StoreCall::Insert { timestamp: "t".to_string(), message: "m".to_string() };
    assert!(matches!(finish(&ins, backend()), Reply::Show { status: 500, page: Page::ServerError }));
    assert!(matches!(
        finish(&StoreCall::FetchAll, backend()),
        Reply::Show { status: 500, page: Page::ServerError }
    ));
    assert!(matches!(
        finish(&StoreCall::Remove { id: 3 }, backend()),
        Reply::Show { status: 500, page: Page::DeleteFailed }
    ));
    assert_eq!(location(&finish(&ins, Outcome::Done)), Some("/".to_string()));
}

#[test]
fn perform_runs_each_call() {
    let mut t = MessageTable::new();
    let ins = StoreCall::Insert { timestamp: "t".to_string(), message: "m".to_string() };
    assert!(matches!(perform(&mut t, &ins), Outcome::Done));
    match perform(&mut t, &StoreCall::FetchAll) {
        Outcome::Rows(rows) => assert_eq!(rows.len(), 1),
        _ => panic!("expected rows"),
    }
    assert!(matches!(perform(&mut t, &StoreCall::Remove { id: 1 }), Outcome::Done));
    assert!(fetch_all(&t).is_empty());
}
