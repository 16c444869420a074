use ticket_api::ctx::Ctx;
use ticket_api::error::InternalError;
use ticket_api::store::TicketStore;

#[test]
fn create_assigns_monotonic_distinct_ids() {
    let mut store = TicketStore::new();
    let ctx = Ctx::new(1);
    let mut ids = Vec::new();
    for i in 0..5u32 {
        let t = store.create(&ctx, format!("t{}", i));
        ids.push(t.id);
    }
    assert_eq!(ids, vec![1, 2, 3, 4, 5]);
}

#[test]
fn create_records_owner_and_title() {
    let mut store = TicketStore::new();
    let ctx = Ctx::new(42);
    let t = store.create(&ctx, String::from("fix the door"));
    assert_eq!(t.id, 1);
    assert_eq!(t.owner_subject_id, 42);
    assert_eq!(t.title, "fix the door");
}

#[test]
fn delete_nonexistent_fails_and_leaves_store_unchanged() {
    let mut store = TicketStore::new();
    let ctx = Ctx::new(1);
    store.create(&ctx, String::from("A"));
    let before: Vec<u64> = store.list().iter().map(|t| t.id).collect();
    let r = store.delete(&ctx, 99);
    assert_eq!(r, Err(InternalError::TicketDeleteFailIdNotFound { id: 99 }));
    let after: Vec<u64> = store.list().iter().map(|t| t.id).collect();
    assert_eq!(before, after);
}

#[test]
fn delete_zero_fails() {
    let mut store = TicketStore::new();
    let ctx = Ctx::new(1);
    store.create(&ctx, String::from("A"));
    assert_eq!(store.delete(&ctx, 0), Err(InternalError::TicketDeleteFailIdNotFound { id: 0 }));
}

#[test]
fn deleted_id_is_never_reused() {
    let mut store = TicketStore::new();
    let ctx = Ctx::new(1);
    store.create(&ctx, String::from("A"));
    store.create(&ctx, String::from("B"));
    store.delete(&ctx, 1).expect("ticket 1 is live");
    let t = store.create(&ctx, String::from("C"));
    assert_eq!(t.id, 3);
}

#[test]
fn end_to_end_scenario() {
    let mut store = TicketStore::new();
    let ctx = Ctx::new(1);

    let a = store.create(&ctx, String::from("A"));
    assert_eq!(a.id, 1);
    let b = store.create(&ctx, String::from("B"));
    assert_eq!(b.id, 2);

    let listed = store.list();
    let pairs: Vec<(u64, String)> = listed.iter().map(|t| (t.id, t.title.clone())).collect();
    assert_eq!(pairs, vec![(1, String::from("A")), (2, String::from("B"))]);

    let deleted = store.delete(&ctx, 1).expect("ticket 1 is live");
    assert_eq!(deleted.id, 1);
    assert_eq!(deleted.title, "A");

    let listed2 = store.list();
    let pairs2: Vec<(u64, String)> = listed2.iter().map(|t| (t.id, t.title.clone())).collect();
    assert_eq!(pairs2, vec![(2, String::from("B"))]);

    let again = store.delete(&ctx, 1);
    assert_eq!(again, Err(InternalError::TicketDeleteFailIdNotFound { id: 1 }));
    let (status, _tag) = InternalError::TicketDeleteFailIdNotFound { id: 1 }
        .client_status_and_error();
    assert_eq!(status, 404);
}
