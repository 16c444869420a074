use ticket_api::error::InternalError;
use ticket_api::pipeline::{
    process_protected, require_auth, ErrorSlot, TicketRequest, TicketResponse,
};
use ticket_api::resolver::{CookieAction, ResolveOutcome};
use ticket_api::respond::{finish_response, HttpResponse};
use ticket_api::store::TicketStore;

#[test]
fn error_slot_keeps_first_failure() {
    let mut slot = ErrorSlot::new();
    assert_eq!(slot.error, None);
    slot.record(InternalError::LoginFail);
    slot.record(InternalError::Service);
    assert_eq!(slot.error, Some(InternalError::LoginFail));
}

#[test]
fn gate_rejects_without_resolved_context() {
    assert_eq!(
        require_auth(&ResolveOutcome::NoToken),
        Err(InternalError::AuthFailNoAuth)
    );
    assert_eq!(
        require_auth(&ResolveOutcome::Malformed),
        Err(InternalError::AuthFailNoAuth)
    );
}

#[test]
fn protected_without_cookie_short_circuits_and_leaves_store_alone() {
    let mut store = TicketStore::new();
    let run = process_protected(
        &mut store,
        None,
        TicketRequest::Create { title: String::from("A") },
    );
    assert_eq!(run.error, Some(InternalError::AuthFailNoAuth));
    assert!(run.result.is_none());
    assert_eq!(run.ctx, None);
    assert_eq!(run.cookie_action, CookieAction::Clear);
    // The handler never ran: no ticket was created.
    assert!(store.list().is_empty());
}

#[test]
fn protected_with_malformed_cookie_records_parse_failure_first() {
    let mut store = TicketStore::new();
    let run = process_protected(
        &mut store,
        Some("not-a-token"),
        TicketRequest::Create { title: String::from("A") },
    );
    // First failure wins: the recorded parse failure, not AuthFailNoAuth.
    assert_eq!(run.error, Some(InternalError::AuthFailTokenParse));
    assert!(run.result.is_none());
    assert_eq!(run.cookie_action, CookieAction::Clear);
    assert!(store.list().is_empty());
}

#[test]
fn mapped_no_auth_failure_has_403_and_stable_tag() {
    let mut store = TicketStore::new();
    let run = process_protected(&mut store, None, TicketRequest::ListAll);
    let original = HttpResponse { status: 200, body: String::from("unused") };
    let (resp, line) = finish_response(
        run.error,
        run.ctx,
        0,
        String::from("GET"),
        String::from("/api/tickets"),
        original,
    );
    assert_eq!(resp.status, 403);
    let expected = format!(
        "{{\"error\":{{\"type\":\"AUTH_FAIL_NO_AUTH\",\"req_uuid\":\"{}\"}}}}",
        line.uuid
    );
    assert_eq!(resp.body, expected);
}

#[test]
fn resolved_cookie_runs_create() {
    let mut store = TicketStore::new();
    let run = process_protected(
        &mut store,
        Some("ident-9.sig"),
        TicketRequest::Create { title: String::from("hello") },
    );
    assert_eq!(run.error, None);
    assert_eq!(run.cookie_action, CookieAction::Refresh);
    assert_eq!(run.ctx.map(|c| c.subject_id()), Some(9));
    match run.result {
        Some(TicketResponse::Created(t)) => {
            assert_eq!(t.id, 1);
            assert_eq!(t.owner_subject_id, 9);
            assert_eq!(t.title, "hello");
        },
        _ => panic!("expected a created ticket"),
    }
}

#[test]
fn resolved_cookie_lists_and_deletes() {
    let mut store = TicketStore::new();
    let cookie = Some("ident-3.sig");
    process_protected(&mut store, cookie, TicketRequest::Create { title: String::from("A") });
    process_protected(&mut store, cookie, TicketRequest::Create { title: String::from("B") });

    let run = process_protected(&mut store, cookie, TicketRequest::ListAll);
    match run.result {
        Some(TicketResponse::Listing(ts)) => {
            let ids: Vec<u64> = ts.iter().map(|t| t.id).collect();
            assert_eq!(ids, vec![1, 2]);
        },
        _ => panic!("expected a listing"),
    }

    let run = process_protected(&mut store, cookie, TicketRequest::Delete { id: 1 });
    match run.result {
        Some(TicketResponse::Deleted(t)) => assert_eq!(t.id, 1),
        _ => panic!("expected a deletion"),
    }

    let run = process_protected(&mut store, cookie, TicketRequest::Delete { id: 1 });
    assert_eq!(run.error, Some(InternalError::TicketDeleteFailIdNotFound { id: 1 }));
    assert!(run.result.is_none());
}

#[test]
fn login_cookie_round_trip_authorizes() {
    // login -> token in cookie -> protected create succeeds for subject 1
    let token = ticket_api::login::check_login("demo1", "welcome").expect("demo creds");
    let mut store = TicketStore::new();
    let run = process_protected(
        &mut store,
        Some(token.as_str()),
        TicketRequest::Create { title: String::from("mine") },
    );
    assert_eq!(run.error, None);
    match run.result {
        Some(TicketResponse::Created(t)) => assert_eq!(t.owner_subject_id, 1),
        _ => panic!("expected a created ticket"),
    }
}
