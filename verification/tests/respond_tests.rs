use ticket_api::error::{InternalError, PublicErrorTag};
use ticket_api::respond::{build_error_body, finish_response, map_response, HttpResponse};

#[test]
fn error_body_is_exact() {
    let body = build_error_body("LOGIN_FAIL", "abc-123");
    assert_eq!(body, "{\"error\":{\"type\":\"LOGIN_FAIL\",\"req_uuid\":\"abc-123\"}}");
}

#[test]
fn login_fail_maps_to_exact_envelope() {
    let original = HttpResponse { status: 200, body: String::from("ok") };
    let (resp, tag) = map_response(Some(InternalError::LoginFail), "the-uuid", original);
    assert_eq!(resp.status, 403);
    assert_eq!(resp.body, "{\"error\":{\"type\":\"LOGIN_FAIL\",\"req_uuid\":\"the-uuid\"}}");
    assert_eq!(tag, Some(PublicErrorTag::LoginFail));
}

#[test]
fn no_error_passes_response_through_unchanged() {
    let original = HttpResponse { status: 201, body: String::from("{\"result\":1}") };
    let (resp, tag) = map_response(None, "the-uuid", original);
    assert_eq!(resp.status, 201);
    assert_eq!(resp.body, "{\"result\":1}");
    assert_eq!(tag, None);
}

#[test]
fn every_variant_maps_to_its_status_and_tag() {
    let cases = vec![
        (InternalError::LoginFail, 403, PublicErrorTag::LoginFail, "LOGIN_FAIL"),
        (InternalError::AuthFailNoAuth, 403, PublicErrorTag::AuthFailNoAuth, "AUTH_FAIL_NO_AUTH"),
        (
            InternalError::AuthFailTokenParse,
            403,
            PublicErrorTag::AuthFailTokenWrongFormat,
            "AUTH_FAIL_TOKEN_WRONG_FORMAT",
        ),
        (
            InternalError::TicketDeleteFailIdNotFound { id: 9 },
            404,
            PublicErrorTag::EntityNotFound,
            "ENTITY_NOT_FOUND",
        ),
        (InternalError::Service, 500, PublicErrorTag::ServiceError, "SERVICE_ERROR"),
    ];
    for (err, status, tag, spelling) in cases {
        let (s, t) = err.client_status_and_error();
        assert_eq!(s, status);
        assert_eq!(t, tag);
        assert_eq!(t.tag_str(), spelling);
    }
}

#[test]
fn finish_threads_one_request_id_through_body_and_log() {
    let original = HttpResponse { status: 200, body: String::from("ok") };
    let (resp, line) = finish_response(
        Some(InternalError::LoginFail),
        None,
        1234,
        String::from("POST"),
        String::from("/login"),
        original,
    );
    assert_eq!(line.uuid.len(), 36);
    let expected = format!(
        "{{\"error\":{{\"type\":\"LOGIN_FAIL\",\"req_uuid\":\"{}\"}}}}",
        line.uuid
    );
    assert_eq!(resp.body, expected);
    assert_eq!(resp.status, 403);
    assert_eq!(line.error, Some(InternalError::LoginFail));
    assert_eq!(line.client_error, Some(PublicErrorTag::LoginFail));
    assert_eq!(line.timestamp_ms, 1234);
    assert_eq!(line.http_method, "POST");
    assert_eq!(line.http_path, "/login");
    assert_eq!(line.subject_id, None);
}

#[test]
fn two_requests_get_distinct_ids() {
    let o1 = HttpResponse { status: 200, body: String::from("a") };
    let o2 = HttpResponse { status: 200, body: String::from("a") };
    let (_, l1) = finish_response(None, None, 1, String::from("GET"), String::from("/"), o1);
    let (_, l2) = finish_response(None, None, 1, String::from("GET"), String::from("/"), o2);
    assert_ne!(l1.uuid, l2.uuid);
}

#[test]
fn success_keeps_log_fields_and_no_client_error() {
    let original = HttpResponse { status: 200, body: String::from("ok") };
    let (resp, line) = finish_response(
        None,
        Some(ticket_api::ctx::Ctx::new(5)),
        77,
        String::from("GET"),
        String::from("/api/tickets"),
        original,
    );
    assert_eq!(resp.status, 200);
    assert_eq!(resp.body, "ok");
    assert_eq!(line.subject_id, Some(5));
    assert_eq!(line.error, None);
    assert_eq!(line.client_error, None);
}
