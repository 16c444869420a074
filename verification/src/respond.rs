use vstd::prelude::*;
use vstd::string::*;
use crate::ctx::Ctx;
use crate::error::{status_of, tag_chars, tag_of, InternalError, PublicErrorTag};
use crate::logline::{build_log_line, RequestLogLine};
use crate::reqid::new_request_id;

verus! {

/// An HTTP response as the pipeline sees it: a status code and a body.
/// Transport framing and headers are the server shell's concern.
pub struct HttpResponse {
    pub status: u16,
    pub body: String,
}

/// The exact client-facing error envelope for a given tag spelling and
/// request id: `{"error":{"type":"<tag>","req_uuid":"<id>"}}`.
pub open spec fn error_body_chars(tag: Seq<char>, req_uuid: Seq<char>) -> Seq<char> {
    "{\"error\":{\"type\":\""@ + tag + "\",\"req_uuid\":\""@ + req_uuid + "\"}}"@
}

/// Build the error envelope body.
pub fn build_error_body(tag: &str, req_uuid: &str) -> (r: String)
    ensures
        r@ == error_body_chars(tag@, req_uuid@),
{
    let mut s = String::from_str("{\"error\":{\"type\":\"");
    s.append(tag);
    s.append("\",\"req_uuid\":\"");
    s.append(req_uuid);
    s.append("\"}}");
    proof {
        assert(s@ =~= error_body_chars(tag@, req_uuid@));
    }
    s
}

/// The response-mapping step: with no recorded error the original response
/// passes through unchanged; with one, the original response is discarded
/// and replaced by the mapped status and the exact error envelope, and the
/// public tag is reported for the log record.
pub fn map_response(error: Option<InternalError>, req_uuid: &str, original: HttpResponse) -> (r: (
    HttpResponse,
    Option<PublicErrorTag>,
))
    ensures
        error is None ==> r.0 == original && r.1 is None,
        error matches Some(e) ==> r.0.status == status_of(e) && r.0.body@ == error_body_chars(
            tag_chars(tag_of(e)),
            req_uuid@,
        ) && r.1 == Some(tag_of(e)),
{
    match error {
        Option::None => (original, Option::None),
        Option::Some(e) => {
            let (status, tag) = e.client_status_and_error();
            let body = build_error_body(tag.tag_str(), req_uuid);
            (HttpResponse { status, body }, Option::Some(tag))
        },
    }
}

/// The outbound stage run once for every response, success or failure.
/// It generates the single request id, maps any recorded error to the public
/// envelope, and builds the log record. The same id stands in the error body
/// and in the record, which is what lets a client-visible failure be matched
/// to its server-side line.
pub fn finish_response(
    error: Option<InternalError>,
    ctx: Option<Ctx>,
    timestamp_ms: u64,
    http_method: String,
    http_path: String,
    original: HttpResponse,
) -> (r: (HttpResponse, RequestLogLine))
    ensures
        r.1.uuid@.len() == 36,
        error is None ==> r.0 == original && r.1.client_error is None,
        error matches Some(e) ==> r.0.status == status_of(e) && r.0.body@ == error_body_chars(
            tag_chars(tag_of(e)),
            r.1.uuid@,
        ) && r.1.client_error == Some(tag_of(e)),
        r.1.error == error,
        r.1.timestamp_ms == timestamp_ms,
        r.1.http_method == http_method,
        r.1.http_path == http_path,
        r.1.subject_id == (match ctx {
            Option::Some(c) => Option::Some(c.subject_id),
            Option::None => Option::None::<u64>,
        }),
{
    let req_uuid = new_request_id();
    let (resp, client_error) = map_response(error, req_uuid.as_str(), original);
    let line = build_log_line(
        req_uuid,
        timestamp_ms,
        http_method,
        http_path,
        ctx,
        error,
        client_error,
    );
    (resp, line)
}

} // verus!
