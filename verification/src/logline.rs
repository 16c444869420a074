use vstd::prelude::*;
use crate::ctx::Ctx;
use crate::error::{InternalError, PublicErrorTag};

verus! {

/// One structured record per request: the request id, when and what was
/// asked, the resolved identity if any, the full internal error if any, and
/// the public tag if one was sent. Built once per request by the outbound
/// stage; serializing and emitting it is the sink's concern, not modeled
/// here.
pub struct RequestLogLine {
    pub uuid: String,
    pub timestamp_ms: u64,
    pub http_method: String,
    pub http_path: String,
    pub subject_id: Option<u64>,
    pub error: Option<InternalError>,
    pub client_error: Option<PublicErrorTag>,
}

/// Build the log record. Pure construction: every field is exactly the
/// argument handed in, so the server side never loses the internal error.
pub fn build_log_line(
    uuid: String,
    timestamp_ms: u64,
    http_method: String,
    http_path: String,
    ctx: Option<Ctx>,
    error: Option<InternalError>,
    client_error: Option<PublicErrorTag>,
) -> (r: RequestLogLine)
    ensures
        r.uuid == uuid,
        r.timestamp_ms == timestamp_ms,
        r.http_method == http_method,
        r.http_path == http_path,
        r.subject_id == (match ctx {
            Option::Some(c) => Option::Some(c.subject_id),
            Option::None => Option::None::<u64>,
        }),
        r.error == error,
        r.client_error == client_error,
{
    let subject_id = match ctx {
        Option::Some(c) => Option::Some(c.subject_id()),
        Option::None => Option::None,
    };
    RequestLogLine { uuid, timestamp_ms, http_method, http_path, subject_id, error, client_error }
}

} // verus!
