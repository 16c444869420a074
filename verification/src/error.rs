use vstd::prelude::*;

verus! {

/// The internal failure taxonomy: the full-detail error values used
/// server-side. These are never shown to a client directly; the response
/// mapper translates each one to a `(status, PublicErrorTag)` pair.
#[derive(Clone, Copy, Debug, PartialEq, Eq, Structural)]
pub enum InternalError {
    /// The login credentials were not the known demo pair.
    LoginFail,
    /// A protected route was reached without a resolved context.
    AuthFailNoAuth,
    /// A token was present but failed the structural parse.
    AuthFailTokenParse,
    /// A delete named an id with no live ticket.
    TicketDeleteFailIdNotFound { id: u64 },
    /// Catch-all for unclassified failures.
    Service,
}

/// The closed set of client-safe error labels. A tag never carries free-form
/// text or internal identifiers.
#[derive(Clone, Copy, Debug, PartialEq, Eq, Structural)]
pub enum PublicErrorTag {
    LoginFail,
    AuthFailNoAuth,
    AuthFailTokenWrongFormat,
    EntityNotFound,
    ServiceError,
}

/// HTTP status for each internal error variant.
pub open spec fn status_of(e: InternalError) -> u16 {
    match e {
        InternalError::LoginFail => 403,
        InternalError::AuthFailNoAuth => 403,
        InternalError::AuthFailTokenParse => 403,
        InternalError::TicketDeleteFailIdNotFound { .. } => 404,
        InternalError::Service => 500,
    }
}

/// Public tag for each internal error variant.
pub open spec fn tag_of(e: InternalError) -> PublicErrorTag {
    match e {
        InternalError::LoginFail => PublicErrorTag::LoginFail,
        InternalError::AuthFailNoAuth => PublicErrorTag::AuthFailNoAuth,
        InternalError::AuthFailTokenParse => PublicErrorTag::AuthFailTokenWrongFormat,
        InternalError::TicketDeleteFailIdNotFound { .. } => PublicErrorTag::EntityNotFound,
        InternalError::Service => PublicErrorTag::ServiceError,
    }
}

/// The wire spelling of each public tag.
pub open spec fn tag_chars(t: PublicErrorTag) -> Seq<char> {
    match t {
        PublicErrorTag::LoginFail => "LOGIN_FAIL"@,
        PublicErrorTag::AuthFailNoAuth => "AUTH_FAIL_NO_AUTH"@,
        PublicErrorTag::AuthFailTokenWrongFormat => "AUTH_FAIL_TOKEN_WRONG_FORMAT"@,
        PublicErrorTag::EntityNotFound => "ENTITY_NOT_FOUND"@,
        PublicErrorTag::ServiceError => "SERVICE_ERROR"@,
    }
}

impl InternalError {
    /// The total mapping from an internal error to the pair a client may see.
    /// Every variant maps to exactly one pair; the match is exhaustive, so no
    /// variant can be silently omitted.
    pub fn client_status_and_error(&self) -> (r: (u16, PublicErrorTag))
        ensures
            r.0 == status_of(*self),
            r.1 == tag_of(*self),
    {
        match self {
            InternalError::LoginFail => (403, PublicErrorTag::LoginFail),
            InternalError::AuthFailNoAuth => (403, PublicErrorTag::AuthFailNoAuth),
            InternalError::AuthFailTokenParse => (403, PublicErrorTag::AuthFailTokenWrongFormat),
            InternalError::TicketDeleteFailIdNotFound { .. } => (404, PublicErrorTag::EntityNotFound),
            InternalError::Service => (500, PublicErrorTag::ServiceError),
        }
    }
}

impl PublicErrorTag {
    /// The exact string a response body carries for this tag.
    pub fn tag_str(&self) -> (r: &'static str)
        ensures
            r@ == tag_chars(*self),
    {
        match self {
            PublicErrorTag::LoginFail => "LOGIN_FAIL",
            PublicErrorTag::AuthFailNoAuth => "AUTH_FAIL_NO_AUTH",
            PublicErrorTag::AuthFailTokenWrongFormat => "AUTH_FAIL_TOKEN_WRONG_FORMAT",
            PublicErrorTag::EntityNotFound => "ENTITY_NOT_FOUND",
            PublicErrorTag::ServiceError => "SERVICE_ERROR",
        }
    }
}

} // verus!
