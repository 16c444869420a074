use vstd::prelude::*;
use crate::ctx::Ctx;
use crate::token::{parse_token, token_subject, token_wf};

verus! {

/// The resolver's outcome for one request. Resolution itself never rejects
/// the request: unauthenticated routes must still work. The outcome is
/// attached to the request for the later stages.
#[derive(Clone, Copy, Debug, PartialEq, Eq, Structural)]
pub enum ResolveOutcome {
    /// A structurally valid token was present: the request has an identity.
    Resolved(Ctx),
    /// No cookie was present; not an error by itself.
    NoToken,
    /// A cookie was present but is not a structurally valid token.
    Malformed,
}

/// What the cookie layer is asked to do with the auth cookie.
#[derive(Clone, Copy, Debug, PartialEq, Eq, Structural)]
pub enum CookieAction {
    /// Re-set the cookie with the same token (sliding-session refresh).
    Refresh,
    /// Remove the cookie.
    Clear,
}

/// The view of an optional cookie value.
pub open spec fn cookie_view(cookie: Option<&str>) -> Option<Seq<char>> {
    match cookie {
        Some(s) => Some(s@),
        None => None,
    }
}

/// What resolution yields for a given cookie.
pub open spec fn spec_resolve(cookie: Option<Seq<char>>) -> ResolveOutcome {
    match cookie {
        Option::None => ResolveOutcome::NoToken,
        Option::Some(s) => if token_wf(s) {
            ResolveOutcome::Resolved(Ctx { subject_id: token_subject(s) as u64 })
        } else {
            ResolveOutcome::Malformed
        },
    }
}

/// What resolution does to the cookie: refreshed exactly on success,
/// removed on a missing or malformed token.
pub open spec fn spec_cookie_action(cookie: Option<Seq<char>>) -> CookieAction {
    match cookie {
        Option::Some(s) => if token_wf(s) {
            CookieAction::Refresh
        } else {
            CookieAction::Clear
        },
        Option::None => CookieAction::Clear,
    }
}

/// The context resolver: inspect the raw cookie value, if any, and produce
/// the outcome together with the action to take on the cookie.
pub fn resolve_ctx(cookie: Option<&str>) -> (r: (ResolveOutcome, CookieAction))
    ensures
        r.0 == spec_resolve(cookie_view(cookie)),
        r.1 == spec_cookie_action(cookie_view(cookie)),
{
    match cookie {
        Option::None => (ResolveOutcome::NoToken, CookieAction::Clear),
        Option::Some(tok) => match parse_token(tok) {
            Option::Some(subject_id) => (
                ResolveOutcome::Resolved(Ctx::new(subject_id)),
                CookieAction::Refresh,
            ),
            Option::None => (ResolveOutcome::Malformed, CookieAction::Clear),
        },
    }
}

/// Law: resolution is exact and total over present tokens. A structurally
/// valid token resolves to its encoded subject id and the cookie is
/// refreshed; every other token is malformed and the cookie is cleared.
pub proof fn lemma_resolver_exact(tok: Seq<char>)
    ensures
        token_wf(tok) ==> spec_resolve(Some(tok)) == ResolveOutcome::Resolved(
            Ctx { subject_id: token_subject(tok) as u64 },
        ) && spec_cookie_action(Some(tok)) == CookieAction::Refresh,
        !token_wf(tok) ==> spec_resolve(Some(tok)) == ResolveOutcome::Malformed
            && spec_cookie_action(Some(tok)) == CookieAction::Clear,
{
}

} // verus!
