use vstd::prelude::*;
use crate::ctx::Ctx;
use crate::error::{status_of, tag_of, InternalError, PublicErrorTag};
use crate::resolver::{
    cookie_view, resolve_ctx, spec_cookie_action, spec_resolve, CookieAction, ResolveOutcome,
};
use crate::store::{created_ticket, delete_hit, live, store_wf, Ticket, TicketStore};

verus! {

/// The request-scoped error slot: the first failure recorded anywhere in the
/// pipeline wins and is never overwritten.
pub struct ErrorSlot {
    pub error: Option<InternalError>,
}

impl ErrorSlot {
    pub fn new() -> (s: ErrorSlot)
        ensures
            s.error is None,
    {
        ErrorSlot { error: Option::None }
    }

    /// Record a failure unless one is already recorded.
    pub fn record(&mut self, e: InternalError)
        ensures
            final(self).error == if old(self).error is Some {
                old(self).error
            } else {
                Some(e)
            },
    {
        if self.error.is_none() {
            self.error = Option::Some(e);
        }
    }
}

/// What the auth gate yields for a resolver outcome.
pub open spec fn spec_gate(o: ResolveOutcome) -> Result<Ctx, InternalError> {
    match o {
        ResolveOutcome::Resolved(c) => Ok(c),
        _ => Err(InternalError::AuthFailNoAuth),
    }
}

/// The auth gate, applied only to protected routes: a pure precondition
/// check that passes the resolved context through and otherwise fails with
/// `AuthFailNoAuth`.
pub fn require_auth(o: &ResolveOutcome) -> (r: Result<Ctx, InternalError>)
    ensures
        r == spec_gate(*o),
{
    match o {
        ResolveOutcome::Resolved(c) => Result::Ok(*c),
        _ => Result::Err(InternalError::AuthFailNoAuth),
    }
}

/// One protected-route request, as the handlers see it.
pub enum TicketRequest {
    Create { title: String },
    ListAll,
    Delete { id: u64 },
}

/// A handler's successful result.
pub enum TicketResponse {
    Created(Ticket),
    Listing(Vec<Ticket>),
    Deleted(Ticket),
}

/// Run one protected-route request against the store. Without a resolved
/// context the request is rejected at once: the handler never runs, the
/// store keeps its exact state, and `AuthFailNoAuth` comes back.
pub fn handle_protected(store: &mut TicketStore, outcome: &ResolveOutcome, req: TicketRequest) -> (r:
    Result<TicketResponse, InternalError>)
    requires
        store_wf(old(store)@),
        old(store)@.len() < u64::MAX,
    ensures
        store_wf(final(store)@),
        !(outcome matches ResolveOutcome::Resolved(_)) ==> r == Err::<
            TicketResponse,
            InternalError,
        >(InternalError::AuthFailNoAuth) && final(store)@ == old(store)@,
        outcome matches ResolveOutcome::Resolved(c) ==> req matches TicketRequest::Create {
            title,
        } ==> (r matches Ok(TicketResponse::Created(t)) && t@ == created_ticket(
            old(store)@,
            c.subject_id,
            title@,
        ) && final(store)@ == old(store)@.push(Some(t@))),
        outcome matches ResolveOutcome::Resolved(_) ==> req matches TicketRequest::ListAll ==> (
        r matches Ok(TicketResponse::Listing(ts)) && ts@.map_values(|t: Ticket| t@) == live(
            old(store)@,
        ) && final(store)@ == old(store)@),
        outcome matches ResolveOutcome::Resolved(_) ==> req matches TicketRequest::Delete {
            id,
        } ==> delete_hit(old(store)@, id) ==> (r matches Ok(TicketResponse::Deleted(t)) && Some(
            t@,
        ) == old(store)@[id - 1] && final(store)@ == old(store)@.update(
            id - 1,
            None::<crate::store::TicketV>,
        )),
        outcome matches ResolveOutcome::Resolved(_) ==> req matches TicketRequest::Delete {
            id,
        } ==> !delete_hit(old(store)@, id) ==> (r == Err::<TicketResponse, InternalError>(
            InternalError::TicketDeleteFailIdNotFound { id },
        ) && final(store)@ == old(store)@),
{
    let ctx = match require_auth(outcome) {
        Result::Ok(c) => c,
        Result::Err(e) => {
            return Result::Err(e);
        },
    };
    match req {
        TicketRequest::Create { title } => {
            let t = store.create(&ctx, title);
            Result::Ok(TicketResponse::Created(t))
        },
        TicketRequest::ListAll => Result::Ok(TicketResponse::Listing(store.list())),
        TicketRequest::Delete { id } => match store.delete(&ctx, id) {
            Result::Ok(t) => Result::Ok(TicketResponse::Deleted(t)),
            Result::Err(e) => Result::Err(e),
        },
    }
}

/// Everything one protected request leaves behind for the outbound stage:
/// the resolved identity if any, what to do with the cookie, the handler's
/// result if it ran, and the first recorded failure if any.
pub struct ProtectedRun {
    pub ctx: Option<Ctx>,
    pub cookie_action: CookieAction,
    pub result: Option<TicketResponse>,
    pub error: Option<InternalError>,
}

/// One protected request from resolver to handler, in pipeline order:
/// resolve the cookie, record a malformed token as the request's failure
/// (first failure wins), gate, and run the handler only under a resolved
/// context; a gate or handler failure is recorded in turn.
pub fn process_protected(store: &mut TicketStore, cookie: Option<&str>, req: TicketRequest) -> (r:
    ProtectedRun)
    requires
        store_wf(old(store)@),
        old(store)@.len() < u64::MAX,
    ensures
        store_wf(final(store)@),
        r.cookie_action == spec_cookie_action(cookie_view(cookie)),
        r.ctx == (match spec_resolve(cookie_view(cookie)) {
            ResolveOutcome::Resolved(c) => Some(c),
            _ => None::<Ctx>,
        }),
        spec_resolve(cookie_view(cookie)) == ResolveOutcome::NoToken ==> r.error == Some(
            InternalError::AuthFailNoAuth,
        ) && r.result is None && final(store)@ == old(store)@,
        spec_resolve(cookie_view(cookie)) == ResolveOutcome::Malformed ==> r.error == Some(
            InternalError::AuthFailTokenParse,
        ) && r.result is None && final(store)@ == old(store)@,
        spec_resolve(cookie_view(cookie)) matches ResolveOutcome::Resolved(c)
            ==> req matches TicketRequest::Create { title } ==> (r.error is None && (
        r.result matches Some(TicketResponse::Created(t)) && t@ == created_ticket(
            old(store)@,
            c.subject_id,
            title@,
        ) && final(store)@ == old(store)@.push(Some(t@)))),
        spec_resolve(cookie_view(cookie)) matches ResolveOutcome::Resolved(_)
            ==> req matches TicketRequest::ListAll ==> (r.error is None && (r.result matches Some(
            TicketResponse::Listing(ts),
        ) && ts@.map_values(|t: Ticket| t@) == live(old(store)@)) && final(store)@ == old(
            store,
        )@),
        spec_resolve(cookie_view(cookie)) matches ResolveOutcome::Resolved(_)
            ==> req matches TicketRequest::Delete { id } ==> delete_hit(old(store)@, id) ==> (
        r.error is None && (r.result matches Some(TicketResponse::Deleted(t)) && Some(t@) == old(
            store,
        )@[id - 1]) && final(store)@ == old(store)@.update(id - 1, None::<crate::store::TicketV>)),
        spec_resolve(cookie_view(cookie)) matches ResolveOutcome::Resolved(_)
            ==> req matches TicketRequest::Delete { id } ==> !delete_hit(old(store)@, id) ==> (
        r.error == Some(InternalError::TicketDeleteFailIdNotFound { id }) && r.result is None
            && final(store)@ == old(store)@),
{
    let mut slot = ErrorSlot::new();
    let (outcome, cookie_action) = resolve_ctx(cookie);
    if let ResolveOutcome::Malformed = &outcome {
        slot.record(InternalError::AuthFailTokenParse);
    }
    let ctx = match &outcome {
        ResolveOutcome::Resolved(c) => Option::Some(*c),
        _ => Option::None,
    };
    let result = match handle_protected(store, &outcome, req) {
        Result::Ok(resp) => Option::Some(resp),
        Result::Err(e) => {
            slot.record(e);
            Option::None
        },
    };
    ProtectedRun { ctx, cookie_action, result, error: slot.error }
}

/// Law: a protected route without a resolved context short-circuits at the
/// gate with `AuthFailNoAuth`, which maps to status 403; with no token
/// present that failure is the first recorded, so the public tag is
/// `AUTH_FAIL_NO_AUTH`. (With a present but malformed token the resolver's
/// earlier `AuthFailTokenParse` wins the slot; it too maps to 403.) The
/// handler never runs: `process_protected` leaves the store unchanged.
pub proof fn lemma_gate_short_circuit(o: ResolveOutcome)
    requires
        !(o matches ResolveOutcome::Resolved(_)),
    ensures
        spec_gate(o) == Err::<Ctx, InternalError>(InternalError::AuthFailNoAuth),
        status_of(InternalError::AuthFailNoAuth) == 403,
        tag_of(InternalError::AuthFailNoAuth) == PublicErrorTag::AuthFailNoAuth,
        status_of(InternalError::AuthFailTokenParse) == 403,
{
}

} // verus!
