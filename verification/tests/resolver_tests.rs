use ticket_api::resolver::{resolve_ctx, CookieAction, ResolveOutcome};

#[test]
fn resolve_valid_cookie_refreshes() {
    let (outcome, action) = resolve_ctx(Some("ident-7.sig"));
    match outcome {
        ResolveOutcome::Resolved(c) => assert_eq!(c.subject_id(), 7),
        _ => panic!("expected a resolved context"),
    }
    assert_eq!(action, CookieAction::Refresh);
}

#[test]
fn resolve_missing_cookie_clears() {
    let (outcome, action) = resolve_ctx(None);
    assert_eq!(outcome, ResolveOutcome::NoToken);
    assert_eq!(action, CookieAction::Clear);
}

#[test]
fn resolve_malformed_cookie_clears() {
    let (outcome, action) = resolve_ctx(Some("garbage"));
    assert_eq!(outcome, ResolveOutcome::Malformed);
    assert_eq!(action, CookieAction::Clear);

    let (outcome2, action2) = resolve_ctx(Some("ident-1.a.b"));
    assert_eq!(outcome2, ResolveOutcome::Malformed);
    assert_eq!(action2, CookieAction::Clear);
}
