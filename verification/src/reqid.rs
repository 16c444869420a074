use vstd::prelude::*;

verus! {

/// Relies on `uuid::Uuid::new_v4` and the `Display` form of `Uuid`
/// (`to_string` yields the lowercase hyphenated rendering, which is always
/// 36 characters). The value is random: nothing else is assumed of it.
#[verifier::external_body]
pub(crate) fn new_request_id() -> (r: String)
    ensures
        r@.len() == 36,
{
    uuid::Uuid::new_v4().to_string()
}

} // verus!
