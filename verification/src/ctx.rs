use vstd::prelude::*;

verus! {

/// The resolved identity for one request: the subject id carried by a
/// structurally valid identity token. Created only by the context resolver
/// (or by a test standing in for it); immutable once created.
#[derive(Clone, Copy, Debug, PartialEq, Eq, Structural)]
pub struct Ctx {
    pub subject_id: u64,
}

impl Ctx {
    pub fn new(subject_id: u64) -> (c: Ctx)
        ensures
            c.subject_id == subject_id,
    {
        Ctx { subject_id }
    }

    pub fn subject_id(&self) -> (r: u64)
        ensures
            r == self.subject_id,
    {
        self.subject_id
    }
}

} // verus!
