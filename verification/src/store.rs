use vstd::prelude::*;
use crate::ctx::Ctx;
use crate::error::InternalError;

verus! {

/// A ticket resource: owned by the identity that created it.
#[derive(Debug, PartialEq, Eq)]
pub struct Ticket {
    pub id: u64,
    pub owner_subject_id: u64,
    pub title: String,
}

/// The mathematical value of a ticket.
pub struct TicketV {
    pub id: u64,
    pub owner_subject_id: u64,
    pub title: Seq<char>,
}

impl View for Ticket {
    type V = TicketV;

    open spec fn view(&self) -> TicketV {
        TicketV { id: self.id, owner_subject_id: self.owner_subject_id, title: self.title@ }
    }
}

impl Ticket {
    /// A field-for-field copy.
    pub fn dup(&self) -> (t: Ticket)
        ensures
            t@ == self@,
    {
        Ticket { id: self.id, owner_subject_id: self.owner_subject_id, title: self.title.clone() }
    }
}

/// A well-formed store: the slot at index `i` either is a gap left by a
/// deletion or holds the ticket with id `i + 1`, so ids are stable, start at
/// 1, and are never reused.
pub open spec fn store_wf(v: Seq<Option<TicketV>>) -> bool {
    forall|i: int| 0 <= i < v.len() ==> (#[trigger] v[i] matches Some(t) ==> t.id == i + 1)
}

/// The ticket a create against state `v` yields.
pub open spec fn created_ticket(v: Seq<Option<TicketV>>, owner: u64, title: Seq<char>) -> TicketV {
    TicketV { id: (v.len() + 1) as u64, owner_subject_id: owner, title }
}

/// Whether a delete of `id` against state `v` finds a live ticket.
pub open spec fn delete_hit(v: Seq<Option<TicketV>>, id: u64) -> bool {
    1 <= id && id <= v.len() && v[id - 1] is Some
}

/// The live tickets of state `v`, in slot (= creation) order.
pub open spec fn live(v: Seq<Option<TicketV>>) -> Seq<TicketV>
    decreases v.len(),
{
    if v.len() == 0 {
        Seq::empty()
    } else {
        let rest = live(v.drop_last());
        match v.last() {
            Some(t) => rest.push(t),
            None => rest,
        }
    }
}

/// The in-memory resource store: an ordered collection of optional ticket
/// slots. Deletion leaves a gap rather than shifting, so ids stay stable.
/// One store value is the state guarded by the server shell's single lock;
/// every method is one atomic mutation or one consistent snapshot.
pub struct TicketStore {
    slots: Vec<Option<Ticket>>,
}

impl View for TicketStore {
    type V = Seq<Option<TicketV>>;

    closed spec fn view(&self) -> Seq<Option<TicketV>> {
        self.slots@.map_values(
            |ot: Option<Ticket>|
                match ot {
                    Some(t) => Some(t@),
                    None => None,
                },
        )
    }
}

impl TicketStore {
    pub fn new() -> (s: TicketStore)
        ensures
            s@ == Seq::<Option<TicketV>>::empty(),
            store_wf(s@),
    {
        let s = TicketStore { slots: Vec::new() };
        proof {
            assert(s@ =~= Seq::<Option<TicketV>>::empty());
        }
        s
    }

    /// How many slots the store has ever allocated: live tickets plus the
    /// gaps deletion left. Also the highest id ever assigned.
    pub fn slot_count(&self) -> (n: usize)
        ensures
            n == self@.len(),
    {
        self.slots.len()
    }

    /// Create a ticket owned by the caller's identity. Always succeeds: by
    /// documented policy the title is stored as given, with no content
    /// validation. The new id is one past the last ever assigned.
    pub fn create(&mut self, ctx: &Ctx, title: String) -> (t: Ticket)
        requires
            store_wf(old(self)@),
            old(self)@.len() < u64::MAX,  // so the next id fits in u64
        ensures
            store_wf(final(self)@),
            t@ == created_ticket(old(self)@, ctx.subject_id, title@),
            final(self)@ == old(self)@.push(Some(t@)),
    {
        let id = (self.slots.len() as u64) + 1;
        let t = Ticket { id, owner_subject_id: ctx.subject_id(), title };
        let stored = t.dup();
        self.slots.push(Some(stored));
        proof {
            assert(self@ =~= old(self)@.push(Some(t@)));
        }
        t
    }

    /// A consistent snapshot of all live tickets, in creation order,
    /// regardless of owner (no per-owner filtering is modeled).
    pub fn list(&self) -> (r: Vec<Ticket>)
        ensures
            r@.map_values(|t: Ticket| t@) == live(self@),
    {
        let ghost v = self@;
        let mut r: Vec<Ticket> = Vec::new();
        let n = self.slots.len();
        let mut i: usize = 0;
        while i < n
            invariant
                i <= n,
                n == self.slots@.len(),
                v == self@,
                v.len() == n,
                r@.map_values(|t: Ticket| t@) == live(v.subrange(0, i as int)),
            decreases n - i,
        {
            let ghost prefix = v.subrange(0, i as int);
            match &self.slots[i] {
                Option::Some(t) => {
                    r.push(t.dup());
                },
                Option::None => {},
            }
            proof {
                let next = v.subrange(0, i + 1);
                assert(next.drop_last() =~= prefix);
                assert(next.last() == v[i as int]);
                assert(r@.map_values(|t: Ticket| t@) =~= live(next));
            }
            i = i + 1;
        }
        proof {
            assert(v.subrange(0, n as int) =~= v);
        }
        r
    }

    /// Delete the live ticket with the given id, returning it; with no live
    /// ticket at that id, fail with `TicketDeleteFailIdNotFound` and leave
    /// the store exactly as it was.
    pub fn delete(&mut self, ctx: &Ctx, id: u64) -> (r: Result<Ticket, InternalError>)
        requires
            store_wf(old(self)@),
        ensures
            store_wf(final(self)@),
            delete_hit(old(self)@, id) ==> (r matches Ok(t) && Some(t@) == old(self)@[id - 1]
                && final(self)@ == old(self)@.update(id - 1, None::<TicketV>)),
            !delete_hit(old(self)@, id) ==> r == Err::<Ticket, InternalError>(
                InternalError::TicketDeleteFailIdNotFound { id },
            ) && final(self)@ == old(self)@,
    {
        if 1 <= id && id <= self.slots.len() as u64 {
            let idx = (id - 1) as usize;
            let taken = match &self.slots[idx] {
                Option::Some(t) => Option::Some(t.dup()),
                Option::None => Option::None,
            };
            match taken {
                Option::Some(t) => {
                    vstd::std_specs::core::index_set(&mut self.slots, idx, Option::None);
                    proof {
                        assert(self@ =~= old(self)@.update(id - 1, None::<TicketV>));
                    }
                    Result::Ok(t)
                },
                Option::None => Result::Err(InternalError::TicketDeleteFailIdNotFound { id }),
            }
        } else {
            Result::Err(InternalError::TicketDeleteFailIdNotFound { id })
        }
    }
}

/// Law: in a well-formed store, live tickets carry pairwise distinct ids,
/// and ids increase with slot order, which is creation order. So any run of
/// creates — under the store's mutual exclusion, in whatever interleaving —
/// yields distinct, monotonically assigned ids with no lost writes.
pub proof fn lemma_store_ids_distinct(v: Seq<Option<TicketV>>)
    requires
        store_wf(v),
    ensures
        forall|i: int, j: int|
            0 <= i < j < v.len() ==> ((#[trigger] v[i]) matches Some(a) ==> ((#[trigger] v[j])
                matches Some(b) ==> a.id < b.id)),
{
}

/// Dropping the last slot of a well-formed store leaves it well-formed.
proof fn lemma_store_wf_drop_last(v: Seq<Option<TicketV>>)
    requires
        store_wf(v),
        v.len() > 0,
    ensures
        store_wf(v.drop_last()),
{
    let u = v.drop_last();
    assert forall|i: int| 0 <= i < u.len() implies (#[trigger] u[i] matches Some(t) ==> t.id == i
        + 1) by {
        assert(u[i] == v[i]);
    }
}

/// Every live ticket's id is at most the slot count.
proof fn lemma_live_ids_bounded(v: Seq<Option<TicketV>>)
    requires
        store_wf(v),
    ensures
        forall|k: int| 0 <= k < live(v).len() ==> (#[trigger] live(v)[k]).id <= v.len(),
    decreases v.len(),
{
    if v.len() > 0 {
        let u = v.drop_last();
        lemma_store_wf_drop_last(v);
        lemma_live_ids_bounded(u);
        assert(v[v.len() - 1] == v.last());
        match v.last() {
            Some(t) => {
                assert(t.id == v.len());
                assert(live(v) == live(u).push(t));
                assert forall|k: int| 0 <= k < live(v).len() implies (#[trigger] live(
                    v,
                )[k]).id <= v.len() by {
                    if k < live(u).len() {
                        assert(live(v)[k] == live(u)[k]);
                    } else {
                        assert(live(v)[k] == t);
                    }
                }
            },
            None => {
                assert(live(v) == live(u));
                assert forall|k: int| 0 <= k < live(v).len() implies (#[trigger] live(
                    v,
                )[k]).id <= v.len() by {
                    assert(live(v)[k] == live(u)[k]);
                }
            },
        }
    }
}

/// Law: the live snapshot (what `list` returns) carries strictly increasing
/// ids, so creation order is visible in every listing, deletions never
/// disturb the order of the remaining tickets, and no two live tickets ever
/// share an id.
pub proof fn lemma_live_ids_increasing(v: Seq<Option<TicketV>>)
    requires
        store_wf(v),
    ensures
        forall|i: int, j: int|
            0 <= i < j < live(v).len() ==> (#[trigger] live(v)[i]).id < (#[trigger] live(
                v,
            )[j]).id,
    decreases v.len(),
{
    if v.len() > 0 {
        let u = v.drop_last();
        lemma_store_wf_drop_last(v);
        lemma_live_ids_increasing(u);
        lemma_live_ids_bounded(u);
        assert(v[v.len() - 1] == v.last());
        match v.last() {
            Some(t) => {
                assert(t.id == v.len());
                assert(live(v) == live(u).push(t));
                assert forall|i: int, j: int| 0 <= i < j < live(v).len() implies (#[trigger] live(
                    v,
                )[i]).id < (#[trigger] live(v)[j]).id by {
                    assert(live(v)[i] == live(u)[i]);
                    if j < live(u).len() {
                        assert(live(v)[j] == live(u)[j]);
                    } else {
                        assert(live(v)[j] == t);
                        assert(live(u)[i].id <= u.len());
                    }
                }
            },
            None => {
                assert(live(v) == live(u));
                assert forall|i: int, j: int| 0 <= i < j < live(v).len() implies (#[trigger] live(
                    v,
                )[i]).id < (#[trigger] live(v)[j]).id by {
                    assert(live(v)[i] == live(u)[i]);
                    assert(live(v)[j] == live(u)[j]);
                }
            },
        }
    }
}

/// The live tickets of a concatenation are the live tickets of the parts.
proof fn lemma_live_split(v: Seq<Option<TicketV>>, m: int)
    requires
        0 <= m <= v.len(),
    ensures
        live(v) == live(v.subrange(0, m)) + live(v.subrange(m, v.len() as int)),
    decreases v.len(),
{
    let a = v.subrange(0, m);
    let b = v.subrange(m, v.len() as int);
    if m == v.len() {
        assert(a =~= v);
        assert(b =~= Seq::<Option<TicketV>>::empty());
        assert(live(v) =~= live(a) + live(b));
    } else {
        let u = v.drop_last();
        lemma_live_split(u, m);
        assert(u.subrange(0, m) =~= a);
        let ub = u.subrange(m, u.len() as int);
        assert(b.drop_last() =~= ub);
        assert(b.len() > 0);
        assert(b.last() == v.last());
        match v.last() {
            Some(t) => {
                assert(live(v) == live(u).push(t));
                assert(live(b) == live(ub).push(t));
                assert(live(v) =~= live(a) + live(b));
            },
            None => {
                assert(live(v) == live(u));
                assert(live(b) == live(ub));
                assert(live(v) =~= live(a) + live(b));
            },
        }
    }
}

/// Law: deleting a live ticket removes exactly that ticket from the
/// listing: the live tickets before and after it are kept, in order.
pub proof fn lemma_delete_removes_exactly(v: Seq<Option<TicketV>>, id: u64)
    requires
        store_wf(v),
        delete_hit(v, id),
    ensures
        v[id - 1] matches Some(t) ==> live(v) == live(v.subrange(0, id - 1)) + seq![t] + live(
            v.subrange(id as int, v.len() as int),
        ),
        live(v.update(id - 1, None::<TicketV>)) == live(v.subrange(0, id - 1)) + live(
            v.subrange(id as int, v.len() as int),
        ),
{
    let i = id as int - 1;
    let a = v.subrange(0, i);
    let b = v.subrange(i + 1, v.len() as int);
    lemma_live_split(v, i);
    let mid = v.subrange(i, v.len() as int);
    lemma_live_split(mid, 1);
    assert(mid.subrange(0, 1) =~= seq![v[i]]);
    assert(mid.subrange(1, mid.len() as int) =~= b);
    match v[i] {
        Some(t) => {
            let single = seq![v[i]];
            assert(single.last() == v[i]);
            assert(single.drop_last() =~= Seq::<Option<TicketV>>::empty());
            assert(live(Seq::<Option<TicketV>>::empty()) == Seq::<TicketV>::empty());
            assert(live(single) == live(single.drop_last()).push(t));
            assert(live(single) =~= seq![t]);
            assert(live(v) == live(a) + (seq![t] + live(b)));
            assert(live(v) =~= live(a) + seq![t] + live(b));
        },
        None => {},
    }
    let w = v.update(i, None::<TicketV>);
    lemma_live_split(w, i);
    let wmid = w.subrange(i, w.len() as int);
    lemma_live_split(wmid, 1);
    assert(w.subrange(0, i) =~= a);
    assert(wmid.subrange(0, 1) =~= seq![None::<TicketV>]);
    assert(wmid.subrange(1, wmid.len() as int) =~= b);
    let wsingle = seq![None::<TicketV>];
    assert(wsingle.last() == None::<TicketV>);
    assert(wsingle.drop_last() =~= Seq::<Option<TicketV>>::empty());
    assert(live(Seq::<Option<TicketV>>::empty()) == Seq::<TicketV>::empty());
    assert(live(wsingle) == live(wsingle.drop_last()));
    assert(live(wsingle) =~= Seq::<TicketV>::empty());
    assert(live(w) =~= live(a) + live(b));
}

/// Law: a create against a well-formed store assigns an id strictly greater
/// than every id ever assigned, so ids are never reused, a deleted id stays
/// dead, and each create's result differs from every live ticket.
pub proof fn lemma_create_id_fresh(v: Seq<Option<TicketV>>, owner: u64, title: Seq<char>)
    requires
        store_wf(v),
        v.len() < u64::MAX,
    ensures
        forall|i: int|
            0 <= i < v.len() ==> ((#[trigger] v[i]) matches Some(t) ==> t.id < created_ticket(
                v,
                owner,
                title,
            ).id),
{
}

} // verus!
