//! Object identities and the allocator that hands them out.

use vstd::prelude::*;
use crate::error::ObjectError;
use crate::object::AnyValue;
use crate::text::{decimal_digits, unsigned_to_decimal};
use vstd::string::StringExecFns;

verus! {

/// The identity of one object: a token that no other object of the same
/// allocator carries. Its view is the number it was issued as, which is
/// never zero.
#[derive(Debug, Clone, Copy, PartialEq, Eq, Hash, Structural)]
pub struct ObjectId(u64);

impl View for ObjectId {
    type V = nat;

    closed spec fn view(&self) -> nat {
        self.0 as nat
    }
}

impl ObjectId {
    /// An identity is never zero.
    #[verifier::type_invariant]
    spec fn nonzero(&self) -> bool {
        self.0 > 0
    }

    /// A fresh identity, taken from `ids`.
    pub fn new(ids: &mut IdentityAllocator) -> (r: Result<ObjectId, ObjectError>)
        ensures
            final(ids).wf(),
            match r {
                Ok(id) => issues_unbound(*old(ids), *final(ids), id),
                Err(e) => e == ObjectError::IdentityExhausted && old(ids).exhausted()
                    && *final(ids) == *old(ids),
            },
    {
        ids.allocate()
    }

    /// The number behind the identity.
    pub fn value(&self) -> (v: u64)
        ensures
            v == self@,
            v > 0,
    {
        proof {
            use_type_invariant(self);
        }
        self.0
    }

    /// The identity as text: a `#`, then its number in decimal.
    pub fn to_string(&self) -> (s: String)
        ensures
            s@ == identity_text(*self),
    {
        proof {
            reveal_strlit("#");
        }
        let mut s = String::from_str("#");
        let digits = unsigned_to_decimal(self.0);
        s.append(digits.as_str());
        assert(s@ =~= identity_text(*self));
        s
    }
}

/// How an identity reads: a `#`, then its number in decimal.
pub open spec fn identity_text(id: ObjectId) -> Seq<char> {
    seq!['#'] + decimal_digits(id@)
}

/// Hands out identities in increasing order, starting at one.
///
/// Beside the counter it keeps, as ghost state, the value of every kernel
/// object that it has issued an identity for.
pub struct IdentityAllocator {
    next: u64,
    registry: Ghost<Map<ObjectId, AnyValue>>,
}

impl IdentityAllocator {
    /// The counter is past zero, and only identities already handed out
    /// have a value on record.
    #[verifier::type_invariant]
    pub closed spec fn wf(&self) -> bool {
        &&& self.next >= 1
        &&& forall|id: ObjectId| #[trigger]
            self.registry@.dom().contains(id) ==> 0 < id@ < self.next
    }

    /// The number that the next identity will carry.
    pub closed spec fn next_value(&self) -> nat {
        self.next as nat
    }

    /// No identity is left: the counter has come to its last value, which
    /// is never handed out.
    pub open spec fn exhausted(&self) -> bool {
        self.next_value() == u64::MAX
    }

    /// The value of each kernel object that holds one of this allocator's
    /// identities.
    pub closed spec fn registry(&self) -> Map<ObjectId, AnyValue> {
        self.registry@
    }

    /// `id` has been handed out.
    pub open spec fn issued(&self, id: ObjectId) -> bool {
        0 < id@ < self.next_value()
    }

    /// An allocator that has handed out nothing yet.
    pub fn new() -> (ids: IdentityAllocator)
        ensures
            ids.wf(),
            ids.next_value() == 1,
            !ids.exhausted(),
            ids.registry() == Map::<ObjectId, AnyValue>::empty(),
    {
        IdentityAllocator { next: 1, registry: Ghost(Map::empty()) }
    }

    /// An allocator whose first identity will carry the number `first`, with
    /// nothing handed out yet. There is none for zero, which no identity
    /// carries.
    pub fn starting_at(first: u64) -> (r: Option<IdentityAllocator>)
        ensures
            match r {
                Some(ids) => first > 0 && ids.wf() && ids.next_value() == first
                    && ids.registry() == Map::<ObjectId, AnyValue>::empty(),
                None => first == 0,
            },
    {
        if first == 0 {
            None
        } else {
            Some(IdentityAllocator { next: first, registry: Ghost(Map::empty()) })
        }
    }

    /// Hands out the next identity, or reports that none is left and
    /// stays as it was.
    pub fn allocate(&mut self) -> (r: Result<ObjectId, ObjectError>)
        ensures
            final(self).wf(),
            match r {
                Ok(id) => issues_unbound(*old(self), *final(self), id),
                Err(e) => e == ObjectError::IdentityExhausted && old(self).exhausted()
                    && *final(self) == *old(self),
            },
    {
        proof {
            use_type_invariant(&*self);
        }
        if self.next == u64::MAX {
            return Err(ObjectError::IdentityExhausted);
        }
        let id = ObjectId(self.next);
        self.next = self.next + 1;
        Ok(id)
    }

    /// Puts on record that the object holding `id` has the value `value`.
    /// Only the registry changes, and only at `id`.
    pub(crate) fn record(&mut self, id: ObjectId, Ghost(value): Ghost<AnyValue>)
        requires
            old(self).issued(id),
            !old(self).registry().dom().contains(id),
        ensures
            final(self).wf(),
            final(self).next_value() == old(self).next_value(),
            final(self).registry() == old(self).registry().insert(id, value),
    {
        proof {
            use_type_invariant(&*self);
        }
        self.registry = Ghost(self.registry@.insert(id, value));
    }
}

/// One allocation leads from `before` to `after` and hands out `id`: the
/// identity carries the number that was next, which is not zero, and the
/// counter has moved on by one.
pub open spec fn issues(before: IdentityAllocator, after: IdentityAllocator, id: ObjectId) -> bool {
    &&& !before.exhausted()
    &&& 0 < id@ == before.next_value()
    &&& after.next_value() == before.next_value() + 1
}

/// An allocation that hands out `id` and leaves the registry as it was: the
/// identity is issued, with no value on record for it.
pub open spec fn issues_unbound(
    before: IdentityAllocator,
    after: IdentityAllocator,
    id: ObjectId,
) -> bool {
    &&& issues(before, after, id)
    &&& after.registry() == before.registry()
    &&& !after.registry().dom().contains(id)
}

/// An allocation that hands out `id` to a kernel object whose value is
/// `value`, and puts that on record.
pub open spec fn issues_for(
    before: IdentityAllocator,
    after: IdentityAllocator,
    id: ObjectId,
    value: AnyValue,
) -> bool {
    &&& issues(before, after, id)
    &&& !before.registry().dom().contains(id)
    &&& after.registry() == before.registry().insert(id, value)
}

/// `states` are the states that an allocator goes through in a run of
/// allocations, and `ids` are the identities that it hands out on the way,
/// in order. An attempt that fails leaves the state as it was, so it has no
/// place in a run.
pub open spec fn allocation_run(states: Seq<IdentityAllocator>, ids: Seq<ObjectId>) -> bool {
    &&& states.len() == ids.len() + 1
    &&& forall|k: int| 0 <= k < ids.len() ==> issues(states[k], states[k + 1], #[trigger] ids[k])
}

/// Along a run the counter moves on by one with each identity.
proof fn lemma_run_counts(states: Seq<IdentityAllocator>, ids: Seq<ObjectId>, k: int)
    requires
        allocation_run(states, ids),
        0 <= k < ids.len(),
    ensures
        ids[k]@ == states[0].next_value() + k,
    decreases k,
{
    assert(issues(states[k], states[k + 1], ids[k]));
    if k > 0 {
        lemma_run_counts(states, ids, k - 1);
        assert(issues(states[k - 1], states[k], ids[k - 1]));
    }
}

/// Identity uniqueness: the identities that an allocator hands out in a
/// run, however long and for objects of whatever kind, are pairwise
/// distinct, and each carries a greater number than those before it.
pub proof fn lemma_identities_pairwise_distinct(
    states: Seq<IdentityAllocator>,
    ids: Seq<ObjectId>,
)
    requires
        allocation_run(states, ids),
    ensures
        forall|i: int, j: int|
            0 <= i < j < ids.len() ==> (#[trigger] ids[i])@ < (#[trigger] ids[j])@ && ids[i]
                != ids[j],
{
    assert forall|i: int, j: int| 0 <= i < j < ids.len() implies (#[trigger] ids[i])@ < (
    #[trigger] ids[j])@ && ids[i] != ids[j] by {
        lemma_run_counts(states, ids, i);
        lemma_run_counts(states, ids, j);
    }
}

/// What is on record stays on record: an allocation, with or without a
/// value for the new identity, changes nothing for the identities handed
/// out before it.
pub proof fn lemma_records_persist(
    before: IdentityAllocator,
    after: IdentityAllocator,
    id: ObjectId,
    earlier: ObjectId,
    value: AnyValue,
)
    requires
        issues_unbound(before, after, id) || exists|new_value: AnyValue|
            issues_for(before, after, id, new_value),
        before.registry().contains_pair(earlier, value),
    ensures
        after.registry().contains_pair(earlier, value),
        earlier != id,
{
}

} // verus!
