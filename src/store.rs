use vstd::prelude::*;
use std::collections::HashMap;
use crate::id::DatabaseId;
use crate::lifecycle::PrivilegeMode;

verus! {

broadcast use vstd::std_specs::hash::group_hash_axioms;

/// The privileged connections that are kept, one per restricted database,
/// between the `create` that opened them and the `clean` or `drop` that
/// takes them. A connection is never held by two call sites at once: `take`
/// moves it out, `retain` moves it back in.
pub struct RetainedConnections<C> {
    entries: HashMap<u128, C>,
}

impl<C> View for RetainedConnections<C> {
    type V = Map<u128, C>;

    closed spec fn view(&self) -> Map<u128, C> {
        self.entries@
    }
}

impl<C> RetainedConnections<C> {
    /// Whether a connection is retained for `id`.
    pub open spec fn holds(&self, id: DatabaseId) -> bool {
        self@.contains_key(id.value)
    }

    pub fn new() -> (r: Self)
        ensures
            r@ == Map::<u128, C>::empty(),
    {
        RetainedConnections { entries: HashMap::new() }
    }

    /// Whether a connection is retained for `id`.
    pub fn contains(&self, id: DatabaseId) -> (r: bool)
        ensures
            r == self.holds(id),
    {
        self.entries.contains_key(&id.value)
    }

    /// Puts the privileged connection of `id` in the store, replacing any
    /// connection held for it before.
    pub fn retain(&mut self, id: DatabaseId, conn: C)
        ensures
            final(self)@ == old(self)@.insert(id.value, conn),
    {
        self.entries.insert(id.value, conn);
    }

    /// Moves the privileged connection of `id` out of the store. Only a
    /// database that holds one may be asked for it.
    pub fn take(&mut self, id: DatabaseId) -> (r: C)
        requires
            old(self).holds(id),
        ensures
            r == old(self)@[id.value],
            final(self)@ == old(self)@.remove(id.value),
    {
        self.entries.remove(&id.value).unwrap()
    }

    /// Moves the connection of `id` out if one is held, and `None` otherwise.
    pub fn try_take(&mut self, id: DatabaseId) -> (r: Option<C>)
        ensures
            final(self)@ == old(self)@.remove(id.value),
            r == (if old(self).holds(id) { Some(old(self)@[id.value]) } else { None::<C> }),
    {
        self.entries.remove(&id.value)
    }

    /// The mode in which to drop a database whose `create` failed part way:
    /// restricted exactly when its privileged connection was retained, so that
    /// the drop takes that connection and never asks for a missing one.
    pub fn teardown_mode(&self, id: DatabaseId) -> (r: PrivilegeMode)
        ensures
            (r == PrivilegeMode::Restricted) == self.holds(id),
    {
        if self.entries.contains_key(&id.value) {
            PrivilegeMode::Restricted
        } else {
            PrivilegeMode::Unrestricted
        }
    }

    pub fn len(&self) -> (r: usize)
        ensures
            r == self@.len(),
    {
        self.entries.len()
    }
}

/// After the connection of `id` is taken, no connection is held for it, so a
/// second `take` for `id` (a `clean` or a restricted `drop` after `drop`)
/// breaks `take`'s precondition; the entries of other ids are untouched.
pub proof fn lemma_take_is_final<C>(before: RetainedConnections<C>, after: RetainedConnections<C>, id: DatabaseId, other: DatabaseId)
    requires
        before.holds(id),
        after@ == before@.remove(id.value),
        other != id,
    ensures
        !after.holds(id),
        after.holds(other) == before.holds(other),
        after.holds(other) ==> after@[other.value] == before@[other.value],
{
}

/// A `clean` takes the connection of `id` and puts the same connection back:
/// the store ends as it began, so cleaning again finds it in the same state.
pub proof fn lemma_take_retain_round_trip<C>(before: RetainedConnections<C>, middle: RetainedConnections<C>, after: RetainedConnections<C>, id: DatabaseId, conn: C)
    requires
        before.holds(id),
        conn == before@[id.value],
        middle@ == before@.remove(id.value),
        after@ == middle@.insert(id.value, conn),
    ensures
        after@ == before@,
{
    assert(after@ =~= before@);
}

} // verus!
