use vstd::prelude::*;
use std::collections::HashMap;
use crate::id::{DatabaseId, db_name_of};
use crate::lifecycle::{DbState, Operation, PrivilegeMode, after_op, op_id, check_transition};

verus! {

broadcast use vstd::std_specs::hash::group_hash_axioms;

/// The state of a database in a map of known states; a database that the
/// map does not know has not been created.
pub open spec fn state_in(m: Map<u128, DbState>, id: DatabaseId) -> DbState {
    if m.contains_key(id.value) {
        m[id.value]
    } else {
        DbState::Uninitialized
    }
}

/// Whether `name` is the name of a database that the map records.
pub open spec fn recorded_name(m: Map<u128, DbState>, name: Seq<char>) -> bool {
    exists|id: DatabaseId| #[trigger] m.contains_key(id.value) && db_name_of(id) == name
}

/// Where each database handled by one backend stands, so that an operation
/// out of sequence (a `clean` of an unrestricted database, anything after
/// `drop`) is detected before it runs.
pub struct Registry {
    states: HashMap<u128, DbState>,
    known: Vec<DatabaseId>,
}

impl View for Registry {
    type V = Map<u128, DbState>;

    closed spec fn view(&self) -> Map<u128, DbState> {
        self.states@
    }
}

impl Registry {
    /// The databases that the registry has recorded, in order of first record.
    pub closed spec fn known_ids(&self) -> Seq<DatabaseId> {
        self.known@
    }

    pub closed spec fn wf(&self) -> bool {
        &&& forall|id: DatabaseId| self.states@.contains_key(id.value) <==> self.known@.contains(id)
        &&& self.known@.no_duplicates()
    }

    pub fn new() -> (r: Registry)
        ensures
            r.wf(),
            r@ == Map::<u128, DbState>::empty(),
    {
        let r = Registry { states: HashMap::new(), known: Vec::new() };
        proof {
            assert forall|id: DatabaseId| r.states@.contains_key(id.value) <==> r.known@.contains(id) by {}
        }
        r
    }

    /// The names of every database that the registry has recorded; the
    /// sweep of earlier databases spares them.
    pub fn known_names(&self) -> (r: Vec<String>)
        requires
            self.wf(),
        ensures
            forall|id: DatabaseId| #[trigger] self@.contains_key(id.value) ==> holds_name(r@, db_name_of(id)),
            forall|i: int| 0 <= i < r@.len() ==> recorded_name(self@, (#[trigger] r@[i])@),
    {
        let mut r: Vec<String> = Vec::new();
        let mut i: usize = 0;
        while i < self.known.len()
            invariant
                i <= self.known@.len(),
                r@.len() == i,
                forall|j: int| 0 <= j < i ==> (#[trigger] r@[j])@ == db_name_of(self.known@[j]),
            decreases self.known@.len() - i,
        {
            r.push(self.known[i].db_name());
            i = i + 1;
        }
        proof {
            assert forall|id: DatabaseId| #[trigger] self@.contains_key(id.value) implies holds_name(r@, db_name_of(id)) by {
                assert(self.known@.contains(id));
                let k = choose|k: int| 0 <= k < self.known@.len() && self.known@[k] == id;
                assert(r@[k]@ == db_name_of(id));
            }
            assert forall|i: int| 0 <= i < r@.len() implies recorded_name(self@, (#[trigger] r@[i])@) by {
                let id = self.known@[i];
                assert(0 <= i < self.known@.len() && self.known@[i] == id);
                assert(self.known@.contains(id));
                assert(self.states@.contains_key(id.value) <==> self.known@.contains(id));
                assert(self@.contains_key(id.value));
                assert(r@[i]@ == db_name_of(id));
            }
        }
        r
    }

    pub fn state(&self, id: DatabaseId) -> (r: DbState)
        ensures
            r == state_in(self@, id),
    {
        match self.states.get(&id.value) {
            Some(s) => *s,
            None => DbState::Uninitialized,
        }
    }

    /// Whether `op` may run on its database now.
    pub fn permits(&self, op: Operation) -> (r: bool)
        ensures
            r == after_op(state_in(self@, op_id(op)), op) is Some,
    {
        let id = match op {
            Operation::Create { id, .. } => id,
            Operation::Clean { id } => id,
            Operation::Drop { id, .. } => id,
            Operation::Init { .. } => {
                return false;
            },
        };
        check_transition(self.state(id), op).is_some()
    }

    /// Records that `op` succeeded; an operation that is not permitted is
    /// refused and leaves the registry unchanged.
    pub fn record(&mut self, op: Operation) -> (r: bool)
        requires
            old(self).wf(),
        ensures
            final(self).wf(),
            r == after_op(state_in(old(self)@, op_id(op)), op) is Some,
            r ==> final(self)@ == old(self)@.insert(
                op_id(op).value,
                after_op(state_in(old(self)@, op_id(op)), op).unwrap(),
            ),
            !r ==> final(self)@ == old(self)@,
    {
        let id = match op {
            Operation::Create { id, .. } => id,
            Operation::Clean { id } => id,
            Operation::Drop { id, .. } => id,
            Operation::Init { .. } => {
                return false;
            },
        };
        match check_transition(self.state(id), op) {
            Some(next) => {
                if !self.states.contains_key(&id.value) {
                    self.known.push(id);
                    proof {
                        assert forall|i: int, j: int| 0 <= i < j < self.known@.len() implies self.known@[i]
                            != self.known@[j] by {
                            if j == self.known@.len() - 1 {
                                assert(old(self).known@.contains(self.known@[i]));
                            } else {
                                assert(self.known@[j] == old(self).known@[j]);
                            }
                        }
                    }
                }
                self.states.insert(id.value, next);
                proof {
                    assert forall|k: DatabaseId| self.states@.contains_key(k.value) <==> self.known@.contains(k) by {
                        if k.value == id.value {
                            assert(k == id);
                            if old(self).states@.contains_key(id.value) {
                                assert(old(self).known@.contains(id));
                                let x = choose|x: int| 0 <= x < old(self).known@.len() && old(self).known@[x] == id;
                                assert(self.known@[x] == id);
                            } else {
                                assert(self.known@[self.known@.len() - 1] == id);
                            }
                        } else if old(self).known@.contains(k) {
                            let x = choose|x: int| 0 <= x < old(self).known@.len() && old(self).known@[x] == k;
                            assert(self.known@[x] == k);
                        } else if self.known@.contains(k) {
                            let x = choose|x: int| 0 <= x < self.known@.len() && self.known@[x] == k;
                            if x < old(self).known@.len() {
                                assert(old(self).known@[x] == k);
                            }
                        }
                    }
                }
                true
            },
            None => false,
        }
    }
}

/// Once a `drop` of a database is recorded, no later operation on that
/// database is permitted: the map that `record` leaves behind refuses every
/// `create`, `clean` and `drop` of it.
pub proof fn lemma_nothing_after_drop(before: Map<u128, DbState>, id: DatabaseId, mode: PrivilegeMode, later: Operation)
    requires
        after_op(state_in(before, id), Operation::Drop { id, mode }) is Some,
        op_id(later) == id,
    ensures
        ({
            let after = before.insert(id.value, after_op(state_in(before, id), Operation::Drop { id, mode }).unwrap());
            after_op(state_in(after, op_id(later)), later) is None
        }),
{
}

/// Whether one of the strings is `name`.
pub open spec fn holds_name(s: Seq<String>, name: Seq<char>) -> bool {
    exists|j: int| 0 <= j < s.len() && (#[trigger] s[j])@ == name
}

/// The databases that the sweep drops: the listed earlier databases, less
/// those that are spared, in the order of the listing.
pub fn sweep_targets(listed: &Vec<String>, spare: &Vec<String>) -> (r: Vec<String>)
    ensures
        forall|i: int| 0 <= i < r@.len() ==> !holds_name(spare@, (#[trigger] r@[i])@) && holds_name(listed@, r@[i]@),
        forall|k: int| 0 <= k < listed@.len() && !holds_name(spare@, (#[trigger] listed@[k])@) ==> holds_name(r@, listed@[k]@),
{
    let mut r: Vec<String> = Vec::new();
    let mut k: usize = 0;
    while k < listed.len()
        invariant
            k <= listed@.len(),
            forall|i: int| 0 <= i < r@.len() ==> !holds_name(spare@, (#[trigger] r@[i])@) && holds_name(listed@, r@[i]@),
            forall|m: int| 0 <= m < k && !holds_name(spare@, (#[trigger] listed@[m])@) ==> holds_name(r@, listed@[m]@),
        decreases listed@.len() - k,
    {
        let mut found = false;
        let mut j: usize = 0;
        while j < spare.len()
            invariant
                j <= spare@.len(),
                k < listed@.len(),
                found <==> exists|x: int| 0 <= x < j && (#[trigger] spare@[x])@ == listed@[k as int]@,
            decreases spare@.len() - j,
        {
            if spare[j] == listed[k] {
                found = true;
            }
            j = j + 1;
        }
        let ghost before = r@;
        if !found {
            r.push(listed[k].clone());
            proof {
                assert(r@[r@.len() - 1]@ == listed@[k as int]@);
                assert forall|i: int| 0 <= i < r@.len() implies !holds_name(spare@, (#[trigger] r@[i])@)
                    && holds_name(listed@, r@[i]@) by {
                    if i < before.len() {
                        assert(r@[i] == before[i]);
                    } else {
                        assert(listed@[k as int]@ == r@[i]@);
                    }
                }
            }
        }
        proof {
            assert forall|m: int| 0 <= m < k + 1 && !holds_name(spare@, (#[trigger] listed@[m])@) implies holds_name(
                r@,
                listed@[m]@,
            ) by {
                if m < k {
                    let i = choose|i: int| 0 <= i < before.len() && (#[trigger] before[i])@ == listed@[m]@;
                    assert(r@[i] == before[i]);
                } else {
                    assert(r@[r@.len() - 1]@ == listed@[m]@);
                }
            }
        }
        k = k + 1;
    }
    r
}

/// The sweep never drops a database that this backend has recorded: a
/// `create` that ran before the sweep took its exclusive lock is in the
/// registry, so its name is spared whatever the listing held.
pub proof fn lemma_sweep_spares_recorded(reg: Registry, names: Seq<String>, targets: Seq<String>, id: DatabaseId)
    requires
        reg@.contains_key(id.value),
        forall|id2: DatabaseId| #[trigger] reg@.contains_key(id2.value) ==> holds_name(names, db_name_of(id2)),
        forall|i: int| 0 <= i < targets.len() ==> !holds_name(names, (#[trigger] targets[i])@),
    ensures
        forall|i: int| 0 <= i < targets.len() ==> (#[trigger] targets[i])@ != db_name_of(id),
{
    assert forall|i: int| 0 <= i < targets.len() implies (#[trigger] targets[i])@ != db_name_of(id) by {
        let j = choose|j: int| 0 <= j < names.len() && (#[trigger] names[j])@ == db_name_of(id);
        if targets[i]@ == db_name_of(id) {
            assert(holds_name(names, targets[i]@));
        }
    }
}

} // verus!
