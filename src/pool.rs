use vstd::prelude::*;
use crate::id::{DatabaseId, is_v4};
use crate::lifecycle::PrivilegeMode;

verus! {

/// A scoped handle on a database and its connection pool. On release an
/// immutable one goes back to the idle queue and a mutable one is dropped.
pub enum Guard<P> {
    Immutable { id: DatabaseId, pool: P },
    Mutable { id: DatabaseId, pool: P },
}

impl<P> Guard<P> {
    pub open spec fn id_of(&self) -> DatabaseId {
        match self {
            Guard::Immutable { id, .. } => *id,
            Guard::Mutable { id, .. } => *id,
        }
    }

    pub fn id(&self) -> (r: DatabaseId)
        ensures
            r == self.id_of(),
    {
        match self {
            Guard::Immutable { id, .. } => *id,
            Guard::Mutable { id, .. } => *id,
        }
    }

    /// The connection pool of the guarded database.
    pub fn pool(&self) -> (r: &P)
        ensures
            r == (match self {
                Guard::Immutable { pool, .. } => pool,
                Guard::Mutable { pool, .. } => pool,
            }),
    {
        match self {
            Guard::Immutable { pool, .. } => pool,
            Guard::Mutable { pool, .. } => pool,
        }
    }
}

/// The outcome of an immutable acquisition.
pub enum Pull<P> {
    /// An idle database was taken from the queue: clean it, then hand out the guard.
    Reuse(Guard<P>),
    /// No database was idle: create this one as restricted, then guard it.
    Create(DatabaseId),
}

/// What a release asks the caller to do.
#[derive(Clone, Copy, Debug, PartialEq, Eq, Structural)]
pub enum Release {
    /// The database went back to the idle queue; nothing is to be done.
    ReturnedToIdle,
    /// Drop this database, created with this mode.
    Drop(DatabaseId, PrivilegeMode),
}

/// Whether an immutable acquisition from an idle queue of length `len`
/// creates a database.
pub open spec fn pull_creates(len: nat) -> bool {
    len == 0
}

/// The idle queue's length after an immutable acquisition.
pub open spec fn len_after_pull(len: nat) -> nat {
    if len == 0 { 0 } else { (len - 1) as nat }
}

/// What an immutable acquisition does: it creates (with a fresh random id)
/// exactly when nothing is idle, and otherwise hands out the most recently
/// returned database with its connection pool, removing it from the queue.
pub open spec fn pull_step<P>(before: DatabasePool<P>, after: DatabasePool<P>, r: Pull<P>) -> bool {
    &&& (pull_creates(before.idle_ids().len()) <==> r is Create)
    &&& (r matches Pull::Create(id) ==> is_v4(id.value))
    &&& after.idle_ids().len() == len_after_pull(before.idle_ids().len())
    &&& (before.idle_ids().len() == 0 ==> after.idle_ids() == before.idle_ids())
    &&& (before.idle_ids().len() > 0 ==> {
        &&& after.idle_ids() == before.idle_ids().drop_last()
        &&& after.entries() == before.entries().drop_last()
        &&& r == (Pull::Reuse(Guard::Immutable {
            id: before.entries().last().0,
            pool: before.entries().last().1,
        }))
    })
}

/// What a release does: an immutable guard's database goes back to the end of
/// the idle queue and is never dropped; a mutable guard's database is to be
/// dropped and never queued.
pub open spec fn release_step<P>(before: DatabasePool<P>, after: DatabasePool<P>, guard: Guard<P>, r: Release) -> bool {
    &&& (guard is Immutable ==> r == Release::ReturnedToIdle
        && after.idle_ids() == before.idle_ids().push(guard.id_of()))
    &&& (guard matches Guard::Immutable { id, pool } ==> after.entries() == before.entries().push((id, pool)))
    &&& (guard is Mutable ==> r == Release::Drop(guard.id_of(), PrivilegeMode::Unrestricted)
        && after.idle_ids() == before.idle_ids())
}

/// The id of the database that an acquisition hands out.
pub open spec fn pulled_id<P>(r: Pull<P>) -> DatabaseId {
    match r {
        Pull::Reuse(g) => g.id_of(),
        Pull::Create(id) => id,
    }
}

/// The databases that are idle and ready for reuse, each with its connection
/// pool. Databases that are lent out are tracked by their guards alone.
pub struct DatabasePool<P> {
    idle: Vec<(DatabaseId, P)>,
}

impl<P> DatabasePool<P> {
    /// The idle queue: each database with its connection pool, the next one
    /// to be reused last.
    pub closed spec fn entries(&self) -> Seq<(DatabaseId, P)> {
        self.idle@
    }

    /// The ids in the idle queue, in the same order.
    pub open spec fn idle_ids(&self) -> Seq<DatabaseId> {
        self.entries().map_values(|e: (DatabaseId, P)| e.0)
    }

    pub fn new() -> (r: Self)
        ensures
            r.idle_ids() == Seq::<DatabaseId>::empty(),
    {
        DatabasePool { idle: Vec::new() }
    }

    pub fn idle_len(&self) -> (r: usize)
        ensures
            r == self.entries().len(),
    {
        self.idle.len()
    }

    /// An immutable acquisition: the most recently returned idle database is
    /// reused when there is one; otherwise a fresh id is minted for a new
    /// restricted database.
    pub fn pull_immutable(&mut self) -> (r: Pull<P>)
        ensures
            pull_step(*old(self), *final(self), r),
    {
        match self.idle.pop() {
            Some(entry) => {
                proof {
                    assert(self.idle_ids() =~= old(self).idle_ids().drop_last());
                }
                let (id, pool) = entry;
                Pull::Reuse(Guard::Immutable { id, pool })
            },
            None => Pull::Create(DatabaseId::generate()),
        }
    }

    /// A mutable acquisition: always a fresh id, for a new unrestricted
    /// database; the idle queue is not consulted.
    pub fn create_mutable(&self) -> (r: DatabaseId)
        ensures
            is_v4(r.value),
    {
        DatabaseId::generate()
    }

    /// Releases a guard: an immutable database goes back to the idle queue and
    /// is never dropped; a mutable one is to be dropped and never queued.
    pub fn release(&mut self, guard: Guard<P>) -> (r: Release)
        ensures
            release_step(*old(self), *final(self), guard, r),
    {
        match guard {
            Guard::Immutable { id, pool } => {
                self.idle.push((id, pool));
                proof {
                    assert(self.idle_ids() =~= old(self).idle_ids().push(id));
                }
                Release::ReturnedToIdle
            },
            Guard::Mutable { id, .. } => Release::Drop(id, PrivilegeMode::Unrestricted),
        }
    }

    /// Empties the idle queue at teardown and hands back the ids of the
    /// restricted databases that are to be dropped.
    pub fn teardown(&mut self) -> (r: Vec<DatabaseId>)
        ensures
            r@ == old(self).idle_ids(),
            final(self).idle_ids() == Seq::<DatabaseId>::empty(),
    {
        let mut ids: Vec<DatabaseId> = Vec::new();
        let mut i: usize = 0;
        while i < self.idle.len()
            invariant
                i <= self.idle@.len(),
                self.idle@ == old(self).idle@,
                ids@ == self.idle_ids().subrange(0, i as int),
            decreases self.idle@.len() - i,
        {
            ids.push(self.idle[i].0);
            proof {
                assert(ids@ =~= self.idle_ids().subrange(0, i + 1));
            }
            i = i + 1;
        }
        proof {
            assert(ids@ =~= self.idle_ids());
        }
        self.idle = Vec::new();
        proof {
            assert(self.idle_ids() =~= Seq::<DatabaseId>::empty());
        }
        ids
    }
}

/// Acquisitions that overlap, none released before the next, from an empty
/// queue: given pool states `pools[0..=n]` where each acquisition `pulls[k]`
/// leads from `pools[k]` to `pools[k + 1]`, every one of them creates a
/// database and none is reused.
pub proof fn lemma_overlapping_pulls_create<P>(pools: Seq<DatabasePool<P>>, pulls: Seq<Pull<P>>, n: nat)
    requires
        pools.len() == n + 1,
        pulls.len() == n,
        pools[0].idle_ids().len() == 0,
        forall|k: int| 0 <= k < n ==> pull_step(pools[k], pools[k + 1], #[trigger] pulls[k]),
    ensures
        forall|k: int| 0 <= k < n ==> (#[trigger] pulls[k]) is Create,
        pools[n as int].idle_ids().len() == 0,
    decreases n,
{
    if n > 0 {
        let m = (n - 1) as nat;
        lemma_overlapping_pulls_create(pools.subrange(0, m as int + 1), pulls.subrange(0, m as int), m);
        assert(pools.subrange(0, m as int + 1)[m as int] == pools[m as int]);
        assert(pull_step(pools[m as int], pools[m as int + 1], pulls[m as int]));
        assert forall|k: int| 0 <= k < n implies (#[trigger] pulls[k]) is Create by {
            if k < m {
                assert(pulls.subrange(0, m as int)[k] == pulls[k]);
            }
        }
    }
}

/// The reuse of one database by acquisitions made one after another: given
/// pool states `pools[0..=2n]` where each acquisition `pulls[k]` leads from
/// `pools[2k]` to `pools[2k + 1]` and the release of its immutable guard
/// `guards[k]` leads on to `pools[2k + 2]`, starting from an empty queue,
/// the first acquisition creates, every later one reuses the database that
/// the first created, and exactly that one database is idle at the end.
pub proof fn lemma_sequential_pulls_share_one_database<P>(
    pools: Seq<DatabasePool<P>>,
    pulls: Seq<Pull<P>>,
    guards: Seq<Guard<P>>,
    releases: Seq<Release>,
    n: nat,
)
    requires
        n >= 1,
        pools.len() == 2 * n + 1,
        pulls.len() == n,
        guards.len() == n,
        releases.len() == n,
        pools[0].idle_ids().len() == 0,
        forall|k: int| 0 <= k < n ==> pull_step(pools[2 * k], pools[2 * k + 1], #[trigger] pulls[k]),
        forall|k: int| 0 <= k < n ==> (#[trigger] guards[k]) is Immutable && guards[k].id_of() == pulled_id(pulls[k])
            && release_step(pools[2 * k + 1], pools[2 * k + 2], guards[k], releases[k]),
    ensures
        pulls[0] is Create,
        forall|k: int| 1 <= k < n ==> (#[trigger] pulls[k]) is Reuse && pulled_id(pulls[k]) == pulled_id(pulls[0]),
        pools[2 * n as int].idle_ids() == seq![pulled_id(pulls[0])],
{
    lemma_sequential_prefix(pools, pulls, guards, releases, n, n);
}

proof fn lemma_sequential_prefix<P>(
    pools: Seq<DatabasePool<P>>,
    pulls: Seq<Pull<P>>,
    guards: Seq<Guard<P>>,
    releases: Seq<Release>,
    n: nat,
    m: nat,
)
    requires
        1 <= m <= n,
        pools.len() == 2 * n + 1,
        pulls.len() == n,
        guards.len() == n,
        releases.len() == n,
        pools[0].idle_ids().len() == 0,
        forall|k: int| 0 <= k < n ==> pull_step(pools[2 * k], pools[2 * k + 1], #[trigger] pulls[k]),
        forall|k: int| 0 <= k < n ==> (#[trigger] guards[k]) is Immutable && guards[k].id_of() == pulled_id(pulls[k])
            && release_step(pools[2 * k + 1], pools[2 * k + 2], guards[k], releases[k]),
    ensures
        pulls[0] is Create,
        forall|k: int| 1 <= k < m ==> (#[trigger] pulls[k]) is Reuse && pulled_id(pulls[k]) == pulled_id(pulls[0]),
        pools[2 * m as int].idle_ids() == seq![pulled_id(pulls[0])],
    decreases m,
{
    let id0 = pulled_id(pulls[0]);
    if m == 1 {
        assert(pull_step(pools[0], pools[1], pulls[0]));
        assert(pools[1].idle_ids().len() == 0);
        assert(guards[0] is Immutable && release_step(pools[1], pools[2], guards[0], releases[0]));
        assert(pools[2].idle_ids() =~= seq![id0]);
    } else {
        lemma_sequential_prefix(pools, pulls, guards, releases, n, (m - 1) as nat);
        let k = m - 1;
        assert(pools[2 * k].idle_ids() == seq![id0]);
        assert(pull_step(pools[2 * k], pools[2 * k + 1], pulls[k]));
        let last = pools[2 * k].entries().last();
        assert(pools[2 * k].idle_ids().last() == last.0);
        assert(pulls[k] is Reuse && pulled_id(pulls[k]) == id0);
        assert(pools[2 * k + 1].idle_ids() =~= Seq::<DatabaseId>::empty());
        assert(guards[k] is Immutable && release_step(pools[2 * k + 1], pools[2 * k + 2], guards[k], releases[k]));
        assert(pools[2 * k + 2].idle_ids() =~= seq![id0]);
    }
}

} // verus!
