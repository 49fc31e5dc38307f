use vstd::prelude::*;
use crate::id::{DatabaseId, db_name_of};
use crate::statement::{Statement, StatementKind, stmt_is, truncate_all, drop_all};

verus! {

/// How much the role attached to a database may do, fixed at creation.
#[derive(Clone, Copy, Debug, PartialEq, Eq, Structural)]
pub enum PrivilegeMode {
    /// Data manipulation only; the database is reused after a truncate.
    Restricted,
    /// The role owns the database; it is only ever dropped whole.
    Unrestricted,
}

/// One lifecycle operation of the backend.
#[derive(Clone, Copy, Debug, PartialEq, Eq, Structural)]
pub enum Operation {
    /// The one-time start-up sweep of databases left by an earlier run.
    Init { drop_previous: bool },
    Create { id: DatabaseId, mode: PrivilegeMode },
    Clean { id: DatabaseId },
    Drop { id: DatabaseId, mode: PrivilegeMode },
}

/// Where an operation stands: each phase but the first and the two last
/// names the action that is under way.
#[derive(Clone, Copy, Debug, PartialEq, Eq, Structural)]
pub enum Phase {
    Idle,
    OpeningDefault,
    CreatingDatabase,
    CreatingRole,
    OpeningPrivileged,
    CreatingEntities,
    ReopeningPrivileged,
    GrantingTables,
    GrantingSequences,
    GrantingOwnership,
    OpeningRestricted,
    Retaining,
    BuildingPool,
    Taking,
    ListingTables,
    Truncating,
    Discarding,
    DroppingDatabase,
    DroppingRole,
    ListingPrevious,
    DroppingPrevious,
    /// An action failed while the operation held its database's privileged
    /// connection: it is put back in the store before the operation aborts.
    Restoring,
    Finished,
    Aborted,
}

/// The connection a statement runs on: the one to the administrative
/// database, or the one to the operation's own database.
#[derive(Clone, Copy, Debug, PartialEq, Eq, Structural)]
pub enum Slot {
    Default,
    Target,
}

/// What the runner reports back after performing an action.
#[derive(Clone, Debug)]
pub enum Event {
    /// The action succeeded and had nothing to report.
    Done,
    /// The entity-creation hook ran; `true` when it handed the connection back.
    EntitiesReturned(bool),
    /// The names that a listing returned (tables, or earlier databases).
    Listed(Vec<String>),
    /// The action failed; the runner keeps the error and returns it.
    Failed,
}

/// What the runner is to do next.
#[derive(Clone, Debug)]
pub enum Action {
    /// Get a privileged connection to the administrative database.
    OpenDefault,
    Execute(Statement, Slot),
    /// Open a connection to the database as administrator, as the target.
    OpenPrivileged(DatabaseId),
    /// Open a connection to the database as its attached role, as the target.
    OpenRestricted(DatabaseId),
    /// Hand the target connection to the entity-creation hook.
    CreateEntities,
    /// Put the target connection in the retained store.
    Retain(DatabaseId),
    /// Take the retained connection out of the store, as the target.
    Take(DatabaseId),
    /// Take the retained connection out of the store and close it.
    Discard(DatabaseId),
    /// List the tables of the target database.
    ListTables,
    /// Run these statements, in order, on the target connection.
    ExecuteBatch(Vec<Statement>),
    /// List the databases left by an earlier run, on the default connection.
    ListPrevious,
    /// For each entry, on a default connection of its own, run its statements;
    /// all entries are tried and the failures are joined.
    DropEach(Vec<Vec<Statement>>),
    /// Build a connection pool for the database under its attached role.
    BuildPool(DatabaseId),
    /// The operation succeeded.
    Finish,
    /// The operation failed: return the error of the last action.
    Abort,
}

pub open spec fn op_id(op: Operation) -> DatabaseId {
    match op {
        Operation::Create { id, .. } => id,
        Operation::Clean { id } => id,
        Operation::Drop { id, .. } => id,
        Operation::Init { .. } => DatabaseId { value: 0 },
    }
}

pub open spec fn is_terminal(phase: Phase) -> bool {
    phase == Phase::Finished || phase == Phase::Aborted
}

/// Whether `ev` is an answer that the action of `phase` can give.
pub open spec fn answer_fits(phase: Phase, ev: Event) -> bool {
    match ev {
        Event::Failed => true,
        Event::EntitiesReturned(_) => phase == Phase::CreatingEntities,
        Event::Listed(_) => phase == Phase::ListingTables || phase == Phase::ListingPrevious,
        Event::Done => phase != Phase::CreatingEntities && phase != Phase::ListingTables
            && phase != Phase::ListingPrevious,
    }
}

pub open spec fn is_restricted(op: Operation) -> bool {
    match op {
        Operation::Create { mode, .. } => mode == PrivilegeMode::Restricted,
        Operation::Drop { mode, .. } => mode == PrivilegeMode::Restricted,
        _ => false,
    }
}

/// Whether a failure in `phase` happens after a `clean` took its database's
/// privileged connection out of the store: the connection is then put back
/// before the `clean` aborts, so the database can still be cleaned or
/// dropped. Every other failure aborts at once.
pub open spec fn restores_on_failure(op: Operation, phase: Phase) -> bool {
    op is Clean && (phase == Phase::ListingTables || phase == Phase::Truncating)
}

/// The phase that follows `phase` when its action answered `ev`.
pub open spec fn next_phase(op: Operation, phase: Phase, ev: Event) -> Phase {
    if ev is Failed {
        if restores_on_failure(op, phase) {
            Phase::Restoring
        } else {
            Phase::Aborted
        }
    } else if phase == Phase::Restoring {
        Phase::Aborted
    } else {
        match op {
            Operation::Init { drop_previous } => match phase {
                Phase::Idle => if drop_previous { Phase::OpeningDefault } else { Phase::Finished },
                Phase::OpeningDefault => Phase::ListingPrevious,
                Phase::ListingPrevious => Phase::DroppingPrevious,
                _ => Phase::Finished,
            },
            Operation::Create { mode, .. } => match phase {
                Phase::Idle => Phase::OpeningDefault,
                Phase::OpeningDefault => Phase::CreatingDatabase,
                Phase::CreatingDatabase => Phase::CreatingRole,
                Phase::CreatingRole => if mode == PrivilegeMode::Restricted {
                    Phase::OpeningPrivileged
                } else {
                    Phase::GrantingOwnership
                },
                Phase::OpeningPrivileged => Phase::CreatingEntities,
                Phase::GrantingOwnership => Phase::OpeningRestricted,
                Phase::OpeningRestricted => Phase::CreatingEntities,
                Phase::CreatingEntities => if mode == PrivilegeMode::Unrestricted {
                    Phase::BuildingPool
                } else if ev == Event::EntitiesReturned(true) {
                    Phase::GrantingTables
                } else {
                    Phase::ReopeningPrivileged
                },
                Phase::ReopeningPrivileged => Phase::GrantingTables,
                Phase::GrantingTables => Phase::GrantingSequences,
                Phase::GrantingSequences => Phase::Retaining,
                Phase::Retaining => Phase::BuildingPool,
                _ => Phase::Finished,
            },
            Operation::Clean { .. } => match phase {
                Phase::Idle => Phase::Taking,
                Phase::Taking => Phase::ListingTables,
                Phase::ListingTables => Phase::Truncating,
                Phase::Truncating => Phase::Retaining,
                _ => Phase::Finished,
            },
            Operation::Drop { mode, .. } => match phase {
                Phase::Idle => if mode == PrivilegeMode::Restricted {
                    Phase::Discarding
                } else {
                    Phase::OpeningDefault
                },
                Phase::Discarding => Phase::OpeningDefault,
                Phase::OpeningDefault => Phase::DroppingDatabase,
                Phase::DroppingDatabase => Phase::DroppingRole,
                _ => Phase::Finished,
            },
        }
    }
}

pub open spec fn executes(a: Action, kind: StatementKind, target: Seq<char>, slot: Slot) -> bool {
    match a {
        Action::Execute(s, t) => stmt_is(s, kind, target) && t == slot,
        _ => false,
    }
}

pub open spec fn listed(ev: Event) -> Seq<String> {
    match ev {
        Event::Listed(v) => v@,
        _ => Seq::empty(),
    }
}

/// Whether `a` is the action that starts `phase`, where `ev` is the answer
/// that led into it.
pub open spec fn action_of(op: Operation, phase: Phase, ev: Event, a: Action) -> bool {
    let id = op_id(op);
    let name = db_name_of(id);
    match phase {
        Phase::OpeningDefault => a is OpenDefault,
        Phase::CreatingDatabase => executes(a, StatementKind::CreateDatabase, name, Slot::Default),
        Phase::CreatingRole => executes(a, StatementKind::CreateRole, name, Slot::Default),
        Phase::OpeningPrivileged => a == Action::OpenPrivileged(id),
        Phase::ReopeningPrivileged => a == Action::OpenPrivileged(id),
        Phase::CreatingEntities => a is CreateEntities,
        Phase::GrantingTables => executes(
            a,
            StatementKind::GrantRestrictedTablePrivileges,
            name,
            Slot::Target,
        ),
        Phase::GrantingSequences => executes(
            a,
            StatementKind::GrantRestrictedSequencePrivileges,
            name,
            Slot::Target,
        ),
        Phase::GrantingOwnership => executes(a, StatementKind::GrantDatabaseOwnership, name, Slot::Default),
        Phase::OpeningRestricted => a == Action::OpenRestricted(id),
        Phase::Retaining => a == Action::Retain(id),
        Phase::Restoring => a == Action::Retain(id),
        Phase::BuildingPool => a == Action::BuildPool(id),
        Phase::Taking => a == Action::Take(id),
        Phase::ListingTables => a is ListTables,
        Phase::Truncating => match a {
            Action::ExecuteBatch(v) => {
                &&& v@.len() == listed(ev).len()
                &&& forall|i: int| 0 <= i < v@.len()
                    ==> stmt_is(#[trigger] v@[i], StatementKind::TruncateTable, listed(ev)[i]@)
            },
            _ => false,
        },
        Phase::Discarding => a == Action::Discard(id),
        Phase::DroppingDatabase => executes(a, StatementKind::DropDatabase, name, Slot::Default),
        Phase::DroppingRole => executes(a, StatementKind::DropRole, name, Slot::Default),
        Phase::ListingPrevious => a is ListPrevious,
        Phase::DroppingPrevious => match a {
            Action::DropEach(v) => {
                &&& v@.len() == listed(ev).len()
                &&& forall|i: int| 0 <= i < v@.len() ==> {
                    &&& (#[trigger] v@[i])@.len() == 2
                    &&& stmt_is(v@[i]@[0], StatementKind::DropDatabase, listed(ev)[i]@)
                    &&& stmt_is(v@[i]@[1], StatementKind::DropRole, listed(ev)[i]@)
                }
            },
            _ => false,
        },
        Phase::Finished => a is Finish,
        Phase::Aborted => a is Abort,
        Phase::Idle => false,
    }
}

/// One lifecycle operation in progress. The runner starts it with
/// `Event::Done`, performs each action it is handed, and reports the answer,
/// until it is handed `Finish` or `Abort`.
pub struct Lifecycle {
    pub op: Operation,
    pub phase: Phase,
}

impl Lifecycle {
    pub fn new(op: Operation) -> (r: Lifecycle)
        ensures
            r.op == op,
            r.phase == Phase::Idle,
    {
        Lifecycle { op, phase: Phase::Idle }
    }

    pub fn is_done(&self) -> (r: bool)
        ensures
            r == is_terminal(self.phase),
    {
        self.phase == Phase::Finished || self.phase == Phase::Aborted
    }

    /// Takes the answer to the last action and hands out the next one.
    pub fn advance(&mut self, ev: Event) -> (r: Action)
        requires
            !is_terminal(old(self).phase),
            answer_fits(old(self).phase, ev),
        ensures
            final(self).op == old(self).op,
            final(self).phase == next_phase(old(self).op, old(self).phase, ev),
            action_of(final(self).op, final(self).phase, ev, r),
    {
        let phase = next_phase_of(self.op, self.phase, &ev);
        self.phase = phase;
        action_for(self.op, phase, ev)
    }
}

fn next_phase_of(op: Operation, phase: Phase, ev: &Event) -> (r: Phase)
    ensures
        r == next_phase(op, phase, *ev),
{
    if let Event::Failed = ev {
        let restores = match op {
            Operation::Clean { .. } => phase == Phase::ListingTables || phase == Phase::Truncating,
            _ => false,
        };
        return if restores {
            Phase::Restoring
        } else {
            Phase::Aborted
        };
    }
    if phase == Phase::Restoring {
        return Phase::Aborted;
    }
    match op {
        Operation::Init { drop_previous } => match phase {
            Phase::Idle => if drop_previous { Phase::OpeningDefault } else { Phase::Finished },
            Phase::OpeningDefault => Phase::ListingPrevious,
            Phase::ListingPrevious => Phase::DroppingPrevious,
            _ => Phase::Finished,
        },
        Operation::Create { mode, .. } => match phase {
            Phase::Idle => Phase::OpeningDefault,
            Phase::OpeningDefault => Phase::CreatingDatabase,
            Phase::CreatingDatabase => Phase::CreatingRole,
            Phase::CreatingRole => if mode == PrivilegeMode::Restricted {
                Phase::OpeningPrivileged
            } else {
                Phase::GrantingOwnership
            },
            Phase::OpeningPrivileged => Phase::CreatingEntities,
            Phase::GrantingOwnership => Phase::OpeningRestricted,
            Phase::OpeningRestricted => Phase::CreatingEntities,
            Phase::CreatingEntities => {
                let returned = match ev {
                    Event::EntitiesReturned(b) => *b,
                    _ => false,
                };
                if mode == PrivilegeMode::Unrestricted {
                    Phase::BuildingPool
                } else if returned {
                    Phase::GrantingTables
                } else {
                    Phase::ReopeningPrivileged
                }
            },
            Phase::ReopeningPrivileged => Phase::GrantingTables,
            Phase::GrantingTables => Phase::GrantingSequences,
            Phase::GrantingSequences => Phase::Retaining,
            Phase::Retaining => Phase::BuildingPool,
            _ => Phase::Finished,
        },
        Operation::Clean { .. } => match phase {
            Phase::Idle => Phase::Taking,
            Phase::Taking => Phase::ListingTables,
            Phase::ListingTables => Phase::Truncating,
            Phase::Truncating => Phase::Retaining,
            _ => Phase::Finished,
        },
        Operation::Drop { mode, .. } => match phase {
            Phase::Idle => if mode == PrivilegeMode::Restricted {
                Phase::Discarding
            } else {
                Phase::OpeningDefault
            },
            Phase::Discarding => Phase::OpeningDefault,
            Phase::OpeningDefault => Phase::DroppingDatabase,
            Phase::DroppingDatabase => Phase::DroppingRole,
            _ => Phase::Finished,
        },
    }
}

fn id_of(op: Operation) -> (r: DatabaseId)
    ensures
        r == op_id(op),
{
    match op {
        Operation::Create { id, .. } => id,
        Operation::Clean { id } => id,
        Operation::Drop { id, .. } => id,
        Operation::Init { .. } => DatabaseId { value: 0 },
    }
}

fn action_for(op: Operation, phase: Phase, ev: Event) -> (r: Action)
    requires
        phase != Phase::Idle,
    ensures
        action_of(op, phase, ev, r),
{
    let id = id_of(op);
    let on_name = |kind: StatementKind, slot: Slot| -> (a: Action)
        ensures
            executes(a, kind, db_name_of(id), slot),
        { Action::Execute(Statement::new(kind, &id.db_name()), slot) };
    match phase {
        Phase::OpeningDefault => Action::OpenDefault,
        Phase::CreatingDatabase => on_name(StatementKind::CreateDatabase, Slot::Default),
        Phase::CreatingRole => on_name(StatementKind::CreateRole, Slot::Default),
        Phase::OpeningPrivileged => Action::OpenPrivileged(id),
        Phase::ReopeningPrivileged => Action::OpenPrivileged(id),
        Phase::CreatingEntities => Action::CreateEntities,
        Phase::GrantingTables => on_name(StatementKind::GrantRestrictedTablePrivileges, Slot::Target),
        Phase::GrantingSequences => on_name(StatementKind::GrantRestrictedSequencePrivileges, Slot::Target),
        Phase::GrantingOwnership => on_name(StatementKind::GrantDatabaseOwnership, Slot::Default),
        Phase::OpeningRestricted => Action::OpenRestricted(id),
        Phase::Retaining => Action::Retain(id),
        Phase::Restoring => Action::Retain(id),
        Phase::BuildingPool => Action::BuildPool(id),
        Phase::Taking => Action::Take(id),
        Phase::ListingTables => Action::ListTables,
        Phase::Truncating => {
            let names = match ev {
                Event::Listed(v) => v,
                _ => Vec::new(),
            };
            Action::ExecuteBatch(truncate_all(&names))
        },
        Phase::Discarding => Action::Discard(id),
        Phase::DroppingDatabase => on_name(StatementKind::DropDatabase, Slot::Default),
        Phase::DroppingRole => on_name(StatementKind::DropRole, Slot::Default),
        Phase::ListingPrevious => Action::ListPrevious,
        Phase::DroppingPrevious => {
            let names = match ev {
                Event::Listed(v) => v,
                _ => Vec::new(),
            };
            Action::DropEach(drop_all(&names))
        },
        Phase::Finished => Action::Finish,
        Phase::Aborted => Action::Abort,
        Phase::Idle => Action::Abort,
    }
}

/// Where one database stands in its life.
#[derive(Clone, Copy, Debug, PartialEq, Eq, Structural)]
pub enum DbState {
    Uninitialized,
    Created(PrivilegeMode),
    /// Created restricted and cleaned since; it may be cleaned again.
    Cleaned,
    Dropped,
}

/// The state of a database after `op` succeeds on it, or `None` where `op`
/// is not allowed in state `s`. `Init` concerns no single database.
pub open spec fn after_op(s: DbState, op: Operation) -> Option<DbState> {
    match op {
        Operation::Init { .. } => None,
        Operation::Create { mode, .. } => if s == DbState::Uninitialized {
            Some(DbState::Created(mode))
        } else {
            None
        },
        Operation::Clean { .. } => if s == DbState::Created(PrivilegeMode::Restricted)
            || s == DbState::Cleaned {
            Some(DbState::Cleaned)
        } else {
            None
        },
        Operation::Drop { mode, .. } => match s {
            DbState::Uninitialized => Some(DbState::Dropped),
            DbState::Created(m) => if m == mode { Some(DbState::Dropped) } else { None },
            DbState::Cleaned => if mode == PrivilegeMode::Restricted {
                Some(DbState::Dropped)
            } else {
                None
            },
            DbState::Dropped => None,
        },
    }
}

/// Checks `op` against the state of its database: the state it leads to, or
/// `None` when the operation is out of sequence.
pub fn check_transition(s: DbState, op: Operation) -> (r: Option<DbState>)
    ensures
        r == after_op(s, op),
{
    match op {
        Operation::Init { .. } => None,
        Operation::Create { mode, .. } => if s == DbState::Uninitialized {
            Some(DbState::Created(mode))
        } else {
            None
        },
        Operation::Clean { .. } => if s == DbState::Created(PrivilegeMode::Restricted)
            || s == DbState::Cleaned {
            Some(DbState::Cleaned)
        } else {
            None
        },
        Operation::Drop { mode, .. } => match s {
            DbState::Uninitialized => Some(DbState::Dropped),
            DbState::Created(m) => if m == mode { Some(DbState::Dropped) } else { None },
            DbState::Cleaned => if mode == PrivilegeMode::Restricted {
                Some(DbState::Dropped)
            } else {
                None
            },
            DbState::Dropped => None,
        },
    }
}

/// A dropped database is finished: no `create`, `clean` or `drop` is allowed
/// on it afterwards.
pub proof fn lemma_dropped_is_terminal(op: Operation)
    ensures
        after_op(DbState::Dropped, op) is None,
{
}

/// Cleaning is only ever allowed on a restricted database, and a clean that
/// is allowed once is allowed again right after, with the same outcome.
pub proof fn lemma_clean_repeats(s: DbState, id: DatabaseId)
    ensures
        after_op(s, Operation::Clean { id }) is Some ==> (s == DbState::Created(PrivilegeMode::Restricted)
            || s == DbState::Cleaned),
        after_op(s, Operation::Clean { id }) is Some ==> after_op(
            after_op(s, Operation::Clean { id }).unwrap(),
            Operation::Clean { id },
        ) == after_op(s, Operation::Clean { id }),
{
}

/// Whatever the listing answered, a `clean` runs nothing on its database but
/// one truncate per listed table, and puts its connection back afterwards:
/// after a successful truncation it retains, and only then finishes.
pub proof fn lemma_clean_truncates_only(id: DatabaseId, ev: Event, a: Action)
    requires
        answer_fits(Phase::ListingTables, ev),
        !(ev is Failed),
        action_of(Operation::Clean { id }, next_phase(Operation::Clean { id }, Phase::ListingTables, ev), ev, a),
    ensures
        next_phase(Operation::Clean { id }, Phase::ListingTables, ev) == Phase::Truncating,
        next_phase(Operation::Clean { id }, Phase::Truncating, Event::Done) == Phase::Retaining,
        next_phase(Operation::Clean { id }, Phase::Retaining, Event::Done) == Phase::Finished,
        a matches Action::ExecuteBatch(v) && v@.len() == listed(ev).len() && forall|i: int|
            0 <= i < v@.len() ==> (#[trigger] v@[i]).kind == StatementKind::TruncateTable,
{
    if let Action::ExecuteBatch(v) = a {
        assert forall|i: int| 0 <= i < v@.len() implies (#[trigger] v@[i]).kind == StatementKind::TruncateTable by {
            assert(stmt_is(v@[i], StatementKind::TruncateTable, listed(ev)[i]@));
        }
    }
}

/// The phases of a `create` that belong to the other mode: ownership for a
/// restricted database; restricted grants and a retained privileged
/// connection for an unrestricted one.
pub open spec fn foreign_phase(mode: PrivilegeMode, p: Phase) -> bool {
    if mode == PrivilegeMode::Restricted {
        p == Phase::GrantingOwnership || p == Phase::OpeningRestricted
    } else {
        p == Phase::OpeningPrivileged || p == Phase::ReopeningPrivileged || p == Phase::GrantingTables
            || p == Phase::GrantingSequences || p == Phase::Retaining || p == Phase::Restoring
    }
}

/// A restricted database's role is never handed ownership, and an
/// unrestricted one's is never given the restricted grants nor a retained
/// connection: a `create` starts outside the other mode's phases and, whatever
/// the answers, never steps into them.
pub proof fn lemma_privileges_follow_mode(id: DatabaseId, mode: PrivilegeMode, p: Phase, ev: Event)
    ensures
        !foreign_phase(mode, Phase::Idle),
        !foreign_phase(mode, p) ==> !foreign_phase(mode, next_phase(Operation::Create { id, mode }, p, ev)),
{
}

/// A `clean` that fails after taking its database's privileged connection
/// puts that connection back before it aborts, so the database can still be
/// cleaned or dropped afterwards; a failure before the `Take` aborts at once.
pub proof fn lemma_failed_clean_restores(id: DatabaseId, p: Phase)
    ensures
        (p == Phase::ListingTables || p == Phase::Truncating) ==> next_phase(Operation::Clean { id }, p, Event::Failed)
            == Phase::Restoring,
        next_phase(Operation::Clean { id }, Phase::Taking, Event::Failed) == Phase::Aborted,
        forall|a: Action| action_of(Operation::Clean { id }, Phase::Restoring, Event::Failed, a) ==> a
            == Action::Retain(id),
        next_phase(Operation::Clean { id }, Phase::Restoring, Event::Done) == Phase::Aborted,
{
}

/// The sweep of `init` drops only the databases that its listing returned:
/// a name that the listing did not hold is the target of no statement.
pub proof fn lemma_sweep_drops_only_listed(ev: Event, a: Action, name: Seq<char>)
    requires
        action_of(Operation::Init { drop_previous: true }, Phase::DroppingPrevious, ev, a),
        forall|i: int| 0 <= i < listed(ev).len() ==> listed(ev)[i]@ != name,
    ensures
        a matches Action::DropEach(v) && forall|i: int, j: int|
            0 <= i < v@.len() && 0 <= j < v@[i]@.len() ==> (#[trigger] v@[i]@[j]).target@ != name,
{
    if let Action::DropEach(v) = a {
        assert forall|i: int, j: int| 0 <= i < v@.len() && 0 <= j < v@[i]@.len() implies (
        #[trigger] v@[i]@[j]).target@ != name by {
            assert(v@[i]@.len() == 2);
            assert(v@[i]@[0].target@ == listed(ev)[i]@);
            assert(v@[i]@[1].target@ == listed(ev)[i]@);
        }
    }
}

/// A `create` or a `drop` returns at once on a failure: whatever phase
/// failed, the next phase is `Aborted`, and no connection is retained.
pub proof fn lemma_failed_step_aborts(op: Operation, p: Phase)
    requires
        !(op is Clean),
    ensures
        next_phase(op, p, Event::Failed) == Phase::Aborted,
{
}

} // verus!
