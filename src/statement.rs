use vstd::prelude::*;

verus! {

/// What a statement does; the text of it in the engine's dialect is produced
/// by the engine adapter from the kind and the target name.
#[derive(Clone, Copy, Debug, PartialEq, Eq, Structural)]
pub enum StatementKind {
    CreateDatabase,
    CreateRole,
    GrantRestrictedTablePrivileges,
    GrantRestrictedSequencePrivileges,
    GrantDatabaseOwnership,
    DropDatabase,
    DropRole,
    TruncateTable,
}

/// One statement: its kind and the database, role or table it names. For the
/// grants, the database and its role carry the same name.
#[derive(Clone, Debug)]
pub struct Statement {
    pub kind: StatementKind,
    pub target: String,
}

pub open spec fn stmt_is(s: Statement, kind: StatementKind, target: Seq<char>) -> bool {
    s.kind == kind && s.target@ == target
}

impl Statement {
    pub fn new(kind: StatementKind, target: &String) -> (r: Statement)
        ensures
            stmt_is(r, kind, target@),
    {
        Statement { kind, target: target.clone() }
    }
}

/// One truncate statement for each table, in the order of the tables.
pub fn truncate_all(tables: &Vec<String>) -> (r: Vec<Statement>)
    ensures
        r@.len() == tables@.len(),
        forall|i: int| 0 <= i < tables@.len() ==> stmt_is(#[trigger] r@[i], StatementKind::TruncateTable, tables@[i]@),
{
    let mut r: Vec<Statement> = Vec::new();
    let mut i: usize = 0;
    while i < tables.len()
        invariant
            i <= tables@.len(),
            r@.len() == i,
            forall|j: int| 0 <= j < i ==> stmt_is(#[trigger] r@[j], StatementKind::TruncateTable, tables@[j]@),
        decreases tables@.len() - i,
    {
        r.push(Statement::new(StatementKind::TruncateTable, &tables[i]));
        i = i + 1;
    }
    r
}

/// The statements that drop the database `name` and then its role.
pub fn drop_statements(name: &String) -> (r: Vec<Statement>)
    ensures
        r@.len() == 2,
        stmt_is(r@[0], StatementKind::DropDatabase, name@),
        stmt_is(r@[1], StatementKind::DropRole, name@),
{
    let mut r: Vec<Statement> = Vec::new();
    r.push(Statement::new(StatementKind::DropDatabase, name));
    r.push(Statement::new(StatementKind::DropRole, name));
    r
}

/// For each name, the statements that drop that database and its role.
pub fn drop_all(names: &Vec<String>) -> (r: Vec<Vec<Statement>>)
    ensures
        r@.len() == names@.len(),
        forall|i: int| 0 <= i < names@.len() ==> {
            &&& (#[trigger] r@[i])@.len() == 2
            &&& stmt_is(r@[i]@[0], StatementKind::DropDatabase, names@[i]@)
            &&& stmt_is(r@[i]@[1], StatementKind::DropRole, names@[i]@)
        },
{
    let mut r: Vec<Vec<Statement>> = Vec::new();
    let mut i: usize = 0;
    while i < names.len()
        invariant
            i <= names@.len(),
            r@.len() == i,
            forall|j: int| 0 <= j < i ==> {
                &&& (#[trigger] r@[j])@.len() == 2
                &&& stmt_is(r@[j]@[0], StatementKind::DropDatabase, names@[j]@)
                &&& stmt_is(r@[j]@[1], StatementKind::DropRole, names@[j]@)
            },
        decreases names@.len() - i,
    {
        r.push(drop_statements(&names[i]));
        i = i + 1;
    }
    r
}

} // verus!
