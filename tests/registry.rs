use db_pool::id::DatabaseId;
use db_pool::lifecycle::{DbState, Operation, PrivilegeMode};
use db_pool::registry::Registry;

const ID: DatabaseId = DatabaseId { value: 11 };

#[test]
fn unknown_database_is_uninitialized() {
    let reg = Registry::new();
    assert_eq!(reg.state(ID), DbState::Uninitialized);
    assert!(reg.permits(Operation::Create { id: ID, mode: PrivilegeMode::Restricted }));
    assert!(!reg.permits(Operation::Clean { id: ID }));
}

#[test]
fn operations_after_drop_are_refused() {
    let mut reg = Registry::new();
    assert!(reg.record(Operation::Create { id: ID, mode: PrivilegeMode::Restricted }));
    assert!(reg.record(Operation::Clean { id: ID }));
    assert!(reg.record(Operation::Clean { id: ID }));
    assert!(reg.record(Operation::Drop { id: ID, mode: PrivilegeMode::Restricted }));
    assert_eq!(reg.state(ID), DbState::Dropped);
    assert!(!reg.permits(Operation::Clean { id: ID }));
    assert!(!reg.permits(Operation::Drop { id: ID, mode: PrivilegeMode::Restricted }));
    assert!(!reg.permits(Operation::Create { id: ID, mode: PrivilegeMode::Restricted }));
    assert!(!reg.record(Operation::Clean { id: ID }));
    assert_eq!(reg.state(ID), DbState::Dropped);
}

#[test]
fn unrestricted_database_is_never_cleaned() {
    let mut reg = Registry::new();
    assert!(reg.record(Operation::Create { id: ID, mode: PrivilegeMode::Unrestricted }));
    assert!(!reg.record(Operation::Clean { id: ID }));
    assert!(!reg.permits(Operation::Drop { id: ID, mode: PrivilegeMode::Restricted }));
    assert!(reg.record(Operation::Drop { id: ID, mode: PrivilegeMode::Unrestricted }));
}

#[test]
fn init_is_not_a_per_database_operation() {
    let mut reg = Registry::new();
    assert!(!reg.permits(Operation::Init { drop_previous: true }));
    assert!(!reg.record(Operation::Init { drop_previous: false }));
}

#[test]
fn states_of_other_databases_are_kept() {
    let mut reg = Registry::new();
    let other = DatabaseId { value: 12 };
    reg.record(Operation::Create { id: ID, mode: PrivilegeMode::Restricted });
    reg.record(Operation::Create { id: other, mode: PrivilegeMode::Unrestricted });
    reg.record(Operation::Drop { id: ID, mode: PrivilegeMode::Restricted });
    assert_eq!(reg.state(other), DbState::Created(PrivilegeMode::Unrestricted));
}

#[test]
fn known_names_cover_recorded_databases() {
    let mut reg = Registry::new();
    let other = DatabaseId { value: 12 };
    reg.record(Operation::Create { id: ID, mode: PrivilegeMode::Restricted });
    reg.record(Operation::Create { id: other, mode: PrivilegeMode::Unrestricted });
    reg.record(Operation::Drop { id: ID, mode: PrivilegeMode::Restricted });
    let names = reg.known_names();
    assert_eq!(names.len(), 2);
    assert!(names.contains(&ID.db_name()));
    assert!(names.contains(&other.db_name()));
}

#[test]
fn sweep_spares_databases_of_this_run() {
    let mut reg = Registry::new();
    reg.record(Operation::Create { id: ID, mode: PrivilegeMode::Restricted });
    let listed = vec![
        "db_pool_1".to_string(),
        ID.db_name(),
        "db_pool_2".to_string(),
        "db_pool_3".to_string(),
    ];
    let targets = db_pool::registry::sweep_targets(&listed, &reg.known_names());
    assert_eq!(targets, vec!["db_pool_1", "db_pool_2", "db_pool_3"]);
}

#[test]
fn sweep_with_nothing_spared_keeps_the_listing() {
    let listed = vec!["db_pool_a".to_string(), "db_pool_b".to_string()];
    assert_eq!(db_pool::registry::sweep_targets(&listed, &Vec::new()), listed);
    assert!(db_pool::registry::sweep_targets(&Vec::new(), &listed).is_empty());
}
