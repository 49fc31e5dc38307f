use db_pool::id::DatabaseId;
use db_pool::lifecycle::PrivilegeMode;
use db_pool::pool::{DatabasePool, Guard, Pull, Release};

/// Acquires one immutable database, counting a creation where one is needed.
fn pull(pool: &mut DatabasePool<String>, creates: &mut usize, cleans: &mut usize) -> Guard<String> {
    match pool.pull_immutable() {
        Pull::Reuse(guard) => {
            *cleans += 1;
            guard
        }
        Pull::Create(id) => {
            *creates += 1;
            Guard::Immutable { id, pool: id.db_name() }
        }
    }
}

#[test]
fn three_sequential_pulls_reuse_one_database() {
    let mut pool = DatabasePool::new();
    let (mut creates, mut cleans) = (0, 0);
    let mut ids = Vec::new();
    for _ in 0..3 {
        let guard = pull(&mut pool, &mut creates, &mut cleans);
        ids.push(guard.id());
        assert_eq!(pool.release(guard), Release::ReturnedToIdle);
    }
    assert_eq!(creates, 1);
    assert_eq!(cleans, 2);
    assert_eq!(ids[0], ids[1]);
    assert_eq!(ids[1], ids[2]);
    assert_eq!(pool.idle_len(), 1);
}

#[test]
fn overlapping_pulls_create_each_database() {
    let mut pool = DatabasePool::new();
    let (mut creates, mut cleans) = (0, 0);
    let guards: Vec<_> = (0..3).map(|_| pull(&mut pool, &mut creates, &mut cleans)).collect();
    assert_eq!(creates, 3);
    assert_eq!(cleans, 0);
    for guard in guards {
        assert_eq!(pool.release(guard), Release::ReturnedToIdle);
    }
    assert_eq!(pool.idle_len(), 3);
    let dropped = pool.teardown();
    assert_eq!(dropped.len(), 3);
    assert_eq!(pool.idle_len(), 0);
}

#[test]
fn reused_database_keeps_its_connection_pool() {
    let mut pool = DatabasePool::new();
    let id = DatabaseId { value: 5 };
    pool.release(Guard::Immutable { id, pool: "pool-5".to_string() });
    match pool.pull_immutable() {
        Pull::Reuse(guard) => {
            assert_eq!(guard.id(), id);
            assert_eq!(guard.pool(), "pool-5");
        }
        Pull::Create(_) => panic!("an idle database was available"),
    }
    assert_eq!(pool.idle_len(), 0);
}

#[test]
fn mutable_release_drops_and_never_queues() {
    let mut pool: DatabasePool<String> = DatabasePool::new();
    let id = pool.create_mutable();
    let release = pool.release(Guard::Mutable { id, pool: String::new() });
    assert_eq!(release, Release::Drop(id, PrivilegeMode::Unrestricted));
    assert_eq!(pool.idle_len(), 0);
    assert!(pool.teardown().is_empty());
}

#[test]
fn teardown_lists_idle_databases_in_order() {
    let mut pool = DatabasePool::new();
    for v in [3u128, 1, 2] {
        pool.release(Guard::Immutable { id: DatabaseId { value: v }, pool: () });
    }
    let ids: Vec<u128> = pool.teardown().iter().map(|id| id.value).collect();
    assert_eq!(ids, vec![3, 1, 2]);
    assert_eq!(pool.idle_len(), 0);
}

#[test]
fn minted_ids_are_version_four() {
    let mut pool: DatabasePool<()> = DatabasePool::new();
    let id = pool.create_mutable();
    assert_eq!((id.value >> 76) & 0xf, 4);
    match pool.pull_immutable() {
        Pull::Create(id) => assert_eq!((id.value >> 62) & 0x3, 2),
        Pull::Reuse(_) => panic!("nothing was idle"),
    }
}
