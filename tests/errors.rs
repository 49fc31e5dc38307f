use db_pool::diesel_bb8::{BuildError, DieselBb8Error, PoolError};
use db_pool::error::BackendError;

#[test]
fn build_error_maps_to_build_kind() {
    let e = BuildError::from(bb8::RunError::TimedOut);
    assert!(matches!(e.inner(), bb8::RunError::TimedOut));
    assert!(matches!(*e, bb8::RunError::TimedOut));
    let b: DieselBb8Error = e.into();
    assert!(matches!(b, BackendError::Build(_)));
}

#[test]
fn pool_error_maps_to_pool_kind() {
    let e = PoolError::from(bb8::RunError::TimedOut);
    assert!(matches!(e.inner(), bb8::RunError::TimedOut));
    let b: DieselBb8Error = e.into();
    assert!(matches!(b, BackendError::Pool(_)));
}
