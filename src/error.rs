use vstd::prelude::*;

verus! {

/// The four kinds of failure, collapsed into one error at the backend
/// boundary: building a connection pool, getting a connection from a built
/// pool, establishing a direct connection, and running a statement.
#[derive(Debug)]
pub enum BackendError<B, P, C, Q> {
    Build(B),
    Pool(P),
    Connection(C),
    Query(Q),
}

} // verus!
