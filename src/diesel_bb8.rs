use vstd::prelude::*;
use crate::error::BackendError;
use diesel_async::pooled_connection::PoolError as DieselPoolError;

verus! {

#[verifier::external_type_specification]
#[verifier::external_body]
#[verifier::reject_recursive_types(E)]
pub struct ExRunError<E>(bb8::RunError<E>);

#[verifier::external_type_specification]
#[verifier::external_body]
pub struct ExDieselPoolError(DieselPoolError);

#[verifier::external_type_specification]
#[verifier::external_body]
pub struct ExConnectionError(diesel::result::ConnectionError);

#[verifier::external_type_specification]
#[verifier::external_body]
pub struct ExQueryError(diesel::result::Error);

/// The association of the diesel-async backend with bb8 connection pools.
pub struct DieselBb8;

/// Building a bb8 pool failed.
#[derive(Debug)]
pub struct BuildError(pub bb8::RunError<DieselPoolError>);

/// Getting a connection from a bb8 pool failed.
#[derive(Debug)]
pub struct PoolError(pub bb8::RunError<DieselPoolError>);

/// The backend error of the diesel-async backend over bb8.
pub type DieselBb8Error = BackendError<
    BuildError,
    PoolError,
    diesel::result::ConnectionError,
    diesel::result::Error,
>;

impl BuildError {
    pub open spec fn cause(&self) -> bb8::RunError<DieselPoolError> {
        self.0
    }

    /// The bb8 error that this one wraps.
    pub fn inner(&self) -> (r: &bb8::RunError<DieselPoolError>)
        ensures
            *r == self.cause(),
    {
        &self.0
    }
}

impl PoolError {
    pub open spec fn cause(&self) -> bb8::RunError<DieselPoolError> {
        self.0
    }

    /// The bb8 error that this one wraps.
    pub fn inner(&self) -> (r: &bb8::RunError<DieselPoolError>)
        ensures
            *r == self.cause(),
    {
        &self.0
    }
}

impl core::ops::Deref for BuildError {
    type Target = bb8::RunError<DieselPoolError>;

    fn deref(&self) -> (r: &bb8::RunError<DieselPoolError>)
        ensures
            *r == self.0,
    {
        &self.0
    }
}

impl From<bb8::RunError<DieselPoolError>> for BuildError {
    fn from(value: bb8::RunError<DieselPoolError>) -> (r: Self) {
        BuildError(value)
    }
}

impl vstd::std_specs::convert::FromSpecImpl<bb8::RunError<DieselPoolError>> for BuildError {
    open spec fn obeys_from_spec() -> bool {
        true
    }

    open spec fn from_spec(v: bb8::RunError<DieselPoolError>) -> Self {
        BuildError(v)
    }
}

impl core::ops::Deref for PoolError {
    type Target = bb8::RunError<DieselPoolError>;

    fn deref(&self) -> (r: &bb8::RunError<DieselPoolError>)
        ensures
            *r == self.0,
    {
        &self.0
    }
}

impl From<bb8::RunError<DieselPoolError>> for PoolError {
    fn from(value: bb8::RunError<DieselPoolError>) -> (r: Self) {
        PoolError(value)
    }
}

impl vstd::std_specs::convert::FromSpecImpl<bb8::RunError<DieselPoolError>> for PoolError {
    open spec fn obeys_from_spec() -> bool {
        true
    }

    open spec fn from_spec(v: bb8::RunError<DieselPoolError>) -> Self {
        PoolError(v)
    }
}

impl From<BuildError> for DieselBb8Error {
    fn from(value: BuildError) -> (r: Self) {
        BackendError::Build(value)
    }
}

impl vstd::std_specs::convert::FromSpecImpl<BuildError> for DieselBb8Error {
    open spec fn obeys_from_spec() -> bool {
        true
    }

    open spec fn from_spec(v: BuildError) -> Self {
        BackendError::Build(v)
    }
}

impl From<PoolError> for DieselBb8Error {
    fn from(value: PoolError) -> (r: Self) {
        BackendError::Pool(value)
    }
}

impl vstd::std_specs::convert::FromSpecImpl<PoolError> for DieselBb8Error {
    open spec fn obeys_from_spec() -> bool {
        true
    }

    open spec fn from_spec(v: PoolError) -> Self {
        BackendError::Pool(v)
    }
}

} // verus!
