//! The error taxonomy shared by every operation of the library.

use vstd::prelude::*;

verus! {

/// What can go wrong: bad input or a broken rule (`Validation`), a lookup
/// without a match (`NotFound`), an unexpected downstream failure
/// (`ServerError`) or a store-layer failure passed through (`Database`).
#[derive(Debug)]
pub enum RhyonError {
    Database(String),
    NotFound,
    Validation(String),
    ServerError(String),
}

/// True when `r` failed with a `Validation` error.
pub open spec fn is_validation<T>(r: Result<T, RhyonError>) -> bool {
    r matches Err(RhyonError::Validation(_))
}

impl Clone for RhyonError {
    fn clone(&self) -> (r: RhyonError)
        ensures
            r == *self,
    {
        match self {
            RhyonError::Database(m) => RhyonError::Database(m.clone()),
            RhyonError::NotFound => RhyonError::NotFound,
            RhyonError::Validation(m) => RhyonError::Validation(m.clone()),
            RhyonError::ServerError(m) => RhyonError::ServerError(m.clone()),
        }
    }
}

impl RhyonError {
    /// A `Validation` error carrying `msg`.
    pub fn validation(msg: &str) -> (r: RhyonError)
        ensures
            r matches RhyonError::Validation(m) && m@ == msg@,
    {
        RhyonError::Validation(msg.to_string())
    }

    /// The human-readable message of the error.
    pub fn message(&self) -> (r: String)
        ensures
            self matches RhyonError::Validation(m) ==> r@ == m@,
            self matches RhyonError::ServerError(m) ==> r@ == m@,
            self matches RhyonError::Database(m) ==> r@ == m@,
            self is NotFound ==> r@ == "Not Found"@,
    {
        match self {
            RhyonError::Database(m) => m.clone(),
            RhyonError::NotFound => "Not Found".to_string(),
            RhyonError::Validation(m) => m.clone(),
            RhyonError::ServerError(m) => m.clone(),
        }
    }
}

} // verus!
