//! How a database access can fail.
use vstd::prelude::*;

verus! {

/// A failed database access.
#[derive(Clone, Copy, Debug, PartialEq, Eq, Structural)]
pub enum DbFailure {
    /// No connection could be had from the pool.
    Unavailable,
    /// The query or statement failed.
    Query,
}

/// The rows that a query gave, as a sequence, or its failure.
pub open spec fn rows_view<T>(rows: Result<Vec<T>, DbFailure>) -> Result<Seq<T>, DbFailure> {
    match rows {
        Ok(v) => Ok(v@),
        Err(e) => Err(e),
    }
}

} // verus!
