//! The single error type that every entity operation reports.

use vstd::prelude::*;

verus! {

/// Why a stored row could not be turned into an entity.
#[derive(Debug, Clone, Copy, PartialEq, Eq, Structural)]
pub enum ConversionError {
    /// The column holds a value of another type than the field expects.
    InvalidType,
    /// The column holds an integer that the field cannot hold.
    OutOfRange(i64),
    /// The row has no column at this position.
    MissingColumn(usize),
}

/// A failure of an entity operation.
#[derive(Debug)]
pub enum JobSearchError {
    /// The store failed: the connection, a statement or a constraint.
    DBError(rusqlite::Error),
    /// A stored value could not be turned into the field it belongs to.
    SQLError(ConversionError),
}

impl From<rusqlite::Error> for JobSearchError {
    fn from(error: rusqlite::Error) -> (r: JobSearchError) {
        JobSearchError::DBError(error)
    }
}

impl vstd::std_specs::convert::FromSpecImpl<rusqlite::Error> for JobSearchError {
    open spec fn obeys_from_spec() -> bool {
        true
    }

    open spec fn from_spec(error: rusqlite::Error) -> JobSearchError {
        JobSearchError::DBError(error)
    }
}

impl From<ConversionError> for JobSearchError {
    fn from(error: ConversionError) -> (r: JobSearchError) {
        JobSearchError::SQLError(error)
    }
}

impl vstd::std_specs::convert::FromSpecImpl<ConversionError> for JobSearchError {
    open spec fn obeys_from_spec() -> bool {
        true
    }

    open spec fn from_spec(error: ConversionError) -> JobSearchError {
        JobSearchError::SQLError(error)
    }
}

} // verus!
