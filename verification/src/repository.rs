//! What the entities have in common: each is read from a row of the store,
//! and a failed lookup or a row that cannot be read is reported the same way
//! for all of them.

use vstd::prelude::*;
use crate::errors::{ConversionError, JobSearchError};
use crate::store::{ColumnValue, SqlParam, SqlValue, query_row, query_rows, row_view};

verus! {

/// An entity that is kept as one row of one table.
pub trait Entity: View + Sized {
    /// What a row means: the entity it holds, or why it holds none.
    spec fn row_spec(row: Seq<ColumnValue>) -> Result<Self::V, ConversionError>;

    /// Reads the entity that a row holds.
    fn from_row(row: &Vec<SqlValue>) -> (r: Result<Self, JobSearchError>)
        ensures
            decoded(r, Self::row_spec(row_view(row@))),
    ;
}

/// `r` is the outcome `expected`, each side in its own terms: the same value
/// by its view, or the same conversion error.
pub open spec fn decoded<T: View>(
    r: Result<T, JobSearchError>,
    expected: Result<T::V, ConversionError>,
) -> bool {
    match expected {
        Ok(v) => r matches Ok(value) && value@ == v,
        Err(e) => r matches Err(JobSearchError::SQLError(x)) && x == e,
    }
}

/// `r` is the failure of the store `e`.
pub open spec fn store_failed<T>(r: Result<T, JobSearchError>, e: rusqlite::Error) -> bool {
    r matches Err(JobSearchError::DBError(x)) && x == e
}

/// `v` is what some row holds.
pub open spec fn read_from_a_row<E: Entity>(v: E::V) -> bool {
    exists|row: Seq<ColumnValue>| E::row_spec(row) == Ok::<E::V, ConversionError>(v)
}

/// `e` is why some row holds no entity.
pub open spec fn refused_by_a_row<E: Entity>(e: ConversionError) -> bool {
    exists|row: Seq<ColumnValue>| E::row_spec(row) == Err::<E::V, ConversionError>(e)
}

/// What a lookup can answer, whatever the store holds: an entity that some
/// row holds, the error of a row that holds none, or a failure of the store.
pub open spec fn answers_lookup<E: Entity>(r: Result<E, JobSearchError>) -> bool {
    match r {
        Ok(entity) => read_from_a_row::<E>(entity@),
        Err(JobSearchError::SQLError(e)) => refused_by_a_row::<E>(e),
        Err(JobSearchError::DBError(_)) => true,
    }
}

/// What a listing can answer, whatever the store holds: entities that rows
/// hold, the error of a row that holds none, or a failure of the store.
pub open spec fn answers_listing<E: Entity>(r: Result<Vec<E>, JobSearchError>) -> bool {
    match r {
        Ok(list) => forall|i: int|
            0 <= i < list@.len() ==> read_from_a_row::<E>(#[trigger] list@[i]@),
        Err(JobSearchError::SQLError(e)) => refused_by_a_row::<E>(e),
        Err(JobSearchError::DBError(_)) => true,
    }
}

/// `list` holds the entities of `rows`, row for row.
pub open spec fn holds_rows<E: Entity>(list: Seq<E>, rows: Seq<Vec<SqlValue>>) -> bool {
    &&& list.len() == rows.len()
    &&& forall|i: int|
        0 <= i < rows.len() ==> E::row_spec(row_view(#[trigger] rows[i]@)) == Ok::<
            E::V,
            ConversionError,
        >(list[i]@)
}

/// Row `at` is the first of `rows` that holds no entity, and `e` says why.
pub open spec fn first_unreadable<E: Entity>(
    rows: Seq<Vec<SqlValue>>,
    at: int,
    e: ConversionError,
) -> bool {
    &&& 0 <= at < rows.len()
    &&& E::row_spec(row_view(rows[at]@)) == Err::<E::V, ConversionError>(e)
    &&& forall|i: int| 0 <= i < at ==> E::row_spec(row_view(#[trigger] rows[i]@)) is Ok
}

/// Reads one entity from each row, in order. The first row that cannot be
/// read ends the reading, and its error is the result.
pub fn decode_rows<E: Entity>(rows: &Vec<Vec<SqlValue>>) -> (r: Result<Vec<E>, JobSearchError>)
    ensures
        match r {
            Ok(list) => holds_rows(list@, rows@),
            Err(JobSearchError::SQLError(e)) => exists|at: int| first_unreadable::<E>(rows@, at, e),
            Err(JobSearchError::DBError(_)) => false,
        },
{
    let mut list: Vec<E> = Vec::new();
    let mut idx: usize = 0;
    while idx < rows.len()
        invariant
            idx <= rows@.len(),
            list@.len() == idx,
            forall|i: int|
                0 <= i < idx ==> E::row_spec(row_view(#[trigger] rows@[i]@)) == Ok::<
                    E::V,
                    ConversionError,
                >(list@[i]@),
        decreases rows@.len() - idx,
    {
        match E::from_row(&rows[idx]) {
            Ok(entity) => {
                list.push(entity);
            },
            Err(JobSearchError::SQLError(e)) => {
                assert(first_unreadable::<E>(rows@, idx as int, e));
                return Err(JobSearchError::SQLError(e));
            },
            Err(JobSearchError::DBError(e)) => {
                return Err(JobSearchError::DBError(e));
            },
        }
        idx = idx + 1;
    }
    Ok(list)
}

/// Turns the answer of a single-row lookup into an entity: a failure of the
/// store stays a failure of the store, a row is read.
pub fn decode_found<E: Entity>(found: Result<Vec<SqlValue>, rusqlite::Error>) -> (r: Result<
    E,
    JobSearchError,
>)
    ensures
        match found {
            Ok(row) => decoded(r, E::row_spec(row_view(row@))),
            Err(e) => store_failed(r, e),
        },
{
    match found {
        Ok(row) => E::from_row(&row),
        Err(e) => Err(JobSearchError::DBError(e)),
    }
}

/// Turns the answer of a query for many rows into entities: a failure of the
/// store stays a failure of the store, the rows are read in order.
pub fn decode_all_found<E: Entity>(found: Result<Vec<Vec<SqlValue>>, rusqlite::Error>) -> (r:
    Result<Vec<E>, JobSearchError>)
    ensures
        match found {
            Ok(rows) => match r {
                Ok(list) => holds_rows(list@, rows@),
                Err(JobSearchError::SQLError(e)) => exists|at: int|
                    first_unreadable::<E>(rows@, at, e),
                Err(JobSearchError::DBError(_)) => false,
            },
            Err(e) => store_failed(r, e),
        },
{
    match found {
        Ok(rows) => decode_rows(&rows),
        Err(e) => Err(JobSearchError::DBError(e)),
    }
}

/// Takes the answer of the store to a statement that writes: the number of
/// rows that the statement changed, or the failure of the store, which comes
/// back as `DBError`.
pub fn statement_outcome(changed: Result<usize, rusqlite::Error>) -> (r: Result<
    usize,
    JobSearchError,
>)
    ensures
        match changed {
            Ok(n) => r == Ok::<usize, JobSearchError>(n),
            Err(e) => store_failed(r, e),
        },
{
    match changed {
        Ok(n) => Ok(n),
        Err(e) => Err(JobSearchError::DBError(e)),
    }
}

/// Whether an update is followed by reading the entity's update time again.
/// An update that changed no row found no row under the identifier: there is
/// nothing to read then, and the update ends as a success that changes
/// nothing.
pub fn must_refresh(changed: usize) -> (again: bool)
    ensures
        again == (changed != 0),
{
    changed != 0
}

/// Looks one entity up. Whatever the store answers, an entity that comes
/// back was read from a row, and a conversion error that comes back is that
/// of a row.
pub(crate) fn fetch_one<E: Entity>(
    conn: &rusqlite::Connection,
    sql: &str,
    params: &Vec<SqlParam>,
) -> (r: Result<E, JobSearchError>)
    ensures
        answers_lookup(r),
{
    let found = query_row(conn, sql, params);
    let ghost answer = found;
    let r = decode_found::<E>(found);
    proof {
        if let Ok(row) = answer {
            match E::row_spec(row_view(row@)) {
                Ok(v) => {
                    assert(E::row_spec(row_view(row@)) == Ok::<E::V, ConversionError>(r->Ok_0@));
                },
                Err(e) => {
                    assert(E::row_spec(row_view(row@)) == Err::<E::V, ConversionError>(e));
                },
            }
        }
    }
    r
}

/// Loads every entity that a query selects, in the store's order. Whatever
/// the store answers, each entity that comes back was read from a row, and a
/// conversion error that comes back is that of a row.
pub(crate) fn fetch_all<E: Entity>(
    conn: &rusqlite::Connection,
    sql: &str,
    params: &Vec<SqlParam>,
) -> (r: Result<Vec<E>, JobSearchError>)
    ensures
        answers_listing(r),
{
    let found = query_rows(conn, sql, params);
    let ghost answer = found;
    let r = decode_all_found::<E>(found);
    let ghost outcome = r;
    proof {
        if let Ok(rows) = answer {
            match outcome {
                Ok(list) => {
                    assert forall|i: int| 0 <= i < list@.len() implies read_from_a_row::<E>(
                        #[trigger] list@[i]@,
                    ) by {
                        assert(E::row_spec(row_view(rows@[i]@)) == Ok::<E::V, ConversionError>(
                            list@[i]@,
                        ));
                    }
                },
                Err(JobSearchError::SQLError(e)) => {
                    let at = choose|at: int| first_unreadable::<E>(rows@, at, e);
                    assert(E::row_spec(row_view(rows@[at]@)) == Err::<E::V, ConversionError>(e));
                },
                Err(JobSearchError::DBError(_)) => {},
            }
        }
    }
    r
}

} // verus!
