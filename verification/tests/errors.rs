use job_search::errors::{ConversionError, JobSearchError};

#[test]
fn store_failures_become_db_errors() {
    let error = JobSearchError::from(rusqlite::Error::QueryReturnedNoRows);
    assert!(matches!(
        error,
        JobSearchError::DBError(rusqlite::Error::QueryReturnedNoRows)
    ));
}

#[test]
fn conversion_failures_become_sql_errors() {
    let error = JobSearchError::from(ConversionError::OutOfRange(5000000000));
    assert!(matches!(
        error,
        JobSearchError::SQLError(ConversionError::OutOfRange(5000000000))
    ));
    let error: JobSearchError = ConversionError::InvalidType.into();
    assert!(matches!(error, JobSearchError::SQLError(ConversionError::InvalidType)));
    let error: JobSearchError = ConversionError::MissingColumn(2).into();
    assert!(matches!(
        error,
        JobSearchError::SQLError(ConversionError::MissingColumn(2))
    ));
}
