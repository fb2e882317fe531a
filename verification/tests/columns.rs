use job_search::columns::{
    column_flag, column_i32, column_integer, column_optional_i32, column_optional_text,
    column_text, column_time, flag_param, id_param, narrow_i32, optional_text_param, text_param,
    time_param,
};
use job_search::errors::ConversionError;
use job_search::store::{SqlParam, SqlValue};
use job_search::utils::Timestamp;

fn sample_row() -> Vec<SqlValue> {
    vec![
        SqlValue::Null,
        SqlValue::Integer(-7),
        SqlValue::Real(4611686018427387904),
        SqlValue::Text("2020-05-14 21:16:39".to_string()),
        SqlValue::Blob(vec![1, 2, 3]),
        SqlValue::Integer(0),
        SqlValue::Integer(2147483648),
        SqlValue::Text("plain".to_string()),
    ]
}

#[test]
fn column_integer_reads_only_integers() {
    let row = sample_row();
    assert_eq!(column_integer(&row, 0), Err(ConversionError::InvalidType));
    assert_eq!(column_integer(&row, 1), Ok(-7));
    assert_eq!(column_integer(&row, 2), Err(ConversionError::InvalidType));
    assert_eq!(column_integer(&row, 3), Err(ConversionError::InvalidType));
    assert_eq!(column_integer(&row, 4), Err(ConversionError::InvalidType));
    assert_eq!(column_integer(&row, 6), Ok(2147483648));
    assert_eq!(column_integer(&row, 8), Err(ConversionError::MissingColumn(8)));
}

#[test]
fn narrow_id_accepts_exactly_the_range_of_the_field() {
    assert_eq!(narrow_i32(0), Ok(0));
    assert_eq!(narrow_i32(2147483647), Ok(2147483647));
    assert_eq!(narrow_i32(-2147483648), Ok(-2147483648));
    assert_eq!(narrow_i32(2147483648), Err(ConversionError::OutOfRange(2147483648)));
    assert_eq!(narrow_i32(-2147483649), Err(ConversionError::OutOfRange(-2147483649)));
    assert_eq!(
        narrow_i32(9223372036854775807),
        Err(ConversionError::OutOfRange(9223372036854775807))
    );
}

#[test]
fn column_id_reads_identifiers_that_fit() {
    let row = sample_row();
    assert_eq!(column_i32(&row, 1), Ok(-7));
    assert_eq!(column_i32(&row, 6), Err(ConversionError::OutOfRange(2147483648)));
    assert_eq!(column_i32(&row, 0), Err(ConversionError::InvalidType));
    assert_eq!(column_i32(&row, 9), Err(ConversionError::MissingColumn(9)));
}

#[test]
fn column_optional_id_reads_null_as_absent() {
    let row = sample_row();
    assert_eq!(column_optional_i32(&row, 0), Ok(None));
    assert_eq!(column_optional_i32(&row, 1), Ok(Some(-7)));
    assert_eq!(column_optional_i32(&row, 3), Err(ConversionError::InvalidType));
    assert_eq!(column_optional_i32(&row, 6), Err(ConversionError::OutOfRange(2147483648)));
    assert_eq!(column_optional_i32(&row, 8), Err(ConversionError::MissingColumn(8)));
}

#[test]
fn column_flag_is_hidden_for_every_non_zero_integer() {
    let row = sample_row();
    assert_eq!(column_flag(&row, 5), Ok(false));
    assert_eq!(column_flag(&row, 1), Ok(true));
    assert_eq!(column_flag(&row, 6), Ok(true));
    assert_eq!(column_flag(&row, 0), Err(ConversionError::InvalidType));
    assert_eq!(column_flag(&row, 7), Err(ConversionError::InvalidType));
    assert_eq!(column_flag(&row, 20), Err(ConversionError::MissingColumn(20)));
    assert_eq!(column_flag(&vec![SqlValue::Integer(1)], 0), Ok(true));
    assert_eq!(column_flag(&vec![SqlValue::Integer(i64::MIN)], 0), Ok(true));
}

#[test]
fn column_text_reads_only_texts() {
    let row = sample_row();
    assert_eq!(column_text(&row, 7), Ok("plain".to_string()));
    assert_eq!(column_text(&row, 0), Err(ConversionError::InvalidType));
    assert_eq!(column_text(&row, 1), Err(ConversionError::InvalidType));
    assert_eq!(column_text(&row, 4), Err(ConversionError::InvalidType));
    assert_eq!(column_text(&row, 8), Err(ConversionError::MissingColumn(8)));
}

#[test]
fn column_optional_text_reads_null_as_absent() {
    let row = sample_row();
    assert_eq!(column_optional_text(&row, 0), Ok(None));
    assert_eq!(column_optional_text(&row, 7), Ok(Some("plain".to_string())));
    assert_eq!(column_optional_text(&row, 1), Err(ConversionError::InvalidType));
    assert_eq!(column_optional_text(&row, 8), Err(ConversionError::MissingColumn(8)));
}

#[test]
fn column_time_swallows_unreadable_text_only() {
    let row = sample_row();
    assert_eq!(column_time(&row, 0), Ok(None));
    assert_eq!(column_time(&row, 3), Ok(Timestamp::new(2020, 5, 14, 21, 16, 39)));
    assert_eq!(column_time(&row, 7), Ok(None));
    assert_eq!(column_time(&row, 1), Err(ConversionError::InvalidType));
    assert_eq!(column_time(&row, 8), Err(ConversionError::MissingColumn(8)));
}

#[test]
fn params_write_what_the_columns_read() {
    assert_eq!(id_param(None), SqlParam::Null);
    assert_eq!(id_param(Some(12)), SqlParam::Integer(12));
    assert_eq!(flag_param(true), SqlParam::Integer(1));
    assert_eq!(flag_param(false), SqlParam::Integer(0));
    assert_eq!(text_param(&"x".to_string()), SqlParam::Text("x".to_string()));
    assert_eq!(optional_text_param(&None), SqlParam::Null);
    assert_eq!(
        optional_text_param(&Some("x".to_string())),
        SqlParam::Text("x".to_string())
    );
    assert_eq!(time_param(&None), SqlParam::Null);
    assert_eq!(
        time_param(&Timestamp::new(2020, 5, 14, 21, 16, 39)),
        SqlParam::Text("2020-05-14 21:16:39".to_string())
    );
}

#[test]
fn written_flag_is_read_back() {
    for hidden in [false, true] {
        let stored = match flag_param(hidden) {
            SqlParam::Integer(i) => SqlValue::Integer(i),
            other => panic!("a flag is stored as an integer, not as {:?}", other),
        };
        assert_eq!(column_flag(&vec![stored], 0), Ok(hidden));
    }
}
