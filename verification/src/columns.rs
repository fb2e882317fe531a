//! Reading the fields of an entity out of a row, and writing them as values
//! for the store.

use vstd::prelude::*;
use crate::errors::ConversionError;
use crate::store::{ColumnValue, SqlParam, SqlValue, row_view};
use crate::utils::{
    TimeFields,
    Timestamp,
    format_time,
    format_time_spec,
    is_timestamp,
    lemma_parse_format,
    parse_time,
    parse_time_spec,
    time_view,
};

verus! {

/// The integer in column `idx`.
pub open spec fn integer_at(row: Seq<ColumnValue>, idx: int) -> Result<i64, ConversionError> {
    if idx >= row.len() {
        Err(ConversionError::MissingColumn(idx as usize))
    } else {
        match row[idx] {
            ColumnValue::Integer(i) => Ok(i),
            _ => Err(ConversionError::InvalidType),
        }
    }
}

/// A stored integer as a 32-bit field, the width of the entities' `id`.
pub open spec fn i32_of(stored: i64) -> Result<i32, ConversionError> {
    if i32::MIN <= stored <= i32::MAX {
        Ok(stored as i32)
    } else {
        Err(ConversionError::OutOfRange(stored))
    }
}

/// The 32-bit integer in column `idx`.
pub open spec fn i32_at(row: Seq<ColumnValue>, idx: int) -> Result<i32, ConversionError> {
    match integer_at(row, idx) {
        Ok(i) => i32_of(i),
        Err(e) => Err(e),
    }
}

/// The 32-bit integer in column `idx`, absent where the column is `NULL`.
pub open spec fn optional_i32_at(row: Seq<ColumnValue>, idx: int) -> Result<
    Option<i32>,
    ConversionError,
> {
    if idx < row.len() && row[idx] is Null {
        Ok(None)
    } else {
        match i32_at(row, idx) {
            Ok(id) => Ok(Some(id)),
            Err(e) => Err(e),
        }
    }
}

/// The soft-delete flag in column `idx`: zero is visible, every other integer
/// is hidden.
pub open spec fn flag_at(row: Seq<ColumnValue>, idx: int) -> Result<bool, ConversionError> {
    match integer_at(row, idx) {
        Ok(i) => Ok(i != 0),
        Err(e) => Err(e),
    }
}

/// The text in column `idx`.
pub open spec fn text_at(row: Seq<ColumnValue>, idx: int) -> Result<Seq<char>, ConversionError> {
    if idx >= row.len() {
        Err(ConversionError::MissingColumn(idx as usize))
    } else {
        match row[idx] {
            ColumnValue::Text(text) => Ok(text),
            _ => Err(ConversionError::InvalidType),
        }
    }
}

/// The text in column `idx`, absent where the column is `NULL`.
pub open spec fn optional_text_at(row: Seq<ColumnValue>, idx: int) -> Result<
    Option<Seq<char>>,
    ConversionError,
> {
    if idx < row.len() && row[idx] is Null {
        Ok(None)
    } else {
        match text_at(row, idx) {
            Ok(text) => Ok(Some(text)),
            Err(e) => Err(e),
        }
    }
}

/// The timestamp in column `idx`: absent where the column is `NULL`, and also
/// where its text cannot be read as a timestamp.
pub open spec fn time_at(row: Seq<ColumnValue>, idx: int) -> Result<
    Option<TimeFields>,
    ConversionError,
> {
    match optional_text_at(row, idx) {
        Ok(Some(text)) => Ok(parse_time_spec(text)),
        Ok(None) => Ok(None),
        Err(e) => Err(e),
    }
}

/// The characters of a text that may be absent.
pub open spec fn optional_text_view(text: Option<String>) -> Option<Seq<char>> {
    match text {
        Some(t) => Some(t@),
        None => None,
    }
}

/// The value the store holds for an identifier that may be absent.
pub open spec fn id_cell(id: Option<i32>) -> ColumnValue {
    match id {
        Some(i) => ColumnValue::Integer(i as i64),
        None => ColumnValue::Null,
    }
}

/// The value the store holds for a soft-delete flag: 1 for hidden, 0 for
/// visible.
pub open spec fn flag_cell(hidden: bool) -> ColumnValue {
    ColumnValue::Integer(
        if hidden {
            1
        } else {
            0
        },
    )
}

/// The value the store holds for a text that may be absent.
pub open spec fn optional_text_cell(text: Option<Seq<char>>) -> ColumnValue {
    match text {
        Some(t) => ColumnValue::Text(t),
        None => ColumnValue::Null,
    }
}

/// The value the store holds for a timestamp that may be absent.
pub open spec fn time_cell(time: Option<TimeFields>) -> ColumnValue {
    match time {
        Some(t) => ColumnValue::Text(format_time_spec(t)),
        None => ColumnValue::Null,
    }
}

/// Whether a timestamp that may be absent is one the store can write.
pub open spec fn is_optional_timestamp(time: Option<TimeFields>) -> bool {
    time matches Some(t) ==> is_timestamp(t)
}

/// The soft-delete flag survives the store: the stored value of a flag is
/// read back as that flag, zero is read as visible and every other integer
/// as hidden.
pub proof fn lemma_flag_round_trip(hidden: bool, stored: i64)
    ensures
        flag_at(seq![flag_cell(hidden)], 0) == Ok::<bool, ConversionError>(hidden),
        flag_at(seq![ColumnValue::Integer(stored)], 0) == Ok::<bool, ConversionError>(stored != 0),
{
}

/// What is written for an identifier, a text or a timestamp is read back
/// unchanged, whichever column it stands in.
pub proof fn lemma_cell_round_trip(
    row: Seq<ColumnValue>,
    idx: int,
    id: Option<i32>,
    text: Option<Seq<char>>,
    time: Option<TimeFields>,
)
    requires
        0 <= idx < row.len(),
        is_optional_timestamp(time),
    ensures
        row[idx] == id_cell(id) ==> optional_i32_at(row, idx) == Ok::<Option<i32>, ConversionError>(
            id,
        ),
        row[idx] == optional_text_cell(text) ==> optional_text_at(row, idx) == Ok::<
            Option<Seq<char>>,
            ConversionError,
        >(text),
        row[idx] == time_cell(time) ==> time_at(row, idx) == Ok::<
            Option<TimeFields>,
            ConversionError,
        >(time),
{
    if let Some(t) = time {
        lemma_parse_format(t);
    }
}

/// Reads the integer in column `idx`.
pub fn column_integer(row: &Vec<SqlValue>, idx: usize) -> (r: Result<i64, ConversionError>)
    ensures
        r == integer_at(row_view(row@), idx as int),
{
    if idx >= row.len() {
        return Err(ConversionError::MissingColumn(idx));
    }
    match &row[idx] {
        SqlValue::Integer(i) => Ok(*i),
        _ => Err(ConversionError::InvalidType),
    }
}

/// Narrows a stored integer to a 32-bit field. An integer that does not fit
/// is an error, never a truncated value.
pub fn narrow_i32(stored: i64) -> (r: Result<i32, ConversionError>)
    ensures
        r == i32_of(stored),
{
    if -2147483648 <= stored && stored <= 2147483647 {
        Ok(stored as i32)
    } else {
        Err(ConversionError::OutOfRange(stored))
    }
}

/// Reads the 32-bit integer in column `idx`.
pub fn column_i32(row: &Vec<SqlValue>, idx: usize) -> (r: Result<i32, ConversionError>)
    ensures
        r == i32_at(row_view(row@), idx as int),
{
    match column_integer(row, idx) {
        Ok(i) => narrow_i32(i),
        Err(e) => Err(e),
    }
}

/// Reads the 32-bit integer in column `idx`, absent where the column is
/// `NULL`.
pub fn column_optional_i32(row: &Vec<SqlValue>, idx: usize) -> (r: Result<
    Option<i32>,
    ConversionError,
>)
    ensures
        r == optional_i32_at(row_view(row@), idx as int),
{
    if idx < row.len() {
        if let SqlValue::Null = &row[idx] {
            return Ok(None);
        }
    }
    match column_i32(row, idx) {
        Ok(id) => Ok(Some(id)),
        Err(e) => Err(e),
    }
}

/// Reads the soft-delete flag in column `idx`.
pub fn column_flag(row: &Vec<SqlValue>, idx: usize) -> (r: Result<bool, ConversionError>)
    ensures
        r == flag_at(row_view(row@), idx as int),
{
    match column_integer(row, idx) {
        Ok(i) => Ok(i != 0),
        Err(e) => Err(e),
    }
}

/// Reads the text in column `idx`.
pub fn column_text(row: &Vec<SqlValue>, idx: usize) -> (r: Result<String, ConversionError>)
    ensures
        match r {
            Ok(text) => text_at(row_view(row@), idx as int) == Ok::<Seq<char>, ConversionError>(
                text@,
            ),
            Err(e) => text_at(row_view(row@), idx as int) == Err::<Seq<char>, ConversionError>(e),
        },
{
    if idx >= row.len() {
        return Err(ConversionError::MissingColumn(idx));
    }
    match &row[idx] {
        SqlValue::Text(text) => Ok(text.clone()),
        _ => Err(ConversionError::InvalidType),
    }
}

/// Reads the text in column `idx`, absent where the column is `NULL`.
pub fn column_optional_text(row: &Vec<SqlValue>, idx: usize) -> (r: Result<
    Option<String>,
    ConversionError,
>)
    ensures
        match r {
            Ok(text) => optional_text_at(row_view(row@), idx as int) == Ok::<
                Option<Seq<char>>,
                ConversionError,
            >(optional_text_view(text)),
            Err(e) => optional_text_at(row_view(row@), idx as int) == Err::<
                Option<Seq<char>>,
                ConversionError,
            >(e),
        },
{
    if idx < row.len() {
        if let SqlValue::Null = &row[idx] {
            return Ok(None);
        }
    }
    match column_text(row, idx) {
        Ok(text) => Ok(Some(text)),
        Err(e) => Err(e),
    }
}

/// Reads the timestamp in column `idx`. A text that is no timestamp counts
/// as absent, not as an error.
pub fn column_time(row: &Vec<SqlValue>, idx: usize) -> (r: Result<
    Option<Timestamp>,
    ConversionError,
>)
    ensures
        match r {
            Ok(time) => time_at(row_view(row@), idx as int) == Ok::<
                Option<TimeFields>,
                ConversionError,
            >(time_view(time)),
            Err(e) => time_at(row_view(row@), idx as int) == Err::<
                Option<TimeFields>,
                ConversionError,
            >(e),
        },
{
    match column_optional_text(row, idx) {
        Ok(Some(text)) => Ok(parse_time(text.as_str())),
        Ok(None) => Ok(None),
        Err(e) => Err(e),
    }
}

/// The value to store for an identifier that may be absent.
pub fn id_param(id: Option<i32>) -> (p: SqlParam)
    ensures
        p@ == id_cell(id),
{
    match id {
        Some(i) => SqlParam::Integer(i as i64),
        None => SqlParam::Null,
    }
}

/// The value to store for a soft-delete flag.
pub fn flag_param(hidden: bool) -> (p: SqlParam)
    ensures
        p@ == flag_cell(hidden),
{
    if hidden {
        SqlParam::Integer(1)
    } else {
        SqlParam::Integer(0)
    }
}

/// The value to store for a text.
pub fn text_param(text: &String) -> (p: SqlParam)
    ensures
        p@ == ColumnValue::Text(text@),
{
    SqlParam::Text(text.clone())
}

/// The value to store for a text that may be absent.
pub fn optional_text_param(text: &Option<String>) -> (p: SqlParam)
    ensures
        p@ == optional_text_cell(optional_text_view(*text)),
{
    match text {
        Some(t) => SqlParam::Text(t.clone()),
        None => SqlParam::Null,
    }
}

/// The value to store for a timestamp that may be absent.
pub fn time_param(time: &Option<Timestamp>) -> (p: SqlParam)
    ensures
        p@ == time_cell(time_view(*time)),
        is_optional_timestamp(time_view(*time)),
{
    match time {
        Some(t) => SqlParam::Text(format_time(t)),
        None => SqlParam::Null,
    }
}

} // verus!
