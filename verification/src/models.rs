//! Job postings as the store holds them: timestamps as text, the soft-delete
//! flag as an integer.

use vstd::prelude::*;
use crate::columns::{
    column_i32,
    column_optional_i32,
    column_optional_text,
    column_text,
    i32_at,
    i32_of,
    id_cell,
    lemma_cell_round_trip,
    narrow_i32,
    optional_i32_at,
    optional_text_at,
    optional_text_cell,
    optional_text_param,
    optional_text_view,
    text_at,
    text_param,
};
use crate::errors::{ConversionError, JobSearchError};
use crate::repository::{Entity, answers_listing, decoded, fetch_all, statement_outcome};
use crate::store::{ColumnValue, SqlParam, SqlValue, execute, params_view, row_view};

verus! {

/// A job posting with its columns as the store holds them.
#[derive(Debug, Clone, PartialEq, Eq)]
pub struct JobPosting {
    /// The row's identifier; absent until the posting is first stored.
    pub id: Option<i32>,
    /// Where the posting can be read.
    pub link: String,
    /// The stored text of the creation time.
    pub created_date: Option<String>,
    /// The stored text of the time of the last update.
    pub last_updated: Option<String>,
    /// A free description, if there is one.
    pub description: Option<String>,
    /// The stored soft-delete flag: zero is visible, anything else hidden.
    pub hide: i32,
}

/// A stored job posting as a mathematical value.
pub struct JobPostingView {
    pub id: Option<i32>,
    pub link: Seq<char>,
    pub created_date: Option<Seq<char>>,
    pub last_updated: Option<Seq<char>>,
    pub description: Option<Seq<char>>,
    pub hide: i32,
}

impl View for JobPosting {
    type V = JobPostingView;

    open spec fn view(&self) -> JobPostingView {
        JobPostingView {
            id: self.id,
            link: self.link@,
            created_date: optional_text_view(self.created_date),
            last_updated: optional_text_view(self.last_updated),
            description: optional_text_view(self.description),
            hide: self.hide,
        }
    }
}

/// The three optional texts of a stored job posting, read from the columns
/// that start at `at`: creation time, time of the last update, description.
pub open spec fn texts_at(row: Seq<ColumnValue>, at: int) -> Result<
    (Option<Seq<char>>, Option<Seq<char>>, Option<Seq<char>>),
    ConversionError,
> {
    match optional_text_at(row, at) {
        Err(e) => Err(e),
        Ok(created_date) => match optional_text_at(row, at + 1) {
            Err(e) => Err(e),
            Ok(last_updated) => match optional_text_at(row, at + 2) {
                Err(e) => Err(e),
                Ok(description) => Ok((created_date, last_updated, description)),
            },
        },
    }
}

impl Entity for JobPosting {
    /// A row holds, in this order: the identifier, which may be `NULL`, the
    /// link, the creation time, the time of the last update, the description
    /// and the soft-delete flag.
    open spec fn row_spec(row: Seq<ColumnValue>) -> Result<JobPostingView, ConversionError> {
        match optional_i32_at(row, 0) {
            Err(e) => Err(e),
            Ok(id) => match text_at(row, 1) {
                Err(e) => Err(e),
                Ok(link) => match texts_at(row, 2) {
                    Err(e) => Err(e),
                    Ok(texts) => match i32_at(row, 5) {
                        Err(e) => Err(e),
                        Ok(flag) => Ok(
                            JobPostingView {
                                id,
                                link,
                                created_date: texts.0,
                                last_updated: texts.1,
                                description: texts.2,
                                hide: flag,
                            },
                        ),
                    },
                },
            },
        }
    }

    fn from_row(row: &Vec<SqlValue>) -> (r: Result<JobPosting, JobSearchError>) {
        let id = match column_optional_i32(row, 0) {
            Ok(id) => id,
            Err(e) => {
                return Err(JobSearchError::SQLError(e));
            },
        };
        let link = match column_text(row, 1) {
            Ok(text) => text,
            Err(e) => {
                return Err(JobSearchError::SQLError(e));
            },
        };
        let created_date = match column_optional_text(row, 2) {
            Ok(text) => text,
            Err(e) => {
                return Err(JobSearchError::SQLError(e));
            },
        };
        let last_updated = match column_optional_text(row, 3) {
            Ok(text) => text,
            Err(e) => {
                return Err(JobSearchError::SQLError(e));
            },
        };
        let description = match column_optional_text(row, 4) {
            Ok(text) => text,
            Err(e) => {
                return Err(JobSearchError::SQLError(e));
            },
        };
        let flag = match column_i32(row, 5) {
            Ok(flag) => flag,
            Err(e) => {
                return Err(JobSearchError::SQLError(e));
            },
        };
        Ok(JobPosting { id, link, created_date, last_updated, description, hide: flag })
    }
}

impl JobPosting {
    /// The row of a job posting: each column holds the field that belongs
    /// there, written the way this crate hands it to the store.
    pub open spec fn stored_row(v: JobPostingView) -> Seq<ColumnValue> {
        seq![
            id_cell(v.id),
            ColumnValue::Text(v.link),
            optional_text_cell(v.created_date),
            optional_text_cell(v.last_updated),
            optional_text_cell(v.description),
            ColumnValue::Integer(v.hide as i64),
        ]
    }

    /// The values handed to the store when a job posting is inserted.
    pub open spec fn insert_values(v: JobPostingView) -> Seq<ColumnValue> {
        seq![
            ColumnValue::Text(v.link),
            optional_text_cell(v.last_updated),
            optional_text_cell(v.description),
            ColumnValue::Integer(v.hide as i64),
        ]
    }

    /// What inserting a job posting answers once the store has assigned the
    /// row identifier `rowid`: that identifier, if the `id` field can hold it.
    pub open spec fn inserted_id(rowid: i64) -> Result<i32, ConversionError> {
        i32_of(rowid)
    }

    /// `e` is why some row identifier that the store assigns cannot be
    /// answered.
    pub open spec fn refused_row_id(e: ConversionError) -> bool {
        exists|rowid: i64| Self::inserted_id(rowid) == Err::<i32, ConversionError>(e)
    }

    /// A job posting that is not stored yet: no identifier, no timestamps, no
    /// description, visible.
    pub fn new(link: String) -> (p: JobPosting)
        ensures
            p.id is None,
            p.link == link,
            p.created_date is None,
            p.last_updated is None,
            p.description is None,
            p.hide == 0,
    {
        JobPosting {
            id: None,
            link,
            created_date: None,
            last_updated: None,
            description: None,
            hide: 0,
        }
    }

    /// Reads the job posting that a row holds.
    pub fn new_from_row(row: &Vec<SqlValue>) -> (r: Result<JobPosting, JobSearchError>)
        ensures
            decoded(r, Self::row_spec(row_view(row@))),
    {
        Self::from_row(row)
    }

    /// Loads every stored job posting, in the store's order. Whatever the
    /// store answers, each job posting that comes back was read from a row,
    /// and a conversion error that comes back is that of a row.
    pub fn get_all_job_postings(conn: &rusqlite::Connection) -> (r: Result<
        Vec<JobPosting>,
        JobSearchError,
    >)
        ensures
            answers_listing(r),
    {
        let params: Vec<SqlParam> = Vec::new();
        fetch_all(
            conn,
            "SELECT id, link, created_date, last_updated, description, hide FROM job_postings;",
            &params,
        )
    }

    /// The values to hand to the store when this job posting is inserted.
    pub fn insert_params(&self) -> (params: Vec<SqlParam>)
        ensures
            params_view(params@) == Self::insert_values(self@),
    {
        let mut params: Vec<SqlParam> = Vec::new();
        params.push(text_param(&self.link));
        params.push(optional_text_param(&self.last_updated));
        params.push(optional_text_param(&self.description));
        params.push(SqlParam::Integer(self.hide as i64));
        assert(params_view(params@) =~= Self::insert_values(self@));
        params
    }

    /// What `add_to_db` answers for the row identifier that the store
    /// assigned.
    pub fn answer_for_row_id(rowid: i64) -> (r: Result<i32, JobSearchError>)
        ensures
            match Self::inserted_id(rowid) {
                Ok(id) => r == Ok::<i32, JobSearchError>(id),
                Err(e) => r matches Err(JobSearchError::SQLError(x)) && x == e,
            },
    {
        match narrow_i32(rowid) {
            Ok(id) => Ok(id),
            Err(e) => Err(JobSearchError::SQLError(e)),
        }
    }

    /// Inserts the job posting and answers the identifier of its row.
    ///
    /// A job posting that already has an identifier is stored already: the
    /// store is then not touched and the answer is 0. Otherwise the answer is
    /// the row identifier that the store assigned, a failure of the store,
    /// which `statement_outcome` turns into `DBError`, or the conversion error
    /// of a row identifier that the `id` field cannot hold.
    pub fn add_to_db(self, conn: &rusqlite::Connection) -> (r: Result<i32, JobSearchError>)
        ensures
            self.id is Some ==> r == Ok::<i32, JobSearchError>(0),
            r matches Err(JobSearchError::SQLError(e)) ==> self.id is None
                && Self::refused_row_id(e),
    {
        if self.id.is_some() {
            return Ok(0);
        }
        let inserting = self.insert_params();
        match statement_outcome(
            execute(
                conn,
                "INSERT INTO job_postings (link, last_updated, description, hide) \
                 VALUES (?1, ?2, ?3, ?4);",
                &inserting,
            ),
        ) {
            Ok(_) => Self::answer_for_row_id(conn.last_insert_rowid()),
            Err(e) => Err(e),
        }
    }

    /// The values handed to the store are the columns of the stored row that
    /// the statement names, in the statement's order.
    pub proof fn lemma_written_values(v: JobPostingView)
        ensures
            Self::insert_values(v) == seq![
                Self::stored_row(v)[1],
                Self::stored_row(v)[3],
                Self::stored_row(v)[4],
                Self::stored_row(v)[5],
            ],
    {
    }

    /// A stored row is read back as the job posting it was written for.
    pub proof fn lemma_row_round_trip(v: JobPostingView)
        ensures
            Self::row_spec(Self::stored_row(v)) == Ok::<JobPostingView, ConversionError>(v),
    {
        let row = Self::stored_row(v);
        lemma_cell_round_trip(row, 0, v.id, None, None);
        lemma_cell_round_trip(row, 2, None, v.created_date, None);
        lemma_cell_round_trip(row, 3, None, v.last_updated, None);
        lemma_cell_round_trip(row, 4, None, v.description, None);
    }
}

} // verus!
