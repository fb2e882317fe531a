//! The job postings that were found.

use vstd::prelude::*;
use crate::columns::{
    column_flag,
    column_i32,
    column_optional_text,
    column_text,
    column_time,
    flag_at,
    flag_cell,
    flag_param,
    i32_at,
    i32_of,
    id_cell,
    id_param,
    is_optional_timestamp,
    lemma_cell_round_trip,
    narrow_i32,
    optional_text_at,
    optional_text_cell,
    optional_text_param,
    optional_text_view,
    text_at,
    text_param,
    time_at,
    time_cell,
    time_param,
};
use crate::errors::{ConversionError, JobSearchError};
use crate::repository::{
    Entity,
    answers_listing,
    answers_lookup,
    decoded,
    fetch_all,
    fetch_one,
    must_refresh,
    read_from_a_row,
    statement_outcome,
    store_failed,
};
use crate::store::{ColumnValue, SqlParam, SqlValue, execute, params_view, query_row, row_view};
use crate::utils::{TimeFields, Timestamp, time_view};

verus! {

/// A job posting.
#[derive(Debug, Clone, PartialEq, Eq)]
pub struct JobPosting {
    /// The row's identifier; absent until the entity is first stored.
    pub id: Option<i32>,
    /// Where the posting can be read.
    pub link: String,
    /// When the store created the row, as far as it is known.
    pub created_date: Option<Timestamp>,
    /// When the store last changed the row, as far as it is known.
    pub last_updated: Option<Timestamp>,
    /// A free description, if there is one.
    pub description: Option<String>,
    /// The soft-delete flag.
    pub hide: bool,
}

/// A job posting as a mathematical value.
pub struct JobPostingView {
    pub id: Option<i32>,
    pub link: Seq<char>,
    pub created_date: Option<TimeFields>,
    pub last_updated: Option<TimeFields>,
    pub description: Option<Seq<char>>,
    pub hide: bool,
}

impl View for JobPosting {
    type V = JobPostingView;

    open spec fn view(&self) -> JobPostingView {
        JobPostingView {
            id: self.id,
            link: self.link@,
            created_date: time_view(self.created_date),
            last_updated: time_view(self.last_updated),
            description: optional_text_view(self.description),
            hide: self.hide,
        }
    }
}

/// The two timestamps and the description of a job posting, read from the
/// columns that start at `at`.
pub open spec fn times_and_description_at(row: Seq<ColumnValue>, at: int) -> Result<
    (Option<TimeFields>, Option<TimeFields>, Option<Seq<char>>),
    ConversionError,
> {
    match time_at(row, at) {
        Err(e) => Err(e),
        Ok(created_date) => match time_at(row, at + 1) {
            Err(e) => Err(e),
            Ok(last_updated) => match optional_text_at(row, at + 2) {
                Err(e) => Err(e),
                Ok(description) => Ok((created_date, last_updated, description)),
            },
        },
    }
}

impl Entity for JobPosting {
    /// A row holds, in this order: the identifier, the link, the creation
    /// time, the time of the last update, the description and the
    /// soft-delete flag. The flag is read first, then the others in order.
    open spec fn row_spec(row: Seq<ColumnValue>) -> Result<JobPostingView, ConversionError> {
        match flag_at(row, 5) {
            Err(e) => Err(e),
            Ok(hidden) => match i32_at(row, 0) {
                Err(e) => Err(e),
                Ok(id) => match text_at(row, 1) {
                    Err(e) => Err(e),
                    Ok(link) => match times_and_description_at(row, 2) {
                        Err(e) => Err(e),
                        Ok(rest) => Ok(
                            JobPostingView {
                                id: Some(id),
                                link,
                                created_date: rest.0,
                                last_updated: rest.1,
                                description: rest.2,
                                hide: hidden,
                            },
                        ),
                    },
                },
            },
        }
    }

    fn from_row(row: &Vec<SqlValue>) -> (r: Result<JobPosting, JobSearchError>) {
        let hidden = match column_flag(row, 5) {
            Ok(flag) => flag,
            Err(e) => {
                return Err(JobSearchError::SQLError(e));
            },
        };
        let id = match column_i32(row, 0) {
            Ok(id) => id,
            Err(e) => {
                return Err(JobSearchError::SQLError(e));
            },
        };
        let link = match column_text(row, 1) {
            Ok(text) => text,
            Err(e) => {
                return Err(JobSearchError::SQLError(e));
            },
        };
        let created_date = match column_time(row, 2) {
            Ok(time) => time,
            Err(e) => {
                return Err(JobSearchError::SQLError(e));
            },
        };
        let last_updated = match column_time(row, 3) {
            Ok(time) => time,
            Err(e) => {
                return Err(JobSearchError::SQLError(e));
            },
        };
        let description = match column_optional_text(row, 4) {
            Ok(text) => text,
            Err(e) => {
                return Err(JobSearchError::SQLError(e));
            },
        };
        Ok(JobPosting { id: Some(id), link, created_date, last_updated, description, hide: hidden })
    }
}

impl JobPosting {
    /// The row of a job posting: each column holds the field that belongs
    /// there, written the way this crate hands it to the store.
    pub open spec fn stored_row(v: JobPostingView) -> Seq<ColumnValue> {
        seq![
            id_cell(v.id),
            ColumnValue::Text(v.link),
            time_cell(v.created_date),
            time_cell(v.last_updated),
            optional_text_cell(v.description),
            flag_cell(v.hide),
        ]
    }

    /// The values handed to the store when a job posting is inserted.
    pub open spec fn insert_values(v: JobPostingView) -> Seq<ColumnValue> {
        seq![
            ColumnValue::Text(v.link),
            time_cell(v.last_updated),
            optional_text_cell(v.description),
            flag_cell(v.hide),
        ]
    }

    /// The values handed to the store when a job posting is updated.
    pub open spec fn update_values(v: JobPostingView) -> Seq<ColumnValue> {
        seq![
            ColumnValue::Text(v.link),
            optional_text_cell(v.description),
            flag_cell(v.hide),
            id_cell(v.id),
        ]
    }

    /// What a job posting becomes once the store has inserted it under `id`
    /// and answered `row`: the creation time and the time of the last update,
    /// as the store now holds them.
    pub open spec fn inserted(v: JobPostingView, id: i32, row: Seq<ColumnValue>) -> Result<
        JobPostingView,
        ConversionError,
    > {
        match time_at(row, 0) {
            Err(e) => Err(e),
            Ok(created_date) => match time_at(row, 1) {
                Err(e) => Err(e),
                Ok(last_updated) => Ok(
                    JobPostingView { id: Some(id), created_date, last_updated, ..v },
                ),
            },
        }
    }

    /// What a job posting becomes once the store has updated it and answered
    /// `row`, the new time of its last update.
    pub open spec fn updated(v: JobPostingView, row: Seq<ColumnValue>) -> Result<
        JobPostingView,
        ConversionError,
    > {
        match time_at(row, 0) {
            Err(e) => Err(e),
            Ok(last_updated) => Ok(JobPostingView { last_updated, ..v }),
        }
    }

    /// `after` is what `before` becomes by an insert, for some identifier
    /// and some answer of the store.
    pub open spec fn took_over_insert(before: JobPostingView, after: JobPostingView) -> bool {
        exists|id: i32, row: Seq<ColumnValue>|
            Self::inserted(before, id, row) == Ok::<JobPostingView, ConversionError>(after)
    }

    /// `e` is why an insert of `before` cannot be taken over: the store
    /// assigned a row identifier that the `id` field cannot hold, or it
    /// answered with a row that cannot be read.
    pub open spec fn refused_insert(before: JobPostingView, e: ConversionError) -> bool {
        ||| exists|rowid: i64| i32_of(rowid) == Err::<i32, ConversionError>(e)
        ||| exists|id: i32, row: Seq<ColumnValue>|
            Self::inserted(before, id, row) == Err::<JobPostingView, ConversionError>(e)
    }

    /// `after` is what `before` becomes by an update, for some answer of the
    /// store.
    pub open spec fn took_over_update(before: JobPostingView, after: JobPostingView) -> bool {
        exists|row: Seq<ColumnValue>|
            Self::updated(before, row) == Ok::<JobPostingView, ConversionError>(after)
    }

    /// `e` is why some answer of the store to an update of `before` cannot
    /// be read.
    pub open spec fn refused_update(before: JobPostingView, e: ConversionError) -> bool {
        exists|row: Seq<ColumnValue>|
            Self::updated(before, row) == Err::<JobPostingView, ConversionError>(e)
    }

    /// `r` and `after` are what taking over the row that the store answered
    /// after an insert under `id` comes to: the job posting with identifier and
    /// timestamps, everything else as before, or the conversion error of the
    /// row and the job posting as before.
    pub open spec fn insert_absorbed(
        before: JobPosting,
        id: i32,
        row: Seq<ColumnValue>,
        r: Result<(), JobSearchError>,
        after: JobPosting,
    ) -> bool {
        match Self::inserted(before@, id, row) {
            Ok(v) => r is Ok && after@ == v && after == (JobPosting {
                id: Some(id),
                created_date: after.created_date,
                last_updated: after.last_updated,
                ..before
            }),
            Err(e) => r matches Err(JobSearchError::SQLError(x)) && x == e && after
                == before,
        }
    }

    /// `r` and `after` are what taking over the row that the store answered
    /// after an update comes to: the job posting with the new update time,
    /// everything else as before, or the conversion error of the row and the
    /// job posting as before.
    pub open spec fn update_absorbed(
        before: JobPosting,
        row: Seq<ColumnValue>,
        r: Result<(), JobSearchError>,
        after: JobPosting,
    ) -> bool {
        match Self::updated(before@, row) {
            Ok(v) => r is Ok && after@ == v && after == (JobPosting {
                last_updated: after.last_updated,
                ..before
            }),
            Err(e) => r matches Err(JobSearchError::SQLError(x)) && x == e && after
                == before,
        }
    }

    /// A job posting that is not stored yet: no identifier, no timestamps, no
    /// description, visible.
    pub fn new(link: String) -> (p: JobPosting)
        ensures
            p.id is None,
            p.link == link,
            p.created_date is None,
            p.last_updated is None,
            p.description is None,
            !p.hide,
    {
        JobPosting {
            id: None,
            link,
            created_date: None,
            last_updated: None,
            description: None,
            hide: false,
        }
    }

    /// Reads the job posting that a row holds.
    pub fn new_from_row(row: &Vec<SqlValue>) -> (r: Result<JobPosting, JobSearchError>)
        ensures
            decoded(r, Self::row_spec(row_view(row@))),
    {
        Self::from_row(row)
    }

    /// The values to hand to the store when this job posting is inserted.
    pub fn insert_params(&self) -> (params: Vec<SqlParam>)
        ensures
            params_view(params@) == Self::insert_values(self@),
    {
        let mut params: Vec<SqlParam> = Vec::new();
        params.push(text_param(&self.link));
        params.push(time_param(&self.last_updated));
        params.push(optional_text_param(&self.description));
        params.push(flag_param(self.hide));
        assert(params_view(params@) =~= Self::insert_values(self@));
        params
    }

    /// The values to hand to the store when this job posting is updated.
    pub fn update_params(&self) -> (params: Vec<SqlParam>)
        ensures
            params_view(params@) == Self::update_values(self@),
    {
        let mut params: Vec<SqlParam> = Vec::new();
        params.push(text_param(&self.link));
        params.push(optional_text_param(&self.description));
        params.push(flag_param(self.hide));
        params.push(id_param(self.id));
        assert(params_view(params@) =~= Self::update_values(self@));
        params
    }

    /// Takes over what the store answered after an insert under `id`. A row
    /// that cannot be read leaves the job posting as it was.
    pub fn absorb_insert(&mut self, id: i32, row: &Vec<SqlValue>) -> (r: Result<
        (),
        JobSearchError,
    >)
        ensures
            Self::insert_absorbed(*old(self), id, row_view(row@), r, *final(self)),
    {
        let created_date = match column_time(row, 0) {
            Ok(time) => time,
            Err(e) => {
                return Err(JobSearchError::SQLError(e));
            },
        };
        let last_updated = match column_time(row, 1) {
            Ok(time) => time,
            Err(e) => {
                return Err(JobSearchError::SQLError(e));
            },
        };
        self.id = Some(id);
        self.created_date = created_date;
        self.last_updated = last_updated;
        Ok(())
    }

    /// Takes over the answer of the store to the query that follows an insert
    /// under `id`: a row is taken over as `absorb_insert` does, a failure of
    /// the store comes back as `DBError` and leaves the job posting as it was.
    pub fn absorb_insert_answer(
        &mut self,
        id: i32,
        found: Result<Vec<SqlValue>, rusqlite::Error>,
    ) -> (r: Result<(), JobSearchError>)
        ensures
            match found {
                Ok(row) => Self::insert_absorbed(*old(self), id, row_view(row@), r, *final(self)),
                Err(e) => store_failed(r, e) && *final(self) == *old(self),
            },
    {
        match found {
            Ok(row) => self.absorb_insert(id, &row),
            Err(e) => Err(JobSearchError::DBError(e)),
        }
    }

    /// Takes over what the store answered after an update. A row that cannot
    /// be read leaves the job posting as it was.
    pub fn absorb_update(&mut self, row: &Vec<SqlValue>) -> (r: Result<(), JobSearchError>)
        ensures
            Self::update_absorbed(*old(self), row_view(row@), r, *final(self)),
    {
        match column_time(row, 0) {
            Ok(time) => {
                self.last_updated = time;
                Ok(())
            },
            Err(e) => Err(JobSearchError::SQLError(e)),
        }
    }

    /// Takes over the answer of the store to the query that follows an
    /// update: a row is taken over as `absorb_update` does, a failure of the
    /// store comes back as `DBError` and leaves the job posting as it was.
    pub fn absorb_update_answer(&mut self, found: Result<Vec<SqlValue>, rusqlite::Error>) -> (r:
        Result<(), JobSearchError>)
        ensures
            match found {
                Ok(row) => Self::update_absorbed(*old(self), row_view(row@), r, *final(self)),
                Err(e) => store_failed(r, e) && *final(self) == *old(self),
            },
    {
        match found {
            Ok(row) => self.absorb_update(&row),
            Err(e) => Err(JobSearchError::DBError(e)),
        }
    }

    /// Loads the job posting stored under `id`.
    ///
    /// Whatever the store answers, the result is a job posting read from a row,
    /// which therefore has an identifier, or an error; an identifier that the
    /// store does not know is a failure of the store. A conversion error that
    /// comes back is that of a row.
    pub fn get_by_id(conn: &rusqlite::Connection, id: i32) -> (r: Result<
        JobPosting,
        JobSearchError,
    >)
        ensures
            answers_lookup(r),
            r matches Ok(p) ==> p.id is Some,
    {
        let mut params: Vec<SqlParam> = Vec::new();
        params.push(id_param(Some(id)));
        fetch_one(
            conn,
            "SELECT id, link, created_date, last_updated, description, hide \
             FROM job_postings WHERE id = (?1)",
            &params,
        )
    }

    /// Loads every stored job posting, in the store's order.
    pub fn get_all_job_postings(conn: &rusqlite::Connection) -> (r: Result<
        Vec<JobPosting>,
        JobSearchError,
    >)
        ensures
            answers_listing(r),
            r matches Ok(list) ==> forall|i: int|
                0 <= i < list@.len() ==> (#[trigger] list@[i]).id is Some,
    {
        let params: Vec<SqlParam> = Vec::new();
        let r = fetch_all::<JobPosting>(
            conn,
            "SELECT id, link, created_date, last_updated, description, hide FROM job_postings;",
            &params,
        );
        proof {
            if r is Ok {
                let list = r->Ok_0;
                assert forall|i: int| 0 <= i < list@.len() implies (#[trigger] list@[i]).id
                    is Some by {
                    assert(read_from_a_row::<JobPosting>(list@[i]@));
                }
            }
        }
        r
    }

    /// Inserts the job posting and takes over its identifier and the
    /// timestamps that the store then holds for it.
    ///
    /// A job posting that already has an identifier is stored already: the call
    /// then touches neither the store nor the job posting. On success link,
    /// description and flag are as before; on any failure the whole job posting
    /// is. A failure of the store comes back as `DBError`, the way
    /// `statement_outcome` and `absorb_insert_answer` say.
    pub fn add_to_db(&mut self, conn: &rusqlite::Connection) -> (r: Result<(), JobSearchError>)
        ensures
            old(self).id is Some ==> r is Ok && *final(self) == *old(self),
            old(self).id is None && r is Ok ==> final(self).id is Some && Self::took_over_insert(
                old(self)@,
                final(self)@,
            ),
            final(self).link == old(self).link,
            final(self).description == old(self).description,
            final(self).hide == old(self).hide,
            r matches Err(JobSearchError::SQLError(e)) ==> Self::refused_insert(
                old(self)@,
                e,
            ),
            r is Err ==> *final(self) == *old(self),
    {
        if self.id.is_some() {
            return Ok(());
        }
        let inserting = self.insert_params();
        if let Err(e) = statement_outcome(
            execute(
                conn,
                "INSERT INTO job_postings (link, last_updated, description, hide) \
                 VALUES (?1, ?2, ?3, ?4);",
                &inserting,
            ),
        ) {
            return Err(e);
        }
        let id = match narrow_i32(conn.last_insert_rowid()) {
            Ok(id) => id,
            Err(e) => {
                return Err(JobSearchError::SQLError(e));
            },
        };
        let mut selecting: Vec<SqlParam> = Vec::new();
        selecting.push(id_param(Some(id)));
        let found = query_row(
            conn,
            "SELECT created_date, last_updated FROM job_postings WHERE id = (?1)",
            &selecting,
        );
        self.absorb_insert_answer(id, found)
    }

    /// Writes link, description and flag to the row with this identifier and
    /// takes over the update time that the store then holds.
    ///
    /// Only the update time of the job posting can change, and on any failure
    /// nothing changes. Where the store holds no row under this identifier, or
    /// the job posting has none, the statement changes no row: the call then
    /// succeeds and leaves the job posting as it was. A conversion error means
    /// that the store answered with something that is no update time. An update
    /// that changes no row is ended by `must_refresh`; a failure of the store
    /// comes back as `DBError`, the way `statement_outcome` and
    /// `absorb_update_answer` say.
    pub fn update_db(&mut self, conn: &rusqlite::Connection) -> (r: Result<(), JobSearchError>)
        ensures
            final(self).id == old(self).id,
            final(self).link == old(self).link,
            final(self).created_date == old(self).created_date,
            final(self).description == old(self).description,
            final(self).hide == old(self).hide,
            r is Ok ==> *final(self) == *old(self) || Self::took_over_update(
                old(self)@,
                final(self)@,
            ),
            r matches Err(JobSearchError::SQLError(e)) ==> Self::refused_update(
                old(self)@,
                e,
            ),
            r is Err ==> *final(self) == *old(self),
    {
        let updating = self.update_params();
        let changed = match statement_outcome(
            execute(
                conn,
                "UPDATE job_postings SET link = (?1), description = (?2), hide = (?3) \
                 WHERE id = (?4)",
                &updating,
            ),
        ) {
            Ok(changed) => changed,
            Err(e) => {
                return Err(e);
            },
        };
        if !must_refresh(changed) {
            return Ok(());
        }
        let mut selecting: Vec<SqlParam> = Vec::new();
        selecting.push(id_param(self.id));
        let found = query_row(
            conn,
            "SELECT last_updated FROM job_postings WHERE id = (?1)",
            &selecting,
        );
        self.absorb_update_answer(found)
    }

    /// The values handed to the store are the columns of the stored row that
    /// the statement names, in the statement's order.
    pub proof fn lemma_written_values(v: JobPostingView)
        ensures
            Self::insert_values(v) == seq![
                Self::stored_row(v)[1],
                Self::stored_row(v)[3],
                Self::stored_row(v)[4],
                Self::stored_row(v)[5],
            ],
            Self::update_values(v) == seq![
                Self::stored_row(v)[1],
                Self::stored_row(v)[4],
                Self::stored_row(v)[5],
                Self::stored_row(v)[0],
            ],
    {
    }

    /// A stored row is read back as the job posting it was written for.
    pub proof fn lemma_row_round_trip(v: JobPostingView)
        requires
            v.id is Some,
            is_optional_timestamp(v.created_date),
            is_optional_timestamp(v.last_updated),
        ensures
            Self::row_spec(Self::stored_row(v)) == Ok::<JobPostingView, ConversionError>(v),
    {
        let row = Self::stored_row(v);
        lemma_cell_round_trip(row, 0, v.id, None, None);
        lemma_cell_round_trip(row, 2, None, None, v.created_date);
        lemma_cell_round_trip(row, 3, None, None, v.last_updated);
        lemma_cell_round_trip(row, 4, None, v.description, None);
    }
}

} // verus!
