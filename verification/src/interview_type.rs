//! The kinds of interview: phone screen, on-site, and so on.

use vstd::prelude::*;
use crate::columns::{
    column_flag,
    column_i32,
    column_text,
    column_time,
    flag_at,
    flag_cell,
    flag_param,
    i32_at,
    i32_of,
    id_cell,
    id_param,
    is_optional_timestamp,
    lemma_cell_round_trip,
    narrow_i32,
    text_at,
    text_param,
    time_at,
    time_cell,
};
use crate::errors::{ConversionError, JobSearchError};
use crate::repository::{
    Entity,
    answers_lookup,
    fetch_one,
    must_refresh,
    statement_outcome,
    store_failed,
};
use crate::store::{ColumnValue, SqlParam, SqlValue, execute, params_view, query_row, row_view};
use crate::utils::{TimeFields, Timestamp, time_view};

verus! {

/// A kind of interview.
#[derive(Debug, Clone, PartialEq, Eq)]
pub struct InterviewType {
    /// The row's identifier; absent until the entity is first stored.
    pub id: Option<i32>,
    /// The name of the kind.
    pub name: String,
    /// When the store last changed the row, as far as it is known.
    pub last_updated: Option<Timestamp>,
    /// The soft-delete flag.
    pub hide: bool,
}

/// An interview type as a mathematical value.
pub struct InterviewTypeView {
    pub id: Option<i32>,
    pub name: Seq<char>,
    pub last_updated: Option<TimeFields>,
    pub hide: bool,
}

impl View for InterviewType {
    type V = InterviewTypeView;

    open spec fn view(&self) -> InterviewTypeView {
        InterviewTypeView {
            id: self.id,
            name: self.name@,
            last_updated: time_view(self.last_updated),
            hide: self.hide,
        }
    }
}

impl Entity for InterviewType {
    /// A row holds, in this order: the identifier, the name, the time of the
    /// last update and the soft-delete flag.
    open spec fn row_spec(row: Seq<ColumnValue>) -> Result<InterviewTypeView, ConversionError> {
        match i32_at(row, 0) {
            Err(e) => Err(e),
            Ok(id) => match text_at(row, 1) {
                Err(e) => Err(e),
                Ok(name) => match time_at(row, 2) {
                    Err(e) => Err(e),
                    Ok(last_updated) => match flag_at(row, 3) {
                        Err(e) => Err(e),
                        Ok(hidden) => Ok(
                            InterviewTypeView { id: Some(id), name, last_updated, hide: hidden },
                        ),
                    },
                },
            },
        }
    }

    fn from_row(row: &Vec<SqlValue>) -> (r: Result<InterviewType, JobSearchError>) {
        let id = match column_i32(row, 0) {
            Ok(id) => id,
            Err(e) => {
                return Err(JobSearchError::SQLError(e));
            },
        };
        let name = match column_text(row, 1) {
            Ok(name) => name,
            Err(e) => {
                return Err(JobSearchError::SQLError(e));
            },
        };
        let last_updated = match column_time(row, 2) {
            Ok(time) => time,
            Err(e) => {
                return Err(JobSearchError::SQLError(e));
            },
        };
        let hidden = match column_flag(row, 3) {
            Ok(flag) => flag,
            Err(e) => {
                return Err(JobSearchError::SQLError(e));
            },
        };
        Ok(InterviewType { id: Some(id), name, last_updated, hide: hidden })
    }
}

impl InterviewType {
    /// The row of an interview type: each column holds the field that belongs
    /// there, written the way this crate hands it to the store.
    pub open spec fn stored_row(v: InterviewTypeView) -> Seq<ColumnValue> {
        seq![id_cell(v.id), ColumnValue::Text(v.name), time_cell(v.last_updated), flag_cell(v.hide)]
    }

    /// The values handed to the store when an interview type is inserted.
    pub open spec fn insert_values(v: InterviewTypeView) -> Seq<ColumnValue> {
        seq![ColumnValue::Text(v.name), flag_cell(v.hide)]
    }

    /// The values handed to the store when an interview type is updated.
    pub open spec fn update_values(v: InterviewTypeView) -> Seq<ColumnValue> {
        seq![ColumnValue::Text(v.name), flag_cell(v.hide), id_cell(v.id)]
    }

    /// What an interview type becomes once the store has inserted it under `id`
    /// and answered `row`: it has the identifier and the time of its last
    /// update as the store now holds it; name and flag are as they were
    /// written.
    pub open spec fn inserted(v: InterviewTypeView, id: i32, row: Seq<ColumnValue>) -> Result<
        InterviewTypeView,
        ConversionError,
    > {
        match time_at(row, 0) {
            Err(e) => Err(e),
            Ok(last_updated) => Ok(InterviewTypeView { id: Some(id), last_updated, ..v }),
        }
    }

    /// What an interview type becomes once the store has updated it and
    /// answered `row`, the new time of its last update.
    pub open spec fn updated(v: InterviewTypeView, row: Seq<ColumnValue>) -> Result<
        InterviewTypeView,
        ConversionError,
    > {
        match time_at(row, 0) {
            Err(e) => Err(e),
            Ok(last_updated) => Ok(InterviewTypeView { last_updated, ..v }),
        }
    }

    /// `after` is what `before` becomes by an insert, for some identifier
    /// and some answer of the store.
    pub open spec fn took_over_insert(before: InterviewTypeView, after: InterviewTypeView) -> bool {
        exists|id: i32, row: Seq<ColumnValue>|
            Self::inserted(before, id, row) == Ok::<InterviewTypeView, ConversionError>(after)
    }

    /// `e` is why an insert of `before` cannot be taken over: the store
    /// assigned a row identifier that the `id` field cannot hold, or it
    /// answered with a row that cannot be read.
    pub open spec fn refused_insert(before: InterviewTypeView, e: ConversionError) -> bool {
        ||| exists|rowid: i64| i32_of(rowid) == Err::<i32, ConversionError>(e)
        ||| exists|id: i32, row: Seq<ColumnValue>|
            Self::inserted(before, id, row) == Err::<InterviewTypeView, ConversionError>(e)
    }

    /// `after` is what `before` becomes by an update, for some answer of the
    /// store.
    pub open spec fn took_over_update(before: InterviewTypeView, after: InterviewTypeView) -> bool {
        exists|row: Seq<ColumnValue>|
            Self::updated(before, row) == Ok::<InterviewTypeView, ConversionError>(after)
    }

    /// `e` is why some answer of the store to an update of `before` cannot
    /// be read.
    pub open spec fn refused_update(before: InterviewTypeView, e: ConversionError) -> bool {
        exists|row: Seq<ColumnValue>|
            Self::updated(before, row) == Err::<InterviewTypeView, ConversionError>(e)
    }

    /// `r` and `after` are what taking over the row that the store answered
    /// after an insert under `id` comes to: the interview type with identifier
    /// and update time, everything else as before, or the conversion error of
    /// the row and the interview type as before.
    pub open spec fn insert_absorbed(
        before: InterviewType,
        id: i32,
        row: Seq<ColumnValue>,
        r: Result<(), JobSearchError>,
        after: InterviewType,
    ) -> bool {
        match Self::inserted(before@, id, row) {
            Ok(v) => r is Ok && after@ == v && after == (InterviewType {
                id: Some(id),
                last_updated: after.last_updated,
                ..before
            }),
            Err(e) => r matches Err(JobSearchError::SQLError(x)) && x == e && after == before,
        }
    }

    /// `r` and `after` are what taking over the row that the store answered
    /// after an update comes to: the interview type with the new update time,
    /// everything else as before, or the conversion error of the row and the
    /// interview type as before.
    pub open spec fn update_absorbed(
        before: InterviewType,
        row: Seq<ColumnValue>,
        r: Result<(), JobSearchError>,
        after: InterviewType,
    ) -> bool {
        match Self::updated(before@, row) {
            Ok(v) => r is Ok && after@ == v && after == (InterviewType {
                last_updated: after.last_updated,
                ..before
            }),
            Err(e) => r matches Err(JobSearchError::SQLError(x)) && x == e && after == before,
        }
    }

    /// An interview type that is not stored yet: no identifier, no update time,
    /// visible.
    pub fn new(name: String) -> (c: InterviewType)
        ensures
            c.id is None,
            c.name == name,
            c.last_updated is None,
            !c.hide,
    {
        InterviewType { id: None, name, last_updated: None, hide: false }
    }

    /// An interview type with the fields of a stored row. The stored flag is an
    /// integer: zero is visible, anything else hidden.
    pub fn new_from_db(
        id: i32,
        name: String,
        last_updated: Option<Timestamp>,
        stored_flag: i32,
    ) -> (c: InterviewType)
        ensures
            c.id == Some(id),
            c.name == name,
            c.last_updated == last_updated,
            c.hide == (stored_flag != 0),
    {
        InterviewType { id: Some(id), name, last_updated, hide: stored_flag != 0 }
    }

    /// The values to hand to the store when this interview type is inserted.
    pub fn insert_params(&self) -> (params: Vec<SqlParam>)
        ensures
            params_view(params@) == Self::insert_values(self@),
    {
        let mut params: Vec<SqlParam> = Vec::new();
        params.push(text_param(&self.name));
        params.push(flag_param(self.hide));
        assert(params_view(params@) =~= Self::insert_values(self@));
        params
    }

    /// The values to hand to the store when this interview type is updated.
    pub fn update_params(&self) -> (params: Vec<SqlParam>)
        ensures
            params_view(params@) == Self::update_values(self@),
    {
        let mut params: Vec<SqlParam> = Vec::new();
        params.push(text_param(&self.name));
        params.push(flag_param(self.hide));
        params.push(id_param(self.id));
        assert(params_view(params@) =~= Self::update_values(self@));
        params
    }

    /// Takes over what the store answered after an insert under `id`. A row
    /// that cannot be read leaves the interview type as it was.
    pub fn absorb_insert(&mut self, id: i32, row: &Vec<SqlValue>) -> (r: Result<
        (),
        JobSearchError,
    >)
        ensures
            Self::insert_absorbed(*old(self), id, row_view(row@), r, *final(self)),
    {
        match column_time(row, 0) {
            Ok(time) => {
                self.id = Some(id);
                self.last_updated = time;
                Ok(())
            },
            Err(e) => Err(JobSearchError::SQLError(e)),
        }
    }

    /// Takes over the answer of the store to the query that follows an insert
    /// under `id`: a row is taken over as `absorb_insert` does, a failure of
    /// the store comes back as `DBError` and leaves the interview type as it
    /// was.
    pub fn absorb_insert_answer(
        &mut self,
        id: i32,
        found: Result<Vec<SqlValue>, rusqlite::Error>,
    ) -> (r: Result<(), JobSearchError>)
        ensures
            match found {
                Ok(row) => Self::insert_absorbed(*old(self), id, row_view(row@), r, *final(self)),
                Err(e) => store_failed(r, e) && *final(self) == *old(self),
            },
    {
        match found {
            Ok(row) => self.absorb_insert(id, &row),
            Err(e) => Err(JobSearchError::DBError(e)),
        }
    }

    /// Takes over what the store answered after an update. A row that cannot
    /// be read leaves the interview type as it was.
    pub fn absorb_update(&mut self, row: &Vec<SqlValue>) -> (r: Result<(), JobSearchError>)
        ensures
            Self::update_absorbed(*old(self), row_view(row@), r, *final(self)),
    {
        match column_time(row, 0) {
            Ok(time) => {
                self.last_updated = time;
                Ok(())
            },
            Err(e) => Err(JobSearchError::SQLError(e)),
        }
    }

    /// Takes over the answer of the store to the query that follows an
    /// update: a row is taken over as `absorb_update` does, a failure of the
    /// store comes back as `DBError` and leaves the interview type as it was.
    pub fn absorb_update_answer(&mut self, found: Result<Vec<SqlValue>, rusqlite::Error>) -> (r:
        Result<(), JobSearchError>)
        ensures
            match found {
                Ok(row) => Self::update_absorbed(*old(self), row_view(row@), r, *final(self)),
                Err(e) => store_failed(r, e) && *final(self) == *old(self),
            },
    {
        match found {
            Ok(row) => self.absorb_update(&row),
            Err(e) => Err(JobSearchError::DBError(e)),
        }
    }

    /// Loads the interview type stored under `id`.
    ///
    /// Whatever the store answers, the result is an interview type read from a
    /// row, which therefore has an identifier, or an error; an identifier that
    /// the store does not know is a failure of the store. A conversion error
    /// that comes back is that of a row.
    pub fn get_by_id(conn: &rusqlite::Connection, id: i32) -> (r: Result<
        InterviewType,
        JobSearchError,
    >)
        ensures
            answers_lookup(r),
            r matches Ok(c) ==> c.id is Some,
    {
        let mut params: Vec<SqlParam> = Vec::new();
        params.push(id_param(Some(id)));
        fetch_one(
            conn,
            "SELECT id, name, last_updated, hide FROM interview_types WHERE id = (?1)",
            &params,
        )
    }

    /// Inserts the interview type with its name and flag, and takes over the
    /// identifier and the update time that the store then holds for it.
    ///
    /// An interview type that already has an identifier is stored already: the
    /// call then touches neither the store nor the interview type. On success
    /// name and flag are as before; on any failure the whole interview type is.
    /// A failure of the store comes back as `DBError`, the way
    /// `statement_outcome` and `absorb_insert_answer` say.
    pub fn add_to_db(&mut self, conn: &rusqlite::Connection) -> (r: Result<(), JobSearchError>)
        ensures
            old(self).id is Some ==> r is Ok && *final(self) == *old(self),
            old(self).id is None && r is Ok ==> final(self).id is Some && Self::took_over_insert(
                old(self)@,
                final(self)@,
            ),
            final(self).name == old(self).name,
            final(self).hide == old(self).hide,
            r matches Err(JobSearchError::SQLError(e)) ==> Self::refused_insert(
                old(self)@,
                e,
            ),
            r is Err ==> *final(self) == *old(self),
    {
        if self.id.is_some() {
            return Ok(());
        }
        let inserting = self.insert_params();
        if let Err(e) = statement_outcome(
            execute(conn, "INSERT INTO interview_types (name, hide) VALUES (?1, ?2)", &inserting),
        ) {
            return Err(e);
        }
        let id = match narrow_i32(conn.last_insert_rowid()) {
            Ok(id) => id,
            Err(e) => {
                return Err(JobSearchError::SQLError(e));
            },
        };
        let mut selecting: Vec<SqlParam> = Vec::new();
        selecting.push(id_param(Some(id)));
        let found = query_row(
            conn,
            "SELECT last_updated FROM interview_types WHERE id=(?1)",
            &selecting,
        );
        self.absorb_insert_answer(id, found)
    }

    /// Writes name and flag to the row with this identifier and takes over
    /// the update time that the store then holds.
    ///
    /// Only the update time of the interview type can change, and on any
    /// failure nothing changes. Where the store holds no row under this
    /// identifier, or the interview type has none, the statement changes no
    /// row: `must_refresh` then ends the call as a success that leaves the
    /// interview type as it was. A failure of the store comes back as
    /// `DBError`, the way `statement_outcome` and `absorb_update_answer` say. A
    /// conversion error means that the store answered with something that is no
    /// update time.
    pub fn update_db(&mut self, conn: &rusqlite::Connection) -> (r: Result<(), JobSearchError>)
        ensures
            final(self).id == old(self).id,
            final(self).name == old(self).name,
            final(self).hide == old(self).hide,
            r is Ok ==> *final(self) == *old(self) || Self::took_over_update(
                old(self)@,
                final(self)@,
            ),
            r matches Err(JobSearchError::SQLError(e)) ==> Self::refused_update(
                old(self)@,
                e,
            ),
            r is Err ==> *final(self) == *old(self),
    {
        let updating = self.update_params();
        let changed = match statement_outcome(
            execute(
                conn,
                "UPDATE interview_types SET name = (?1), hide = (?2) WHERE id = (?3)",
                &updating,
            ),
        ) {
            Ok(changed) => changed,
            Err(e) => {
                return Err(e);
            },
        };
        if !must_refresh(changed) {
            return Ok(());
        }
        let mut selecting: Vec<SqlParam> = Vec::new();
        selecting.push(id_param(self.id));
        let found = query_row(
            conn,
            "SELECT last_updated FROM interview_types WHERE id = (?1)",
            &selecting,
        );
        self.absorb_update_answer(found)
    }

    /// The values handed to the store are the columns of the stored row that
    /// the statement names, in the statement's order.
    pub proof fn lemma_written_values(v: InterviewTypeView)
        ensures
            Self::insert_values(v) == seq![Self::stored_row(v)[1], Self::stored_row(v)[3]],
            Self::update_values(v) == seq![
                Self::stored_row(v)[1],
                Self::stored_row(v)[3],
                Self::stored_row(v)[0],
            ],
    {
    }

    /// A stored row is read back as the interview type it was written for.
    pub proof fn lemma_row_round_trip(v: InterviewTypeView)
        requires
            v.id is Some,
            is_optional_timestamp(v.last_updated),
        ensures
            Self::row_spec(Self::stored_row(v)) == Ok::<InterviewTypeView, ConversionError>(v),
    {
        let row = Self::stored_row(v);
        lemma_cell_round_trip(row, 0, v.id, None, None);
        lemma_cell_round_trip(row, 2, None, None, v.last_updated);
    }
}

} // verus!
