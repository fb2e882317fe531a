//! The companies that jobs are sought at.

use vstd::prelude::*;
use crate::columns::{
    column_flag,
    column_i32,
    column_optional_text,
    column_text,
    column_time,
    flag_at,
    flag_cell,
    flag_param,
    i32_at,
    i32_of,
    id_cell,
    id_param,
    is_optional_timestamp,
    lemma_cell_round_trip,
    narrow_i32,
    optional_text_at,
    optional_text_cell,
    optional_text_param,
    optional_text_view,
    text_at,
    text_param,
    time_at,
    time_cell,
};
use crate::errors::{ConversionError, JobSearchError};
use crate::repository::{
    Entity,
    answers_listing,
    answers_lookup,
    decoded,
    fetch_all,
    fetch_one,
    must_refresh,
    read_from_a_row,
    statement_outcome,
    store_failed,
};
use crate::store::{ColumnValue, SqlParam, SqlValue, execute, params_view, query_row, row_view};
use crate::utils::{TimeFields, Timestamp, time_view};

verus! {

/// A company.
#[derive(Debug, Clone, PartialEq, Eq)]
pub struct Company {
    /// The row's identifier; absent until the entity is first stored.
    pub id: Option<i32>,
    /// The company's name.
    pub name: String,
    /// Its postal address, if known.
    pub address: Option<String>,
    /// Its website, if known.
    pub website: Option<String>,
    /// Its phone number, if known.
    pub phone: Option<String>,
    /// When the store created the row, as far as it is known.
    pub created_date: Option<Timestamp>,
    /// When the store last changed the row, as far as it is known.
    pub last_updated: Option<Timestamp>,
    /// The soft-delete flag.
    pub hide: bool,
}

/// A company as a mathematical value.
pub struct CompanyView {
    pub id: Option<i32>,
    pub name: Seq<char>,
    pub address: Option<Seq<char>>,
    pub website: Option<Seq<char>>,
    pub phone: Option<Seq<char>>,
    pub created_date: Option<TimeFields>,
    pub last_updated: Option<TimeFields>,
    pub hide: bool,
}

impl View for Company {
    type V = CompanyView;

    open spec fn view(&self) -> CompanyView {
        CompanyView {
            id: self.id,
            name: self.name@,
            address: optional_text_view(self.address),
            website: optional_text_view(self.website),
            phone: optional_text_view(self.phone),
            created_date: time_view(self.created_date),
            last_updated: time_view(self.last_updated),
            hide: self.hide,
        }
    }
}

/// The three optional texts of a company, read from the columns that start
/// at `at`: address, website, phone.
pub open spec fn contact_details_at(row: Seq<ColumnValue>, at: int) -> Result<
    (Option<Seq<char>>, Option<Seq<char>>, Option<Seq<char>>),
    ConversionError,
> {
    match optional_text_at(row, at) {
        Err(e) => Err(e),
        Ok(address) => match optional_text_at(row, at + 1) {
            Err(e) => Err(e),
            Ok(website) => match optional_text_at(row, at + 2) {
                Err(e) => Err(e),
                Ok(phone) => Ok((address, website, phone)),
            },
        },
    }
}

/// The two timestamps and the flag of a company, read from the columns that
/// start at `at`: creation time, time of the last update, soft-delete flag.
pub open spec fn times_and_flag_at(row: Seq<ColumnValue>, at: int) -> Result<
    (Option<TimeFields>, Option<TimeFields>, bool),
    ConversionError,
> {
    match time_at(row, at) {
        Err(e) => Err(e),
        Ok(created_date) => match time_at(row, at + 1) {
            Err(e) => Err(e),
            Ok(last_updated) => match flag_at(row, at + 2) {
                Err(e) => Err(e),
                Ok(hidden) => Ok((created_date, last_updated, hidden)),
            },
        },
    }
}

impl Entity for Company {
    /// A row holds, in this order: the identifier, the name, the address, the
    /// website, the phone number, the creation time, the time of the last
    /// update and the soft-delete flag.
    open spec fn row_spec(row: Seq<ColumnValue>) -> Result<CompanyView, ConversionError> {
        match i32_at(row, 0) {
            Err(e) => Err(e),
            Ok(id) => match text_at(row, 1) {
                Err(e) => Err(e),
                Ok(name) => match contact_details_at(row, 2) {
                    Err(e) => Err(e),
                    Ok(details) => match times_and_flag_at(row, 5) {
                        Err(e) => Err(e),
                        Ok(rest) => Ok(
                            CompanyView {
                                id: Some(id),
                                name,
                                address: details.0,
                                website: details.1,
                                phone: details.2,
                                created_date: rest.0,
                                last_updated: rest.1,
                                hide: rest.2,
                            },
                        ),
                    },
                },
            },
        }
    }

    fn from_row(row: &Vec<SqlValue>) -> (r: Result<Company, JobSearchError>) {
        let id = match column_i32(row, 0) {
            Ok(id) => id,
            Err(e) => {
                return Err(JobSearchError::SQLError(e));
            },
        };
        let name = match column_text(row, 1) {
            Ok(name) => name,
            Err(e) => {
                return Err(JobSearchError::SQLError(e));
            },
        };
        let address = match column_optional_text(row, 2) {
            Ok(text) => text,
            Err(e) => {
                return Err(JobSearchError::SQLError(e));
            },
        };
        let website = match column_optional_text(row, 3) {
            Ok(text) => text,
            Err(e) => {
                return Err(JobSearchError::SQLError(e));
            },
        };
        let phone = match column_optional_text(row, 4) {
            Ok(text) => text,
            Err(e) => {
                return Err(JobSearchError::SQLError(e));
            },
        };
        let created_date = match column_time(row, 5) {
            Ok(time) => time,
            Err(e) => {
                return Err(JobSearchError::SQLError(e));
            },
        };
        let last_updated = match column_time(row, 6) {
            Ok(time) => time,
            Err(e) => {
                return Err(JobSearchError::SQLError(e));
            },
        };
        let hidden = match column_flag(row, 7) {
            Ok(flag) => flag,
            Err(e) => {
                return Err(JobSearchError::SQLError(e));
            },
        };
        Ok(
            Company {
                id: Some(id),
                name,
                address,
                website,
                phone,
                created_date,
                last_updated,
                hide: hidden,
            },
        )
    }
}

impl Company {
    /// The row of a company: each column holds the field that belongs there,
    /// written the way this crate hands it to the store.
    pub open spec fn stored_row(v: CompanyView) -> Seq<ColumnValue> {
        seq![
            id_cell(v.id),
            ColumnValue::Text(v.name),
            optional_text_cell(v.address),
            optional_text_cell(v.website),
            optional_text_cell(v.phone),
            time_cell(v.created_date),
            time_cell(v.last_updated),
            flag_cell(v.hide),
        ]
    }

    /// The values handed to the store when a company is inserted.
    pub open spec fn insert_values(v: CompanyView) -> Seq<ColumnValue> {
        seq![
            ColumnValue::Text(v.name),
            optional_text_cell(v.address),
            optional_text_cell(v.website),
            optional_text_cell(v.phone),
            flag_cell(v.hide),
        ]
    }

    /// The values handed to the store when a company is updated.
    pub open spec fn update_values(v: CompanyView) -> Seq<ColumnValue> {
        Self::insert_values(v).push(id_cell(v.id))
    }

    /// What a company becomes once the store has inserted it under `id` and
    /// answered `row`: the creation time and the time of the last update, as
    /// the store now holds them.
    pub open spec fn inserted(v: CompanyView, id: i32, row: Seq<ColumnValue>) -> Result<
        CompanyView,
        ConversionError,
    > {
        match time_at(row, 0) {
            Err(e) => Err(e),
            Ok(created_date) => match time_at(row, 1) {
                Err(e) => Err(e),
                Ok(last_updated) => Ok(
                    CompanyView { id: Some(id), created_date, last_updated, ..v },
                ),
            },
        }
    }

    /// What a company becomes once the store has updated it and answered
    /// `row`, the new time of its last update.
    pub open spec fn updated(v: CompanyView, row: Seq<ColumnValue>) -> Result<
        CompanyView,
        ConversionError,
    > {
        match time_at(row, 0) {
            Err(e) => Err(e),
            Ok(last_updated) => Ok(CompanyView { last_updated, ..v }),
        }
    }

    /// `after` is what `before` becomes by an insert, for some identifier
    /// and some answer of the store.
    pub open spec fn took_over_insert(before: CompanyView, after: CompanyView) -> bool {
        exists|id: i32, row: Seq<ColumnValue>|
            Self::inserted(before, id, row) == Ok::<CompanyView, ConversionError>(after)
    }

    /// `e` is why an insert of `before` cannot be taken over: the store
    /// assigned a row identifier that the `id` field cannot hold, or it
    /// answered with a row that cannot be read.
    pub open spec fn refused_insert(before: CompanyView, e: ConversionError) -> bool {
        ||| exists|rowid: i64| i32_of(rowid) == Err::<i32, ConversionError>(e)
        ||| exists|id: i32, row: Seq<ColumnValue>|
            Self::inserted(before, id, row) == Err::<CompanyView, ConversionError>(e)
    }

    /// `after` is what `before` becomes by an update, for some answer of the
    /// store.
    pub open spec fn took_over_update(before: CompanyView, after: CompanyView) -> bool {
        exists|row: Seq<ColumnValue>|
            Self::updated(before, row) == Ok::<CompanyView, ConversionError>(after)
    }

    /// `e` is why some answer of the store to an update of `before` cannot
    /// be read.
    pub open spec fn refused_update(before: CompanyView, e: ConversionError) -> bool {
        exists|row: Seq<ColumnValue>|
            Self::updated(before, row) == Err::<CompanyView, ConversionError>(e)
    }

    /// `r` and `after` are what taking over the row that the store answered
    /// after an insert under `id` comes to: the company with identifier and
    /// timestamps, everything else as before, or the conversion error of the
    /// row and the company as before.
    pub open spec fn insert_absorbed(
        before: Company,
        id: i32,
        row: Seq<ColumnValue>,
        r: Result<(), JobSearchError>,
        after: Company,
    ) -> bool {
        match Self::inserted(before@, id, row) {
            Ok(v) => r is Ok && after@ == v && after == (Company {
                id: Some(id),
                created_date: after.created_date,
                last_updated: after.last_updated,
                ..before
            }),
            Err(e) => r matches Err(JobSearchError::SQLError(x)) && x == e && after
                == before,
        }
    }

    /// `r` and `after` are what taking over the row that the store answered
    /// after an update comes to: the company with the new update time,
    /// everything else as before, or the conversion error of the row and the
    /// company as before.
    pub open spec fn update_absorbed(
        before: Company,
        row: Seq<ColumnValue>,
        r: Result<(), JobSearchError>,
        after: Company,
    ) -> bool {
        match Self::updated(before@, row) {
            Ok(v) => r is Ok && after@ == v && after == (Company {
                last_updated: after.last_updated,
                ..before
            }),
            Err(e) => r matches Err(JobSearchError::SQLError(x)) && x == e && after
                == before,
        }
    }

    /// A company that is not stored yet: no identifier, no timestamps,
    /// visible.
    pub fn new(
        name: String,
        address: Option<String>,
        website: Option<String>,
        phone: Option<String>,
    ) -> (c: Company)
        ensures
            c.id is None,
            c.name == name,
            c.address == address,
            c.website == website,
            c.phone == phone,
            c.created_date is None,
            c.last_updated is None,
            !c.hide,
    {
        Company {
            id: None,
            name,
            address,
            website,
            phone,
            created_date: None,
            last_updated: None,
            hide: false,
        }
    }

    /// A company with exactly the given fields.
    pub fn new_from_db(
        id: Option<i32>,
        name: String,
        address: Option<String>,
        website: Option<String>,
        phone: Option<String>,
        created_date: Option<Timestamp>,
        last_updated: Option<Timestamp>,
        hidden: bool,
    ) -> (c: Company)
        ensures
            c.id == id,
            c.name == name,
            c.address == address,
            c.website == website,
            c.phone == phone,
            c.created_date == created_date,
            c.last_updated == last_updated,
            c.hide == hidden,
    {
        Company { id, name, address, website, phone, created_date, last_updated, hide: hidden }
    }

    /// Reads the company that a row holds.
    pub fn new_from_row(row: &Vec<SqlValue>) -> (r: Result<Company, JobSearchError>)
        ensures
            decoded(r, Self::row_spec(row_view(row@))),
    {
        Self::from_row(row)
    }

    /// The values to hand to the store when this company is inserted.
    pub fn insert_params(&self) -> (params: Vec<SqlParam>)
        ensures
            params_view(params@) == Self::insert_values(self@),
    {
        let mut params: Vec<SqlParam> = Vec::new();
        params.push(text_param(&self.name));
        params.push(optional_text_param(&self.address));
        params.push(optional_text_param(&self.website));
        params.push(optional_text_param(&self.phone));
        params.push(flag_param(self.hide));
        assert(params_view(params@) =~= Self::insert_values(self@));
        params
    }

    /// The values to hand to the store when this company is updated.
    pub fn update_params(&self) -> (params: Vec<SqlParam>)
        ensures
            params_view(params@) == Self::update_values(self@),
    {
        let mut params = self.insert_params();
        params.push(id_param(self.id));
        assert(params_view(params@) =~= Self::update_values(self@));
        params
    }

    /// Takes over what the store answered after an insert under `id`. A row
    /// that cannot be read leaves the company as it was.
    pub fn absorb_insert(&mut self, id: i32, row: &Vec<SqlValue>) -> (r: Result<
        (),
        JobSearchError,
    >)
        ensures
            Self::insert_absorbed(*old(self), id, row_view(row@), r, *final(self)),
    {
        let created_date = match column_time(row, 0) {
            Ok(time) => time,
            Err(e) => {
                return Err(JobSearchError::SQLError(e));
            },
        };
        let last_updated = match column_time(row, 1) {
            Ok(time) => time,
            Err(e) => {
                return Err(JobSearchError::SQLError(e));
            },
        };
        self.id = Some(id);
        self.created_date = created_date;
        self.last_updated = last_updated;
        Ok(())
    }

    /// Takes over the answer of the store to the query that follows an insert
    /// under `id`: a row is taken over as `absorb_insert` does, a failure of
    /// the store comes back as `DBError` and leaves the company as it was.
    pub fn absorb_insert_answer(
        &mut self,
        id: i32,
        found: Result<Vec<SqlValue>, rusqlite::Error>,
    ) -> (r: Result<(), JobSearchError>)
        ensures
            match found {
                Ok(row) => Self::insert_absorbed(*old(self), id, row_view(row@), r, *final(self)),
                Err(e) => store_failed(r, e) && *final(self) == *old(self),
            },
    {
        match found {
            Ok(row) => self.absorb_insert(id, &row),
            Err(e) => Err(JobSearchError::DBError(e)),
        }
    }

    /// Takes over what the store answered after an update. A row that cannot
    /// be read leaves the company as it was.
    pub fn absorb_update(&mut self, row: &Vec<SqlValue>) -> (r: Result<(), JobSearchError>)
        ensures
            Self::update_absorbed(*old(self), row_view(row@), r, *final(self)),
    {
        match column_time(row, 0) {
            Ok(time) => {
                self.last_updated = time;
                Ok(())
            },
            Err(e) => Err(JobSearchError::SQLError(e)),
        }
    }

    /// Takes over the answer of the store to the query that follows an
    /// update: a row is taken over as `absorb_update` does, a failure of the
    /// store comes back as `DBError` and leaves the company as it was.
    pub fn absorb_update_answer(&mut self, found: Result<Vec<SqlValue>, rusqlite::Error>) -> (r:
        Result<(), JobSearchError>)
        ensures
            match found {
                Ok(row) => Self::update_absorbed(*old(self), row_view(row@), r, *final(self)),
                Err(e) => store_failed(r, e) && *final(self) == *old(self),
            },
    {
        match found {
            Ok(row) => self.absorb_update(&row),
            Err(e) => Err(JobSearchError::DBError(e)),
        }
    }

    /// Loads the company stored under `id`.
    ///
    /// Whatever the store answers, the result is a company read from a row,
    /// which therefore has an identifier, or an error; an identifier that the
    /// store does not know is a failure of the store. A conversion error that
    /// comes back is that of a row.
    pub fn get_by_id(conn: &rusqlite::Connection, id: i32) -> (r: Result<Company, JobSearchError>)
        ensures
            answers_lookup(r),
            r matches Ok(c) ==> c.id is Some,
    {
        let mut params: Vec<SqlParam> = Vec::new();
        params.push(id_param(Some(id)));
        fetch_one(
            conn,
            "SELECT id, name, address, website, phone, created_date, last_updated, hide \
             FROM companies WHERE id = (?1)",
            &params,
        )
    }

    /// Inserts the company and takes over its identifier and the timestamps
    /// that the store then holds for it.
    ///
    /// A company that already has an identifier is stored already: the call
    /// then touches neither the store nor the company. On success the
    /// descriptive fields and the flag are as before; on any failure the whole
    /// company is. A failure of the store comes back as `DBError`, the way
    /// `statement_outcome` and `absorb_insert_answer` say.
    pub fn add_to_db(&mut self, conn: &rusqlite::Connection) -> (r: Result<(), JobSearchError>)
        ensures
            old(self).id is Some ==> r is Ok && *final(self) == *old(self),
            old(self).id is None && r is Ok ==> final(self).id is Some && Self::took_over_insert(
                old(self)@,
                final(self)@,
            ),
            final(self).name == old(self).name,
            final(self).address == old(self).address,
            final(self).website == old(self).website,
            final(self).phone == old(self).phone,
            final(self).hide == old(self).hide,
            r matches Err(JobSearchError::SQLError(e)) ==> Self::refused_insert(
                old(self)@,
                e,
            ),
            r is Err ==> *final(self) == *old(self),
    {
        if self.id.is_some() {
            return Ok(());
        }
        let inserting = self.insert_params();
        if let Err(e) = statement_outcome(
            execute(
                conn,
                "INSERT INTO companies (name, address, website, phone, hide) \
                 VALUES (?1, ?2, ?3, ?4, ?5)",
                &inserting,
            ),
        ) {
            return Err(e);
        }
        let id = match narrow_i32(conn.last_insert_rowid()) {
            Ok(id) => id,
            Err(e) => {
                return Err(JobSearchError::SQLError(e));
            },
        };
        let mut selecting: Vec<SqlParam> = Vec::new();
        selecting.push(id_param(Some(id)));
        let found = query_row(
            conn,
            "SELECT created_date, last_updated FROM companies WHERE id=(?1)",
            &selecting,
        );
        self.absorb_insert_answer(id, found)
    }

    /// Writes the descriptive fields and the flag to the row with this
    /// identifier and takes over the update time that the store then holds.
    ///
    /// Only the update time of the company can change, and on any failure
    /// nothing changes. Where the store holds no row under this identifier, or
    /// the company has none, the statement changes no row: the call then
    /// succeeds and leaves the company as it was. A conversion error means that
    /// the store answered with something that is no update time. An update that
    /// changes no row is ended by `must_refresh`; a failure of the store comes
    /// back as `DBError`, the way `statement_outcome` and
    /// `absorb_update_answer` say.
    pub fn update_db(&mut self, conn: &rusqlite::Connection) -> (r: Result<(), JobSearchError>)
        ensures
            final(self).id == old(self).id,
            final(self).name == old(self).name,
            final(self).address == old(self).address,
            final(self).website == old(self).website,
            final(self).phone == old(self).phone,
            final(self).created_date == old(self).created_date,
            final(self).hide == old(self).hide,
            r is Ok ==> *final(self) == *old(self) || Self::took_over_update(
                old(self)@,
                final(self)@,
            ),
            r matches Err(JobSearchError::SQLError(e)) ==> Self::refused_update(
                old(self)@,
                e,
            ),
            r is Err ==> *final(self) == *old(self),
    {
        let updating = self.update_params();
        let changed = match statement_outcome(
            execute(
                conn,
                "UPDATE companies SET name=(?1), address=(?2), website=(?3), phone=(?4), \
                 hide=(?5) WHERE id = (?6)",
                &updating,
            ),
        ) {
            Ok(changed) => changed,
            Err(e) => {
                return Err(e);
            },
        };
        if !must_refresh(changed) {
            return Ok(());
        }
        let mut selecting: Vec<SqlParam> = Vec::new();
        selecting.push(id_param(self.id));
        let found = query_row(conn, "SELECT last_updated FROM companies WHERE id=(?1)", &selecting);
        self.absorb_update_answer(found)
    }

    /// Loads every stored company, in the store's order.
    pub fn get_all(conn: &rusqlite::Connection) -> (r: Result<Vec<Company>, JobSearchError>)
        ensures
            answers_listing(r),
            r matches Ok(list) ==> forall|i: int|
                0 <= i < list@.len() ==> (#[trigger] list@[i]).id is Some,
    {
        let params: Vec<SqlParam> = Vec::new();
        let r = fetch_all::<Company>(
            conn,
            "SELECT id, name, address, website, phone, created_date, last_updated, hide \
             FROM companies",
            &params,
        );
        proof {
            if r is Ok {
                let list = r->Ok_0;
                assert forall|i: int| 0 <= i < list@.len() implies (#[trigger] list@[i]).id
                    is Some by {
                    assert(read_from_a_row::<Company>(list@[i]@));
                }
            }
        }
        r
    }

    /// The values handed to the store are the columns of the stored row that
    /// the statement names, in the statement's order.
    pub proof fn lemma_written_values(v: CompanyView)
        ensures
            Self::insert_values(v) == seq![
                Self::stored_row(v)[1],
                Self::stored_row(v)[2],
                Self::stored_row(v)[3],
                Self::stored_row(v)[4],
                Self::stored_row(v)[7],
            ],
            Self::update_values(v) == Self::insert_values(v).push(Self::stored_row(v)[0]),
    {
    }

    /// A stored row is read back as the company it was written for.
    pub proof fn lemma_row_round_trip(v: CompanyView)
        requires
            v.id is Some,
            is_optional_timestamp(v.created_date),
            is_optional_timestamp(v.last_updated),
        ensures
            Self::row_spec(Self::stored_row(v)) == Ok::<CompanyView, ConversionError>(v),
    {
        let row = Self::stored_row(v);
        lemma_cell_round_trip(row, 0, v.id, None, None);
        lemma_cell_round_trip(row, 2, None, v.address, None);
        lemma_cell_round_trip(row, 3, None, v.website, None);
        lemma_cell_round_trip(row, 4, None, v.phone, None);
        lemma_cell_round_trip(row, 5, None, None, v.created_date);
        lemma_cell_round_trip(row, 6, None, None, v.last_updated);
    }
}

} // verus!
