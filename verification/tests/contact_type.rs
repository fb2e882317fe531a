use chrono::{Datelike, Local, Timelike};
use job_search::contact_type::ContactType;
use job_search::create_in_memory_db;
use job_search::errors::{ConversionError, JobSearchError};
use job_search::store::{SqlParam, SqlValue};
use job_search::utils::Timestamp;

const SCHEMA: &str = "
CREATE TABLE contact_types (
    id INTEGER PRIMARY KEY AUTOINCREMENT,
    name TEXT NOT NULL UNIQUE,
    created_date TEXT NOT NULL DEFAULT CURRENT_TIMESTAMP,
    last_updated TEXT,
    hide INTEGER NOT NULL DEFAULT 0
);
CREATE TRIGGER contact_types_touch AFTER UPDATE ON contact_types
BEGIN
    UPDATE contact_types SET last_updated = CURRENT_TIMESTAMP WHERE id = NEW.id;
END;
";

#[test]
fn contact_type_test_new() {
    let name = "testing".to_string();

    let contact_type = ContactType::new(name.clone());

    assert_eq!(contact_type.id, None);
    assert_eq!(contact_type.name, name);
    assert_eq!(contact_type.last_updated, None);
    assert_eq!(contact_type.hide, false);
}

#[test]
fn test_new_from_db() {
    let id: i32 = 5;
    let name = "testing".to_string();
    let now = Local::now();
    let last_updated = Timestamp::new(
        now.year(),
        now.month(),
        now.day(),
        now.hour(),
        now.minute(),
        now.second(),
    )
    .unwrap();
    let hide = 1; //everything other than 0 is true

    let contact_type =
        ContactType::new_from_db(id, name.clone(), Some(last_updated.clone()), hide);

    assert_eq!(contact_type.id, Some(id));
    assert_eq!(contact_type.name, name);
    assert_eq!(contact_type.last_updated, Some(last_updated));
    assert_eq!(contact_type.hide, true);
}

#[test]
fn contact_type_test_add_to_db() {
    let mut contact_type = ContactType::new("testing".to_string());

    let conn = create_in_memory_db(SCHEMA).unwrap();

    let _ = contact_type.add_to_db(&conn).unwrap();

    assert_eq!(contact_type.id, Some(1));
}

#[test]
fn contact_type_test_get_by_id() {
    let mut contact_type = ContactType::new("testing".to_string());

    let conn = create_in_memory_db(SCHEMA).unwrap();

    let _ = contact_type.add_to_db(&conn).unwrap();

    let contact_type_from_db = ContactType::get_by_id(&conn, contact_type.id.unwrap()).unwrap();

    assert_eq!(contact_type.id, contact_type_from_db.id)
}

#[test]
fn contact_type_test_update_db() {
    let mut contact_type = ContactType::new("testing".to_string());
    let conn = create_in_memory_db(SCHEMA).unwrap();
    let _ = contact_type.add_to_db(&conn).unwrap();

    contact_type.hide = true;

    let _ = contact_type.update_db(&conn).unwrap();

    assert_ne!(contact_type.last_updated, None);
}

#[test]
fn test_get_all_when_none() {
    let conn = create_in_memory_db(SCHEMA).unwrap();

    let items = ContactType::get_all(&conn).unwrap();

    assert_eq!(items.is_empty(), true);
}

#[test]
fn test_get_all() {
    let mut contact_type = ContactType::new("testing".to_string());

    let conn = create_in_memory_db(SCHEMA).unwrap();

    let _ = contact_type.add_to_db(&conn).unwrap();

    let all_contact_types = ContactType::get_all(&conn).unwrap();

    assert_eq!(all_contact_types.is_empty(), false);
}

#[test]
fn contact_type_round_trips_through_the_store() {
    let conn = create_in_memory_db(SCHEMA).unwrap();
    let mut contact_type = ContactType::new("recruiter".to_string());
    contact_type.add_to_db(&conn).unwrap();
    assert_eq!(contact_type.name, "recruiter");
    assert_eq!(contact_type.hide, false);
    assert_eq!(contact_type.last_updated, None);

    let loaded = ContactType::get_by_id(&conn, contact_type.id.unwrap()).unwrap();
    assert_eq!(loaded, contact_type);
}

#[test]
fn contact_type_hidden_flag_round_trips() {
    let conn = create_in_memory_db(SCHEMA).unwrap();
    let mut contact_type = ContactType::new("recruiter".to_string());
    contact_type.add_to_db(&conn).unwrap();

    contact_type.hide = true;
    contact_type.update_db(&conn).unwrap();
    let loaded = ContactType::get_by_id(&conn, contact_type.id.unwrap()).unwrap();
    assert_eq!(loaded.hide, true);
    assert_eq!(loaded.last_updated, contact_type.last_updated);

    contact_type.hide = false;
    contact_type.update_db(&conn).unwrap();
    let loaded = ContactType::get_by_id(&conn, contact_type.id.unwrap()).unwrap();
    assert_eq!(loaded.hide, false);
}

#[test]
fn contact_type_any_non_zero_flag_is_hidden() {
    let conn = create_in_memory_db(SCHEMA).unwrap();
    conn.execute("INSERT INTO contact_types (name, hide) VALUES ('a', 7)", [])
        .unwrap();
    conn.execute("INSERT INTO contact_types (name, hide) VALUES ('b', -1)", [])
        .unwrap();
    conn.execute("INSERT INTO contact_types (name, hide) VALUES ('c', 0)", [])
        .unwrap();
    assert_eq!(ContactType::get_by_id(&conn, 1).unwrap().hide, true);
    assert_eq!(ContactType::get_by_id(&conn, 2).unwrap().hide, true);
    assert_eq!(ContactType::get_by_id(&conn, 3).unwrap().hide, false);
}

#[test]
fn contact_type_unknown_id_is_a_store_error() {
    let conn = create_in_memory_db(SCHEMA).unwrap();
    let missing = ContactType::get_by_id(&conn, 42);
    assert!(matches!(missing, Err(JobSearchError::DBError(_))));
}

#[test]
fn contact_type_duplicate_name_is_a_store_error() {
    let conn = create_in_memory_db(SCHEMA).unwrap();
    let mut first = ContactType::new("recruiter".to_string());
    first.add_to_db(&conn).unwrap();
    let mut second = ContactType::new("recruiter".to_string());
    let refused = second.add_to_db(&conn);
    assert!(matches!(refused, Err(JobSearchError::DBError(_))));
    assert_eq!(second, ContactType::new("recruiter".to_string()));
}

#[test]
fn contact_type_second_insert_changes_nothing() {
    let conn = create_in_memory_db(SCHEMA).unwrap();
    let mut contact_type = ContactType::new("recruiter".to_string());
    contact_type.add_to_db(&conn).unwrap();
    let before = contact_type.clone();
    contact_type.add_to_db(&conn).unwrap();
    assert_eq!(contact_type, before);
    assert_eq!(ContactType::get_all(&conn).unwrap().len(), 1);
}

#[test]
fn contact_type_update_without_a_row_changes_nothing() {
    let conn = create_in_memory_db(SCHEMA).unwrap();
    let mut never_stored = ContactType::new("recruiter".to_string());
    never_stored.update_db(&conn).unwrap();
    assert_eq!(never_stored, ContactType::new("recruiter".to_string()));

    let mut unknown = ContactType::new_from_db(42, "engineer".to_string(), None, 0);
    unknown.update_db(&conn).unwrap();
    assert_eq!(unknown, ContactType::new_from_db(42, "engineer".to_string(), None, 0));
    assert_eq!(ContactType::get_all(&conn).unwrap().len(), 0);
}

#[test]
fn contact_type_update_that_breaks_a_constraint_is_a_store_error() {
    let conn = create_in_memory_db(SCHEMA).unwrap();
    let mut first = ContactType::new("recruiter".to_string());
    first.add_to_db(&conn).unwrap();
    let mut second = ContactType::new("engineer".to_string());
    second.add_to_db(&conn).unwrap();
    second.name = "recruiter".to_string();
    let before = second.clone();
    assert!(matches!(second.update_db(&conn), Err(JobSearchError::DBError(_))));
    assert_eq!(second, before);
}

#[test]
fn contact_type_new_from_row_reads_each_column() {
    let row = vec![
        SqlValue::Integer(3),
        SqlValue::Text("recruiter".to_string()),
        SqlValue::Text("2020-05-14 21:16:39".to_string()),
        SqlValue::Integer(2),
    ];
    let contact_type = ContactType::new_from_row(&row).unwrap();
    assert_eq!(contact_type.id, Some(3));
    assert_eq!(contact_type.name, "recruiter");
    assert_eq!(contact_type.last_updated, Timestamp::new(2020, 5, 14, 21, 16, 39));
    assert_eq!(contact_type.hide, true);
}

#[test]
fn contact_type_new_from_row_treats_unreadable_time_as_absent() {
    let row = vec![
        SqlValue::Integer(3),
        SqlValue::Text("recruiter".to_string()),
        SqlValue::Text("yesterday".to_string()),
        SqlValue::Integer(0),
    ];
    let contact_type = ContactType::new_from_row(&row).unwrap();
    assert_eq!(contact_type.last_updated, None);
    assert_eq!(contact_type.hide, false);
}

#[test]
fn contact_type_new_from_row_reports_conversion_errors() {
    let short = vec![SqlValue::Integer(3), SqlValue::Text("recruiter".to_string())];
    assert!(matches!(
        ContactType::new_from_row(&short),
        Err(JobSearchError::SQLError(ConversionError::MissingColumn(2)))
    ));
    let wrong_type = vec![
        SqlValue::Text("3".to_string()),
        SqlValue::Text("recruiter".to_string()),
        SqlValue::Null,
        SqlValue::Integer(0),
    ];
    assert!(matches!(
        ContactType::new_from_row(&wrong_type),
        Err(JobSearchError::SQLError(ConversionError::InvalidType))
    ));
    let too_large = vec![
        SqlValue::Integer(4294967296),
        SqlValue::Text("recruiter".to_string()),
        SqlValue::Null,
        SqlValue::Integer(0),
    ];
    assert!(matches!(
        ContactType::new_from_row(&too_large),
        Err(JobSearchError::SQLError(ConversionError::OutOfRange(4294967296)))
    ));
    let no_id = vec![
        SqlValue::Null,
        SqlValue::Text("recruiter".to_string()),
        SqlValue::Null,
        SqlValue::Integer(0),
    ];
    assert!(matches!(
        ContactType::new_from_row(&no_id),
        Err(JobSearchError::SQLError(ConversionError::InvalidType))
    ));
}

#[test]
fn contact_type_hidden_before_insert_stays_hidden() {
    let conn = create_in_memory_db(SCHEMA).unwrap();
    let mut contact_type = ContactType::new("recruiter".to_string());
    contact_type.hide = true;
    contact_type.add_to_db(&conn).unwrap();
    assert_eq!(contact_type.hide, true);
    assert_eq!(contact_type.name, "recruiter");
    let loaded = ContactType::get_by_id(&conn, contact_type.id.unwrap()).unwrap();
    assert_eq!(loaded.hide, true);
    assert_eq!(loaded, contact_type);
}

#[test]
fn contact_type_params_hold_the_fields_in_statement_order() {
    let mut contact_type = ContactType::new("recruiter".to_string());
    contact_type.hide = true;
    assert_eq!(
        contact_type.insert_params(),
        vec![SqlParam::Text("recruiter".to_string()), SqlParam::Integer(1)]
    );
    contact_type.id = Some(4);
    contact_type.hide = false;
    assert_eq!(
        contact_type.update_params(),
        vec![
            SqlParam::Text("recruiter".to_string()),
            SqlParam::Integer(0),
            SqlParam::Integer(4),
        ]
    );
}

#[test]
fn contact_type_absorbs_the_answers_of_the_store() {
    let mut contact_type = ContactType::new("recruiter".to_string());
    contact_type.hide = true;
    let answer = vec![SqlValue::Text("2020-05-14 21:16:39".to_string())];
    contact_type.absorb_insert_answer(7, Ok(answer)).unwrap();
    assert_eq!(contact_type.id, Some(7));
    assert_eq!(contact_type.name, "recruiter");
    assert_eq!(contact_type.hide, true);
    assert_eq!(contact_type.last_updated, Timestamp::new(2020, 5, 14, 21, 16, 39));

    contact_type.absorb_update_answer(Ok(vec![SqlValue::Null])).unwrap();
    assert_eq!(contact_type.last_updated, None);
    assert_eq!(contact_type.id, Some(7));

    let before = contact_type.clone();
    assert!(matches!(
        contact_type.absorb_update_answer(Err(rusqlite::Error::QueryReturnedNoRows)),
        Err(JobSearchError::DBError(rusqlite::Error::QueryReturnedNoRows))
    ));
    assert_eq!(contact_type, before);
    assert!(matches!(
        contact_type.absorb_insert_answer(8, Err(rusqlite::Error::QueryReturnedNoRows)),
        Err(JobSearchError::DBError(rusqlite::Error::QueryReturnedNoRows))
    ));
    assert_eq!(contact_type, before);
    assert!(matches!(
        contact_type.absorb_insert_answer(8, Ok(vec![])),
        Err(JobSearchError::SQLError(ConversionError::MissingColumn(0)))
    ));
    assert_eq!(contact_type, before);
    assert!(matches!(
        contact_type.absorb_update_answer(Ok(vec![SqlValue::Integer(1)])),
        Err(JobSearchError::SQLError(ConversionError::InvalidType))
    ));
    assert_eq!(contact_type, before);
}
