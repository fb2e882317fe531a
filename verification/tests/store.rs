use job_search::contact_type::ContactType;
use job_search::create_in_memory_db;
use job_search::errors::{ConversionError, JobSearchError};
use job_search::job_posting::JobPosting;
use job_search::{set_up_memory_store, set_up_store};
use rusqlite::Connection;

const SCHEMA: &str = "
CREATE TABLE contact_types (
    id INTEGER PRIMARY KEY,
    name,
    created_date TEXT NOT NULL DEFAULT CURRENT_TIMESTAMP,
    last_updated,
    hide
);
CREATE TABLE job_postings (
    id INTEGER PRIMARY KEY,
    link TEXT NOT NULL,
    created_date TEXT,
    last_updated TEXT,
    description TEXT,
    hide INTEGER NOT NULL DEFAULT 0
);
";

#[test]
fn values_of_every_type_cross_the_boundary() {
    let conn = create_in_memory_db(SCHEMA).unwrap();
    conn.execute_batch(
        "INSERT INTO contact_types (id, name, last_updated, hide) VALUES (1, 'text', NULL, 3);
         INSERT INTO contact_types (id, name, last_updated, hide) VALUES (2, 1.5, NULL, 0);
         INSERT INTO contact_types (id, name, last_updated, hide) VALUES (3, x'0102', NULL, 0);
         INSERT INTO contact_types (id, name, last_updated, hide) VALUES (4, 'text', 17, 0);
         INSERT INTO contact_types (id, name, last_updated, hide) VALUES (5, 'text', NULL, NULL);
         INSERT INTO contact_types (id, name, last_updated, hide)
             VALUES (6, 'later', '2020-05-14 21:16:39', 0);",
    )
    .unwrap();
    let first = ContactType::get_by_id(&conn, 1).unwrap();
    assert_eq!(first.name, "text");
    assert_eq!(first.hide, true);
    for id in 2..=5 {
        assert!(matches!(
            ContactType::get_by_id(&conn, id),
            Err(JobSearchError::SQLError(ConversionError::InvalidType))
        ));
    }
    let last = ContactType::get_by_id(&conn, 6).unwrap();
    assert_eq!(last.last_updated.unwrap().day(), 14);
    assert!(matches!(
        ContactType::get_all(&conn),
        Err(JobSearchError::SQLError(ConversionError::InvalidType))
    ));
}

#[test]
fn parameters_of_every_kind_reach_the_store() {
    let conn = create_in_memory_db(SCHEMA).unwrap();
    let mut posting = JobPosting::new("google".to_string());
    posting.hide = true;
    posting.add_to_db(&conn).unwrap();
    let row: (String, Option<String>, Option<String>, i64) = conn
        .query_row(
            "SELECT link, last_updated, description, hide FROM job_postings WHERE id = 1",
            [],
            |row| Ok((row.get(0)?, row.get(1)?, row.get(2)?, row.get(3)?)),
        )
        .unwrap();
    assert_eq!(row, ("google".to_string(), None, None, 1));
}

#[test]
fn rows_come_back_in_the_order_of_the_store() {
    let conn = create_in_memory_db(SCHEMA).unwrap();
    for link in ["google", "amazon", "mozilla"] {
        JobPosting::new(link.to_string()).add_to_db(&conn).unwrap();
    }
    let all = JobPosting::get_all_job_postings(&conn).unwrap();
    let ids: Vec<Option<i32>> = all.iter().map(|posting| posting.id).collect();
    assert_eq!(ids, vec![Some(1), Some(2), Some(3)]);
}

#[test]
fn a_missing_table_is_a_store_error() {
    let conn = create_in_memory_db("").unwrap();
    assert!(matches!(
        ContactType::get_all(&conn),
        Err(JobSearchError::DBError(_))
    ));
    let mut contact_type = ContactType::new("recruiter".to_string());
    assert!(matches!(
        contact_type.add_to_db(&conn),
        Err(JobSearchError::DBError(_))
    ));
    assert_eq!(contact_type.id, None);
}

#[test]
fn set_up_store_hands_back_what_was_opened() {
    let failed = Connection::open("/tmp/job_search_no_such_dir/x/y.db");
    assert!(failed.is_err());
    assert!(set_up_store(failed, Some(SCHEMA)).is_err());
    let conn = set_up_store(Connection::open_in_memory(), Some(SCHEMA)).unwrap();
    assert!(conn.prepare("SELECT id FROM job_postings").is_ok());
    let failed = Connection::open("/tmp/job_search_no_such_dir/x/y.db");
    assert!(set_up_memory_store(failed, SCHEMA).is_err());
    let conn = set_up_memory_store(Connection::open_in_memory(), "not sql").unwrap();
    assert!(conn.prepare("SELECT id FROM job_postings").is_err());
}

#[test]
fn a_text_that_is_not_utf8_cannot_be_read() {
    let conn = create_in_memory_db(SCHEMA).unwrap();
    conn.execute_batch(
        "INSERT INTO contact_types (id, name, last_updated, hide)
             VALUES (1, CAST(x'ff' AS TEXT), NULL, 0);
         INSERT INTO contact_types (id, name, last_updated, hide) VALUES (2, 'fine', NULL, 0);",
    )
    .unwrap();
    assert!(matches!(
        ContactType::get_by_id(&conn, 1),
        Err(JobSearchError::DBError(_))
    ));
    assert_eq!(ContactType::get_by_id(&conn, 2).unwrap().name, "fine");
    assert!(matches!(
        ContactType::get_all(&conn),
        Err(JobSearchError::DBError(_))
    ));
}

#[test]
fn an_update_time_of_the_wrong_type_is_a_conversion_error() {
    let conn = create_in_memory_db(
        "CREATE TABLE contact_types (
             id INTEGER PRIMARY KEY,
             name TEXT NOT NULL,
             last_updated,
             hide INTEGER NOT NULL DEFAULT 0
         );
         CREATE TRIGGER contact_types_touch AFTER UPDATE ON contact_types
         BEGIN
             UPDATE contact_types SET last_updated = 17 WHERE id = NEW.id;
         END;",
    )
    .unwrap();
    let mut contact_type = ContactType::new("recruiter".to_string());
    contact_type.add_to_db(&conn).unwrap();
    contact_type.name = "engineer".to_string();
    let before = contact_type.clone();
    assert!(matches!(
        contact_type.update_db(&conn),
        Err(JobSearchError::SQLError(ConversionError::InvalidType))
    ));
    assert_eq!(contact_type, before);
}
