use job_search::store::ConfigOption;
use job_search::{
    choose_sql_file, config_options, create_in_memory_db, enable_config_options,
    get_db_connection, get_path_to_sql_init_file, needs_init_script, switch_set, switch_step,
};
use rusqlite::config::DbConfig;
use rusqlite::Connection;

const SCHEMA: &str = "
CREATE TABLE contacts (
    id INTEGER PRIMARY KEY AUTOINCREMENT,
    name TEXT NOT NULL
);
INSERT INTO contacts (name) VALUES ('Marcus');
";

#[test]
fn test_get_database_connection_with_existing_db() {
    // A named store in shared memory exists for as long as `setup` is open.
    let path_to_db = "file:job_search_existing_test?mode=memory&cache=shared";
    let setup = Connection::open(path_to_db).unwrap();
    setup.execute_batch(SCHEMA).unwrap();

    let conn = get_db_connection(path_to_db, None).unwrap();
    let mut stmt = conn
        .prepare("SELECT name FROM contacts where id=?;")
        .unwrap();

    let mut rows = stmt.query([1]).unwrap();

    let mut seen = 0;
    while let Some(row) = rows.next().unwrap() {
        let name: String = row.get(0).unwrap();
        assert_eq!(name, "Marcus");
        seen += 1;
    }
    assert_eq!(seen, 1);
}

#[test]
fn test_enable_config_options() {
    let conn = get_db_connection("", Some(SCHEMA)).unwrap();
    let _ = enable_config_options(&conn).unwrap();

    assert_eq!(
        conn.db_config(DbConfig::SQLITE_DBCONFIG_ENABLE_FKEY)
            .unwrap(),
        true
    )
}

#[test]
fn test_get_database_connection_with_new_db() {
    let stamp = std::time::SystemTime::now()
        .duration_since(std::time::UNIX_EPOCH)
        .unwrap()
        .as_nanos();
    let file_name = format!("/tmp/job_search_new_test_db_{}.db", stamp);

    let conn = get_db_connection(&file_name, Some(SCHEMA)).unwrap();

    let mut stmt = conn.prepare("SELECT name FROM contacts;").unwrap();

    let mut rows = stmt.query([]).unwrap();
    let first: String = rows.next().unwrap().unwrap().get(0).unwrap();
    assert_eq!(first, "Marcus");
    drop(rows);
    drop(stmt);
    drop(conn);

    // The store is a file now: opening it again finds what was set up.
    let again = get_db_connection(&file_name, None).unwrap();
    let name: String = again
        .query_row("SELECT name FROM contacts WHERE id = 1", [], |row| row.get(0))
        .unwrap();
    assert_eq!(name, "Marcus");
}

#[test]
fn enable_config_options_turns_both_switches_on() {
    let conn = Connection::open_in_memory().unwrap();
    conn.set_db_config(DbConfig::SQLITE_DBCONFIG_ENABLE_FKEY, false)
        .unwrap();
    conn.set_db_config(DbConfig::SQLITE_DBCONFIG_ENABLE_TRIGGER, false)
        .unwrap();
    enable_config_options(&conn).unwrap();
    assert_eq!(conn.db_config(DbConfig::SQLITE_DBCONFIG_ENABLE_FKEY).unwrap(), true);
    assert_eq!(conn.db_config(DbConfig::SQLITE_DBCONFIG_ENABLE_TRIGGER).unwrap(), true);
    enable_config_options(&conn).unwrap();
    assert_eq!(conn.db_config(DbConfig::SQLITE_DBCONFIG_ENABLE_FKEY).unwrap(), true);
    assert_eq!(conn.db_config(DbConfig::SQLITE_DBCONFIG_ENABLE_TRIGGER).unwrap(), true);
}

#[test]
fn create_in_memory_db_applies_the_script() {
    let conn = create_in_memory_db(SCHEMA).unwrap();
    let name: String = conn
        .query_row("SELECT name FROM contacts WHERE id = 1", [], |row| row.get(0))
        .unwrap();
    assert_eq!(name, "Marcus");
    assert_eq!(conn.db_config(DbConfig::SQLITE_DBCONFIG_ENABLE_FKEY).unwrap(), true);
    assert_eq!(conn.db_config(DbConfig::SQLITE_DBCONFIG_ENABLE_TRIGGER).unwrap(), true);
}

#[test]
fn create_in_memory_db_survives_a_broken_script() {
    let conn = create_in_memory_db("CREATE TABLE t (x INTEGER); this is not sql;").unwrap();
    let count: i64 = conn
        .query_row("SELECT count(*) FROM t", [], |row| row.get(0))
        .unwrap();
    assert_eq!(count, 0);
}

#[test]
fn get_db_connection_without_script_leaves_the_store_alone() {
    let conn = get_db_connection("", None).unwrap();
    assert!(conn.prepare("SELECT name FROM contacts;").is_err());
}

#[test]
fn get_db_connection_reports_a_store_that_cannot_be_opened() {
    assert!(get_db_connection("/tmp/job_search_no_such_dir/x/y.db", None).is_err());
}

#[test]
fn init_file_path_uses_the_platform_separator() {
    let expected = format!("experimental{}testing.sql", std::path::MAIN_SEPARATOR);
    assert_eq!(get_path_to_sql_init_file(), expected);
}

#[test]
fn choose_sql_file_prefers_an_existing_file() {
    let default = get_path_to_sql_init_file();
    assert_eq!(choose_sql_file("", false), default);
    assert_eq!(choose_sql_file("", true), default);
    assert_eq!(choose_sql_file("src", false), default);
    assert_eq!(choose_sql_file("schema.sql", true), "schema.sql");
}

#[test]
fn init_script_is_for_a_store_that_does_not_exist_yet() {
    assert_eq!(needs_init_script(false), true);
    assert_eq!(needs_init_script(true), false);
}

#[test]
fn config_options_are_foreign_keys_then_triggers() {
    assert_eq!(
        config_options(),
        vec![ConfigOption::ForeignKeys, ConfigOption::Triggers]
    );
}

#[test]
fn switch_step_sets_only_a_switch_that_is_off() {
    assert_eq!(switch_step(ConfigOption::ForeignKeys, Ok(true)), Ok(None));
    assert_eq!(switch_step(ConfigOption::Triggers, Ok(true)), Ok(None));
    assert_eq!(
        switch_step(ConfigOption::ForeignKeys, Ok(false)),
        Ok(Some((ConfigOption::ForeignKeys, true)))
    );
    assert_eq!(
        switch_step(ConfigOption::Triggers, Ok(false)),
        Ok(Some((ConfigOption::Triggers, true)))
    );
    assert_eq!(
        switch_step(ConfigOption::Triggers, Err(rusqlite::Error::InvalidQuery)),
        Err(rusqlite::Error::InvalidQuery)
    );
}

#[test]
fn switch_set_keeps_only_the_failure() {
    assert_eq!(switch_set(Ok(true)), Ok(()));
    assert_eq!(switch_set(Ok(false)), Ok(()));
    assert_eq!(
        switch_set(Err(rusqlite::Error::InvalidQuery)),
        Err(rusqlite::Error::InvalidQuery)
    );
}

#[test]
fn enable_config_options_turns_on_the_switch_that_is_off() {
    let conn = Connection::open_in_memory().unwrap();
    conn.set_db_config(DbConfig::SQLITE_DBCONFIG_ENABLE_FKEY, true)
        .unwrap();
    conn.set_db_config(DbConfig::SQLITE_DBCONFIG_ENABLE_TRIGGER, false)
        .unwrap();
    enable_config_options(&conn).unwrap();
    assert_eq!(conn.db_config(DbConfig::SQLITE_DBCONFIG_ENABLE_FKEY).unwrap(), true);
    assert_eq!(conn.db_config(DbConfig::SQLITE_DBCONFIG_ENABLE_TRIGGER).unwrap(), true);

    conn.set_db_config(DbConfig::SQLITE_DBCONFIG_ENABLE_FKEY, false)
        .unwrap();
    enable_config_options(&conn).unwrap();
    assert_eq!(conn.db_config(DbConfig::SQLITE_DBCONFIG_ENABLE_FKEY).unwrap(), true);
    assert_eq!(conn.db_config(DbConfig::SQLITE_DBCONFIG_ENABLE_TRIGGER).unwrap(), true);
}
