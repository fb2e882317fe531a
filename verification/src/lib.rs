//! Persistence layer of a personal job-search tracker.
//!
//! Companies, contact types, interview types and job postings are kept in an
//! embedded relational store. Each entity is a plain record with a row codec
//! whose behaviour is stated over mathematical views and proved; the store
//! itself is reached through a handful of thin, documented calls.

use vstd::prelude::*;
use vstd::string::*;
use crate::store::{ConfigOption, open_store, outside_option};

pub mod columns;
pub mod company;
pub mod contact_type;
pub mod errors;
pub mod interview_type;
pub mod job_posting;
pub mod models;
pub mod repository;
pub mod store;
pub mod utils;

verus! {

/// `std::path::MAIN_SEPARATOR`: the character that separates the components
/// of a path on this platform.
#[verifier::external_body]
fn main_separator() -> char {
    std::path::MAIN_SEPARATOR
}

/// `String::push`: appends one character to the end of the text.
#[verifier::external_body]
fn push_char(text: &mut String, c: char)
    ensures
        final(text)@ == old(text)@.push(c),
{
    text.push(c)
}

/// The relative path of the initialization script when path components are
/// separated by `separator`.
pub open spec fn init_file_path(separator: char) -> Seq<char> {
    "experimental"@.push(separator) + "testing.sql"@
}

/// Whether `path` is the relative path of the initialization script on some
/// platform.
pub open spec fn is_init_file_path(path: Seq<char>) -> bool {
    exists|separator: char| path == init_file_path(separator)
}

/// The relative path of the script that sets up a new store:
/// `testing.sql` in the directory `experimental`, with this platform's
/// separator between them.
pub fn get_path_to_sql_init_file() -> (path: String)
    ensures
        is_init_file_path(path@),
{
    let separator = main_separator();
    let mut path = String::from_str("experimental");
    push_char(&mut path, separator);
    path.append("testing.sql");
    assert(path@ == init_file_path(separator));
    path
}

/// Which script to read for a requested `path`: the requested one when it
/// names a file, the default one otherwise. An empty path always means the
/// default.
pub fn choose_sql_file(path: &str, path_is_file: bool) -> (chosen: String)
    ensures
        path@.len() > 0 && path_is_file ==> chosen@ == path@,
        !(path@.len() > 0 && path_is_file) ==> is_init_file_path(chosen@),
{
    if path.unicode_len() == 0 {
        get_path_to_sql_init_file()
    } else if path_is_file {
        String::from_str(path)
    } else {
        get_path_to_sql_init_file()
    }
}

/// Whether a store has to be set up by the initialization script: one that
/// is being created has to, one whose file exists already is opened as it
/// is.
pub fn needs_init_script(path_is_file: bool) -> (needed: bool)
    ensures
        needed == !path_is_file,
{
    !path_is_file
}

/// The switches that are turned on for every connection, in the order in
/// which they are looked at.
pub fn config_options() -> (options: Vec<ConfigOption>)
    ensures
        options@ == seq![ConfigOption::ForeignKeys, ConfigOption::Triggers],
{
    let mut options: Vec<ConfigOption> = Vec::new();
    options.push(ConfigOption::ForeignKeys);
    options.push(ConfigOption::Triggers);
    assert(options@ =~= seq![ConfigOption::ForeignKeys, ConfigOption::Triggers]);
    options
}

/// What to do about a switch once the store has said whether it is on:
/// nothing where it is on, set this switch to on where it is off, and end
/// with the store's failure where the store could not say.
pub fn switch_step(option: ConfigOption, current: Result<bool, rusqlite::Error>) -> (r: Result<
    Option<(ConfigOption, bool)>,
    rusqlite::Error,
>)
    ensures
        match current {
            Ok(true) => r == Ok::<Option<(ConfigOption, bool)>, rusqlite::Error>(None),
            Ok(false) => r == Ok::<Option<(ConfigOption, bool)>, rusqlite::Error>(
                Some((option, true)),
            ),
            Err(e) => r == Err::<Option<(ConfigOption, bool)>, rusqlite::Error>(e),
        },
{
    match current {
        Ok(true) => Ok(None),
        Ok(false) => Ok(Some((option, true))),
        Err(e) => Err(e),
    }
}

/// What setting a switch comes to: the value that the store reports is of no
/// interest, its failure ends the work.
pub fn switch_set(set: Result<bool, rusqlite::Error>) -> (r: Result<(), rusqlite::Error>)
    ensures
        match set {
            Ok(_) => r == Ok::<(), rusqlite::Error>(()),
            Err(e) => r == Err::<(), rusqlite::Error>(e),
        },
{
    match set {
        Ok(_) => Ok(()),
        Err(e) => Err(e),
    }
}

/// Turns one switch of the connection on, unless it is on already.
fn enable_config_option(conn: &rusqlite::Connection, option: ConfigOption) -> Result<
    (),
    rusqlite::Error,
> {
    match switch_step(option, conn.db_config(outside_option(option))) {
        Ok(None) => Ok(()),
        Ok(Some((switch, value))) => switch_set(
            conn.set_db_config(outside_option(switch), value),
        ),
        Err(e) => Err(e),
    }
}

/// Turns on the enforcement of foreign keys and the firing of triggers.
///
/// The switches of `config_options` are taken in order. Each is read first,
/// and `switch_step` decides what follows: a switch that is on is left alone,
/// so the call can be repeated; one that is off is set to on. The first
/// failure of the store ends the call and is returned.
pub fn enable_config_options(conn: &rusqlite::Connection) -> Result<(), rusqlite::Error> {
    let options = config_options();
    let mut idx: usize = 0;
    while idx < options.len()
        invariant
            idx <= options@.len(),
        decreases options@.len() - idx,
    {
        if let Err(e) = enable_config_option(conn, options[idx]) {
            return Err(e);
        }
        idx = idx + 1;
    }
    Ok(())
}

/// Sets up a store that was just opened in memory: runs the initialization
/// script and turns foreign keys and triggers on.
///
/// A store that could not be opened stays that failure. A script that fails
/// is not reported: the store then holds what the script had set up before it
/// failed. A switch that cannot be turned on is the only other failure, so a
/// connection that comes back is the one that was opened.
pub fn set_up_memory_store(
    opened: Result<rusqlite::Connection, rusqlite::Error>,
    init_script: &str,
) -> (r: Result<rusqlite::Connection, rusqlite::Error>)
    ensures
        opened is Err ==> r == opened,
        r is Ok ==> r == opened,
{
    match opened {
        Ok(conn) => {
            let _ = conn.execute_batch(init_script);
            match enable_config_options(&conn) {
                Ok(()) => Ok(conn),
                Err(e) => Err(e),
            }
        },
        Err(e) => Err(e),
    }
}

/// Sets up a store that was just opened: runs the initialization script, if
/// one is given, and turns foreign keys and triggers on.
///
/// Neither a script nor a switch that fails is reported: what comes back is
/// what was opened, a connection or the failure to open one.
pub fn set_up_store(
    opened: Result<rusqlite::Connection, rusqlite::Error>,
    init_script: Option<&str>,
) -> (r: Result<rusqlite::Connection, rusqlite::Error>)
    ensures
        r == opened,
{
    match opened {
        Ok(conn) => {
            if let Some(script) = init_script {
                let _ = conn.execute_batch(script);
            }
            let _ = enable_config_options(&conn);
            Ok(conn)
        },
        Err(e) => Err(e),
    }
}

/// Opens a fresh store in memory, runs the initialization script on it and
/// turns foreign keys and triggers on.
///
/// A script that fails is not reported: the store then holds what the script
/// had set up before it failed.
pub fn create_in_memory_db(init_script: &str) -> Result<rusqlite::Connection, rusqlite::Error> {
    set_up_memory_store(rusqlite::Connection::open_in_memory(), init_script)
}

/// Opens the store at `path`, in memory when `path` is empty.
///
/// `init_script` is the initialization script of a store that is being
/// created; for a store that exists already the caller passes none, and the
/// store is opened as it is. Foreign keys and triggers are turned on either
/// way. Only a store that cannot be opened is an error: a script or a switch
/// that fails is not reported.
pub fn get_db_connection(path: &str, init_script: Option<&str>) -> Result<
    rusqlite::Connection,
    rusqlite::Error,
> {
    if path.unicode_len() == 0 {
        set_up_store(rusqlite::Connection::open_in_memory(), init_script)
    } else {
        set_up_store(open_store(path), init_script)
    }
}

} // verus!
