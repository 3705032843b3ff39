//! The account store: usernames with their password and privilege, kept in
//! an SQLite database.
use crate::codec::ServerError;
use vstd::prelude::*;

verus! {

#[verifier::external_type_specification]
#[verifier::external_body]
pub struct ExConnection(rusqlite::Connection);

#[verifier::external_type_specification]
#[verifier::external_body]
pub struct ExSqlError(rusqlite::Error);

/// Where the accounts are kept.
pub const DB_PATH: &'static str = "souls.db";

/// The table that holds the accounts.
pub const TABLE: &'static str = "souls";

pub const CREATE_SQL: &'static str = "CREATE TABLE souls (name TEXT, password TEXT, privileged BOOLEAN)";

pub const EXISTS_SQL: &'static str = "SELECT COUNT(*) FROM souls WHERE name = ?1";

/// New accounts are always privileged.
pub const INSERT_SQL: &'static str = "INSERT INTO souls (name, password, privileged) VALUES (?1, ?2, TRUE)";

pub const PRIVILEGED_SQL: &'static str = "SELECT privileged FROM souls WHERE name = ?1";

/// Relies on `rusqlite::Connection::open`: opens (or creates) the database file.
#[verifier::external_body]
fn connection_open(path: &str) -> Result<rusqlite::Connection, rusqlite::Error> {
    rusqlite::Connection::open(path)
}

/// Relies on `rusqlite::Connection::open_in_memory`: a fresh database that lives in memory.
#[verifier::external_body]
fn connection_open_in_memory() -> Result<rusqlite::Connection, rusqlite::Error> {
    rusqlite::Connection::open_in_memory()
}

/// Relies on `rusqlite::Connection::table_exists`: whether the main database has the table.
#[verifier::external_body]
fn connection_table_exists(conn: &rusqlite::Connection, table: &str) -> Result<bool, rusqlite::Error> {
    conn.table_exists(None, table)
}

/// Relies on `rusqlite::Connection::execute`: runs one statement with text parameters.
#[verifier::external_body]
fn connection_execute(conn: &rusqlite::Connection, sql: &str, params: &[&str]) -> Result<
    usize,
    rusqlite::Error,
> {
    conn.execute(sql, rusqlite::params_from_iter(params.iter()))
}

/// Relies on `rusqlite::Connection::query_one`: the first column of the single
/// row that the query returns, read as a boolean.
#[verifier::external_body]
fn connection_query_bool(conn: &rusqlite::Connection, sql: &str, param: &str) -> Result<
    bool,
    rusqlite::Error,
> {
    conn.query_one(sql, [param], |row| row.get::<_, bool>(0))
}

/// A question or a change that the library sends to the store.
pub enum StoreRequest {
    /// Does the accounts table exist?
    TableExists,
    /// Create the accounts table.
    CreateTable,
    /// Is there an account with this name?
    UserExists(Seq<char>),
    /// Create a privileged account with this name and password.
    InsertUser(Seq<char>, Seq<char>),
    /// Is the account with this name privileged?
    IsPrivileged(Seq<char>),
}

/// What the store gave back for a request.
pub enum StoreReply {
    /// The store failed.
    Failed,
    /// The change was made.
    Done,
    /// The answer to a question.
    Answer(bool),
}

/// One request with its reply.
pub type StoreCall = (StoreRequest, StoreReply);

/// The log entry of a question answered by `r`.
pub open spec fn answered(r: Result<bool, ServerError>) -> StoreReply {
    match r {
        Ok(b) => StoreReply::Answer(b),
        Err(_) => StoreReply::Failed,
    }
}

/// The log entry of a change that came back as `r`.
pub open spec fn performed(r: Result<usize, ServerError>) -> StoreReply {
    match r {
        Ok(_) => StoreReply::Done,
        Err(_) => StoreReply::Failed,
    }
}

/// What setting up the table sends, given the log `before` and the log `after`:
/// first the existence question, then, only when the answer is no, the creation.
/// `ok` tells whether the setup succeeded.
pub open spec fn table_setup(before: Seq<StoreCall>, after: Seq<StoreCall>, ok: bool) -> bool {
    let n = before.len() as int;
    &&& after.len() > n
    &&& after.subrange(0, n) == before
    &&& after[n].0 == StoreRequest::TableExists
    &&& match after[n].1 {
        StoreReply::Answer(true) => after.len() == n + 1 && ok,
        StoreReply::Answer(false) => {
            &&& after.len() == n + 2
            &&& after[n + 1].0 == StoreRequest::CreateTable
            &&& (after[n + 1].1 == StoreReply::Done) == ok
            &&& after[n + 1].1 is Done || after[n + 1].1 is Failed
        },
        _ => after.len() == n + 1 && !ok,
    }
}

/// A handle on the account store. What it holds lives on disk: each answer
/// is whatever the database gave. `log` records every request sent through
/// this handle, with its reply.
pub struct Db {
    conn: rusqlite::Connection,
    asked: Ghost<Seq<StoreCall>>,
}

impl Db {
    /// Every request sent through this handle so far, oldest first.
    pub closed spec fn log(&self) -> Seq<StoreCall> {
        self.asked@
    }

    pub fn open() -> (r: Result<Db, ServerError>)
        ensures
            r is Err ==> r->Err_0 == ServerError::StorageFailure,
            r is Ok ==> r->Ok_0.log() == Seq::<StoreCall>::empty(),
    {
        match connection_open(DB_PATH) {
            Ok(conn) => Ok(Db { conn, asked: Ghost(Seq::empty()) }),
            Err(_) => Err(ServerError::StorageFailure),
        }
    }

    /// A store that lives in memory and starts with no table.
    pub fn open_in_memory() -> (r: Result<Db, ServerError>)
        ensures
            r is Err ==> r->Err_0 == ServerError::StorageFailure,
            r is Ok ==> r->Ok_0.log() == Seq::<StoreCall>::empty(),
    {
        match connection_open_in_memory() {
            Ok(conn) => Ok(Db { conn, asked: Ghost(Seq::empty()) }),
            Err(_) => Err(ServerError::StorageFailure),
        }
    }

    pub fn table_exists(&mut self) -> (r: Result<bool, ServerError>)
        ensures
            r is Err ==> r->Err_0 == ServerError::StorageFailure,
            final(self).log() == old(self).log().push((StoreRequest::TableExists, answered(r))),
    {
        let r = match connection_table_exists(&self.conn, TABLE) {
            Ok(b) => Ok(b),
            Err(_) => Err(ServerError::StorageFailure),
        };
        self.asked = Ghost(self.asked@.push((StoreRequest::TableExists, answered(r))));
        r
    }

    pub fn create_table(&mut self) -> (r: Result<usize, ServerError>)
        ensures
            r is Err ==> r->Err_0 == ServerError::StorageFailure,
            final(self).log() == old(self).log().push((StoreRequest::CreateTable, performed(r))),
    {
        let r = match connection_execute(&self.conn, CREATE_SQL, &[]) {
            Ok(n) => Ok(n),
            Err(_) => Err(ServerError::StorageFailure),
        };
        self.asked = Ghost(self.asked@.push((StoreRequest::CreateTable, performed(r))));
        r
    }

    /// Creates the accounts table unless it exists already.
    pub fn ensure_table(&mut self) -> (r: Result<(), ServerError>)
        ensures
            r is Err ==> r->Err_0 == ServerError::StorageFailure,
            table_setup(old(self).log(), final(self).log(), r is Ok),
    {
        let exists = self.table_exists();
        let r = match exists {
            Ok(true) => Ok(()),
            Ok(false) => match self.create_table() {
                Ok(_) => Ok(()),
                Err(e) => Err(e),
            },
            Err(e) => Err(e),
        };
        assert(self.log().subrange(0, old(self).log().len() as int) =~= old(self).log());
        r
    }

    pub fn user_exists(&mut self, username: &str) -> (r: Result<bool, ServerError>)
        ensures
            r is Err ==> r->Err_0 == ServerError::StorageFailure,
            final(self).log() == old(self).log().push(
                (StoreRequest::UserExists(username@), answered(r)),
            ),
    {
        let r = match connection_query_bool(&self.conn, EXISTS_SQL, username) {
            Ok(b) => Ok(b),
            Err(_) => Err(ServerError::StorageFailure),
        };
        self.asked = Ghost(self.asked@.push((StoreRequest::UserExists(username@), answered(r))));
        r
    }

    /// Creates a privileged account holding `password` as given.
    pub fn insert_user(&mut self, username: &str, password: &str) -> (r: Result<
        usize,
        ServerError,
    >)
        ensures
            r is Err ==> r->Err_0 == ServerError::StorageFailure,
            final(self).log() == old(self).log().push(
                (StoreRequest::InsertUser(username@, password@), performed(r)),
            ),
    {
        let r = match connection_execute(&self.conn, INSERT_SQL, &[username, password]) {
            Ok(n) => Ok(n),
            Err(_) => Err(ServerError::StorageFailure),
        };
        self.asked = Ghost(
            self.asked@.push((StoreRequest::InsertUser(username@, password@), performed(r))),
        );
        r
    }

    pub fn is_user_privileged(&mut self, username: &str) -> (r: Result<bool, ServerError>)
        ensures
            r is Err ==> r->Err_0 == ServerError::StorageFailure,
            final(self).log() == old(self).log().push(
                (StoreRequest::IsPrivileged(username@), answered(r)),
            ),
    {
        let r = match connection_query_bool(&self.conn, PRIVILEGED_SQL, username) {
            Ok(b) => Ok(b),
            Err(_) => Err(ServerError::StorageFailure),
        };
        self.asked = Ghost(
            self.asked@.push((StoreRequest::IsPrivileged(username@), answered(r))),
        );
        r
    }
}

/// Opens the store and creates the accounts table if it is missing; hands
/// back the opened store.
pub fn setup_db() -> (r: Result<Db, ServerError>)
    ensures
        r is Err ==> r->Err_0 == ServerError::StorageFailure,
        r is Ok ==> table_setup(Seq::<StoreCall>::empty(), r->Ok_0.log(), true),
{
    let mut db = Db::open()?;
    db.ensure_table()?;
    Ok(db)
}

} // verus!
