//! The structured error that every failure is reported as.

use vstd::prelude::*;

verus! {

/// A failure: a message, the server's error code when there is one, a hint
/// for the user, and the failures it was made of.
#[derive(Debug, PartialEq, Eq)]
pub struct PgError {
    pub msg: String,
    pub code: Option<String>,
    pub help: Option<String>,
    pub inner: Vec<PgError>,
}

/// A server-side error as the server reported it.
#[derive(Debug, Clone, PartialEq, Eq)]
pub struct DbError {
    pub message: String,
    pub code: String,
}

pub open spec fn config_help() -> Seq<char> {
    "The allowed syntax for `PG_URL` can be found at\nhttps://docs.rs/postgres/0.19.7/postgres/config/struct.Config.html#url"@
}

impl PgError {
    /// The error for a connection URL that could not be read, with a hint
    /// that points at the URL grammar.
    pub fn config(msg: String) -> (r: PgError)
        ensures
            r.msg == msg,
            r.code is None,
            r.help matches Some(h) && h@ == config_help(),
            r.inner@.len() == 0,
    {
        PgError {
            msg,
            code: None,
            help: Some(
                "The allowed syntax for `PG_URL` can be found at\nhttps://docs.rs/postgres/0.19.7/postgres/config/struct.Config.html#url".to_string(),
            ),
            inner: Vec::new(),
        }
    }

    /// An error with a message only.
    pub fn new(msg: String) -> (r: PgError)
        ensures
            r.msg == msg,
            r.code is None,
            r.help is None,
            r.inner@.len() == 0,
    {
        PgError { msg, code: None, help: None, inner: Vec::new() }
    }

    /// The error for a failed database call: the server's message and code
    /// when the server reported the failure, else the client's own message.
    pub fn from_database(message: String, db: Option<DbError>) -> (r: PgError)
        ensures
            match db {
                Some(d) => r.msg == d.message && r.code == Some(d.code),
                None => r.msg == message && r.code is None,
            },
            r.help is None,
            r.inner@.len() == 0,
    {
        match db {
            Some(d) => PgError { msg: d.message, code: Some(d.code), help: None, inner: Vec::new() },
            None => PgError::new(message),
        }
    }
}

} // verus!
