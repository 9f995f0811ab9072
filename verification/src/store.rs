//! The price store's verified half.
//!
//! The relational store itself is an outside collaborator; a run needs
//! exactly four operations against it. This module builds the connection
//! parameters from configuration and interprets each operation's raw outcome
//! (rows or a backend message) into the pipeline's vocabulary. The driver
//! that owns the connection runs the queries.

use vstd::prelude::*;
use vstd::string::StringExecFns;
use crate::config::{ConfigParser, ConfigValue, spec_section, spec_get_str, spec_get_str_or,
    StrLookup};
use crate::decimal::Dec;
use crate::errors::AppError;

verus! {

/// How the storage collaborator should connect.
#[derive(Debug)]
pub struct ConnSpec {
    pub user: String,
    pub password: Option<String>,
    pub database: String,
    pub host: String,
}

/// What the "database" section determines about the connection.
pub enum ConnOut {
    /// The required `user` read failed, with the configuration message.
    BadUser(Seq<char>),
    Ready {
        user: Seq<char>,
        password: Option<Seq<char>>,
        database: Seq<char>,
        host: Seq<char>,
    },
}

pub open spec fn spec_conn_config(doc: ConfigValue) -> ConnOut {
    let conf = spec_section(doc, "database"@);
    match spec_get_str(conf, "user"@, "database"@) {
        StrLookup::Fail(m) => ConnOut::BadUser(m),
        StrLookup::Found(user) => ConnOut::Ready {
            user,
            password: match spec_get_str(conf, "password"@, "database"@) {
                StrLookup::Found(p) => Some(p),
                StrLookup::Fail(_) => None,
            },
            database: spec_get_str_or(conf, "database"@, "database"@, "management"@),
            host: spec_get_str_or(conf, "host"@, "database"@, "localhost"@),
        },
    }
}

pub open spec fn matches_conn_config(r: Result<ConnSpec, AppError>, o: ConnOut) -> bool {
    match o {
        ConnOut::BadUser(m) => r matches Err(e) && e matches AppError::Config(mm) && mm@ == m,
        ConnOut::Ready { user, password, database, host } => r matches Ok(c) && c.user@ == user
            && c.database@ == database && c.host@ == host && (match (c.password, password) {
            (Option::Some(p), Option::Some(q)) => p@ == q,
            (Option::None, Option::None) => true,
            _ => false,
        }),
    }
}

impl ConnSpec {
    /// Reads the connection parameters: required `user`, optional `password`,
    /// `database` (default "management") and `host` (default "localhost").
    pub fn from_config(conf: &ConfigParser) -> (r: Result<ConnSpec, AppError>)
        ensures
            matches_conn_config(r, spec_conn_config(conf.0)),
    {
        let parser = conf.section("database");
        let user = match parser.get_str("user") {
            Ok(u) => u,
            Err(e) => return Err(e),
        };
        let password = parser.get_str_or_none("password");
        let database = parser.get_str_or("database", "management");
        let host = parser.get_str_or("host", "localhost");
        Ok(ConnSpec { user, password, database, host })
    }
}

/// Interprets the account lookup: one row carries the identity, no row means
/// the account does not exist, and a backend failure keeps its message.
pub fn account_id_from_lookup(row: Result<Option<i32>, String>) -> (r: Result<i32, AppError>)
    ensures
        row matches Ok(o) ==> (match o {
            Option::Some(id) => r == Ok::<i32, AppError>(id),
            Option::None => r matches Err(e) && e matches AppError::Db(m) && m@
                == "account not found"@,
        }),
        row matches Err(msg) ==> (r matches Err(e) && e matches AppError::Db(m) && m@ == msg@),
{
    match row {
        Ok(Some(id)) => Ok(id),
        Ok(None) => Err(AppError::Db("account not found".to_owned())),
        Err(m) => Err(AppError::Db(m)),
    }
}

/// Interprets the item lookup, as [`account_id_from_lookup`] does.
pub fn item_id_from_lookup(row: Result<Option<i32>, String>) -> (r: Result<i32, AppError>)
    ensures
        row matches Ok(o) ==> (match o {
            Option::Some(id) => r == Ok::<i32, AppError>(id),
            Option::None => r matches Err(e) && e matches AppError::Db(m) && m@
                == "item not found"@,
        }),
        row matches Err(msg) ==> (r matches Err(e) && e matches AppError::Db(m) && m@ == msg@),
{
    match row {
        Ok(Some(id)) => Ok(id),
        Ok(None) => Err(AppError::Db("item not found".to_owned())),
        Err(m) => Err(AppError::Db(m)),
    }
}

/// Interprets the last-price query: absence of a prior observation is a
/// normal outcome, never an error.
pub fn last_price_from_lookup(row: Result<Option<Dec>, String>) -> (r: Result<
    Option<Dec>,
    AppError,
>)
    ensures
        row matches Ok(o) ==> r == Ok::<Option<Dec>, AppError>(o),
        row matches Err(msg) ==> (r matches Err(e) && e matches AppError::Db(m) && m@ == msg@),
{
    match row {
        Ok(o) => Ok(o),
        Err(m) => Err(AppError::Db(m)),
    }
}

/// Interprets the observation write: any backend failure keeps its message.
pub fn insert_outcome(row: Result<(), String>) -> (r: Result<(), AppError>)
    ensures
        row is Ok ==> r is Ok,
        row matches Err(msg) ==> (r matches Err(e) && e matches AppError::Db(m) && m@ == msg@),
{
    match row {
        Ok(_) => Ok(()),
        Err(m) => Err(AppError::Db(m)),
    }
}

} // verus!
