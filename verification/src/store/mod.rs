//! The repository: join rows, their assembly into aggregates, and the
//! decisions of the read operations.

pub mod assemble;
pub mod error;
pub mod fetch;
pub mod laws;
pub mod models;
pub mod query;
pub mod remove;
pub mod sql;

use vstd::prelude::*;
use vstd::string::StringExecFns;
use crate::config::StoreOptions;
use crate::store::error::{StoreError, StoreErrorKind};
use crate::text::joined;

verus! {

/// The message for a failed connection; the cause follows.
pub const CONNECT_FAILED: &'static str = "Failed to connect to database: ";

/// The message for a failed migration; the cause follows.
pub const MIGRATION_FAILED: &'static str = "Migration failed: ";

/// The connection string of a store: `postgres://`, the user name, a colon,
/// the password, an at sign, the host, a slash and the name of the database.
pub open spec fn spec_dsn(opts: StoreOptions) -> Seq<char> {
    "postgres://"@ + opts.username@ + ":"@ + opts.password@ + "@"@ + opts.host@ + "/"@
        + opts.database@
}

/// The connection string of a store. Nothing is checked or escaped: the four
/// values are put together as they are.
pub fn dsn(opts: &StoreOptions) -> (url: String)
    ensures
        url@ == spec_dsn(*opts),
{
    let mut url = String::from_str("postgres://");
    url.append(opts.username.as_str());
    url.append(":");
    url.append(opts.password.as_str());
    url.append("@");
    url.append(opts.host.as_str());
    url.append("/");
    url.append(opts.database.as_str());
    url
}

/// The failure to report when the store could not be reached: a connection
/// failure that carries the cause.
pub fn connection_failure(cause: &str) -> (error: StoreError)
    ensures
        error.spec_kind() == StoreErrorKind::Connection,
        error.spec_message() == CONNECT_FAILED@ + cause@,
{
    let message = joined(CONNECT_FAILED, cause);
    StoreError::with_kind(StoreErrorKind::Connection, message.as_str())
}

/// The failure to report when a step of the schema migration failed: a
/// migration failure that carries the cause.
pub fn migration_failure(cause: &str) -> (error: StoreError)
    ensures
        error.spec_kind() == StoreErrorKind::Migration,
        error.spec_message() == MIGRATION_FAILED@ + cause@,
{
    let message = joined(MIGRATION_FAILED, cause);
    StoreError::with_kind(StoreErrorKind::Migration, message.as_str())
}

} // verus!
