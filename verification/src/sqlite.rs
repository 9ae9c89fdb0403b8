//! Pool provider: where the database lives and how a connection to it is
//! described.
use std::str::FromStr;
use vstd::prelude::*;

verus! {

#[verifier::external_type_specification]
#[verifier::external_body]
pub struct ExSqliteConnectOptions(sqlx::sqlite::SqliteConnectOptions);

#[verifier::external_type_specification]
#[verifier::external_body]
pub struct ExSqlxError(sqlx::Error);

/// Whether sqlx reads `url` as the description of a SQLite connection.
pub uninterp spec fn connect_url_accepted(url: Seq<char>) -> bool;

/// Whether `options` were read from `url`. One URL can be read into more
/// than one description: each in-memory database gets a name of its own.
pub uninterp spec fn read_from(options: sqlx::sqlite::SqliteConnectOptions, url: Seq<char>) -> bool;

/// `options` with the request to create a missing database file set to
/// `create`, and nothing else changed.
pub uninterp spec fn with_create_flag(
    options: sqlx::sqlite::SqliteConnectOptions,
    create: bool,
) -> sqlx::sqlite::SqliteConnectOptions;

/// Whether `options` carry the request to create a missing database file.
/// It is a request, not a promise: a connection that is also marked
/// read-only creates nothing.
pub uninterp spec fn creates_if_missing(options: sqlx::sqlite::SqliteConnectOptions) -> bool;

/// What `error` says when it is displayed.
pub uninterp spec fn error_text(error: sqlx::Error) -> Seq<char>;

/// The connection URL of the database kept in the file `filename`.
pub open spec fn sqlite_url_of(filename: Seq<char>) -> Seq<char> {
    "sqlite://"@ + filename
}

/// A database location that cannot be turned into a connection description.
#[derive(Clone, Debug, PartialEq, Eq)]
pub struct ConfigError {
    /// The connection URL that was refused.
    pub url: String,
    /// Why it was refused, in sqlx's words.
    pub reason: String,
}

/// A handle on the connection pool of one SQLite database. Handles are cheap
/// to duplicate and every duplicate draws on the same pool.
///
/// The pool itself is sqlx's; nothing here looks inside it.
#[verifier::external_body]
pub struct SimpleSqlite {
    pub pool: sqlx::SqlitePool,
}

/// Calls `SqliteConnectOptions::from_str`. Whether the URL is accepted depends
/// on its text alone: the scheme is stripped, the file name is percent-decoded
/// and each query parameter is checked against the ones sqlx knows. Accepted
/// options are read from that URL; which ones they are is left open, since
/// sqlx numbers in-memory databases as it goes.
#[verifier::external_body]
fn parse_connect_options(url: &str) -> (parsed: Result<
    sqlx::sqlite::SqliteConnectOptions,
    sqlx::Error,
>)
    ensures
        parsed.is_ok() == connect_url_accepted(url@),
        parsed matches Ok(options) ==> read_from(options, url@),
{
    sqlx::sqlite::SqliteConnectOptions::from_str(url)
}

/// Calls `SqliteConnectOptions::create_if_missing`, which stores `create` as
/// the request to create a missing database file and leaves the rest of the
/// options alone.
#[verifier::external_body]
fn set_create_if_missing(
    options: sqlx::sqlite::SqliteConnectOptions,
    create: bool,
) -> (changed: sqlx::sqlite::SqliteConnectOptions)
    ensures
        changed == with_create_flag(options, create),
        creates_if_missing(changed) == create,
{
    options.create_if_missing(create)
}

/// Renders a `sqlx::Error` through its `Display` impl, which writes a text
/// that depends on the error alone.
#[verifier::external_body]
fn describe_error(error: &sqlx::Error) -> (text: String)
    ensures
        text@ == error_text(*error),
{
    error.to_string()
}

/// Builds the connection URL of the database kept in the file `filename`.
pub fn sqlite_url(filename: &str) -> (url: String)
    ensures
        url@ == sqlite_url_of(filename@),
{
    "sqlite://".to_owned().concat(filename)
}

/// Whether `options` describe the database at `url` as a server wants it:
/// read from that URL, with the request to create a missing file added.
pub open spec fn describes(options: sqlx::sqlite::SqliteConnectOptions, url: Seq<char>) -> bool {
    exists|given: sqlx::sqlite::SqliteConnectOptions| #[trigger]
        read_from(given, url) && options == with_create_flag(given, true)
}

/// Turns the outcome of parsing `url` into the options the pool is opened
/// with: accepted options are kept and additionally ask for a missing file
/// to be created, a refusal is reported with the URL and with what sqlx said.
pub fn finish_connect_options(
    url: String,
    parsed: Result<sqlx::sqlite::SqliteConnectOptions, sqlx::Error>,
) -> (outcome: Result<sqlx::sqlite::SqliteConnectOptions, ConfigError>)
    ensures
        outcome.is_ok() == parsed.is_ok(),
        parsed matches Ok(given) ==> outcome matches Ok(options) && options == with_create_flag(
            given,
            true,
        ) && creates_if_missing(options),
        parsed matches Err(error) ==> outcome matches Err(e) && e.url == url && e.reason@
            == error_text(error),
{
    match parsed {
        Ok(options) => Ok(set_create_if_missing(options, true)),
        Err(error) => Err(ConfigError { url, reason: describe_error(&error) }),
    }
}

/// Describes the connection to the database in `filename`, for a file name
/// that makes a URL sqlx accepts: the options are the ones read from
/// `sqlite://` followed by the name, with the request to create a missing
/// file added.
///
/// A name that makes no such URL is a mistake in the configuration that a
/// server cannot start with; it is not admitted here.
pub fn accepted_connect_options(filename: &str) -> (options: sqlx::sqlite::SqliteConnectOptions)
    requires
        connect_url_accepted(sqlite_url_of(filename@)),
    ensures
        describes(options, sqlite_url_of(filename@)),
        creates_if_missing(options),
{
    let url = sqlite_url(filename);
    let parsed = parse_connect_options(url.as_str());
    match finish_connect_options(url, parsed) {
        Ok(options) => options,
        Err(_) => vstd::pervasive::unreached(),
    }
}

impl SimpleSqlite {
    /// Tests whether `filename` makes a URL sqlx accepts and, if it does,
    /// describes the connection as [`accepted_connect_options`] does.
    /// Otherwise reports the URL that was refused and what sqlx said.
    pub fn connect_options(filename: &str) -> (outcome: Result<
        sqlx::sqlite::SqliteConnectOptions,
        ConfigError,
    >)
        ensures
            outcome.is_ok() == connect_url_accepted(sqlite_url_of(filename@)),
            outcome matches Ok(options) ==> describes(options, sqlite_url_of(filename@))
                && creates_if_missing(options),
            outcome matches Err(e) ==> e.url@ == sqlite_url_of(filename@),
    {
        let url = sqlite_url(filename);
        let parsed = parse_connect_options(url.as_str());
        if parsed.is_ok() {
            Ok(accepted_connect_options(filename))
        } else {
            finish_connect_options(url, parsed)
        }
    }

    /// Another handle on the same pool (sqlx's `Pool::clone`, which shares the
    /// pool behind a reference count).
    #[verifier::external_body]
    pub fn pool(&self) -> (handle: SimpleSqlite)
        ensures
            handle == *self,
    {
        SimpleSqlite { pool: self.pool.clone() }
    }
}

} // verus!
