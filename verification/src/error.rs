//! The errors of the library, and the text each one is shown with.

use vstd::prelude::*;
use vstd::string::StringExecFns;
use crate::calendar::Date;
use crate::calendar::DateTextError;
use crate::calendar::has_date_prefix;
use crate::calendar::iso_date_of;
use crate::calendar::parse_iso_date;

verus! {

/// What can go wrong between a provider and the library.
#[derive(Debug)]
pub enum GlowmarktDataProviderError {
    /// A request failed on the way, or was turned down.
    GlowmarktApiError(String),
    /// A date could not be put in the form the provider asks for.
    TimeComponentRangeError(String),
    /// The account has no resource of the kind asked for.
    MissingResource(String),
}

/// What can go wrong in a store.
#[derive(Debug)]
pub enum RepositoryError {
    /// The database turned a statement down.
    DieselError(String),
    /// The lock on the connection is poisoned.
    SqliteConnectionMutexPoisonedError(),
    /// A free-form query failed.
    SqliteQueryExecutionError(String),
    /// No row has the key asked for.
    NotFound,
}

/// What can go wrong in the application as a whole.
#[derive(Debug)]
pub enum AppError {
    GlowmarktApiError(GlowmarktDataProviderError),
    CustomError(String),
    MutexPoisonedError { name: String },
}

/// What a command can answer in place of a result.
#[derive(Debug)]
pub enum ApiError {
    Custom(String),
    DatabaseError(String),
    ChronoParseError(chrono::ParseError),
    RepositoryError(RepositoryError),
    GlowmarktApiError(GlowmarktDataProviderError),
    MutexPoisonedError { name: String },
}

/// `to_string` of a `chrono::ParseError`. Trusted to return; nothing is
/// claimed of the text.
#[verifier::external_body]
fn parse_error_text(error: &chrono::ParseError) -> (text: String) {
    error.to_string()
}

/// `lead` followed by `rest`.
fn joined(lead: &str, rest: &str) -> (text: String)
    ensures
        text@ == lead@ + rest@,
{
    let mut text = String::from_str(lead);
    text.append(rest);
    text
}

/// `lead`, `name` and `tail` in a row.
fn wrapped(lead: &str, name: &str, tail: &str) -> (text: String)
    ensures
        text@ == lead@ + name@ + tail@,
{
    let mut text = String::from_str(lead);
    text.append(name);
    text.append(tail);
    text
}

impl GlowmarktDataProviderError {
    /// Whether trying again may help. A missing resource and a date the
    /// provider cannot take stay as they are however often one asks.
    pub open spec fn retryable(&self) -> bool {
        self is GlowmarktApiError
    }

    /// Whether trying again may help.
    pub fn is_retryable(&self) -> (retryable: bool)
        ensures
            retryable == self.retryable(),
    {
        match self {
            GlowmarktDataProviderError::GlowmarktApiError(_) => true,
            _ => false,
        }
    }

    /// The text the error is shown with.
    pub open spec fn text(&self) -> Seq<char> {
        match self {
            GlowmarktDataProviderError::GlowmarktApiError(detail) => {
                "Failed request to Glowmarkt API: "@ + detail@
            },
            GlowmarktDataProviderError::TimeComponentRangeError(detail) => {
                "Time component range error: "@ + detail@
            },
            GlowmarktDataProviderError::MissingResource(detail) => "Missing resource: "@ + detail@,
        }
    }

    /// The text the error is shown with.
    pub fn message(&self) -> (text: String)
        ensures
            text@ == self.text(),
    {
        match self {
            GlowmarktDataProviderError::GlowmarktApiError(detail) => joined(
                "Failed request to Glowmarkt API: ",
                detail.as_str(),
            ),
            GlowmarktDataProviderError::TimeComponentRangeError(detail) => joined(
                "Time component range error: ",
                detail.as_str(),
            ),
            GlowmarktDataProviderError::MissingResource(detail) => joined(
                "Missing resource: ",
                detail.as_str(),
            ),
        }
    }
}

impl RepositoryError {
    /// The text the error is shown with.
    pub open spec fn text(&self) -> Seq<char> {
        match self {
            RepositoryError::DieselError(detail) => "Database error: "@ + detail@,
            RepositoryError::SqliteConnectionMutexPoisonedError() => {
                "Mutex guarding SQLite connection is poisoned"@
            },
            RepositoryError::SqliteQueryExecutionError(detail) => {
                "SQLite query execution error: "@ + detail@
            },
            RepositoryError::NotFound => "Database error: Record not found"@,
        }
    }

    /// The text the error is shown with.
    pub fn message(&self) -> (text: String)
        ensures
            text@ == self.text(),
    {
        match self {
            RepositoryError::DieselError(detail) => joined("Database error: ", detail.as_str()),
            RepositoryError::SqliteConnectionMutexPoisonedError() => String::from_str(
                "Mutex guarding SQLite connection is poisoned",
            ),
            RepositoryError::SqliteQueryExecutionError(detail) => joined(
                "SQLite query execution error: ",
                detail.as_str(),
            ),
            RepositoryError::NotFound => String::from_str("Database error: Record not found"),
        }
    }
}

impl AppError {
    /// The text the error is shown with.
    pub open spec fn text(&self) -> Seq<char> {
        match self {
            AppError::GlowmarktApiError(cause) => {
                "Failed interaction with Glowmarkt API: "@ + cause.text()
            },
            AppError::CustomError(detail) => "Error: "@ + detail@,
            AppError::MutexPoisonedError { name } => "Mutex '"@ + name@ + "' is poisoned"@,
        }
    }

    /// The text the error is shown with.
    pub fn message(&self) -> (text: String)
        ensures
            text@ == self.text(),
    {
        match self {
            AppError::GlowmarktApiError(cause) => {
                let detail = cause.message();
                joined("Failed interaction with Glowmarkt API: ", detail.as_str())
            },
            AppError::CustomError(detail) => joined("Error: ", detail.as_str()),
            AppError::MutexPoisonedError { name } => wrapped(
                "Mutex '",
                name.as_str(),
                "' is poisoned",
            ),
        }
    }
}

impl ApiError {
    /// The text the error is shown with, as far as it is the library's own
    /// wording: what follows the colon of a date error is `chrono`'s.
    pub open spec fn text_starts(&self) -> Seq<char> {
        match self {
            ApiError::Custom(detail) => "Error: "@ + detail@,
            ApiError::DatabaseError(detail) => "Database error: "@ + detail@,
            ApiError::ChronoParseError(_) => "Date parse error: "@,
            ApiError::RepositoryError(cause) => "Repository error: "@ + cause.text(),
            ApiError::GlowmarktApiError(cause) => {
                "Failed interaction with Glowmarkt API: "@ + cause.text()
            },
            ApiError::MutexPoisonedError { name } => "Mutex '"@ + name@ + "' is poisoned"@,
        }
    }

    /// The text the error is shown with.
    pub fn message(&self) -> (text: String)
        ensures
            self is ChronoParseError ==> self.text_starts().is_prefix_of(text@),
            !(self is ChronoParseError) ==> text@ == self.text_starts(),
    {
        match self {
            ApiError::Custom(detail) => joined("Error: ", detail.as_str()),
            ApiError::DatabaseError(detail) => joined("Database error: ", detail.as_str()),
            ApiError::ChronoParseError(cause) => {
                let detail = parse_error_text(cause);
                joined("Date parse error: ", detail.as_str())
            },
            ApiError::RepositoryError(cause) => {
                let detail = cause.message();
                joined("Repository error: ", detail.as_str())
            },
            ApiError::GlowmarktApiError(cause) => {
                let detail = cause.message();
                joined("Failed interaction with Glowmarkt API: ", detail.as_str())
            },
            ApiError::MutexPoisonedError { name } => wrapped(
                "Mutex '",
                name.as_str(),
                "' is poisoned",
            ),
        }
    }
}

/// What is said of a string that is too short to start with a date.
pub open spec fn no_date_text() -> Seq<char> {
    "Date is shorter than YYYY-MM-DD"@
}

/// Reads the date at the start of an ISO 8601 date or date-time string, as
/// the user interface sends it. Only the first ten bytes count.
pub fn parse_iso_string_to_naive_date(iso_date_str: &str) -> (parsed: Result<Date, ApiError>)
    ensures
        parsed matches Ok(date) ==> iso_date_of(iso_date_str@) == Some(date.days as int)
            && date.valid(),
        parsed is Ok <==> iso_date_of(iso_date_str@) is Some,
        parsed matches Err(error) ==> {
            if has_date_prefix(iso_date_str@) {
                error is ChronoParseError
            } else {
                error matches ApiError::Custom(detail) && detail@ == no_date_text()
            }
        },
{
    match parse_iso_date(iso_date_str) {
        Ok(date) => Ok(date),
        Err(DateTextError::NoDatePrefix) => Err(
            ApiError::Custom(String::from_str("Date is shorter than YYYY-MM-DD")),
        ),
        Err(DateTextError::Rejected(cause)) => Err(ApiError::ChronoParseError(cause)),
    }
}

} // verus!
