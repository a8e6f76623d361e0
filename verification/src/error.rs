//! Why the database could not do what it was asked.
use vstd::prelude::*;
use vstd::string::StringExecFns;

verus! {

/// The error of the `sqlx` crate.
#[verifier::external_type_specification]
#[verifier::external_body]
pub struct ExDatabaseError(sqlx::Error);

/// Why a repository failed.
#[derive(Debug, PartialEq, Eq)]
pub enum RepositoryError {
    /// What was asked for is not there.
    NotFound(String),
    /// What was to be written is there already.
    Conflict(String),
    /// The database failed.
    Database(String),
}

/// What the database reported.
#[derive(Debug, PartialEq, Eq)]
pub enum DatabaseFailure {
    /// A row was asked for, and there is none.
    RowNotFound(String),
    /// Anything else.
    Other(String),
}

/// Whether a database error says that there is no row.
pub uninterp spec fn says_row_not_found(error: sqlx::Error) -> bool;

/// The text that `sqlx::Error::RowNotFound` displays.
pub open spec fn row_not_found_text() -> Seq<char> {
    "no rows returned by a query that expected to return at least one row"@
}

/// Tells `sqlx::Error::RowNotFound` from the other variants, and takes the text
/// that the error displays. Of the text of another error nothing is promised: it
/// can hold what the database or the operating system says.
#[verifier::external_body]
fn database_failure(error: sqlx::Error) -> (failure: DatabaseFailure)
    ensures
        failure is RowNotFound == says_row_not_found(error),
        failure is RowNotFound ==> failure->RowNotFound_0@ == row_not_found_text(),
{
    match error {
        sqlx::Error::RowNotFound => DatabaseFailure::RowNotFound(error.to_string()),
        _ => DatabaseFailure::Other(error.to_string()),
    }
}

/// The message of an error, with what kind of error it is in front.
pub open spec fn error_message(error: RepositoryError) -> Seq<char> {
    match error {
        RepositoryError::NotFound(message) => "repository record not found: "@ + message@,
        RepositoryError::Conflict(message) => "repository conflict: "@ + message@,
        RepositoryError::Database(message) => "repository database error: "@ + message@,
    }
}

impl RepositoryError {
    /// The error for what the database reported.
    pub fn from_failure(failure: DatabaseFailure) -> (error: RepositoryError)
        ensures
            error == match failure {
                DatabaseFailure::RowNotFound(message) => RepositoryError::NotFound(message),
                DatabaseFailure::Other(message) => RepositoryError::Database(message),
            },
    {
        match failure {
            DatabaseFailure::RowNotFound(message) => RepositoryError::NotFound(message),
            DatabaseFailure::Other(message) => RepositoryError::Database(message),
        }
    }

    /// The message of the error, with what kind of error it is in front.
    pub fn message(&self) -> (text: String)
        ensures
            text@ == error_message(*self),
    {
        let mut text: String = String::new();
        match self {
            RepositoryError::NotFound(message) => {
                text.append("repository record not found: ");
                text.append(message.as_str());
            },
            RepositoryError::Conflict(message) => {
                text.append("repository conflict: ");
                text.append(message.as_str());
            },
            RepositoryError::Database(message) => {
                text.append("repository database error: ");
                text.append(message.as_str());
            },
        }
        text
    }
}

impl From<sqlx::Error> for RepositoryError {
    /// A row that is not there is `NotFound`; everything else is `Database`.
    fn from(error: sqlx::Error) -> (result: RepositoryError)
        ensures
            result is NotFound == says_row_not_found(error),
            result is NotFound ==> result->NotFound_0@ == row_not_found_text(),
            result is Database == !says_row_not_found(error),
    {
        RepositoryError::from_failure(database_failure(error))
    }
}

/// No spec function gives the error that `from` makes: it holds a text of which nothing
/// is stated. What is known of it stands with `from`.
impl vstd::std_specs::convert::FromSpecImpl<sqlx::Error> for RepositoryError {
    open spec fn obeys_from_spec() -> bool {
        false
    }

    open spec fn from_spec(error: sqlx::Error) -> RepositoryError {
        arbitrary()
    }
}

/// The message of an error tells its kind and ends in its own message.
pub proof fn lemma_message_tells_the_kind(error: RepositoryError)
    ensures
        error is NotFound ==> error_message(error) == "repository record not found: "@
            + error->NotFound_0@,
        error is Conflict ==> error_message(error) == "repository conflict: "@ + error->Conflict_0@,
        error is Database ==> error_message(error) == "repository database error: "@
            + error->Database_0@,
{
}

} // verus!
