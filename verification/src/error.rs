//! The ways in which an operation of the dialect fails.

use vstd::prelude::*;

verus! {

/// A failure of one operation. Nothing is retried: the failure goes to the
/// caller as it is.
#[derive(Clone, Debug, PartialEq, Eq)]
pub enum DialectError {
    /// No connection could be established, or the server refused the
    /// credentials.
    Connection { message: String },
    /// The server rejected or failed the statement, or answered in a shape
    /// that the statement does not have.
    QueryExecution { sql: String, message: String },
    /// A statement that must yield a value yielded no row.
    EmptyResult { sql: String },
}

/// What `DialectError::describe` says of a statement without rows.
pub const NO_VALUE: &'static str = "No value found";

/// What a `QueryExecution` failure says of a row whose number of values is
/// not the number of columns.
pub const ROW_SHAPE: &'static str = "a row does not hold one value per column";

/// What a `QueryExecution` failure says of a row that comes after
/// `usize::MAX` rows.
pub const ROW_LIMIT: &'static str = "the result holds more rows than can be counted";

impl DialectError {
    /// The text that describes the failure.
    pub open spec fn describe_spec(self) -> Seq<char> {
        match self {
            DialectError::Connection { message } => message@,
            DialectError::QueryExecution { sql, message } => message@ + ": "@ + sql@,
            DialectError::EmptyResult { sql } => NO_VALUE@ + ": "@ + sql@,
        }
    }

    /// The text that describes the failure: the message, followed by the
    /// statement where there is one.
    pub fn describe(&self) -> (s: String)
        ensures
            s@ == self.describe_spec(),
    {
        match self {
            DialectError::Connection { message } => message.clone(),
            DialectError::QueryExecution { sql, message } => {
                let mut s = message.clone();
                s.append(": ");
                s.append(sql.as_str());
                s
            },
            DialectError::EmptyResult { sql } => {
                let mut s = String::from_str(NO_VALUE);
                s.append(": ");
                s.append(sql.as_str());
                s
            },
        }
    }
}

} // verus!
