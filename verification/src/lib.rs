//! The core of a MySQL dialect for a client that queries databases through
//! one interface and gets every result as columns of a few canonical types.
//!
//! The crate decides and computes; it opens no connection and runs no
//! statement. An operation is carried out by sending the statement that
//! [`sql`] writes and handing what the server answered to the function that
//! reads it.
//!
//! - [`logical`]: the native column types and the logical type of each.
//! - [`value`]: the cells of a row and their conversion to array entries.
//! - [`batch`]: the transposition of rows into columns and the assembly of
//!   a batch.
//! - [`catalog`]: tables, and the grouping of columns by table.
//! - [`sql`]: the text of the statements.
//! - [`connection`]: the description of a server, and single counts.
//! - [`error`]: the failures.
//! - [`text`]: operations on strings that the others share.

pub mod batch;
pub mod catalog;
pub mod connection;
pub mod error;
pub mod logical;
pub mod sql;
pub mod text;
pub mod value;
