//! The SQL text of every statement the dialect sends.
//!
//! Table names, schema names and conditions are placed into the text as
//! they are given: nothing is escaped or checked, so they must come from a
//! caller that is trusted to write SQL.

use vstd::prelude::*;
use crate::text::{find_char, lemma_position, lemma_position_unique, position};

verus! {

/// The statement that lists every table with its schema, type, kind and
/// size in megabytes.
pub open spec fn table_list_sql_spec() -> Seq<char> {
    "SELECT TABLE_SCHEMA, TABLE_NAME, TABLE_TYPE, IF(TABLE_TYPE='BASE TABLE','table','view') AS TYPE, CAST(ROUND(((data_length + IFNULL(index_length, 0)) / 1024 / 1024)) AS UNSIGNED) AS size FROM information_schema.tables"@
}

/// The statement that lists every column, ordered by schema, table and
/// position in the table.
pub open spec fn column_list_sql_spec() -> Seq<char> {
    "SELECT table_schema, table_name, column_name, column_type FROM information_schema.columns ORDER BY table_schema, table_name, ordinal_position"@
}

/// The statement that lists the tables of one schema.
pub open spec fn show_schema_sql_spec(schema: Seq<char>) -> Seq<char> {
    "SELECT * FROM information_schema.tables WHERE TABLE_SCHEMA='"@ + schema
        + "' ORDER BY TABLE_TYPE, TABLE_NAME"@
}

/// The statement that lists the columns of table `tbl` in schema `db`.
pub open spec fn column_listing_sql_spec(db: Seq<char>, tbl: Seq<char>) -> Seq<char> {
    "SELECT * FROM information_schema.columns WHERE table_schema='"@ + db
        + "' AND table_name='"@ + tbl + "'"@
}

/// The statement that counts the rows of `table`, all of them where `cond`
/// is empty and else those that meet `cond`.
pub open spec fn table_row_count_sql_spec(table: Seq<char>, cond: Seq<char>) -> Seq<char> {
    if cond.len() == 0 {
        "SELECT COUNT(*) FROM "@ + table
    } else {
        "SELECT COUNT(*) FROM "@ + table + " WHERE "@ + cond
    }
}

/// The schema and table that a column listing filters on.
///
/// A schema that is given is the schema of the listing, and `table` is
/// then taken whole. With no schema given and a `.` in `table`, the text
/// before the first `.` is the schema and the text after it the table.
/// With no schema given and no `.` in `table`, the schema is empty.
pub open spec fn column_target(schema: Option<Seq<char>>, table: Seq<char>) -> (
    Seq<char>,
    Seq<char>,
) {
    match schema {
        Some(given) => (given, table),
        None => if table.contains('.') {
            (table.take(position(table, '.')), table.skip(position(table, '.') + 1))
        } else {
            (Seq::empty(), table)
        },
    }
}

/// The statement that `show_column_sql` produces.
pub open spec fn show_column_sql_spec(schema: Option<Seq<char>>, table: Seq<char>) -> Seq<char> {
    column_listing_sql_spec(column_target(schema, table).0, column_target(schema, table).1)
}

/// The characters of an optional string slice.
pub open spec fn str_option_view(s: Option<&str>) -> Option<Seq<char>> {
    match s {
        Some(s) => Some(s@),
        None => None,
    }
}

/// The statement that lists every table.
pub fn table_list_sql() -> (sql: String)
    ensures
        sql@ == table_list_sql_spec(),
{
    String::from_str(
        "SELECT TABLE_SCHEMA, TABLE_NAME, TABLE_TYPE, IF(TABLE_TYPE='BASE TABLE','table','view') AS TYPE, CAST(ROUND(((data_length + IFNULL(index_length, 0)) / 1024 / 1024)) AS UNSIGNED) AS size FROM information_schema.tables",
    )
}

/// The statement that lists every column.
pub fn column_list_sql() -> (sql: String)
    ensures
        sql@ == column_list_sql_spec(),
{
    String::from_str(
        "SELECT table_schema, table_name, column_name, column_type FROM information_schema.columns ORDER BY table_schema, table_name, ordinal_position",
    )
}

/// The statement that lists the tables of `schema`, ordered by type and
/// name.
pub fn show_schema_sql(schema: &str) -> (sql: String)
    ensures
        sql@ == show_schema_sql_spec(schema@),
{
    let mut sql = String::from_str("SELECT * FROM information_schema.tables WHERE TABLE_SCHEMA='");
    sql.append(schema);
    sql.append("' ORDER BY TABLE_TYPE, TABLE_NAME");
    sql
}

/// The statement that lists the columns of table `tbl` in schema `db`.
pub fn column_listing_sql(db: &str, tbl: &str) -> (sql: String)
    ensures
        sql@ == column_listing_sql_spec(db@, tbl@),
{
    let mut sql = String::from_str(
        "SELECT * FROM information_schema.columns WHERE table_schema='",
    );
    sql.append(db);
    sql.append("' AND table_name='");
    sql.append(tbl);
    sql.append("'");
    sql
}

/// The column listing of `table` in the schema with the empty name.
fn listing_under_empty_schema(table: &str) -> (sql: String)
    ensures
        sql@ == column_listing_sql_spec(Seq::empty(), table@),
{
    proof {
        reveal_strlit("");
    }
    column_listing_sql("", table)
}

/// The statement that lists the columns of `table`; see `column_target`
/// for how `schema` and `table` decide what is listed.
pub fn show_column_sql(schema: Option<&str>, table: &str) -> (sql: String)
    ensures
        sql@ == show_column_sql_spec(str_option_view(schema), table@),
{
    match schema {
        Some(given) => column_listing_sql(given, table),
        None => match find_char(table, '.') {
            Some(i) => {
                proof {
                    lemma_position(table@, '.');
                }
                let n = table.unicode_len();
                let db = table.substring_char(0, i);
                let tbl = table.substring_char(i + 1, n);
                column_listing_sql(db, tbl)
            },
            None => listing_under_empty_schema(table),
        },
    }
}

/// The statement that counts the rows of `table` that meet `cond`, or all
/// rows where `cond` is empty.
pub fn table_row_count_sql(table: &str, cond: &str) -> (sql: String)
    ensures
        sql@ == table_row_count_sql_spec(table@, cond@),
{
    let mut sql = String::from_str("SELECT COUNT(*) FROM ");
    sql.append(table);
    if !cond.is_empty() {
        sql.append(" WHERE ");
        sql.append(cond);
    }
    sql
}

/// A name of the form `db.tbl`, with no `.` in `db`, is listed as table
/// `tbl` of schema `db` when no schema is given.
pub proof fn lemma_qualified_name_is_split(db: Seq<char>, tbl: Seq<char>)
    requires
        !db.contains('.'),
    ensures
        column_target(None, db + seq!['.'] + tbl) == (db, tbl),
        show_column_sql_spec(None, db + seq!['.'] + tbl) == column_listing_sql_spec(db, tbl),
{
    let full = db + seq!['.'] + tbl;
    lemma_position_unique(full, '.', db.len() as int);
    lemma_position(full, '.');
}

/// A name without `.` is listed under the empty schema when no schema is
/// given.
pub proof fn lemma_plain_name_has_empty_schema(table: Seq<char>)
    requires
        !table.contains('.'),
    ensures
        column_target(None, table) == (Seq::<char>::empty(), table),
        show_column_sql_spec(None, table) == column_listing_sql_spec(Seq::empty(), table),
{
}

/// Listing `db.tbl` with no schema given and listing `tbl` with the schema
/// `db` given produce the same statement, for every `db` without a `.`.
pub proof fn lemma_qualified_matches_given_schema(db: Seq<char>, tbl: Seq<char>)
    requires
        !db.contains('.'),
    ensures
        show_column_sql_spec(None, db + seq!['.'] + tbl) == show_column_sql_spec(Some(db), tbl),
{
    lemma_qualified_name_is_split(db, tbl);
}

} // verus!
