//! The canonical logical types and the MySQL column types that map onto them.

use vstd::prelude::*;
use crate::text::{strip_prefix, without_prefix};

verus! {

/// The canonical column types a batch can declare.
#[derive(Clone, Copy, Debug, PartialEq, Eq, Structural)]
pub enum LogicalType {
    Integer64,
    Float64,
    Text,
    Binary,
}

/// The column type tags that a MySQL server attaches to result columns,
/// under the names the wire protocol gives them.
#[allow(non_camel_case_types)]
#[derive(Clone, Copy, Debug, PartialEq, Eq, Structural)]
pub enum NativeColumnType {
    MYSQL_TYPE_DECIMAL,
    MYSQL_TYPE_TINY,
    MYSQL_TYPE_SHORT,
    MYSQL_TYPE_LONG,
    MYSQL_TYPE_FLOAT,
    MYSQL_TYPE_DOUBLE,
    MYSQL_TYPE_NULL,
    MYSQL_TYPE_TIMESTAMP,
    MYSQL_TYPE_LONGLONG,
    MYSQL_TYPE_INT24,
    MYSQL_TYPE_DATE,
    MYSQL_TYPE_TIME,
    MYSQL_TYPE_DATETIME,
    MYSQL_TYPE_YEAR,
    MYSQL_TYPE_NEWDATE,
    MYSQL_TYPE_VARCHAR,
    MYSQL_TYPE_BIT,
    MYSQL_TYPE_TIMESTAMP2,
    MYSQL_TYPE_DATETIME2,
    MYSQL_TYPE_TIME2,
    MYSQL_TYPE_TYPED_ARRAY,
    MYSQL_TYPE_VECTOR,
    MYSQL_TYPE_UNKNOWN,
    MYSQL_TYPE_JSON,
    MYSQL_TYPE_NEWDECIMAL,
    MYSQL_TYPE_ENUM,
    MYSQL_TYPE_SET,
    MYSQL_TYPE_TINY_BLOB,
    MYSQL_TYPE_MEDIUM_BLOB,
    MYSQL_TYPE_LONG_BLOB,
    MYSQL_TYPE_BLOB,
    MYSQL_TYPE_VAR_STRING,
    MYSQL_TYPE_STRING,
    MYSQL_TYPE_GEOMETRY,
}

impl NativeColumnType {
    /// Whether the type is one of the integer family.
    pub open spec fn is_integer_like(self) -> bool {
        self is MYSQL_TYPE_TINY || self is MYSQL_TYPE_SHORT || self is MYSQL_TYPE_INT24
            || self is MYSQL_TYPE_LONG || self is MYSQL_TYPE_LONGLONG
    }

    /// Whether the type is a non-integer numeric (`YEAR` counts as one).
    pub open spec fn is_numeric_like(self) -> bool {
        self is MYSQL_TYPE_DECIMAL || self is MYSQL_TYPE_NEWDECIMAL || self is MYSQL_TYPE_FLOAT
            || self is MYSQL_TYPE_DOUBLE || self is MYSQL_TYPE_YEAR
    }

    /// Whether the type is delivered as text.
    pub open spec fn is_text_like(self) -> bool {
        self is MYSQL_TYPE_DATETIME || self is MYSQL_TYPE_DATE || self is MYSQL_TYPE_BLOB
            || self is MYSQL_TYPE_STRING || self is MYSQL_TYPE_VAR_STRING
            || self is MYSQL_TYPE_VARCHAR
    }

    /// The logical type of a column of this native type. Types outside the
    /// three families fall back to `Binary`.
    pub open spec fn logical_type_spec(self) -> LogicalType {
        if self.is_integer_like() {
            LogicalType::Integer64
        } else if self.is_numeric_like() {
            LogicalType::Float64
        } else if self.is_text_like() {
            LogicalType::Text
        } else {
            LogicalType::Binary
        }
    }

    /// Maps the native type to its logical type. This is the one mapping
    /// that both the schema and the array construction consult.
    pub fn logical_type(self) -> (t: LogicalType)
        ensures
            t == self.logical_type_spec(),
    {
        match self {
            NativeColumnType::MYSQL_TYPE_TINY
            | NativeColumnType::MYSQL_TYPE_INT24
            | NativeColumnType::MYSQL_TYPE_SHORT
            | NativeColumnType::MYSQL_TYPE_LONG
            | NativeColumnType::MYSQL_TYPE_LONGLONG => LogicalType::Integer64,
            NativeColumnType::MYSQL_TYPE_DECIMAL
            | NativeColumnType::MYSQL_TYPE_NEWDECIMAL
            | NativeColumnType::MYSQL_TYPE_FLOAT
            | NativeColumnType::MYSQL_TYPE_YEAR
            | NativeColumnType::MYSQL_TYPE_DOUBLE => LogicalType::Float64,
            NativeColumnType::MYSQL_TYPE_DATETIME
            | NativeColumnType::MYSQL_TYPE_DATE
            | NativeColumnType::MYSQL_TYPE_BLOB
            | NativeColumnType::MYSQL_TYPE_STRING
            | NativeColumnType::MYSQL_TYPE_VAR_STRING
            | NativeColumnType::MYSQL_TYPE_VARCHAR => LogicalType::Text,
            _ => LogicalType::Binary,
        }
    }

    /// The name of the type as the wire protocol spells it.
    pub open spec fn name_spec(self) -> Seq<char> {
        match self {
            NativeColumnType::MYSQL_TYPE_DECIMAL => "MYSQL_TYPE_DECIMAL"@,
            NativeColumnType::MYSQL_TYPE_TINY => "MYSQL_TYPE_TINY"@,
            NativeColumnType::MYSQL_TYPE_SHORT => "MYSQL_TYPE_SHORT"@,
            NativeColumnType::MYSQL_TYPE_LONG => "MYSQL_TYPE_LONG"@,
            NativeColumnType::MYSQL_TYPE_FLOAT => "MYSQL_TYPE_FLOAT"@,
            NativeColumnType::MYSQL_TYPE_DOUBLE => "MYSQL_TYPE_DOUBLE"@,
            NativeColumnType::MYSQL_TYPE_NULL => "MYSQL_TYPE_NULL"@,
            NativeColumnType::MYSQL_TYPE_TIMESTAMP => "MYSQL_TYPE_TIMESTAMP"@,
            NativeColumnType::MYSQL_TYPE_LONGLONG => "MYSQL_TYPE_LONGLONG"@,
            NativeColumnType::MYSQL_TYPE_INT24 => "MYSQL_TYPE_INT24"@,
            NativeColumnType::MYSQL_TYPE_DATE => "MYSQL_TYPE_DATE"@,
            NativeColumnType::MYSQL_TYPE_TIME => "MYSQL_TYPE_TIME"@,
            NativeColumnType::MYSQL_TYPE_DATETIME => "MYSQL_TYPE_DATETIME"@,
            NativeColumnType::MYSQL_TYPE_YEAR => "MYSQL_TYPE_YEAR"@,
            NativeColumnType::MYSQL_TYPE_NEWDATE => "MYSQL_TYPE_NEWDATE"@,
            NativeColumnType::MYSQL_TYPE_VARCHAR => "MYSQL_TYPE_VARCHAR"@,
            NativeColumnType::MYSQL_TYPE_BIT => "MYSQL_TYPE_BIT"@,
            NativeColumnType::MYSQL_TYPE_TIMESTAMP2 => "MYSQL_TYPE_TIMESTAMP2"@,
            NativeColumnType::MYSQL_TYPE_DATETIME2 => "MYSQL_TYPE_DATETIME2"@,
            NativeColumnType::MYSQL_TYPE_TIME2 => "MYSQL_TYPE_TIME2"@,
            NativeColumnType::MYSQL_TYPE_TYPED_ARRAY => "MYSQL_TYPE_TYPED_ARRAY"@,
            NativeColumnType::MYSQL_TYPE_VECTOR => "MYSQL_TYPE_VECTOR"@,
            NativeColumnType::MYSQL_TYPE_UNKNOWN => "MYSQL_TYPE_UNKNOWN"@,
            NativeColumnType::MYSQL_TYPE_JSON => "MYSQL_TYPE_JSON"@,
            NativeColumnType::MYSQL_TYPE_NEWDECIMAL => "MYSQL_TYPE_NEWDECIMAL"@,
            NativeColumnType::MYSQL_TYPE_ENUM => "MYSQL_TYPE_ENUM"@,
            NativeColumnType::MYSQL_TYPE_SET => "MYSQL_TYPE_SET"@,
            NativeColumnType::MYSQL_TYPE_TINY_BLOB => "MYSQL_TYPE_TINY_BLOB"@,
            NativeColumnType::MYSQL_TYPE_MEDIUM_BLOB => "MYSQL_TYPE_MEDIUM_BLOB"@,
            NativeColumnType::MYSQL_TYPE_LONG_BLOB => "MYSQL_TYPE_LONG_BLOB"@,
            NativeColumnType::MYSQL_TYPE_BLOB => "MYSQL_TYPE_BLOB"@,
            NativeColumnType::MYSQL_TYPE_VAR_STRING => "MYSQL_TYPE_VAR_STRING"@,
            NativeColumnType::MYSQL_TYPE_STRING => "MYSQL_TYPE_STRING"@,
            NativeColumnType::MYSQL_TYPE_GEOMETRY => "MYSQL_TYPE_GEOMETRY"@,
        }
    }

    /// The name of the type without the prefix that all protocol names
    /// share.
    pub open spec fn label(self) -> Seq<char> {
        match self {
            NativeColumnType::MYSQL_TYPE_DECIMAL => "DECIMAL"@,
            NativeColumnType::MYSQL_TYPE_TINY => "TINY"@,
            NativeColumnType::MYSQL_TYPE_SHORT => "SHORT"@,
            NativeColumnType::MYSQL_TYPE_LONG => "LONG"@,
            NativeColumnType::MYSQL_TYPE_FLOAT => "FLOAT"@,
            NativeColumnType::MYSQL_TYPE_DOUBLE => "DOUBLE"@,
            NativeColumnType::MYSQL_TYPE_NULL => "NULL"@,
            NativeColumnType::MYSQL_TYPE_TIMESTAMP => "TIMESTAMP"@,
            NativeColumnType::MYSQL_TYPE_LONGLONG => "LONGLONG"@,
            NativeColumnType::MYSQL_TYPE_INT24 => "INT24"@,
            NativeColumnType::MYSQL_TYPE_DATE => "DATE"@,
            NativeColumnType::MYSQL_TYPE_TIME => "TIME"@,
            NativeColumnType::MYSQL_TYPE_DATETIME => "DATETIME"@,
            NativeColumnType::MYSQL_TYPE_YEAR => "YEAR"@,
            NativeColumnType::MYSQL_TYPE_NEWDATE => "NEWDATE"@,
            NativeColumnType::MYSQL_TYPE_VARCHAR => "VARCHAR"@,
            NativeColumnType::MYSQL_TYPE_BIT => "BIT"@,
            NativeColumnType::MYSQL_TYPE_TIMESTAMP2 => "TIMESTAMP2"@,
            NativeColumnType::MYSQL_TYPE_DATETIME2 => "DATETIME2"@,
            NativeColumnType::MYSQL_TYPE_TIME2 => "TIME2"@,
            NativeColumnType::MYSQL_TYPE_TYPED_ARRAY => "TYPED_ARRAY"@,
            NativeColumnType::MYSQL_TYPE_VECTOR => "VECTOR"@,
            NativeColumnType::MYSQL_TYPE_UNKNOWN => "UNKNOWN"@,
            NativeColumnType::MYSQL_TYPE_JSON => "JSON"@,
            NativeColumnType::MYSQL_TYPE_NEWDECIMAL => "NEWDECIMAL"@,
            NativeColumnType::MYSQL_TYPE_ENUM => "ENUM"@,
            NativeColumnType::MYSQL_TYPE_SET => "SET"@,
            NativeColumnType::MYSQL_TYPE_TINY_BLOB => "TINY_BLOB"@,
            NativeColumnType::MYSQL_TYPE_MEDIUM_BLOB => "MEDIUM_BLOB"@,
            NativeColumnType::MYSQL_TYPE_LONG_BLOB => "LONG_BLOB"@,
            NativeColumnType::MYSQL_TYPE_BLOB => "BLOB"@,
            NativeColumnType::MYSQL_TYPE_VAR_STRING => "VAR_STRING"@,
            NativeColumnType::MYSQL_TYPE_STRING => "STRING"@,
            NativeColumnType::MYSQL_TYPE_GEOMETRY => "GEOMETRY"@,
        }
    }

    /// The name under which the type is shown: the protocol name with
    /// `TYPE_NAME_PREFIX` removed from its front, or the protocol name
    /// itself if it did not start with it.
    pub open spec fn display_name_spec(self) -> Seq<char> {
        without_prefix(self.name_spec(), TYPE_NAME_PREFIX@)
    }

    /// The name of the type as the wire protocol spells it.
    pub fn name(self) -> (s: &'static str)
        ensures
            s@ == self.name_spec(),
    {
        match self {
            NativeColumnType::MYSQL_TYPE_DECIMAL => "MYSQL_TYPE_DECIMAL",
            NativeColumnType::MYSQL_TYPE_TINY => "MYSQL_TYPE_TINY",
            NativeColumnType::MYSQL_TYPE_SHORT => "MYSQL_TYPE_SHORT",
            NativeColumnType::MYSQL_TYPE_LONG => "MYSQL_TYPE_LONG",
            NativeColumnType::MYSQL_TYPE_FLOAT => "MYSQL_TYPE_FLOAT",
            NativeColumnType::MYSQL_TYPE_DOUBLE => "MYSQL_TYPE_DOUBLE",
            NativeColumnType::MYSQL_TYPE_NULL => "MYSQL_TYPE_NULL",
            NativeColumnType::MYSQL_TYPE_TIMESTAMP => "MYSQL_TYPE_TIMESTAMP",
            NativeColumnType::MYSQL_TYPE_LONGLONG => "MYSQL_TYPE_LONGLONG",
            NativeColumnType::MYSQL_TYPE_INT24 => "MYSQL_TYPE_INT24",
            NativeColumnType::MYSQL_TYPE_DATE => "MYSQL_TYPE_DATE",
            NativeColumnType::MYSQL_TYPE_TIME => "MYSQL_TYPE_TIME",
            NativeColumnType::MYSQL_TYPE_DATETIME => "MYSQL_TYPE_DATETIME",
            NativeColumnType::MYSQL_TYPE_YEAR => "MYSQL_TYPE_YEAR",
            NativeColumnType::MYSQL_TYPE_NEWDATE => "MYSQL_TYPE_NEWDATE",
            NativeColumnType::MYSQL_TYPE_VARCHAR => "MYSQL_TYPE_VARCHAR",
            NativeColumnType::MYSQL_TYPE_BIT => "MYSQL_TYPE_BIT",
            NativeColumnType::MYSQL_TYPE_TIMESTAMP2 => "MYSQL_TYPE_TIMESTAMP2",
            NativeColumnType::MYSQL_TYPE_DATETIME2 => "MYSQL_TYPE_DATETIME2",
            NativeColumnType::MYSQL_TYPE_TIME2 => "MYSQL_TYPE_TIME2",
            NativeColumnType::MYSQL_TYPE_TYPED_ARRAY => "MYSQL_TYPE_TYPED_ARRAY",
            NativeColumnType::MYSQL_TYPE_VECTOR => "MYSQL_TYPE_VECTOR",
            NativeColumnType::MYSQL_TYPE_UNKNOWN => "MYSQL_TYPE_UNKNOWN",
            NativeColumnType::MYSQL_TYPE_JSON => "MYSQL_TYPE_JSON",
            NativeColumnType::MYSQL_TYPE_NEWDECIMAL => "MYSQL_TYPE_NEWDECIMAL",
            NativeColumnType::MYSQL_TYPE_ENUM => "MYSQL_TYPE_ENUM",
            NativeColumnType::MYSQL_TYPE_SET => "MYSQL_TYPE_SET",
            NativeColumnType::MYSQL_TYPE_TINY_BLOB => "MYSQL_TYPE_TINY_BLOB",
            NativeColumnType::MYSQL_TYPE_MEDIUM_BLOB => "MYSQL_TYPE_MEDIUM_BLOB",
            NativeColumnType::MYSQL_TYPE_LONG_BLOB => "MYSQL_TYPE_LONG_BLOB",
            NativeColumnType::MYSQL_TYPE_BLOB => "MYSQL_TYPE_BLOB",
            NativeColumnType::MYSQL_TYPE_VAR_STRING => "MYSQL_TYPE_VAR_STRING",
            NativeColumnType::MYSQL_TYPE_STRING => "MYSQL_TYPE_STRING",
            NativeColumnType::MYSQL_TYPE_GEOMETRY => "MYSQL_TYPE_GEOMETRY",
        }
    }

    /// The name under which the type is shown.
    pub fn display_name(self) -> (s: String)
        ensures
            s@ == self.display_name_spec(),
    {
        strip_prefix(self.name(), TYPE_NAME_PREFIX)
    }
}

/// The prefix that `display_name` removes.
pub const TYPE_NAME_PREFIX: &'static str = "MYSQL_TYPE_";

/// Every protocol name starts with the prefix, so every type is shown under
/// its bare label.
pub proof fn lemma_display_name_is_label(t: NativeColumnType)
    ensures
        TYPE_NAME_PREFIX@.is_prefix_of(t.name_spec()),
        t.display_name_spec() == t.label(),
{
    reveal_strlit("MYSQL_TYPE_");
    match t {
        NativeColumnType::MYSQL_TYPE_DECIMAL => {
            reveal_strlit("MYSQL_TYPE_DECIMAL");
            reveal_strlit("DECIMAL");
            assert("MYSQL_TYPE_DECIMAL"@.skip(11) =~= "DECIMAL"@);
        },
        NativeColumnType::MYSQL_TYPE_TINY => {
            reveal_strlit("MYSQL_TYPE_TINY");
            reveal_strlit("TINY");
            assert("MYSQL_TYPE_TINY"@.skip(11) =~= "TINY"@);
        },
        NativeColumnType::MYSQL_TYPE_SHORT => {
            reveal_strlit("MYSQL_TYPE_SHORT");
            reveal_strlit("SHORT");
            assert("MYSQL_TYPE_SHORT"@.skip(11) =~= "SHORT"@);
        },
        NativeColumnType::MYSQL_TYPE_LONG => {
            reveal_strlit("MYSQL_TYPE_LONG");
            reveal_strlit("LONG");
            assert("MYSQL_TYPE_LONG"@.skip(11) =~= "LONG"@);
        },
        NativeColumnType::MYSQL_TYPE_FLOAT => {
            reveal_strlit("MYSQL_TYPE_FLOAT");
            reveal_strlit("FLOAT");
            assert("MYSQL_TYPE_FLOAT"@.skip(11) =~= "FLOAT"@);
        },
        NativeColumnType::MYSQL_TYPE_DOUBLE => {
            reveal_strlit("MYSQL_TYPE_DOUBLE");
            reveal_strlit("DOUBLE");
            assert("MYSQL_TYPE_DOUBLE"@.skip(11) =~= "DOUBLE"@);
        },
        NativeColumnType::MYSQL_TYPE_NULL => {
            reveal_strlit("MYSQL_TYPE_NULL");
            reveal_strlit("NULL");
            assert("MYSQL_TYPE_NULL"@.skip(11) =~= "NULL"@);
        },
        NativeColumnType::MYSQL_TYPE_TIMESTAMP => {
            reveal_strlit("MYSQL_TYPE_TIMESTAMP");
            reveal_strlit("TIMESTAMP");
            assert("MYSQL_TYPE_TIMESTAMP"@.skip(11) =~= "TIMESTAMP"@);
        },
        NativeColumnType::MYSQL_TYPE_LONGLONG => {
            reveal_strlit("MYSQL_TYPE_LONGLONG");
            reveal_strlit("LONGLONG");
            assert("MYSQL_TYPE_LONGLONG"@.skip(11) =~= "LONGLONG"@);
        },
        NativeColumnType::MYSQL_TYPE_INT24 => {
            reveal_strlit("MYSQL_TYPE_INT24");
            reveal_strlit("INT24");
            assert("MYSQL_TYPE_INT24"@.skip(11) =~= "INT24"@);
        },
        NativeColumnType::MYSQL_TYPE_DATE => {
            reveal_strlit("MYSQL_TYPE_DATE");
            reveal_strlit("DATE");
            assert("MYSQL_TYPE_DATE"@.skip(11) =~= "DATE"@);
        },
        NativeColumnType::MYSQL_TYPE_TIME => {
            reveal_strlit("MYSQL_TYPE_TIME");
            reveal_strlit("TIME");
            assert("MYSQL_TYPE_TIME"@.skip(11) =~= "TIME"@);
        },
        NativeColumnType::MYSQL_TYPE_DATETIME => {
            reveal_strlit("MYSQL_TYPE_DATETIME");
            reveal_strlit("DATETIME");
            assert("MYSQL_TYPE_DATETIME"@.skip(11) =~= "DATETIME"@);
        },
        NativeColumnType::MYSQL_TYPE_YEAR => {
            reveal_strlit("MYSQL_TYPE_YEAR");
            reveal_strlit("YEAR");
            assert("MYSQL_TYPE_YEAR"@.skip(11) =~= "YEAR"@);
        },
        NativeColumnType::MYSQL_TYPE_NEWDATE => {
            reveal_strlit("MYSQL_TYPE_NEWDATE");
            reveal_strlit("NEWDATE");
            assert("MYSQL_TYPE_NEWDATE"@.skip(11) =~= "NEWDATE"@);
        },
        NativeColumnType::MYSQL_TYPE_VARCHAR => {
            reveal_strlit("MYSQL_TYPE_VARCHAR");
            reveal_strlit("VARCHAR");
            assert("MYSQL_TYPE_VARCHAR"@.skip(11) =~= "VARCHAR"@);
        },
        NativeColumnType::MYSQL_TYPE_BIT => {
            reveal_strlit("MYSQL_TYPE_BIT");
            reveal_strlit("BIT");
            assert("MYSQL_TYPE_BIT"@.skip(11) =~= "BIT"@);
        },
        NativeColumnType::MYSQL_TYPE_TIMESTAMP2 => {
            reveal_strlit("MYSQL_TYPE_TIMESTAMP2");
            reveal_strlit("TIMESTAMP2");
            assert("MYSQL_TYPE_TIMESTAMP2"@.skip(11) =~= "TIMESTAMP2"@);
        },
        NativeColumnType::MYSQL_TYPE_DATETIME2 => {
            reveal_strlit("MYSQL_TYPE_DATETIME2");
            reveal_strlit("DATETIME2");
            assert("MYSQL_TYPE_DATETIME2"@.skip(11) =~= "DATETIME2"@);
        },
        NativeColumnType::MYSQL_TYPE_TIME2 => {
            reveal_strlit("MYSQL_TYPE_TIME2");
            reveal_strlit("TIME2");
            assert("MYSQL_TYPE_TIME2"@.skip(11) =~= "TIME2"@);
        },
        NativeColumnType::MYSQL_TYPE_TYPED_ARRAY => {
            reveal_strlit("MYSQL_TYPE_TYPED_ARRAY");
            reveal_strlit("TYPED_ARRAY");
            assert("MYSQL_TYPE_TYPED_ARRAY"@.skip(11) =~= "TYPED_ARRAY"@);
        },
        NativeColumnType::MYSQL_TYPE_VECTOR => {
            reveal_strlit("MYSQL_TYPE_VECTOR");
            reveal_strlit("VECTOR");
            assert("MYSQL_TYPE_VECTOR"@.skip(11) =~= "VECTOR"@);
        },
        NativeColumnType::MYSQL_TYPE_UNKNOWN => {
            reveal_strlit("MYSQL_TYPE_UNKNOWN");
            reveal_strlit("UNKNOWN");
            assert("MYSQL_TYPE_UNKNOWN"@.skip(11) =~= "UNKNOWN"@);
        },
        NativeColumnType::MYSQL_TYPE_JSON => {
            reveal_strlit("MYSQL_TYPE_JSON");
            reveal_strlit("JSON");
            assert("MYSQL_TYPE_JSON"@.skip(11) =~= "JSON"@);
        },
        NativeColumnType::MYSQL_TYPE_NEWDECIMAL => {
            reveal_strlit("MYSQL_TYPE_NEWDECIMAL");
            reveal_strlit("NEWDECIMAL");
            assert("MYSQL_TYPE_NEWDECIMAL"@.skip(11) =~= "NEWDECIMAL"@);
        },
        NativeColumnType::MYSQL_TYPE_ENUM => {
            reveal_strlit("MYSQL_TYPE_ENUM");
            reveal_strlit("ENUM");
            assert("MYSQL_TYPE_ENUM"@.skip(11) =~= "ENUM"@);
        },
        NativeColumnType::MYSQL_TYPE_SET => {
            reveal_strlit("MYSQL_TYPE_SET");
            reveal_strlit("SET");
            assert("MYSQL_TYPE_SET"@.skip(11) =~= "SET"@);
        },
        NativeColumnType::MYSQL_TYPE_TINY_BLOB => {
            reveal_strlit("MYSQL_TYPE_TINY_BLOB");
            reveal_strlit("TINY_BLOB");
            assert("MYSQL_TYPE_TINY_BLOB"@.skip(11) =~= "TINY_BLOB"@);
        },
        NativeColumnType::MYSQL_TYPE_MEDIUM_BLOB => {
            reveal_strlit("MYSQL_TYPE_MEDIUM_BLOB");
            reveal_strlit("MEDIUM_BLOB");
            assert("MYSQL_TYPE_MEDIUM_BLOB"@.skip(11) =~= "MEDIUM_BLOB"@);
        },
        NativeColumnType::MYSQL_TYPE_LONG_BLOB => {
            reveal_strlit("MYSQL_TYPE_LONG_BLOB");
            reveal_strlit("LONG_BLOB");
            assert("MYSQL_TYPE_LONG_BLOB"@.skip(11) =~= "LONG_BLOB"@);
        },
        NativeColumnType::MYSQL_TYPE_BLOB => {
            reveal_strlit("MYSQL_TYPE_BLOB");
            reveal_strlit("BLOB");
            assert("MYSQL_TYPE_BLOB"@.skip(11) =~= "BLOB"@);
        },
        NativeColumnType::MYSQL_TYPE_VAR_STRING => {
            reveal_strlit("MYSQL_TYPE_VAR_STRING");
            reveal_strlit("VAR_STRING");
            assert("MYSQL_TYPE_VAR_STRING"@.skip(11) =~= "VAR_STRING"@);
        },
        NativeColumnType::MYSQL_TYPE_STRING => {
            reveal_strlit("MYSQL_TYPE_STRING");
            reveal_strlit("STRING");
            assert("MYSQL_TYPE_STRING"@.skip(11) =~= "STRING"@);
        },
        NativeColumnType::MYSQL_TYPE_GEOMETRY => {
            reveal_strlit("MYSQL_TYPE_GEOMETRY");
            reveal_strlit("GEOMETRY");
            assert("MYSQL_TYPE_GEOMETRY"@.skip(11) =~= "GEOMETRY"@);
        },
    }
}

} // verus!
