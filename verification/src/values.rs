//! The data model: column types, retrieved values, and column descriptors.
//!
//! A retrieved value is held as plain fields. Two kinds arrive already
//! rendered as text by the retrieving caller: floating-point numbers (this
//! crate holds no floats) and JSON documents (held as their serialized
//! text). Temporal values are held as calendar and clock fields.

use vstd::prelude::*;

verus! {

/// The declared type of one column, as the catalog reports it.
#[derive(Clone, Copy, Debug, PartialEq, Eq, Structural)]
pub enum ColumnType {
    Boolean,
    /// A 16- or 32-bit integer column.
    Integer,
    /// A 64-bit integer column.
    BigInteger,
    /// A single- or double-precision floating-point column.
    Float,
    /// A text or variable-character column.
    Text,
    /// A timestamp without time zone.
    Timestamp,
    /// A timestamp with time zone, normalized to UTC.
    TimestampTz,
    Date,
    /// A JSON or binary-JSON column.
    Json,
    /// Any other declared type, coerced to text on retrieval.
    Other,
}

/// A calendar date. Fields are plain numbers; `month` and `day` are
/// one-based as on a calendar.
#[derive(Clone, Copy, Debug, PartialEq, Eq, Structural)]
pub struct DateVal {
    pub year: i32,
    pub month: u8,
    pub day: u8,
}

/// A time of day with whole-second precision.
#[derive(Clone, Copy, Debug, PartialEq, Eq, Structural)]
pub struct TimeVal {
    pub hour: u8,
    pub minute: u8,
    pub second: u8,
}

/// A calendar date with a time of day.
#[derive(Clone, Copy, Debug, PartialEq, Eq, Structural)]
pub struct DateTimeVal {
    pub date: DateVal,
    pub time: TimeVal,
}

/// One retrieved column value, possibly absent (null). The variant is
/// chosen by the column's declared type at retrieval.
#[derive(Clone, Debug, PartialEq)]
pub enum Value {
    Bool(Option<bool>),
    Int(Option<i32>),
    BigInt(Option<i64>),
    /// Floating point, rendered as decimal text by the retrieving caller
    /// with its default conversion (not guaranteed round-trip exact).
    Float(Option<String>),
    Text(Option<String>),
    Timestamp(Option<DateTimeVal>),
    /// A timestamp with time zone, normalized to UTC on retrieval.
    TimestampTz(Option<DateTimeVal>),
    Date(Option<DateVal>),
    /// A JSON document, re-serialized as text by the retrieving caller.
    Json(Option<String>),
    /// A value of any other declared type, coerced to text on retrieval.
    Other(Option<String>),
}

impl Value {
    /// Whether the value is absent (SQL null).
    pub open spec fn is_null(self) -> bool {
        match self {
            Value::Bool(v) => v is None,
            Value::Int(v) => v is None,
            Value::BigInt(v) => v is None,
            Value::Float(v) => v is None,
            Value::Text(v) => v is None,
            Value::Timestamp(v) => v is None,
            Value::TimestampTz(v) => v is None,
            Value::Date(v) => v is None,
            Value::Json(v) => v is None,
            Value::Other(v) => v is None,
        }
    }

}

/// One column of a query result: its name and declared type. Immutable per
/// result.
#[derive(Clone, Debug, PartialEq)]
pub struct ColumnDescriptor {
    pub name: String,
    pub ctype: ColumnType,
}

} // verus!
