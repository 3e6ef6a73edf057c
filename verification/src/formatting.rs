//! The value formatter: the display string for one retrieved column value.
//!
//! Absent (null) values of every type render as one fixed marker. Booleans
//! render as `true`/`false`, integers as exact decimal, temporal values in a
//! canonical year-first form, and text, floating-point, JSON and other
//! values as the text they carry.

use vstd::prelude::*;
use crate::decimal::{dec_int, pad2, pad4, i32_to_dec, i64_to_dec, pad2_u8, pad4_u32};
use crate::values::{Value, DateVal, TimeVal, DateTimeVal};

verus! {

/// The marker that stands for an absent (null) value; the same for every
/// column type and distinct from any rendered boolean, number or date.
pub open spec fn absent_marker() -> Seq<char> {
    "NULL"@
}

/// The year part of a date: at least four digits, a minus sign first for
/// years before the common era.
pub open spec fn year_text(y: int) -> Seq<char> {
    if y < 0 {
        "-"@ + pad4((-y) as nat)
    } else {
        pad4(y as nat)
    }
}

/// Canonical text of a calendar date: year, month and day, hyphen-separated,
/// the month and day zero-padded to two digits.
pub open spec fn date_text(d: DateVal) -> Seq<char> {
    year_text(d.year as int) + "-"@ + pad2(d.month as nat) + "-"@ + pad2(d.day as nat)
}

/// Canonical text of a time of day: hours, minutes and seconds, each two
/// digits, colon-separated.
pub open spec fn time_text(t: TimeVal) -> Seq<char> {
    pad2(t.hour as nat) + ":"@ + pad2(t.minute as nat) + ":"@ + pad2(t.second as nat)
}

/// Canonical text of a date with a time of day, space-separated.
pub open spec fn datetime_text(dt: DateTimeVal) -> Seq<char> {
    date_text(dt.date) + " "@ + time_text(dt.time)
}

/// The display string for one retrieved value: the absent marker for null,
/// else a rendering fixed by the value's type.
pub open spec fn value_text(v: Value) -> Seq<char> {
    match v {
        Value::Bool(ob) => match ob {
            None => absent_marker(),
            Some(b) => if b {
                "true"@
            } else {
                "false"@
            },
        },
        Value::Int(oi) => match oi {
            None => absent_marker(),
            Some(i) => dec_int(i as int),
        },
        Value::BigInt(oi) => match oi {
            None => absent_marker(),
            Some(i) => dec_int(i as int),
        },
        Value::Float(os) => match os {
            None => absent_marker(),
            Some(s) => s@,
        },
        Value::Text(os) => match os {
            None => absent_marker(),
            Some(s) => s@,
        },
        Value::Timestamp(ot) => match ot {
            None => absent_marker(),
            Some(dt) => datetime_text(dt),
        },
        Value::TimestampTz(ot) => match ot {
            None => absent_marker(),
            Some(dt) => datetime_text(dt) + "Z"@,
        },
        Value::Date(od) => match od {
            None => absent_marker(),
            Some(d) => date_text(d),
        },
        Value::Json(os) => match os {
            None => absent_marker(),
            Some(s) => s@,
        },
        Value::Other(os) => match os {
            None => absent_marker(),
            Some(s) => s@,
        },
    }
}

/// Returns the absent marker as a string.
pub fn absent_marker_string() -> (r: String)
    ensures
        r@ == absent_marker(),
{
    String::from_str("NULL")
}

/// Renders the year part of a date.
fn format_year(y: i32) -> (r: String)
    ensures
        r@ == year_text(y as int),
{
    if y >= 0 {
        pad4_u32(y as u32)
    } else {
        let mag: u32 = if y == i32::MIN {
            2147483648u32
        } else {
            (-y) as u32
        };
        assert(mag as int == -(y as int));
        String::from_str("-").concat(pad4_u32(mag).as_str())
    }
}

/// Renders a calendar date canonically.
pub fn format_date(d: &DateVal) -> (r: String)
    ensures
        r@ == date_text(*d),
{
    let mut s = format_year(d.year);
    s.append("-");
    s.append(pad2_u8(d.month).as_str());
    s.append("-");
    s.append(pad2_u8(d.day).as_str());
    s
}

/// Renders a time of day canonically.
pub fn format_time(t: &TimeVal) -> (r: String)
    ensures
        r@ == time_text(*t),
{
    let mut s = pad2_u8(t.hour);
    s.append(":");
    s.append(pad2_u8(t.minute).as_str());
    s.append(":");
    s.append(pad2_u8(t.second).as_str());
    s
}

/// Renders a date with a time of day canonically.
pub fn format_datetime(dt: &DateTimeVal) -> (r: String)
    ensures
        r@ == datetime_text(*dt),
{
    let mut s = format_date(&dt.date);
    s.append(" ");
    s.append(format_time(&dt.time).as_str());
    s
}

/// Converts one retrieved column value of a known type into its display
/// string. Pure: a function of the value alone, no side effects.
pub fn format_value(v: &Value) -> (r: String)
    ensures
        r@ == value_text(*v),
{
    match v {
        Value::Bool(ob) => match ob {
            None => absent_marker_string(),
            Some(b) => if *b {
                String::from_str("true")
            } else {
                String::from_str("false")
            },
        },
        Value::Int(oi) => match oi {
            None => absent_marker_string(),
            Some(i) => i32_to_dec(*i),
        },
        Value::BigInt(oi) => match oi {
            None => absent_marker_string(),
            Some(i) => i64_to_dec(*i),
        },
        Value::Float(os) => match os {
            None => absent_marker_string(),
            Some(s) => s.clone(),
        },
        Value::Text(os) => match os {
            None => absent_marker_string(),
            Some(s) => s.clone(),
        },
        Value::Timestamp(ot) => match ot {
            None => absent_marker_string(),
            Some(dt) => format_datetime(dt),
        },
        Value::TimestampTz(ot) => match ot {
            None => absent_marker_string(),
            Some(dt) => {
                let mut s = format_datetime(dt);
                s.append("Z");
                s
            },
        },
        Value::Date(od) => match od {
            None => absent_marker_string(),
            Some(d) => format_date(d),
        },
        Value::Json(os) => match os {
            None => absent_marker_string(),
            Some(s) => s.clone(),
        },
        Value::Other(os) => match os {
            None => absent_marker_string(),
            Some(s) => s.clone(),
        },
    }
}

/// Formatting an absent value yields the one absent marker, whatever the
/// column type the value was retrieved under.
pub proof fn lemma_null_format_uniform(a: Value, b: Value)
    requires
        a.is_null(),
        b.is_null(),
    ensures
        value_text(a) == absent_marker(),
        value_text(a) == value_text(b),
{
}

} // verus!
