//! The row projector: one retrieved row becomes an ordered sequence of
//! display strings, one per column descriptor, by formatting each position
//! in order.

use vstd::prelude::*;
use crate::values::{Value, ColumnDescriptor};
use crate::formatting::{format_value, value_text};

verus! {

/// Converts one retrieved row into its display strings, one per column, in
/// order. Returns `None` exactly when the row's length does not match the
/// descriptors' — an internal invariant violation if the query executor is
/// well-behaved, not a user-facing error.
pub fn project_row(columns: &Vec<ColumnDescriptor>, row: &Vec<Value>) -> (r: Option<
    Vec<String>,
>)
    ensures
        r is Some <==> row@.len() == columns@.len(),
        r matches Some(out) ==> {
            &&& out@.len() == columns@.len()
            &&& forall|i: int| 0 <= i < out@.len() ==> out@[i]@ == value_text(row@[i])
        },
{
    if row.len() != columns.len() {
        return None;
    }
    let mut out: Vec<String> = Vec::new();
    let mut i: usize = 0;
    while i < row.len()
        invariant
            i <= row@.len(),
            row@.len() == columns@.len(),
            out@.len() == i as int,
            forall|j: int| 0 <= j < i as int ==> out@[j]@ == value_text(row@[j]),
        decreases row@.len() - i,
    {
        out.push(format_value(&row[i]));
        i = i + 1;
    }
    Some(out)
}

} // verus!
