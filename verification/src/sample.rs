//! The bounded table sampler: the statement that fetches a capped number of
//! rows from one table, and the construction of a table sample — column
//! names plus rendered rows — from what came back.

use vstd::prelude::*;
use crate::ident::{quoted_ident, quote_ident};
use crate::values::{Value, ColumnDescriptor};
use crate::formatting::value_text;
use crate::projection::project_row;

verus! {

/// The most rows a table sample may hold.
pub const SAMPLE_LIMIT: usize = 10;

/// The sampled rows kept of a fetch that returned `n` rows: all of them, up
/// to the sample limit.
pub open spec fn sample_len(n: nat) -> nat {
    if n <= SAMPLE_LIMIT {
        n
    } else {
        SAMPLE_LIMIT as nat
    }
}

/// The bounded sampling statement for one table: selects every column,
/// capped at the sample limit. Which rows come back, and in what order, is
/// the engine's choice. The name must be a canonical name from the catalog,
/// not raw user input.
pub fn sample_query(table: &str) -> (r: String)
    ensures
        r@ == "SELECT * FROM "@ + quoted_ident(table@) + " LIMIT 10"@,
{
    let mut s = String::from_str("SELECT * FROM ");
    s.append(quote_ident(table).as_str());
    s.append(" LIMIT 10");
    s
}

/// One table sample: the column names and the sampled rows, each row
/// rendered as display strings. Constructed fresh per request.
#[derive(Clone, Debug, PartialEq)]
pub struct TableSample {
    pub columns: Vec<String>,
    pub rows: Vec<Vec<String>>,
}

impl TableSample {
    /// Every rendered row holds exactly one display string per column name.
    pub open spec fn wf(self) -> bool {
        forall|i: int|
            0 <= i < self.rows@.len() ==> (#[trigger] self.rows@[i])@.len()
                == self.columns@.len()
    }
}

/// Builds a table sample from the descriptors and rows a fetch returned:
/// keeps at most the sample limit of rows and renders each kept row. Returns
/// `None` exactly when some kept row's length does not match the
/// descriptors' — an internal invariant violation, not a user-facing error.
/// A fetch of zero rows yields an empty row sequence with the column names
/// still reported (empty if no descriptor metadata came back).
pub fn build_table_sample(columns: &Vec<ColumnDescriptor>, raw: &Vec<Vec<Value>>) -> (r: Option<
    TableSample,
>)
    ensures
        r is Some <==> (forall|i: int|
            0 <= i < sample_len(raw@.len()) ==> (#[trigger] raw@[i])@.len() == columns@.len()),
        r matches Some(s) ==> {
            &&& s.columns@.len() == columns@.len()
            &&& forall|i: int|
                0 <= i < columns@.len() ==> (#[trigger] s.columns@[i])@ == columns@[i].name@
            &&& s.rows@.len() == sample_len(raw@.len())
            &&& forall|i: int, j: int|
                0 <= i < s.rows@.len() && 0 <= j < columns@.len() ==> (#[trigger] s.rows@[i]@[j])@
                    == value_text(raw@[i]@[j])
            &&& s.wf()
        },
{
    let mut names: Vec<String> = Vec::new();
    let mut k: usize = 0;
    while k < columns.len()
        invariant
            k <= columns@.len(),
            names@.len() == k as int,
            forall|i: int| 0 <= i < k as int ==> (#[trigger] names@[i])@ == columns@[i].name@,
        decreases columns@.len() - k,
    {
        names.push(columns[k].name.clone());
        k = k + 1;
    }
    let cap = if raw.len() < SAMPLE_LIMIT {
        raw.len()
    } else {
        SAMPLE_LIMIT
    };
    assert(cap as nat == sample_len(raw@.len()));
    let mut rows: Vec<Vec<String>> = Vec::new();
    let mut i: usize = 0;
    while i < cap
        invariant
            i <= cap,
            cap <= raw@.len(),
            cap as nat == sample_len(raw@.len()),
            rows@.len() == i as int,
            columns@.len() == names@.len(),
            forall|j: int| 0 <= j < i as int ==> (#[trigger] raw@[j])@.len() == columns@.len(),
            forall|j: int| 0 <= j < i as int ==> (#[trigger] rows@[j])@.len() == columns@.len(),
            forall|j: int, l: int|
                0 <= j < i as int && 0 <= l < columns@.len() ==> (#[trigger] rows@[j]@[l])@
                    == value_text(raw@[j]@[l]),
        decreases cap - i,
    {
        match project_row(columns, &raw[i]) {
            None => {
                return None;
            },
            Some(p) => {
                rows.push(p);
            },
        }
        i = i + 1;
    }
    Some(TableSample { columns: names, rows })
}

} // verus!
