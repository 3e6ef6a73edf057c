//! The cell editor: the single-column update statement for one table, its
//! ordered parameters, and the classification of the affected-row count.
//!
//! Every editable table must carry an identifier column literally named
//! `id`: a hard-coded constraint of this design, not configurable.

use vstd::prelude::*;
use crate::ident::{quoted_ident, quote_ident};

verus! {

/// A single-cell edit, all fields as supplied by the caller, as text. The
/// new value and the identifier are bound as statement parameters; the table
/// and column names go into identifier position and must come from trusted
/// sources, which this design does not itself enforce.
#[derive(Clone, Debug, PartialEq)]
pub struct EditRequest {
    pub table: String,
    pub column: String,
    pub id: String,
    pub value: String,
}

/// The single-column update statement for one table and column: sets the
/// named column on the rows whose `id` column equals a bound identifier. The
/// new value binds as the first parameter, the identifier as the second.
pub fn update_query(table: &str, column: &str) -> (r: String)
    ensures
        r@ == "UPDATE "@ + quoted_ident(table@) + " SET "@ + quoted_ident(column@)
            + " = $1 WHERE id = $2"@,
{
    let mut s = String::from_str("UPDATE ");
    s.append(quote_ident(table).as_str());
    s.append(" SET ");
    s.append(quote_ident(column).as_str());
    s.append(" = $1 WHERE id = $2");
    s
}

/// The statement and the ordered parameters for one edit: the new value
/// first, the row identifier second, matching the statement's placeholders.
pub fn edit_statement(req: &EditRequest) -> (r: (String, Vec<String>))
    ensures
        r.0@ == "UPDATE "@ + quoted_ident(req.table@) + " SET "@ + quoted_ident(req.column@)
            + " = $1 WHERE id = $2"@,
        r.1@.len() == 2,
        r.1@[0]@ == req.value@,
        r.1@[1]@ == req.id@,
{
    let sql = update_query(req.table.as_str(), req.column.as_str());
    let mut params: Vec<String> = Vec::new();
    params.push(req.value.clone());
    params.push(req.id.clone());
    (sql, params)
}

/// The outcome of an applied edit.
#[derive(Clone, Copy, Debug, PartialEq, Eq, Structural)]
pub enum EditOutcome {
    /// No row carried the supplied identifier: a normal outcome, distinct
    /// from an execution failure (which never reaches this classification).
    NoMatch,
    /// At least one row was updated; carries the true affected-row count.
    Updated(u64),
}

/// Classifies the affected-row count of an executed update.
pub fn classify_edit(affected: u64) -> (r: EditOutcome)
    ensures
        (r is NoMatch <==> affected == 0),
        r matches EditOutcome::Updated(n) ==> n == affected && n >= 1,
{
    if affected == 0 {
        EditOutcome::NoMatch
    } else {
        EditOutcome::Updated(affected)
    }
}

} // verus!
