//! The table catalog lookup: the statement that lists user-visible tables,
//! and resolution of a user-supplied table name to the canonical stored name
//! without regard to ASCII letter case.

use vstd::prelude::*;

verus! {

/// The statement that lists the tables visible in the public schema. The
/// order of the listed names is the catalog's own and carries no guarantee.
pub fn catalog_query() -> (r: &'static str)
    ensures
        r@ == "SELECT table_name FROM information_schema.tables WHERE table_schema = 'public'"@,
{
    "SELECT table_name FROM information_schema.tables WHERE table_schema = 'public'"
}

/// ASCII case folding of one character code point: the uppercase ASCII
/// letters map to their lowercase forms, every other code point is
/// unchanged.
pub open spec fn fold_code(x: u32) -> u32 {
    if 65 <= x && x <= 90 {
        (x + 32) as u32
    } else {
        x
    }
}

/// Whether two character sequences match without regard to ASCII letter
/// case.
pub open spec fn ci_eq(a: Seq<char>, b: Seq<char>) -> bool {
    &&& a.len() == b.len()
    &&& forall|i: int|
        0 <= i < a.len() ==> fold_code(#[trigger] a[i] as u32) == fold_code(b[i] as u32)
}

fn fold_code_exec(x: u32) -> (r: u32)
    ensures
        r == fold_code(x),
{
    if 65 <= x && x <= 90 {
        x + 32
    } else {
        x
    }
}

/// Whether two strings match without regard to ASCII letter case.
pub fn ci_eq_str(a: &str, b: &str) -> (r: bool)
    ensures
        r == ci_eq(a@, b@),
{
    let la = a.unicode_len();
    let lb = b.unicode_len();
    if la != lb {
        return false;
    }
    let mut i: usize = 0;
    while i < la
        invariant
            la == a@.len(),
            lb == b@.len(),
            la == lb,
            i <= la,
            forall|j: int|
                0 <= j < i as int ==> fold_code(#[trigger] a@[j] as u32) == fold_code(
                    b@[j] as u32,
                ),
        decreases la - i,
    {
        let ca = a.get_char(i);
        let cb = b.get_char(i);
        if fold_code_exec(ca as u32) != fold_code_exec(cb as u32) {
            assert(fold_code(a@[i as int] as u32) != fold_code(b@[i as int] as u32));
            return false;
        }
        i = i + 1;
    }
    true
}

/// The views of a sequence of strings, for speaking of catalog names in
/// specifications.
pub open spec fn name_views(ts: Seq<String>) -> Seq<Seq<char>> {
    ts.map_values(|s: String| s@)
}

/// How many of the first `k` catalog names match the supplied name without
/// regard to case.
pub open spec fn match_count_prefix(tables: Seq<Seq<char>>, name: Seq<char>, k: int) -> nat
    decreases k,
{
    if k <= 0 {
        0
    } else {
        match_count_prefix(tables, name, k - 1) + (if ci_eq(tables[k - 1], name) {
            1nat
        } else {
            0nat
        })
    }
}

/// How many catalog names match the supplied name without regard to case.
pub open spec fn match_count(tables: Seq<Seq<char>>, name: Seq<char>) -> nat {
    match_count_prefix(tables, name, tables.len() as int)
}

/// The outcome of resolving a user-supplied table name against the catalog.
#[derive(Clone, Debug, PartialEq, Eq)]
pub enum NameResolution {
    /// Exactly one catalog table matches; carries its canonical stored name.
    Found(String),
    /// No catalog table matches: a normal outcome, not a failure.
    NotFound,
    /// More than one catalog table matches: an inconsistency to report, not
    /// a choice to make silently.
    Ambiguous,
}

/// Resolves a user-supplied name against the catalog's table names without
/// regard to ASCII letter case, returning the canonical stored name when
/// exactly one table matches.
pub fn resolve_table_name(tables: &Vec<String>, name: &str) -> (r: NameResolution)
    ensures
        (r is NotFound <==> match_count(name_views(tables@), name@) == 0),
        (r is Ambiguous <==> match_count(name_views(tables@), name@) >= 2),
        r matches NameResolution::Found(t) ==> {
            &&& match_count(name_views(tables@), name@) == 1
            &&& exists|i: int|
                0 <= i < tables@.len() && ci_eq(#[trigger] name_views(tables@)[i], name@)
                    && t@ == tables@[i]@
        },
{
    let ghost tv = name_views(tables@);
    let mut i: usize = 0;
    let mut cnt: usize = 0;
    let mut hit: usize = 0;
    while i < tables.len()
        invariant
            i <= tables@.len(),
            cnt <= i,
            tv == name_views(tables@),
            cnt as nat == match_count_prefix(tv, name@, i as int),
            cnt >= 1 ==> hit < i && ci_eq(tv[hit as int], name@),
        decreases tables@.len() - i,
    {
        if ci_eq_str(tables[i].as_str(), name) {
            if cnt == 0 {
                hit = i;
            }
            cnt = cnt + 1;
        }
        i = i + 1;
    }
    if cnt == 0 {
        NameResolution::NotFound
    } else if cnt == 1 {
        NameResolution::Found(tables[hit].clone())
    } else {
        NameResolution::Ambiguous
    }
}

} // verus!
