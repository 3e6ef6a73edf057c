//! A small verified core for browsing and editing rows of a relational
//! database: it renders typed column values as display text, projects rows
//! into display form, resolves table names against the catalog without
//! regard to case, builds the bounded sampling and single-cell update
//! statements, and classifies their outcomes.
//!
//! All connection handling and statement execution is left to the caller:
//! the functions here work on plain values handed in and out.

pub mod catalog;
pub mod decimal;
pub mod edit;
pub mod formatting;
pub mod ident;
pub mod projection;
pub mod sample;
pub mod values;
