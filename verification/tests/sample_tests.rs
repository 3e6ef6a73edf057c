use pgview::ident::quote_ident;
use pgview::sample::{build_table_sample, sample_query, SAMPLE_LIMIT};
use pgview::values::{ColumnDescriptor, ColumnType, Value};

fn int_column(name: &str) -> ColumnDescriptor {
    ColumnDescriptor { name: name.to_string(), ctype: ColumnType::Integer }
}

fn int_rows(n: i32) -> Vec<Vec<Value>> {
    (0..n).map(|i| vec![Value::Int(Some(i))]).collect()
}

#[test]
fn quoting_wraps_and_doubles_embedded_quotes() {
    assert_eq!(quote_ident("accounts"), "\"accounts\"");
    assert_eq!(quote_ident(""), "\"\"");
    assert_eq!(quote_ident("we\"ird"), "\"we\"\"ird\"");
    assert_eq!(quote_ident("\""), "\"\"\"\"");
}

#[test]
fn sampling_statement_is_capped_and_quoted() {
    assert_eq!(sample_query("accounts"), "SELECT * FROM \"accounts\" LIMIT 10");
    assert_eq!(
        sample_query("we\"ird"),
        "SELECT * FROM \"we\"\"ird\" LIMIT 10"
    );
}

#[test]
fn a_large_table_yields_exactly_the_cap() {
    assert_eq!(SAMPLE_LIMIT, 10);
    let cols = vec![int_column("id")];
    let sample = build_table_sample(&cols, &int_rows(15)).unwrap();
    assert_eq!(sample.rows.len(), 10);
    assert_eq!(sample.rows[0], vec!["0".to_string()]);
    assert_eq!(sample.rows[9], vec!["9".to_string()]);
}

#[test]
fn a_small_table_yields_all_its_rows() {
    let cols = vec![int_column("id")];
    let sample = build_table_sample(&cols, &int_rows(3)).unwrap();
    assert_eq!(sample.rows.len(), 3);
}

#[test]
fn a_table_at_the_cap_yields_exactly_the_cap() {
    let cols = vec![int_column("id")];
    let sample = build_table_sample(&cols, &int_rows(10)).unwrap();
    assert_eq!(sample.rows.len(), 10);
}

#[test]
fn an_empty_table_still_reports_its_columns() {
    let cols = vec![int_column("id"), int_column("n")];
    let sample = build_table_sample(&cols, &Vec::new()).unwrap();
    assert_eq!(sample.columns, vec!["id".to_string(), "n".to_string()]);
    assert!(sample.rows.is_empty());
}

#[test]
fn an_empty_table_may_report_no_columns() {
    let sample = build_table_sample(&Vec::new(), &Vec::new()).unwrap();
    assert!(sample.columns.is_empty());
    assert!(sample.rows.is_empty());
}

#[test]
fn a_misaligned_row_is_an_invariant_violation() {
    let cols = vec![int_column("id")];
    let raw = vec![vec![Value::Int(Some(1)), Value::Int(Some(2))]];
    assert!(build_table_sample(&cols, &raw).is_none());
}

#[test]
fn every_sampled_row_matches_the_column_count() {
    let cols = vec![int_column("a"), int_column("b")];
    let raw = vec![
        vec![Value::Int(Some(1)), Value::Int(None)],
        vec![Value::Int(Some(3)), Value::Int(Some(4))],
    ];
    let sample = build_table_sample(&cols, &raw).unwrap();
    for row in &sample.rows {
        assert_eq!(row.len(), sample.columns.len());
    }
    assert_eq!(sample.rows[0], vec!["1".to_string(), "NULL".to_string()]);
}
