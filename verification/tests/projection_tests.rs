use pgview::projection::project_row;
use pgview::values::{ColumnDescriptor, ColumnType, Value};

fn columns(specs: &[(&str, ColumnType)]) -> Vec<ColumnDescriptor> {
    specs
        .iter()
        .map(|(n, t)| ColumnDescriptor { name: n.to_string(), ctype: *t })
        .collect()
}

#[test]
fn projection_keeps_one_string_per_descriptor() {
    let cols = columns(&[
        ("id", ColumnType::Integer),
        ("name", ColumnType::Text),
        ("active", ColumnType::Boolean),
    ]);
    let row = vec![
        Value::Int(Some(3)),
        Value::Text(Some("ada".to_string())),
        Value::Bool(Some(false)),
    ];
    let out = project_row(&cols, &row).unwrap();
    assert_eq!(out.len(), cols.len());
    assert_eq!(out, vec!["3".to_string(), "ada".to_string(), "false".to_string()]);
}

#[test]
fn projection_of_an_empty_row_is_empty() {
    let out = project_row(&Vec::new(), &Vec::new()).unwrap();
    assert!(out.is_empty());
}

#[test]
fn a_length_mismatch_fails_the_projection() {
    let cols = columns(&[("id", ColumnType::Integer)]);
    assert!(project_row(&cols, &Vec::new()).is_none());
    let row = vec![Value::Int(Some(1)), Value::Int(Some(2))];
    assert!(project_row(&cols, &row).is_none());
}

#[test]
fn projection_formats_nulls_with_the_marker() {
    let cols = columns(&[("a", ColumnType::Text), ("b", ColumnType::Date)]);
    let row = vec![Value::Text(None), Value::Date(None)];
    let out = project_row(&cols, &row).unwrap();
    assert_eq!(out, vec!["NULL".to_string(), "NULL".to_string()]);
}
