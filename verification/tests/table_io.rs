use stp_pow::Error;
use stp_pow::pipeline::stopping_power_table;
use stp_pow::table::parse_table;

fn text(s: &str) -> Vec<u8> {
    s.as_bytes().to_vec()
}

#[test]
fn parses_the_four_column_table() {
    let t = text("E,rad_stp_pow,aux_a,aux_b\n0.01,0.5,1,2\n1.0,2.5,3,4\n1e4,9.75,5,6\n");
    let table = parse_table(&t).unwrap();
    assert_eq!(table.e_k, vec![0.01f64.to_bits(), 1.0f64.to_bits(), 1.0e4f64.to_bits()]);
    assert_eq!(table.rad, vec![0.5f64.to_bits(), 2.5f64.to_bits(), 9.75f64.to_bits()]);
}

#[test]
fn named_columns_are_found_by_name() {
    let t = text("aux_a,rad_stp_pow,aux_b,E\n7,0.5,8,0.01\n9,2.5,10,1.0\n");
    let table = parse_table(&t).unwrap();
    assert_eq!(table.e_k, vec![0.01f64.to_bits(), 1.0f64.to_bits()]);
    assert_eq!(table.rad, vec![0.5f64.to_bits(), 2.5f64.to_bits()]);
}

#[test]
fn carriage_returns_and_final_newline_are_tolerated() {
    let t = text("E,rad_stp_pow,a,b\r\n0.25,0.125,0,0\r\n2.0,4.0,0,0");
    let table = parse_table(&t).unwrap();
    assert_eq!(table.e_k, vec![0.25f64.to_bits(), 2.0f64.to_bits()]);
    assert_eq!(table.rad, vec![0.125f64.to_bits(), 4.0f64.to_bits()]);
}

#[test]
fn missing_named_column_is_a_header_error() {
    let t = text("E,other,a,b\n1,2,3,4\n");
    assert_eq!(parse_table(&t).unwrap_err(), Error::ParseError { row: 0 });
}

#[test]
fn fewer_than_four_columns_is_a_header_error() {
    let t = text("E,rad_stp_pow\n1,2\n");
    assert_eq!(parse_table(&t).unwrap_err(), Error::ParseError { row: 0 });
}

#[test]
fn malformed_cell_names_its_row() {
    let t = text("E,rad_stp_pow,a,b\n0.01,0.5,1,2\n1.0,not_a_number,3,4\n");
    assert_eq!(parse_table(&t).unwrap_err(), Error::ParseError { row: 2 });
}

#[test]
fn short_row_names_its_row() {
    let t = text("E,rad_stp_pow,a,b\n0.01,0.5,1\n");
    assert_eq!(parse_table(&t).unwrap_err(), Error::ParseError { row: 1 });
}

#[test]
fn parsed_table_runs_through_the_pipeline() {
    let t = text("E,rad_stp_pow,a,b\n0.01,0.0,0,0\n0.1,0.1,0,0\n1.0,0.2,0,0\n10.0,0.3,0,0\n1e4,0.4,0,0\n");
    let table = parse_table(&t).unwrap();
    let out = stopping_power_table(&table.e_k, &table.rad, 0.1f64.to_bits()).unwrap();
    assert_eq!(out.0.len(), 1000);
    assert_eq!(out.1.len(), 1000);
}
