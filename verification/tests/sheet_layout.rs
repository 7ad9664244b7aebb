use flood_routing::excel::writer::{chart_columns, chart_rows, column_of, data_row, StepField};

const ALL: [StepField; 10] = [
    StepField::T,
    StepField::I,
    StepField::IAvg,
    StepField::VIn,
    StepField::Q,
    StepField::QAvg,
    StepField::VOut,
    StepField::DeltaV,
    StepField::V,
    StepField::Z,
];

#[test]
fn columns_follow_the_header() {
    let cols: Vec<u16> = ALL.iter().map(column_of).collect();
    assert_eq!(cols, vec![0, 1, 2, 3, 4, 5, 6, 7, 8, 9]);
}

#[test]
fn written_columns_are_distinct() {
    let mut cols: Vec<u16> = ALL.iter().map(column_of).collect();
    cols.sort();
    cols.dedup();
    assert_eq!(cols.len(), 10);
}

#[test]
fn steps_start_below_header() {
    assert_eq!(data_row(0), 2);
    assert_eq!(data_row(7), 9);
    assert!(data_row(3) < data_row(4));
}

#[test]
fn chart_rows_for_table() {
    assert_eq!(chart_rows(12), (2, 13));
    assert_eq!(chart_rows(1), (2, data_row(0)));
    assert_eq!(chart_rows(5).1, data_row(4));
}

#[test]
fn chart_reads_time_inflow_and_outflow_rate() {
    assert_eq!(chart_columns(), (0, 1, 4));
    assert_eq!(chart_columns().2, column_of(&StepField::Q));
}
