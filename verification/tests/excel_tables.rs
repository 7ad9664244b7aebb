use calamine::{Data, Range};
use flood_routing::excel::reader::{parse_sheet, Paser};
use flood_routing::excel::{ExcelData, ExcelError, InflowHydrograph, WaterLevelWithStorge};

fn bits(v: &[f64]) -> Vec<u64> {
    v.iter().map(|x| x.to_bits()).collect()
}

fn text(s: &str) -> Data {
    Data::String(s.to_string())
}

/// A two-column range whose top left cell is `origin`, rows as given.
fn table_at(origin: (u32, u32), rows: &[(Data, Data)]) -> Range<Data> {
    let last = origin.0 + rows.len() as u32 - 1;
    let mut r = Range::new(origin, (last, origin.1 + 1));
    for (i, (a, b)) in rows.iter().enumerate() {
        r.set_value((origin.0 + i as u32, origin.1), a.clone());
        r.set_value((origin.0 + i as u32, origin.1 + 1), b.clone());
    }
    r
}

/// A sheet from A1: a header row, then one row per point.
fn sheet(points: &[(f64, f64)]) -> Range<Data> {
    let mut rows = vec![(text("x"), text("y"))];
    rows.extend(points.iter().map(|(a, b)| (Data::Float(*a), Data::Float(*b))));
    table_at((0, 0), &rows)
}

#[test]
fn reads_rows_below_header() {
    let d = parse_sheet(&sheet(&[(0.0, 10.0), (1.5, 20.0), (3.0, 15.5)])).unwrap();
    assert_eq!(d.x, bits(&[0.0, 1.5, 3.0]));
    assert_eq!(d.y, bits(&[10.0, 20.0, 15.5]));
    assert_eq!(d.domain, (0.0f64.to_bits(), 3.0f64.to_bits()));
}

#[test]
fn header_and_two_points() {
    let r = table_at(
        (0, 0),
        &[
            (text("x"), text("y")),
            (Data::Float(0.0), Data::Float(1.0)),
            (Data::Float(2.0), Data::Float(5.0)),
        ],
    );
    let d = InflowHydrograph::paser_data(r).unwrap();
    assert_eq!(d.x, bits(&[0.0, 2.0]));
    assert_eq!(d.y, bits(&[1.0, 5.0]));
    assert_eq!(d.domain, (0.0f64.to_bits(), 2.0f64.to_bits()));
}

#[test]
fn range_away_from_a1_reads_relative_rows() {
    let r = table_at(
        (2, 1),
        &[
            (text("t"), text("q")),
            (Data::Float(1.0), Data::Float(2.0)),
            (Data::Float(3.0), Data::Float(4.0)),
        ],
    );
    let d = parse_sheet(&r).unwrap();
    assert_eq!(d.x, bits(&[1.0, 3.0]));
    assert_eq!(d.y, bits(&[2.0, 4.0]));
}

#[test]
fn header_content_is_ignored() {
    let a = table_at(
        (0, 0),
        &[(text("x"), text("y")), (Data::Float(0.0), Data::Float(1.0))],
    );
    let b = table_at(
        (0, 0),
        &[(Data::Float(7.0), Data::Empty), (Data::Float(0.0), Data::Float(1.0))],
    );
    let da = parse_sheet(&a).unwrap();
    let db = parse_sheet(&b).unwrap();
    assert_eq!(da.x, db.x);
    assert_eq!(da.y, db.y);
    assert_eq!(da.domain, db.domain);
}

#[test]
fn integers_booleans_and_numeric_text_read_as_numbers() {
    let r = table_at(
        (0, 0),
        &[
            (text("x"), text("y")),
            (Data::Int(2), Data::Bool(true)),
            (text("4.25"), Data::Float(-1.0)),
        ],
    );
    let d = InflowHydrograph::paser_data(r).unwrap();
    assert_eq!(d.x, bits(&[2.0, 4.25]));
    assert_eq!(d.y, bits(&[1.0, -1.0]));
    assert_eq!(d.domain, (2.0f64.to_bits(), 4.25f64.to_bits()));
}

#[test]
fn one_column_is_a_shape_error_rows_then_columns() {
    let mut r: Range<Data> = Range::new((0, 0), (2, 0));
    r.set_value((0, 0), text("x"));
    r.set_value((1, 0), Data::Float(0.0));
    r.set_value((2, 0), Data::Float(2.0));
    match parse_sheet(&r) {
        Err(ExcelError::ShapeErr(3, 1)) => {}
        other => panic!("unexpected {:?}", other),
    }
}

#[test]
fn three_columns_is_a_shape_error() {
    let mut r: Range<Data> = Range::new((0, 0), (3, 2));
    r.set_value((1, 0), Data::Float(1.0));
    match parse_sheet(&r) {
        Err(ExcelError::ShapeErr(4, 3)) => {}
        other => panic!("unexpected {:?}", other),
    }
}

#[test]
fn header_without_data_is_a_shape_error() {
    let r = sheet(&[]);
    match parse_sheet(&r) {
        Err(ExcelError::ShapeErr(1, 2)) => {}
        other => panic!("unexpected {:?}", other),
    }
}

#[test]
fn empty_range_is_a_shape_error() {
    let r: Range<Data> = Range::empty();
    match parse_sheet(&r) {
        Err(ExcelError::ShapeErr(0, 0)) => {}
        other => panic!("unexpected {:?}", other),
    }
}

#[test]
fn text_cell_names_its_row_and_column() {
    let r = table_at(
        (0, 0),
        &[
            (text("x"), text("y")),
            (Data::Float(0.0), Data::Float(1.0)),
            (Data::Float(1.0), text("abc")),
            (Data::Empty, Data::Float(3.0)),
        ],
    );
    match parse_sheet(&r) {
        Err(ExcelError::EmptyCellErr(3, 2)) => {}
        other => panic!("unexpected {:?}", other),
    }
}

#[test]
fn empty_first_column_comes_before_second() {
    let r = table_at(
        (0, 0),
        &[
            (text("x"), text("y")),
            (Data::Float(0.0), Data::Float(1.0)),
            (Data::Empty, Data::Empty),
        ],
    );
    match parse_sheet(&r) {
        Err(ExcelError::EmptyCellErr(3, 1)) => {}
        other => panic!("unexpected {:?}", other),
    }
}

#[test]
fn table_has_one_entry_per_data_row() {
    let points: Vec<(f64, f64)> = (0..20).map(|i| (i as f64, (i * i) as f64)).collect();
    let d = WaterLevelWithStorge::paser_data(sheet(&points)).unwrap();
    assert_eq!(d.x.len(), 20);
    assert_eq!(d.y.len(), 20);
    assert_eq!(d.domain, (d.x[0], d.x[19]));
}

#[test]
fn workbook_reads_three_tables() {
    let data = ExcelData::build(
        Ok(sheet(&[(0.0, 100.0), (2.0, 300.0)])),
        Ok(sheet(&[(50.0, 1000.0), (60.0, 2000.0)])),
        Ok(sheet(&[(50.0, 0.0), (60.0, 500.0)])),
    )
    .unwrap();
    assert_eq!(data.water_comming.y, bits(&[100.0, 300.0]));
    assert_eq!(data.water_level_with_storage.x, bits(&[50.0, 60.0]));
    assert_eq!(data.water_level_with_discharge.y, bits(&[0.0, 500.0]));
}

#[test]
fn workbook_reports_first_failing_sheet() {
    let res = ExcelData::build(
        Ok(sheet(&[(0.0, 100.0), (2.0, 300.0)])),
        Ok(sheet(&[])),
        Err(calamine::Error::Msg("missing sheet")),
    );
    match res {
        Err(ExcelError::ShapeErr(1, 2)) => {}
        other => panic!("unexpected {:?}", other),
    }
    let res = ExcelData::build(
        Ok(sheet(&[(0.0, 100.0), (2.0, 300.0)])),
        Err(calamine::Error::Msg("missing sheet")),
        Ok(sheet(&[])),
    );
    match res {
        Err(ExcelError::ReadIOErr(calamine::Error::Msg("missing sheet"))) => {}
        other => panic!("unexpected {:?}", other),
    }
}
