//! The three characteristic tables of a reservoir, read out of a workbook.
use vstd::prelude::*;

pub mod reader;
pub mod writer;

use calamine::{Data, Range};
use reader::{parsed_sheet, Paser};

verus! {

#[verifier::external_type_specification]
#[verifier::external_body]
pub struct ExXlsxError(rust_xlsxwriter::XlsxError);

#[verifier::external_type_specification]
#[verifier::external_body]
pub struct ExBSplineError(enterpolation::bspline::BSplineError);

/// What can go wrong while reading or writing a workbook.
#[derive(Debug)]
pub enum ExcelError {
    /// The workbook or one of its sheets could not be read.
    ReadIOErr(calamine::Error),
    /// The result workbook could not be written.
    WriteIOErr(rust_xlsxwriter::XlsxError),
    /// The sheet is not two columns with a header and at least one data row;
    /// carries the sheet's number of rows (header included), then of columns.
    ShapeErr(usize, usize),
    /// The cell at this 1-based (row, column) of the sheet's range, header
    /// row included, holds no number.
    EmptyCellErr(usize, usize),
    /// No interpolation curve could be fitted through the named table.
    BuildCurveErr(String, enterpolation::bspline::BSplineError),
}

/// One table of the workbook: the abscissas `x` (first column), the ordinates
/// `y` (second column), each number kept as the bit pattern of its IEEE-754
/// double, and the domain, the first and the last abscissa.
#[derive(Debug)]
pub struct CurveData {
    pub x: Vec<u64>,
    pub y: Vec<u64>,
    /// Definition domain: `(x[0], x[x.len() - 1])`.
    pub domain: (u64, u64),
}

/// The mathematical content of a [`CurveData`].
pub struct CurveTable {
    pub x: Seq<u64>,
    pub y: Seq<u64>,
    pub domain: (u64, u64),
}

impl View for CurveData {
    type V = CurveTable;

    open spec fn view(&self) -> CurveTable {
        CurveTable { x: self.x@, y: self.y@, domain: self.domain }
    }
}

/// A table of the workbook: its display name and the sheet it is read from.
pub trait CurveExt {
    /// Name of the curve.
    const NAME: &'static str;
    /// Name of the worksheet that holds the curve.
    const SHEET_NAME: &'static str;
}

/// The inflow hydrograph: inflow (m³/s) against time (h).
pub struct InflowHydrograph;

/// The storage curve: storage (10⁴ m³) against water level (m).
pub struct WaterLevelWithStorge;

/// The spillway curve: discharge (m³/s) against water level (m).
pub struct WaterLevelWithDischarge;

impl CurveExt for InflowHydrograph {
    const NAME: &'static str = "洪水过程线";
    const SHEET_NAME: &'static str = "来水过程";
}

impl CurveExt for WaterLevelWithStorge {
    const NAME: &'static str = "库容特性曲线";
    const SHEET_NAME: &'static str = "水位-库容关系";
}

impl CurveExt for WaterLevelWithDischarge {
    const NAME: &'static str = "溢洪道特性曲线";
    const SHEET_NAME: &'static str = "水位-泄流关系";
}

impl Paser for InflowHydrograph {}

impl Paser for WaterLevelWithStorge {}

impl Paser for WaterLevelWithDischarge {}

/// The tables a sheet gives once it has been loaded: the load's own error, or
/// what the sheet parses to.
pub open spec fn loaded_table(sheet: Result<Range<Data>, calamine::Error>) -> Result<CurveTable, ExcelError> {
    match sheet {
        Err(e) => Err(ExcelError::ReadIOErr(e)),
        Ok(r) => parsed_sheet(r),
    }
}

/// The three tables of a workbook, taken in the order inflow, storage,
/// discharge: the first error met, or the three tables.
pub open spec fn workbook_tables(
    inflow: Result<Range<Data>, calamine::Error>,
    storage: Result<Range<Data>, calamine::Error>,
    discharge: Result<Range<Data>, calamine::Error>,
) -> Result<(CurveTable, CurveTable, CurveTable), ExcelError> {
    match loaded_table(inflow) {
        Err(e) => Err(e),
        Ok(a) => match loaded_table(storage) {
            Err(e) => Err(e),
            Ok(b) => match loaded_table(discharge) {
                Err(e) => Err(e),
                Ok(c) => Ok((a, b, c)),
            },
        },
    }
}

/// The sheet was loaded and parses.
pub open spec fn sheet_parses(sheet: Result<Range<Data>, calamine::Error>) -> bool {
    sheet matches Ok(r) && parsed_sheet(r) is Ok
}

/// Each table of a workbook comes from its own sheet: the tables are there
/// exactly when each sheet was loaded and parses, and then the inflow,
/// storage and discharge tables are what the inflow, storage and discharge
/// sheets parse to. Otherwise the error is that of the first sheet, in the
/// order inflow, storage, discharge, that fails to load or to parse.
pub proof fn lemma_workbook_tables_by_sheet(
    inflow: Result<Range<Data>, calamine::Error>,
    storage: Result<Range<Data>, calamine::Error>,
    discharge: Result<Range<Data>, calamine::Error>,
)
    ensures
        workbook_tables(inflow, storage, discharge) is Ok
            <==> sheet_parses(inflow) && sheet_parses(storage) && sheet_parses(discharge),
        workbook_tables(inflow, storage, discharge) matches Ok((ta, tb, tc)) ==> {
            &&& inflow matches Ok(a) && parsed_sheet(a) == Ok::<_, ExcelError>(ta)
            &&& storage matches Ok(b) && parsed_sheet(b) == Ok::<_, ExcelError>(tb)
            &&& discharge matches Ok(c) && parsed_sheet(c) == Ok::<_, ExcelError>(tc)
        },
        inflow matches Err(e) ==> workbook_tables(inflow, storage, discharge)
            == Err::<(CurveTable, CurveTable, CurveTable), _>(ExcelError::ReadIOErr(e)),
        inflow matches Ok(a) ==> (parsed_sheet(a) matches Err(e) ==> workbook_tables(inflow, storage, discharge)
            == Err::<(CurveTable, CurveTable, CurveTable), _>(e)),
        sheet_parses(inflow) ==> (storage matches Err(e) ==> workbook_tables(inflow, storage, discharge)
            == Err::<(CurveTable, CurveTable, CurveTable), _>(ExcelError::ReadIOErr(e))),
        sheet_parses(inflow) ==> (storage matches Ok(b) ==> (parsed_sheet(b) matches Err(e)
            ==> workbook_tables(inflow, storage, discharge) == Err::<(CurveTable, CurveTable, CurveTable), _>(e))),
        sheet_parses(inflow) && sheet_parses(storage) ==> (discharge matches Err(e)
            ==> workbook_tables(inflow, storage, discharge) == Err::<(CurveTable, CurveTable, CurveTable), _>(ExcelError::ReadIOErr(e))),
        sheet_parses(inflow) && sheet_parses(storage) ==> (discharge matches Ok(c) ==> (
            parsed_sheet(c) matches Err(e) ==> workbook_tables(inflow, storage, discharge) == Err::<(CurveTable, CurveTable, CurveTable), _>(e))),
{
}

/// The tables of one workbook.
#[derive(Debug)]
pub struct ExcelData {
    pub water_comming: CurveData,
    pub water_level_with_storage: CurveData,
    pub water_level_with_discharge: CurveData,
}

impl View for ExcelData {
    type V = (CurveTable, CurveTable, CurveTable);

    open spec fn view(&self) -> (CurveTable, CurveTable, CurveTable) {
        (self.water_comming@, self.water_level_with_storage@, self.water_level_with_discharge@)
    }
}

impl ExcelData {
    /// Reads the inflow, storage and discharge tables out of their loaded
    /// sheets, in that order, stopping at the first error.
    pub fn build(
        inflow: Result<Range<Data>, calamine::Error>,
        storage: Result<Range<Data>, calamine::Error>,
        discharge: Result<Range<Data>, calamine::Error>,
    ) -> (res: Result<Self, ExcelError>)
        ensures
            match res {
                Ok(d) => workbook_tables(inflow, storage, discharge) == Ok::<_, ExcelError>(d@),
                Err(e) => workbook_tables(inflow, storage, discharge) == Err::<(CurveTable, CurveTable, CurveTable), _>(e),
            },
            res matches Ok(d) ==> {
                &&& inflow matches Ok(a) && parsed_sheet(a) == Ok::<_, ExcelError>(d.water_comming@)
                &&& storage matches Ok(b) && parsed_sheet(b) == Ok::<_, ExcelError>(d.water_level_with_storage@)
                &&& discharge matches Ok(c) && parsed_sheet(c) == Ok::<_, ExcelError>(d.water_level_with_discharge@)
            },
            res is Ok <==> sheet_parses(inflow) && sheet_parses(storage) && sheet_parses(discharge),
    {
        let water_comming = match inflow {
            Err(e) => return Err(ExcelError::ReadIOErr(e)),
            Ok(r) => InflowHydrograph::paser_data(r)?,
        };
        let water_level_with_storage = match storage {
            Err(e) => return Err(ExcelError::ReadIOErr(e)),
            Ok(r) => WaterLevelWithStorge::paser_data(r)?,
        };
        let water_level_with_discharge = match discharge {
            Err(e) => return Err(ExcelError::ReadIOErr(e)),
            Ok(r) => WaterLevelWithDischarge::paser_data(r)?,
        };
        Ok(ExcelData { water_comming, water_level_with_storage, water_level_with_discharge })
    }
}

} // verus!
