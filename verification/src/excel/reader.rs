//! Reading one table out of a worksheet range: a header row, then one row
//! per point of the curve, abscissa in the first column and ordinate in the
//! second.
use vstd::prelude::*;

use super::{CurveData, CurveExt, CurveTable};
use calamine::{Data, DataType, Range};

verus! {

#[verifier::external_type_specification]
#[verifier::external_body]
#[verifier::reject_recursive_types(T)]
pub struct ExRange<T>(calamine::Range<T>);

#[verifier::external_type_specification]
#[verifier::external_body]
pub struct ExData(calamine::Data);

#[verifier::external_type_specification]
#[verifier::external_body]
pub struct ExCalamineError(calamine::Error);

/// What a worksheet range holds: for each `(row, column)` position, relative
/// to the range's top left cell, at which `Range::get` finds a cell, that
/// cell's numeric reading (`DataType::as_f64`, as the bit pattern of the
/// double), `None` where the cell does not read as a number.
pub uninterp spec fn sheet_readings(r: Range<Data>) -> Map<(usize, usize), Option<u64>>;

/// The `(height, width)` of a worksheet range, as `Range::get_size`,
/// `Range::height` and `Range::width` report them.
pub uninterp spec fn sheet_size(r: Range<Data>) -> (usize, usize);

/// `calamine::Range::width`: the number of columns of the range. The source
/// computes it as `(end.1 - start.1 + 1) as usize` in `u32` arithmetic, the
/// same span every constructor of a range computes, so it never exceeds
/// `u32::MAX` and the call does not panic.
#[verifier::external_body]
fn range_width(r: &Range<Data>) -> (w: usize)
    ensures
        w == sheet_size(*r).1,
        w <= u32::MAX,
{
    r.width()
}

/// `calamine::Range::height`: the number of rows of the range. The source
/// computes it as `(end.0 - start.0 + 1) as usize` in `u32` arithmetic, the
/// same span every constructor of a range computes, so it never exceeds
/// `u32::MAX` and the call does not panic.
#[verifier::external_body]
fn range_height(r: &Range<Data>) -> (h: usize)
    ensures
        h == sheet_size(*r).0,
        h <= u32::MAX,
{
    r.height()
}

/// The cell found at a position relative to the range's top left cell, as
/// its numeric reading; `None` where the range has no cell there.
pub open spec fn cell_at(r: Range<Data>, row: usize, col: usize) -> Option<Option<u64>> {
    if sheet_readings(r).dom().contains((row, col)) {
        Some(sheet_readings(r)[(row, col)])
    } else {
        None
    }
}

/// `calamine::Range::get` at a position relative to the range's top left
/// cell, the cell found handed out as its numeric reading
/// (`DataType::as_f64`, as bits): `None` where no cell lies at the position.
/// What `as_f64` makes of a cell (integers and booleans converted, text
/// parsed, other kinds refused) is not stated; it stands in
/// `sheet_readings`.
#[verifier::external_body]
fn range_reading(r: &Range<Data>, pos: (usize, usize)) -> (res: Option<Option<u64>>)
    ensures
        res == (if sheet_readings(*r).dom().contains(pos) {
            Some(sheet_readings(*r)[pos])
        } else {
            None::<Option<u64>>
        }),
{
    r.get(pos).map(|cell| cell.as_f64().map(|v| v.to_bits()))
}

/// The number in the cell at relative `(row, col)`: `None` where the range
/// has no cell there or the cell does not read as a number.
pub open spec fn cell_number(r: Range<Data>, row: int, col: int) -> Option<u64> {
    match cell_at(r, row as usize, col as usize) {
        Some(Some(v)) => Some(v),
        _ => None,
    }
}

/// Data rows `1..=n` (relative; row 0 is the header) read into the first
/// and the second column, or the 1-based `(row, column)` of the first cell,
/// row by row and left to right, that holds no number.
pub open spec fn read_rows(r: Range<Data>, n: nat) -> Result<(Seq<u64>, Seq<u64>), (int, int)>
    decreases n,
{
    if n == 0 {
        Ok((Seq::empty(), Seq::empty()))
    } else {
        match read_rows(r, (n - 1) as nat) {
            Err(e) => Err(e),
            Ok((xs, ys)) => match cell_number(r, n as int, 0) {
                None => Err((n + 1 as int, 1)),
                Some(a) => match cell_number(r, n as int, 1) {
                    None => Err((n + 1 as int, 2)),
                    Some(b) => Ok((xs.push(a), ys.push(b))),
                },
            },
        }
    }
}

/// What a worksheet range parses to. A range must be two columns wide and at
/// least two rows high, a header and a data row, else the error carries its
/// height and width; then the rows below the header are read, and the
/// domain is the first and the last abscissa.
pub open spec fn parsed_sheet(r: Range<Data>) -> Result<CurveTable, super::ExcelError> {
    let (h, w) = sheet_size(r);
    if w != 2 || h < 2 {
        Err(super::ExcelError::ShapeErr(h, w))
    } else {
        match read_rows(r, (h - 1) as nat) {
            Err((row, col)) => Err(super::ExcelError::EmptyCellErr(row as usize, col as usize)),
            Ok((xs, ys)) => Ok(CurveTable { x: xs, y: ys, domain: (xs[0], xs[xs.len() - 1]) }),
        }
    }
}

/// Rows `1..=n` read without error exactly when each of their two cells
/// holds a number, and then the columns hold those numbers, row by row.
pub proof fn lemma_read_rows(r: Range<Data>, n: nat)
    ensures
        read_rows(r, n) is Ok <==> forall|k: int, c: int|
            1 <= k <= n && 0 <= c < 2 ==> (#[trigger] cell_number(r, k, c)) is Some,
        read_rows(r, n) matches Ok((xs, ys)) ==> {
            &&& xs.len() == n
            &&& ys.len() == n
            &&& forall|i: int| 0 <= i < n ==> Some(#[trigger] xs[i]) == cell_number(r, i + 1, 0)
            &&& forall|i: int| 0 <= i < n ==> Some(#[trigger] ys[i]) == cell_number(r, i + 1, 1)
        },
    decreases n,
{
    if n > 0 {
        lemma_read_rows(r, (n - 1) as nat);
        if read_rows(r, n) is Ok {
            assert forall|k: int, c: int| 1 <= k <= n && 0 <= c < 2 implies
                (#[trigger] cell_number(r, k, c)) is Some by {
                if k < n {
                    assert(read_rows(r, (n - 1) as nat) is Ok);
                }
            }
        }
    }
}

/// A sheet parses exactly when it is two columns wide, at least two rows
/// high, and each cell of the rows below the header holds a number; its
/// table then holds those numbers, one entry per data row, and its domain
/// runs from the first to the last abscissa.
pub proof fn lemma_parsed_table(r: Range<Data>)
    ensures
        parsed_sheet(r) is Ok <==> {
            &&& sheet_size(r).1 == 2
            &&& sheet_size(r).0 >= 2
            &&& forall|k: int, c: int| 1 <= k < sheet_size(r).0 && 0 <= c < 2
                ==> (#[trigger] cell_number(r, k, c)) is Some
        },
        parsed_sheet(r) matches Ok(t) ==> {
            &&& t.x.len() == sheet_size(r).0 - 1
            &&& t.y.len() == sheet_size(r).0 - 1
            &&& forall|i: int| 0 <= i < t.x.len() ==> Some(#[trigger] t.x[i]) == cell_number(r, i + 1, 0)
            &&& forall|i: int| 0 <= i < t.y.len() ==> Some(#[trigger] t.y[i]) == cell_number(r, i + 1, 1)
            &&& t.domain == (t.x[0], t.x[t.x.len() - 1])
        },
{
    if sheet_size(r).0 >= 1 {
        lemma_read_rows(r, (sheet_size(r).0 - 1) as nat);
    }
}

/// A reading of rows `1..=n` that fails names a cell of those rows that
/// holds no number, and every cell before it, row by row and left to
/// right, holds one.
proof fn lemma_read_rows_err(r: Range<Data>, n: nat)
    ensures
        read_rows(r, n) matches Err((row, col)) ==> {
            &&& 2 <= row <= n + 1
            &&& 1 <= col <= 2
            &&& cell_number(r, row - 1, col - 1) is None
            &&& forall|k: int, c: int| 1 <= k < row - 1 && 0 <= c < 2 ==> (#[trigger] cell_number(r, k, c)) is Some
            &&& forall|c: int| 0 <= c < col - 1 ==> (#[trigger] cell_number(r, row - 1, c)) is Some
        },
    decreases n,
{
    if n > 0 {
        lemma_read_rows_err(r, (n - 1) as nat);
        lemma_read_rows(r, (n - 1) as nat);
    }
}

/// What a sheet that does not parse is refused for: a sheet that is not two
/// columns wide, or has no row below its header, gives its height and width;
/// otherwise the error names the first cell below the header, row by row and
/// left to right, that holds no number, as its 1-based row and column.
pub proof fn lemma_parse_errors(r: Range<Data>)
    ensures
        sheet_size(r).1 != 2 || sheet_size(r).0 < 2
            ==> parsed_sheet(r) == Err::<CurveTable, _>(super::ExcelError::ShapeErr(sheet_size(r).0, sheet_size(r).1)),
        parsed_sheet(r) matches Err(super::ExcelError::EmptyCellErr(row, col)) ==> {
            &&& sheet_size(r).1 == 2
            &&& 2 <= row <= sheet_size(r).0
            &&& 1 <= col <= 2
            &&& cell_number(r, row - 1, col - 1) is None
            &&& forall|k: int, c: int| 1 <= k < row - 1 && 0 <= c < 2 ==> (#[trigger] cell_number(r, k, c)) is Some
            &&& forall|c: int| 0 <= c < col - 1 ==> (#[trigger] cell_number(r, row - 1, c)) is Some
        },
        parsed_sheet(r) is Err ==> (parsed_sheet(r) matches Err(super::ExcelError::ShapeErr(_, _))
            || parsed_sheet(r) matches Err(super::ExcelError::EmptyCellErr(_, _))),
{
    if sheet_size(r).0 >= 1 {
        lemma_read_rows_err(r, (sheet_size(r).0 - 1) as nat);
    }
}

/// Two ranges of the same size that hold the same cells below their first
/// row read alike.
proof fn lemma_read_rows_ignore_header(r1: Range<Data>, r2: Range<Data>, n: nat)
    requires
        n <= usize::MAX,
        forall|row: usize, col: usize| 1 <= row ==> #[trigger] cell_at(r1, row, col) == cell_at(r2, row, col),
    ensures
        read_rows(r1, n) == read_rows(r2, n),
    decreases n,
{
    if n > 0 {
        lemma_read_rows_ignore_header(r1, r2, (n - 1) as nat);
        assert(cell_at(r1, n as usize, 0) == cell_at(r2, n as usize, 0));
        assert(cell_at(r1, n as usize, 1) == cell_at(r2, n as usize, 1));
    }
}

/// The header row never changes what a sheet parses to: two ranges of the
/// same size that hold the same cells below their first row parse alike.
pub proof fn lemma_header_ignored(r1: Range<Data>, r2: Range<Data>)
    requires
        sheet_size(r1) == sheet_size(r2),
        forall|row: usize, col: usize| 1 <= row ==> #[trigger] cell_at(r1, row, col) == cell_at(r2, row, col),
    ensures
        parsed_sheet(r1) == parsed_sheet(r2),
{
    if sheet_size(r1).0 >= 1 {
        lemma_read_rows_ignore_header(r1, r2, (sheet_size(r1).0 - 1) as nat);
    }
}

/// Once a row fails to read, every longer reading fails with the same cell.
proof fn lemma_read_rows_err_persists(r: Range<Data>, m: nat, n: nat)
    requires
        m <= n,
        read_rows(r, m) is Err,
    ensures
        read_rows(r, n) == read_rows(r, m),
    decreases n - m,
{
    if m < n {
        lemma_read_rows_err_persists(r, m, (n - 1) as nat);
    }
}

/// Reads a table out of a worksheet range (see [`parsed_sheet`]).
pub fn parse_sheet(range: &Range<Data>) -> (res: Result<CurveData, super::ExcelError>)
    ensures
        match res {
            Ok(d) => parsed_sheet(*range) == Ok::<_, super::ExcelError>(d@),
            Err(e) => parsed_sheet(*range) == Err::<CurveTable, _>(e),
        },
{
    let width = range_width(range);
    let height = range_height(range);
    if width != 2 || height < 2 {
        return Err(super::ExcelError::ShapeErr(height, width));
    }
    let rows = height - 1;
    let mut x: Vec<u64> = Vec::new();
    let mut y: Vec<u64> = Vec::new();
    let mut done: usize = 0;
    while done < rows
        invariant
            done <= rows,
            rows + 1 == height,
            height == sheet_size(*range).0,
            sheet_size(*range).1 == 2,
            2 <= height <= u32::MAX,
            x@.len() == done,
            read_rows(*range, done as nat) == Ok::<_, (int, int)>((x@, y@)),
        decreases rows - done,
    {
        let row = done + 1;
        let a = match range_reading(range, (row, 0)) {
            Some(Some(v)) => v,
            _ => {
                proof {
                    lemma_read_rows_err_persists(*range, row as nat, rows as nat);
                }
                return Err(super::ExcelError::EmptyCellErr(row + 1, 1));
            },
        };
        let b = match range_reading(range, (row, 1)) {
            Some(Some(v)) => v,
            _ => {
                proof {
                    lemma_read_rows_err_persists(*range, row as nat, rows as nat);
                }
                return Err(super::ExcelError::EmptyCellErr(row + 1, 2));
            },
        };
        x.push(a);
        y.push(b);
        done = row;
    }
    let first = x[0];
    let last = x[x.len() - 1];
    Ok(CurveData { domain: (first, last), x, y })
}

/// Reading a table out of a worksheet range.
pub trait Paser: CurveExt {
    /// Reads this table out of its worksheet range (see [`parsed_sheet`]).
    fn paser_data(range: Range<Data>) -> (res: Result<CurveData, super::ExcelError>)
        ensures
            match res {
                Ok(d) => parsed_sheet(range) == Ok::<_, super::ExcelError>(d@),
                Err(e) => parsed_sheet(range) == Err::<CurveTable, _>(e),
            },
    {
        parse_sheet(&range)
    }
}

} // verus!
