//! Layout of the result sheet: where each quantity of a routing step goes.
use vstd::prelude::*;

verus! {

/// The quantities recorded for each step of the routing.
#[derive(Debug, Clone, Copy, PartialEq, Eq, Structural)]
pub enum StepField {
    /// Time at the end of the step (h).
    T,
    /// Inflow at the end of the step (m³/s).
    I,
    /// Mean inflow over the step (m³/s).
    IAvg,
    /// Inflow volume over the step (10⁴ m³).
    VIn,
    /// Outflow at the end of the step (m³/s).
    Q,
    /// Mean outflow over the step (m³/s).
    QAvg,
    /// Outflow volume over the step (10⁴ m³).
    VOut,
    /// Change of storage over the step (10⁴ m³).
    DeltaV,
    /// Storage at the end of the step (10⁴ m³).
    V,
    /// Water level at the end of the step (m).
    Z,
}

/// The zero-based column that holds a quantity, the one under its header.
pub open spec fn field_column(f: StepField) -> u16 {
    match f {
        StepField::T => 0,
        StepField::I => 1,
        StepField::IAvg => 2,
        StepField::VIn => 3,
        StepField::Q => 4,
        StepField::QAvg => 5,
        StepField::VOut => 6,
        StepField::DeltaV => 7,
        StepField::V => 8,
        StepField::Z => 9,
    }
}

/// The column into which the values of a quantity are written.
pub fn column_of(f: &StepField) -> (c: u16)
    ensures
        c == field_column(*f),
{
    match f {
        StepField::T => 0,
        StepField::I => 1,
        StepField::IAvg => 2,
        StepField::VIn => 3,
        StepField::Q => 4,
        StepField::QAvg => 5,
        StepField::VOut => 6,
        StepField::DeltaV => 7,
        StepField::V => 8,
        StepField::Z => 9,
    }
}

/// The zero-based sheet row of the step with this index: below the title
/// (row 0) and the header (row 1), taken modulo 2³² as the sheet's row type.
pub fn data_row(index: usize) -> (row: u32)
    requires
        index + 2 <= usize::MAX,
    ensures
        row == (index + 2) as u32,
{
    (index + 2) as u32
}

/// The first and the last sheet row that the inflow and outflow series of
/// the chart take their values from, for a table of `n_steps` steps: all the
/// rows of steps, taken modulo 2³² as the sheet's row type.
pub fn chart_rows(n_steps: usize) -> (rows: (u32, u32))
    requires
        n_steps + 1 <= usize::MAX,
    ensures
        rows == (2u32, (n_steps + 1) as u32),
{
    (2, (n_steps + 1) as u32)
}

/// The columns the chart reads: the time as categories, the inflow and the
/// outflow (rates, in m³/s, the unit of the chart's axis) as values.
pub fn chart_columns() -> (cols: (u16, u16, u16))
    ensures
        cols == (field_column(StepField::T), field_column(StepField::I), field_column(StepField::Q)),
{
    (column_of(&StepField::T), column_of(&StepField::I), column_of(&StepField::Q))
}

/// Distinct quantities go to distinct columns, each one of the ten columns
/// under the header.
pub proof fn lemma_columns_distinct(f: StepField, g: StepField)
    requires
        f != g,
    ensures
        field_column(f) != field_column(g),
        field_column(f) < 10,
{
}

/// Steps are written one per row, in order, below the title and the header,
/// as long as the sheet's rows suffice.
pub proof fn lemma_rows_ordered(i: usize, j: usize)
    requires
        i < j,
        j + 2 <= u32::MAX,
    ensures
        2 <= ((i + 2) as u32),
        ((i + 2) as u32) < ((j + 2) as u32),
{
}

/// The chart of `n` steps starts at the row of the first step and ends at
/// the row of the last one (the rows of [`chart_rows`] and [`data_row`]).
pub proof fn lemma_chart_spans_steps(n: usize)
    requires
        1 <= n,
        n + 1 <= u32::MAX,
    ensures
        (2u32, (n + 1) as u32) == (((0 + 2) as u32), (((n - 1) + 2) as u32)),
{
}

} // verus!
