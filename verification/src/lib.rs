//! Verified core of a reservoir flood-routing tool: reading the three
//! characteristic tables of a reservoir out of a workbook, choosing the
//! window in which inflow and outflow cross, checking the command line and
//! laying out the result sheet.
pub mod algorithm;
pub mod cli;
pub mod excel;
