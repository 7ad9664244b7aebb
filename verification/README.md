# flood_routing

Reservoir flood routing by the trial (table) method: a workbook holds the
inflow hydrograph, the storage curve and the spillway curve of a reservoir;
the program routes the flood through the reservoir and writes the table of
steps, with a chart, to a new workbook.

- `src/` is the verified library (Verus):
  - `excel` and `excel::reader`: reading the three tables out of their
    worksheet ranges (shape checks, the first cell that holds no number,
    the table and its domain);
  - `excel::writer`: where each quantity of a step goes in the result sheet;
  - `algorithm`: the window of neighbouring steps in which inflow and
    outflow meet;
  - `cli`: the order in which the command line is checked and the messages.
- `app/` is the program around it: command line, workbook input and output,
  spline fitting, root finding and the water balance, all of which work on
  floating-point values.
- `tests/` exercises the library on concrete tables.
