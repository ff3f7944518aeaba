//! The values written to a day sheet for one attendance row.

use vstd::prelude::*;
use crate::entry::Row;
use crate::resolver::ROW_SPAN;
use crate::text::{decimal_of, decimal_text};

verus! {

/// Rows are written along the sheet's rows.
pub const MAJOR_DIMENSION: &'static str = "ROWS";

/// Values are taken as if a user had typed them.
pub const VALUE_INPUT_OPTION: &'static str = "USER_ENTERED";

/// The values to append to a range of a sheet, one row of cells.
pub struct ValueRange {
    pub major_dimension: String,
    pub range: String,
    pub values: Vec<String>,
}

/// The cells of a row, in the sheet's column order.
pub open spec fn cells_of(row: Row) -> Seq<Seq<char>> {
    seq![
        decimal_of(row.serial_number as nat),
        row.name@,
        row.roll_number@,
        row.seat_number@,
        row.time_in@,
        row.time_out@,
    ]
}

/// The cells of a row as text, in the sheet's column order.
pub fn row_cells(row: Row) -> (r: Vec<String>)
    ensures
        r@.map_values(|c: String| c@) == cells_of(row),
{
    let ghost original = row;
    let serial = decimal_text(row.serial_number);
    let values = vec![
        serial,
        row.name,
        row.roll_number,
        row.seat_number,
        row.time_in,
        row.time_out,
    ];
    assert(values@.map_values(|c: String| c@) =~= cells_of(original));
    values
}

impl ValueRange {
    /// The append of `row` to the day sheet `sheet_name`.
    pub fn from_row(row: Row, sheet_name: &str) -> (r: ValueRange)
        ensures
            r.major_dimension@ == MAJOR_DIMENSION@,
            r.range@ == sheet_name@ + ROW_SPAN@,
            r.values@.map_values(|c: String| c@) == cells_of(row),
    {
        let values = row_cells(row);
        ValueRange {
            major_dimension: String::from_str(MAJOR_DIMENSION),
            range: String::from_str(sheet_name).concat(ROW_SPAN),
            values,
        }
    }
}

} // verus!
