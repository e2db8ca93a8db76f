//! The cells of one AUTD3 device on which a transducer sits.

use vstd::prelude::*;
use autd3_core::hardware_defined::is_missing_transducer;

verus! {

/// Columns of the grid of one device.
pub const COLUMNS: usize = 18;

/// Rows of the grid of one device.
pub const ROWS: usize = 14;

/// Transducers of one device: every cell of the grid but three.
pub const TRANSDUCERS: usize = 249;

/// Whether the cell in column `x` and row `y` holds no transducer.
pub open spec fn is_missing_spec(x: int, y: int) -> bool {
    y == 1 && (x == 1 || x == 2 || x == 16)
}

/// `autd3_core::hardware_defined::is_missing_transducer`: the three cells at
/// columns 1, 2 and 16 of row 1 are the ones without a transducer.
pub assume_specification[ autd3_core::hardware_defined::is_missing_transducer ](
    x: usize,
    y: usize,
) -> (missing: bool)
    ensures
        missing == is_missing_spec(x as int, y as int),
;

/// `autd3_core::hardware_defined::NUM_TRANS_X`: the grid has 18 columns.
#[verifier::external_body]
fn num_trans_x() -> (n: usize)
    ensures
        n == COLUMNS,
{
    autd3_core::hardware_defined::NUM_TRANS_X
}

/// `autd3_core::hardware_defined::NUM_TRANS_Y`: the grid has 14 rows.
#[verifier::external_body]
fn num_trans_y() -> (n: usize)
    ensures
        n == ROWS,
{
    autd3_core::hardware_defined::NUM_TRANS_Y
}

/// The number of the cell in column `x` and row `y`, counted row by row
/// and each row from left to right.
pub open spec fn cell_number(x: int, y: int) -> int {
    y * COLUMNS + x
}

/// How many of the cells with a number below `number` hold no transducer.
/// The three that hold none have the numbers 19, 20 and 34.
pub open spec fn missing_before(number: int) -> int {
    let first: int = if number > 19 { 1 } else { 0 };
    let second: int = if number > 20 { 1 } else { 0 };
    let third: int = if number > 34 { 1 } else { 0 };
    first + second + third
}

/// The cells without a transducer are those numbered 19, 20 and 34.
pub proof fn lemma_missing_cells(x: int, y: int)
    requires
        0 <= x < COLUMNS,
        0 <= y < ROWS,
    ensures
        is_missing_spec(x, y) <==> cell_number(x, y) == 19 || cell_number(x, y) == 20
            || cell_number(x, y) == 34,
{
}

/// The place of the cell in column `x` and row `y` among the cells that
/// hold a transducer.
pub open spec fn index_of(x: int, y: int) -> int {
    cell_number(x, y) - missing_before(cell_number(x, y))
}

/// Whether every cell that `cells` lists is a cell of the grid that holds a
/// transducer, and stands at its place.
pub open spec fn all_placed(cells: Seq<(usize, usize)>) -> bool {
    forall|i: int|
        0 <= i < cells.len() ==> {
            let c = #[trigger] cells[i];
            c.0 < COLUMNS && c.1 < ROWS && !is_missing_spec(c.0 as int, c.1 as int) && i
                == index_of(c.0 as int, c.1 as int)
        }
}

/// Whether `cells` lists every cell that holds a transducer and comes
/// before column `x` of row `y`.
pub open spec fn all_listed(cells: Seq<(usize, usize)>, x: int, y: int) -> bool {
    forall|cx: int, cy: int|
        0 <= cx < COLUMNS && (0 <= cy < y || (cy == y && cx < x)) && !is_missing_spec(cx, cy) ==> 0
            <= #[trigger] index_of(cx, cy) < cells.len() && cells[index_of(cx, cy)] == (
            cx as usize,
            cy as usize,
        )
}

/// Whether `cells` lists, row by row and each row from left to right, the
/// cells of the grid that hold a transducer, each once.
pub open spec fn is_layout(cells: Seq<(usize, usize)>) -> bool {
    &&& cells.len() == TRANSDUCERS
    &&& all_placed(cells)
    &&& all_listed(cells, 0, ROWS as int)
}

/// The cells of one device that hold a transducer, as column and row, in the
/// order in which the device numbers its transducers.
pub fn transducer_cells() -> (cells: Vec<(usize, usize)>)
    ensures
        is_layout(cells@),
{
    let columns = num_trans_x();
    let rows = num_trans_y();
    let mut cells: Vec<(usize, usize)> = Vec::new();
    let mut y: usize = 0;
    while y < rows
        invariant
            columns == COLUMNS,
            rows == ROWS,
            y <= rows,
            cells@.len() == index_of(0, y as int),
            all_placed(cells@),
            all_listed(cells@, 0, y as int),
        decreases rows - y,
    {
        let mut x: usize = 0;
        while x < columns
            invariant
                columns == COLUMNS,
                rows == ROWS,
                y < rows,
                x <= columns,
                cells@.len() == index_of(x as int, y as int),
                all_placed(cells@),
                all_listed(cells@, x as int, y as int),
            decreases columns - x,
        {
            if !is_missing_transducer(x, y) {
                cells.push((x, y));
            }
            x += 1;
        }
        y += 1;
    }
    cells
}

} // verus!
