//! Placement of population members on a grid of render offsets.
use vstd::prelude::*;

verus! {

/// Members per grid row.
pub const GRID_COLUMNS: usize = 10;

/// Distance between neighbouring members, in render units.
pub const GRID_SPACING: usize = 5;

/// Members in the population that the simulation starts with.
pub const INITIAL_COUNT: usize = 10;

/// The horizontal render offset of the member at `index`.
pub open spec fn offset_x_of(index: int) -> int {
    (index % GRID_COLUMNS as int) * GRID_SPACING as int
}

/// The vertical render offset of the member at `index`.
pub open spec fn offset_y_of(index: int) -> int {
    (index / GRID_COLUMNS as int) * GRID_SPACING as int
}

/// The render offset `(x, y)` of the member at `index`: members fill rows
/// of `GRID_COLUMNS`, each `GRID_SPACING` apart.
pub fn grid_offset(index: usize) -> (r: (usize, usize))
    ensures
        r.0 == offset_x_of(index as int),
        r.1 == offset_y_of(index as int),
{
    let column = index % GRID_COLUMNS;
    let row = index / GRID_COLUMNS;
    assert(row * GRID_SPACING <= index) by (nonlinear_arith)
        requires
            row == index / 10,
            GRID_SPACING == 5,
    ;
    (column * GRID_SPACING, row * GRID_SPACING)
}

/// The render offsets of a freshly built population of `count` members,
/// in member order.
pub fn population_offsets(count: usize) -> (r: Vec<(usize, usize)>)
    ensures
        r@.len() == count,
        forall|i: int|
            0 <= i < count ==> (#[trigger] r@[i]).0 == offset_x_of(i) && r@[i].1 == offset_y_of(i),
{
    let mut offsets: Vec<(usize, usize)> = Vec::new();
    let mut index: usize = 0;
    while index < count
        invariant
            index <= count,
            offsets@.len() == index,
            forall|i: int|
                0 <= i < index ==> (#[trigger] offsets@[i]).0 == offset_x_of(i) && offsets@[i].1
                    == offset_y_of(i),
        decreases count - index,
    {
        offsets.push(grid_offset(index));
        index = index + 1;
    }
    offsets
}

/// The render offsets of the population that the simulation starts with:
/// `INITIAL_COUNT` members, all drawn at the origin.
pub fn initial_offsets() -> (r: Vec<(usize, usize)>)
    ensures
        r@.len() == INITIAL_COUNT,
        forall|i: int| 0 <= i < INITIAL_COUNT ==> #[trigger] r@[i] == (0usize, 0usize),
{
    let mut offsets: Vec<(usize, usize)> = Vec::new();
    let mut index: usize = 0;
    while index < INITIAL_COUNT
        invariant
            index <= INITIAL_COUNT,
            offsets@.len() == index,
            forall|i: int| 0 <= i < index ==> #[trigger] offsets@[i] == (0usize, 0usize),
        decreases INITIAL_COUNT - index,
    {
        offsets.push((0, 0));
        index = index + 1;
    }
    offsets
}

} // verus!
