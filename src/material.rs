use vstd::prelude::*;

verus! {

/// Which of a checkerboard's two albedos covers a cell.
#[derive(Debug, Clone, Copy, PartialEq, Eq, Structural)]
pub enum CheckerTile {
    First,
    Second,
}

/// The tile that covers the cell whose corner is `(cell_u, cell_v)`, the floors of a texture
/// coordinate: the first albedo where `cell_u + cell_v` is even, the second where it is odd.
pub open spec fn checker_tile_of(cell_u: int, cell_v: int) -> CheckerTile {
    if (cell_u + cell_v) % 2 == 0 {
        CheckerTile::First
    } else {
        CheckerTile::Second
    }
}

/// Picks the checkerboard tile of the cell `(cell_u, cell_v)`.
pub fn checker_tile(cell_u: i64, cell_v: i64) -> (t: CheckerTile)
    ensures
        t == checker_tile_of(cell_u as int, cell_v as int),
{
    let pu = cell_u % 2;
    let pv = cell_v % 2;
    if (pu + pv) % 2 == 0 {
        CheckerTile::First
    } else {
        CheckerTile::Second
    }
}

} // verus!
