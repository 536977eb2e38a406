//! The floor: a square grid of unit cubes coloured like a checkerboard.
use vstd::prelude::*;
use vstd::arithmetic::div_mod::{
    lemma_fundamental_div_mod_converse_div,
    lemma_fundamental_div_mod_converse_mod,
};

verus! {

/// Number of cubes along each side of the floor.
pub const GRID_SIZE: u32 = 10;

/// One floor cube: its column `x`, its row `z`, and whether it is dark.
#[derive(Clone, Copy, Debug, PartialEq, Eq, Structural)]
pub struct GridCell {
    pub x: u32,
    pub z: u32,
    pub dark: bool,
}

/// Squares whose coordinates add up to an even number are dark, the others light.
pub open spec fn dark_at(x: int, z: int) -> bool {
    (x + z) % 2 == 0
}

/// The cube at column `x` and row `z`.
pub open spec fn cell_at(x: int, z: int) -> GridCell {
    GridCell { x: x as u32, z: z as u32, dark: dark_at(x, z) }
}

/// Whether the square at column `x`, row `z` is dark.
pub fn is_dark_square(x: u32, z: u32) -> (r: bool)
    ensures
        r == dark_at(x as int, z as int),
{
    ((x as u64) + (z as u64)) % 2 == 0
}

/// All cubes of a `size` by `size` floor, column by column: the cube at
/// column `x` and row `z` stands at index `x * size + z`.
pub fn checker_grid(size: u32) -> (cells: Vec<GridCell>)
    requires
        size as int * size as int <= usize::MAX,
    ensures
        cells@.len() == size as int * size as int,
        forall|k: int|
            0 <= k < cells@.len() ==> #[trigger] cells@[k] == cell_at(k / size as int, k % size as int),
{
    let mut cells: Vec<GridCell> = Vec::new();
    let mut x: u32 = 0;
    while x < size
        invariant
            x <= size,
            size as int * size as int <= usize::MAX,
            cells@.len() == x as int * size as int,
            forall|k: int|
                0 <= k < cells@.len() ==> #[trigger] cells@[k] == cell_at(k / size as int, k % size as int),
        decreases size - x,
    {
        let mut z: u32 = 0;
        while z < size
            invariant
                x < size,
                z <= size,
                size as int * size as int <= usize::MAX,
                cells@.len() == x as int * size as int + z as int,
                forall|k: int|
                    0 <= k < cells@.len() ==> #[trigger] cells@[k] == cell_at(k / size as int, k % size as int),
            decreases size - z,
        {
            let ghost k = cells@.len() as int;
            proof {
                lemma_fundamental_div_mod_converse_div(k, size as int, x as int, z as int);
                lemma_fundamental_div_mod_converse_mod(k, size as int, x as int, z as int);
                assert((x as int) * (size as int) + (z as int) < (size as int) * (size as int)) by (nonlinear_arith)
                    requires x < size, z < size;
            }
            let dark = is_dark_square(x, z);
            cells.push(GridCell { x, z, dark });
            z = z + 1;
        }
        proof {
            assert(x as int * size as int + size as int == (x as int + 1) * size as int) by (nonlinear_arith);
        }
        x = x + 1;
    }
    cells
}

} // verus!
