use vstd::prelude::*;

verus! {

/// Number of tiles along each side of the square map. Valid coordinates on
/// either axis are `1..=GRID_SIDE`, both for the tiles that exist and for
/// what counts as being on the map.
pub const GRID_SIDE: i32 = 17;

/// A tile coordinate `(x, y)`.
pub type Coord = (i32, i32);

/// Whether `c` lies on the map.
pub open spec fn on_map(c: Coord) -> bool {
    1 <= c.0 <= GRID_SIDE && 1 <= c.1 <= GRID_SIDE
}

/// The tile at position `i` of the map listing: columns in order of `x`,
/// and within a column the rows in order of `y`.
pub open spec fn tile_at(i: int) -> Coord {
    ((i / GRID_SIDE as int + 1) as i32, (i % GRID_SIDE as int + 1) as i32)
}

/// The listed tiles are exactly the tiles on the map: every position of the
/// listing is on the map, and every tile on the map has its position.
pub proof fn lemma_tiles_are_the_map(i: int, c: Coord)
    ensures
        0 <= i < GRID_SIDE * GRID_SIDE ==> on_map(tile_at(i)),
        on_map(c) ==> tile_at((c.0 - 1) * GRID_SIDE + (c.1 - 1)) == c,
{
    if 0 <= i < GRID_SIDE * GRID_SIDE {
        assert(0 <= i / 17 < 17 && 0 <= i % 17 < 17) by (nonlinear_arith)
            requires
                0 <= i < 17 * 17,
        ;
    }
    if on_map(c) {
        let k = (c.0 - 1) * 17 + (c.1 - 1);
        assert(k / 17 == c.0 - 1 && k % 17 == c.1 - 1) by (nonlinear_arith)
            requires
                k == (c.0 - 1) * 17 + (c.1 - 1),
                1 <= c.0 <= 17,
                1 <= c.1 <= 17,
        ;
    }
}

/// Every tile of the map, column by column: `(1, 1), (1, 2), ..., (1, 17),
/// (2, 1), ...`.
pub fn create_map_grid() -> (tiles: Vec<Coord>)
    ensures
        tiles@.len() == GRID_SIDE * GRID_SIDE,
        forall|i: int| 0 <= i < tiles@.len() ==> #[trigger] tiles@[i] == tile_at(i),
{
    let mut tiles: Vec<Coord> = Vec::new();
    let mut x: i32 = 1;
    while x <= GRID_SIDE
        invariant
            1 <= x <= GRID_SIDE + 1,
            tiles@.len() == (x - 1) * GRID_SIDE,
            forall|i: int| 0 <= i < tiles@.len() ==> #[trigger] tiles@[i] == tile_at(i),
        decreases GRID_SIDE + 1 - x,
    {
        let mut y: i32 = 1;
        while y <= GRID_SIDE
            invariant
                1 <= x <= GRID_SIDE,
                1 <= y <= GRID_SIDE + 1,
                tiles@.len() == (x - 1) * GRID_SIDE + (y - 1),
                forall|i: int| 0 <= i < tiles@.len() ==> #[trigger] tiles@[i] == tile_at(i),
            decreases GRID_SIDE + 1 - y,
        {
            proof {
                let k = (x - 1) * GRID_SIDE + (y - 1);
                assert(k / 17 == x - 1 && k % 17 == y - 1) by (nonlinear_arith)
                    requires
                        k == (x - 1) * 17 + (y - 1),
                        1 <= x <= 17,
                        1 <= y <= 17,
                ;
            }
            tiles.push((x, y));
            y = y + 1;
        }
        x = x + 1;
    }
    tiles
}

} // verus!
