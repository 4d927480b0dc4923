use vstd::prelude::*;

verus! {

/// Tile id of grass.
pub const TILE_GRASS: u32 = 0;

/// Tile id of dirt.
pub const TILE_DIRT: u32 = 1;

/// Tile id of stone.
pub const TILE_STONE: u32 = 2;

/// Tile id of wooden planks.
pub const TILE_PLANKS: u32 = 3;

/// The tile that the layout of the world fixes for cell `(x, y)` of a map
/// `width` by `height` cells, if any.
///
/// The edge of the map is stone. A house stands on cells 22 to 28 in both
/// directions: stone walls with a dirt doorway at (25, 22), a planked floor
/// inside. Every other cell is left to the terrain noise.
pub open spec fn spec_structural_tile(x: usize, y: usize, width: usize, height: usize) -> Option<u32> {
    if x == 0 || y == 0 || x == width - 1 || y == height - 1 {
        Some(TILE_STONE)
    } else if 22 <= x <= 28 && 22 <= y <= 28 {
        if x == 22 || x == 28 || y == 22 || y == 28 {
            if x == 25 && y == 22 {
                Some(TILE_DIRT)
            } else {
                Some(TILE_STONE)
            }
        } else {
            Some(TILE_PLANKS)
        }
    } else {
        None
    }
}

/// The edge of the map is stone, whatever else the cell is.
pub proof fn lemma_edge_is_stone(x: usize, y: usize, width: usize, height: usize)
    requires
        x == 0 || y == 0 || x as int == width - 1 || y as int == height - 1,
    ensures
        spec_structural_tile(x, y, width, height) == Some(TILE_STONE),
{
}

/// Away from the edge of the map, the house stands on the square from 22 to 28
/// in both directions: every cell of its boundary is a stone wall except the
/// doorway (25, 22), which is dirt; every cell inside is a planked floor.
pub proof fn lemma_house(x: usize, y: usize, width: usize, height: usize)
    requires
        22 <= x <= 28,
        22 <= y <= 28,
        (x as int) < width - 1,
        (y as int) < height - 1,
    ensures
        (x == 25 && y == 22) ==> spec_structural_tile(x, y, width, height) == Some(TILE_DIRT),
        ((x == 22 || x == 28 || y == 22 || y == 28) && !(x == 25 && y == 22)) ==> spec_structural_tile(
            x,
            y,
            width,
            height,
        ) == Some(TILE_STONE),
        (23 <= x <= 27 && 23 <= y <= 27) ==> spec_structural_tile(x, y, width, height) == Some(
            TILE_PLANKS,
        ),
{
}

/// Every wall of the house is closed: the whole far side y == 28 and both sides
/// x == 22 and x == 28 are stone, and the near side y == 22 is stone except the doorway.
pub proof fn lemma_house_walls_closed(i: usize, width: usize, height: usize)
    requires
        22 <= i <= 28,
        29 < width,
        29 < height,
    ensures
        spec_structural_tile(i, 28, width, height) == Some(TILE_STONE),
        spec_structural_tile(22, i, width, height) == Some(TILE_STONE),
        spec_structural_tile(28, i, width, height) == Some(TILE_STONE),
        i != 25 ==> spec_structural_tile(i, 22, width, height) == Some(TILE_STONE),
        spec_structural_tile(25, 22, width, height) == Some(TILE_DIRT),
{
}

/// Cells neither on the edge of the map nor in the house are left to the terrain.
pub proof fn lemma_elsewhere_free(x: usize, y: usize, width: usize, height: usize)
    requires
        x != 0,
        y != 0,
        x as int != width - 1,
        y as int != height - 1,
        x < 22 || x > 28 || y < 22 || y > 28,
    ensures
        spec_structural_tile(x, y, width, height) is None,
{
}

/// The tile that the layout of the world fixes for cell `(x, y)`, if any; see
/// [`spec_structural_tile`].
pub fn structural_tile(x: usize, y: usize, width: usize, height: usize) -> (tile: Option<u32>)
    requires
        x == 0 || y == 0 || (width >= 1 && (x == width - 1 || height >= 1)),
    ensures
        tile == spec_structural_tile(x, y, width, height),
{
    if x == 0 || y == 0 || x == width - 1 || y == height - 1 {
        return Some(TILE_STONE);
    }
    if x >= 22 && x <= 28 && y >= 22 && y <= 28 {
        if x == 22 || x == 28 || y == 22 || y == 28 {
            return if x == 25 && y == 22 {
                Some(TILE_DIRT)
            } else {
                Some(TILE_STONE)
            };
        }
        return Some(TILE_PLANKS);
    }
    None
}

} // verus!
