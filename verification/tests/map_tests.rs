use blazing_fast_engine::tilemap::{Tilemap, CHANNEL_ONE_BITS};
use blazing_fast_engine::world::{
    structural_tile, TILE_DIRT, TILE_GRASS, TILE_PLANKS, TILE_STONE,
};

fn bits(color: [f32; 4]) -> [u32; 4] {
    [color[0].to_bits(), color[1].to_bits(), color[2].to_bits(), color[3].to_bits()]
}

#[test]
fn channel_one_is_the_bits_of_one() {
    assert_eq!(CHANNEL_ONE_BITS, 1.0f32.to_bits());
}

#[test]
fn new_map_is_tile_zero_and_white() {
    let map = Tilemap::new(3, 2);
    assert_eq!(map.width, 3);
    assert_eq!(map.height, 2);
    assert_eq!(map.tiles, vec![0; 6]);
    assert_eq!(map.colors, vec![bits([1.0, 1.0, 1.0, 1.0]); 6]);
}

#[test]
fn empty_map_has_no_cells() {
    let map = Tilemap::new(0, 5);
    assert!(map.tiles.is_empty());
    assert!(map.cells().is_empty());
}

#[test]
fn set_then_get_tile() {
    let mut map = Tilemap::new(4, 3);
    map.set_tile(2, 1, 7);
    assert_eq!(map.tile_at(2, 1), 7);
    assert_eq!(map.tiles[6], 7);
    assert_eq!(map.tile_at(1, 2), 0);
    assert_eq!(map.tile_at(2, 0), 0);
}

#[test]
fn set_then_get_color() {
    let mut map = Tilemap::new(2, 2);
    let red = bits([1.0, 0.0, 0.0, 1.0]);
    map.set_color(1, 1, red);
    assert_eq!(map.color_at(1, 1), red);
    assert_eq!(map.color_at(0, 1), bits([1.0, 1.0, 1.0, 1.0]));
    assert_eq!(map.tiles, vec![0; 4]);
}

#[test]
fn set_tiles_uses_the_selector_per_cell() {
    let mut map = Tilemap::new(3, 2);
    map.set_tiles(|x, y| (10 * y + x) as u32);
    assert_eq!(map.tiles, vec![0, 1, 2, 10, 11, 12]);
    assert_eq!(map.tile_at(2, 1), 12);
}

#[test]
fn set_colors_uses_the_selector_per_cell() {
    let mut map = Tilemap::new(2, 1);
    map.set_colors(|x, _y| {
        let b = 0.5 + 0.25 * x as f32;
        bits([b, b, b, 1.0])
    });
    assert_eq!(map.color_at(0, 0), bits([0.5, 0.5, 0.5, 1.0]));
    assert_eq!(map.color_at(1, 0), bits([0.75, 0.75, 0.75, 1.0]));
}

#[test]
fn cells_are_listed_row_by_row() {
    let mut map = Tilemap::new(2, 2);
    map.set_tiles(|x, y| (x + 2 * y) as u32);
    let white = bits([1.0, 1.0, 1.0, 1.0]);
    assert_eq!(
        map.cells(),
        vec![(0, 0, 0, white), (1, 0, 1, white), (0, 1, 2, white), (1, 1, 3, white)]
    );
}

#[test]
fn iter_visits_rows_in_order() {
    let mut map = Tilemap::new(3, 2);
    map.set_tiles(|x, y| (x + 3 * y) as u32);
    let mut seen = Vec::new();
    map.iter(|x, y, tile, color| seen.push((x, y, tile, color)));
    assert_eq!(seen, map.cells());
    assert_eq!(seen.iter().map(|c| c.2).collect::<Vec<u32>>(), vec![0, 1, 2, 3, 4, 5]);
}

#[test]
fn storage_beyond_the_cells_is_kept() {
    let mut map = Tilemap::new(2, 1);
    map.tiles.push(99);
    map.set_tiles(|_, _| 5);
    assert_eq!(map.tiles, vec![5, 5, 99]);
}

#[test]
fn world_border_is_stone() {
    assert_eq!(structural_tile(0, 10, 300, 300), Some(TILE_STONE));
    assert_eq!(structural_tile(10, 0, 300, 300), Some(TILE_STONE));
    assert_eq!(structural_tile(299, 10, 300, 300), Some(TILE_STONE));
    assert_eq!(structural_tile(10, 299, 300, 300), Some(TILE_STONE));
}

#[test]
fn world_house_layout() {
    assert_eq!(structural_tile(25, 22, 300, 300), Some(TILE_DIRT));
    assert_eq!(structural_tile(22, 25, 300, 300), Some(TILE_STONE));
    assert_eq!(structural_tile(28, 28, 300, 300), Some(TILE_STONE));
    assert_eq!(structural_tile(24, 22, 300, 300), Some(TILE_STONE));
    assert_eq!(structural_tile(25, 25, 300, 300), Some(TILE_PLANKS));
    assert_eq!(structural_tile(23, 27, 300, 300), Some(TILE_PLANKS));
}

#[test]
fn world_elsewhere_is_left_to_noise() {
    assert_eq!(structural_tile(21, 25, 300, 300), None);
    assert_eq!(structural_tile(29, 25, 300, 300), None);
    assert_eq!(structural_tile(100, 150, 300, 300), None);
    assert_ne!(TILE_GRASS, TILE_DIRT);
}

#[test]
fn iter_hands_every_cell_in_order() {
    let mut map = Tilemap::new(3, 2);
    map.tiles = vec![0, 1, 2, 10, 11, 12];
    let c = bits([1.0, 1.0, 1.0, 1.0]);
    let mut seen = Vec::new();
    map.iter(|x, y, tile, color| seen.push((x, y, tile, color)));
    assert_eq!(
        seen,
        vec![(0, 0, 0, c), (1, 0, 1, c), (2, 0, 2, c), (0, 1, 10, c), (1, 1, 11, c), (2, 1, 12, c)]
    );
    assert_eq!(map.tiles, vec![0, 1, 2, 10, 11, 12]);
}
