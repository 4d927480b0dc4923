use vstd::prelude::*;

verus! {

/// The bit pattern (`f32::to_bits`) of the colour channel value `1.0`.
pub const CHANNEL_ONE_BITS: u32 = 0x3f80_0000;

/// Opaque white, as the bit patterns of four `f32` channels (red, green, blue, alpha).
pub open spec fn white_bits() -> [u32; 4] {
    [CHANNEL_ONE_BITS, CHANNEL_ONE_BITS, CHANNEL_ONE_BITS, CHANNEL_ONE_BITS]
}

/// The position of cell `(x, y)` in the row-major storage of a map `width` cells wide.
pub open spec fn cell_index(width: usize, x: usize, y: usize) -> int {
    y as int * width as int + x as int
}

/// A cell of a map `width` by `height` cells lies within its first `width * height` entries.
pub proof fn lemma_cell_in_bounds(width: usize, height: usize, x: usize, y: usize)
    requires
        x < width,
        y < height,
    ensures
        0 <= cell_index(width, x, y) < (width as int) * (height as int),
{
    assert((y as int) * (width as int) + (x as int) < (width as int) * (height as int)) by (nonlinear_arith)
        requires
            x < width,
            y < height,
    ;
}

/// Distinct cells of a row-major map are stored at distinct positions, so writing
/// one cell never changes another.
pub proof fn lemma_cells_distinct(width: usize, x1: usize, y1: usize, x2: usize, y2: usize)
    requires
        x1 < width,
        x2 < width,
        x1 != x2 || y1 != y2,
    ensures
        cell_index(width, x1, y1) != cell_index(width, x2, y2),
{
    if y1 < y2 {
        lemma_row_before(width, x1, y1, y2);
        assert(cell_index(width, x2, y2) >= y2 as int * width as int);
    } else if y2 < y1 {
        lemma_row_before(width, x2, y2, y1);
        assert(cell_index(width, x1, y1) >= y1 as int * width as int);
    }
}

/// Reading a cell after writing one gives the written value for the same cell and
/// the old value for every other cell of the map.
pub proof fn lemma_write_then_read<A>(
    cells: Seq<A>,
    width: usize,
    x: usize,
    y: usize,
    x2: usize,
    y2: usize,
    value: A,
)
    requires
        x < width,
        x2 < width,
        cell_index(width, x, y) < cells.len(),
        cell_index(width, x2, y2) < cells.len(),
    ensures
        cells.update(cell_index(width, x, y), value)[cell_index(width, x2, y2)] == if x == x2 && y
            == y2 {
            value
        } else {
            cells[cell_index(width, x2, y2)]
        },
{
    lemma_row_offset_nonneg(width, y);
    lemma_row_offset_nonneg(width, y2);
    if x != x2 || y != y2 {
        lemma_cells_distinct(width, x, y, x2, y2);
    }
}

/// Every cell of an earlier row comes before the start of a later row.
proof fn lemma_row_before(width: usize, x: usize, y: usize, later: usize)
    requires
        x < width,
        y < later,
    ensures
        cell_index(width, x, y) < (later as int) * (width as int),
{
    assert((y as int) * (width as int) + (x as int) < (later as int) * (width as int)) by (nonlinear_arith)
        requires
            x < width,
            y < later,
    ;
}

/// A grid of `height` rows of `width` cells has `width * height` cells.
proof fn lemma_grid_size_commutes(width: usize, height: usize)
    ensures
        (height as int) * (width as int) == (width as int) * (height as int),
{
    assert((height as int) * (width as int) == (width as int) * (height as int)) by (nonlinear_arith);
}

/// Row offsets are never negative.
proof fn lemma_row_offset_nonneg(width: usize, y: usize)
    ensures
        0 <= (y as int) * (width as int),
{
    assert(0 <= (y as int) * (width as int)) by (nonlinear_arith);
}

/// The start of the next row follows the last cell of this one.
proof fn lemma_next_row(width: usize, y: usize)
    ensures
        (y + 1) as int * width as int == y as int * width as int + width as int,
{
    assert((y + 1) as int * width as int == y as int * width as int + width as int)
        by (nonlinear_arith);
}

/// A rectangular grid of tiles, each with a tile id and a colour, stored row by row.
///
/// Colours are four `f32` channels kept as their bit patterns (`f32::to_bits`);
/// the map stores and hands them back unchanged.
pub struct Tilemap {
    pub width: usize,
    pub height: usize,
    pub tiles: Vec<u32>,
    pub colors: Vec<[u32; 4]>,
}

impl Tilemap {
    /// The number of cells of the map.
    pub open spec fn cell_count(&self) -> int {
        self.width as int * self.height as int
    }

    /// Both storages hold at least one entry per cell.
    pub open spec fn covers_cells(&self) -> bool {
        &&& self.cell_count() <= self.tiles.len()
        &&& self.cell_count() <= self.colors.len()
    }

    /// A map of `width` by `height` cells, all of tile 0 and white.
    pub fn new(width: usize, height: usize) -> (map: Self)
        requires
            (width as int) * (height as int) <= usize::MAX,
        ensures
            map.width == width,
            map.height == height,
            map.tiles@ == Seq::new((width as int * height as int) as nat, |i: int| 0u32),
            map.colors@ == Seq::new((width as int * height as int) as nat, |i: int| white_bits()),
    {
        let count = width * height;
        let white: [u32; 4] = [CHANNEL_ONE_BITS, CHANNEL_ONE_BITS, CHANNEL_ONE_BITS, CHANNEL_ONE_BITS];
        let mut tiles: Vec<u32> = Vec::with_capacity(count);
        let mut colors: Vec<[u32; 4]> = Vec::with_capacity(count);
        let mut i: usize = 0;
        while i < count
            invariant
                i <= count,
                tiles@ == Seq::new(i as nat, |j: int| 0u32),
                colors@ == Seq::new(i as nat, |j: int| white_bits()),
                white == white_bits(),
            decreases count - i,
        {
            tiles.push(0);
            colors.push(white);
            i += 1;
        }
        Tilemap { width, height, tiles, colors }
    }

    /// The tile id of cell `(x, y)`.
    #[inline]
    pub fn tile_at(&self, x: usize, y: usize) -> (tile: u32)
        requires
            cell_index(self.width, x, y) < self.tiles.len(),
        ensures
            tile == self.tiles@[cell_index(self.width, x, y)],
    {
        proof {
            lemma_row_offset_nonneg(self.width, y);
        }
        let index = y * self.width + x;
        self.tiles[index]
    }

    /// Sets the tile id of cell `(x, y)`; nothing else changes.
    #[inline]
    pub fn set_tile(&mut self, x: usize, y: usize, tile_id: u32)
        requires
            cell_index(old(self).width, x, y) < old(self).tiles.len(),
        ensures
            final(self).width == old(self).width,
            final(self).height == old(self).height,
            final(self).colors@ == old(self).colors@,
            final(self).tiles@ == old(self).tiles@.update(cell_index(old(self).width, x, y), tile_id),
    {
        proof {
            lemma_row_offset_nonneg(self.width, y);
        }
        let index = y * self.width + x;
        self.tiles.set(index, tile_id);
    }

    /// The colour of cell `(x, y)`, as channel bit patterns.
    #[inline]
    pub fn color_at(&self, x: usize, y: usize) -> (color: [u32; 4])
        requires
            cell_index(self.width, x, y) < self.colors.len(),
        ensures
            color == self.colors@[cell_index(self.width, x, y)],
    {
        proof {
            lemma_row_offset_nonneg(self.width, y);
        }
        let index = y * self.width + x;
        self.colors[index]
    }

    /// Sets the colour of cell `(x, y)`; nothing else changes.
    #[inline]
    pub fn set_color(&mut self, x: usize, y: usize, color: [u32; 4])
        requires
            cell_index(old(self).width, x, y) < old(self).colors.len(),
        ensures
            final(self).width == old(self).width,
            final(self).height == old(self).height,
            final(self).tiles@ == old(self).tiles@,
            final(self).colors@ == old(self).colors@.update(cell_index(old(self).width, x, y), color),
    {
        proof {
            lemma_row_offset_nonneg(self.width, y);
        }
        let index = y * self.width + x;
        self.colors.set(index, color);
    }

    /// Sets every cell `(x, y)` with `x < width` and `y < height` to the tile id that
    /// `tile_selector(x, y)` returns, row by row; storage beyond the cells is left as it was.
    pub fn set_tiles<F>(&mut self, mut tile_selector: F)
        where
            F: FnMut(usize, usize) -> u32,
        requires
            old(self).cell_count() <= old(self).tiles.len(),
            forall|x: usize, y: usize|
                x < old(self).width && y < old(self).height ==> call_requires(
                    tile_selector,
                    (x, y),
                ),
        ensures
            final(self).width == old(self).width,
            final(self).height == old(self).height,
            final(self).colors@ == old(self).colors@,
            final(self).tiles@.len() == old(self).tiles@.len(),
            forall|x: usize, y: usize|
                x < old(self).width && y < old(self).height ==> call_ensures(
                    tile_selector,
                    (x, y),
                    #[trigger] final(self).tiles@[cell_index(old(self).width, x, y)],
                ),
            forall|i: int|
                old(self).cell_count() <= i < old(self).tiles@.len() ==> final(self).tiles@[i]
                    == old(self).tiles@[i],
    {
        let ghost f0 = tile_selector;
        let ghost old_tiles = self.tiles@;
        let width = self.width;
        let height = self.height;
        let mut y: usize = 0;
        while y < height
            invariant
                y <= height,
                width == self.width,
                height == self.height,
                tile_selector == f0,
                (width as int) * (height as int) <= self.tiles.len(),
                self.tiles@.len() == old_tiles.len(),
                self.colors@ == old(self).colors@,
                forall|x: usize, y2: usize|
                    x < width && y2 < height ==> call_requires(f0, (x, y2)),
                forall|x: usize, y2: usize|
                    x < width && y2 < y ==> call_ensures(
                        f0,
                        (x, y2),
                        #[trigger] self.tiles@[cell_index(width, x, y2)],
                    ),
                forall|i: int|
                    (y as int) * (width as int) <= i < old_tiles.len() ==> self.tiles@[i]
                        == old_tiles[i],
            decreases height - y,
        {
            let mut x: usize = 0;
            while x < width
                invariant
                    x <= width,
                    y < height,
                    width == self.width,
                    height == self.height,
                    tile_selector == f0,
                    (width as int) * (height as int) <= self.tiles.len(),
                    self.tiles@.len() == old_tiles.len(),
                    self.colors@ == old(self).colors@,
                    forall|x2: usize, y2: usize|
                        x2 < width && y2 < height ==> call_requires(f0, (x2, y2)),
                    forall|x2: usize, y2: usize|
                        (x2 < width && y2 < y) || (x2 < x && y2 == y) ==> call_ensures(
                            f0,
                            (x2, y2),
                            #[trigger] self.tiles@[cell_index(width, x2, y2)],
                        ),
                    forall|i: int|
                        cell_index(width, x, y) <= i < old_tiles.len() ==> self.tiles@[i]
                            == old_tiles[i],
                decreases width - x,
            {
                proof {
                    lemma_cell_in_bounds(width, height, x, y);
                }
                let tile = tile_selector(x, y);
                let ghost before = self.tiles@;
                self.set_tile(x, y, tile);
                proof {
                    assert forall|x2: usize, y2: usize|
                        (x2 < width && y2 < y) || (x2 < x + 1 && y2 == y) implies call_ensures(
                            f0,
                            (x2, y2),
                            #[trigger] self.tiles@[cell_index(width, x2, y2)],
                        ) by {
                        lemma_cell_in_bounds(width, height, x2, y2);
                        if x2 != x || y2 != y {
                            lemma_cells_distinct(width, x2, y2, x, y);
                            assert(self.tiles@[cell_index(width, x2, y2)] == before[cell_index(width, x2, y2)]);
                        }
                    }
                }
                x += 1;
            }
            proof {
                lemma_next_row(width, y);
            }
            y += 1;
        }
    }
    /// Sets every cell `(x, y)` with `x < width` and `y < height` to the colour that
    /// `color_selector(x, y)` returns, row by row; storage beyond the cells is left as it was.
    pub fn set_colors<F>(&mut self, mut color_selector: F)
        where
            F: FnMut(usize, usize) -> [u32; 4],
        requires
            old(self).cell_count() <= old(self).colors.len(),
            forall|x: usize, y: usize|
                x < old(self).width && y < old(self).height ==> call_requires(
                    color_selector,
                    (x, y),
                ),
        ensures
            final(self).width == old(self).width,
            final(self).height == old(self).height,
            final(self).tiles@ == old(self).tiles@,
            final(self).colors@.len() == old(self).colors@.len(),
            forall|x: usize, y: usize|
                x < old(self).width && y < old(self).height ==> call_ensures(
                    color_selector,
                    (x, y),
                    #[trigger] final(self).colors@[cell_index(old(self).width, x, y)],
                ),
            forall|i: int|
                old(self).cell_count() <= i < old(self).colors@.len() ==> final(self).colors@[i]
                    == old(self).colors@[i],
    {
        let ghost f0 = color_selector;
        let ghost old_colors = self.colors@;
        let width = self.width;
        let height = self.height;
        let mut y: usize = 0;
        while y < height
            invariant
                y <= height,
                width == self.width,
                height == self.height,
                color_selector == f0,
                (width as int) * (height as int) <= self.colors.len(),
                self.colors@.len() == old_colors.len(),
                self.tiles@ == old(self).tiles@,
                forall|x: usize, y2: usize|
                    x < width && y2 < height ==> call_requires(f0, (x, y2)),
                forall|x: usize, y2: usize|
                    x < width && y2 < y ==> call_ensures(
                        f0,
                        (x, y2),
                        #[trigger] self.colors@[cell_index(width, x, y2)],
                    ),
                forall|i: int|
                    (y as int) * (width as int) <= i < old_colors.len() ==> self.colors@[i]
                        == old_colors[i],
            decreases height - y,
        {
            let mut x: usize = 0;
            while x < width
                invariant
                    x <= width,
                    y < height,
                    width == self.width,
                    height == self.height,
                    color_selector == f0,
                    (width as int) * (height as int) <= self.colors.len(),
                    self.colors@.len() == old_colors.len(),
                    self.tiles@ == old(self).tiles@,
                    forall|x2: usize, y2: usize|
                        x2 < width && y2 < height ==> call_requires(f0, (x2, y2)),
                    forall|x2: usize, y2: usize|
                        (x2 < width && y2 < y) || (x2 < x && y2 == y) ==> call_ensures(
                            f0,
                            (x2, y2),
                            #[trigger] self.colors@[cell_index(width, x2, y2)],
                        ),
                    forall|i: int|
                        cell_index(width, x, y) <= i < old_colors.len() ==> self.colors@[i]
                            == old_colors[i],
                decreases width - x,
            {
                proof {
                    lemma_cell_in_bounds(width, height, x, y);
                }
                let color = color_selector(x, y);
                let ghost before = self.colors@;
                self.set_color(x, y, color);
                proof {
                    assert forall|x2: usize, y2: usize|
                        (x2 < width && y2 < y) || (x2 < x + 1 && y2 == y) implies call_ensures(
                            f0,
                            (x2, y2),
                            #[trigger] self.colors@[cell_index(width, x2, y2)],
                        ) by {
                        lemma_cell_in_bounds(width, height, x2, y2);
                        if x2 != x || y2 != y {
                            lemma_cells_distinct(width, x2, y2, x, y);
                            assert(self.colors@[cell_index(width, x2, y2)] == before[cell_index(width, x2, y2)]);
                        }
                    }
                }
                x += 1;
            }
            proof {
                lemma_next_row(width, y);
            }
            y += 1;
        }
    }
    /// Cell `(x, y)` with its tile id and colour.
    pub open spec fn spec_cell(&self, x: usize, y: usize) -> (usize, usize, u32, [u32; 4]) {
        (x, y, self.tiles@[cell_index(self.width, x, y)], self.colors@[cell_index(self.width, x, y)])
    }

    /// Hands every cell `(x, y, tile, color)` to `consumer`, row by row; the
    /// cells and their order are those of [`Tilemap::cells`].
    pub fn iter<F>(&self, mut consumer: F)
        where
            F: FnMut(usize, usize, u32, [u32; 4]),
        requires
            self.covers_cells(),
            forall|x: usize, y: usize|
                x < self.width && y < self.height ==> call_requires(
                    consumer,
                    #[trigger] self.spec_cell(x, y),
                ),
        ensures
            forall|x: usize, y: usize|
                x < self.width && y < self.height ==> call_ensures(
                    consumer,
                    #[trigger] self.spec_cell(x, y),
                    (),
                ),
    {
        let ghost f0 = consumer;
        let mut y: usize = 0;
        while y < self.height
            invariant
                y <= self.height,
                self.covers_cells(),
                consumer == f0,
                forall|x2: usize, y2: usize|
                    x2 < self.width && y2 < self.height ==> call_requires(
                        f0,
                        #[trigger] self.spec_cell(x2, y2),
                    ),
                forall|x2: usize, y2: usize|
                    x2 < self.width && y2 < y ==> call_ensures(
                        f0,
                        #[trigger] self.spec_cell(x2, y2),
                        (),
                    ),
            decreases self.height - y,
        {
            let mut x: usize = 0;
            while x < self.width
                invariant
                    x <= self.width,
                    y < self.height,
                    self.covers_cells(),
                    consumer == f0,
                    forall|x2: usize, y2: usize|
                        x2 < self.width && y2 < self.height ==> call_requires(
                            f0,
                            #[trigger] self.spec_cell(x2, y2),
                        ),
                    forall|x2: usize, y2: usize|
                        (x2 < self.width && y2 < y) || (x2 < x && y2 == y) ==> call_ensures(
                            f0,
                            #[trigger] self.spec_cell(x2, y2),
                            (),
                        ),
                decreases self.width - x,
            {
                proof {
                    lemma_cell_in_bounds(self.width, self.height, x, y);
                    assert(call_requires(f0, self.spec_cell(x, y)));
                }
                let index = y * self.width + x;
                let tile_id = self.tiles[index];
                let color = self.colors[index];
                consumer(x, y, tile_id, color);
                proof {
                    assert(call_ensures(f0, self.spec_cell(x, y), ()));
                }
                x += 1;
            }
            y += 1;
        }
    }

    /// Every cell with its tile id and colour, row by row: the entry at
    /// `y * width + x` is `(x, y, tile, color)` of cell `(x, y)`.
    pub fn cells(&self) -> (cells: Vec<(usize, usize, u32, [u32; 4])>)
        requires
            self.covers_cells(),
        ensures
            cells@.len() == self.cell_count(),
            forall|x: usize, y: usize|
                x < self.width && y < self.height ==> #[trigger] cells@[cell_index(self.width, x, y)]
                    == (x, y, self.tiles@[cell_index(self.width, x, y)], self.colors@[cell_index(
                    self.width,
                    x,
                    y,
                )]),
    {
        let mut cells: Vec<(usize, usize, u32, [u32; 4])> = Vec::new();
        let mut y: usize = 0;
        while y < self.height
            invariant
                y <= self.height,
                self.covers_cells(),
                cells@.len() == (y as int) * (self.width as int),
                forall|x2: usize, y2: usize|
                    x2 < self.width && y2 < y ==> #[trigger] cells@[cell_index(self.width, x2, y2)]
                        == (x2, y2, self.tiles@[cell_index(self.width, x2, y2)], self.colors@[cell_index(
                        self.width,
                        x2,
                        y2,
                    )]),
            decreases self.height - y,
        {
            let mut x: usize = 0;
            while x < self.width
                invariant
                    x <= self.width,
                    y < self.height,
                    self.covers_cells(),
                    cells@.len() == cell_index(self.width, x, y),
                    forall|x2: usize, y2: usize|
                        (x2 < self.width && y2 < y) || (x2 < x && y2 == y) ==> #[trigger] cells@[cell_index(
                            self.width,
                            x2,
                            y2,
                        )] == (x2, y2, self.tiles@[cell_index(self.width, x2, y2)], self.colors@[cell_index(
                            self.width,
                            x2,
                            y2,
                        )]),
                decreases self.width - x,
            {
                proof {
                    lemma_cell_in_bounds(self.width, self.height, x, y);
                }
                let index = y * self.width + x;
                let ghost before = cells@;
                cells.push((x, y, self.tiles[index], self.colors[index]));
                proof {
                    assert forall|x2: usize, y2: usize|
                        (x2 < self.width && y2 < y) || (x2 < x + 1 && y2 == y) implies #[trigger] cells@[cell_index(
                            self.width,
                            x2,
                            y2,
                        )] == (x2, y2, self.tiles@[cell_index(self.width, x2, y2)], self.colors@[cell_index(
                            self.width,
                            x2,
                            y2,
                        )]) by {
                        lemma_cell_in_bounds(self.width, self.height, x2, y2);
                        if x2 != x || y2 != y {
                            if y2 < y {
                                lemma_row_before(self.width, x2, y2, y);
                            }
                            assert(cells@[cell_index(self.width, x2, y2)] == before[cell_index(self.width, x2, y2)]);
                        }
                    }
                }
                x += 1;
            }
            proof {
                lemma_next_row(self.width, y);
            }
            y += 1;
        }
        proof {
            lemma_grid_size_commutes(self.width, self.height);
        }
        cells
    }

}

} // verus!
