//! The part of a map that is on screen, and the sprites that it needs.
//!
//! The window is a block of cells round the tile on which the view is
//! centred, a few cells wider and higher than the screen. Each cell that
//! lies in the map gets the keys of the three sprites that its tile shows.
//! Tiles are stored column by column.

use crate::asset::{Tile, SPRITE_BITS};
use crate::key::{pack, CacheKey};
use crate::resolver::KIND_WZX;
use vstd::prelude::*;

verus! {

/// The columns that the window has beyond those of the screen.
pub const EXTRA_COLUMNS: u32 = 4;

/// The rows that the window has beyond those of the screen.
pub const EXTRA_ROWS: u32 = 12;

/// The cells of the window that lie left of and above the screen.
pub const LEAD: i64 = 2;

/// The file id of the archive of back tiles.
pub const BACK_FILE: u32 = 1;

/// The file id of the archive of middle tiles.
pub const MIDDLE_FILE: u32 = 2;

/// The file id of the archive of objects.
pub const OBJECT_FILE: u32 = 3;

/// What the window is cut from and where: the tile in its centre, the size
/// of the screen in tiles, the size of the map in tiles, and the data id and
/// first data number of the map's atlases.
#[derive(Debug, Clone, Copy, PartialEq, Eq, Structural)]
pub struct MapWindow {
    pub tile_x: i32,
    pub tile_y: i32,
    pub max_tile_width: u32,
    pub max_tile_height: u32,
    pub map_width: u32,
    pub map_height: u32,
    pub data_id: u32,
    pub data_number: u32,
}

/// One cell of the window: its tile, its place, and the keys of its sprites.
#[derive(Debug, Clone, Copy, PartialEq, Eq, Structural)]
pub struct MapTileSet {
    /// The place of the tile among the tiles of the map.
    pub layer: i32,
    /// Whether the tile's column and row are both even. Back tiles cover two
    /// by two cells and are drawn on such cells only.
    pub even: bool,
    pub tile: Tile,
    /// The column of the cell in the window.
    pub column: u32,
    /// The row of the cell in the window.
    pub row: u32,
    /// The column of the tile in the map.
    pub tile_x: i32,
    /// The row of the tile in the map.
    pub tile_y: i32,
    pub back_key: CacheKey,
    pub middle_key: CacheKey,
    pub object_key: CacheKey,
}

/// The place in its archive of the sprite that a layer of a tile selects.
/// A layer that selects no sprite gives the place of the first.
pub open spec fn sprite_index(layer: u16) -> u32 {
    if layer & SPRITE_BITS > 0 {
        ((layer & SPRITE_BITS) - 1) as u32
    } else {
        0
    }
}

impl MapWindow {
    /// The number of columns of the window.
    pub open spec fn columns(self) -> int {
        self.max_tile_width + EXTRA_COLUMNS
    }

    /// The number of rows of the window.
    pub open spec fn rows(self) -> int {
        self.max_tile_height + EXTRA_ROWS
    }

    /// The column of the map that the window's column `w` shows.
    pub open spec fn map_x(self, w: int) -> int {
        w + self.tile_x - self.max_tile_width / 2 - LEAD
    }

    /// The row of the map that the window's row `h` shows.
    pub open spec fn map_y(self, h: int) -> int {
        h + self.tile_y - self.max_tile_height / 2 - LEAD
    }

    /// Whether a cell of the window counts as lying in the map. The column
    /// is held against the map's height and the row against its width.
    pub open spec fn in_map(self, w: int, h: int) -> bool {
        &&& 0 <= self.map_x(w) < self.map_height
        &&& 0 <= self.map_y(h) < self.map_width
    }

    /// The place among the map's tiles of the tile that a cell shows.
    pub open spec fn tile_index(self, w: int, h: int) -> int {
        self.map_x(w) * self.map_height + self.map_y(h)
    }

    /// Whether the window can be cut from a map of so many tiles: every cell
    /// that counts as lying in the map has its tile among them, and the
    /// places of tiles, the numbers of columns and rows and the data numbers
    /// of the three atlases are numbers of 32 bits.
    pub open spec fn fits(self, tiles: int) -> bool {
        &&& tiles <= i32::MAX
        &&& self.columns() <= u32::MAX
        &&& self.rows() <= u32::MAX
        &&& self.data_number + 2 <= u32::MAX
        &&& forall|w: int, h: int|
            0 <= w < self.columns() && 0 <= h < self.rows() && #[trigger] self.in_map(w, h)
                ==> self.tile_index(w, h) < tiles
    }

    /// The cell of the window in column `w` and row `h`.
    pub open spec fn tile_set(self, tiles: Seq<Tile>, w: int, h: int) -> MapTileSet {
        let tile = tiles[self.tile_index(w, h)];
        MapTileSet {
            layer: self.tile_index(w, h) as i32,
            even: self.map_x(w) % 2 == 0 && self.map_y(h) % 2 == 0,
            tile,
            column: w as u32,
            row: h as u32,
            tile_x: self.map_x(w) as i32,
            tile_y: self.map_y(h) as i32,
            back_key: CacheKey {
                long_key: pack(
                    self.data_id,
                    self.data_number,
                    KIND_WZX,
                    1,
                    BACK_FILE,
                    (tile.back_idx + 1) as u32,
                    sprite_index(tile.back),
                ),
            },
            middle_key: CacheKey {
                long_key: pack(
                    self.data_id,
                    (self.data_number + 1) as u32,
                    KIND_WZX,
                    1,
                    MIDDLE_FILE,
                    (tile.middle_idx + 1) as u32,
                    sprite_index(tile.middle),
                ),
            },
            object_key: CacheKey {
                long_key: pack(
                    self.data_id,
                    (self.data_number + 2) as u32,
                    KIND_WZX,
                    1,
                    OBJECT_FILE,
                    (tile.objects_idx + 1) as u32,
                    sprite_index(tile.objects),
                ),
            },
        }
    }

    /// The cells of the first `rows` rows of column `w` that lie in the map,
    /// from the top down.
    pub open spec fn column_sets(self, tiles: Seq<Tile>, w: int, rows: int) -> Seq<MapTileSet>
        decreases rows,
    {
        if rows <= 0 {
            Seq::empty()
        } else if self.in_map(w, rows - 1) {
            self.column_sets(tiles, w, rows - 1).push(self.tile_set(tiles, w, rows - 1))
        } else {
            self.column_sets(tiles, w, rows - 1)
        }
    }

    /// The cells of the first `columns` columns that lie in the map, column
    /// by column from the left.
    pub open spec fn window_sets(self, tiles: Seq<Tile>, columns: int) -> Seq<MapTileSet>
        decreases columns,
    {
        if columns <= 0 {
            Seq::empty()
        } else {
            self.window_sets(tiles, columns - 1) + self.column_sets(
                tiles,
                columns - 1,
                self.rows(),
            )
        }
    }

    /// Whether a map of so many tiles has a tile for every cell that could
    /// count as lying in it, wherever the window is cut, and the numbers of
    /// the window are numbers of 32 bits.
    pub open spec fn is_whole(self, tiles: int) -> bool {
        &&& tiles <= i32::MAX
        &&& self.columns() <= u32::MAX
        &&& self.rows() <= u32::MAX
        &&& self.data_number + 2 <= u32::MAX
        &&& self.map_height > 0 && self.map_width > 0 ==> (self.map_height - 1) * self.map_height
            + self.map_width <= tiles
    }

    /// Tells whether a map of so many tiles is whole, so that any window can
    /// be cut from it.
    pub fn can_build(&self, tiles: usize) -> (whole: bool)
        ensures
            whole == self.is_whole(tiles as int),
            whole ==> self.fits(tiles as int),
    {
        if tiles > i32::MAX as usize || self.max_tile_width > u32::MAX - EXTRA_COLUMNS
            || self.max_tile_height > u32::MAX - EXTRA_ROWS || self.data_number > u32::MAX - 2 {
            return false;
        }
        if self.map_height == 0 || self.map_width == 0 {
            return true;
        }
        assert((self.map_height - 1) * self.map_height <= 0xFFFF_FFFF * 0xFFFF_FFFF && 0 <= (
        self.map_height - 1) * self.map_height) by (nonlinear_arith)
            requires
                1 <= self.map_height <= 0xFFFF_FFFF,
        ;
        let last: u64 = (self.map_height as u64 - 1) * self.map_height as u64
            + self.map_width as u64;
        let whole = last <= tiles as u64;
        proof {
            if whole {
                assert forall|w: int, h: int|
                    0 <= w < self.columns() && 0 <= h < self.rows() && #[trigger] self.in_map(
                        w,
                        h,
                    ) implies self.tile_index(w, h) < tiles by {
                    let x = self.map_x(w);
                    let y = self.map_y(h);
                    assert(x * self.map_height + y < (self.map_height - 1) * self.map_height
                        + self.map_width) by (nonlinear_arith)
                        requires
                            0 <= x <= self.map_height - 1,
                            0 <= y < self.map_width,
                            self.map_height > 0,
                    ;
                }
            }
        }
        whole
    }

    fn cell(&self, tiles: &Vec<Tile>, w: u32, h: u32) -> (set: Option<MapTileSet>)
        requires
            self.fits(tiles@.len() as int),
            w < self.columns(),
            h < self.rows(),
        ensures
            set == if self.in_map(w as int, h as int) {
                Some(self.tile_set(tiles@, w as int, h as int))
            } else {
                None
            },
    {
        let x: i64 = w as i64 + self.tile_x as i64 - (self.max_tile_width / 2) as i64 - LEAD;
        let y: i64 = h as i64 + self.tile_y as i64 - (self.max_tile_height / 2) as i64 - LEAD;
        if x < 0 || x >= self.map_height as i64 || y < 0 || y >= self.map_width as i64 {
            return None;
        }
        assert(self.in_map(w as int, h as int));
        assert(x * self.map_height <= 0xFFFF_FFFF * 0xFFFF_FFFF && 0 <= x * self.map_height)
            by (nonlinear_arith)
            requires
                0 <= x <= 0xFFFF_FFFF,
                0 <= self.map_height <= 0xFFFF_FFFF,
        ;
        let p: u64 = x as u64 * self.map_height as u64 + y as u64;
        assert(p == self.tile_index(w as int, h as int));
        assert(x <= p) by (nonlinear_arith)
            requires
                p == x * self.map_height + y,
                0 <= x < self.map_height,
                0 <= y,
        ;
        let tile: Tile = tiles[p as usize];
        let even: bool = x % 2 == 0 && y % 2 == 0;
        let back: u16 = tile.back & SPRITE_BITS;
        let middle: u16 = tile.middle & SPRITE_BITS;
        let objects: u16 = tile.objects & SPRITE_BITS;
        let back_idx: u32 = if back > 0 {
            (back - 1) as u32
        } else {
            0
        };
        let middle_idx: u32 = if middle > 0 {
            (middle - 1) as u32
        } else {
            0
        };
        let object_idx: u32 = if objects > 0 {
            (objects - 1) as u32
        } else {
            0
        };
        Some(
            MapTileSet {
                layer: p as i32,
                even,
                tile,
                column: w,
                row: h,
                tile_x: x as i32,
                tile_y: y as i32,
                back_key: CacheKey::from(
                    self.data_id,
                    self.data_number,
                    KIND_WZX,
                    1,
                    BACK_FILE,
                    tile.back_idx as u32 + 1,
                    back_idx,
                ),
                middle_key: CacheKey::from(
                    self.data_id,
                    self.data_number + 1,
                    KIND_WZX,
                    1,
                    MIDDLE_FILE,
                    tile.middle_idx as u32 + 1,
                    middle_idx,
                ),
                object_key: CacheKey::from(
                    self.data_id,
                    self.data_number + 2,
                    KIND_WZX,
                    1,
                    OBJECT_FILE,
                    tile.objects_idx as u32 + 1,
                    object_idx,
                ),
            },
        )
    }

    /// Cuts the window from the map: one entry for each cell that lies in
    /// the map, column by column from the left, each column from the top
    /// down.
    pub fn build_map_window(&self, tiles: &Vec<Tile>) -> (sets: Vec<MapTileSet>)
        requires
            self.fits(tiles@.len() as int),
        ensures
            sets@ == self.window_sets(tiles@, self.columns()),
    {
        let columns: u32 = self.max_tile_width + EXTRA_COLUMNS;
        let rows: u32 = self.max_tile_height + EXTRA_ROWS;
        let mut sets: Vec<MapTileSet> = Vec::new();
        let mut w: u32 = 0;
        while w < columns
            invariant
                w <= columns,
                columns == self.columns(),
                rows == self.rows(),
                self.fits(tiles@.len() as int),
                sets@ == self.window_sets(tiles@, w as int),
            decreases columns - w,
        {
            let ghost done = sets@;
            let mut h: u32 = 0;
            while h < rows
                invariant
                    h <= rows,
                    w < columns,
                    columns == self.columns(),
                    rows == self.rows(),
                    self.fits(tiles@.len() as int),
                    sets@ == done + self.column_sets(tiles@, w as int, h as int),
                decreases rows - h,
            {
                match self.cell(tiles, w, h) {
                    Some(set) => {
                        sets.push(set);
                    },
                    None => {},
                }
                h += 1;
            }
            w += 1;
        }
        sets
    }
}

/// The tile on which the view is put when it is sent to `tile`: the tile
/// itself, or, where that lies beyond the map's size, the last tile of the
/// map.
pub open spec fn tile_in_map(tile: i32, size: i32) -> int {
    if tile > size {
        size - 1
    } else {
        tile as int
    }
}

/// Puts the view on a tile along one axis of the map: gives the tile on
/// which it comes to stand, and the pixel at which that is, `rel` pixels
/// into the tile. There is no answer where one of the two is no number of 32
/// bits.
pub fn move_to_tile(tile: i32, size: i32, tile_size: i32, rel: i32) -> (placed: Option<(i32, i32)>)
    ensures
        placed == if i32::MIN <= tile_in_map(tile, size) && i32::MIN <= tile_in_map(tile, size)
            * tile_size + rel <= i32::MAX {
            Some(
                (tile_in_map(tile, size) as i32, (tile_in_map(tile, size) * tile_size + rel) as i32),
            )
        } else {
            None
        },
{
    let on: i64 = if tile > size {
        size as i64 - 1
    } else {
        tile as i64
    };
    if on < i32::MIN as i64 {
        return None;
    }
    assert(-0x8000_0000 * 0x8000_0000 <= on * tile_size <= 0x8000_0000 * 0x8000_0000)
        by (nonlinear_arith)
        requires
            -0x8000_0000 <= on <= 0x7FFF_FFFF,
            -0x8000_0000 <= tile_size <= 0x7FFF_FFFF,
    ;
    let pixel: i64 = on * tile_size as i64 + rel as i64;
    if pixel < i32::MIN as i64 || pixel > i32::MAX as i64 {
        return None;
    }
    Some((on as i32, pixel as i32))
}

/// Tells whether the tile in column `tile_x` and row `tile_y` of a map of
/// height `map_height` is blocked. There is no answer where the map has no
/// such tile.
pub fn blocked_at(tiles: &Vec<Tile>, map_height: i32, tile_x: i32, tile_y: i32) -> (blocked:
    Option<bool>)
    ensures
        blocked == if 0 <= tile_x * map_height + tile_y < tiles@.len() {
            Some(tiles@[tile_x * map_height + tile_y].blocked())
        } else {
            None
        },
{
    assert(-0x8000_0000 * 0x8000_0000 <= tile_x * map_height <= 0x8000_0000 * 0x8000_0000)
        by (nonlinear_arith)
        requires
            -0x8000_0000 <= tile_x <= 0x7FFF_FFFF,
            -0x8000_0000 <= map_height <= 0x7FFF_FFFF,
    ;
    let point: i64 = tile_x as i64 * map_height as i64 + tile_y as i64;
    if point < 0 || point as u64 >= tiles.len() as u64 {
        return None;
    }
    Some(tiles[point as usize].is_blocked())
}

/// The keys of the back tiles that a window shows: those of the cells in
/// even columns and rows whose back layer selects a sprite.
pub open spec fn back_keys_of(sets: Seq<MapTileSet>) -> Seq<CacheKey> {
    sets.filter(|set: MapTileSet| set.even && set.tile.back & SPRITE_BITS > 0).map_values(
        |set: MapTileSet| set.back_key,
    )
}

/// The keys of the middle tiles that a window shows: those of the cells
/// whose middle layer selects a sprite.
pub open spec fn middle_keys_of(sets: Seq<MapTileSet>) -> Seq<CacheKey> {
    sets.filter(|set: MapTileSet| set.tile.middle & SPRITE_BITS > 0).map_values(
        |set: MapTileSet| set.middle_key,
    )
}

/// The keys of the objects that a window shows: those of the cells whose
/// object layer selects a sprite.
pub open spec fn object_keys_of(sets: Seq<MapTileSet>) -> Seq<CacheKey> {
    sets.filter(|set: MapTileSet| set.tile.objects & SPRITE_BITS > 0).map_values(
        |set: MapTileSet| set.object_key,
    )
}

/// The keys of the back tiles to request for a window.
pub fn back_keys(sets: &Vec<MapTileSet>) -> (keys: Vec<CacheKey>)
    ensures
        keys@ == back_keys_of(sets@),
{
    let ghost wanted = |set: MapTileSet| set.even && set.tile.back & SPRITE_BITS > 0;
    let ghost key = |set: MapTileSet| set.back_key;
    let mut keys: Vec<CacheKey> = Vec::new();
    let mut i: usize = 0;
    proof {
        reveal(Seq::filter);
        assert(sets@.take(0) == Seq::<MapTileSet>::empty());
    }
    while i < sets.len()
        invariant
            i <= sets@.len(),
            wanted == |set: MapTileSet| set.even && set.tile.back & SPRITE_BITS > 0,
            key == |set: MapTileSet| set.back_key,
            keys@ == sets@.take(i as int).filter(wanted).map_values(key),
        decreases sets@.len() - i,
    {
        let set: MapTileSet = sets[i];
        proof {
            reveal(Seq::filter);
            assert(sets@.take(i + 1).drop_last() == sets@.take(i as int));
            assert(sets@.take(i + 1).last() == set);
            let kept = sets@.take(i as int).filter(wanted);
            assert(kept.push(set).map_values(key) == kept.map_values(key).push(set.back_key));
        }
        if set.even && (set.tile.back & SPRITE_BITS) > 0 {
            keys.push(set.back_key);
        }
        i += 1;
    }
    proof {
        assert(sets@.take(i as int) == sets@);
    }
    keys
}

/// The keys of the middle tiles to request for a window.
pub fn middle_keys(sets: &Vec<MapTileSet>) -> (keys: Vec<CacheKey>)
    ensures
        keys@ == middle_keys_of(sets@),
{
    let ghost wanted = |set: MapTileSet| set.tile.middle & SPRITE_BITS > 0;
    let ghost key = |set: MapTileSet| set.middle_key;
    let mut keys: Vec<CacheKey> = Vec::new();
    let mut i: usize = 0;
    proof {
        reveal(Seq::filter);
        assert(sets@.take(0) == Seq::<MapTileSet>::empty());
    }
    while i < sets.len()
        invariant
            i <= sets@.len(),
            wanted == |set: MapTileSet| set.tile.middle & SPRITE_BITS > 0,
            key == |set: MapTileSet| set.middle_key,
            keys@ == sets@.take(i as int).filter(wanted).map_values(key),
        decreases sets@.len() - i,
    {
        let set: MapTileSet = sets[i];
        proof {
            reveal(Seq::filter);
            assert(sets@.take(i + 1).drop_last() == sets@.take(i as int));
            assert(sets@.take(i + 1).last() == set);
            let kept = sets@.take(i as int).filter(wanted);
            assert(kept.push(set).map_values(key) == kept.map_values(key).push(set.middle_key));
        }
        if (set.tile.middle & SPRITE_BITS) > 0 {
            keys.push(set.middle_key);
        }
        i += 1;
    }
    proof {
        assert(sets@.take(i as int) == sets@);
    }
    keys
}

/// The keys of the objects to request for a window.
pub fn object_keys(sets: &Vec<MapTileSet>) -> (keys: Vec<CacheKey>)
    ensures
        keys@ == object_keys_of(sets@),
{
    let ghost wanted = |set: MapTileSet| set.tile.objects & SPRITE_BITS > 0;
    let ghost key = |set: MapTileSet| set.object_key;
    let mut keys: Vec<CacheKey> = Vec::new();
    let mut i: usize = 0;
    proof {
        reveal(Seq::filter);
        assert(sets@.take(0) == Seq::<MapTileSet>::empty());
    }
    while i < sets.len()
        invariant
            i <= sets@.len(),
            wanted == |set: MapTileSet| set.tile.objects & SPRITE_BITS > 0,
            key == |set: MapTileSet| set.object_key,
            keys@ == sets@.take(i as int).filter(wanted).map_values(key),
        decreases sets@.len() - i,
    {
        let set: MapTileSet = sets[i];
        proof {
            reveal(Seq::filter);
            assert(sets@.take(i + 1).drop_last() == sets@.take(i as int));
            assert(sets@.take(i + 1).last() == set);
            let kept = sets@.take(i as int).filter(wanted);
            assert(kept.push(set).map_values(key) == kept.map_values(key).push(set.object_key));
        }
        if (set.tile.objects & SPRITE_BITS) > 0 {
            keys.push(set.object_key);
        }
        i += 1;
    }
    proof {
        assert(sets@.take(i as int) == sets@);
    }
    keys
}

} // verus!
