//! Decoders of map files and of the offset tables of archive files.

use crate::wire::{get_u16_le, get_u32_le, u16_le, u32_le};
use vstd::prelude::*;

verus! {

/// The length of a map file's header.
pub const MAP_HEADER_LEN: usize = 52;

/// The length of the header of a secondary index file.
pub const WZX_HEADER_LEN: usize = 48;

/// The shortest record of a tile.
pub const TILE_MIN_LEN: usize = 12;

/// One cell of a map. The top bit of `back`, `middle` and `objects` marks the
/// cell as blocked; the other fifteen select a sprite.
#[derive(Debug, Clone, Copy, PartialEq, Eq, Structural)]
pub struct Tile {
    pub back: u16,
    pub middle: u16,
    pub objects: u16,
    pub door_idx: u8,
    pub door_offset: u8,
    pub frame: u8,
    pub tick: u8,
    pub light: u8,
    pub objects_idx: u8,
    pub back_idx: u8,
    pub middle_idx: u8,
}

/// A decoded map: its size in tiles and its tiles, one after the other.
#[derive(Debug, Clone, PartialEq, Eq)]
pub struct MapData {
    pub width: u32,
    pub height: u32,
    pub tiles: Vec<Tile>,
}

/// The tile that a record of at least twelve bytes stands for. The
/// thirteenth and fourteenth byte are read where the record has them, and
/// count as zero where it does not.
pub open spec fn tile_of(record: Seq<u8>) -> Tile {
    Tile {
        back: u16_le(record, 0) as u16,
        middle: u16_le(record, 2) as u16,
        objects: u16_le(record, 4) as u16,
        door_idx: record[6],
        door_offset: record[7],
        frame: record[8],
        tick: record[9],
        objects_idx: record[10],
        light: record[11],
        back_idx: if record.len() > 12 {
            record[12]
        } else {
            0
        },
        middle_idx: if record.len() > 13 {
            record[13]
        } else {
            0
        },
    }
}

/// The bit of a layer of a tile that marks the tile as blocked.
pub const BLOCKED: u16 = 0x8000;

/// The bits of a layer of a tile that select its sprite. Zero selects none;
/// any other number selects the sprite before it in the archive, the first
/// sprite being sprite 0.
pub const SPRITE_BITS: u16 = 0x7FFF;

impl Tile {
    /// Whether one of the three layers marks the tile as blocked.
    pub open spec fn blocked(self) -> bool {
        self.back & BLOCKED > 0 || self.middle & BLOCKED > 0 || self.objects & BLOCKED > 0
    }

    /// Tells whether a figure is kept from stepping on the tile.
    pub fn is_blocked(&self) -> (blocked: bool)
        ensures
            blocked == self.blocked(),
    {
        (self.middle & BLOCKED) > 0 || (self.objects & BLOCKED) > 0 || (self.back & BLOCKED) > 0
    }

    /// Decodes one tile record.
    pub fn from(bytes: &[u8]) -> (tile: Self)
        requires
            bytes@.len() >= TILE_MIN_LEN,
        ensures
            tile == tile_of(bytes@),
    {
        let len: usize = bytes.len();
        let back: u16 = get_u16_le(bytes, 0);
        let middle: u16 = get_u16_le(bytes, 2);
        let objects: u16 = get_u16_le(bytes, 4);
        let door_idx: u8 = bytes[6];
        let door_offset: u8 = bytes[7];
        let frame: u8 = bytes[8];
        let tick: u8 = bytes[9];
        let objects_idx: u8 = bytes[10];
        let light: u8 = bytes[11];
        let back_idx: u8 = if len > 12 {
            bytes[12]
        } else {
            0
        };
        let middle_idx: u8 = if len > 13 {
            bytes[13]
        } else {
            0
        };
        Tile {
            back,
            middle,
            objects,
            door_idx,
            door_offset,
            frame,
            tick,
            objects_idx,
            light,
            back_idx,
            middle_idx,
        }
    }
}

/// The width in tiles that a map file's header gives.
pub open spec fn map_width(contents: Seq<u8>) -> int {
    u16_le(contents, 0)
}

/// The height in tiles that a map file's header gives.
pub open spec fn map_height(contents: Seq<u8>) -> int {
    u16_le(contents, 2)
}

/// The length of one tile record of a map file: the bytes after the header,
/// shared out evenly among the tiles, any remainder left over.
pub open spec fn map_record_len(contents: Seq<u8>) -> int {
    (contents.len() - MAP_HEADER_LEN) / (map_width(contents) * map_height(contents))
}

/// Whether a file's contents can be read as a map: the header is whole,
/// there is at least one tile, and each tile gets a record of at least
/// twelve bytes.
pub open spec fn is_map(contents: Seq<u8>) -> bool {
    &&& contents.len() >= MAP_HEADER_LEN
    &&& map_width(contents) * map_height(contents) > 0
    &&& map_record_len(contents) >= TILE_MIN_LEN
}

/// The `i`-th tile record of a map file.
pub open spec fn map_record(contents: Seq<u8>, i: int) -> Seq<u8> {
    contents.subrange(
        MAP_HEADER_LEN + i * map_record_len(contents),
        MAP_HEADER_LEN + (i + 1) * map_record_len(contents),
    )
}

/// Decodes the contents of a map file: a header that starts with the
/// width and the height, then one record per tile.
///
/// Nothing checks that the records fill the file exactly: bytes left over
/// after the last record are ignored.
pub fn read_map_file(contents: &[u8]) -> (map: Option<MapData>)
    ensures
        map is Some <==> is_map(contents@),
        map matches Some(m) ==> {
            &&& m.width == map_width(contents@)
            &&& m.height == map_height(contents@)
            &&& m.tiles@.len() == m.width * m.height
            &&& forall|i: int|
                0 <= i < m.tiles@.len() ==> #[trigger] m.tiles@[i] == tile_of(
                    map_record(contents@, i),
                )
        },
{
    if contents.len() < MAP_HEADER_LEN {
        return None;
    }
    let width: u32 = get_u16_le(contents, 0) as u32;
    let height: u32 = get_u16_le(contents, 2) as u32;
    assert(width * height <= 0xFFFF * 0xFFFF) by (nonlinear_arith)
        requires
            width <= 0xFFFF,
            height <= 0xFFFF,
    ;
    let count: u32 = width * height;
    if count == 0 {
        return None;
    }
    let size: usize = contents.len();
    let length: usize = (size - MAP_HEADER_LEN) / (count as usize);
    if length < TILE_MIN_LEN {
        return None;
    }
    assert(length == map_record_len(contents@));
    assert(count * length <= contents@.len() - MAP_HEADER_LEN) by (nonlinear_arith)
        requires
            count > 0,
            length == (contents@.len() - MAP_HEADER_LEN) / (count as int),
            contents@.len() >= MAP_HEADER_LEN,
    ;
    let mut tiles: Vec<Tile> = Vec::new();
    let mut i: u32 = 0;
    while i < count
        invariant
            i <= count,
            length == map_record_len(contents@),
            length >= TILE_MIN_LEN,
            count * length <= contents@.len() - MAP_HEADER_LEN,
            contents@.len() <= usize::MAX,
            tiles@.len() == i,
            forall|j: int|
                0 <= j < i ==> #[trigger] tiles@[j] == tile_of(map_record(contents@, j)),
        decreases count - i,
    {
        assert(0 <= i * length && (i + 1) * length <= count * length && i * length + length == (i
            + 1) * length) by (nonlinear_arith)
            requires
                0 <= i < count,
                length >= 0,
        ;
        let start: usize = MAP_HEADER_LEN + i as usize * length;
        let end: usize = start + length;
        let tile = Tile::from(&contents[start..end]);
        tiles.push(tile);
        i += 1;
    }
    Some(MapData { width, height, tiles })
}

/// The offsets that a byte string holds: one for every four bytes, each read
/// as an unsigned integer, lowest byte first. Up to three bytes at the end
/// that do not make up an offset are left out.
pub open spec fn offsets_of(data: Seq<u8>) -> Seq<u32> {
    Seq::new((data.len() / 4) as nat, |i: int| u32_le(data, 4 * i) as u32)
}

/// The offset table that stands for a secondary index file that is not there.
pub open spec fn wzx_default() -> Seq<u32> {
    seq![48u32]
}

fn decode_offsets(data: &[u8], from: usize) -> (offsets: Vec<u32>)
    requires
        from <= data@.len(),
    ensures
        offsets@ == offsets_of(data@.skip(from as int)),
{
    let size: usize = data.len();
    let count: usize = (size - from) / 4;
    let mut offsets: Vec<u32> = Vec::new();
    let mut i: usize = 0;
    while i < count
        invariant
            i <= count,
            from <= data@.len(),
            count == (data@.len() - from) / 4,
            data@.len() <= usize::MAX,
            offsets@.len() == i,
            forall|j: int|
                0 <= j < i ==> #[trigger] offsets@[j] == u32_le(data@.skip(from as int), 4 * j),
        decreases count - i,
    {
        let at: usize = from + 4 * i;
        let offset: u32 = get_u32_le(data, at);
        offsets.push(offset);
        i += 1;
    }
    offsets
}

/// Decodes an index file: offsets from its first byte on. A file that is not
/// there gives an empty table.
pub fn read_index(file: Option<&[u8]>) -> (offsets: Vec<u32>)
    ensures
        offsets@ == match file {
            Some(data) => offsets_of(data@),
            None => Seq::<u32>::empty(),
        },
{
    match file {
        Some(data) => decode_offsets(data, 0),
        None => Vec::new(),
    }
}

/// Decodes a secondary index file: offsets after a header of 48 bytes,
/// which is skipped unread. A file that is not there gives a table of the one
/// offset 48.
pub fn read_wzx(file: Option<&[u8]>) -> (offsets: Vec<u32>)
    requires
        file matches Some(data) ==> data@.len() >= WZX_HEADER_LEN,
    ensures
        offsets@ == match file {
            Some(data) => offsets_of(data@.skip(WZX_HEADER_LEN as int)),
            None => wzx_default(),
        },
{
    match file {
        Some(data) => decode_offsets(data, WZX_HEADER_LEN),
        None => {
            let mut offsets: Vec<u32> = Vec::new();
            offsets.push(48);
            offsets
        },
    }
}

} // verus!
