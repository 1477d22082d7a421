use atlas_cache::asset::{read_index, read_map_file, read_wzx, MapData, Tile};

fn record(first: u8, len: usize) -> Vec<u8> {
    let mut bytes = Vec::new();
    for i in 0..len {
        bytes.push(first + i as u8);
    }
    bytes
}

fn map_bytes(width: u16, height: u16, records: &[Vec<u8>]) -> Vec<u8> {
    let mut bytes = vec![0u8; 52];
    bytes[0..2].copy_from_slice(&width.to_le_bytes());
    bytes[2..4].copy_from_slice(&height.to_le_bytes());
    for i in 4..52 {
        bytes[i] = 0xEE;
    }
    for r in records {
        bytes.extend_from_slice(r);
    }
    bytes
}

#[test]
fn tile_of_twelve_bytes() {
    let tile = Tile::from(&[0x34, 0x12, 0x78, 0x56, 0xBC, 0x9A, 1, 2, 3, 4, 5, 6]);
    assert_eq!(
        tile,
        Tile {
            back: 0x1234,
            middle: 0x5678,
            objects: 0x9ABC,
            door_idx: 1,
            door_offset: 2,
            frame: 3,
            tick: 4,
            objects_idx: 5,
            light: 6,
            back_idx: 0,
            middle_idx: 0,
        }
    );
}

#[test]
fn tile_of_thirteen_bytes_has_a_back_index() {
    let tile = Tile::from(&[0, 0, 0, 0, 0, 0, 0, 0, 0, 0, 0, 0, 7]);
    assert_eq!(tile.back_idx, 7);
    assert_eq!(tile.middle_idx, 0);
}

#[test]
fn tile_of_fourteen_bytes_has_both_indices() {
    let tile = Tile::from(&[0xFF, 0x80, 0, 0, 0, 0, 0, 0, 0, 0, 0, 0, 7, 9, 11]);
    assert_eq!(tile.back, 0x80FF);
    assert_eq!(tile.back_idx, 7);
    assert_eq!(tile.middle_idx, 9);
}

#[test]
fn map_of_two_tiles() {
    let bytes = map_bytes(2, 1, &[record(1, 12), record(101, 12)]);
    let map = read_map_file(&bytes).unwrap();
    assert_eq!(map.width, 2);
    assert_eq!(map.height, 1);
    assert_eq!(map.tiles.len(), 2);
    assert_eq!(map.tiles[0], Tile::from(&record(1, 12)));
    assert_eq!(map.tiles[1], Tile::from(&record(101, 12)));
    assert_eq!(map.tiles[1].back, 0x6665);
    assert_eq!(map.tiles[1].light, 112);
}

#[test]
fn map_with_records_of_fourteen_bytes() {
    let bytes = map_bytes(1, 2, &[record(1, 14), record(101, 14)]);
    let map = read_map_file(&bytes).unwrap();
    assert_eq!(
        map,
        MapData { width: 1, height: 2, tiles: vec![Tile::from(&record(1, 14)), Tile::from(&record(101, 14))] }
    );
    assert_eq!(map.tiles[1].back_idx, 113);
    assert_eq!(map.tiles[1].middle_idx, 114);
}

#[test]
fn map_with_bytes_left_over_ignores_them() {
    let mut bytes = map_bytes(2, 1, &[record(1, 12), record(101, 12)]);
    bytes.push(0xAB);
    let map = read_map_file(&bytes).unwrap();
    assert_eq!(map.tiles, vec![Tile::from(&record(1, 12)), Tile::from(&record(101, 12))]);
}

#[test]
fn map_with_uneven_records_shares_the_bytes_out_evenly() {
    // 27 bytes for two tiles: records of 13 bytes, the last byte is left over
    let mut body = record(1, 27);
    let mut bytes = map_bytes(2, 1, &[]);
    bytes.append(&mut body);
    let map = read_map_file(&bytes).unwrap();
    assert_eq!(map.tiles[0], Tile::from(&record(1, 13)));
    assert_eq!(map.tiles[1], Tile::from(&record(14, 13)));
}

#[test]
fn map_with_a_short_header_is_none() {
    assert_eq!(read_map_file(&[]), None);
    assert_eq!(read_map_file(&vec![1u8; 51]), None);
}

#[test]
fn map_without_tiles_is_none() {
    assert_eq!(read_map_file(&map_bytes(0, 5, &[record(1, 12)])), None);
    assert_eq!(read_map_file(&map_bytes(5, 0, &[record(1, 12)])), None);
}

#[test]
fn map_with_short_records_is_none() {
    assert_eq!(read_map_file(&map_bytes(2, 1, &[record(1, 12), record(1, 11)])), None);
    assert_eq!(read_map_file(&map_bytes(1, 1, &[])), None);
}

#[test]
fn index_of_a_missing_file_is_empty() {
    assert_eq!(read_index(None), Vec::<u32>::new());
}

#[test]
fn index_of_an_empty_file_is_empty() {
    assert_eq!(read_index(Some(&[])), Vec::<u32>::new());
}

#[test]
fn index_reads_offsets_low_byte_first() {
    let bytes = [0x40, 0, 0, 0, 0x78, 0x56, 0x34, 0x12, 0xFF, 0xFF, 0xFF, 0xFF];
    assert_eq!(read_index(Some(&bytes)), vec![0x40, 0x1234_5678, 0xFFFF_FFFF]);
}

#[test]
fn index_leaves_out_a_broken_last_offset() {
    let bytes = [0x40, 0, 0, 0, 0x78, 0x56, 0x34];
    assert_eq!(read_index(Some(&bytes)), vec![0x40]);
}

#[test]
fn wzx_of_a_missing_file_is_the_one_offset_48() {
    assert_eq!(read_wzx(None), vec![48]);
}

#[test]
fn wzx_skips_its_header() {
    let mut bytes = vec![0xAAu8; 48];
    bytes.extend_from_slice(&[0x40, 0, 0, 0, 0x50, 0x01, 0, 0, 9]);
    assert_eq!(read_wzx(Some(&bytes)), vec![0x40, 0x150]);
}

#[test]
fn wzx_of_a_header_alone_is_empty() {
    assert_eq!(read_wzx(Some(&vec![0u8; 48])), Vec::<u32>::new());
}
