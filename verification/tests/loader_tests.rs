use atlas_cache::atlas::{unresolved, ImageValue};
use atlas_cache::asset::read_map_file;
use atlas_cache::image::ImageData;
use atlas_cache::index::{ImageSpan, IndexCache};
use atlas_cache::key::CacheKey;
use atlas_cache::loader::{group_requests, next_step, KeyGroup, LoadStep};
use atlas_cache::packer::{ImageMark, ImageMeta};
use atlas_cache::resolver::{ArchiveFile, FileKind};
use flate2::{Compress, Compression, FlushCompress};

fn offsets(header: usize, values: &[u32]) -> Vec<u8> {
    let mut bytes = vec![0x55u8; header];
    for v in values {
        bytes.extend_from_slice(&v.to_le_bytes());
    }
    bytes
}

fn data_file_name(name: &str) -> ArchiveFile {
    ArchiveFile { name: String::from(name), kind: FileKind::Data }
}

#[test]
fn no_requests_no_groups() {
    assert_eq!(group_requests(&[]), vec![]);
}

#[test]
fn one_key_of_one_sprite() {
    let key = CacheKey::from(1, 2, 2, 1, 1, 1, 7);
    assert_eq!(group_requests(&[key]), vec![KeyGroup { data_key: 0x2012, keys: vec![key] }]);
}

#[test]
fn a_key_stands_for_as_many_sprites_as_its_count_says() {
    let key = CacheKey::from(1, 2, 2, 3, 1, 1, 7);
    assert_eq!(
        group_requests(&[key]),
        vec![KeyGroup {
            data_key: 0x2012,
            keys: vec![
                CacheKey::from(1, 2, 2, 1, 1, 1, 7),
                CacheKey::from(1, 2, 2, 1, 1, 1, 8),
                CacheKey::from(1, 2, 2, 1, 1, 1, 9),
            ],
        }]
    );
}

#[test]
fn a_key_with_no_count_stands_for_nothing() {
    let key = CacheKey::from(1, 2, 2, 0, 1, 1, 7);
    assert_eq!(group_requests(&[key]), vec![]);
}

#[test]
fn repeats_are_dropped() {
    let a = CacheKey::from(1, 2, 2, 1, 1, 1, 7);
    let b = CacheKey::from(1, 2, 2, 1, 1, 1, 8);
    assert_eq!(
        group_requests(&[b, a, b, a, a]),
        vec![KeyGroup { data_key: 0x2012, keys: vec![b, a] }]
    );
}

#[test]
fn repeats_are_dropped_across_counts() {
    // sprites 7, 8, 9 and then 8, 9, 10, 11
    let first = CacheKey::from(1, 2, 2, 3, 1, 1, 7);
    let second = CacheKey::from(1, 2, 2, 4, 1, 1, 8);
    let groups = group_requests(&[first, second]);
    assert_eq!(groups.len(), 1);
    let indices: Vec<usize> = groups[0].keys.iter().map(|k| k.get_file_index()).collect();
    assert_eq!(indices, vec![7, 8, 9, 10, 11]);
}

#[test]
fn neighbours_of_one_atlas_make_a_group() {
    let a1 = CacheKey::from(1, 2, 2, 1, 1, 1, 7);
    let a2 = CacheKey::from(1, 2, 2, 1, 1, 1, 8);
    let b1 = CacheKey::from(1, 3, 2, 1, 2, 1, 7);
    let b2 = CacheKey::from(1, 3, 2, 1, 2, 1, 9);
    assert_eq!(
        group_requests(&[a1, a2, b1, b2]),
        vec![
            KeyGroup { data_key: CacheKey::build_data_key(1, 2, 2), keys: vec![a1, a2] },
            KeyGroup { data_key: CacheKey::build_data_key(1, 3, 2), keys: vec![b1, b2] },
        ]
    );
}

#[test]
fn an_atlas_asked_for_in_two_places_gets_two_groups() {
    let a1 = CacheKey::from(1, 2, 2, 1, 1, 1, 7);
    let a2 = CacheKey::from(1, 2, 2, 1, 1, 1, 8);
    let b1 = CacheKey::from(1, 3, 2, 1, 2, 1, 7);
    assert_eq!(
        group_requests(&[a1, b1, a2, a1]),
        vec![
            KeyGroup { data_key: 0x2012, keys: vec![a1] },
            KeyGroup { data_key: 0x201A, keys: vec![b1] },
            KeyGroup { data_key: 0x2012, keys: vec![a2] },
        ]
    );
}

#[test]
fn new_index_cache_holds_no_table() {
    let index = IndexCache::new();
    let key = CacheKey::from(1, 2, 2, 1, 1, 1, 0);
    assert!(!index.contains(&key));
    assert_eq!(index.get(&key), None);
    assert_eq!(index.locate(&key), None);
}

#[test]
fn load_stores_a_secondary_index() {
    let mut index = IndexCache::new();
    let key = CacheKey::from(1, 2, 2, 1, 1, 1, 1);
    index.load(&key, Some(&offsets(48, &[64, 200, 260])));
    assert!(index.contains(&key));
    assert_eq!(index.get(&key), Some(&vec![64, 200, 260]));
    assert_eq!(index.locate(&key), Some(ImageSpan { start: 200, length: 16 }));
    assert_eq!(index.locate(&key.as_inc_index(1)), Some(ImageSpan { start: 260, length: 16 }));
    assert_eq!(index.locate(&key.as_inc_index(2)), None);
}

#[test]
fn load_stores_an_index_proper() {
    let mut index = IndexCache::new();
    let key = CacheKey::from(1, 2, 1, 1, 1, 1, 0);
    index.load(&key, Some(&offsets(0, &[64, 200, 260])));
    assert_eq!(index.get(&key), Some(&vec![64, 200, 260]));
    // the entry that follows gives the number of bytes to read
    assert_eq!(index.locate(&key), Some(ImageSpan { start: 64, length: 200 }));
    assert_eq!(index.locate(&key.as_inc_index(1)), Some(ImageSpan { start: 200, length: 260 }));
    assert_eq!(index.locate(&key.as_inc_index(2)), Some(ImageSpan { start: 260, length: 16 }));
    assert_eq!(index.locate(&key.as_inc_index(3)), None);
}

#[test]
fn load_of_a_missing_file() {
    let mut index = IndexCache::new();
    let wzx = CacheKey::from(1, 2, 2, 1, 1, 1, 0);
    let idx = CacheKey::from(1, 2, 1, 1, 1, 1, 0);
    index.load(&wzx, None);
    index.load(&idx, None);
    assert_eq!(index.get(&wzx), Some(&vec![48]));
    assert_eq!(index.get(&idx), Some(&vec![]));
    assert_eq!(index.locate(&wzx), Some(ImageSpan { start: 48, length: 16 }));
    assert_eq!(index.locate(&idx), None);
}

#[test]
fn a_stored_table_is_never_replaced() {
    let mut index = IndexCache::new();
    let key = CacheKey::from(1, 2, 2, 1, 1, 1, 0);
    index.load(&key, Some(&offsets(48, &[64])));
    index.load(&key, Some(&offsets(48, &[99, 100])));
    index.load(&key, None);
    assert_eq!(index.get(&key), Some(&vec![64]));
}

#[test]
fn tables_are_kept_by_type_file_id_and_file_number() {
    let mut index = IndexCache::new();
    let key = CacheKey::from(1, 2, 2, 1, 1, 1, 0);
    index.load(&key, Some(&offsets(48, &[64])));
    // another atlas, another sprite, the same archive file
    assert!(index.contains(&CacheKey::from(9, 9, 2, 9, 1, 1, 9)));
    assert!(!index.contains(&CacheKey::from(1, 2, 1, 1, 1, 1, 0)));
    assert!(!index.contains(&CacheKey::from(1, 2, 2, 1, 2, 1, 0)));
    assert!(!index.contains(&CacheKey::from(1, 2, 2, 1, 1, 2, 0)));
}

#[test]
fn step_without_a_name() {
    let index = IndexCache::new();
    let key = CacheKey::from(1, 2, 2, 1, 77, 1, 0);
    assert_eq!(next_step(&index, &key, None), LoadStep::UnknownFile);
}

#[test]
fn step_without_a_name_though_the_table_is_there() {
    let mut index = IndexCache::new();
    let key = CacheKey::from(1, 2, 2, 1, 77, 1, 0);
    index.load(&key, Some(&offsets(48, &[64])));
    assert_eq!(next_step(&index, &key, None), LoadStep::UnknownFile);
}

#[test]
fn step_with_an_unknown_kind() {
    let index = IndexCache::new();
    let key = CacheKey::from(1, 2, 5, 1, 1, 1, 0);
    assert_eq!(next_step(&index, &key, Some("Tiles")), LoadStep::UnknownKind);
}

#[test]
fn step_reads_the_index_first() {
    let index = IndexCache::new();
    assert_eq!(
        next_step(&index, &CacheKey::from(1, 2, 2, 1, 1, 1, 0), Some("Tiles")),
        LoadStep::ReadIndex(ArchiveFile { name: String::from("tiles"), kind: FileKind::Wzx })
    );
    assert_eq!(
        next_step(&index, &CacheKey::from(1, 2, 1, 1, 1, 3, 0), Some("Tiles")),
        LoadStep::ReadIndex(ArchiveFile { name: String::from("Tiles3"), kind: FileKind::Index })
    );
    assert_eq!(
        next_step(&index, &CacheKey::from(1, 2, 0, 1, 1, 3, 0), Some("Tiles")),
        LoadStep::ReadIndex(ArchiveFile { name: String::from("Tiles3"), kind: FileKind::Data })
    );
}

#[test]
fn step_reads_the_image_once_the_index_is_there() {
    let mut index = IndexCache::new();
    let key = CacheKey::from(1, 2, 2, 1, 1, 1, 1);
    index.load(&key, Some(&offsets(48, &[64, 200])));
    assert_eq!(
        next_step(&index, &key, Some("Tiles")),
        LoadStep::ReadImage(data_file_name("tiles"), ImageSpan { start: 200, length: 16 })
    );
}

#[test]
fn step_for_a_sprite_that_the_table_does_not_list() {
    let mut index = IndexCache::new();
    let key = CacheKey::from(1, 2, 2, 1, 1, 1, 2);
    index.load(&key, Some(&offsets(48, &[64, 200])));
    assert_eq!(next_step(&index, &key, Some("Tiles")), LoadStep::NoEntry);
}

#[test]
fn a_sprite_without_a_name_is_placed_empty() {
    let index = IndexCache::new();
    let key = CacheKey::from(1, 2, 2, 1, 77, 1, 0);
    let mut mark = ImageMark::new(2000, 2000);
    let data = match next_step(&index, &key, None) {
        LoadStep::UnknownFile => ImageData::default(),
        other => panic!("{:?}", other),
    };
    let meta = mark.update(key, &data);
    assert_eq!(
        meta,
        ImageMeta { src_x: 0, src_y: 0, offset_x: 0, offset_y: 0, width: 0, height: 0, key }
    );
    assert!(!data.is_drawable());
    assert_eq!(mark, ImageMark::new(2000, 2000));
    let mut value = ImageValue::new();
    value.extend(&vec![(meta, data)]);
    assert_eq!(value.meta(key.get_meta_key()), Some(&meta));
}

fn sprite(colour: u8) -> Vec<u8> {
    let raw = vec![colour; 256];
    let mut packed = Vec::with_capacity(512);
    Compress::new(Compression::default(), false)
        .compress_vec(&raw, &mut packed, FlushCompress::Finish)
        .unwrap();
    let mut bytes = vec![3u8, 1, 0, 9, 16, 0, 16, 0, 0, 0, 0, 0];
    bytes.extend_from_slice(&(packed.len() as u32).to_le_bytes());
    bytes.extend_from_slice(&packed);
    bytes
}

fn window(file: &[u8], start: usize, length: usize) -> Vec<u8> {
    let mut bytes = vec![0u8; length];
    let end = (start + length).min(file.len());
    if start < end {
        bytes[..end - start].copy_from_slice(&file[start..end]);
    }
    bytes
}

#[test]
fn map_of_two_tiles_gives_one_atlas_of_two_sprites() {
    // a map of two tiles by one, whose back layers show sprites 1 and 2
    let mut map_file = vec![0u8; 52];
    map_file[0] = 2;
    map_file[2] = 1;
    map_file.extend_from_slice(&[1, 0, 0, 0, 0, 0, 0, 0, 0, 0, 0, 0]);
    map_file.extend_from_slice(&[2, 0, 0, 0, 0, 0, 0, 0, 0, 0, 0, 0]);
    // a data file of two sprites of 16 by 16 pixels, and its secondary index
    let first = sprite(1);
    let second = sprite(2);
    let mut data_file = vec![0u8; 64];
    data_file.extend_from_slice(&first);
    data_file.extend_from_slice(&second);
    let index_file = offsets(48, &[64, 64 + first.len() as u32]);

    let map = read_map_file(&map_file).unwrap();
    let keys: Vec<CacheKey> = map
        .tiles
        .iter()
        .map(|t| CacheKey::from(1, 1, 2, 1, 1, t.back_idx as u32 + 1, (t.back & 0x7FFF) as u32 - 1))
        .collect();
    let groups = group_requests(&keys);
    assert_eq!(groups.len(), 1);
    assert_eq!(groups[0].data_key, CacheKey::build_data_key(1, 1, 2));

    let mut index = IndexCache::new();
    let mut mark = ImageMark::new(2000, 2000);
    let mut value = ImageValue::new();
    let mut batch = Vec::new();
    for key in unresolved(Some(&value), &groups[0].keys) {
        if let LoadStep::ReadIndex(file) = next_step(&index, &key, Some("Tiles")) {
            assert_eq!(file, ArchiveFile { name: String::from("tiles"), kind: FileKind::Wzx });
            index.load(&key, Some(&index_file));
        }
        let span = match next_step(&index, &key, Some("Tiles")) {
            LoadStep::ReadImage(file, span) => {
                assert_eq!(file, data_file_name("tiles"));
                span
            }
            other => panic!("{:?}", other),
        };
        let head = window(&data_file, span.start as usize, span.length as usize);
        let data = match ImageData::body_length(&head) {
            Some(length) => {
                let body = window(&data_file, span.start as usize + 16, length as usize);
                ImageData::from_head_data(&head, &body).unwrap()
            }
            None => ImageData::from(&head).unwrap(),
        };
        assert!(data.is_drawable());
        assert!(mark.can_update(&data));
        let meta = mark.update(key, &data);
        batch.push((meta, data));
    }
    value.extend(&batch);

    assert_eq!(batch.len(), 2);
    assert_eq!(batch[0].1.bytes, [0x80u8, 0x00, 0x00, 0xFF].repeat(256));
    assert_eq!(batch[1].1.bytes, [0x00u8, 0x80, 0x00, 0xFF].repeat(256));
    assert!(mark.canvas_height() >= 16);
    assert_eq!(mark.canvas_height(), 2000);
    assert!(mark.max_width >= 32);
    let a = *value.meta(keys[0].get_meta_key()).unwrap();
    let b = *value.meta(keys[1].get_meta_key()).unwrap();
    assert_eq!((a.src_x, a.src_y, a.width, a.height), (0, 0, 16, 16));
    assert_eq!((b.src_x, b.src_y, b.width, b.height), (16, 0, 16, 16));
    assert_eq!(a.key, keys[0]);
    assert_eq!(b.key, keys[1]);
    // asked for again, nothing is left to load
    assert_eq!(unresolved(Some(&value), &groups[0].keys), vec![]);
}
