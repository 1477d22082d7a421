use atlas_cache::key::CacheKey;

#[test]
fn new_keeps_the_value() {
    let key = CacheKey::new(0x0080_4801_0102_0007);
    assert_eq!(key.get_long_key(), 0x0080_4801_0102_0007);
}

#[test]
fn from_packs_the_fields_at_their_places() {
    let key = CacheKey::from(1, 2, 2, 1, 1, 1, 7);
    assert_eq!(key.get_long_key(), 0x0080_4801_0102_0007);
}

#[test]
fn fields_come_back_as_they_went_in() {
    let key = CacheKey::from(2, 4, 1, 416, 4, 0, 0);
    assert_eq!(key.get_long_key(), 0x0100_85A0_0400_0000);
    assert_eq!(key.get_data_id(), 2);
    assert_eq!(key.get_data_number(), 4);
    assert_eq!(key.get_data_type(), 1);
    assert_eq!(key.get_data_count(), 416);
    assert_eq!(key.get_file_id(), 4);
    assert_eq!(key.get_file_number(), 0);
    assert_eq!(key.get_file_index(), 0);
}

#[test]
fn widest_fields_come_back_as_they_went_in() {
    let key = CacheKey::from(255, 1023, 7, 1023, 255, 127, 131071);
    assert_eq!(key.get_long_key(), 0x7FFF_FFFF_FFFF_FFFF);
    assert_eq!(key.get_data_id(), 255);
    assert_eq!(key.get_data_number(), 1023);
    assert_eq!(key.get_data_type(), 7);
    assert_eq!(key.get_data_count(), 1023);
    assert_eq!(key.get_file_id(), 255);
    assert_eq!(key.get_file_number(), 127);
    assert_eq!(key.get_file_index(), 131071);
}

#[test]
fn from_cuts_fields_that_are_too_wide() {
    let key = CacheKey::from(0x1FF, 0x7FF, 0xF, 0x7FF, 0x1FF, 0xFF, 0x3FFFF);
    assert_eq!(key.get_long_key(), 0x7FFF_FFFF_FFFF_FFFF);
    assert_eq!(key.get_data_id(), 0xFF);
    assert_eq!(key.get_file_index(), 0x1FFFF);
}

#[test]
fn the_halves_of_a_key() {
    let key = CacheKey::from(1, 2, 2, 1, 1, 1, 7);
    assert_eq!(key.get_data_key(), 8210);
    assert_eq!(key.get_meta_key(), 16908295);
    assert_eq!(key.get_meta_key(), 0x0102_0007);
}

#[test]
fn build_data_key_is_the_data_key_of_a_key() {
    assert_eq!(CacheKey::build_data_key(1, 2, 2), 0x2012);
    assert_eq!(CacheKey::build_data_key(1, 2, 2), CacheKey::from(1, 2, 2, 1, 1, 1, 7).get_data_key());
    assert_eq!(
        CacheKey::build_data_key(1, 2, 2),
        CacheKey::from(1, 2, 2, 900, 9, 5, 70000).get_data_key()
    );
}

#[test]
fn build_data_key_cuts_fields_that_are_too_wide() {
    assert_eq!(CacheKey::build_data_key(0x101, 0x402, 0xA), 0x2012);
}

#[test]
fn from_cache_joins_the_halves() {
    let key = CacheKey::from_cache(8210, 0x0102_0007, 1);
    assert_eq!(key.get_long_key(), 0x0080_4801_0102_0007);
    assert_eq!(key, CacheKey::from(1, 2, 2, 1, 1, 1, 7));
    assert_eq!(key.get_data_key(), 8210);
    assert_eq!(key.get_meta_key(), 0x0102_0007);
    assert_eq!(key.get_data_count(), 1);
}

#[test]
fn from_cache_does_not_cut_the_count() {
    let key = CacheKey::from_cache(0, 0, 0x400);
    assert_eq!(key.get_long_key(), 1 << 42);
    assert_eq!(key.get_data_key(), 1);
    assert_eq!(key.get_data_count(), 0);
}

#[test]
fn idx_key_joins_type_file_id_and_file_number() {
    let key = CacheKey::from(1, 2, 2, 1, 1, 1, 7);
    assert_eq!(key.get_idx_key(), 0x1_0081);
    assert_eq!(CacheKey::from(9, 9, 7, 9, 255, 127, 9).get_idx_key(), 0x3_FFFF);
}

#[test]
fn increment_moves_the_file_index() {
    let key = CacheKey::from(1, 2, 2, 3, 1, 1, 7);
    assert_eq!(key.get_long_key(), 0x0080_4803_0102_0007);
    let next = key.as_inc_index(2);
    assert_eq!(next.get_long_key(), 0x0080_4801_0102_0009);
    assert_eq!(next.get_file_index(), 9);
    assert_eq!(next.get_file_number(), 1);
    assert_eq!(next.get_file_id(), 1);
    assert_eq!(next.get_data_key(), key.get_data_key());
    assert_eq!(next.get_data_count(), 1);
}

#[test]
fn increment_by_nothing_sets_the_count_to_one() {
    let key = CacheKey::from(1, 2, 2, 3, 1, 1, 7);
    assert_eq!(key.as_inc_index(0), CacheKey::from(1, 2, 2, 1, 1, 1, 7));
}

#[test]
fn increment_up_to_the_last_file_index() {
    let key = CacheKey::from(1, 2, 2, 1, 1, 1, 0x1FFF0);
    let next = key.as_inc_index(0xF);
    assert_eq!(next.get_file_index(), 0x1FFFF);
    assert_eq!(next.get_file_number(), 1);
}

#[test]
fn increment_past_the_last_file_index_carries() {
    let key = CacheKey::from(1, 2, 2, 1, 1, 1, 0x1FFFF);
    let next = key.as_inc_index(1);
    assert_eq!(next.get_long_key(), 0x0080_4801_0104_0000);
    assert_eq!(next.get_file_index(), 0);
    assert_eq!(next.get_file_number(), 2);
}

#[test]
fn increment_of_the_largest_key_does_not_overflow() {
    let key = CacheKey::new(u64::MAX);
    let next = key.as_inc_index(u32::MAX);
    assert_eq!(next.get_long_key(), 0xFFFF_FC02_FFFF_FFFE);
}
