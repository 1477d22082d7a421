use atlas_cache::atlas::{is_exists, unresolved, ImageValue};
use atlas_cache::image::ImageData;
use atlas_cache::key::CacheKey;
use atlas_cache::packer::ImageMeta;

fn placed(key: CacheKey, src_x: u32) -> (ImageMeta, ImageData) {
    (
        ImageMeta { src_x, src_y: 0, offset_x: 0, offset_y: 0, width: 16, height: 16, key },
        ImageData { width: 16, height: 16, offset_x: 0, offset_y: 0, bytes: vec![0; 1024] },
    )
}

#[test]
fn new_atlas_holds_nothing() {
    let value = ImageValue::new();
    assert_eq!(value.meta(0), None);
    assert_eq!(value.meta(0x0102_0007), None);
}

#[test]
fn extend_files_each_place_under_its_meta_key() {
    let a = CacheKey::from(1, 2, 2, 1, 1, 1, 7);
    let b = CacheKey::from(1, 2, 2, 1, 1, 1, 8);
    let mut value = ImageValue::new();
    value.extend(&vec![placed(a, 0), placed(b, 16)]);
    assert_eq!(value.meta(0x0102_0007), Some(&placed(a, 0).0));
    assert_eq!(value.meta(0x0102_0008), Some(&placed(b, 16).0));
    assert_eq!(value.meta(0x0102_0009), None);
}

#[test]
fn extend_keeps_what_was_there() {
    let a = CacheKey::from(1, 2, 2, 1, 1, 1, 7);
    let b = CacheKey::from(1, 2, 2, 1, 1, 1, 8);
    let mut value = ImageValue::new();
    value.extend(&vec![placed(a, 0)]);
    value.extend(&vec![placed(b, 16)]);
    value.extend(&vec![]);
    assert_eq!(value.meta(a.get_meta_key()).unwrap().src_x, 0);
    assert_eq!(value.meta(b.get_meta_key()).unwrap().src_x, 16);
}

#[test]
fn later_place_of_a_sprite_replaces_the_earlier() {
    let a = CacheKey::from(1, 2, 2, 1, 1, 1, 7);
    // the same sprite asked for with another count: the same meta key
    let again = CacheKey::from(1, 2, 2, 5, 1, 1, 7);
    let mut value = ImageValue::new();
    value.extend(&vec![placed(a, 0), placed(again, 32)]);
    assert_eq!(value.meta(a.get_meta_key()).unwrap().src_x, 32);
    value.extend(&vec![placed(a, 64)]);
    assert_eq!(value.meta(a.get_meta_key()).unwrap().src_x, 64);
}

#[test]
fn nothing_exists_without_an_atlas() {
    assert!(!is_exists(None, &CacheKey::from(1, 2, 2, 1, 1, 1, 7)));
}

#[test]
fn a_sprite_exists_once_it_is_placed() {
    let a = CacheKey::from(1, 2, 2, 1, 1, 1, 7);
    let b = CacheKey::from(1, 2, 2, 1, 1, 1, 8);
    let mut value = ImageValue::new();
    assert!(!is_exists(Some(&value), &a));
    value.extend(&vec![placed(a, 0)]);
    assert!(is_exists(Some(&value), &a));
    assert!(!is_exists(Some(&value), &b));
}

#[test]
fn unresolved_keeps_the_keys_that_are_not_placed() {
    let a = CacheKey::from(1, 2, 2, 1, 1, 1, 7);
    let b = CacheKey::from(1, 2, 2, 1, 1, 1, 8);
    let c = CacheKey::from(1, 2, 2, 1, 1, 1, 9);
    let mut value = ImageValue::new();
    value.extend(&vec![placed(b, 0)]);
    assert_eq!(unresolved(Some(&value), &vec![c, b, a, b]), vec![c, a]);
    assert_eq!(unresolved(None, &vec![c, b, a, b]), vec![c, b, a, b]);
    assert_eq!(unresolved(Some(&value), &vec![]), vec![]);
    assert_eq!(unresolved(Some(&value), &vec![b]), vec![]);
}
