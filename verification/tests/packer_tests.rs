use atlas_cache::image::ImageData;
use atlas_cache::key::CacheKey;
use atlas_cache::packer::{ImageMark, ImageMeta};

fn image(width: u32, height: u32) -> ImageData {
    ImageData { width, height, offset_x: 3, offset_y: -4, bytes: vec![] }
}

fn overlap(a: &ImageMeta, b: &ImageMeta) -> bool {
    a.src_x < b.src_x + b.width
        && b.src_x < a.src_x + a.width
        && a.src_y < b.src_y + b.height
        && b.src_y < a.src_y + a.height
}

#[test]
fn new_cursor_is_at_the_top_left() {
    assert_eq!(
        ImageMark::new(2000, 1000),
        ImageMark { max_width: 2000, max_height: 1000, current_width: 0, current_height: 0, next_height: 0 }
    );
}

#[test]
fn first_sprite_goes_to_the_top_left() {
    let mut mark = ImageMark::new(100, 100);
    let key = CacheKey::from(1, 2, 2, 1, 1, 1, 7);
    let meta = mark.update(key, &image(30, 20));
    assert_eq!(
        meta,
        ImageMeta { src_x: 0, src_y: 0, offset_x: 3, offset_y: -4, width: 30, height: 20, key }
    );
    assert_eq!(
        mark,
        ImageMark { max_width: 100, max_height: 100, current_width: 30, current_height: 0, next_height: 20 }
    );
}

#[test]
fn sprites_fill_a_shelf_from_left_to_right() {
    let mut mark = ImageMark::new(100, 100);
    let key = CacheKey::new(0);
    mark.update(key, &image(30, 20));
    let second = mark.update(key, &image(40, 50));
    let third = mark.update(key, &image(30, 10));
    assert_eq!((second.src_x, second.src_y), (30, 0));
    assert_eq!((third.src_x, third.src_y), (70, 0));
    assert_eq!(
        mark,
        ImageMark { max_width: 100, max_height: 100, current_width: 100, current_height: 0, next_height: 50 }
    );
}

#[test]
fn sprite_that_does_not_fit_starts_a_new_shelf() {
    let mut mark = ImageMark::new(100, 100);
    let key = CacheKey::new(0);
    mark.update(key, &image(30, 20));
    mark.update(key, &image(40, 50));
    let third = mark.update(key, &image(31, 10));
    assert_eq!((third.src_x, third.src_y), (0, 50));
    assert_eq!(
        mark,
        ImageMark { max_width: 100, max_height: 100, current_width: 31, current_height: 50, next_height: 60 }
    );
    let fourth = mark.update(key, &image(69, 5));
    assert_eq!((fourth.src_x, fourth.src_y), (31, 50));
    assert_eq!(mark.next_height, 60);
}

#[test]
fn sprite_wider_than_the_atlas_is_placed_past_the_edge() {
    let mut mark = ImageMark::new(100, 100);
    let key = CacheKey::new(0);
    mark.update(key, &image(10, 10));
    let wide = mark.update(key, &image(150, 20));
    assert_eq!((wide.src_x, wide.src_y, wide.width), (0, 10, 150));
    assert_eq!(mark.current_width, 150);
    let next = mark.update(key, &image(1, 1));
    assert_eq!((next.src_x, next.src_y), (0, 30));
}

#[test]
fn max_height_is_not_looked_at() {
    let mut mark = ImageMark::new(10, 10);
    let key = CacheKey::new(0);
    mark.update(key, &image(10, 8));
    let below = mark.update(key, &image(10, 8));
    assert_eq!((below.src_x, below.src_y), (0, 8));
    assert_eq!(mark.next_height, 16);
}

#[test]
fn empty_image_leaves_the_cursor_where_it_is() {
    let mut mark = ImageMark::new(100, 100);
    let key = CacheKey::from(1, 2, 2, 1, 9, 1, 7);
    mark.update(key, &image(30, 20));
    let before = mark;
    let meta = mark.update(key, &ImageData::default());
    assert_eq!(
        meta,
        ImageMeta { src_x: 30, src_y: 0, offset_x: 0, offset_y: 0, width: 0, height: 0, key }
    );
    assert_eq!(mark, before);
}

#[test]
fn placements_do_not_overlap() {
    let sizes = [(30, 20), (40, 50), (31, 10), (69, 5), (150, 7), (0, 9), (1, 0), (100, 100), (1, 1)];
    let mut mark = ImageMark::new(100, 100);
    let mut placed: Vec<ImageMeta> = Vec::new();
    for (i, (w, h)) in sizes.iter().enumerate() {
        let data = image(*w, *h);
        assert!(mark.can_update(&data));
        placed.push(mark.update(CacheKey::new(i as u64), &data));
    }
    for i in 0..placed.len() {
        for j in (i + 1)..placed.len() {
            assert!(!overlap(&placed[i], &placed[j]), "{} and {}", i, j);
        }
    }
    let lowest = placed.iter().map(|m| m.src_y + m.height).max().unwrap();
    assert_eq!(mark.next_height, lowest);
    assert_eq!(mark.next_height, 177);
}

#[test]
fn cursor_has_no_room_past_the_largest_height() {
    let mut mark = ImageMark::new(100, 100);
    let key = CacheKey::new(0);
    mark.update(key, &image(60, u32::MAX));
    assert!(mark.can_update(&image(40, u32::MAX)));
    assert!(mark.can_update(&image(41, 0)));
    assert!(!mark.can_update(&image(41, 1)));
    let last = mark.update(key, &image(41, 0));
    assert_eq!((last.src_x, last.src_y), (0, u32::MAX));
}

#[test]
fn widths_that_add_up_past_the_largest_number_wrap_the_shelf() {
    let mut mark = ImageMark::new(u32::MAX, 100);
    let key = CacheKey::new(0);
    mark.update(key, &image(u32::MAX, 1));
    let next = mark.update(key, &image(1, 1));
    assert_eq!((next.src_x, next.src_y), (0, 1));
}

#[test]
fn canvas_height_is_the_next_multiple_of_the_step() {
    let mut mark = ImageMark::new(2000, 2000);
    assert_eq!(mark.canvas_height(), 2000);
    mark.next_height = 1;
    assert_eq!(mark.canvas_height(), 2000);
    mark.next_height = 1999;
    assert_eq!(mark.canvas_height(), 2000);
    mark.next_height = 2000;
    assert_eq!(mark.canvas_height(), 4000);
    mark.next_height = 4001;
    assert_eq!(mark.canvas_height(), 6000);
    mark.next_height = u32::MAX;
    assert_eq!(mark.canvas_height(), 4_294_968_000);
}
