//! The shelf packer that gives each sprite its place in an atlas.
//!
//! Sprites are placed in the order in which they come, from left to right
//! along a shelf. A sprite that would reach past the atlas's width starts a
//! new shelf below everything placed so far. Nothing is moved once placed,
//! and a sprite wider than the atlas is still placed, alone on its shelf and
//! reaching past the edge.

use crate::image::ImageData;
use crate::key::CacheKey;
use vstd::prelude::*;

verus! {

/// The width of every atlas.
pub const ATLAS_WIDTH: u32 = 2000;

/// The step in which the height of an atlas grows.
pub const ATLAS_HEIGHT_STEP: u32 = 2000;

/// Where a sprite lies in its atlas, where it is drawn, and which sprite it
/// is.
#[derive(Clone, Copy, Debug, PartialEq, Eq, Structural)]
pub struct ImageMeta {
    pub src_x: u32,
    pub src_y: u32,
    pub offset_x: i16,
    pub offset_y: i16,
    pub width: u32,
    pub height: u32,
    pub key: CacheKey,
}

/// The cursor of one atlas: where the next sprite goes.
///
/// `current_width` and `current_height` are the left and the top of the free
/// end of the shelf that is being filled; `next_height` is the top of the
/// shelf that will follow it.
#[derive(Clone, Copy, Debug, PartialEq, Eq, Structural)]
pub struct ImageMark {
    pub max_width: u32,
    pub max_height: u32,
    pub current_width: u32,
    pub current_height: u32,
    pub next_height: u32,
}

/// A rectangle of an atlas.
pub struct Rect {
    pub x: int,
    pub y: int,
    pub width: int,
    pub height: int,
}

/// Whether two rectangles share a point: neither lies wholly to one side of
/// the other, and neither wholly above the other.
pub open spec fn overlaps(a: Rect, b: Rect) -> bool {
    &&& a.x < b.x + b.width
    &&& b.x < a.x + a.width
    &&& a.y < b.y + b.height
    &&& b.y < a.y + a.height
}

/// The lowest bottom edge of some rectangles, or zero where there are none.
pub open spec fn lowest_edge(rects: Seq<Rect>) -> int
    decreases rects.len(),
{
    if rects.len() == 0 {
        0
    } else if lowest_edge(rects.drop_last()) >= rects.last().y + rects.last().height {
        lowest_edge(rects.drop_last())
    } else {
        rects.last().y + rects.last().height
    }
}

impl ImageMeta {
    /// The rectangle of the atlas that the sprite takes.
    pub open spec fn rect(self) -> Rect {
        Rect {
            x: self.src_x as int,
            y: self.src_y as int,
            width: self.width as int,
            height: self.height as int,
        }
    }
}

impl ImageMark {
    /// Whether the cursor is one that placing leads to: the shelf that is
    /// being filled does not start below the shelf that will follow it.
    pub open spec fn is_valid(self) -> bool {
        self.current_height <= self.next_height
    }

    /// Whether a sprite of this width starts a new shelf.
    pub open spec fn wraps(self, width: u32) -> bool {
        width + self.current_width > self.max_width
    }

    /// The left edge at which a sprite of this width is placed.
    pub open spec fn slot_x(self, width: u32) -> u32 {
        if self.wraps(width) {
            0
        } else {
            self.current_width
        }
    }

    /// The top edge at which a sprite of this width is placed.
    pub open spec fn slot_y(self, width: u32) -> u32 {
        if self.wraps(width) {
            self.next_height
        } else {
            self.current_height
        }
    }

    /// The rectangle that a sprite of this size is given.
    pub open spec fn slot(self, width: u32, height: u32) -> Rect {
        Rect {
            x: self.slot_x(width) as int,
            y: self.slot_y(width) as int,
            width: width as int,
            height: height as int,
        }
    }

    /// Whether a sprite of this size can be placed: its bottom edge is a
    /// number that the cursor can hold.
    pub open spec fn has_room(self, width: u32, height: u32) -> bool {
        self.slot_y(width) + height <= u32::MAX
    }

    /// The cursor after a sprite of this size has been placed.
    pub open spec fn placed(self, width: u32, height: u32) -> ImageMark {
        ImageMark {
            max_width: self.max_width,
            max_height: self.max_height,
            current_width: (self.slot_x(width) + width) as u32,
            current_height: self.slot_y(width),
            next_height: if self.next_height >= self.slot_y(width) + height {
                self.next_height
            } else {
                (self.slot_y(width) + height) as u32
            },
        }
    }

    /// Whether sprites of these sizes, width first, can be placed one after
    /// the other.
    pub open spec fn has_room_for_all(self, sizes: Seq<(u32, u32)>) -> bool
        decreases sizes.len(),
    {
        sizes.len() > 0 ==> self.has_room_for_all(sizes.drop_last()) && self.placed_all(
            sizes.drop_last(),
        ).has_room(sizes.last().0, sizes.last().1)
    }

    /// The cursor after sprites of these sizes have been placed one after the
    /// other.
    pub open spec fn placed_all(self, sizes: Seq<(u32, u32)>) -> ImageMark
        decreases sizes.len(),
    {
        if sizes.len() == 0 {
            self
        } else {
            self.placed_all(sizes.drop_last()).placed(sizes.last().0, sizes.last().1)
        }
    }

    /// The rectangles that sprites of these sizes are given when they are
    /// placed one after the other.
    pub open spec fn slots(self, sizes: Seq<(u32, u32)>) -> Seq<Rect>
        decreases sizes.len(),
    {
        if sizes.len() == 0 {
            Seq::empty()
        } else {
            self.slots(sizes.drop_last()).push(
                self.placed_all(sizes.drop_last()).slot(sizes.last().0, sizes.last().1),
            )
        }
    }

    /// What placing keeps true of the rectangles placed so far: each ends
    /// above the next shelf, and each either lies on the shelf that is being
    /// filled, left of its free end, or ends above that shelf.
    spec fn clear_of(self, rects: Seq<Rect>) -> bool {
        forall|i: int|
            0 <= i < rects.len() ==> {
                &&& (#[trigger] rects[i]).y + rects[i].height <= self.next_height
                &&& (rects[i].y == self.current_height && rects[i].x + rects[i].width
                    <= self.current_width) || rects[i].y + rects[i].height <= self.current_height
            }
    }

    /// A cursor at the top left of an empty atlas.
    pub fn new(max_width: u32, max_height: u32) -> (mark: Self)
        ensures
            mark == (ImageMark {
                max_width,
                max_height,
                current_width: 0,
                current_height: 0,
                next_height: 0,
            }),
            mark.is_valid(),
    {
        Self { max_width, max_height, current_width: 0, current_height: 0, next_height: 0 }
    }

    /// Tells whether `update` can place the image.
    pub fn can_update(&self, data: &ImageData) -> (ok: bool)
        ensures
            ok == self.has_room(data.width, data.height),
    {
        let top: u32 = if data.width as u64 + self.current_width as u64 > self.max_width as u64 {
            self.next_height
        } else {
            self.current_height
        };
        top as u64 + data.height as u64 <= u32::MAX as u64
    }

    /// Places an image and moves the cursor past it.
    ///
    /// The image goes to the free end of the shelf, or, where it would reach
    /// past `max_width` there, to the left end of a new shelf below all that
    /// has been placed. `max_height` is not looked at.
    pub fn update(&mut self, key: CacheKey, data: &ImageData) -> (meta: ImageMeta)
        requires
            old(self).has_room(data.width, data.height),
        ensures
            *final(self) == old(self).placed(data.width, data.height),
            meta == (ImageMeta {
                src_x: old(self).slot_x(data.width),
                src_y: old(self).slot_y(data.width),
                offset_x: data.offset_x,
                offset_y: data.offset_y,
                width: data.width,
                height: data.height,
                key,
            }),
            meta.rect() == old(self).slot(data.width, data.height),
            final(self).is_valid(),
            final(self).next_height >= old(self).next_height,
            old(self).is_valid() ==> final(self).current_height >= old(self).current_height,
    {
        if data.width as u64 + self.current_width as u64 > self.max_width as u64 {
            self.current_width = 0;
            self.current_height = self.next_height;
        }
        let meta = ImageMeta {
            src_x: self.current_width,
            src_y: self.current_height,
            offset_x: data.offset_x,
            offset_y: data.offset_y,
            width: data.width,
            height: data.height,
            key,
        };
        self.current_width += data.width;
        if self.next_height < self.current_height + data.height {
            self.next_height = self.current_height + data.height;
        }
        meta
    }

    /// The height of the canvas that holds all that has been placed: the top
    /// of the next shelf, rounded up to the next multiple of the step, a full
    /// step being added where it is a multiple already.
    pub fn canvas_height(&self) -> (height: u64)
        ensures
            height == (self.next_height / ATLAS_HEIGHT_STEP + 1) * ATLAS_HEIGHT_STEP,
    {
        (self.next_height as u64 / ATLAS_HEIGHT_STEP as u64 + 1) * ATLAS_HEIGHT_STEP as u64
    }
}

/// Placing one more sprite keeps the cursor clear of all rectangles placed
/// so far, the new one included, and the new one overlaps none of them.
proof fn lemma_place_one(mark: ImageMark, rects: Seq<Rect>, width: u32, height: u32)
    requires
        mark.clear_of(rects),
        mark.has_room(width, height),
    ensures
        mark.placed(width, height).clear_of(rects.push(mark.slot(width, height))),
        forall|i: int| 0 <= i < rects.len() ==> !overlaps(#[trigger] rects[i], mark.slot(width, height)),
{
    let next = mark.placed(width, height);
    let slot = mark.slot(width, height);
    let all = rects.push(slot);
    assert forall|i: int| 0 <= i < all.len() implies {
        &&& (#[trigger] all[i]).y + all[i].height <= next.next_height
        &&& (all[i].y == next.current_height && all[i].x + all[i].width <= next.current_width)
            || all[i].y + all[i].height <= next.current_height
    } by {
        if i < rects.len() {
            assert(all[i] == rects[i]);
        }
    }
}

/// The rectangles given to sprites that are placed one after the other:
/// there is one for each sprite, and the cursor stays clear of them.
proof fn lemma_slots(mark: ImageMark, sizes: Seq<(u32, u32)>)
    requires
        mark.has_room_for_all(sizes),
    ensures
        mark.slots(sizes).len() == sizes.len(),
        mark.placed_all(sizes).clear_of(mark.slots(sizes)),
        forall|i: int, j: int|
            0 <= i < j < sizes.len() ==> !overlaps(
                #[trigger] mark.slots(sizes)[i],
                #[trigger] mark.slots(sizes)[j],
            ),
        mark.placed_all(sizes).next_height == if mark.next_height >= lowest_edge(
            mark.slots(sizes),
        ) {
            mark.next_height as int
        } else {
            lowest_edge(mark.slots(sizes))
        },
    decreases sizes.len(),
{
    if sizes.len() > 0 {
        let init = sizes.drop_last();
        lemma_slots(mark, init);
        let before = mark.placed_all(init);
        let rects = mark.slots(init);
        lemma_place_one(before, rects, sizes.last().0, sizes.last().1);
        let all = mark.slots(sizes);
        assert(all == rects.push(before.slot(sizes.last().0, sizes.last().1)));
        assert(all.drop_last() == rects);
        assert forall|i: int, j: int| 0 <= i < j < sizes.len() implies !overlaps(
            #[trigger] all[i],
            #[trigger] all[j],
        ) by {
            assert(all[i] == rects[i]);
            if j < rects.len() {
                assert(all[j] == rects[j]);
            }
        }
    }
}

/// No two sprites placed by one cursor overlap, whatever their sizes and
/// wherever the cursor stood when the first was placed.
pub proof fn lemma_placements_disjoint(mark: ImageMark, sizes: Seq<(u32, u32)>)
    requires
        mark.has_room_for_all(sizes),
    ensures
        mark.slots(sizes).len() == sizes.len(),
        forall|i: int, j: int|
            0 <= i < j < sizes.len() ==> !overlaps(
                #[trigger] mark.slots(sizes)[i],
                #[trigger] mark.slots(sizes)[j],
            ),
{
    lemma_slots(mark, sizes);
}

/// After any number of placements the top of the next shelf is the lowest
/// bottom edge of all sprites placed, or where the cursor had it before, if
/// that is lower still. For a new cursor it is the lowest bottom edge.
pub proof fn lemma_next_height(mark: ImageMark, sizes: Seq<(u32, u32)>)
    requires
        mark.has_room_for_all(sizes),
    ensures
        mark.placed_all(sizes).next_height == if mark.next_height >= lowest_edge(
            mark.slots(sizes),
        ) {
            mark.next_height as int
        } else {
            lowest_edge(mark.slots(sizes))
        },
        mark.next_height == 0 ==> mark.placed_all(sizes).next_height == lowest_edge(
            mark.slots(sizes),
        ),
{
    lemma_slots(mark, sizes);
    lemma_lowest_edge_not_negative(mark.slots(sizes));
}

/// The lowest bottom edge of rectangles that lie in an atlas is not
/// negative.
proof fn lemma_lowest_edge_not_negative(rects: Seq<Rect>)
    ensures
        lowest_edge(rects) >= 0,
    decreases rects.len(),
{
    if rects.len() > 0 {
        lemma_lowest_edge_not_negative(rects.drop_last());
    }
}

} // verus!
