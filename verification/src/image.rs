//! Decoder of the images of a data file.
//!
//! An image is a header of sixteen bytes and a body. The header holds the
//! pixel format, the width and the height, the offset at which the sprite is
//! drawn, and the length of the body when the body is compressed. The body
//! holds the pixels row by row from the bottom row up, each row possibly
//! padded to a multiple of four pixels, either as they are or as a raw
//! deflate stream.

use crate::palette::PALETTE_RGBA;
use crate::wire::{get_i16_le, get_u16_le, get_u32_le, i16_le, u16_le, u32_le};
use vstd::arithmetic::div_mod::lemma_fundamental_div_mod_converse;
use vstd::prelude::*;

verus! {

/// The length of an image's header.
pub const IMAGE_HEADER_LEN: usize = 16;

/// The pixel format of images whose pixels are one byte each, an index into
/// the colour table. Every other format stands for pixels of two bytes.
pub const PIXEL_INDEXED: u8 = 3;

/// The number of bytes that one pixel takes in the body of an image.
pub open spec fn bytes_per_pixel(pixel: u8) -> int {
    if pixel == PIXEL_INDEXED {
        1
    } else {
        2
    }
}

/// A width rounded up to a multiple of four.
pub open spec fn padded_width(width: int) -> int {
    (width + 3) / 4 * 4
}

/// The number of pixels that one stored row takes, told from the length of
/// the pixel data.
///
/// The data holds room for `len / height` bytes a row. Where that is less
/// than the padded width, a row takes what room there is. Where it is exactly
/// the padded width, rows are padded. Where it is more, rows are taken to lie
/// one after the other without padding.
pub open spec fn row_stride(pixel: u8, width: int, height: int, len: int) -> int {
    let room = len / height / bytes_per_pixel(pixel);
    if padded_width(width) > room {
        room
    } else if room > padded_width(width) {
        width
    } else {
        padded_width(width)
    }
}

/// Where the pixel of row `row` from the top and column `col` starts in the
/// pixel data. Rows are stored from the bottom up.
pub open spec fn source_at(pixel: u8, width: int, height: int, len: int, row: int, col: int) -> int {
    ((height - 1 - row) * row_stride(pixel, width, height, len) + col) * bytes_per_pixel(pixel)
}

/// Whether pixel data of `len` bytes holds every pixel of an image of the
/// given size: there is at least one row, and the last pixel of the row
/// stored last lies inside the data.
pub open spec fn is_convertible(pixel: u8, width: int, height: int, len: int) -> bool {
    &&& height > 0
    &&& width > 0 ==> source_at(pixel, width, height, len, 0, width - 1) + bytes_per_pixel(pixel)
        <= len
}

/// One of the four bytes, red, green, blue and alpha in this order, of the
/// pixel that starts at `at` in the pixel data.
///
/// An indexed pixel takes its four bytes from the colour table. A pixel of
/// two bytes holds five bits of red in the top of its second byte, six bits
/// of green across both bytes, and five bits of blue in the bottom of its
/// first byte; each is moved up to fill eight bits. Such a pixel is opaque
/// unless both its bytes are zero.
pub open spec fn rgba_at(pixel: u8, source: Seq<u8>, at: int, channel: int) -> u8 {
    if pixel == PIXEL_INDEXED {
        PALETTE_RGBA[source[at] * 4 + channel]
    } else {
        let low = source[at];
        let high = source[at + 1];
        if channel == 0 {
            high & 0xF8
        } else if channel == 1 {
            ((((high & 0x7) << 3) | (low >> 5)) * 4) as u8
        } else if channel == 2 {
            ((low & 0x1F) * 8) as u8
        } else if low == 0 && high == 0 {
            0
        } else {
            255
        }
    }
}

/// The `k`-th byte of the RGBA form of an image: byte `k % 4` of pixel
/// `k / 4`, the pixels counted row by row from the top left.
pub open spec fn rgba_byte(pixel: u8, width: int, height: int, source: Seq<u8>, k: int) -> u8 {
    rgba_at(
        pixel,
        source,
        source_at(pixel, width, height, source.len() as int, (k / 4) / width, (k / 4) % width),
        k % 4,
    )
}

/// The RGBA form of an image: four bytes a pixel, rows from the top down,
/// no padding.
pub open spec fn rgba_of(pixel: u8, width: int, height: int, source: Seq<u8>) -> Seq<u8> {
    Seq::new((width * height * 4) as nat, |k: int| rgba_byte(pixel, width, height, source, k))
}

/// What one run of the inflater ended in.
#[derive(Debug, Clone, Copy, PartialEq, Eq, Structural)]
pub enum InflateStatus {
    /// The run made progress and the stream has not ended (`Status::Ok`).
    Running,
    /// The run could not go on: the input ended early or the output is full
    /// (`Status::BufError`).
    Stalled,
    /// The stream ended and all of its output was written
    /// (`Status::StreamEnd`).
    Finished,
    /// The input is no deflate stream (`DecompressError`).
    Corrupt,
}

/// The bytes that came out of the inflater, and how its run ended.
#[derive(Debug, Clone, PartialEq, Eq)]
pub(crate) struct Inflated {
    pub bytes: Vec<u8>,
    pub status: InflateStatus,
}

/// What inflating `input` as one raw deflate stream gives when the output
/// may take up to `capacity` bytes: the bytes written, and how the run ended.
pub uninterp spec fn inflated(input: Seq<u8>, capacity: nat) -> (Seq<u8>, InflateStatus);

/// Runs `flate2::Decompress::decompress` once, on a new state made by
/// `flate2::Decompress::new(false)`, with `flate2::FlushDecompress::Finish` and
/// an output buffer of `capacity` bytes, and keeps the bytes written as
/// `total_out` counts them.
///
/// Trusted: that the bytes written and the status returned depend on `input`
/// and `capacity` alone.
#[verifier::external_body]
pub(crate) fn inflate(input: &[u8], capacity: usize) -> (out: Inflated)
    ensures
        (out.bytes@, out.status) == inflated(input@, capacity as nat),
{
    let mut state = flate2::Decompress::new(false);
    let mut bytes = vec![0u8; capacity];
    let status = state.decompress(input, &mut bytes, flate2::FlushDecompress::Finish);
    bytes.truncate(state.total_out() as usize);
    match status {
        Ok(flate2::Status::Ok) => Inflated { bytes, status: InflateStatus::Running },
        Ok(flate2::Status::BufError) => Inflated { bytes, status: InflateStatus::Stalled },
        Ok(flate2::Status::StreamEnd) => Inflated { bytes, status: InflateStatus::Finished },
        Err(_) => Inflated { bytes, status: InflateStatus::Corrupt },
    }
}

/// A decoded image: its size, the offset at which it is drawn, and its
/// pixels as RGBA bytes, the top row first.
#[derive(Debug, Clone, PartialEq, Eq)]
pub struct ImageData {
    pub width: u32,
    pub height: u32,
    pub offset_x: i16,
    pub offset_y: i16,
    pub bytes: Vec<u8>,
}

/// What an `ImageData` holds, its bytes as a sequence.
pub struct ImageView {
    pub width: u32,
    pub height: u32,
    pub offset_x: i16,
    pub offset_y: i16,
    pub bytes: Seq<u8>,
}

impl View for ImageData {
    type V = ImageView;

    open spec fn view(&self) -> ImageView {
        ImageView {
            width: self.width,
            height: self.height,
            offset_x: self.offset_x,
            offset_y: self.offset_y,
            bytes: self.bytes@,
        }
    }
}

/// The pixel format that an image's header gives.
pub open spec fn head_pixel(head: Seq<u8>) -> u8 {
    head[0]
}

/// The width in pixels that an image's header gives.
pub open spec fn head_width(head: Seq<u8>) -> int {
    u16_le(head, 4)
}

/// The height in pixels that an image's header gives.
pub open spec fn head_height(head: Seq<u8>) -> int {
    u16_le(head, 6)
}

/// The length of the compressed body that an image's header gives, or zero
/// for a body that is not compressed.
pub open spec fn head_length(head: Seq<u8>) -> int {
    u32_le(head, 12)
}

/// The most bytes that the pixel data of a compressed image may inflate to:
/// four for each pixel, which leaves room for padded rows.
pub open spec fn inflate_capacity(head: Seq<u8>) -> int {
    head_width(head) * head_height(head) * 4
}

/// The image that a header describes, with the given RGBA bytes.
pub open spec fn image_of(head: Seq<u8>, bytes: Seq<u8>) -> ImageView {
    ImageView {
        width: head_width(head) as u32,
        height: head_height(head) as u32,
        offset_x: i16_le(head, 8) as i16,
        offset_y: i16_le(head, 10) as i16,
        bytes,
    }
}

/// The image that a header and pixel data stand for, if the header is whole
/// and the data holds every pixel.
pub open spec fn image_from_source(head: Seq<u8>, source: Seq<u8>) -> Option<ImageView> {
    if head.len() >= IMAGE_HEADER_LEN && is_convertible(
        head_pixel(head),
        head_width(head),
        head_height(head),
        source.len() as int,
    ) {
        Some(
            image_of(
                head,
                rgba_of(head_pixel(head), head_width(head), head_height(head), source),
            ),
        )
    } else {
        None
    }
}

/// The image that a header and a body stand for.
///
/// A header that gives no compressed length has the pixel data as its body;
/// with an empty body the image has no pixels at all. Any other header has a
/// raw deflate stream as its body. What the stream inflates to is converted
/// even where the stream ends early; only a body that is no deflate stream
/// gives no image.
pub open spec fn image_from_head_data(head: Seq<u8>, data: Seq<u8>) -> Option<ImageView> {
    if head.len() < IMAGE_HEADER_LEN {
        None
    } else if head_length(head) == 0 {
        if data.len() == 0 {
            Some(image_of(head, Seq::empty()))
        } else {
            image_from_source(head, data)
        }
    } else if inflate_capacity(head) > usize::MAX {
        None
    } else if inflated(data, inflate_capacity(head) as nat).1 == InflateStatus::Corrupt {
        None
    } else {
        image_from_source(head, inflated(data, inflate_capacity(head) as nat).0)
    }
}

/// Whether a decoder's answer is the image that the format defines.
pub open spec fn answers(image: Option<ImageData>, defined: Option<ImageView>) -> bool {
    match image {
        Some(image) => defined == Some(image@),
        None => defined is None,
    }
}

impl Default for ImageData {
    /// The empty image: no size, no offset, no pixels.
    fn default() -> (image: Self)
        ensures
            image@ == (ImageView {
                width: 0,
                height: 0,
                offset_x: 0,
                offset_y: 0,
                bytes: Seq::empty(),
            }),
    {
        ImageData { width: 0, height: 0, offset_x: 0, offset_y: 0, bytes: Vec::new() }
    }
}

impl ImageData {
    /// Decodes an image that is stored in one piece: the header, then the
    /// body.
    pub fn from(src: &[u8]) -> (image: Option<Self>)
        ensures
            src@.len() < IMAGE_HEADER_LEN ==> image is None,
            src@.len() >= IMAGE_HEADER_LEN ==> answers(
                image,
                image_from_head_data(
                    src@.subrange(0, IMAGE_HEADER_LEN as int),
                    src@.skip(IMAGE_HEADER_LEN as int),
                ),
            ),
    {
        if src.len() < IMAGE_HEADER_LEN {
            return None;
        }
        let head = &src[0..IMAGE_HEADER_LEN];
        let data = &src[IMAGE_HEADER_LEN..src.len()];
        assert(data@ == src@.skip(IMAGE_HEADER_LEN as int));
        ImageData::from_head_data(head, data)
    }

    /// Decodes an image from its header and its body.
    pub fn from_head_data(head: &[u8], data: &[u8]) -> (image: Option<Self>)
        ensures
            answers(image, image_from_head_data(head@, data@)),
    {
        if head.len() < IMAGE_HEADER_LEN {
            return None;
        }
        let length: u32 = get_u32_le(head, 12);
        if length == 0 {
            if data.len() > 0 {
                ImageData::from_source(head, data)
            } else {
                let width: u32 = get_u16_le(head, 4) as u32;
                let height: u32 = get_u16_le(head, 6) as u32;
                let offset_x: i16 = get_i16_le(head, 8);
                let offset_y: i16 = get_i16_le(head, 10);
                Some(ImageData { width, height, offset_x, offset_y, bytes: Vec::new() })
            }
        } else {
            let width: u64 = get_u16_le(head, 4) as u64;
            let height: u64 = get_u16_le(head, 6) as u64;
            assert(width * height * 4 <= 0xFFFF * 0xFFFF * 4) by (nonlinear_arith)
                requires
                    width <= 0xFFFF,
                    height <= 0xFFFF,
            ;
            let capacity: u64 = width * height * 4;
            if capacity > usize::MAX as u64 {
                return None;
            }
            let out = inflate(data, capacity as usize);
            match out.status {
                InflateStatus::Corrupt => None,
                _ => ImageData::from_source(head, out.bytes.as_slice()),
            }
        }
    }

    /// Converts pixel data that is not compressed to the image that the
    /// header describes.
    pub fn from_source(head: &[u8], source: &[u8]) -> (image: Option<Self>)
        ensures
            answers(image, image_from_source(head@, source@)),
    {
        if head.len() < IMAGE_HEADER_LEN {
            return None;
        }
        let pixel: u8 = head[0];
        let width: u32 = get_u16_le(head, 4) as u32;
        let height: u32 = get_u16_le(head, 6) as u32;
        let offset_x: i16 = get_i16_le(head, 8);
        let offset_y: i16 = get_i16_le(head, 10);
        if !can_convert(pixel, width, height, source.len()) {
            return None;
        }
        let bytes = byte_to_rgba(pixel, width, height, source);
        Some(ImageData { width, height, offset_x, offset_y, bytes })
    }

    /// Tells how many bytes of body have to be fetched after a first read.
    ///
    /// A first read of exactly sixteen bytes is a header alone. Where it
    /// gives a compressed length, that many bytes of body follow it in the
    /// file, and the image is decoded from the two. Any other first read
    /// holds the whole image.
    pub fn body_length(first: &[u8]) -> (length: Option<u32>)
        ensures
            length == if first@.len() == IMAGE_HEADER_LEN && head_length(first@) > 0 {
                Some(head_length(first@) as u32)
            } else {
                None
            },
    {
        if first.len() != IMAGE_HEADER_LEN {
            return None;
        }
        let length: u32 = get_u32_le(first, 12);
        if length > 0 {
            Some(length)
        } else {
            None
        }
    }

    /// Tells whether the image has pixels to draw.
    pub fn is_drawable(&self) -> (drawable: bool)
        ensures
            drawable == (self.bytes@.len() > 0 && self.width > 0 && self.height > 0),
    {
        self.bytes.len() > 0 && self.width > 0 && self.height > 0
    }
}

fn stride_of(pixel: u8, width: u32, height: u32, len: usize) -> (stride: usize)
    requires
        height > 0,
    ensures
        stride == row_stride(pixel, width as int, height as int, len as int),
{
    let room: usize = if pixel == PIXEL_INDEXED {
        len / (height as usize)
    } else {
        len / (height as usize) / 2
    };
    let padded: u64 = (width as u64 + 3) / 4 * 4;
    if padded > room as u64 {
        room
    } else if room as u64 > padded {
        width as usize
    } else {
        room
    }
}

/// Tells whether pixel data of `len` bytes can be converted as an image of
/// the given format and size.
pub fn can_convert(pixel: u8, width: u32, height: u32, len: usize) -> (ok: bool)
    ensures
        ok == is_convertible(pixel, width as int, height as int, len as int),
{
    if height == 0 {
        return false;
    }
    if width == 0 {
        return true;
    }
    let stride: usize = stride_of(pixel, width, height, len);
    let rows: u128 = (height - 1) as u128;
    assert(rows * stride <= 0xFFFF_FFFF * 0xFFFF_FFFF_FFFF_FFFF) by (nonlinear_arith)
        requires
            0 <= rows <= 0xFFFF_FFFF,
            0 <= stride <= 0xFFFF_FFFF_FFFF_FFFF,
    ;
    let pixels: u128 = rows * (stride as u128) + width as u128;
    if pixel == PIXEL_INDEXED {
        pixels <= len as u128
    } else {
        pixels * 2 <= len as u128
    }
}

/// Appends the four RGBA bytes of the pixel that starts at `at`.
fn push_pixel(rgba: &mut Vec<u8>, pixel: u8, bytes: &[u8], at: usize)
    requires
        at + bytes_per_pixel(pixel) <= bytes@.len(),
    ensures
        final(rgba)@ == old(rgba)@.push(rgba_at(pixel, bytes@, at as int, 0)).push(
            rgba_at(pixel, bytes@, at as int, 1),
        ).push(rgba_at(pixel, bytes@, at as int, 2)).push(rgba_at(pixel, bytes@, at as int, 3)),
{
    if pixel == PIXEL_INDEXED {
        let x: usize = bytes[at] as usize * 4;
        rgba.push(PALETTE_RGBA[x]);
        rgba.push(PALETTE_RGBA[x + 1]);
        rgba.push(PALETTE_RGBA[x + 2]);
        rgba.push(PALETTE_RGBA[x + 3]);
    } else {
        let low: u8 = bytes[at];
        let high: u8 = bytes[at + 1];
        assert((((high & 0x7) << 3) | (low >> 5)) <= 63) by (bit_vector);
        assert((low & 0x1F) <= 31) by (bit_vector);
        rgba.push(high & 0xF8);
        rgba.push((((high & 0x7) << 3) | (low >> 5)) * 4);
        rgba.push((low & 0x1F) * 8);
        rgba.push(
            if low == 0 && high == 0 {
                0
            } else {
                255
            },
        );
    }
}

/// Converts the pixel data of an image to RGBA: four bytes a pixel, the top
/// row first.
pub fn byte_to_rgba(pixel: u8, width: u32, height: u32, bytes: &[u8]) -> (rgba: Vec<u8>)
    requires
        is_convertible(pixel, width as int, height as int, bytes@.len() as int),
    ensures
        rgba@ == rgba_of(pixel, width as int, height as int, bytes@),
{
    let len: usize = bytes.len();
    let stride: usize = stride_of(pixel, width, height, len);
    let mut rgba: Vec<u8> = Vec::new();
    let mut i: u32 = 0;
    while i < height
        invariant
            i <= height,
            len == bytes@.len(),
            stride == row_stride(pixel, width as int, height as int, len as int),
            is_convertible(pixel, width as int, height as int, len as int),
            rgba@.len() == i * width * 4,
            forall|k: int|
                0 <= k < rgba@.len() ==> #[trigger] rgba@[k] == rgba_byte(
                    pixel,
                    width as int,
                    height as int,
                    bytes@,
                    k,
                ),
        decreases height - i,
    {
        let mut j: u32 = 0;
        while j < width
            invariant
                i < height,
                j <= width,
                len == bytes@.len(),
                stride == row_stride(pixel, width as int, height as int, len as int),
                is_convertible(pixel, width as int, height as int, len as int),
                rgba@.len() == (i * width + j) * 4,
                forall|k: int|
                    0 <= k < rgba@.len() ==> #[trigger] rgba@[k] == rgba_byte(
                        pixel,
                        width as int,
                        height as int,
                        bytes@,
                        k,
                    ),
            decreases width - j,
        {
            let ghost before = rgba@;
            proof {
                lemma_source_in_range(
                    pixel,
                    width as int,
                    height as int,
                    len as int,
                    i as int,
                    j as int,
                );
                lemma_pixel_bytes(pixel, width as int, height as int, bytes@, i as int, j as int);
            }
            let first: usize = (height - 1 - i) as usize * stride + j as usize;
            let at: usize = if pixel == PIXEL_INDEXED {
                first
            } else {
                first * 2
            };
            push_pixel(&mut rgba, pixel, bytes, at);
            proof {
                assert((i * width + (j + 1)) * 4 == (i * width + j) * 4 + 4) by (nonlinear_arith);
                assert forall|k: int| 0 <= k < rgba@.len() implies #[trigger] rgba@[k] == rgba_byte(
                    pixel,
                    width as int,
                    height as int,
                    bytes@,
                    k,
                ) by {
                    if k < before.len() {
                        assert(rgba@[k] == before[k]);
                    } else {
                        let c = k - before.len();
                        assert(at == source_at(
                            pixel,
                            width as int,
                            height as int,
                            len as int,
                            i as int,
                            j as int,
                        ));
                        assert(rgba_byte(
                            pixel,
                            width as int,
                            height as int,
                            bytes@,
                            (i * width + j) * 4 + c,
                        ) == rgba_at(pixel, bytes@, at as int, c));
                    }
                }
            }
            j += 1;
        }
        proof {
            assert((i * width + width) * 4 == (i + 1) * width * 4) by (nonlinear_arith);
        }
        i += 1;
    }
    proof {
        assert(rgba@.len() == width * height * 4) by (nonlinear_arith)
            requires
                rgba@.len() == i * width * 4,
                i == height,
        ;
    }
    rgba
}

/// The four bytes of the pixel in row `row` and column `col` are the four
/// bytes that the RGBA form holds from `(row * width + col) * 4` on.
proof fn lemma_pixel_bytes(pixel: u8, width: int, height: int, source: Seq<u8>, row: int, col: int)
    requires
        0 <= row,
        0 <= col < width,
    ensures
        forall|c: int|
            0 <= c < 4 ==> #[trigger] rgba_byte(
                pixel,
                width,
                height,
                source,
                (row * width + col) * 4 + c,
            ) == rgba_at(
                pixel,
                source,
                source_at(pixel, width, height, source.len() as int, row, col),
                c,
            ),
{
    lemma_fundamental_div_mod_converse(row * width + col, width, row, col);
    assert forall|c: int| 0 <= c < 4 implies #[trigger] rgba_byte(
        pixel,
        width,
        height,
        source,
        (row * width + col) * 4 + c,
    ) == rgba_at(
        pixel,
        source,
        source_at(pixel, width, height, source.len() as int, row, col),
        c,
    ) by {
        let k = (row * width + col) * 4 + c;
        assert(k / 4 == row * width + col);
        assert(k % 4 == c);
    }
}

/// Every pixel of a convertible image lies inside its pixel data.
proof fn lemma_source_in_range(pixel: u8, width: int, height: int, len: int, row: int, col: int)
    requires
        is_convertible(pixel, width, height, len),
        len >= 0,
        width >= 0,
        0 <= row < height,
        0 <= col < width,
    ensures
        0 <= source_at(pixel, width, height, len, row, col),
        source_at(pixel, width, height, len, row, col) + bytes_per_pixel(pixel) <= len,
        row_stride(pixel, width, height, len) >= 0,
{
    let stride = row_stride(pixel, width, height, len);
    let room = len / height / bytes_per_pixel(pixel);
    assert(len / height >= 0) by (nonlinear_arith)
        requires
            len >= 0,
            height > 0,
    ;
    assert(room >= 0);
    assert(stride >= 0);
    assert((height - 1 - row) * stride <= (height - 1) * stride && 0 <= (height - 1 - row) * stride)
        by (nonlinear_arith)
        requires
            0 <= row < height,
            stride >= 0,
    ;
}

} // verus!
