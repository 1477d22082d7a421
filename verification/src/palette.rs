//! The colour table of indexed images.

use vstd::prelude::*;

verus! {

/// The 256 colours of an indexed image, four bytes each: red, green, blue,
/// alpha. Colour 0 is transparent black; every other colour is opaque.
pub const PALETTE_RGBA: [u8; 1024] = [
    0x00, 0x00, 0x00, 0x00, 0x80, 0x00, 0x00, 0xFF, 0x00, 0x80, 0x00, 0xFF, 0x80, 0x80, 0x00, 0xFF,
    0x00, 0x00, 0x80, 0xFF, 0x80, 0x00, 0x80, 0xFF, 0x00, 0x80, 0x80, 0xFF, 0xC0, 0xC0, 0xC0, 0xFF,
    0x55, 0x80, 0x97, 0xFF, 0x9D, 0xB9, 0xC8, 0xFF, 0x7B, 0x73, 0x73, 0xFF, 0x2D, 0x29, 0x29, 0xFF,
    0x5A, 0x52, 0x52, 0xFF, 0x63, 0x5A, 0x5A, 0xFF, 0x42, 0x39, 0x39, 0xFF, 0x1D, 0x18, 0x18, 0xFF,
    0x18, 0x10, 0x10, 0xFF, 0x29, 0x18, 0x18, 0xFF, 0x10, 0x08, 0x08, 0xFF, 0xF2, 0x79, 0x71, 0xFF,
    0xE1, 0x67, 0x5F, 0xFF, 0xFF, 0x5A, 0x5A, 0xFF, 0xFF, 0x31, 0x31, 0xFF, 0xD6, 0x5A, 0x52, 0xFF,
    0x94, 0x10, 0x00, 0xFF, 0x94, 0x29, 0x18, 0xFF, 0x39, 0x08, 0x00, 0xFF, 0x73, 0x10, 0x00, 0xFF,
    0xB5, 0x18, 0x00, 0xFF, 0xBD, 0x63, 0x52, 0xFF, 0x42, 0x18, 0x10, 0xFF, 0xFF, 0xAA, 0x99, 0xFF,
    0x5A, 0x10, 0x00, 0xFF, 0x73, 0x39, 0x29, 0xFF, 0xA5, 0x4A, 0x31, 0xFF, 0x94, 0x7B, 0x73, 0xFF,
    0xBD, 0x52, 0x31, 0xFF, 0x52, 0x21, 0x10, 0xFF, 0x7B, 0x31, 0x18, 0xFF, 0x2D, 0x18, 0x10, 0xFF,
    0x8C, 0x4A, 0x31, 0xFF, 0x94, 0x29, 0x00, 0xFF, 0xBD, 0x31, 0x00, 0xFF, 0xC6, 0x73, 0x52, 0xFF,
    0x6B, 0x31, 0x18, 0xFF, 0xC6, 0x6B, 0x42, 0xFF, 0xCE, 0x4A, 0x00, 0xFF, 0xA5, 0x63, 0x39, 0xFF,
    0x5A, 0x31, 0x18, 0xFF, 0x2A, 0x10, 0x00, 0xFF, 0x15, 0x08, 0x00, 0xFF, 0x3A, 0x18, 0x00, 0xFF,
    0x08, 0x00, 0x00, 0xFF, 0x29, 0x00, 0x00, 0xFF, 0x4A, 0x00, 0x00, 0xFF, 0x9D, 0x00, 0x00, 0xFF,
    0xDC, 0x00, 0x00, 0xFF, 0xDE, 0x00, 0x00, 0xFF, 0xFB, 0x00, 0x00, 0xFF, 0x9C, 0x73, 0x52, 0xFF,
    0x94, 0x6B, 0x4A, 0xFF, 0x73, 0x4A, 0x29, 0xFF, 0x52, 0x31, 0x18, 0xFF, 0x8C, 0x4A, 0x18, 0xFF,
    0x88, 0x44, 0x11, 0xFF, 0x4A, 0x21, 0x00, 0xFF, 0x21, 0x18, 0x10, 0xFF, 0xD6, 0x94, 0x5A, 0xFF,
    0xC6, 0x6B, 0x21, 0xFF, 0xEF, 0x6B, 0x00, 0xFF, 0xFF, 0x77, 0x00, 0xFF, 0xA5, 0x94, 0x84, 0xFF,
    0x42, 0x31, 0x21, 0xFF, 0x18, 0x10, 0x08, 0xFF, 0x29, 0x18, 0x08, 0xFF, 0x21, 0x10, 0x00, 0xFF,
    0x39, 0x29, 0x18, 0xFF, 0x8C, 0x63, 0x39, 0xFF, 0x42, 0x29, 0x10, 0xFF, 0x6B, 0x42, 0x18, 0xFF,
    0x7B, 0x4A, 0x18, 0xFF, 0x94, 0x4A, 0x00, 0xFF, 0x8C, 0x84, 0x7B, 0xFF, 0x6B, 0x63, 0x5A, 0xFF,
    0x4A, 0x42, 0x39, 0xFF, 0x29, 0x21, 0x18, 0xFF, 0x46, 0x39, 0x29, 0xFF, 0xB5, 0xA5, 0x94, 0xFF,
    0x7B, 0x6B, 0x5A, 0xFF, 0xCE, 0xB1, 0x94, 0xFF, 0xA5, 0x8C, 0x73, 0xFF, 0x8C, 0x73, 0x5A, 0xFF,
    0xB5, 0x94, 0x73, 0xFF, 0xD6, 0xA5, 0x73, 0xFF, 0xEF, 0xA5, 0x4A, 0xFF, 0xEF, 0xC6, 0x8C, 0xFF,
    0x7B, 0x63, 0x42, 0xFF, 0x6B, 0x56, 0x39, 0xFF, 0xBD, 0x94, 0x5A, 0xFF, 0x63, 0x39, 0x00, 0xFF,
    0xD6, 0xC6, 0xAD, 0xFF, 0x52, 0x42, 0x29, 0xFF, 0x94, 0x63, 0x18, 0xFF, 0xEF, 0xD6, 0xAD, 0xFF,
    0xA5, 0x8C, 0x63, 0xFF, 0x63, 0x5A, 0x4A, 0xFF, 0xBD, 0xA5, 0x7B, 0xFF, 0x5A, 0x42, 0x18, 0xFF,
    0xBD, 0x8C, 0x31, 0xFF, 0x35, 0x31, 0x29, 0xFF, 0x94, 0x84, 0x63, 0xFF, 0x7B, 0x6B, 0x4A, 0xFF,
    0xA5, 0x8C, 0x5A, 0xFF, 0x5A, 0x4A, 0x29, 0xFF, 0x9C, 0x7B, 0x39, 0xFF, 0x42, 0x31, 0x10, 0xFF,
    0xEF, 0xAD, 0x21, 0xFF, 0x18, 0x10, 0x00, 0xFF, 0x29, 0x21, 0x00, 0xFF, 0x9C, 0x6B, 0x00, 0xFF,
    0x94, 0x84, 0x5A, 0xFF, 0x52, 0x42, 0x18, 0xFF, 0x6B, 0x5A, 0x29, 0xFF, 0x7B, 0x63, 0x21, 0xFF,
    0x9C, 0x7B, 0x21, 0xFF, 0xDE, 0xA5, 0x00, 0xFF, 0x5A, 0x52, 0x39, 0xFF, 0x31, 0x29, 0x10, 0xFF,
    0xCE, 0xBD, 0x7B, 0xFF, 0x63, 0x5A, 0x39, 0xFF, 0x94, 0x84, 0x4A, 0xFF, 0xC6, 0xA5, 0x29, 0xFF,
    0x10, 0x9C, 0x18, 0xFF, 0x42, 0x8C, 0x4A, 0xFF, 0x31, 0x8C, 0x42, 0xFF, 0x10, 0x94, 0x29, 0xFF,
    0x08, 0x18, 0x10, 0xFF, 0x08, 0x18, 0x18, 0xFF, 0x08, 0x29, 0x10, 0xFF, 0x18, 0x42, 0x29, 0xFF,
    0xA5, 0xB5, 0xAD, 0xFF, 0x6B, 0x73, 0x73, 0xFF, 0x18, 0x29, 0x29, 0xFF, 0x18, 0x42, 0x4A, 0xFF,
    0x31, 0x42, 0x4A, 0xFF, 0x63, 0xC6, 0xDE, 0xFF, 0x44, 0xDD, 0xFF, 0xFF, 0x8C, 0xD6, 0xEF, 0xFF,
    0x73, 0x6B, 0x39, 0xFF, 0xF7, 0xDE, 0x39, 0xFF, 0xF7, 0xEF, 0x8C, 0xFF, 0xF7, 0xE7, 0x00, 0xFF,
    0x6B, 0x6B, 0x5A, 0xFF, 0x5A, 0x8C, 0xA5, 0xFF, 0x39, 0xB5, 0xEF, 0xFF, 0x4A, 0x9C, 0xCE, 0xFF,
    0x31, 0x84, 0xB5, 0xFF, 0x31, 0x52, 0x6B, 0xFF, 0xDE, 0xDE, 0xD6, 0xFF, 0xBD, 0xBD, 0xB5, 0xFF,
    0x8C, 0x8C, 0x84, 0xFF, 0xF7, 0xF7, 0xDE, 0xFF, 0x00, 0x08, 0x18, 0xFF, 0x08, 0x18, 0x39, 0xFF,
    0x08, 0x10, 0x29, 0xFF, 0x08, 0x18, 0x00, 0xFF, 0x08, 0x29, 0x00, 0xFF, 0x00, 0x52, 0xA5, 0xFF,
    0x00, 0x7B, 0xDE, 0xFF, 0x10, 0x29, 0x4A, 0xFF, 0x10, 0x39, 0x6B, 0xFF, 0x10, 0x52, 0x8C, 0xFF,
    0x21, 0x5A, 0xA5, 0xFF, 0x10, 0x31, 0x5A, 0xFF, 0x10, 0x42, 0x84, 0xFF, 0x31, 0x52, 0x84, 0xFF,
    0x18, 0x21, 0x31, 0xFF, 0x4A, 0x5A, 0x7B, 0xFF, 0x52, 0x6B, 0xA5, 0xFF, 0x29, 0x39, 0x63, 0xFF,
    0x10, 0x4A, 0xDE, 0xFF, 0x29, 0x29, 0x21, 0xFF, 0x4A, 0x4A, 0x39, 0xFF, 0x29, 0x29, 0x18, 0xFF,
    0x4A, 0x4A, 0x29, 0xFF, 0x7B, 0x7B, 0x42, 0xFF, 0x9C, 0x9C, 0x4A, 0xFF, 0x5A, 0x5A, 0x29, 0xFF,
    0x42, 0x42, 0x14, 0xFF, 0x39, 0x39, 0x00, 0xFF, 0x59, 0x59, 0x00, 0xFF, 0xCA, 0x35, 0x2C, 0xFF,
    0x6B, 0x73, 0x21, 0xFF, 0x29, 0x31, 0x00, 0xFF, 0x31, 0x39, 0x10, 0xFF, 0x31, 0x39, 0x18, 0xFF,
    0x42, 0x4A, 0x00, 0xFF, 0x52, 0x63, 0x18, 0xFF, 0x5A, 0x73, 0x29, 0xFF, 0x31, 0x4A, 0x18, 0xFF,
    0x18, 0x21, 0x00, 0xFF, 0x18, 0x31, 0x00, 0xFF, 0x18, 0x39, 0x10, 0xFF, 0x63, 0x84, 0x4A, 0xFF,
    0x6B, 0xBD, 0x4A, 0xFF, 0x63, 0xB5, 0x4A, 0xFF, 0x63, 0xBD, 0x4A, 0xFF, 0x5A, 0x9C, 0x4A, 0xFF,
    0x4A, 0x8C, 0x39, 0xFF, 0x63, 0xC6, 0x4A, 0xFF, 0x63, 0xD6, 0x4A, 0xFF, 0x52, 0x84, 0x4A, 0xFF,
    0x31, 0x73, 0x29, 0xFF, 0x63, 0xC6, 0x5A, 0xFF, 0x52, 0xBD, 0x4A, 0xFF, 0x10, 0xFF, 0x00, 0xFF,
    0x18, 0x29, 0x18, 0xFF, 0x4A, 0x88, 0x4A, 0xFF, 0x4A, 0xE7, 0x4A, 0xFF, 0x00, 0x5A, 0x00, 0xFF,
    0x00, 0x88, 0x00, 0xFF, 0x00, 0x94, 0x00, 0xFF, 0x00, 0xDE, 0x00, 0xFF, 0x00, 0xEE, 0x00, 0xFF,
    0x00, 0xFB, 0x00, 0xFF, 0x4A, 0x5A, 0x94, 0xFF, 0x63, 0x73, 0xB5, 0xFF, 0x7B, 0x8C, 0xD6, 0xFF,
    0x6B, 0x7B, 0xD6, 0xFF, 0x77, 0x88, 0xFF, 0xFF, 0xC6, 0xC6, 0xCE, 0xFF, 0x94, 0x94, 0x9C, 0xFF,
    0x9C, 0x94, 0xC6, 0xFF, 0x31, 0x31, 0x39, 0xFF, 0x29, 0x18, 0x84, 0xFF, 0x18, 0x00, 0x84, 0xFF,
    0x4A, 0x42, 0x52, 0xFF, 0x52, 0x42, 0x7B, 0xFF, 0x63, 0x5A, 0x73, 0xFF, 0xCE, 0xB5, 0xF7, 0xFF,
    0x8C, 0x7B, 0x9C, 0xFF, 0x77, 0x22, 0xCC, 0xFF, 0xDD, 0xAA, 0xFF, 0xFF, 0xF0, 0xB4, 0x2A, 0xFF,
    0xDF, 0x00, 0x9F, 0xFF, 0xE3, 0x17, 0xB3, 0xFF, 0xFF, 0xFB, 0xF0, 0xFF, 0xA0, 0xA0, 0xA4, 0xFF,
    0x80, 0x80, 0x80, 0xFF, 0xFF, 0x00, 0x00, 0xFF, 0x00, 0xFF, 0x00, 0xFF, 0xFF, 0xFF, 0x00, 0xFF,
    0x00, 0x00, 0xFF, 0xFF, 0xFF, 0x00, 0xFF, 0xFF, 0x00, 0xFF, 0xFF, 0xFF, 0xFF, 0xFF, 0xFF, 0xFF,
];

} // verus!
