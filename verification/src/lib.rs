//! Decoding of a tile game's sprite archives and packing of the decoded
//! sprites into texture atlases.
//!
//! The crate holds the parts of an atlas cache that compute: the packed
//! 64-bit keys that address a sprite inside a multi-file archive, the decoders
//! of the archive's map, index and image files, the shelf packer that assigns
//! each sprite a rectangle of an atlas, and the bookkeeping of what an atlas
//! holds. Reading files, drawing and threading are left to the caller, who
//! hands in bytes and gets plain values back.
//!
//! Beside the cache stand the other parts of the game client that compute:
//! the window that is cut from a map for the screen, the tables of a
//! figure's animations, and the frames and states of the game protocol.

pub mod asset;
pub mod atlas;
pub mod easing;
pub mod image;
pub mod index;
pub mod key;
pub mod loader;
pub mod net;
pub mod packer;
pub mod palette;
pub mod resolver;
pub mod window;
pub mod wire;
