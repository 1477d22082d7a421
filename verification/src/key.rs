//! Packed 64-bit content keys.
//!
//! A key names one sprite of an archive. Its high 32 bits say which atlas
//! the sprite belongs to and how many consecutive sprites a request covers;
//! its low 32 bits say where the sprite is stored.
//!
//! | bits  | field       | width |
//! |-------|-------------|-------|
//! | 62–55 | data id     | 8     |
//! | 54–45 | data number | 10    |
//! | 44–42 | data type   | 3     |
//! | 41–32 | data count  | 10    |
//! | 31–24 | file id     | 8     |
//! | 23–17 | file number | 7     |
//! | 16–0  | file index  | 17    |
//!
//! Bits 63–42 together are the *data key*, which names an atlas; bits 31–0
//! are the *meta key*, which names a sprite inside it.

use vstd::prelude::*;

verus! {

/// The upper 22 bits of a key: the atlas that a sprite belongs to.
pub type CacheDataKey = u32;

/// The lower 32 bits of a key: the sprite inside its archive file.
pub type CacheMetaKey = u32;

pub const DATA_ID_SHR: u32 = 55;

pub const DATA_ID_BITS: u32 = 0xFF;

pub const DATA_NUMBER_SHR: u32 = 45;

pub const DATA_NUMBER_BITS: u32 = 0x3FF;

pub const DATA_TYPE_SHR: u32 = 42;

pub const DATA_TYPE_BITS: u32 = 0x7;

pub const DATA_COUNT_SHR: u32 = 32;

pub const DATA_COUNT_BITS: u32 = 0x3FF;

pub const FILE_ID_SHR: u32 = 24;

pub const FILE_ID_BITS: u32 = 0xFF;

pub const FILE_NUMBER_SHR: u32 = 17;

pub const FILE_NUMBER_BITS: u32 = 0x7F;

pub const FILE_INDEX_SHR: u32 = 0;

pub const FILE_INDEX_BITS: u32 = 0x1FFFF;

/// The seven fields of a key, each cut to its width, laid out in 64 bits.
pub open spec fn pack(
    data_id: u32,
    data_number: u32,
    data_type: u32,
    data_count: u32,
    file_id: u32,
    file_number: u32,
    file_index: u32,
) -> u64 {
    ((data_id & 0xFF) as u64) << 55
        | ((data_number & 0x3FF) as u64) << 45
        | ((data_type & 0x7) as u64) << 42
        | ((data_count & 0x3FF) as u64) << 32
        | ((file_id & 0xFF) as u64) << 24
        | ((file_number & 0x7F) as u64) << 17
        | ((file_index & 0x1FFFF) as u64)
}

/// A data key, a count and a meta key joined without cutting any of them.
pub open spec fn join(data_key: u32, meta_key: u32, data_count: u32) -> u64 {
    (data_key as u64) << 42 | (data_count as u64) << 32 | (meta_key as u64)
}

/// The data key of the atlas that holds the sprites of one data id, number
/// and type.
pub open spec fn data_key_of(data_id: u32, data_number: u32, data_type: u32) -> u32 {
    (data_id & 0xFF) << 13 | (data_number & 0x3FF) << 3 | (data_type & 0x7)
}

/// The key of a sprite, or of a run of sprites that follow each other in
/// one archive file. Any 64 bits are a key.
#[derive(Clone, Copy, Debug, PartialEq, Eq, Hash, Structural)]
pub struct CacheKey {
    pub long_key: u64,
}

impl CacheKey {
    /// The atlas that the sprite belongs to: data id, data number and data
    /// type together.
    pub open spec fn data_key(self) -> u32 {
        (self.long_key >> 42) as u32
    }

    /// The place where the sprite is stored: file id, file number and file
    /// index together.
    pub open spec fn meta_key(self) -> u32 {
        (self.long_key & 0xFFFF_FFFF) as u32
    }

    /// The family of atlases that the sprite belongs to.
    pub open spec fn data_id(self) -> u32 {
        ((self.long_key >> 55) & 0xFF) as u32
    }

    /// The atlas of its family that the sprite belongs to.
    pub open spec fn data_number(self) -> u32 {
        ((self.long_key >> 45) & 0x3FF) as u32
    }

    /// The kind of index file that lists the sprite.
    pub open spec fn data_type(self) -> u32 {
        ((self.long_key >> 42) & 0x7) as u32
    }

    /// The number of sprites, from this one on, that the key asks for.
    pub open spec fn data_count(self) -> u32 {
        ((self.long_key >> 32) & 0x3FF) as u32
    }

    /// The archive that holds the sprite, by the number under which its
    /// base name is registered.
    pub open spec fn file_id(self) -> u32 {
        ((self.long_key >> 24) & 0xFF) as u32
    }

    /// The file of the archive that holds the sprite.
    pub open spec fn file_number(self) -> u32 {
        ((self.long_key >> 17) & 0x7F) as u32
    }

    /// The place of the sprite among the sprites of its file.
    pub open spec fn file_index(self) -> u32 {
        (self.long_key & 0x1FFFF) as u32
    }

    /// The key of the offset table that lists this key's archive file: the
    /// data type, the file id and the file number, in 18 bits.
    pub open spec fn idx_key(self) -> u32 {
        self.data_type() << 15 | self.file_id() << 7 | self.file_number()
    }

    /// This key as a request for one sprite: the count set to one, the rest
    /// kept.
    pub open spec fn single(self) -> u64 {
        join(self.data_key(), self.meta_key(), 1)
    }

    pub fn new(long_key: u64) -> (key: Self)
        ensures
            key.long_key == long_key,
    {
        Self { long_key }
    }

    /// Builds a key from its seven fields. A field wider than its place in the
    /// key loses its upper bits.
    pub fn from(
        data_id: u32,
        data_number: u32,
        data_type: u32,
        data_count: u32,
        file_id: u32,
        file_number: u32,
        file_index: u32,
    ) -> (key: Self)
        ensures
            key.long_key == pack(
                data_id,
                data_number,
                data_type,
                data_count,
                file_id,
                file_number,
                file_index,
            ),
            key.data_id() == data_id & 0xFF,
            key.data_number() == data_number & 0x3FF,
            key.data_type() == data_type & 0x7,
            key.data_count() == data_count & 0x3FF,
            key.file_id() == file_id & 0xFF,
            key.file_number() == file_number & 0x7F,
            key.file_index() == file_index & 0x1FFFF,
            key.data_key() == data_key_of(data_id, data_number, data_type),
    {
        let data_key: u32 = (data_id & DATA_ID_BITS) << 23 | (data_number & DATA_NUMBER_BITS) << 13
            | (data_type & DATA_TYPE_BITS) << 10 | (data_count & DATA_COUNT_BITS);
        let meta_key: u32 = (file_id & FILE_ID_BITS) << FILE_ID_SHR | (file_number
            & FILE_NUMBER_BITS) << FILE_NUMBER_SHR | file_index & FILE_INDEX_BITS;
        let long_key: u64 = (data_key as u64) << 32 | meta_key as u64;
        proof {
            lemma_pack_halves(
                data_id,
                data_number,
                data_type,
                data_count,
                file_id,
                file_number,
                file_index,
            );
            lemma_pack_fields(
                data_id,
                data_number,
                data_type,
                data_count,
                file_id,
                file_number,
                file_index,
            );
        }
        Self { long_key }
    }

    /// Joins a data key, a meta key and a count into a key. Nothing is cut:
    /// a data key of more than 22 bits loses its upper bits, and a count of
    /// more than 10 bits runs into the data key.
    pub fn from_cache(data_key: u32, meta_key: u32, data_count: u32) -> (key: Self)
        ensures
            key.long_key == join(data_key, meta_key, data_count),
            key.meta_key() == meta_key,
            data_key < 0x40_0000 && data_count < 0x400 ==> key.data_key() == data_key
                && key.data_count() == data_count,
    {
        let long_key: u64 = (data_key as u64) << 42 | (data_count as u64) << 32 | meta_key as u64;
        proof {
            lemma_join_halves(data_key, meta_key, data_count);
        }
        Self { long_key }
    }

    /// The data key of the atlas that holds the sprites of one data id, number
    /// and type: what `get_data_key` returns for every key built from them.
    pub fn build_data_key(data_id: u32, data_number: u32, data_type: u32) -> (data_key:
        CacheDataKey)
        ensures
            data_key == data_key_of(data_id, data_number, data_type),
    {
        (data_id & DATA_ID_BITS) << 13 | (data_number & DATA_NUMBER_BITS) << 3 | (data_type
            & DATA_TYPE_BITS)
    }

    /// The key of the sprite that lies `inc` places after this one in the
    /// same archive file, as a request for that one sprite.
    ///
    /// `inc` is added to the whole key after its count has been set to one.
    /// While the file index stays below 2^17 only the file index changes;
    /// past that the sum carries into the file number and beyond.
    pub fn as_inc_index(&self, inc: u32) -> (key: Self)
        ensures
            key.long_key == self.single() + inc,
            self.file_index() + inc < 0x2_0000 ==> {
                &&& key.file_index() == self.file_index() + inc
                &&& key.file_number() == self.file_number()
                &&& key.file_id() == self.file_id()
                &&& key.data_count() == 1
                &&& key.data_key() == self.data_key()
            },
    {
        let long_key: u64 = CacheKey::from_cache(self.get_data_key(), self.get_meta_key(), 1).long_key;
        proof {
            lemma_single_has_room(self.long_key);
            if self.file_index() + inc < 0x2_0000 {
                lemma_increment(*self, inc);
            }
        }
        Self { long_key: long_key + inc as u64 }
    }

    pub fn get_long_key(&self) -> (long_key: u64)
        ensures
            long_key == self.long_key,
    {
        self.long_key
    }

    pub fn get_idx_key(&self) -> (idx_key: u32)
        ensures
            idx_key == self.idx_key(),
    {
        self.get_data_type() << 15 | self.get_file_id() << 7 | self.get_file_number()
    }

    pub fn get_data_key(&self) -> (data_key: CacheDataKey)
        ensures
            data_key == self.data_key(),
    {
        (self.long_key >> 42) as u32
    }

    pub fn get_meta_key(&self) -> (meta_key: CacheMetaKey)
        ensures
            meta_key == self.meta_key(),
    {
        let long_key: u64 = self.long_key;
        assert(long_key & 0xFFFF_FFFF == (long_key as u32) & 0xFFFF_FFFF) by (bit_vector);
        (self.long_key as u32) & 0xFFFF_FFFF
    }

    pub fn get_data_id(&self) -> (data_id: u32)
        ensures
            data_id == self.data_id(),
    {
        let long_key: u64 = self.long_key;
        assert((long_key >> 55) & 0xFF == ((long_key >> 55) as u32) & 0xFF) by (bit_vector);
        (self.long_key >> DATA_ID_SHR) as u32 & DATA_ID_BITS
    }

    pub fn get_data_number(&self) -> (data_number: u32)
        ensures
            data_number == self.data_number(),
    {
        let long_key: u64 = self.long_key;
        assert((long_key >> 45) & 0x3FF == ((long_key >> 45) as u32) & 0x3FF) by (bit_vector);
        (self.long_key >> DATA_NUMBER_SHR) as u32 & DATA_NUMBER_BITS
    }

    pub fn get_data_count(&self) -> (data_count: u32)
        ensures
            data_count == self.data_count(),
    {
        let long_key: u64 = self.long_key;
        assert((long_key >> 32) & 0x3FF == ((long_key >> 32) as u32) & 0x3FF) by (bit_vector);
        (self.long_key >> DATA_COUNT_SHR) as u32 & DATA_COUNT_BITS
    }

    pub fn get_data_type(&self) -> (data_type: u32)
        ensures
            data_type == self.data_type(),
    {
        let long_key: u64 = self.long_key;
        assert((long_key >> 42) & 0x7 == ((long_key >> 42) as u32) & 0x7) by (bit_vector);
        (self.long_key >> DATA_TYPE_SHR) as u32 & DATA_TYPE_BITS
    }

    pub fn get_file_id(&self) -> (file_id: u32)
        ensures
            file_id == self.file_id(),
    {
        let long_key: u64 = self.long_key;
        assert((long_key >> 24) & 0xFF == ((long_key >> 24) as u32) & 0xFF) by (bit_vector);
        (self.long_key >> FILE_ID_SHR) as u32 & FILE_ID_BITS
    }

    pub fn get_file_number(&self) -> (file_number: u32)
        ensures
            file_number == self.file_number(),
    {
        let long_key: u64 = self.long_key;
        assert((long_key >> 17) & 0x7F == ((long_key >> 17) as u32) & 0x7F) by (bit_vector);
        (self.long_key >> FILE_NUMBER_SHR) as u32 & FILE_NUMBER_BITS
    }

    pub fn get_file_index(&self) -> (file_index: usize)
        ensures
            file_index == self.file_index(),
    {
        let long_key: u64 = self.long_key;
        assert(long_key & 0x1FFFF == ((long_key >> 0) as u32) & 0x1FFFF) by (bit_vector);
        assert(((long_key >> 0) as u32) & 0x1FFFF < 0x2_0000) by (bit_vector);
        ((self.long_key >> FILE_INDEX_SHR) as u32 & FILE_INDEX_BITS) as usize
    }
}

/// A key built from its fields gives each field back, when each fits its
/// width.
pub proof fn lemma_fields_round_trip(
    data_id: u32,
    data_number: u32,
    data_type: u32,
    data_count: u32,
    file_id: u32,
    file_number: u32,
    file_index: u32,
)
    requires
        data_id <= 0xFF,
        data_number <= 0x3FF,
        data_type <= 0x7,
        data_count <= 0x3FF,
        file_id <= 0xFF,
        file_number <= 0x7F,
        file_index <= 0x1FFFF,
    ensures
        ({
            let key = CacheKey {
                long_key: pack(
                    data_id,
                    data_number,
                    data_type,
                    data_count,
                    file_id,
                    file_number,
                    file_index,
                ),
            };
            &&& key.data_id() == data_id
            &&& key.data_number() == data_number
            &&& key.data_type() == data_type
            &&& key.data_count() == data_count
            &&& key.file_id() == file_id
            &&& key.file_number() == file_number
            &&& key.file_index() == file_index
        }),
{
    lemma_pack_fields(
        data_id,
        data_number,
        data_type,
        data_count,
        file_id,
        file_number,
        file_index,
    );
    assert(data_id & 0xFF == data_id) by (bit_vector)
        requires
            data_id <= 0xFF,
    ;
    assert(data_number & 0x3FF == data_number) by (bit_vector)
        requires
            data_number <= 0x3FF,
    ;
    assert(data_type & 0x7 == data_type) by (bit_vector)
        requires
            data_type <= 0x7,
    ;
    assert(data_count & 0x3FF == data_count) by (bit_vector)
        requires
            data_count <= 0x3FF,
    ;
    assert(file_id & 0xFF == file_id) by (bit_vector)
        requires
            file_id <= 0xFF,
    ;
    assert(file_number & 0x7F == file_number) by (bit_vector)
        requires
            file_number <= 0x7F,
    ;
    assert(file_index & 0x1FFFF == file_index) by (bit_vector)
        requires
            file_index <= 0x1FFFF,
    ;
}

/// Moving a key on by `inc` sprites adds `inc` to its file index and leaves
/// its data key, file id and file number as they were, as long as the new
/// file index stays below 2^17.
pub proof fn lemma_increment(key: CacheKey, inc: u32)
    requires
        key.file_index() + inc < 0x2_0000,
    ensures
        key.single() + inc <= u64::MAX,
        ({
            let next = CacheKey { long_key: (key.single() + inc) as u64 };
            &&& next.file_index() == key.file_index() + inc
            &&& next.file_number() == key.file_number()
            &&& next.file_id() == key.file_id()
            &&& next.data_count() == 1
            &&& next.data_type() == key.data_type()
            &&& next.data_number() == key.data_number()
            &&& next.data_id() == key.data_id()
            &&& next.data_key() == key.data_key()
        }),
{
    let k = key.long_key;
    let n = inc as u64;
    let s = key.single();
    assert(s == ((k >> 42) as u32 as u64) << 42 | 1u64 << 32 | ((k & 0xFFFF_FFFF) as u32 as u64));
    assert((k & 0x1FFFF) as u32 + inc < 0x2_0000);
    assert({
        &&& s + n <= 0xFFFF_FFFF_FFFF_FFFF
        &&& ((s + n) as u64 & 0x1FFFF) as u32 == (k & 0x1FFFF) as u32 + inc
        &&& ((((s + n) as u64) >> 17) & 0x7F) as u32 == ((k >> 17) & 0x7F) as u32
        &&& ((((s + n) as u64) >> 24) & 0xFF) as u32 == ((k >> 24) & 0xFF) as u32
        &&& ((((s + n) as u64) >> 32) & 0x3FF) as u32 == 1
        &&& ((((s + n) as u64) >> 42) & 0x7) as u32 == ((k >> 42) & 0x7) as u32
        &&& ((((s + n) as u64) >> 45) & 0x3FF) as u32 == ((k >> 45) & 0x3FF) as u32
        &&& ((((s + n) as u64) >> 55) & 0xFF) as u32 == ((k >> 55) & 0xFF) as u32
        &&& (((s + n) as u64) >> 42) as u32 == (k >> 42) as u32
    }) by (bit_vector)
        requires
            s == ((k >> 42) as u32 as u64) << 42 | 1u64 << 32 | ((k & 0xFFFF_FFFF) as u32 as u64),
            (k & 0x1FFFF) as u32 + inc < 0x2_0000,
            n == inc as u64,
    ;
}

/// A key with its count set to one leaves room for any 32-bit increment.
proof fn lemma_single_has_room(long_key: u64)
    ensures
        join((long_key >> 42) as u32, (long_key & 0xFFFF_FFFF) as u32, 1) <= 0xFFFF_FC01_FFFF_FFFF,
{
    assert((((long_key >> 42) as u32 as u64) << 42 | 1u64 << 32 | ((long_key & 0xFFFF_FFFF) as u32 as u64))
        <= 0xFFFF_FC01_FFFF_FFFF) by (bit_vector);
}

/// What `join` puts together comes apart again: the meta key always, the
/// data key and the count when they fit their widths.
proof fn lemma_join_halves(data_key: u32, meta_key: u32, data_count: u32)
    ensures
        (join(data_key, meta_key, data_count) & 0xFFFF_FFFF) as u32 == meta_key,
        data_key < 0x40_0000 && data_count < 0x400 ==> (join(data_key, meta_key, data_count) >> 42) as u32
            == data_key && ((join(data_key, meta_key, data_count) >> 32) & 0x3FF) as u32
            == data_count,
{
    let v = join(data_key, meta_key, data_count);
    assert((v & 0xFFFF_FFFF) as u32 == meta_key) by (bit_vector)
        requires
            v == (data_key as u64) << 42 | (data_count as u64) << 32 | (meta_key as u64),
            data_count < 0x1_0000_0000,
    ;
    assert(data_key < 0x40_0000 && data_count < 0x400 ==> (v >> 42) as u32 == data_key && ((v >> 32)
        & 0x3FF) as u32 == data_count) by (bit_vector)
        requires
            v == (data_key as u64) << 42 | (data_count as u64) << 32 | (meta_key as u64),
    ;
}

/// Packing the upper four fields and the lower three into 32 bits each and
/// joining the halves gives the same 64 bits as packing all seven at once.
proof fn lemma_pack_halves(
    data_id: u32,
    data_number: u32,
    data_type: u32,
    data_count: u32,
    file_id: u32,
    file_number: u32,
    file_index: u32,
)
    ensures
        ((((data_id & 0xFF) << 23 | (data_number & 0x3FF) << 13 | (data_type & 0x7) << 10 | (
        data_count & 0x3FF)) as u64) << 32) | (((file_id & 0xFF) << 24 | (file_number & 0x7F) << 17
            | file_index & 0x1FFFF) as u64) == pack(
            data_id,
            data_number,
            data_type,
            data_count,
            file_id,
            file_number,
            file_index,
        ),
{
    assert(((((data_id & 0xFF) << 23 | (data_number & 0x3FF) << 13 | (data_type & 0x7) << 10 | (
    data_count & 0x3FF)) as u64) << 32) | (((file_id & 0xFF) << 24 | (file_number & 0x7F) << 17
        | file_index & 0x1FFFF) as u64) == ((data_id & 0xFF) as u64) << 55 | ((data_number
        & 0x3FF) as u64) << 45 | ((data_type & 0x7) as u64) << 42 | ((data_count & 0x3FF) as u64)
        << 32 | ((file_id & 0xFF) as u64) << 24 | ((file_number & 0x7F) as u64) << 17 | ((file_index
        & 0x1FFFF) as u64)) by (bit_vector);
}

/// Each field read back from packed fields is the field that went in, cut to
/// its width.
proof fn lemma_pack_fields(
    data_id: u32,
    data_number: u32,
    data_type: u32,
    data_count: u32,
    file_id: u32,
    file_number: u32,
    file_index: u32,
)
    ensures
        ({
            let key = CacheKey {
                long_key: pack(
                    data_id,
                    data_number,
                    data_type,
                    data_count,
                    file_id,
                    file_number,
                    file_index,
                ),
            };
            &&& key.data_id() == data_id & 0xFF
            &&& key.data_number() == data_number & 0x3FF
            &&& key.data_type() == data_type & 0x7
            &&& key.data_count() == data_count & 0x3FF
            &&& key.file_id() == file_id & 0xFF
            &&& key.file_number() == file_number & 0x7F
            &&& key.file_index() == file_index & 0x1FFFF
            &&& key.data_key() == data_key_of(data_id, data_number, data_type)
        }),
{
    let v = pack(data_id, data_number, data_type, data_count, file_id, file_number, file_index);
    assert(v == ((data_id & 0xFF) as u64) << 55 | ((data_number & 0x3FF) as u64) << 45 | ((data_type
        & 0x7) as u64) << 42 | ((data_count & 0x3FF) as u64) << 32 | ((file_id & 0xFF) as u64) << 24
        | ((file_number & 0x7F) as u64) << 17 | ((file_index & 0x1FFFF) as u64));
    assert(((v >> 55) & 0xFF) as u32 == data_id & 0xFF && ((v >> 45) & 0x3FF) as u32 == data_number
        & 0x3FF && ((v >> 42) & 0x7) as u32 == data_type & 0x7 && ((v >> 32) & 0x3FF) as u32
        == data_count & 0x3FF && ((v >> 24) & 0xFF) as u32 == file_id & 0xFF && ((v >> 17) & 0x7F) as u32
        == file_number & 0x7F && (v & 0x1FFFF) as u32 == file_index & 0x1FFFF && (v >> 42) as u32 == (
    data_id & 0xFF) << 13 | (data_number & 0x3FF) << 3 | (data_type & 0x7)) by (bit_vector)
        requires
            v == ((data_id & 0xFF) as u64) << 55 | ((data_number & 0x3FF) as u64) << 45 | ((
            data_type & 0x7) as u64) << 42 | ((data_count & 0x3FF) as u64) << 32 | ((file_id
                & 0xFF) as u64) << 24 | ((file_number & 0x7F) as u64) << 17 | ((file_index
                & 0x1FFFF) as u64),
    ;
}

} // verus!
