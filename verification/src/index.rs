//! The offset tables of archive files, kept once they have been read.

use crate::asset::{offsets_of, read_index, read_wzx, wzx_default, WZX_HEADER_LEN};
use crate::key::CacheKey;
use crate::resolver::KIND_INDEX;
use std::collections::HashMap;
use vstd::prelude::*;

verus! {

/// The number of bytes read for an image whose length no table gives: the
/// header alone.
pub const HEADER_ONLY: u32 = 16;

/// The part of a data file that is read first for one image.
#[derive(Debug, Clone, Copy, PartialEq, Eq, Structural)]
pub struct ImageSpan {
    /// Where the image's header starts in the data file.
    pub start: u32,
    /// How many bytes are read from there.
    pub length: u32,
}

/// The offset table that a key's index file stands for. An index file
/// proper is selected by the data type of index files; every other file is
/// read as a secondary index file.
pub open spec fn table_of(key: CacheKey, file: Option<Seq<u8>>) -> Seq<u32> {
    match file {
        Some(data) => if key.data_type() == KIND_INDEX {
            offsets_of(data)
        } else {
            offsets_of(data.skip(WZX_HEADER_LEN as int))
        },
        None => if key.data_type() == KIND_INDEX {
            Seq::empty()
        } else {
            wzx_default()
        },
    }
}

/// The part of the data file to read for the image at `file_index`, if the
/// table lists it.
///
/// The image starts at the offset listed for it. For a table that came from
/// an index file proper, the entry that follows gives the number of bytes to
/// read; for any other table, and for the last entry, the header alone is
/// read.
pub open spec fn span_in(table: Seq<u32>, file_index: int, data_type: u32) -> Option<ImageSpan> {
    if 0 <= file_index < table.len() {
        Some(
            ImageSpan {
                start: table[file_index],
                length: if file_index + 1 < table.len() && data_type == KIND_INDEX {
                    table[file_index + 1]
                } else {
                    HEADER_ONLY
                },
            },
        )
    } else {
        None
    }
}

/// The offset tables read so far, each under the index key of the keys that
/// it serves. A table once stored is never replaced or dropped.
#[derive(Debug, Clone)]
pub struct IndexCache {
    tables: HashMap<u32, Vec<u32>>,
}

impl View for IndexCache {
    type V = Map<u32, Seq<u32>>;

    closed spec fn view(&self) -> Map<u32, Seq<u32>> {
        Map::new(|k: u32| self.tables@.contains_key(k), |k: u32| self.tables@[k]@)
    }
}

impl IndexCache {
    /// The span that the cache gives for a key, if it holds the table of the
    /// key's file and that table lists the key's image.
    pub open spec fn span_of(self, key: CacheKey) -> Option<ImageSpan> {
        if self@.contains_key(key.idx_key()) {
            span_in(self@[key.idx_key()], key.file_index() as int, key.data_type())
        } else {
            None
        }
    }

    /// A cache without tables.
    pub fn new() -> (cache: Self)
        ensures
            cache@ == Map::<u32, Seq<u32>>::empty(),
    {
        let cache = IndexCache { tables: HashMap::new() };
        assert(cache@ =~= Map::<u32, Seq<u32>>::empty());
        cache
    }

    /// Tells whether the table of the key's file has been stored.
    pub fn contains(&self, key: &CacheKey) -> (found: bool)
        ensures
            found == self@.contains_key(key.idx_key()),
    {
        let idx_key: u32 = key.get_idx_key();
        self.tables.contains_key(&idx_key)
    }

    /// The stored table of the key's file.
    pub fn get(&self, key: &CacheKey) -> (table: Option<&Vec<u32>>)
        ensures
            match table {
                Some(table) => self@.contains_key(key.idx_key()) && table@ == self@[key.idx_key()],
                None => !self@.contains_key(key.idx_key()),
            },
    {
        let idx_key: u32 = key.get_idx_key();
        self.tables.get(&idx_key)
    }

    /// Decodes the index file of a key's archive file and stores its table,
    /// unless a table is stored for it already. `file` holds the file's
    /// bytes, or nothing if the file is not there.
    pub fn load(&mut self, key: &CacheKey, file: Option<&[u8]>)
        requires
            key.data_type() != KIND_INDEX ==> (file matches Some(data) ==> data@.len()
                >= WZX_HEADER_LEN),
        ensures
            final(self)@ == if old(self)@.contains_key(key.idx_key()) {
                old(self)@
            } else {
                old(self)@.insert(
                    key.idx_key(),
                    table_of(
                        *key,
                        match file {
                            Some(data) => Some(data@),
                            None => None,
                        },
                    ),
                )
            },
    {
        let idx_key: u32 = key.get_idx_key();
        if self.tables.contains_key(&idx_key) {
            return ;
        }
        let table = if key.get_data_type() == KIND_INDEX {
            read_index(file)
        } else {
            read_wzx(file)
        };
        let ghost before = self@;
        let ghost stored = table@;
        self.tables.insert(idx_key, table);
        assert(self@ =~= before.insert(idx_key, stored));
    }

    /// Finds the part of the data file to read for a key's image. There is
    /// none where the table of the key's file has not been stored, and none
    /// where the table does not list the image.
    pub fn locate(&self, key: &CacheKey) -> (span: Option<ImageSpan>)
        ensures
            span == self.span_of(*key),
    {
        let file_index: usize = key.get_file_index();
        let data_type: u32 = key.get_data_type();
        match self.get(key) {
            Some(table) => {
                if file_index < table.len() {
                    let start: u32 = table[file_index];
                    let length: u32 = if file_index + 1 < table.len() && data_type == KIND_INDEX {
                        table[file_index + 1]
                    } else {
                        HEADER_ONLY
                    };
                    Some(ImageSpan { start, length })
                } else {
                    None
                }
            },
            None => None,
        }
    }
}

} // verus!
