//! What an atlas holds: the place of each sprite baked into it.
//!
//! The atlas's image lives with the caller, who draws the sprites. This
//! module keeps the map from meta keys to places that goes with the image,
//! and decides which requested sprites are still to be loaded.

use crate::image::ImageData;
use crate::key::{CacheKey, CacheMetaKey};
use crate::packer::ImageMeta;
use std::collections::HashMap;
use vstd::prelude::*;

verus! {

/// The places of the sprites of one atlas, each under its meta key.
#[derive(Debug, Clone)]
pub struct ImageValue {
    meta: HashMap<u32, ImageMeta>,
}

impl View for ImageValue {
    type V = Map<u32, ImageMeta>;

    closed spec fn view(&self) -> Map<u32, ImageMeta> {
        self.meta@
    }
}

/// The places of a batch of newly placed sprites, in the batch's order.
pub open spec fn metas_of(batch: Seq<(ImageMeta, ImageData)>) -> Seq<ImageMeta> {
    batch.map_values(|placed: (ImageMeta, ImageData)| placed.0)
}

/// The places of an atlas after a batch has been added: each place of the
/// batch under the meta key of its sprite, a later place replacing an
/// earlier one of the same sprite, and every other place as it was.
pub open spec fn merged(places: Map<u32, ImageMeta>, batch: Seq<ImageMeta>) -> Map<u32, ImageMeta>
    decreases batch.len(),
{
    if batch.len() == 0 {
        places
    } else {
        merged(places, batch.drop_last()).insert(batch.last().key.meta_key(), batch.last())
    }
}

/// Whether an atlas, if there is one, holds a place for the key's sprite.
pub open spec fn is_placed(places: Option<Map<u32, ImageMeta>>, key: CacheKey) -> bool {
    match places {
        Some(places) => places.contains_key(key.meta_key()),
        None => false,
    }
}

/// The places of an atlas that may not be there.
pub open spec fn places_of(entry: Option<&ImageValue>) -> Option<Map<u32, ImageMeta>> {
    match entry {
        Some(value) => Some(value@),
        None => None,
    }
}

/// Adding a batch takes no sprite out of an atlas: every meta key that had
/// a place has one afterwards, and so has the sprite of every place of the
/// batch.
pub proof fn lemma_merged_keeps(places: Map<u32, ImageMeta>, batch: Seq<ImageMeta>)
    ensures
        forall|key: u32| places.contains_key(key) ==> #[trigger] merged(places, batch).contains_key(key),
        forall|i: int|
            0 <= i < batch.len() ==> merged(places, batch).contains_key(
                (#[trigger] batch[i]).key.meta_key(),
            ),
    decreases batch.len(),
{
    if batch.len() > 0 {
        lemma_merged_keeps(places, batch.drop_last());
        assert forall|key: u32| places.contains_key(key) implies #[trigger] merged(
            places,
            batch,
        ).contains_key(key) by {
            assert(merged(places, batch.drop_last()).contains_key(key));
        }
        assert forall|i: int| 0 <= i < batch.len() implies merged(places, batch).contains_key(
            (#[trigger] batch[i]).key.meta_key(),
        ) by {
            if i < batch.len() - 1 {
                assert(batch.drop_last()[i] == batch[i]);
            }
        }
    }
}

impl ImageValue {
    /// The places of an atlas without sprites.
    pub fn new() -> (value: Self)
        ensures
            value@ == Map::<u32, ImageMeta>::empty(),
    {
        ImageValue { meta: HashMap::new() }
    }

    /// The place of a sprite, if the atlas holds it.
    pub fn meta(&self, key: CacheMetaKey) -> (meta: Option<&ImageMeta>)
        ensures
            match meta {
                Some(meta) => self@.contains_key(key) && *meta == self@[key],
                None => !self@.contains_key(key),
            },
    {
        self.meta.get(&key)
    }

    /// Adds the places of a batch of newly placed sprites.
    pub fn extend(&mut self, batch: &Vec<(ImageMeta, ImageData)>)
        ensures
            final(self)@ == merged(old(self)@, metas_of(batch@)),
            forall|key: u32| old(self)@.contains_key(key) ==> #[trigger] final(self)@.contains_key(key),
    {
        proof {
            lemma_merged_keeps(self@, metas_of(batch@));
        }
        let mut i: usize = 0;
        while i < batch.len()
            invariant
                i <= batch@.len(),
                self@ == merged(old(self)@, metas_of(batch@).take(i as int)),
            decreases batch@.len() - i,
        {
            let meta: ImageMeta = batch[i].0;
            proof {
                let metas = metas_of(batch@);
                assert(metas.take(i + 1).drop_last() == metas.take(i as int));
                assert(metas.take(i + 1).last() == meta);
            }
            self.meta.insert(meta.key.get_meta_key(), meta);
            i += 1;
        }
        proof {
            let metas = metas_of(batch@);
            assert(metas.take(i as int) == metas);
        }
    }
}

/// Tells whether an atlas, if there is one, holds a place for the key's
/// sprite already, so that the sprite need not be loaded again.
pub fn is_exists(entry: Option<&ImageValue>, key: &CacheKey) -> (found: bool)
    ensures
        found == is_placed(places_of(entry), *key),
{
    match entry {
        Some(value) => value.meta(key.get_meta_key()).is_some(),
        None => false,
    }
}

/// Picks from requested keys those whose sprites the atlas does not hold
/// yet, in the order of the request.
pub fn unresolved(entry: Option<&ImageValue>, keys: &Vec<CacheKey>) -> (rest: Vec<CacheKey>)
    ensures
        rest@ == keys@.filter(|key: CacheKey| !is_placed(places_of(entry), key)),
{
    let ghost wanted = |key: CacheKey| !is_placed(places_of(entry), key);
    let mut rest: Vec<CacheKey> = Vec::new();
    let mut i: usize = 0;
    proof {
        reveal(Seq::filter);
        assert(keys@.take(0) == Seq::<CacheKey>::empty());
    }
    while i < keys.len()
        invariant
            i <= keys@.len(),
            wanted == |key: CacheKey| !is_placed(places_of(entry), key),
            rest@ == keys@.take(i as int).filter(wanted),
        decreases keys@.len() - i,
    {
        let key: CacheKey = keys[i];
        proof {
            reveal(Seq::filter);
            assert(keys@.take(i + 1).drop_last() == keys@.take(i as int));
            assert(keys@.take(i + 1).last() == key);
        }
        if !is_exists(entry, &key) {
            rest.push(key);
        }
        i += 1;
    }
    proof {
        assert(keys@.take(i as int) == keys@);
    }
    rest
}

} // verus!
