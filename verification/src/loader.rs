//! The decisions of the loader that turns requested keys into placed
//! sprites.
//!
//! A batch of requests is first spread out into one request a sprite,
//! cleared of repeats, and cut into runs of requests for the same atlas.
//! Each sprite is then fetched in steps: the offset table of its archive
//! file, the first bytes of the image, the body if it is compressed. The
//! caller reads the files; what to read next is decided here.

use crate::image::{ImageData, ImageView};
use crate::index::{ImageSpan, IndexCache};
use crate::key::{CacheDataKey, CacheKey};
use crate::resolver::{file_stem, get_file_name, kind_of, ArchiveFile, FileKind, KIND_DATA};
use itertools::Itertools;
use vstd::prelude::*;

verus! {

/// The data key inside a key's 64 bits.
pub open spec fn stream_of(long_key: u64) -> u32 {
    (long_key >> 42) as u32
}

/// The requests that one key stands for: as many as its count says, for
/// the sprite that the key names and the sprites that follow it, each as a
/// request for one sprite.
pub open spec fn expansion(key: CacheKey) -> Seq<u64> {
    Seq::new(key.data_count() as nat, |i: int| (key.single() + i) as u64)
}

/// The requests that a batch of keys stands for, in the order of the batch.
pub open spec fn expanded(keys: Seq<CacheKey>) -> Seq<u64>
    decreases keys.len(),
{
    if keys.len() == 0 {
        Seq::empty()
    } else {
        expanded(keys.drop_last()) + expansion(keys.last())
    }
}

/// A sequence without its repeats: of equal items the first stays, and what
/// stays keeps its order.
pub open spec fn first_occurrences(items: Seq<u64>) -> Seq<u64>
    decreases items.len(),
{
    if items.len() == 0 {
        items
    } else if items.drop_last().contains(items.last()) {
        first_occurrences(items.drop_last())
    } else {
        first_occurrences(items.drop_last()).push(items.last())
    }
}

/// What is left of a sequence without its repeats holds every item of the
/// sequence, each once, and nothing else.
pub proof fn lemma_first_occurrences(items: Seq<u64>)
    ensures
        first_occurrences(items).no_duplicates(),
        forall|item: u64| #[trigger] first_occurrences(items).contains(item) <==> items.contains(item),
    decreases items.len(),
{
    if items.len() > 0 {
        let init = items.drop_last();
        let last = items.last();
        lemma_first_occurrences(init);
        let kept = first_occurrences(init);
        assert forall|item: u64| #[trigger]
            first_occurrences(items).contains(item) <==> items.contains(item) by {
            if items.contains(item) {
                let i = choose|i: int| 0 <= i < items.len() && items[i] == item;
                if i < init.len() {
                    assert(init[i] == item);
                    assert(kept.contains(item));
                }
            }
            if kept.contains(item) {
                let i = choose|i: int| 0 <= i < init.len() && init[i] == item;
                assert(items[i] == item);
            }
            if init.contains(last) {
                assert(first_occurrences(items) == kept);
            } else {
                assert(first_occurrences(items) == kept.push(last));
                assert(kept.push(last)[kept.len() as int] == last);
                if kept.push(last).contains(item) && item != last {
                    let i = choose|i: int| 0 <= i < kept.push(last).len() && kept.push(last)[i] == item;
                    assert(kept[i] == item);
                }
                if kept.contains(item) {
                    let i = choose|i: int| 0 <= i < kept.len() && kept[i] == item;
                    assert(kept.push(last)[i] == item);
                }
            }
            assert(items[items.len() - 1] == last);
        }
        if !init.contains(last) {
            let all = kept.push(last);
            assert(first_occurrences(items) == all);
            assert forall|i: int, j: int| 0 <= i < all.len() && 0 <= j < all.len() && i != j implies all[i]
                != all[j] by {
                if i == kept.len() {
                    assert(kept[j] == all[j]);
                    assert(kept.contains(all[j]));
                } else if j == kept.len() {
                    assert(kept[i] == all[i]);
                    assert(kept.contains(all[i]));
                } else {
                    assert(kept[i] == all[i] && kept[j] == all[j]);
                }
            }
        }
    }
}

/// The items of some groups, one group after the other.
pub open spec fn joined(groups: Seq<(u32, Seq<u64>)>) -> Seq<u64>
    decreases groups.len(),
{
    if groups.len() == 0 {
        Seq::empty()
    } else {
        joined(groups.drop_last()) + groups.last().1
    }
}

/// Whether `groups` cuts `items` into its runs of equal data key: the groups
/// in order hold the items in order, none is empty, each holds keys of one
/// data key, which it is headed by, and no two neighbours share a data key.
pub open spec fn is_runs_of(groups: Seq<(u32, Seq<u64>)>, items: Seq<u64>) -> bool {
    &&& joined(groups) == items
    &&& forall|i: int| 0 <= i < groups.len() ==> (#[trigger] groups[i]).1.len() > 0
    &&& forall|i: int, j: int|
        0 <= i < groups.len() && 0 <= j < groups[i].1.len() ==> stream_of(
            #[trigger] groups[i].1[j],
        ) == groups[i].0
    &&& forall|i: int| 0 < i < groups.len() ==> groups[i - 1].0 != (#[trigger] groups[i]).0
}

/// Runs of a sequence without their last are the runs of the sequence
/// without the items of that run.
proof fn lemma_runs_without_last(groups: Seq<(u32, Seq<u64>)>, items: Seq<u64>)
    requires
        is_runs_of(groups, items),
        groups.len() > 0,
    ensures
        groups.last().1.len() <= items.len(),
        is_runs_of(groups.drop_last(), items.take(items.len() - groups.last().1.len())),
        items.skip(items.len() - groups.last().1.len()) == groups.last().1,
{
    let init = groups.drop_last();
    let rest = items.take(items.len() - groups.last().1.len());
    assert(joined(groups) == joined(init) + groups.last().1);
    assert(joined(init) == rest);
    assert forall|i: int| 0 <= i < init.len() implies (#[trigger] init[i]).1.len() > 0 by {
        assert(init[i] == groups[i]);
    }
    assert forall|i: int, j: int| 0 <= i < init.len() && 0 <= j < init[i].1.len() implies stream_of(
        #[trigger] init[i].1[j],
    ) == init[i].0 by {
        assert(init[i] == groups[i]);
    }
    assert forall|i: int| 0 < i < init.len() implies init[i - 1].0 != (#[trigger] init[i]).0 by {
        assert(init[i] == groups[i]);
        assert(init[i - 1] == groups[i - 1]);
    }
}

/// A sequence has one way only of being cut into its runs of equal data key.
pub proof fn lemma_runs_are_unique(a: Seq<(u32, Seq<u64>)>, b: Seq<(u32, Seq<u64>)>, items: Seq<u64>)
    requires
        is_runs_of(a, items),
        is_runs_of(b, items),
    ensures
        a == b,
    decreases a.len(),
{
    if a.len() == 0 {
        if b.len() > 0 {
            lemma_runs_without_last(b, items);
        }
        assert(a =~= b);
    } else {
        lemma_runs_without_last(a, items);
        if b.len() == 0 {
            assert(joined(b).len() == 0);
        }
        lemma_runs_without_last(b, items);
        let run_a = a.last().1;
        let run_b = b.last().1;
        let n = items.len() as int;
        assert(items[n - 1] == run_a[run_a.len() - 1]);
        assert(items[n - 1] == run_b[run_b.len() - 1]);
        assert(a.last().0 == b.last().0) by {
            assert(stream_of(a[a.len() - 1].1[run_a.len() - 1]) == a[a.len() - 1].0);
            assert(stream_of(b[b.len() - 1].1[run_b.len() - 1]) == b[b.len() - 1].0);
        }
        lemma_longer_run(a, b, items);
        lemma_longer_run(b, a, items);
        assert(run_a == run_b);
        lemma_runs_are_unique(a.drop_last(), b.drop_last(), items.take(n - run_a.len()));
        assert(a == a.drop_last().push(a.last()));
        assert(b == b.drop_last().push(b.last()));
        assert(a.last() == b.last());
    }
}

/// Of two ways of cutting a sequence into runs, neither has a shorter last
/// run than the other.
proof fn lemma_longer_run(a: Seq<(u32, Seq<u64>)>, b: Seq<(u32, Seq<u64>)>, items: Seq<u64>)
    requires
        is_runs_of(a, items),
        is_runs_of(b, items),
        a.len() > 0,
        b.len() > 0,
        a.last().0 == b.last().0,
    ensures
        a.last().1.len() >= b.last().1.len(),
{
    if a.last().1.len() < b.last().1.len() {
        lemma_runs_without_last(a, items);
        lemma_runs_without_last(b, items);
        let n = items.len() as int;
        let run_a = a.last().1;
        let run_b = b.last().1;
        let init = a.drop_last();
        let rest = items.take(n - run_a.len());
        // the item just before the last run of `a`
        let at = n - run_a.len() - 1;
        assert(rest.len() > 0);
        if init.len() == 0 {
            assert(joined(init).len() == 0);
        }
        lemma_runs_without_last(init, rest);
        let before = init.last().1;
        assert(rest[at] == before[before.len() - 1]);
        assert(stream_of(init[init.len() - 1].1[before.len() - 1]) == init[init.len() - 1].0);
        assert(init[init.len() - 1] == a[a.len() - 2]);
        assert(a[a.len() - 2].0 != a[a.len() - 1].0);
        // the same item lies in the last run of `b`
        let k = at - (n - run_b.len());
        assert(items[at] == run_b[k]);
        assert(stream_of(b[b.len() - 1].1[k]) == b[b.len() - 1].0);
    }
}

/// The requests for sprites of one atlas that stood side by side in a batch.
#[derive(Debug, Clone, PartialEq, Eq)]
pub struct KeyGroup {
    pub data_key: CacheDataKey,
    pub keys: Vec<CacheKey>,
}

impl View for KeyGroup {
    type V = (u32, Seq<u64>);

    open spec fn view(&self) -> (u32, Seq<u64>) {
        (self.data_key, self.keys@.map_values(|key: CacheKey| key.long_key))
    }
}

/// Calls `itertools::Itertools::unique` on the items and collects what it
/// yields.
///
/// Trusted: that it yields each item at its first occurrence and at no
/// other, in the order in which they come.
#[verifier::external_body]
fn unique_keys(items: Vec<u64>) -> (kept: Vec<u64>)
    ensures
        kept@ == first_occurrences(items@),
{
    items.into_iter().unique().collect()
}

/// Calls `itertools::Itertools::group_by` on the items, with the data key
/// as the key of a group, and collects each group that it yields.
///
/// Trusted: that it yields the runs of neighbouring items with equal key,
/// each with its key, in the order in which they come.
#[verifier::external_body]
fn runs_by_stream(items: Vec<u64>) -> (groups: Vec<(u32, Vec<u64>)>)
    ensures
        is_runs_of(groups@.map_values(|group: (u32, Vec<u64>)| (group.0, group.1@)), items@),
{
    let runs = items.into_iter().group_by(|long_key| CacheKey::new(*long_key).get_data_key());
    runs.into_iter().map(|(data_key, group)| (data_key, group.collect())).collect()
}

fn expand_keys(keys: &[CacheKey]) -> (requests: Vec<u64>)
    ensures
        requests@ == expanded(keys@),
{
    let mut requests: Vec<u64> = Vec::new();
    let mut i: usize = 0;
    while i < keys.len()
        invariant
            i <= keys@.len(),
            requests@ == expanded(keys@.take(i as int)),
        decreases keys@.len() - i,
    {
        let key: CacheKey = keys[i];
        let count: u32 = key.get_data_count();
        let ghost done = requests@;
        let mut n: u32 = 0;
        while n < count
            invariant
                n <= count,
                count == key.data_count(),
                requests@ == done + expansion(key).take(n as int),
            decreases count - n,
        {
            let request: u64 = key.as_inc_index(n).get_long_key();
            proof {
                assert(expansion(key).take(n + 1) == expansion(key).take(n as int).push(request));
            }
            requests.push(request);
            n += 1;
        }
        proof {
            assert(expansion(key).take(n as int) == expansion(key));
            assert(keys@.take(i + 1).drop_last() == keys@.take(i as int));
            assert(keys@.take(i + 1).last() == key);
        }
        i += 1;
    }
    proof {
        assert(keys@.take(i as int) == keys@);
    }
    requests
}

fn to_keys(long_keys: &Vec<u64>) -> (keys: Vec<CacheKey>)
    ensures
        keys@.map_values(|key: CacheKey| key.long_key) == long_keys@,
{
    let mut keys: Vec<CacheKey> = Vec::new();
    let mut i: usize = 0;
    while i < long_keys.len()
        invariant
            i <= long_keys@.len(),
            keys@.len() == i,
            forall|j: int| 0 <= j < i ==> (#[trigger] keys@[j]).long_key == long_keys@[j],
        decreases long_keys@.len() - i,
    {
        keys.push(CacheKey::new(long_keys[i]));
        i += 1;
    }
    keys
}

/// Orders a batch of requested keys for loading.
///
/// Each key is spread out into as many requests as its count says, one for
/// each sprite from the key's own on. Of equal requests only the first
/// stays. What is left is cut into runs of requests for the same atlas; an
/// atlas that is requested in two places of the batch gets two groups.
pub fn group_requests(keys: &[CacheKey]) -> (groups: Vec<KeyGroup>)
    ensures
        is_runs_of(
            groups@.map_values(|group: KeyGroup| group@),
            first_occurrences(expanded(keys@)),
        ),
{
    let requests = expand_keys(keys);
    let kept = unique_keys(requests);
    let runs = runs_by_stream(kept);
    let mut groups: Vec<KeyGroup> = Vec::new();
    let mut i: usize = 0;
    while i < runs.len()
        invariant
            i <= runs@.len(),
            groups@.len() == i,
            forall|j: int| 0 <= j < i ==> (#[trigger] groups@[j])@ == (runs@[j].0, runs@[j].1@),
        decreases runs@.len() - i,
    {
        let data_key: u32 = runs[i].0;
        let keys = to_keys(&runs[i].1);
        groups.push(KeyGroup { data_key, keys });
        i += 1;
    }
    proof {
        assert(groups@.map_values(|group: KeyGroup| group@) == runs@.map_values(
            |group: (u32, Vec<u64>)| (group.0, group.1@),
        ));
    }
    groups
}

/// The image that is placed for a sprite once its loading is over: the
/// image that was decoded, or, where none could be, the empty image.
pub fn loaded_or_empty(decoded: Option<ImageData>) -> (image: ImageData)
    ensures
        image@ == match decoded {
            Some(decoded) => decoded@,
            None => ImageView { width: 0, height: 0, offset_x: 0, offset_y: 0, bytes: Seq::empty() },
        },
{
    match decoded {
        Some(decoded) => decoded,
        None => ImageData::default(),
    }
}

/// What the loader does next for one requested sprite.
#[derive(Debug, Clone, PartialEq, Eq)]
pub enum LoadStep {
    /// No base name is registered for the key's file id: there is nothing to
    /// load.
    UnknownFile,
    /// The key's data type selects no file: there is nothing to load.
    UnknownKind,
    /// The offset table of the key's archive file has not been read yet.
    /// This file is to be read and handed to the index cache.
    ReadIndex(ArchiveFile),
    /// The table does not list the sprite: there is nothing to load.
    NoEntry,
    /// The image is to be read from this part of this data file.
    ReadImage(ArchiveFile, ImageSpan),
}

/// Decides the next step for a requested sprite, from the base name
/// registered for its file id, if there is one, and from the offset tables
/// read so far.
pub fn next_step(index: &IndexCache, key: &CacheKey, name: Option<&str>) -> (step: LoadStep)
    ensures
        name is None ==> step is UnknownFile,
        name is Some && !index@.contains_key(key.idx_key()) ==> match kind_of(key.data_type()) {
            Some(kind) => step matches LoadStep::ReadIndex(file) && file.kind == kind && file.name@
                == file_stem(name->0@, key.file_number()),
            None => step is UnknownKind,
        },
        name is Some && index@.contains_key(key.idx_key()) ==> match index.span_of(*key) {
            Some(span) => step matches LoadStep::ReadImage(file, at) && at == span && file.kind
                == FileKind::Data && file.name@ == file_stem(name->0@, key.file_number()),
            None => step is NoEntry,
        },
{
    let name = match name {
        Some(name) => name,
        None => {
            return LoadStep::UnknownFile;
        },
    };
    if !index.contains(key) {
        return match get_file_name(name, key.get_file_number(), key.get_data_type()) {
            Some(file) => LoadStep::ReadIndex(file),
            None => LoadStep::UnknownKind,
        };
    }
    match index.locate(key) {
        Some(span) => match get_file_name(name, key.get_file_number(), KIND_DATA) {
            Some(file) => LoadStep::ReadImage(file, span),
            None => LoadStep::NoEntry,
        },
        None => LoadStep::NoEntry,
    }
}

} // verus!
