//! A small cache of the fee rates of recent blocks, so that a tip that advances by a few blocks
//! costs only that many block downloads.
use std::collections::VecDeque;
use vstd::prelude::*;

use crate::types::{BlockHash, FeeRate};

verus! {

/// Number of recent blocks to look back for per-target fee rate estimation.
pub const FEE_RATE_LOOKBACK_BLOCKS: usize = 6;

/// Capacity of the per-block fee-rate cache. Sized at 2x the lookback so a tip
/// advance of up to `FEE_RATE_LOOKBACK_BLOCKS` only ever incurs that many
/// fresh block round trips, regardless of how many cycles ran before.
pub const BLOCK_FEE_CACHE_CAPACITY: usize = FEE_RATE_LOOKBACK_BLOCKS * 2;

/// What the cache holds, the oldest entry first.
pub type Entries = Seq<(BlockHash, FeeRate)>;

/// The rate that the entries give for a hash: that of the oldest entry for it.
pub open spec fn cached_rate(entries: Entries, hash: BlockHash) -> Option<FeeRate>
    decreases entries.len(),
{
    if entries.len() == 0 {
        None
    } else if entries[0].0 == hash {
        Some(entries[0].1)
    } else {
        cached_rate(entries.drop_first(), hash)
    }
}

/// The entries after one more has come in: at capacity, the oldest makes room.
pub open spec fn with_entry(entries: Entries, hash: BlockHash, rate: FeeRate) -> Entries {
    if entries.len() == BLOCK_FEE_CACHE_CAPACITY {
        entries.drop_first().push((hash, rate))
    } else {
        entries.push((hash, rate))
    }
}

/// Whether no hash has two entries.
pub open spec fn distinct_hashes(entries: Entries) -> bool {
    forall|i: int, j: int|
        0 <= i < entries.len() && 0 <= j < entries.len() && i != j ==> entries[i].0 != entries[j].0
}

/// Per-block fee rates, first in, first out, bounded by [`BLOCK_FEE_CACHE_CAPACITY`]; eviction
/// follows insertion order, which matches the walk from the tip backward.
pub struct BlockFeeCache {
    entries: VecDeque<(BlockHash, FeeRate)>,
}

impl View for BlockFeeCache {
    type V = Entries;

    closed spec fn view(&self) -> Entries {
        self.entries@
    }
}

impl BlockFeeCache {
    #[verifier::type_invariant]
    spec fn bounded(self) -> bool {
        self.entries@.len() <= BLOCK_FEE_CACHE_CAPACITY
    }

    /// An empty cache.
    pub fn new() -> (cache: BlockFeeCache)
        ensures
            cache@ == Entries::empty(),
    {
        BlockFeeCache { entries: VecDeque::new() }
    }

    /// The number of entries, which never exceeds the capacity.
    pub fn len(&self) -> (len: usize)
        ensures
            len == self@.len(),
            len <= BLOCK_FEE_CACHE_CAPACITY,
    {
        proof {
            use_type_invariant(self);
        }
        self.entries.len()
    }

    /// The rate that the cache holds for a block.
    pub fn lookup(&self, hash: &BlockHash) -> (rate: Option<FeeRate>)
        ensures
            rate == cached_rate(self@, *hash),
    {
        let mut i: usize = 0;
        assert(self@.skip(0) =~= self@);
        while i < self.entries.len()
            invariant
                i <= self.entries@.len(),
                self@ == self.entries@,
                cached_rate(self@, *hash) == cached_rate(self@.skip(i as int), *hash),
            decreases self.entries@.len() - i,
        {
            let entry: &(BlockHash, FeeRate) = &self.entries[i];
            assert(self@.skip(i as int)[0] == *entry);
            if entry.0.same(hash) {
                return Some(entry.1);
            }
            assert(self@.skip(i as int).drop_first() =~= self@.skip(i + 1));
            i += 1;
        }
        None
    }

    /// Add the rate of a block, evicting the oldest entry where the cache is full.
    pub fn insert(&mut self, hash: BlockHash, rate: FeeRate)
        ensures
            final(self)@ == with_entry(old(self)@, hash, rate),
            final(self)@.len() <= BLOCK_FEE_CACHE_CAPACITY,
    {
        proof {
            use_type_invariant(&*self);
        }
        let mut entries: VecDeque<(BlockHash, FeeRate)> = VecDeque::new();
        std::mem::swap(&mut entries, &mut self.entries);
        if entries.len() == BLOCK_FEE_CACHE_CAPACITY {
            let _oldest = entries.pop_front();
            assert(entries@ =~= old(self)@.drop_first());
        }
        entries.push_back((hash, rate));
        self.entries = entries;
    }
}

/// A hash has a cached rate exactly where some entry is for it.
pub proof fn cached_iff_held(entries: Entries, hash: BlockHash)
    ensures
        cached_rate(entries, hash) is Some <==> exists|i: int|
            0 <= i < entries.len() && #[trigger] entries[i].0 == hash,
    decreases entries.len(),
{
    if entries.len() > 0 && entries[0].0 != hash {
        let rest = entries.drop_first();
        cached_iff_held(rest, hash);
        if cached_rate(entries, hash) is Some {
            let i = choose|i: int| 0 <= i < rest.len() && #[trigger] rest[i].0 == hash;
            assert(entries[i + 1].0 == hash);
        }
        if exists|i: int| 0 <= i < entries.len() && #[trigger] entries[i].0 == hash {
            let i = choose|i: int| 0 <= i < entries.len() && #[trigger] entries[i].0 == hash;
            assert(rest[i - 1].0 == hash);
        }
    }
}

/// A rate that comes in for an uncached block is what the next lookup of that block gives, and
/// no other block's lookup changes, unless its only entry made room.
pub proof fn lookup_gives_back_the_insertion(entries: Entries, hash: BlockHash, rate: FeeRate)
    requires
        cached_rate(entries, hash) is None,
    ensures
        cached_rate(with_entry(entries, hash, rate), hash) == Some(rate),
        forall|other: BlockHash|
            other != hash && (entries.len() < BLOCK_FEE_CACHE_CAPACITY || (entries.len()
                == BLOCK_FEE_CACHE_CAPACITY && entries[0].0 != other))
                ==> #[trigger] cached_rate(with_entry(entries, hash, rate), other) == cached_rate(
                entries,
                other,
            ),
{
    let kept = if entries.len() == BLOCK_FEE_CACHE_CAPACITY {
        entries.drop_first()
    } else {
        entries
    };
    cached_iff_held(entries, hash);
    cached_iff_held(kept, hash);
    if cached_rate(kept, hash) is Some {
        let i = choose|i: int| 0 <= i < kept.len() && #[trigger] kept[i].0 == hash;
        assert(entries[if entries.len() == BLOCK_FEE_CACHE_CAPACITY {
            i + 1
        } else {
            i
        }].0 == hash);
    }
    lookup_after_push(kept, (hash, rate), hash);
    assert forall|other: BlockHash|
        other != hash && (entries.len() < BLOCK_FEE_CACHE_CAPACITY || (entries.len()
            == BLOCK_FEE_CACHE_CAPACITY && entries[0].0
            != other)) implies #[trigger] cached_rate(with_entry(entries, hash, rate), other)
        == cached_rate(entries, other) by {
        lookup_after_push(kept, (hash, rate), other);
    }
}

/// Looking up in a longer list: the older entries answer first, the new one after them.
proof fn lookup_after_push(entries: Entries, entry: (BlockHash, FeeRate), hash: BlockHash)
    ensures
        cached_rate(entries.push(entry), hash) == match cached_rate(entries, hash) {
            Some(rate) => Some(rate),
            None => if entry.0 == hash {
                Some(entry.1)
            } else {
                None
            },
        },
    decreases entries.len(),
{
    let longer = entries.push(entry);
    if entries.len() == 0 {
        assert(cached_rate(longer.drop_first(), hash) is None);
    } else {
        assert(longer.drop_first() =~= entries.drop_first().push(entry));
        lookup_after_push(entries.drop_first(), entry, hash);
    }
}

/// Adding only uncached blocks keeps one entry per block.
pub proof fn insertion_keeps_hashes_distinct(entries: Entries, hash: BlockHash, rate: FeeRate)
    requires
        distinct_hashes(entries),
        cached_rate(entries, hash) is None,
    ensures
        distinct_hashes(with_entry(entries, hash, rate)),
{
    cached_iff_held(entries, hash);
}

/// The entries after a whole batch has come in, one by one.
pub open spec fn with_batch(entries: Entries, batch: Entries) -> Entries
    decreases batch.len(),
{
    if batch.len() == 0 {
        entries
    } else {
        with_entry(with_batch(entries, batch.drop_last()), batch.last().0, batch.last().1)
    }
}

/// Eviction follows insertion order: whatever comes in, what remains is the newest entries, as
/// many as fit.
pub proof fn the_newest_entries_remain(entries: Entries, batch: Entries)
    requires
        entries.len() <= BLOCK_FEE_CACHE_CAPACITY,
    ensures
        with_batch(entries, batch) == ({
            let all = entries + batch;
            if all.len() <= BLOCK_FEE_CACHE_CAPACITY {
                all
            } else {
                all.skip(all.len() - BLOCK_FEE_CACHE_CAPACITY)
            }
        }),
    decreases batch.len(),
{
    let all = entries + batch;
    if batch.len() == 0 {
        assert(all =~= entries);
    } else {
        the_newest_entries_remain(entries, batch.drop_last());
        let most = entries + batch.drop_last();
        assert(all =~= most.push(batch.last()));
        assert(batch.last() == (batch.last().0, batch.last().1));
        if all.len() > BLOCK_FEE_CACHE_CAPACITY {
            assert(all.skip(all.len() - BLOCK_FEE_CACHE_CAPACITY) =~= with_batch(entries, batch));
        }
    }
}

/// A lookup gives the rate of the oldest entry for the block, and nothing where there is no entry.
pub proof fn lookups_give_the_oldest_entry(
    cache: BlockFeeCache,
    hash: BlockHash,
    rate: Option<FeeRate>,
)
    requires
        call_ensures(BlockFeeCache::lookup, (&cache, &hash), rate),
    ensures
        match rate {
            Some(r) => exists|i: int|
                {
                    &&& 0 <= i < cache@.len()
                    &&& #[trigger] cache@[i] == (hash, r)
                    &&& forall|j: int| 0 <= j < i ==> (#[trigger] cache@[j]).0 != hash
                },
            None => forall|i: int| 0 <= i < cache@.len() ==> (#[trigger] cache@[i]).0 != hash,
        },
{
    oldest_entry(cache@, hash);
}

proof fn oldest_entry(entries: Entries, hash: BlockHash)
    ensures
        match cached_rate(entries, hash) {
            Some(r) => exists|i: int|
                {
                    &&& 0 <= i < entries.len()
                    &&& #[trigger] entries[i] == (hash, r)
                    &&& forall|j: int| 0 <= j < i ==> (#[trigger] entries[j]).0 != hash
                },
            None => forall|i: int| 0 <= i < entries.len() ==> (#[trigger] entries[i]).0 != hash,
        },
    decreases entries.len(),
{
    if entries.len() > 0 {
        if entries[0].0 == hash {
            assert(entries[0] == (hash, entries[0].1));
        } else {
            let rest = entries.drop_first();
            oldest_entry(rest, hash);
            assert forall|k: int| 0 < k < entries.len() implies #[trigger] entries[k] == rest[k
                - 1] by {}
            if let Some(r) = cached_rate(rest, hash) {
                let i = choose|i: int|
                    {
                        &&& 0 <= i < rest.len()
                        &&& #[trigger] rest[i] == (hash, r)
                        &&& forall|j: int| 0 <= j < i ==> (#[trigger] rest[j]).0 != hash
                    };
                assert(entries[i + 1] == (hash, r));
                assert forall|j: int| 0 <= j < i + 1 implies (#[trigger] entries[j]).0 != hash by {
                    if j > 0 {
                        assert(entries[j] == rest[j - 1]);
                    }
                }
            } else {
                assert forall|k: int| 0 <= k < entries.len() implies (#[trigger] entries[k]).0
                    != hash by {
                    if k > 0 {
                        assert(entries[k] == rest[k - 1]);
                    }
                }
            }
        }
    }
}

/// An insertion puts its entry last. All the others stay, in order, but for the oldest of twelve.
pub proof fn insertions_come_last(cache: &mut BlockFeeCache, hash: BlockHash, rate: FeeRate)
    requires
        call_ensures(BlockFeeCache::insert, (cache, hash, rate), ()),
        old(cache)@.len() <= 12,
    ensures
        final(cache)@.len() == if old(cache)@.len() < 12 {
            old(cache)@.len() + 1
        } else {
            12
        },
        final(cache)@.last() == (hash, rate),
        forall|i: int|
            0 <= i < final(cache)@.len() - 1 ==> #[trigger] final(cache)@[i] == old(cache)@[i
                + old(cache)@.len() + 1 - final(cache)@.len()],
{
}

/// What was inserted for a block that was not cached is what the next lookup of that block gives,
/// and every other block's lookup gives what it gave before, unless its entry was the oldest of
/// twelve. A new cache gives nothing.
pub proof fn lookups_see_insertions(
    cache: &mut BlockFeeCache,
    hash: BlockHash,
    rate: FeeRate,
    other: BlockHash,
    before: Option<FeeRate>,
    after: Option<FeeRate>,
    other_before: Option<FeeRate>,
    other_after: Option<FeeRate>,
    fresh: BlockFeeCache,
    of_fresh: Option<FeeRate>,
)
    requires
        call_ensures(BlockFeeCache::lookup, (&*old(cache), &hash), before),
        call_ensures(BlockFeeCache::lookup, (&*old(cache), &other), other_before),
        call_ensures(BlockFeeCache::insert, (cache, hash, rate), ()),
        call_ensures(BlockFeeCache::lookup, (&*final(cache), &hash), after),
        call_ensures(BlockFeeCache::lookup, (&*final(cache), &other), other_after),
        old(cache)@.len() <= 12,
        before is None,
        call_ensures(BlockFeeCache::new, (), fresh),
        call_ensures(BlockFeeCache::lookup, (&fresh, &hash), of_fresh),
    ensures
        after == Some(rate),
        other != hash && (old(cache)@.len() < 12 || old(cache)@[0].0 != other) ==> other_after
            == other_before,
        of_fresh is None,
{
    lookup_gives_back_the_insertion(old(cache)@, hash, rate);
}

} // verus!
