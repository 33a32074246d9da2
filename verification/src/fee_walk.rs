//! What estimation cycles do to the cache of block fee rates, and what they cost.
use vstd::prelude::*;

use crate::fee_cache::{
    cached_iff_held, cached_rate, distinct_hashes, insertion_keeps_hashes_distinct, with_entry,
    Entries, BLOCK_FEE_CACHE_CAPACITY, FEE_RATE_LOOKBACK_BLOCKS,
};
use crate::fee_select::MIN_FEERATE_SAT_PER_KWU;
use crate::types::{BlockHash, Error, FeeRate};

verus! {

/// The outcome of sampling some blocks.
pub struct Sampled {
    /// The rates, in sampling order.
    pub rates: Seq<FeeRate>,
    /// The cache afterwards.
    pub entries: Entries,
    /// The blocks that had to be fetched, in order.
    pub fetched: Seq<BlockHash>,
    /// The error of a fetched block that cannot be rated, which ends the sampling.
    pub refused: Option<Error>,
}

/// One more block sampled: a cached rate is taken as it is, and the rate of a fetched block enters
/// the cache. A fetched block that cannot be rated ends the sampling.
pub open spec fn sample_one(
    so_far: Sampled,
    hash: BlockHash,
    rated: spec_fn(BlockHash) -> Result<FeeRate, Error>,
) -> Sampled {
    if so_far.refused is Some {
        so_far
    } else {
        match cached_rate(so_far.entries, hash) {
            Some(rate) => Sampled { rates: so_far.rates.push(rate), ..so_far },
            None => match rated(hash) {
                Ok(rate) => Sampled {
                    rates: so_far.rates.push(rate),
                    entries: with_entry(so_far.entries, hash, rate),
                    fetched: so_far.fetched.push(hash),
                    refused: None,
                },
                Err(error) => Sampled {
                    fetched: so_far.fetched.push(hash),
                    refused: Some(error),
                    ..so_far
                },
            },
        }
    }
}

/// The outcome of sampling the blocks of `hashes`, in order, from a given cache, where `rated` is
/// what a fetched block turns out to pay, or why it cannot be rated.
pub open spec fn sample_all(
    entries: Entries,
    hashes: Seq<BlockHash>,
    rated: spec_fn(BlockHash) -> Result<FeeRate, Error>,
) -> Sampled
    decreases hashes.len(),
{
    if hashes.len() == 0 {
        Sampled { rates: Seq::empty(), entries, fetched: Seq::empty(), refused: None }
    } else {
        sample_one(sample_all(entries, hashes.drop_last(), rated), hashes.last(), rated)
    }
}

/// The blocks that one cycle samples: from the tip backward, as many as the lookback says.
pub open spec fn window(chain: spec_fn(int) -> BlockHash, tip: int) -> Seq<BlockHash> {
    Seq::new(FEE_RATE_LOOKBACK_BLOCKS as nat, |i: int| chain(tip - i))
}

/// The result of a cycle that sampled as much: all its rates, or the error that ended it.
pub open spec fn sampled_result(sampled: Sampled) -> Result<Seq<FeeRate>, Error> {
    match sampled.refused {
        None => Ok(sampled.rates),
        Some(error) => Err(error),
    }
}

/// The rates of some blocks, each as it was fetched, or the error of the first that cannot be
/// rated.
pub open spec fn fetched_rates(
    hashes: Seq<BlockHash>,
    rated: spec_fn(BlockHash) -> Result<FeeRate, Error>,
) -> Result<Seq<FeeRate>, Error>
    decreases hashes.len(),
{
    if hashes.len() == 0 {
        Ok(Seq::empty())
    } else {
        match fetched_rates(hashes.drop_last(), rated) {
            Ok(rates) => match rated(hashes.last()) {
                Ok(rate) => Ok(rates.push(rate)),
                Err(error) => Err(error),
            },
            Err(error) => Err(error),
        }
    }
}

/// Whether each entry holds the rate that its block has.
pub open spec fn faithful(
    entries: Entries,
    rated: spec_fn(BlockHash) -> Result<FeeRate, Error>,
) -> bool {
    forall|i: int|
        0 <= i < entries.len() ==> rated((#[trigger] entries[i]).0) == Ok::<FeeRate, Error>(
            entries[i].1,
        )
}

/// The cache changes nothing but the cost: from a faithful cache, a cycle gives the very rates
/// that fetching every block would give, or the very error; and the cache stays faithful, whatever
/// blocks are sampled, so also over a reorganization.
pub proof fn caching_is_transparent(
    entries: Entries,
    hashes: Seq<BlockHash>,
    rated: spec_fn(BlockHash) -> Result<FeeRate, Error>,
)
    requires
        faithful(entries, rated),
    ensures
        sampled_result(sample_all(entries, hashes, rated)) == fetched_rates(hashes, rated),
        faithful(sample_all(entries, hashes, rated).entries, rated),
    decreases hashes.len(),
{
    if hashes.len() > 0 {
        let before = sample_all(entries, hashes.drop_last(), rated);
        caching_is_transparent(entries, hashes.drop_last(), rated);
        faithful_lookup(before.entries, hashes.last(), rated);
    }
}

/// Two sources on the same chain give the same result, whatever each of them has cached before: of
/// the blocks to sample, both take the same rates, or both fail alike. The empty cache is one that
/// can be compared with.
pub proof fn results_do_not_depend_on_the_cache(
    one: Entries,
    other: Entries,
    hashes: Seq<BlockHash>,
    rated: spec_fn(BlockHash) -> Result<FeeRate, Error>,
)
    requires
        faithful(one, rated),
        faithful(other, rated),
    ensures
        sampled_result(sample_all(one, hashes, rated)) == sampled_result(
            sample_all(other, hashes, rated),
        ),
        faithful(Entries::empty(), rated),
{
    caching_is_transparent(one, hashes, rated);
    caching_is_transparent(other, hashes, rated);
}

proof fn faithful_lookup(
    entries: Entries,
    hash: BlockHash,
    rated: spec_fn(BlockHash) -> Result<FeeRate, Error>,
)
    requires
        faithful(entries, rated),
    ensures
        cached_rate(entries, hash) matches Some(rate) ==> rated(hash) == Ok::<FeeRate, Error>(rate),
    decreases entries.len(),
{
    if entries.len() > 0 {
        assert(rated(entries[0].0) == Ok::<FeeRate, Error>(entries[0].1));
        let rest = entries.drop_first();
        assert forall|i: int| 0 <= i < rest.len() implies rated((#[trigger] rest[i]).0) == Ok::<
            FeeRate,
            Error,
        >(rest[i].1) by {
            assert(rest[i] == entries[i + 1]);
        }
        faithful_lookup(rest, hash, rated);
    }
}

/// Whether a cache is within its capacity, has no block twice, and has no rate below the floor.
pub open spec fn sound(entries: Entries) -> bool {
    &&& entries.len() <= BLOCK_FEE_CACHE_CAPACITY
    &&& distinct_hashes(entries)
    &&& forall|i: int|
        0 <= i < entries.len() ==> (#[trigger] entries[i]).1.sat_per_kwu >= MIN_FEERATE_SAT_PER_KWU
}

/// In every state that sampling leads to, the cache is sound: the empty cache is, and sampling any
/// blocks, so also over a reorganization and however far a cycle comes, keeps it so, where no
/// fetched block is rated below the floor; and then no sampled rate lies below it either.
pub proof fn caches_stay_sound(
    entries: Entries,
    hashes: Seq<BlockHash>,
    rated: spec_fn(BlockHash) -> Result<FeeRate, Error>,
)
    requires
        sound(entries),
        forall|hash: BlockHash|
            (#[trigger] rated(hash)) matches Ok(rate) ==> rate.sat_per_kwu
                >= MIN_FEERATE_SAT_PER_KWU,
    ensures
        sound(Entries::empty()),
        sound(sample_all(entries, hashes, rated).entries),
        forall|i: int|
            0 <= i < sample_all(entries, hashes, rated).rates.len() ==> (#[trigger] sample_all(
                entries,
                hashes,
                rated,
            ).rates[i]).sat_per_kwu >= MIN_FEERATE_SAT_PER_KWU,
    decreases hashes.len(),
{
    if hashes.len() > 0 {
        caches_stay_sound(entries, hashes.drop_last(), rated);
        let before = sample_all(entries, hashes.drop_last(), rated);
        let hash = hashes.last();
        sound_lookup(before.entries, hash);
        if before.refused is None && cached_rate(before.entries, hash) is None {
            if let Ok(rate) = rated(hash) {
                insertion_keeps_hashes_distinct(before.entries, hash, rate);
            }
        }
    }
}

proof fn sound_lookup(entries: Entries, hash: BlockHash)
    requires
        sound(entries),
    ensures
        cached_rate(entries, hash) matches Some(rate) ==> rate.sat_per_kwu
            >= MIN_FEERATE_SAT_PER_KWU,
    decreases entries.len(),
{
    if entries.len() > 0 {
        assert(entries[0].1.sat_per_kwu >= MIN_FEERATE_SAT_PER_KWU);
        sound_lookup(entries.drop_first(), hash);
    }
}

/// Whether the chain has different hashes at all heights from `from` to `to`.
pub open spec fn distinct_heights(chain: spec_fn(int) -> BlockHash, from: int, to: int) -> bool {
    forall|a: int, b: int|
        from <= a <= to && from <= b <= to && a != b ==> #[trigger] chain(a) != #[trigger] chain(b)
}

/// Whether a block is one of the chain, at a height from `from` to `to`.
pub open spec fn lies_between(
    hash: BlockHash,
    chain: spec_fn(int) -> BlockHash,
    from: int,
    to: int,
) -> bool {
    exists|height: int| from <= height <= to && hash == #[trigger] chain(height)
}

/// Different blocks between two heights are no more than there are heights.
proof fn blocks_fit_their_heights(
    hashes: Seq<BlockHash>,
    chain: spec_fn(int) -> BlockHash,
    from: int,
    to: int,
)
    requires
        from <= to + 1,
        hashes.no_duplicates(),
        forall|i: int|
            0 <= i < hashes.len() ==> lies_between(#[trigger] hashes[i], chain, from, to),
    ensures
        hashes.len() <= to - from + 1,
    decreases to - from + 1,
{
    if hashes.len() > 0 {
        assert(lies_between(hashes[0], chain, from, to));
        let rest = if hashes.contains(chain(to)) {
            let k = hashes.index_of(chain(to));
            hashes.remove(k)
        } else {
            hashes
        };
        assert forall|i: int| 0 <= i < rest.len() implies lies_between(
            #[trigger] rest[i],
            chain,
            from,
            to - 1,
        ) by {
            let k = if hashes.contains(chain(to)) {
                hashes.index_of(chain(to))
            } else {
                hashes.len() as int
            };
            let at = if i < k {
                i
            } else {
                i + 1
            };
            assert(rest[i] == hashes[at]);
            assert(lies_between(hashes[at], chain, from, to));
            let height = choose|height: int|
                from <= height <= to && hashes[at] == #[trigger] chain(height);
            assert(height != to);
        }
        blocks_fit_their_heights(rest, chain, from, to - 1);
    }
}

/// The state that cycles leave the cache in while they follow `chain` and their tip never falls: no
/// block twice, no block of the chain above the tip (up to `top`), and whatever came in after a
/// block of the window lies no deeper below that block than a window reaches.
pub open spec fn regular(
    entries: Entries,
    chain: spec_fn(int) -> BlockHash,
    tip: int,
    top: int,
) -> bool {
    &&& entries.len() <= BLOCK_FEE_CACHE_CAPACITY
    &&& distinct_hashes(entries)
    &&& forall|i: int, height: int|
        0 <= i < entries.len() && tip < height <= top ==> (#[trigger] entries[i]).0
            != #[trigger] chain(height)
    &&& forall|i: int, j: int, height: int|
        #![trigger entries[i], entries[j], chain(height)]
        0 <= i < j < entries.len() && in_window(tip, height) && entries[i].0 == chain(height)
            ==> lies_between(entries[j].0, chain, height - FEE_RATE_LOOKBACK_BLOCKS + 1, tip)
}

/// Whether a height belongs to the window at `tip`.
pub open spec fn in_window(tip: int, height: int) -> bool {
    tip - FEE_RATE_LOOKBACK_BLOCKS < height <= tip
}

/// Whether a cache, empty or not, holds no block of the chain from the window at `tip` up to `top`.
pub open spec fn unrelated(
    entries: Entries,
    chain: spec_fn(int) -> BlockHash,
    tip: int,
    top: int,
) -> bool {
    &&& entries.len() <= BLOCK_FEE_CACHE_CAPACITY
    &&& distinct_hashes(entries)
    &&& forall|i: int, height: int|
        0 <= i < entries.len() && tip - FEE_RATE_LOOKBACK_BLOCKS < height <= top ==> (
        #[trigger] entries[i]).0 != #[trigger] chain(height)
}

/// A full cache has no block of the window as its oldest entry, so that none is evicted.
proof fn the_oldest_is_not_needed(
    entries: Entries,
    chain: spec_fn(int) -> BlockHash,
    tip: int,
    top: int,
    height: int,
)
    requires
        regular(entries, chain, tip, top),
        entries.len() == BLOCK_FEE_CACHE_CAPACITY,
        in_window(tip, height),
    ensures
        entries[0].0 != chain(height),
{
    if entries[0].0 == chain(height) {
        let hashes = Seq::new(entries.len(), |i: int| entries[i].0);
        let from = height - FEE_RATE_LOOKBACK_BLOCKS + 1;
        assert forall|i: int| 0 <= i < hashes.len() implies lies_between(
            #[trigger] hashes[i],
            chain,
            from,
            tip,
        ) by {
            if i == 0 {
                assert(hashes[0] == chain(height));
            } else {
                assert(entries[0].0 == chain(height));
                assert(lies_between(entries[i].0, chain, from, tip));
            }
        }
        assert(hashes.no_duplicates());
        blocks_fit_their_heights(hashes, chain, from, tip);
    }
}

/// A fetched block of the window keeps the cache regular, evicts no block of the window, and makes
/// no other block cached.
proof fn fetching_keeps_the_window(
    entries: Entries,
    chain: spec_fn(int) -> BlockHash,
    tip: int,
    top: int,
    fetched: int,
    rate: FeeRate,
)
    requires
        regular(entries, chain, tip, top),
        distinct_heights(chain, 0, top),
        FEE_RATE_LOOKBACK_BLOCKS <= tip <= top,
        in_window(tip, fetched),
        cached_rate(entries, chain(fetched)) is None,
    ensures
        regular(with_entry(entries, chain(fetched), rate), chain, tip, top),
        forall|height: int|
            in_window(tip, height) ==> (cached_rate(
                with_entry(entries, chain(fetched), rate),
                #[trigger] chain(height),
            ) is Some <==> height == fetched || cached_rate(entries, chain(height)) is Some),
{
    let after = with_entry(entries, chain(fetched), rate);
    let gone = if entries.len() == BLOCK_FEE_CACHE_CAPACITY {
        1int
    } else {
        0int
    };
    assert(after.len() == entries.len() - gone + 1);
    assert(after[after.len() - 1] == (chain(fetched), rate));
    assert forall|i: int| 0 <= i < after.len() - 1 implies #[trigger] after[i] == entries[i
        + gone] by {}
    insertion_keeps_hashes_distinct(entries, chain(fetched), rate);
    assert forall|i: int, height: int|
        0 <= i < after.len() && tip < height <= top implies (#[trigger] after[i]).0
        != #[trigger] chain(height) by {
        if i < after.len() - 1 {
            assert(after[i] == entries[i + gone]);
        }
    }
    assert forall|i: int, j: int, height: int|
        #![trigger after[i], after[j], chain(height)]
        0 <= i < j < after.len() && in_window(tip, height) && after[i].0 == chain(
            height,
        ) implies lies_between(after[j].0, chain, height - FEE_RATE_LOOKBACK_BLOCKS + 1, tip) by {
        assert(after[i] == entries[i + gone]);
        if j < after.len() - 1 {
            assert(after[j] == entries[j + gone]);
        } else {
            assert(after[j].0 == chain(fetched));
        }
    }
    assert forall|height: int| in_window(tip, height) implies (cached_rate(
        after,
        #[trigger] chain(height),
    ) is Some <==> height == fetched || cached_rate(entries, chain(height)) is Some) by {
        let hash = chain(height);
        cached_iff_held(entries, hash);
        cached_iff_held(after, hash);
        if entries.len() == BLOCK_FEE_CACHE_CAPACITY {
            the_oldest_is_not_needed(entries, chain, tip, top, height);
        }
        if cached_rate(after, hash) is Some && height != fetched {
            let i = choose|i: int| 0 <= i < after.len() && #[trigger] after[i].0 == hash;
            assert(after[i] == entries[i + gone]);
        }
        if cached_rate(entries, hash) is Some {
            let i = choose|i: int| 0 <= i < entries.len() && #[trigger] entries[i].0 == hash;
            assert(after[i - gone] == entries[i]);
        }
        if height == fetched {
            assert(after[after.len() - 1].0 == hash);
        }
    }
}

/// The blocks of some that a cache does not hold, in order.
pub open spec fn uncached(hashes: Seq<BlockHash>, entries: Entries) -> Seq<BlockHash>
    decreases hashes.len(),
{
    if hashes.len() == 0 {
        Seq::empty()
    } else if cached_rate(entries, hashes.last()) is None {
        uncached(hashes.drop_last(), entries).push(hashes.last())
    } else {
        uncached(hashes.drop_last(), entries)
    }
}

/// What a cycle has done to a regular cache by the time that it has gone through the first `k`
/// blocks of its window, or was ended before by a block that cannot be rated.
pub open spec fn cycle_is_regular(
    entries: Entries,
    chain: spec_fn(int) -> BlockHash,
    tip: int,
    top: int,
    rated: spec_fn(BlockHash) -> Result<FeeRate, Error>,
    k: int,
) -> bool {
    let blocks = window(chain, tip).take(k);
    let sampled = sample_all(entries, blocks, rated);
    &&& regular(sampled.entries, chain, tip, top)
    &&& forall|height: int|
        in_window(tip, height) && cached_rate(entries, #[trigger] chain(height)) is Some
            ==> cached_rate(sampled.entries, chain(height)) is Some
    &&& forall|height: int|
        in_window(tip, height) && height <= tip - k && cached_rate(
            entries,
            #[trigger] chain(height),
        ) is None ==> cached_rate(sampled.entries, chain(height)) is None
    &&& sampled.refused is None ==> sampled.fetched == uncached(blocks, entries) && forall|
        height: int,
    |
        tip - k < height <= tip ==> cached_rate(
            sampled.entries,
            #[trigger] chain(height),
        ) is Some
    &&& sampled.fetched.no_duplicates()
    &&& forall|i: int|
        0 <= i < sampled.fetched.len() ==> lies_between(
            #[trigger] sampled.fetched[i],
            chain,
            tip - k + 1,
            tip,
        ) && cached_rate(entries, sampled.fetched[i]) is None
}

/// However far a cycle comes, it leaves a regular cache regular and keeps every block of its window
/// that was cached; it fetches no block that was cached when it began, and none twice; and as long
/// as no block is refused, it fetches exactly those that were not cached.
pub proof fn cycles_keep_the_cache_regular(
    entries: Entries,
    chain: spec_fn(int) -> BlockHash,
    tip: int,
    top: int,
    rated: spec_fn(BlockHash) -> Result<FeeRate, Error>,
    k: int,
)
    requires
        regular(entries, chain, tip, top),
        distinct_heights(chain, 0, top),
        FEE_RATE_LOOKBACK_BLOCKS <= tip <= top,
        0 <= k <= FEE_RATE_LOOKBACK_BLOCKS,
    ensures
        cycle_is_regular(entries, chain, tip, top, rated, k),
    decreases k,
{
    let blocks = window(chain, tip);
    if k > 0 {
        cycles_keep_the_cache_regular(entries, chain, tip, top, rated, k - 1);
        let before = sample_all(entries, blocks.take(k - 1), rated);
        let after = sample_all(entries, blocks.take(k), rated);
        let height = tip - (k - 1);
        assert(blocks.take(k).drop_last() =~= blocks.take(k - 1));
        assert(blocks.take(k).last() == chain(height));
        assert(after == sample_one(before, chain(height), rated));
        assert(in_window(tip, height));
        assert(cached_rate(entries, chain(height)) is Some <==> cached_rate(
            before.entries,
            chain(height),
        ) is Some);
        if before.refused is None && cached_rate(before.entries, chain(height)) is None {
            if rated(chain(height)) is Ok {
                fetching_keeps_the_window(
                    before.entries,
                    chain,
                    tip,
                    top,
                    height,
                    rated(chain(height))->Ok_0,
                );
            }
            assert forall|i: int| 0 <= i < before.fetched.len() implies before.fetched[i] != chain(
                height,
            ) by {
                assert(lies_between(before.fetched[i], chain, height + 1, tip));
            }
        }
        assert forall|i: int| 0 <= i < after.fetched.len() implies lies_between(
            #[trigger] after.fetched[i],
            chain,
            tip - k + 1,
            tip,
        ) && cached_rate(entries, after.fetched[i]) is None by {
            if i < before.fetched.len() {
                assert(after.fetched[i] == before.fetched[i]);
                assert(lies_between(before.fetched[i], chain, height + 1, tip));
            } else {
                assert(after.fetched[i] == chain(height));
            }
        }
    }
}

/// A cycle of the past: its tip, and how many blocks of its window it had gone through when it
/// completed or stopped half way.
pub struct PastCycle {
    pub tip: int,
    pub sampled: int,
}

/// Whether cycles are in order: no tip lies below an earlier one, or outside `from` to `to`.
pub open spec fn in_sequence(cycles: Seq<PastCycle>, from: int, to: int) -> bool {
    &&& forall|i: int|
        0 <= i < cycles.len() ==> from <= (#[trigger] cycles[i]).tip <= to && 0
            <= cycles[i].sampled <= FEE_RATE_LOOKBACK_BLOCKS
    &&& forall|i: int, j: int| 0 <= i <= j < cycles.len() ==> cycles[i].tip <= cycles[j].tip
}

/// The cache after some cycles, one after the other.
pub open spec fn after_cycles(
    entries: Entries,
    chain: spec_fn(int) -> BlockHash,
    rated: spec_fn(BlockHash) -> Result<FeeRate, Error>,
    cycles: Seq<PastCycle>,
) -> Entries
    decreases cycles.len(),
{
    if cycles.len() == 0 {
        entries
    } else {
        let last = cycles.last();
        sample_all(
            after_cycles(entries, chain, rated, cycles.drop_last()),
            window(chain, last.tip).take(last.sampled),
            rated,
        ).entries
    }
}

proof fn regular_at_a_later_tip(
    entries: Entries,
    chain: spec_fn(int) -> BlockHash,
    tip: int,
    later: int,
    top: int,
)
    requires
        regular(entries, chain, tip, top),
        FEE_RATE_LOOKBACK_BLOCKS <= tip <= later <= top,
    ensures
        regular(entries, chain, later, top),
{
    assert forall|i: int, j: int, height: int|
        #![trigger entries[i], entries[j], chain(height)]
        0 <= i < j < entries.len() && in_window(later, height) && entries[i].0 == chain(
            height,
        ) implies lies_between(
        entries[j].0,
        chain,
        height - FEE_RATE_LOOKBACK_BLOCKS + 1,
        later,
    ) by {
        assert(height <= tip);
        assert(lies_between(entries[j].0, chain, height - FEE_RATE_LOOKBACK_BLOCKS + 1, tip));
        let at = choose|at: int|
            height - FEE_RATE_LOOKBACK_BLOCKS + 1 <= at <= tip && entries[j].0 == #[trigger] chain(
                at,
            );
        assert(entries[j].0 == chain(at));
    }
}

/// Cycles, however many and however far each of them came, leave a regular cache regular, and keep
/// every cached block for as long as it belongs to the window.
pub proof fn histories_keep_the_cache_regular(
    entries: Entries,
    chain: spec_fn(int) -> BlockHash,
    tip: int,
    later: int,
    top: int,
    rated: spec_fn(BlockHash) -> Result<FeeRate, Error>,
    cycles: Seq<PastCycle>,
)
    requires
        regular(entries, chain, tip, top),
        distinct_heights(chain, 0, top),
        FEE_RATE_LOOKBACK_BLOCKS <= tip <= later <= top,
        in_sequence(cycles, tip, later),
    ensures
        regular(after_cycles(entries, chain, rated, cycles), chain, later, top),
        forall|height: int|
            in_window(later, height) && cached_rate(entries, #[trigger] chain(height)) is Some
                ==> cached_rate(
                after_cycles(entries, chain, rated, cycles),
                chain(height),
            ) is Some,
    decreases cycles.len(),
{
    if cycles.len() == 0 {
        regular_at_a_later_tip(entries, chain, tip, later, top);
    } else {
        let last = cycles.last();
        let earlier = cycles.drop_last();
        assert(cycles[cycles.len() - 1] == last);
        assert forall|i: int| 0 <= i < earlier.len() implies tip <= (#[trigger] earlier[i]).tip
            <= last.tip && 0 <= earlier[i].sampled <= FEE_RATE_LOOKBACK_BLOCKS by {
            assert(earlier[i] == cycles[i]);
        }
        histories_keep_the_cache_regular(entries, chain, tip, last.tip, top, rated, earlier);
        let before = after_cycles(entries, chain, rated, earlier);
        let after = after_cycles(entries, chain, rated, cycles);
        cycles_keep_the_cache_regular(before, chain, last.tip, top, rated, last.sampled);
        regular_at_a_later_tip(after, chain, last.tip, later, top);
        assert forall|height: int|
            in_window(later, height) && cached_rate(entries, #[trigger] chain(height))
                is Some implies cached_rate(after, chain(height)) is Some by {
            if height > last.tip {
                // Above the tip of the last cycle, and so of all, nothing of the chain is cached.
                assert(height > tip);
                cached_iff_held(entries, chain(height));
            } else {
                assert(in_window(last.tip, height));
            }
        }
    }
}

/// A cache without any block of the window is regular; the empty cache is one.
pub proof fn unrelated_caches_are_regular(
    entries: Entries,
    chain: spec_fn(int) -> BlockHash,
    tip: int,
    top: int,
)
    requires
        unrelated(entries, chain, tip, top),
        tip <= top,
    ensures
        regular(entries, chain, tip, top),
        unrelated(Entries::empty(), chain, tip, top),
{
}

/// How many blocks an advance of the tip makes new in the window.
pub open spec fn new_in_window(advance: int) -> int {
    if advance < FEE_RATE_LOOKBACK_BLOCKS {
        advance
    } else {
        FEE_RATE_LOOKBACK_BLOCKS as int
    }
}

/// A tip advance costs as many fetches as it makes blocks new in the window, regardless of what ran
/// before. Cycles follow one chain without a reorganization: some in the `past`, a complete one at
/// `tip`, some `between`, each of which may have stopped half way, and one at `tip + advance`.
///
/// Then the last one, however far it comes, fetches no block up to `tip`, none twice, and no more
/// than are new. Where nothing ran between and no block is refused, it fetches exactly the new
/// blocks, from the tip backward; so none at all where the tip did not advance.
pub proof fn advance_fetches_only_new_blocks(
    start: Entries,
    chain: spec_fn(int) -> BlockHash,
    from: int,
    past: Seq<PastCycle>,
    tip: int,
    between: Seq<PastCycle>,
    advance: int,
    rated: spec_fn(BlockHash) -> Result<FeeRate, Error>,
    k: int,
)
    requires
        FEE_RATE_LOOKBACK_BLOCKS <= from <= tip,
        0 <= advance,
        distinct_heights(chain, 0, tip + advance),
        unrelated(start, chain, from, tip + advance),
        in_sequence(past, from, tip),
        in_sequence(between, tip, tip + advance),
        sample_all(
            after_cycles(start, chain, rated, past),
            window(chain, tip),
            rated,
        ).refused is None,
        0 <= k <= FEE_RATE_LOOKBACK_BLOCKS,
    ensures
        ({
            let complete = PastCycle { tip, sampled: FEE_RATE_LOOKBACK_BLOCKS as int };
            let entries = after_cycles(start, chain, rated, past.push(complete) + between);
            let blocks = window(chain, tip + advance);
            let sampled = sample_all(entries, blocks.take(k), rated);
            &&& sampled.fetched.len() <= new_in_window(advance)
            &&& sampled.fetched.no_duplicates()
            &&& forall|i: int|
                0 <= i < sampled.fetched.len() ==> lies_between(
                    #[trigger] sampled.fetched[i],
                    chain,
                    tip + advance - new_in_window(advance) + 1,
                    tip + advance,
                )
            &&& between.len() == 0 && k == FEE_RATE_LOOKBACK_BLOCKS && sampled.refused is None
                ==> sampled.fetched == blocks.take(new_in_window(advance))
        }),
{
    let top = tip + advance;
    let lookback = FEE_RATE_LOOKBACK_BLOCKS as int;
    let complete = PastCycle { tip, sampled: lookback };
    unrelated_caches_are_regular(start, chain, from, top);
    histories_keep_the_cache_regular(start, chain, from, tip, top, rated, past);
    let before = after_cycles(start, chain, rated, past);
    assert(window(chain, tip).take(lookback) =~= window(chain, tip));
    cycles_keep_the_cache_regular(before, chain, tip, top, rated, lookback);
    let at_tip = sample_all(before, window(chain, tip), rated).entries;
    assert(past.push(complete).drop_last() =~= past);
    assert(at_tip == after_cycles(start, chain, rated, past.push(complete)));
    cycles_compose(start, chain, rated, past.push(complete), between);
    histories_keep_the_cache_regular(at_tip, chain, tip, top, top, rated, between);
    let entries = after_cycles(start, chain, rated, past.push(complete) + between);
    let blocks = window(chain, top);
    let sampled = sample_all(entries, blocks.take(k), rated);
    cycles_keep_the_cache_regular(entries, chain, top, top, rated, k);
    let lowest = top - new_in_window(advance) + 1;
    assert forall|i: int| 0 <= i < sampled.fetched.len() implies lies_between(
        #[trigger] sampled.fetched[i],
        chain,
        lowest,
        top,
    ) by {
        assert(lies_between(sampled.fetched[i], chain, top - k + 1, top));
        let height = choose|height: int|
            top - k + 1 <= height <= top && sampled.fetched[i] == #[trigger] chain(height);
        if height <= tip {
            assert(in_window(tip, height));
            assert(cached_rate(at_tip, chain(height)) is Some);
            assert(in_window(top, height));
            assert(cached_rate(entries, chain(height)) is Some);
        }
    }
    blocks_fit_their_heights(sampled.fetched, chain, lowest, top);
    if between.len() == 0 && k == lookback && sampled.refused is None {
        assert(past.push(complete) + between =~= past.push(complete));
        assert(entries == at_tip);
        assert(blocks.take(k) =~= blocks);
        new_blocks_are_uncached(entries, chain, tip, advance, lookback);
    }
}

proof fn cycles_compose(
    start: Entries,
    chain: spec_fn(int) -> BlockHash,
    rated: spec_fn(BlockHash) -> Result<FeeRate, Error>,
    first: Seq<PastCycle>,
    second: Seq<PastCycle>,
)
    ensures
        after_cycles(start, chain, rated, first + second) == after_cycles(
            after_cycles(start, chain, rated, first),
            chain,
            rated,
            second,
        ),
    decreases second.len(),
{
    if second.len() == 0 {
        assert(first + second =~= first);
    } else {
        assert((first + second).drop_last() =~= first + second.drop_last());
        cycles_compose(start, chain, rated, first, second.drop_last());
    }
}

proof fn new_blocks_are_uncached(
    entries: Entries,
    chain: spec_fn(int) -> BlockHash,
    tip: int,
    advance: int,
    k: int,
)
    requires
        0 <= k <= FEE_RATE_LOOKBACK_BLOCKS,
        0 <= advance,
        regular(entries, chain, tip, tip + advance),
        forall|height: int|
            in_window(tip, height) ==> cached_rate(entries, #[trigger] chain(height)) is Some,
    ensures
        uncached(window(chain, tip + advance).take(k), entries) == window(
            chain,
            tip + advance,
        ).take(
            if k < advance {
                k
            } else {
                new_in_window(advance)
            },
        ),
    decreases k,
{
    let blocks = window(chain, tip + advance);
    if k == 0 {
        assert(blocks.take(0) =~= Seq::empty());
    } else {
        new_blocks_are_uncached(entries, chain, tip, advance, k - 1);
        assert(blocks.take(k).drop_last() =~= blocks.take(k - 1));
        let height = tip + advance - (k - 1);
        assert(blocks.take(k).last() == chain(height));
        if height > tip {
            cached_iff_held(entries, chain(height));
            assert(blocks.take(k) =~= blocks.take(k - 1).push(chain(height)));
        } else {
            assert(in_window(tip, height));
        }
    }
}

} // verus!
