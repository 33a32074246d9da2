//! Sampling the fee rates of recent blocks, one question to the node at a time.
//!
//! A cycle asks the node for its chain tip, then, for each height from the tip backward, for the
//! header and, where the block's rate is not cached, for the block. Each answer goes to the state
//! that awaited it, which says what to do next. Walking by height rather than by the previous
//! block's hash means that a cached block need not be read at all.
use vstd::prelude::*;

use crate::block_fee::{fee_rate_of, weight_kwu, BlockSample};
use crate::fee_cache::{
    cached_rate, lookup_gives_back_the_insertion, with_entry, BlockFeeCache, Entries,
    FEE_RATE_LOOKBACK_BLOCKS,
};
use crate::fee_walk::{sample_all, window};
use crate::header::BlockHeader;
use crate::types::{BlockHash, Error, FeeRate, Network};

verus! {

/// The node's answer to the question for its chain tip.
#[derive(Clone, Copy, Debug, PartialEq, Eq, Structural)]
pub enum TipReply {
    /// The tip is at this height.
    Tip { height: u32 },
    /// The node could not answer.
    NodeError,
    /// The node did not answer in time.
    TimedOut,
}

/// The node's answer to the question for the header at a height.
#[derive(Clone, Copy, Debug, PartialEq, Eq)]
pub enum HeaderReply {
    /// The header in the chain of most work.
    Found { header: BlockHeader },
    /// The local chain has no header at that height yet.
    NotFound,
    /// The node could not answer.
    NodeError,
}

/// The node's answer to the request for a block.
pub enum BlockReply {
    /// The block arrived.
    Fetched { sample: BlockSample },
    /// The node does not know the block (yet).
    UnknownHash,
    /// The node could not fetch the block.
    FetchError,
    /// The block did not arrive in time.
    TimedOut,
}

/// How far a cycle has come.
pub struct Progress {
    /// The network, which decides whether a block without fees can be rated.
    pub network: Network,
    /// The time that the whole cycle may take, in nanoseconds.
    pub timeout_ns: nat,
    /// The height at which the walk began.
    pub tip: nat,
    /// The rates sampled so far, that of the tip first.
    pub rates: Seq<FeeRate>,
    /// The blocks that were fetched for them, in order.
    pub fetched: Seq<BlockHash>,
}

struct Cycle {
    network: Network,
    timeout_ns: u128,
    tip: u32,
    rates: Vec<FeeRate>,
    fetched: Ghost<Seq<BlockHash>>,
}

impl Cycle {
    spec fn progress(self) -> Progress {
        Progress {
            network: self.network,
            timeout_ns: self.timeout_ns as nat,
            tip: self.tip as nat,
            rates: self.rates@,
            fetched: self.fetched@,
        }
    }

    spec fn under_way(self) -> bool {
        self.tip >= FEE_RATE_LOOKBACK_BLOCKS && self.rates@.len() < FEE_RATE_LOOKBACK_BLOCKS
    }

    fn height(&self) -> (height: u32)
        requires
            self.under_way(),
        ensures
            height == self.tip - self.rates@.len(),
    {
        self.tip - self.rates.len() as u32
    }

    fn sampled(self, rate: FeeRate, fetched: Ghost<Seq<BlockHash>>) -> (step: FeeStep)
        requires
            self.under_way(),
        ensures
            continues(self.progress(), rate, fetched@, step),
    {
        let mut cycle = self;
        cycle.rates.push(rate);
        cycle.fetched = fetched;
        if cycle.rates.len() < FEE_RATE_LOOKBACK_BLOCKS {
            FeeStep::AskHeader { at: AwaitHeader { cycle } }
        } else {
            FeeStep::Complete { rates: cycle.rates }
        }
    }
}

/// A cycle that awaits the header at [`AwaitHeader::height`].
pub struct AwaitHeader {
    cycle: Cycle,
}

/// A cycle that awaits the block [`AwaitBlock::hash`].
pub struct AwaitBlock {
    cycle: Cycle,
    hash: BlockHash,
    remaining_ns: u128,
}

/// What a cycle does next.
pub enum FeeStep {
    /// Ask the node for the header at the state's height.
    AskHeader { at: AwaitHeader },
    /// Ask the node for the state's block, and wait no longer than the state says.
    AskBlock { on: AwaitBlock },
    /// Leave the estimates as they are; a later cycle may do better.
    Skip,
    /// The cycle failed.
    Failed { error: Error },
    /// All blocks are sampled; the rates are in sampling order.
    Complete { rates: Vec<FeeRate> },
}

impl FeeStep {
    /// What a cycle that ended gives: the sampled rates, nothing where the estimates stay as they
    /// are, or its error; `None` where the cycle still awaits an answer.
    pub fn outcome(self) -> (outcome: Option<Result<Option<Vec<FeeRate>>, Error>>)
        ensures
            match self {
                FeeStep::AskHeader { .. } => outcome is None,
                FeeStep::AskBlock { .. } => outcome is None,
                FeeStep::Skip => outcome == Some(Ok::<Option<Vec<FeeRate>>, Error>(None)),
                FeeStep::Failed { error } => outcome == Some(
                    Err::<Option<Vec<FeeRate>>, Error>(error),
                ),
                FeeStep::Complete { rates } => outcome == Some(
                    Ok::<Option<Vec<FeeRate>>, Error>(Some(rates)),
                ),
            },
    {
        match self {
            FeeStep::AskHeader { .. } => None,
            FeeStep::AskBlock { .. } => None,
            FeeStep::Skip => Some(Ok(None)),
            FeeStep::Failed { error } => Some(Err(error)),
            FeeStep::Complete { rates } => Some(Ok(Some(rates))),
        }
    }
}

/// The step after one more rate, where `fetched` are the blocks fetched by then: the next header,
/// or the end where the lookback is reached.
pub open spec fn continues(
    before: Progress,
    rate: FeeRate,
    fetched: Seq<BlockHash>,
    step: FeeStep,
) -> bool {
    let rates = before.rates.push(rate);
    if rates.len() < FEE_RATE_LOOKBACK_BLOCKS {
        step matches FeeStep::AskHeader { at } && at@ == (Progress { rates, fetched, ..before })
    } else {
        step matches FeeStep::Complete { rates: complete } && complete@ == rates
    }
}

/// The step after the hash at the awaited height is known: a cached rate is taken without a
/// download; else the block is asked for, as long as any of the time is left.
pub open spec fn step_after_hash(
    before: Progress,
    hash: BlockHash,
    entries: Entries,
    elapsed_ns: nat,
    step: FeeStep,
) -> bool {
    match cached_rate(entries, hash) {
        Some(rate) => continues(before, rate, before.fetched, step),
        None => if elapsed_ns >= before.timeout_ns {
            step == (FeeStep::Failed { error: Error::FeerateEstimationUpdateTimeout })
        } else {
            step matches FeeStep::AskBlock { on } && on@ == before && on.awaits() == hash
                && on.patience_ns() == before.timeout_ns - elapsed_ns
        },
    }
}

/// Begin a cycle with the node's answer for its chain tip. There is nothing to estimate where the
/// node cannot tell its tip, or where the tip lies below the lookback window.
pub fn begin_cycle(network: Network, timeout_secs: u64, reply: TipReply) -> (step: FeeStep)
    ensures
        match reply {
            TipReply::Tip { height } => if height < FEE_RATE_LOOKBACK_BLOCKS {
                step == FeeStep::Skip
            } else {
                step matches FeeStep::AskHeader { at } && at@ == (Progress {
                    network,
                    timeout_ns: timeout_secs as nat * 1_000_000_000,
                    tip: height as nat,
                    rates: Seq::empty(),
                    fetched: Seq::empty(),
                })
            },
            TipReply::NodeError => step == FeeStep::Skip,
            TipReply::TimedOut => step == (FeeStep::Failed {
                error: Error::FeerateEstimationUpdateTimeout,
            }),
        },
{
    match reply {
        TipReply::Tip { height } => {
            if (height as u64) < FEE_RATE_LOOKBACK_BLOCKS as u64 {
                return FeeStep::Skip;
            }
            let cycle = Cycle {
                network,
                timeout_ns: timeout_secs as u128 * 1_000_000_000,
                tip: height,
                rates: Vec::new(),
                fetched: Ghost(Seq::empty()),
            };
            FeeStep::AskHeader { at: AwaitHeader { cycle } }
        },
        TipReply::NodeError => FeeStep::Skip,
        TipReply::TimedOut => FeeStep::Failed { error: Error::FeerateEstimationUpdateTimeout },
    }
}

impl View for AwaitHeader {
    type V = Progress;

    closed spec fn view(&self) -> Progress {
        self.cycle.progress()
    }
}

impl AwaitHeader {
    #[verifier::type_invariant]
    spec fn under_way(self) -> bool {
        self.cycle.under_way()
    }

    /// The height of the awaited header: as far below the tip as rates are sampled.
    pub fn height(&self) -> (height: u32)
        ensures
            height == self@.tip - self@.rates.len(),
            self@.tip >= FEE_RATE_LOOKBACK_BLOCKS,
            self@.rates.len() < FEE_RATE_LOOKBACK_BLOCKS,
    {
        proof {
            use_type_invariant(self);
        }
        self.cycle.height()
    }

    /// Go on with the node's answer for the header; `elapsed_ns` is the time since the cycle
    /// began.
    pub fn on_header(
        self,
        reply: HeaderReply,
        cache: &BlockFeeCache,
        elapsed_ns: u128,
    ) -> (step: FeeStep)
        ensures
            match reply {
                HeaderReply::Found { header } => exists|hash: BlockHash|
                    hash@ == header.hash_bytes() && #[trigger] step_after_hash(
                        self@,
                        hash,
                        cache@,
                        elapsed_ns as nat,
                        step,
                    ),
                HeaderReply::NotFound => step == FeeStep::Skip,
                HeaderReply::NodeError => step == (FeeStep::Failed {
                    error: Error::FeerateEstimationUpdateFailed,
                }),
            },
    {
        match reply {
            HeaderReply::Found { header } => {
                self.on_hash(header.block_hash(), cache, elapsed_ns)
            },
            HeaderReply::NotFound => FeeStep::Skip,
            HeaderReply::NodeError => FeeStep::Failed {
                error: Error::FeerateEstimationUpdateFailed,
            },
        }
    }

    /// Go on with the hash of the block at the awaited height.
    pub fn on_hash(
        self,
        hash: BlockHash,
        cache: &BlockFeeCache,
        elapsed_ns: u128,
    ) -> (step: FeeStep)
        ensures
            step_after_hash(self@, hash, cache@, elapsed_ns as nat, step),
    {
        proof {
            use_type_invariant(&self);
        }
        match cache.lookup(&hash) {
            Some(rate) => {
                let fetched: Ghost<Seq<BlockHash>> = self.cycle.fetched;
                self.cycle.sampled(rate, fetched)
            },
            None => {
                if elapsed_ns >= self.cycle.timeout_ns {
                    return FeeStep::Failed { error: Error::FeerateEstimationUpdateTimeout };
                }
                let remaining_ns: u128 = self.cycle.timeout_ns - elapsed_ns;
                FeeStep::AskBlock { on: AwaitBlock { cycle: self.cycle, hash, remaining_ns } }
            },
        }
    }
}

impl View for AwaitBlock {
    type V = Progress;

    closed spec fn view(&self) -> Progress {
        self.cycle.progress()
    }
}

impl AwaitBlock {
    #[verifier::type_invariant]
    spec fn under_way(self) -> bool {
        self.cycle.under_way()
    }

    /// The awaited block.
    pub closed spec fn awaits(self) -> BlockHash {
        self.hash
    }

    /// How long to wait for the block, in nanoseconds.
    pub closed spec fn patience_ns(self) -> nat {
        self.remaining_ns as nat
    }

    /// The awaited block.
    pub fn hash(&self) -> (hash: BlockHash)
        ensures
            hash == self.awaits(),
    {
        self.hash
    }

    /// How long to wait for the block, in nanoseconds.
    pub fn remaining_ns(&self) -> (ns: u128)
        ensures
            ns == self.patience_ns(),
    {
        self.remaining_ns
    }

    /// Go on with the node's answer for the block. The rate of a block that arrived enters the
    /// cache; in every other case the cache stays as it is.
    pub fn on_block(self, reply: BlockReply, cache: &mut BlockFeeCache) -> (step: FeeStep)
        requires
            reply matches BlockReply::Fetched { sample } ==> weight_kwu(sample.weight_wu) > 0
                ==> sample.revenue_fits(),
        ensures
            match reply {
                BlockReply::Fetched { sample } => match fee_rate_of(
                    sample.weight_wu,
                    sample.coinbase_outputs@,
                    (self@.tip - self@.rates.len()) as nat,
                    self@.network,
                ) {
                    Ok(rate) => {
                        &&& final(cache)@ == with_entry(old(cache)@, self.awaits(), rate)
                        &&& continues(self@, rate, self@.fetched.push(self.awaits()), step)
                    },
                    Err(error) => {
                        &&& final(cache)@ == old(cache)@
                        &&& step == (FeeStep::Failed { error })
                    },
                },
                BlockReply::UnknownHash => {
                    &&& final(cache)@ == old(cache)@
                    &&& step == FeeStep::Skip
                },
                BlockReply::FetchError => {
                    &&& final(cache)@ == old(cache)@
                    &&& step == (FeeStep::Failed { error: Error::FeerateEstimationUpdateFailed })
                },
                BlockReply::TimedOut => {
                    &&& final(cache)@ == old(cache)@
                    &&& step == (FeeStep::Failed { error: Error::FeerateEstimationUpdateTimeout })
                },
            },
    {
        proof {
            use_type_invariant(&self);
        }
        match reply {
            BlockReply::Fetched { sample } => {
                match sample.fee_rate(self.cycle.height(), self.cycle.network) {
                    Ok(rate) => {
                        cache.insert(self.hash, rate);
                        let fetched: Ghost<Seq<BlockHash>> = Ghost(
                            self.cycle.fetched@.push(self.hash),
                        );
                        self.cycle.sampled(rate, fetched)
                    },
                    Err(error) => FeeStep::Failed { error },
                }
            },
            BlockReply::UnknownHash => FeeStep::Skip,
            BlockReply::FetchError => FeeStep::Failed {
                error: Error::FeerateEstimationUpdateFailed,
            },
            BlockReply::TimedOut => FeeStep::Failed {
                error: Error::FeerateEstimationUpdateTimeout,
            },
        }
    }
}

/// Whether a cycle, begun with the cache `start`, has come as far as the walk down `chain` says:
/// its rates, the blocks fetched for them and the cache are those of the blocks sampled so far.
pub open spec fn on_the_walk(
    start: Entries,
    chain: spec_fn(int) -> BlockHash,
    rated: spec_fn(BlockHash) -> Result<FeeRate, Error>,
    progress: Progress,
    entries: Entries,
) -> bool {
    let blocks = window(chain, progress.tip as int);
    let sampled = sample_all(start, blocks.take(progress.rates.len() as int), rated);
    &&& progress.rates.len() <= blocks.len()
    &&& sampled.refused is None
    &&& progress.rates == sampled.rates
    &&& progress.fetched == sampled.fetched
    &&& entries == sampled.entries
}

/// A cycle begins on the walk.
pub proof fn cycles_begin_on_the_walk(
    start: Entries,
    chain: spec_fn(int) -> BlockHash,
    rated: spec_fn(BlockHash) -> Result<FeeRate, Error>,
    progress: Progress,
)
    requires
        progress.rates == Seq::<FeeRate>::empty(),
        progress.fetched == Seq::<BlockHash>::empty(),
    ensures
        on_the_walk(start, chain, rated, progress, start),
{
    assert(window(chain, progress.tip as int).take(0) =~= Seq::empty());
}

/// Each rate that a cycle takes, from the cache or from the one block that it asked for and that
/// enters the cache, keeps it on the walk; and where the cycle completes, its rates, the blocks
/// that it fetched and the cache are those of the whole window.
pub proof fn cycles_stay_on_the_walk(
    start: Entries,
    chain: spec_fn(int) -> BlockHash,
    rated: spec_fn(BlockHash) -> Result<FeeRate, Error>,
    before: Progress,
    entries: Entries,
    rate: FeeRate,
    fetched: Seq<BlockHash>,
    entries_after: Entries,
    step: FeeStep,
)
    requires
        on_the_walk(start, chain, rated, before, entries),
        before.rates.len() < FEE_RATE_LOOKBACK_BLOCKS,
        continues(before, rate, fetched, step),
        ({
            let hash = chain(before.tip - before.rates.len());
            match cached_rate(entries, hash) {
                Some(cached) => rate == cached && fetched == before.fetched && entries_after
                    == entries,
                None => rated(hash) == Ok::<FeeRate, Error>(rate) && fetched
                    == before.fetched.push(hash) && entries_after == with_entry(
                    entries,
                    hash,
                    rate,
                ),
            }
        }),
    ensures
        step matches FeeStep::AskHeader { at } ==> on_the_walk(
            start,
            chain,
            rated,
            at@,
            entries_after,
        ),
        step matches FeeStep::Complete { rates } ==> ({
            let sampled = sample_all(start, window(chain, before.tip as int), rated);
            &&& sampled.refused is None
            &&& rates@ == sampled.rates
            &&& fetched == sampled.fetched
            &&& entries_after == sampled.entries
        }),
{
    let blocks = window(chain, before.tip as int);
    let k = before.rates.len() as int;
    assert(blocks.take(k + 1).drop_last() =~= blocks.take(k));
    assert(blocks.take(k + 1).last() == chain(before.tip - k));
    if k + 1 == blocks.len() {
        assert(blocks.take(k + 1) =~= blocks);
    }
}

/// A fetched block that cannot be rated ends the cycle as it ends the walk: with its error, with
/// the cache as it was, and with no block fetched after it.
pub proof fn refused_blocks_end_the_walk(
    start: Entries,
    chain: spec_fn(int) -> BlockHash,
    rated: spec_fn(BlockHash) -> Result<FeeRate, Error>,
    before: Progress,
    entries: Entries,
    error: Error,
)
    requires
        on_the_walk(start, chain, rated, before, entries),
        before.rates.len() < FEE_RATE_LOOKBACK_BLOCKS,
        cached_rate(entries, chain(before.tip - before.rates.len())) is None,
        rated(chain(before.tip - before.rates.len())) == Err::<FeeRate, Error>(error),
    ensures
        ({
            let sampled = sample_all(start, window(chain, before.tip as int), rated);
            &&& sampled.refused == Some(error)
            &&& sampled.fetched == before.fetched.push(chain(before.tip - before.rates.len()))
            &&& sampled.entries == entries
        }),
{
    let blocks = window(chain, before.tip as int);
    let k = before.rates.len() as int;
    assert(blocks.take(k + 1).drop_last() =~= blocks.take(k));
    assert(blocks.take(k + 1).last() == chain(before.tip - k));
    refusal_is_final(start, blocks, rated, k + 1);
}

proof fn refusal_is_final(
    start: Entries,
    blocks: Seq<BlockHash>,
    rated: spec_fn(BlockHash) -> Result<FeeRate, Error>,
    k: int,
)
    requires
        0 <= k <= blocks.len(),
        sample_all(start, blocks.take(k), rated).refused is Some,
    ensures
        sample_all(start, blocks, rated) == sample_all(start, blocks.take(k), rated),
    decreases blocks.len(),
{
    if k == blocks.len() {
        assert(blocks.take(k) =~= blocks);
    } else {
        assert(blocks.drop_last().take(k) =~= blocks.take(k));
        refusal_is_final(start, blocks.drop_last(), rated, k);
    }
}

/// A cycle begins at the tip itself, with nothing sampled, wherever the tip's height is at least six;
/// below that, and without a tip, there is nothing to estimate yet, and only a late answer is a
/// failure.
pub proof fn cycles_begin_at_the_tip(
    network: Network,
    timeout_secs: u64,
    height: u32,
    on_tip: FeeStep,
    on_error: FeeStep,
    late: FeeStep,
)
    requires
        call_ensures(begin_cycle, (network, timeout_secs, TipReply::Tip { height }), on_tip),
        call_ensures(begin_cycle, (network, timeout_secs, TipReply::NodeError), on_error),
        call_ensures(begin_cycle, (network, timeout_secs, TipReply::TimedOut), late),
    ensures
        height < 6 ==> on_tip is Skip,
        height >= 6 ==> (on_tip matches FeeStep::AskHeader { at } && at@.tip == height
            && at@.rates.len() == 0 && at@.network == network && at@.timeout_ns == timeout_secs
            * 1_000_000_000),
        on_error is Skip,
        late == (FeeStep::Failed { error: Error::FeerateEstimationUpdateTimeout }),
{
}

/// The header asked for is as far below the tip as rates are sampled.
pub proof fn headers_are_asked_for_downward(at: AwaitHeader, height: u32)
    requires
        call_ensures(AwaitHeader::height, (&at,), height),
    ensures
        height + at@.rates.len() == at@.tip,
        at@.rates.len() < 6,
{
}

/// Where a block's rate is cached, that rate is taken and nothing is asked for, however late it is:
/// the cycle goes on one block lower, or is complete where six rates are sampled, the newest block's
/// first.
pub proof fn cached_rates_are_taken(
    at: AwaitHeader,
    hash: BlockHash,
    cache: BlockFeeCache,
    elapsed_ns: u128,
    rate: FeeRate,
    step: FeeStep,
)
    requires
        call_ensures(AwaitHeader::on_hash, (at, hash, &cache, elapsed_ns), step),
        call_ensures(BlockFeeCache::lookup, (&cache, &hash), Some(rate)),
        at@.rates.len() < 6,
    ensures
        at@.rates.len() < 5 ==> (step matches FeeStep::AskHeader { at: next } && next@.rates
            == at@.rates.push(rate) && next@.tip == at@.tip && next@.network == at@.network
            && next@.timeout_ns == at@.timeout_ns && next@.fetched == at@.fetched),
        at@.rates.len() == 5 ==> (step matches FeeStep::Complete { rates } && rates@
            == at@.rates.push(rate)),
{
}

/// Where a block's rate is not cached, that very block is asked for, and awaited for just as long as
/// is left of the cycle's time; where nothing is left, the cycle fails.
pub proof fn uncached_blocks_are_asked_for(
    at: AwaitHeader,
    hash: BlockHash,
    cache: BlockFeeCache,
    elapsed_ns: u128,
    step: FeeStep,
)
    requires
        call_ensures(AwaitHeader::on_hash, (at, hash, &cache, elapsed_ns), step),
        call_ensures(BlockFeeCache::lookup, (&cache, &hash), None::<FeeRate>),
    ensures
        elapsed_ns < at@.timeout_ns ==> (step matches FeeStep::AskBlock { on } && on.awaits() == hash
            && on.patience_ns() + elapsed_ns == at@.timeout_ns && on@ == at@),
        elapsed_ns >= at@.timeout_ns ==> step == (FeeStep::Failed {
            error: Error::FeerateEstimationUpdateTimeout,
        }),
{
}

/// A found header stands for its hash: the cycle goes on as it does with that hash. A missing header
/// ends the cycle without a failure, and a node that cannot answer with one.
pub proof fn headers_stand_for_their_hash(
    at: AwaitHeader,
    header: BlockHeader,
    hash: BlockHash,
    cache: BlockFeeCache,
    elapsed_ns: u128,
    rate: Option<FeeRate>,
    found: FeeStep,
    missing: FeeStep,
    failed: FeeStep,
)
    requires
        call_ensures(
            AwaitHeader::on_header,
            (at, HeaderReply::Found { header }, &cache, elapsed_ns),
            found,
        ),
        call_ensures(BlockHeader::block_hash, (&header,), hash),
        call_ensures(BlockFeeCache::lookup, (&cache, &hash), rate),
        call_ensures(
            AwaitHeader::on_header,
            (at, HeaderReply::NotFound, &cache, elapsed_ns),
            missing,
        ),
        call_ensures(
            AwaitHeader::on_header,
            (at, HeaderReply::NodeError, &cache, elapsed_ns),
            failed,
        ),
        at@.rates.len() < 6,
    ensures
        rate matches Some(cached) ==> {
            &&& at@.rates.len() < 5 ==> (found matches FeeStep::AskHeader { at: next }
                && next@.rates == at@.rates.push(cached) && next@.tip == at@.tip)
            &&& at@.rates.len() == 5 ==> (found matches FeeStep::Complete { rates } && rates@
                == at@.rates.push(cached))
        },
        rate is None && elapsed_ns < at@.timeout_ns ==> (found matches FeeStep::AskBlock { on }
            && on.awaits() == hash && on.patience_ns() + elapsed_ns == at@.timeout_ns && on@ == at@),
        rate is None && elapsed_ns >= at@.timeout_ns ==> found == (FeeStep::Failed {
            error: Error::FeerateEstimationUpdateTimeout,
        }),
        missing is Skip,
        failed == (FeeStep::Failed { error: Error::FeerateEstimationUpdateFailed }),
{
    let named = choose|named: BlockHash|
        named@ == header.hash_bytes() && #[trigger] step_after_hash(
            at@,
            named,
            cache@,
            elapsed_ns as nat,
            found,
        );
    assert(named.bytes =~= hash.bytes);
}

/// A block that arrives is rated at its own height, which is as far below the tip as rates are
/// sampled. Its rate is the next one sampled, and what the cache gives for that block from then on,
/// if it gave nothing before; a block that cannot be rated ends the cycle with the reason and leaves
/// the cache alone.
pub proof fn fetched_blocks_are_rated_at_their_height(
    on: AwaitBlock,
    hash: BlockHash,
    sample: BlockSample,
    height: u32,
    cache: &mut BlockFeeCache,
    rate: Result<FeeRate, Error>,
    before: Option<FeeRate>,
    after: Option<FeeRate>,
    step: FeeStep,
)
    requires
        call_ensures(AwaitBlock::hash, (&on,), hash),
        height + on@.rates.len() == on@.tip,
        on@.rates.len() < 6,
        call_ensures(BlockSample::fee_rate, (&sample, height, on@.network), rate),
        call_ensures(BlockFeeCache::lookup, (&*old(cache), &hash), before),
        call_ensures(AwaitBlock::on_block, (on, BlockReply::Fetched { sample }, cache), step),
        call_ensures(BlockFeeCache::lookup, (&*final(cache), &hash), after),
    ensures
        rate matches Ok(r) ==> {
            &&& on@.rates.len() < 5 ==> (step matches FeeStep::AskHeader { at } && at@.rates
                == on@.rates.push(r) && at@.tip == on@.tip && at@.network == on@.network
                && at@.timeout_ns == on@.timeout_ns && at@.fetched == on@.fetched.push(hash))
            &&& on@.rates.len() == 5 ==> (step matches FeeStep::Complete { rates } && rates@
                == on@.rates.push(r))
            &&& before is None ==> after == Some(r)
        },
        rate matches Err(error) ==> step == (FeeStep::Failed { error }) && final(cache)@ == old(cache)@,
{
    if rate is Ok && before is None {
        lookup_gives_back_the_insertion(old(cache)@, hash, rate->Ok_0);
    }
}

/// A block that does not arrive leaves the cache alone: one that the node does not know ends the
/// cycle without a failure, one that cannot be fetched or comes too late with one.
pub proof fn missing_blocks_end_the_cycle(
    on: AwaitBlock,
    unknown: &mut BlockFeeCache,
    failing: &mut BlockFeeCache,
    late: &mut BlockFeeCache,
    on_unknown: FeeStep,
    on_failing: FeeStep,
    on_late: FeeStep,
)
    requires
        call_ensures(AwaitBlock::on_block, (on, BlockReply::UnknownHash, unknown), on_unknown),
        call_ensures(AwaitBlock::on_block, (on, BlockReply::FetchError, failing), on_failing),
        call_ensures(AwaitBlock::on_block, (on, BlockReply::TimedOut, late), on_late),
    ensures
        final(unknown)@ == old(unknown)@,
        final(failing)@ == old(failing)@,
        final(late)@ == old(late)@,
        on_unknown is Skip,
        on_failing == (FeeStep::Failed { error: Error::FeerateEstimationUpdateFailed }),
        on_late == (FeeStep::Failed { error: Error::FeerateEstimationUpdateTimeout }),
{
}

} // verus!
