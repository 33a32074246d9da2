use bitcoin::constants::SUBSIDY_HALVING_INTERVAL;
use cbf_chain_source::block_fee::BlockSample;
use cbf_chain_source::fee_cache::{
    BlockFeeCache, BLOCK_FEE_CACHE_CAPACITY, FEE_RATE_LOOKBACK_BLOCKS,
};
use cbf_chain_source::fee_estimation::{
    begin_cycle, BlockReply, FeeStep, HeaderReply, TipReply,
};
use cbf_chain_source::fee_select::{
    select_fee_rate_for_target, sort_rates, MIN_FEERATE_SAT_PER_KWU,
};
use cbf_chain_source::fee_table::{
    fee_rate_cache_from_cbf, fee_rate_cache_from_electrum, fee_rate_cache_from_esplora,
    fee_rate_cache_from_samples, fill_fee_rate_cache, on_estimates_stored,
    update_and_store_fee_rate_estimates, update_fee_rate_estimates, ConfirmationTarget,
    FeeRateCache, ServerReply,
};
use cbf_chain_source::header::BlockHeader;
use cbf_chain_source::metrics::NodeMetrics;
use cbf_chain_source::subsidy::block_subsidy;
use cbf_chain_source::types::{Amount, BlockHash, Error, FeeRate, Network};

/// A node's confirmation targets: names, and blocks within which to confirm.
fn get_all_conf_targets() -> Vec<ConfirmationTarget> {
    [6, 12, 1, 6, 1008, 144, 1008, 12, 144, 12]
        .iter()
        .enumerate()
        .map(|(i, num_blocks)| ConfirmationTarget { id: i as u64, num_blocks: *num_blocks })
        .collect()
}

fn get_num_block_defaults_for_target(target: ConfirmationTarget) -> usize {
    target.num_blocks
}

/// A node's adjustments: leeway for the maximum, and a little less for one minimum.
fn apply_post_estimation_adjustments(target_id: u64, rate: FeeRate) -> FeeRate {
    match target_id {
        2 => FeeRate::from_sat_per_kwu(rate.to_sat_per_kwu() * 11 / 10),
        5 => FeeRate::from_sat_per_kwu(rate.to_sat_per_kwu().saturating_sub(250)),
        _ => rate,
    }
}

fn unadjusted(_target_id: u64, rate: FeeRate) -> FeeRate {
    rate
}

fn rates(values: &[u64]) -> Vec<FeeRate> {
    values.iter().map(|v| FeeRate::from_sat_per_kwu(*v)).collect()
}

fn hash(seed: u8) -> BlockHash {
    BlockHash::from_byte_array([seed; 32])
}

fn header(seed: u8) -> BlockHeader {
    BlockHeader {
        version: 1,
        prev_blockhash: hash(seed),
        merkle_root: [7; 32],
        time: 1,
        bits: 2,
        nonce: 3,
    }
}

#[test]
fn select_fee_rate_empty_returns_floor() {
    let rate = select_fee_rate_for_target(&[], 1);
    assert_eq!(rate, FeeRate::from_sat_per_kwu(MIN_FEERATE_SAT_PER_KWU));
}

#[test]
fn select_fee_rate_single_element_returns_it_for_all_buckets() {
    let rates = [FeeRate::from_sat_per_kwu(5000)];
    // Every urgency bucket should return the single available rate.
    for num_blocks in [1, 3, 6, 12, 144, 1008] {
        let rate = select_fee_rate_for_target(&rates, num_blocks);
        assert_eq!(
            rate,
            FeeRate::from_sat_per_kwu(5000),
            "num_blocks={} should return the only available rate",
            num_blocks,
        );
    }
}

#[test]
fn select_fee_rate_picks_correct_percentile() {
    // 6 sorted rates: indices 0..5
    let rates: [FeeRate; 6] = [100, 200, 300, 400, 500, 600].map(FeeRate::from_sat_per_kwu);
    // 1-block (most urgent): highest, index 5
    assert_eq!(select_fee_rate_for_target(&rates, 1), FeeRate::from_sat_per_kwu(600));
    // 6-block (medium): 75th percentile, (6*3)/4 = 4
    assert_eq!(select_fee_rate_for_target(&rates, 6), FeeRate::from_sat_per_kwu(500));
    // 12-block (standard): median, 6/2 = 3
    assert_eq!(select_fee_rate_for_target(&rates, 12), FeeRate::from_sat_per_kwu(400));
    // 144-block (low): 25th percentile, 6/4 = 1
    assert_eq!(select_fee_rate_for_target(&rates, 144), FeeRate::from_sat_per_kwu(200));
}

#[test]
fn select_fee_rate_monotonic_urgency() {
    // More urgent targets should never produce lower rates than less urgent ones.
    let rates: [FeeRate; 6] = [250, 500, 1000, 2000, 4000, 8000].map(FeeRate::from_sat_per_kwu);
    let urgent = select_fee_rate_for_target(&rates, 1);
    let medium = select_fee_rate_for_target(&rates, 6);
    let standard = select_fee_rate_for_target(&rates, 12);
    let low = select_fee_rate_for_target(&rates, 144);

    assert!(
        urgent >= medium,
        "urgent ({}) >= medium ({})",
        urgent.to_sat_per_kwu(),
        medium.to_sat_per_kwu()
    );
    assert!(
        medium >= standard,
        "medium ({}) >= standard ({})",
        medium.to_sat_per_kwu(),
        standard.to_sat_per_kwu()
    );
    assert!(
        standard >= low,
        "standard ({}) >= low ({})",
        standard.to_sat_per_kwu(),
        low.to_sat_per_kwu()
    );
}

#[test]
fn uniform_rates_match_naive_single_rate() {
    // When all blocks have the same fee rate, every target should select that same base rate.
    let uniform_rate = 3000u64;
    let rates = [FeeRate::from_sat_per_kwu(uniform_rate); 6];
    for target in get_all_conf_targets() {
        let num_blocks = get_num_block_defaults_for_target(target);
        let optimized = select_fee_rate_for_target(&rates, num_blocks);
        let naive = FeeRate::from_sat_per_kwu(uniform_rate);
        assert_eq!(
            optimized, naive,
            "For target {:?} (num_blocks={}), optimized rate should match naive single-rate",
            target, num_blocks,
        );

        // Also verify the post-estimation adjustments produce the same
        // result for both approaches.
        let adjusted_optimized = apply_post_estimation_adjustments(target.id, optimized);
        let adjusted_naive = apply_post_estimation_adjustments(target.id, naive);
        assert_eq!(adjusted_optimized, adjusted_naive);
    }
}

#[test]
fn block_subsidy_genesis() {
    assert_eq!(block_subsidy(0), Amount::from_sat(50 * 100_000_000));
}

#[test]
fn block_subsidy_first_halving() {
    assert_eq!(block_subsidy(SUBSIDY_HALVING_INTERVAL), Amount::from_sat(25 * 100_000_000));
}

#[test]
fn block_subsidy_second_halving() {
    assert_eq!(block_subsidy(SUBSIDY_HALVING_INTERVAL * 2), Amount::from_sat(1_250_000_000));
}

#[test]
fn block_subsidy_exhausted_after_64_halvings() {
    assert_eq!(block_subsidy(SUBSIDY_HALVING_INTERVAL * 64), Amount::from_sat(0));
    assert_eq!(block_subsidy(SUBSIDY_HALVING_INTERVAL * 100), Amount::from_sat(0));
}

#[test]
fn block_subsidy_rounds_down_and_never_rises() {
    assert_eq!(block_subsidy(SUBSIDY_HALVING_INTERVAL - 1), Amount::from_sat(5_000_000_000));
    assert_eq!(block_subsidy(SUBSIDY_HALVING_INTERVAL * 10), Amount::from_sat(4_882_812));
    assert_eq!(block_subsidy(SUBSIDY_HALVING_INTERVAL * 32), Amount::from_sat(1));
    assert_eq!(block_subsidy(SUBSIDY_HALVING_INTERVAL * 33), Amount::from_sat(0));
    let mut previous = block_subsidy(0);
    for halvings in 1..70 {
        let subsidy = block_subsidy(SUBSIDY_HALVING_INTERVAL * halvings);
        assert_eq!(subsidy.to_sat(), previous.to_sat() / 2);
        previous = subsidy;
    }
}

#[test]
fn select_fee_rate_two_elements() {
    let rates: [FeeRate; 2] = [1000, 5000].map(FeeRate::from_sat_per_kwu);
    // 1-block: index 1 (highest)
    assert_eq!(select_fee_rate_for_target(&rates, 1), FeeRate::from_sat_per_kwu(5000));
    // 6-block: (2*3)/4 = 1
    assert_eq!(select_fee_rate_for_target(&rates, 6), FeeRate::from_sat_per_kwu(5000));
    // 12-block: 2/2 = 1
    assert_eq!(select_fee_rate_for_target(&rates, 12), FeeRate::from_sat_per_kwu(5000));
    // 144-block: 2/4 = 0
    assert_eq!(select_fee_rate_for_target(&rates, 144), FeeRate::from_sat_per_kwu(1000));
}

#[test]
fn select_fee_rate_all_targets_use_valid_indices() {
    for size in 1..=6 {
        let rates: Vec<FeeRate> =
            (1..=size).map(|i| FeeRate::from_sat_per_kwu(i as u64 * 1000)).collect();
        for target in get_all_conf_targets() {
            let num_blocks = get_num_block_defaults_for_target(target);
            let selected = select_fee_rate_for_target(&rates, num_blocks);
            assert!(rates.contains(&selected));
        }
    }
}

#[test]
fn sorting_keeps_every_rate() {
    let sorted = sort_rates(rates(&[300, 100, 200, 100, 900, 300]));
    assert_eq!(sorted, rates(&[100, 100, 200, 300, 300, 900]));
    assert_eq!(sort_rates(Vec::new()), Vec::<FeeRate>::new());
}

#[test]
fn cache_gives_back_what_it_holds_and_evicts_the_oldest() {
    let mut cache = BlockFeeCache::new();
    assert_eq!(cache.len(), 0);
    assert_eq!(cache.lookup(&hash(0)), None);
    for i in 0..BLOCK_FEE_CACHE_CAPACITY as u8 {
        cache.insert(hash(i), FeeRate::from_sat_per_kwu(1000 + i as u64));
    }
    assert_eq!(cache.len(), 12);
    assert_eq!(cache.lookup(&hash(0)), Some(FeeRate::from_sat_per_kwu(1000)));
    assert_eq!(cache.lookup(&hash(11)), Some(FeeRate::from_sat_per_kwu(1011)));
    cache.insert(hash(12), FeeRate::from_sat_per_kwu(1012));
    assert_eq!(cache.len(), 12);
    assert_eq!(cache.lookup(&hash(0)), None);
    assert_eq!(cache.lookup(&hash(1)), Some(FeeRate::from_sat_per_kwu(1001)));
    assert_eq!(cache.lookup(&hash(12)), Some(FeeRate::from_sat_per_kwu(1012)));
}

#[test]
fn block_fee_rate_follows_the_formula() {
    // 4000 kWU, 3.125 BTC of subsidy at this height, 0.04 BTC of fees.
    let sample =
        BlockSample { weight_wu: 4_000_999, coinbase_outputs: vec![312_500_000, 0, 4_000_000] };
    assert_eq!(sample.revenue(), Some(316_500_000));
    assert_eq!(
        sample.fee_rate(850_000, Network::Bitcoin),
        Ok(FeeRate::from_sat_per_kwu(1000))
    );
    // The same block with a tenth of the fees stays at the floor.
    let cheap = BlockSample { weight_wu: 4_000_999, coinbase_outputs: vec![312_900_000] };
    assert_eq!(cheap.fee_rate(850_000, Network::Bitcoin), Ok(FeeRate::from_sat_per_kwu(250)));
    // Without fees there is no rate on the main network, and the floor elsewhere.
    let free = BlockSample { weight_wu: 4_000_999, coinbase_outputs: vec![312_500_000] };
    assert_eq!(
        free.fee_rate(850_000, Network::Bitcoin),
        Err(Error::FeerateEstimationUpdateFailed)
    );
    assert_eq!(free.fee_rate(850_000, Network::Regtest), Ok(FeeRate::from_sat_per_kwu(250)));
    // A block that takes less than the subsidy paid no fees.
    let unclaimed = BlockSample { weight_wu: 4_000_999, coinbase_outputs: vec![] };
    assert_eq!(
        unclaimed.fee_rate(850_000, Network::Bitcoin),
        Err(Error::FeerateEstimationUpdateFailed)
    );
    // A block too light to be rated has the floor rate, whatever it took.
    let light = BlockSample { weight_wu: 999, coinbase_outputs: vec![u64::MAX, u64::MAX] };
    assert_eq!(light.revenue(), None);
    assert_eq!(light.fee_rate(0, Network::Bitcoin), Ok(FeeRate::from_sat_per_kwu(250)));
}

#[test]
fn cycle_needs_a_tip_beyond_the_lookback() {
    assert!(matches!(
        begin_cycle(Network::Regtest, 10, TipReply::Tip { height: 5 }),
        FeeStep::Skip
    ));
    assert!(matches!(begin_cycle(Network::Regtest, 10, TipReply::NodeError), FeeStep::Skip));
    assert!(matches!(
        begin_cycle(Network::Regtest, 10, TipReply::TimedOut),
        FeeStep::Failed { error: Error::FeerateEstimationUpdateTimeout }
    ));
    match begin_cycle(Network::Regtest, 10, TipReply::Tip { height: 6 }) {
        FeeStep::AskHeader { at } => assert_eq!(at.height(), 6),
        _ => panic!("the cycle should ask for the first header"),
    }
}

/// Run a cycle in which every block is at hand: the block at a height took `fees(height)` beyond
/// the subsidy. Gives the sampled rates and the number of downloads.
fn run_cycle(tip: u32, cache: &mut BlockFeeCache, fees: fn(u32) -> u64) -> (Vec<FeeRate>, usize) {
    let mut downloads = 0;
    let mut step = begin_cycle(Network::Bitcoin, 10, TipReply::Tip { height: tip });
    loop {
        step = match step {
            FeeStep::AskHeader { at } => {
                let reply = HeaderReply::Found { header: header(at.height() as u8) };
                at.on_header(reply, cache, 1_000_000_000)
            },
            FeeStep::AskBlock { on } => {
                downloads += 1;
                assert_eq!(on.remaining_ns(), 9_000_000_000);
                let height = (0..=255u32)
                    .find(|h| header(*h as u8).block_hash() == on.hash())
                    .expect("some header has this hash");
                let sample = BlockSample {
                    weight_wu: 1_000_000,
                    coinbase_outputs: vec![block_subsidy(height).to_sat(), fees(height)],
                };
                on.on_block(BlockReply::Fetched { sample }, cache)
            },
            FeeStep::Complete { rates } => return (rates, downloads),
            FeeStep::Skip => panic!("nothing should be skipped"),
            FeeStep::Failed { error } => panic!("nothing should fail, but {:?}", error),
        }
    }
}

fn some_fees(height: u32) -> u64 {
    1_000_000 * height as u64
}

#[test]
fn cycle_samples_the_window_from_the_tip_backward() {
    let mut cache = BlockFeeCache::new();
    let (sampled, downloads) = run_cycle(100, &mut cache, some_fees);
    assert_eq!(sampled, rates(&[100_000, 99_000, 98_000, 97_000, 96_000, 95_000]));
    assert_eq!(downloads, FEE_RATE_LOOKBACK_BLOCKS);
}

#[test]
fn tip_advance_costs_as_many_downloads_as_new_blocks() {
    let mut cache = BlockFeeCache::new();
    let mut tip = 20;
    run_cycle(tip, &mut cache, some_fees);
    // The cost is the advance, however many cycles ran before, and the rates are the blocks' own.
    for advance in [0, 1, 1, 1, 1, 1, 1, 1, 3, 0, 6, 2, 5, 4, 6, 1, 5, 1, 6] {
        tip += advance;
        let (sampled, downloads) = run_cycle(tip, &mut cache, some_fees);
        assert_eq!(downloads, advance as usize);
        let expected: Vec<u64> = (0..6).map(|i| 1000 * (tip as u64 - i)).collect();
        assert_eq!(sampled, rates(&expected));
    }
}

/// Begin a cycle and let it stop after `fetches` fetched blocks, when the next header is missing.
fn stop_half_way(tip: u32, cache: &mut BlockFeeCache, fetches: usize) {
    let mut left = fetches;
    let mut step = begin_cycle(Network::Bitcoin, 10, TipReply::Tip { height: tip });
    loop {
        step = match step {
            FeeStep::AskHeader { at } => {
                if left == 0 {
                    let end = at.on_header(HeaderReply::NotFound, cache, 0);
                    assert_eq!(end.outcome(), Some(Ok(None)));
                    return;
                }
                let reply = HeaderReply::Found { header: header(at.height() as u8) };
                at.on_header(reply, cache, 0)
            },
            FeeStep::AskBlock { on } => {
                left -= 1;
                let sample = BlockSample { weight_wu: 1_000_000, coinbase_outputs: vec![u64::MAX] };
                on.on_block(BlockReply::Fetched { sample }, cache)
            },
            ended => panic!("the cycle should not end by itself: {:?}", ended.outcome()),
        }
    }
}

#[test]
fn cycles_that_stop_half_way_keep_the_bound() {
    let mut cache = BlockFeeCache::new();
    run_cycle(20, &mut cache, some_fees);
    // Each of these fetches one new block and stops.
    stop_half_way(21, &mut cache, 1);
    stop_half_way(22, &mut cache, 1);
    stop_half_way(23, &mut cache, 1);
    // Nothing else is new to the next cycle, and one block to the one after it.
    assert_eq!(run_cycle(23, &mut cache, some_fees).1, 0);
    assert_eq!(run_cycle(24, &mut cache, some_fees).1, 1);
    // Of six new blocks two are fetched by a cycle that stops, and four by the next.
    stop_half_way(30, &mut cache, 2);
    assert_eq!(run_cycle(30, &mut cache, some_fees).1, 4);
}

#[test]
fn refused_blocks_fail_alike_with_and_without_a_cache() {
    // Both cycles meet a block without fees at height 18; one has all newer blocks cached.
    let mut filled = BlockFeeCache::new();
    stop_half_way(20, &mut filled, 2);
    let mut empty = BlockFeeCache::new();
    for cache in [&mut filled, &mut empty] {
        let mut step = begin_cycle(Network::Bitcoin, 10, TipReply::Tip { height: 20 });
        let outcome = loop {
            step = match step {
                FeeStep::AskHeader { at } => {
                    let reply = HeaderReply::Found { header: header(at.height() as u8) };
                    at.on_header(reply, cache, 0)
                },
                FeeStep::AskBlock { on } => {
                    let fees = if on.hash() == header(18).block_hash() { 0 } else { u64::MAX };
                    let sample =
                        BlockSample { weight_wu: 1_000_000, coinbase_outputs: vec![fees] };
                    on.on_block(BlockReply::Fetched { sample }, cache)
                },
                ended => break ended.outcome(),
            }
        };
        assert_eq!(outcome, Some(Err(Error::FeerateEstimationUpdateFailed)));
        assert_eq!(cache.len(), 2);
    }
}

#[test]
fn outcomes_of_cycles() {
    assert_eq!(FeeStep::Skip.outcome(), Some(Ok(None)));
    assert_eq!(
        FeeStep::Failed { error: Error::ConnectionFailed }.outcome(),
        Some(Err(Error::ConnectionFailed))
    );
    assert_eq!(
        FeeStep::Complete { rates: rates(&[1, 2]) }.outcome(),
        Some(Ok(Some(rates(&[1, 2]))))
    );
    assert_eq!(
        begin_cycle(Network::Signet, 10, TipReply::Tip { height: 6 }).outcome(),
        None
    );
}

#[test]
fn cycle_ends_on_each_bad_reply() {
    let cache = BlockFeeCache::new();
    let begin = || match begin_cycle(Network::Bitcoin, 10, TipReply::Tip { height: 50 }) {
        FeeStep::AskHeader { at } => at,
        _ => panic!("the cycle should ask for the first header"),
    };
    assert!(matches!(begin().on_header(HeaderReply::NotFound, &cache, 0), FeeStep::Skip));
    assert!(matches!(
        begin().on_header(HeaderReply::NodeError, &cache, 0),
        FeeStep::Failed { error: Error::FeerateEstimationUpdateFailed }
    ));
    // All of the time is spent.
    assert!(matches!(
        begin().on_hash(hash(1), &cache, 10_000_000_000),
        FeeStep::Failed { error: Error::FeerateEstimationUpdateTimeout }
    ));
    let ask = |cache: &BlockFeeCache| match begin().on_hash(hash(1), cache, 9_999_999_999) {
        FeeStep::AskBlock { on } => on,
        _ => panic!("the cycle should ask for the block"),
    };
    assert_eq!(ask(&cache).remaining_ns(), 1);
    assert_eq!(ask(&cache).hash(), hash(1));
    let mut cache = cache;
    assert!(matches!(
        ask(&cache).on_block(BlockReply::UnknownHash, &mut cache),
        FeeStep::Skip
    ));
    assert!(matches!(
        ask(&cache).on_block(BlockReply::FetchError, &mut cache),
        FeeStep::Failed { error: Error::FeerateEstimationUpdateFailed }
    ));
    assert!(matches!(
        ask(&cache).on_block(BlockReply::TimedOut, &mut cache),
        FeeStep::Failed { error: Error::FeerateEstimationUpdateTimeout }
    ));
    let free = BlockSample { weight_wu: 1_000_000, coinbase_outputs: vec![] };
    assert!(matches!(
        ask(&cache).on_block(BlockReply::Fetched { sample: free }, &mut cache),
        FeeStep::Failed { error: Error::FeerateEstimationUpdateFailed }
    ));
    assert_eq!(cache.len(), 0);
}

#[test]
fn cached_blocks_are_sampled_even_when_the_time_is_over() {
    let mut cache = BlockFeeCache::new();
    cache.insert(hash(1), FeeRate::from_sat_per_kwu(777));
    let step = match begin_cycle(Network::Bitcoin, 10, TipReply::Tip { height: 50 }) {
        FeeStep::AskHeader { at } => at.on_hash(hash(1), &cache, u128::MAX),
        _ => panic!("the cycle should ask for the first header"),
    };
    match step {
        FeeStep::AskHeader { at } => assert_eq!(at.height(), 49),
        _ => panic!("the cycle should go on"),
    }
}

#[test]
fn samples_give_one_adjusted_estimate_per_target() {
    let targets = get_all_conf_targets();
    let samples = rates(&[600, 100, 400, 500, 300, 200]);
    let table =
        fee_rate_cache_from_samples(samples, &targets, apply_post_estimation_adjustments).unwrap();
    let expected: [u64; 10] = [500, 400, 660, 500, 200, 0, 200, 400, 200, 400];
    assert_eq!(table.len(), 10);
    for (id, sat_per_kwu) in expected.iter().enumerate() {
        assert_eq!(table[&(id as u64)], FeeRate::from_sat_per_kwu(*sat_per_kwu));
    }
    let enough = rates(&[1000; 6]);
    let table =
        fee_rate_cache_from_samples(enough, &targets, apply_post_estimation_adjustments).unwrap();
    assert_eq!(table[&5], FeeRate::from_sat_per_kwu(750));
    assert_eq!(table[&2], FeeRate::from_sat_per_kwu(1100));
    assert_eq!(
        fee_rate_cache_from_samples(Vec::new(), &targets, unadjusted).err(),
        Some(Error::FeerateEstimationUpdateFailed)
    );
}

#[test]
fn sampling_cycles_give_estimates_or_pass_their_end_on() {
    let targets = get_all_conf_targets();
    let table = fee_rate_cache_from_cbf(Ok(Some(rates(&[300, 900]))), &targets, unadjusted)
        .unwrap()
        .unwrap();
    assert_eq!(table[&2], FeeRate::from_sat_per_kwu(900));
    assert_eq!(table[&4], FeeRate::from_sat_per_kwu(300));
    assert_eq!(fee_rate_cache_from_cbf(Ok(None), &targets, unadjusted), Ok(None));
    assert_eq!(
        fee_rate_cache_from_cbf(Ok(Some(Vec::new())), &targets, unadjusted),
        Err(Error::FeerateEstimationUpdateFailed)
    );
    assert_eq!(
        fee_rate_cache_from_cbf(Err(Error::ConnectionFailed), &targets, unadjusted),
        Err(Error::ConnectionFailed)
    );
}

#[test]
fn the_last_of_equally_named_targets_counts() {
    let targets = vec![
        ConfirmationTarget { id: 1, num_blocks: 1 },
        ConfirmationTarget { id: 1, num_blocks: 144 },
    ];
    let table = fill_fee_rate_cache(&targets, &rates(&[900, 300]), unadjusted);
    assert_eq!(table.len(), 1);
    assert_eq!(table[&1], FeeRate::from_sat_per_kwu(300));
}

#[test]
fn esplora_replies() {
    let targets = get_all_conf_targets();
    let base: Vec<FeeRate> = (0..10).map(|i| FeeRate::from_sat_per_kwu(1000 + i)).collect();
    let reply = ServerReply::Estimates { count: 3, base: base.clone() };
    let table =
        fee_rate_cache_from_esplora(reply, Network::Bitcoin, &targets, unadjusted).unwrap();
    assert_eq!(table.len(), 10);
    assert_eq!(table[&9], FeeRate::from_sat_per_kwu(1009));
    let empty = ServerReply::Estimates { count: 0, base: base.clone() };
    assert_eq!(
        fee_rate_cache_from_esplora(empty, Network::Bitcoin, &targets, unadjusted).err(),
        Some(Error::FeerateEstimationUpdateFailed)
    );
    let empty = ServerReply::Estimates { count: 0, base };
    assert!(fee_rate_cache_from_esplora(empty, Network::Regtest, &targets, unadjusted).is_ok());
    assert_eq!(
        fee_rate_cache_from_esplora(ServerReply::Failed, Network::Regtest, &targets, unadjusted)
            .err(),
        Some(Error::FeerateEstimationUpdateFailed)
    );
    assert_eq!(
        fee_rate_cache_from_esplora(ServerReply::TimedOut, Network::Regtest, &targets, unadjusted)
            .err(),
        Some(Error::FeerateEstimationUpdateTimeout)
    );
}

#[test]
fn electrum_replies() {
    let targets = get_all_conf_targets();
    let short = || ServerReply::Estimates { count: 2, base: rates(&[300, 400]) };
    assert_eq!(
        fee_rate_cache_from_electrum(short(), Network::Bitcoin, &targets, unadjusted).err(),
        Some(Error::FeerateEstimationUpdateFailed)
    );
    // Elsewhere the targets beyond the results get no estimate.
    let table =
        fee_rate_cache_from_electrum(short(), Network::Regtest, &targets, unadjusted).unwrap();
    assert_eq!(table.len(), 2);
    assert_eq!(table[&0], FeeRate::from_sat_per_kwu(300));
    assert_eq!(table[&1], FeeRate::from_sat_per_kwu(400));
    let full = ServerReply::Estimates { count: 10, base: rates(&[500; 10]) };
    let table =
        fee_rate_cache_from_electrum(full, Network::Bitcoin, &targets, unadjusted).unwrap();
    assert_eq!(table.len(), 10);
    assert_eq!(
        fee_rate_cache_from_electrum(ServerReply::TimedOut, Network::Regtest, &targets, unadjusted)
            .err(),
        Some(Error::FeerateEstimationUpdateTimeout)
    );
}

#[test]
fn estimates_are_taken_over_only_when_there_are_some() {
    let empty = NodeMetrics {
        latest_onchain_wallet_sync_timestamp: None,
        latest_lightning_wallet_sync_timestamp: Some(5),
        latest_fee_rate_cache_update_timestamp: None,
    };
    let mut metrics = empty;
    let mut current: FeeRateCache = FeeRateCache::new();
    current.insert(1, FeeRate::from_sat_per_kwu(300));

    assert_eq!(
        update_fee_rate_estimates(Err(Error::ConnectionFailed), &mut current, &mut metrics, Some(9)),
        Err(Error::ConnectionFailed)
    );
    assert_eq!(update_fee_rate_estimates(Ok(None), &mut current, &mut metrics, Some(9)), Ok(false));
    assert_eq!(current[&1], FeeRate::from_sat_per_kwu(300));
    assert_eq!(metrics, empty);

    let mut new = FeeRateCache::new();
    new.insert(2, FeeRate::from_sat_per_kwu(400));
    assert_eq!(update_fee_rate_estimates(Ok(Some(new)), &mut current, &mut metrics, Some(9)), Ok(true));
    assert_eq!(current.len(), 1);
    assert_eq!(current[&2], FeeRate::from_sat_per_kwu(400));
    assert_eq!(metrics.latest_fee_rate_cache_update_timestamp, Some(9));
    assert_eq!(metrics.latest_lightning_wallet_sync_timestamp, Some(5));
}

#[test]
fn new_estimates_are_in_force_even_where_they_cannot_be_stored() {
    let empty = NodeMetrics {
        latest_onchain_wallet_sync_timestamp: None,
        latest_lightning_wallet_sync_timestamp: None,
        latest_fee_rate_cache_update_timestamp: None,
    };
    let mut metrics = empty;
    let mut current: FeeRateCache = FeeRateCache::new();
    let mut new = FeeRateCache::new();
    new.insert(2, FeeRate::from_sat_per_kwu(400));
    let mut stored = None;
    let result = update_and_store_fee_rate_estimates(
        Ok(Some(new)),
        &mut current,
        &mut metrics,
        Some(9),
        |m| {
            stored = m.latest_fee_rate_cache_update_timestamp;
            Err(Error::PersistenceFailed)
        },
    );
    assert_eq!(result, Err(Error::PersistenceFailed));
    assert_eq!(stored, Some(9));
    assert_eq!(current[&2], FeeRate::from_sat_per_kwu(400));
    // Without new estimates nothing is stored.
    for (outcome, expected) in
        [(Ok(None), Ok(())), (Err(Error::ConnectionFailed), Err(Error::ConnectionFailed))]
    {
        let result = update_and_store_fee_rate_estimates(
            outcome,
            &mut current,
            &mut metrics,
            Some(10),
            |_| panic!("there is nothing to store"),
        );
        assert_eq!(result, expected);
    }
    assert_eq!(metrics.latest_fee_rate_cache_update_timestamp, Some(9));
}

#[test]
fn results_of_updates() {
    let failed = Err(Error::PersistenceFailed);
    assert_eq!(on_estimates_stored(Ok(true), Ok(())), Ok(()));
    assert_eq!(on_estimates_stored(Ok(true), failed), failed);
    assert_eq!(on_estimates_stored(Ok(false), failed), Ok(()));
    assert_eq!(
        on_estimates_stored(Err(Error::ConnectionFailed), Ok(())),
        Err(Error::ConnectionFailed)
    );
}

#[test]
fn light_blocks_keep_the_floor_whatever_they_took() {
    let sample = BlockSample { weight_wu: 0, coinbase_outputs: vec![u64::MAX; 3] };
    assert_eq!(sample.fee_rate(1, Network::Bitcoin), Ok(FeeRate::from_sat_per_kwu(250)));
}
