//! Choosing a fee rate for a confirmation target among the rates of recent blocks.
use vstd::prelude::*;

use crate::types::FeeRate;

verus! {

/// Minimum fee rate: 1 sat/vB = 250 sat/kWU. Used as a floor for computed fee rates.
pub const MIN_FEERATE_SAT_PER_KWU: u64 = 250;

/// Whether the rates ascend.
pub open spec fn ascending(rates: Seq<FeeRate>) -> bool {
    forall|i: int, j: int|
        0 <= i <= j < rates.len() ==> rates[i].sat_per_kwu <= rates[j].sat_per_kwu
}

/// The position, among `len` ascending rates, that serves a target of `num_blocks` blocks: the
/// last for one block, three quarters up for two to six, the middle for seven to twelve, one
/// quarter up beyond.
pub open spec fn rank_for_target(len: nat, num_blocks: nat) -> nat
    recommends
        len > 0,
{
    if num_blocks <= 1 {
        (len - 1) as nat
    } else if num_blocks <= 6 {
        len * 3 / 4
    } else if num_blocks <= 12 {
        len / 2
    } else {
        len / 4
    }
}

/// The rate that serves a target of `num_blocks` blocks: the one at the target's rank, or the
/// floor where there is no rate at all.
pub open spec fn selected_rate(rates: Seq<FeeRate>, num_blocks: nat) -> FeeRate {
    if rates.len() == 0 {
        FeeRate { sat_per_kwu: MIN_FEERATE_SAT_PER_KWU }
    } else {
        rates[rank_for_target(rates.len(), num_blocks) as int]
    }
}

/// Select a fee rate from sorted block fee rates based on confirmation urgency.
///
/// For urgent targets (1 block), uses the highest observed fee rate.
/// For medium targets (2-6 blocks), uses the 75th percentile.
/// For standard targets (7-12 blocks), uses the median.
/// For low-urgency targets (13+ blocks), uses the 25th percentile.
pub fn select_fee_rate_for_target(sorted_rates: &[FeeRate], num_blocks: usize) -> (rate: FeeRate)
    ensures
        rate == selected_rate(sorted_rates@, num_blocks as nat),
{
    if sorted_rates.len() == 0 {
        return FeeRate::from_sat_per_kwu(MIN_FEERATE_SAT_PER_KWU);
    }
    let len: usize = sorted_rates.len();
    let idx: usize = if num_blocks <= 1 {
        len - 1
    } else if num_blocks <= 6 {
        len / 4 * 3 + len % 4 * 3 / 4
    } else if num_blocks <= 12 {
        len / 2
    } else {
        len / 4
    };
    sorted_rates[idx]
}

/// Every rate selected from a non-empty sample is one of the sample.
pub proof fn selected_rate_is_observed(rates: Seq<FeeRate>, num_blocks: nat)
    requires
        rates.len() > 0,
    ensures
        rank_for_target(rates.len(), num_blocks) < rates.len(),
        rates.contains(selected_rate(rates, num_blocks)),
{
    assert(rates[rank_for_target(rates.len(), num_blocks) as int] == selected_rate(
        rates,
        num_blocks,
    ));
}

/// A more urgent target never gets a lower rate than a less urgent one.
pub proof fn urgency_is_monotonic(rates: Seq<FeeRate>, urgent: nat, patient: nat)
    requires
        ascending(rates),
        urgent <= patient,
    ensures
        selected_rate(rates, urgent).sat_per_kwu >= selected_rate(rates, patient).sat_per_kwu,
{
    if rates.len() > 0 {
        selected_rate_is_observed(rates, urgent);
        selected_rate_is_observed(rates, patient);
        assert(rank_for_target(rates.len(), patient) <= rank_for_target(rates.len(), urgent));
    }
}

/// Where all blocks paid the same rate, every target gets that rate.
pub proof fn uniform_rates_select_themselves(rates: Seq<FeeRate>, rate: FeeRate, num_blocks: nat)
    requires
        rates.len() > 0,
        forall|i: int| 0 <= i < rates.len() ==> rates[i] == rate,
    ensures
        selected_rate(rates, num_blocks) == rate,
{
    selected_rate_is_observed(rates, num_blocks);
}

/// Where no sampled rate lies below the floor, no selected rate does.
pub proof fn selected_rate_keeps_the_floor(rates: Seq<FeeRate>, num_blocks: nat)
    requires
        forall|i: int|
            0 <= i < rates.len() ==> rates[i].sat_per_kwu >= MIN_FEERATE_SAT_PER_KWU,
    ensures
        selected_rate(rates, num_blocks).sat_per_kwu >= MIN_FEERATE_SAT_PER_KWU,
{
    if rates.len() > 0 {
        selected_rate_is_observed(rates, num_blocks);
    }
}

/// Lower rates come first.
pub open spec fn rate_order() -> spec_fn(FeeRate, FeeRate) -> bool {
    |a: FeeRate, b: FeeRate| a.sat_per_kwu <= b.sat_per_kwu
}

/// The rates in ascending order.
pub open spec fn in_order(rates: Seq<FeeRate>) -> Seq<FeeRate> {
    rates.sort_by(rate_order())
}

/// There is but one way to put rates in ascending order.
proof fn ascending_is_in_order(rates: Seq<FeeRate>, sorted: Seq<FeeRate>)
    requires
        ascending(sorted),
        sorted.to_multiset() == rates.to_multiset(),
    ensures
        sorted == in_order(rates),
{
    rates.lemma_sort_by_ensures(rate_order());
    vstd::seq_lib::lemma_sorted_unique(sorted, in_order(rates), rate_order());
}

/// Putting rates in order keeps every rate, as often as it occurs, and makes them ascend.
pub proof fn in_order_ascends(rates: Seq<FeeRate>)
    ensures
        ascending(in_order(rates)),
        in_order(rates).to_multiset() == rates.to_multiset(),
        in_order(rates).len() == rates.len(),
        forall|rate: FeeRate| #[trigger] in_order(rates).contains(rate) ==> rates.contains(rate),
{
    rates.lemma_sort_by_ensures(rate_order());
    let sorted = in_order(rates);
    assert forall|i: int, j: int| 0 <= i <= j < sorted.len() implies sorted[i].sat_per_kwu
        <= sorted[j].sat_per_kwu by {
        if i < j {
            assert(rate_order()(sorted[i], sorted[j]));
        }
    }
    rates.to_multiset_ensures();
    sorted.to_multiset_ensures();
}

/// The rates in ascending order: the same rates, each as often as before.
pub fn sort_rates(rates: Vec<FeeRate>) -> (sorted: Vec<FeeRate>)
    ensures
        sorted@ == in_order(rates@),
{
    let mut sorted: Vec<FeeRate> = Vec::new();
    let mut i: usize = 0;
    assert(rates@.take(0) =~= sorted@);
    while i < rates.len()
        invariant
            i <= rates@.len(),
            sorted@.len() == i,
            ascending(sorted@),
            sorted@.to_multiset() == rates@.take(i as int).to_multiset(),
        decreases rates@.len() - i,
    {
        let rate: FeeRate = rates[i];
        let mut at: usize = sorted.len();
        while at > 0 && rate.sat_per_kwu < sorted[at - 1].sat_per_kwu
            invariant
                at <= sorted@.len(),
                forall|j: int|
                    at <= j < sorted@.len() ==> rate.sat_per_kwu < sorted@[j].sat_per_kwu,
            decreases at,
        {
            at -= 1;
        }
        let ghost before = sorted@;
        sorted.insert(at, rate);
        proof {
            vstd::seq_lib::to_multiset_insert(before, at as int, rate);
            assert(rates@.take(i + 1) =~= rates@.take(i as int).push(rate));
            rates@.take(i as int).to_multiset_ensures();
            assert(sorted@ =~= before.insert(at as int, rate));
        }
        i += 1;
    }
    assert(rates@.take(i as int) =~= rates@);
    proof {
        ascending_is_in_order(rates@, sorted@);
    }
    sorted
}

/// The position that [`select_fee_rate_for_target`] picks among `len` sorted rates, by the number of
/// blocks within which to confirm: for one block the last, for two to six the one with three
/// quarters of all rates below its position, for seven to twelve with half, beyond with one quarter,
/// each rounded down. For each length and target there is exactly one such position.
pub proof fn targets_pick_their_percentile(
    sorted_rates: &[FeeRate],
    num_blocks: usize,
    rate: FeeRate,
    i: int,
)
    requires
        call_ensures(select_fee_rate_for_target, (sorted_rates, num_blocks), rate),
        0 <= i < sorted_rates@.len(),
        num_blocks <= 1 ==> i + 1 == sorted_rates@.len(),
        2 <= num_blocks <= 6 ==> 4 * i <= 3 * sorted_rates@.len() < 4 * (i + 1),
        7 <= num_blocks <= 12 ==> 2 * i <= sorted_rates@.len() < 2 * (i + 1),
        13 <= num_blocks ==> 4 * i <= sorted_rates@.len() < 4 * (i + 1),
    ensures
        rate == sorted_rates@[i],
{
}

/// Without any rate, every target gets the rate 250.
pub proof fn no_rate_selects_the_lowest(sorted_rates: &[FeeRate], num_blocks: usize, rate: FeeRate)
    requires
        call_ensures(select_fee_rate_for_target, (sorted_rates, num_blocks), rate),
        sorted_rates@.len() == 0,
    ensures
        rate.sat_per_kwu == 250,
{
}

/// Among rates that ascend, an urgent target gets one that no other exceeds.
pub proof fn urgent_targets_get_the_highest_rate(
    sorted_rates: &[FeeRate],
    num_blocks: usize,
    rate: FeeRate,
    i: int,
)
    requires
        call_ensures(select_fee_rate_for_target, (sorted_rates, num_blocks), rate),
        num_blocks <= 1,
        0 <= i < sorted_rates@.len(),
        forall|j: int, k: int|
            0 <= j <= k < sorted_rates@.len() ==> sorted_rates@[j].sat_per_kwu
                <= sorted_rates@[k].sat_per_kwu,
    ensures
        sorted_rates@[i].sat_per_kwu <= rate.sat_per_kwu,
{
}

/// Sorting gives the same rates, each as often as before, the lower ones first.
pub proof fn sorting_puts_lower_rates_first(rates: Vec<FeeRate>, sorted: Vec<FeeRate>)
    requires
        call_ensures(sort_rates, (rates,), sorted),
    ensures
        sorted@.to_multiset() == rates@.to_multiset(),
        sorted@.len() == rates@.len(),
        forall|i: int, j: int|
            0 <= i <= j < sorted@.len() ==> sorted@[i].sat_per_kwu <= sorted@[j].sat_per_kwu,
{
    in_order_ascends(rates@);
}

} // verus!
