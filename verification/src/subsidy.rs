//! The block subsidy: what a block pays its miner besides the fees.
use vstd::arithmetic::div_mod::{
    lemma_basic_div, lemma_div_denominator, lemma_div_is_ordered,
    lemma_div_is_ordered_by_denominator,
};
use vstd::arithmetic::power2::{
    lemma2_to64, lemma_pow2_adds, lemma_pow2_pos, lemma_pow2_strictly_increases, pow2,
};
use vstd::bits::lemma_u64_shr_is_div;
use vstd::prelude::*;

use crate::types::Amount;

verus! {

/// What the first blocks pay, in satoshi: fifty bitcoin.
#[verifier::inline]
pub open spec fn initial_subsidy() -> nat {
    5_000_000_000
}

/// The number of blocks after which the subsidy halves.
#[verifier::inline]
pub open spec fn halving_interval() -> nat {
    210_000
}

/// The subsidy at `height`, in satoshi: the initial subsidy, halved and rounded down once for
/// each full halving interval, and nothing from the 64th halving on.
pub open spec fn subsidy_at(height: nat) -> nat {
    let halvings = height / halving_interval();
    if halvings >= 64 {
        0
    } else {
        initial_subsidy() / pow2(halvings)
    }
}

/// The constant `bitcoin::constants::SUBSIDY_HALVING_INTERVAL`, which is 210000 blocks.
#[verifier::external_body]
fn subsidy_halving_interval() -> (blocks: u32)
    ensures
        blocks == halving_interval(),
{
    bitcoin::constants::SUBSIDY_HALVING_INTERVAL
}

/// The constant `bitcoin::Amount::ONE_BTC` in satoshi, which is a hundred million.
#[verifier::external_body]
fn one_btc_in_sat() -> (sat: u64)
    ensures
        sat == 100_000_000,
{
    bitcoin::Amount::ONE_BTC.to_sat()
}

/// Compute the block subsidy (mining reward before fees) at the given block height.
pub fn block_subsidy(height: u32) -> (subsidy: Amount)
    ensures
        subsidy.sat == subsidy_at(height as nat),
{
    let halvings: u32 = height / subsidy_halving_interval();
    if halvings >= 64 {
        return Amount::from_sat(0);
    }
    let base: u64 = one_btc_in_sat() * 50;
    proof {
        lemma_u64_shr_is_div(base, halvings as u64);
    }
    Amount::from_sat(base >> halvings)
}

/// The subsidy never rises with the height.
pub proof fn subsidy_never_rises(lower: nat, higher: nat)
    requires
        lower <= higher,
    ensures
        subsidy_at(higher) <= subsidy_at(lower),
{
    let a = lower / halving_interval();
    let b = higher / halving_interval();
    lemma_div_is_ordered(lower as int, higher as int, halving_interval() as int);
    if b < 64 {
        lemma_pow2_pos(a);
        if a < b {
            lemma_pow2_strictly_increases(a, b);
        }
        lemma_div_is_ordered_by_denominator(
            initial_subsidy() as int,
            pow2(a) as int,
            pow2(b) as int,
        );
    }
}

/// One halving interval later, the subsidy is half of what it was, rounded down.
pub proof fn subsidy_halves(height: nat)
    ensures
        subsidy_at(height + halving_interval()) == subsidy_at(height) / 2,
{
    let h = height / halving_interval();
    assert((height + halving_interval()) / halving_interval() == h + 1);
    lemma2_to64();
    if h + 1 < 64 {
        lemma_pow2_adds(h, 1);
        lemma_pow2_pos(h);
        lemma_div_denominator(initial_subsidy() as int, pow2(h) as int, 2);
    } else if h == 63 {
        assert(pow2(63) == 0x8000000000000000) by {
            lemma_pow2_adds(32, 31);
        }
        assert(initial_subsidy() / pow2(63) == 0) by {
            lemma_basic_div(initial_subsidy() as int, pow2(63) as int);
        }
    }
}

/// What [`block_subsidy`] gives follows the schedule: fifty bitcoin for each of the first 210000
/// blocks, and from then on half of what the block 210000 heights before paid, rounded down. This
/// leaves no height open.
pub proof fn blocks_pay_half_of_the_era_before(
    height: u32,
    earlier: u32,
    subsidy: Amount,
    earlier_subsidy: Amount,
)
    requires
        call_ensures(block_subsidy, (height,), subsidy),
        call_ensures(block_subsidy, (earlier,), earlier_subsidy),
        height >= 210_000 ==> earlier == height - 210_000,
    ensures
        height < 210_000 ==> subsidy.sat == 5_000_000_000,
        height >= 210_000 ==> 2 * subsidy.sat <= earlier_subsidy.sat < 2 * (subsidy.sat + 1),
{
    if height >= 210_000 {
        subsidy_halves(earlier as nat);
    } else {
        lemma2_to64();
        assert(height as nat / 210_000 == 0);
        assert(pow2(0) == 1);
    }
}

} // verus!
