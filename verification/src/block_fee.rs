//! The fee rate that a block paid, from its weight and from what its coinbase took.
use bitcoin::Block;
use vstd::prelude::*;

use crate::fee_select::MIN_FEERATE_SAT_PER_KWU;
use crate::subsidy::{block_subsidy, subsidy_at};
use crate::types::{Amount, Error, FeeRate, Network};

verus! {

/// `bitcoin::Block`: a header and a list of transactions.
#[verifier::external_type_specification]
#[verifier::external_body]
pub struct ExBlock(bitcoin::Block);

/// The values of the outputs of each transaction of a block, in satoshi, in block order.
pub uninterp spec fn block_output_values(block: Block) -> Seq<Seq<u64>>;

/// The weight of a block in weight units, as BIP 141 defines it.
pub uninterp spec fn block_weight_wu(block: Block) -> u64;

/// The output values of the first transaction; none where there is no transaction.
pub open spec fn first_outputs(transactions: Seq<Seq<u64>>) -> Seq<u64> {
    if transactions.len() == 0 {
        Seq::empty()
    } else {
        transactions[0]
    }
}

/// Calls `bitcoin::Block::weight`: the weight of the block, a function of the block alone, under
/// the name [`block_weight_wu`].
#[verifier::external_body]
fn weight_of(block: &Block) -> (wu: u64)
    ensures
        wu == block_weight_wu(*block),
{
    block.weight().to_wu()
}

/// Reads the length of `bitcoin::Block::txdata`: the number of transactions of the block.
#[verifier::external_body]
fn transaction_count(block: &Block) -> (count: usize)
    ensures
        count == block_output_values(*block).len(),
{
    block.txdata.len()
}

/// Reads `bitcoin::Block::txdata`: the value of each output of the transaction at position `i`, in
/// order.
#[verifier::external_body]
fn transaction_outputs(block: &Block, i: usize) -> (values: Vec<u64>)
    requires
        i < block_output_values(*block).len(),
    ensures
        values@ == block_output_values(*block)[i as int],
{
    block.txdata[i].output.iter().map(|output| output.value.to_sat()).collect()
}

/// What the fee rate of a block depends on.
pub struct BlockSample {
    /// The weight of the block, in weight units.
    pub weight_wu: u64,
    /// The values of the outputs of its first transaction, the coinbase, in satoshi.
    pub coinbase_outputs: Vec<u64>,
}

/// The sum of some values.
pub open spec fn total(values: Seq<u64>) -> nat
    decreases values.len(),
{
    if values.len() == 0 {
        0
    } else {
        total(values.drop_last()) + values.last() as nat
    }
}

proof fn total_grows(values: Seq<u64>, i: int)
    requires
        0 <= i <= values.len(),
    ensures
        total(values.take(i)) <= total(values),
    decreases values.len() - i,
{
    if i < values.len() {
        total_grows(values, i + 1);
        assert(values.take(i + 1).drop_last() =~= values.take(i));
    } else {
        assert(values.take(i) =~= values);
    }
}

/// The weight in thousands of weight units, rounded down.
pub open spec fn weight_kwu(weight_wu: u64) -> nat {
    (weight_wu / 1000) as nat
}

/// What a block paid in fees: what its coinbase took beyond the subsidy.
pub open spec fn fees_of(revenue: nat, height: nat) -> nat {
    if revenue <= subsidy_at(height) {
        0
    } else {
        (revenue - subsidy_at(height)) as nat
    }
}

/// The fee rate of a block at `height`: its fees per thousand weight units, but at least the
/// floor. A block of less than a thousand weight units has the floor rate. On the main network, a
/// heavier block without fees is an error.
pub open spec fn fee_rate_of(
    weight_wu: u64,
    outputs: Seq<u64>,
    height: nat,
    network: Network,
) -> Result<FeeRate, Error> {
    if weight_kwu(weight_wu) == 0 {
        Ok(FeeRate { sat_per_kwu: MIN_FEERATE_SAT_PER_KWU })
    } else {
        let fees = fees_of(total(outputs), height);
        if fees == 0 && network == Network::Bitcoin {
            Err(Error::FeerateEstimationUpdateFailed)
        } else {
            let rate = fees / weight_kwu(weight_wu);
            Ok(
                FeeRate {
                    sat_per_kwu: if rate < MIN_FEERATE_SAT_PER_KWU {
                        MIN_FEERATE_SAT_PER_KWU
                    } else {
                        rate as u64
                    },
                },
            )
        }
    }
}

impl BlockSample {
    /// Whether the coinbase outputs add up within 64 bits. No consensus-valid block fails this.
    pub open spec fn revenue_fits(self) -> bool {
        total(self.coinbase_outputs@) <= u64::MAX
    }

    /// What the fee rate of `block` depends on.
    pub fn of(block: &Block) -> (sample: BlockSample)
        ensures
            sample.weight_wu == block_weight_wu(*block),
            sample.coinbase_outputs@ == first_outputs(block_output_values(*block)),
    {
        let coinbase_outputs: Vec<u64> = if transaction_count(block) == 0 {
            Vec::new()
        } else {
            transaction_outputs(block, 0)
        };
        BlockSample { weight_wu: weight_of(block), coinbase_outputs }
    }

    /// The sum of the coinbase outputs; `None` where it exceeds 64 bits.
    pub fn revenue(&self) -> (sum: Option<u64>)
        ensures
            sum is Some <==> self.revenue_fits(),
            sum matches Some(sat) ==> sat == total(self.coinbase_outputs@),
    {
        let mut sum: u64 = 0;
        let mut i: usize = 0;
        while i < self.coinbase_outputs.len()
            invariant
                i <= self.coinbase_outputs@.len(),
                sum == total(self.coinbase_outputs@.take(i as int)),
            decreases self.coinbase_outputs@.len() - i,
        {
            assert(self.coinbase_outputs@.take(i + 1).drop_last() =~= self.coinbase_outputs@.take(
                i as int,
            ));
            match sum.checked_add(self.coinbase_outputs[i]) {
                Some(next) => {
                    sum = next;
                },
                None => {
                    proof {
                        total_grows(self.coinbase_outputs@, i + 1);
                    }
                    return None;
                },
            }
            i += 1;
        }
        assert(self.coinbase_outputs@.take(i as int) =~= self.coinbase_outputs@);
        Some(sum)
    }

    /// The fee rate of the block, found at `height`.
    pub fn fee_rate(&self, height: u32, network: Network) -> (rate: Result<FeeRate, Error>)
        requires
            weight_kwu(self.weight_wu) > 0 ==> self.revenue_fits(),
        ensures
            rate == fee_rate_of(self.weight_wu, self.coinbase_outputs@, height as nat, network),
    {
        let kwu: u64 = self.weight_wu / 1000;
        if kwu == 0 {
            return Ok(FeeRate::from_sat_per_kwu(MIN_FEERATE_SAT_PER_KWU));
        }
        let revenue: u64 = match self.revenue() {
            Some(sat) => sat,
            None => 0,
        };
        let subsidy: u64 = block_subsidy(height).to_sat();
        let fees: u64 = if revenue < subsidy {
            0
        } else {
            revenue - subsidy
        };
        if fees == 0 && network == Network::Bitcoin {
            return Err(Error::FeerateEstimationUpdateFailed);
        }
        let rate: u64 = fees / kwu;
        proof {
            vstd::arithmetic::div_mod::lemma_div_is_ordered_by_denominator(fees as int, 1, kwu as int);
        }
        if rate < MIN_FEERATE_SAT_PER_KWU {
            Ok(FeeRate::from_sat_per_kwu(MIN_FEERATE_SAT_PER_KWU))
        } else {
            Ok(FeeRate::from_sat_per_kwu(rate))
        }
    }
}

/// A computed fee rate never lies below the floor.
pub proof fn computed_rates_keep_the_floor(
    weight_wu: u64,
    outputs: Seq<u64>,
    height: nat,
    network: Network,
)
    requires
        weight_kwu(weight_wu) > 0 ==> total(outputs) <= u64::MAX,
    ensures
        fee_rate_of(weight_wu, outputs, height, network) matches Ok(rate) ==> rate.sat_per_kwu
            >= MIN_FEERATE_SAT_PER_KWU,
{
    if weight_kwu(weight_wu) > 0 {
        let fees = fees_of(total(outputs), height);
        vstd::arithmetic::div_mod::lemma_div_is_ordered_by_denominator(
            fees as int,
            1,
            weight_kwu(weight_wu) as int,
        );
    }
}

/// On the main network no rate comes out of a block without fees, unless the block is too light
/// to be rated; on a test network every block has a rate.
pub proof fn only_mainnet_refuses_zero_fees(
    weight_wu: u64,
    outputs: Seq<u64>,
    height: nat,
    network: Network,
)
    ensures
        fee_rate_of(weight_wu, outputs, height, network) is Err <==> network == Network::Bitcoin
            && weight_kwu(weight_wu) > 0 && total(outputs) <= subsidy_at(height),
{
}

/// A block of at least a thousand weight units is rated by what its coinbase took beyond the
/// subsidy: the rate is the largest whole one that the fees pay for each full thousand weight
/// units, unless that lies below 250.
pub proof fn rates_are_what_the_fees_pay_for(
    sample: BlockSample,
    height: u32,
    network: Network,
    revenue: u64,
    subsidy: Amount,
    rate: Result<FeeRate, Error>,
)
    requires
        call_ensures(BlockSample::fee_rate, (&sample, height, network), rate),
        call_ensures(BlockSample::revenue, (&sample,), Some(revenue)),
        call_ensures(block_subsidy, (height,), subsidy),
        sample.weight_wu >= 1000,
        revenue > subsidy.sat,
    ensures
        ({
            let fees = revenue - subsidy.sat;
            let kwu = sample.weight_wu as int / 1000;
            rate matches Ok(r) && r.sat_per_kwu >= 250 && (r.sat_per_kwu == 250 ==> fees < 251
                * kwu) && (r.sat_per_kwu > 250 ==> r.sat_per_kwu * kwu <= fees < (r.sat_per_kwu + 1)
                * kwu)
        }),
{
    let fees = revenue - subsidy.sat;
    let kwu = sample.weight_wu as int / 1000;
    let q = fees / kwu;
    vstd::arithmetic::div_mod::lemma_fundamental_div_mod(fees, kwu);
    vstd::arithmetic::div_mod::lemma_mod_bound(fees, kwu);
    vstd::arithmetic::div_mod::lemma_div_is_ordered_by_denominator(fees, 1, kwu);
    assert(q * kwu == kwu * q) by (nonlinear_arith);
    assert((q + 1) * kwu == q * kwu + kwu) by (nonlinear_arith);
    assert(q <= 250 ==> (q + 1) * kwu <= 251 * kwu) by (nonlinear_arith)
        requires
            kwu > 0,
    ;
}

/// A block of at least a thousand weight units whose coinbase took no more than the subsidy cannot
/// be rated on the main network, and has the rate 250 on every other.
pub proof fn blocks_without_fees_are_rated_only_off_mainnet(
    sample: BlockSample,
    height: u32,
    network: Network,
    revenue: u64,
    subsidy: Amount,
    rate: Result<FeeRate, Error>,
)
    requires
        call_ensures(BlockSample::fee_rate, (&sample, height, network), rate),
        call_ensures(BlockSample::revenue, (&sample,), Some(revenue)),
        call_ensures(block_subsidy, (height,), subsidy),
        sample.weight_wu >= 1000,
        revenue <= subsidy.sat,
    ensures
        network is Bitcoin ==> rate == Err::<FeeRate, Error>(Error::FeerateEstimationUpdateFailed),
        !(network is Bitcoin) ==> rate == Ok::<FeeRate, Error>(FeeRate { sat_per_kwu: 250 }),
{
    assert(0int / (sample.weight_wu as int / 1000) == 0) by {
        vstd::arithmetic::div_mod::lemma_div_basics(sample.weight_wu as int / 1000);
    }
}

/// A block of less than a thousand weight units has the rate 250, whatever it took, wherever.
pub proof fn light_blocks_have_the_lowest_rate(
    sample: BlockSample,
    height: u32,
    network: Network,
    rate: Result<FeeRate, Error>,
)
    requires
        call_ensures(BlockSample::fee_rate, (&sample, height, network), rate),
        sample.weight_wu < 1000,
    ensures
        rate == Ok::<FeeRate, Error>(FeeRate { sat_per_kwu: 250 }),
{
}

/// The revenue of a block without coinbase outputs is nothing, and each further output raises it by
/// its value, as long as 64 bits hold it. This leaves no list of outputs open.
pub proof fn each_output_raises_the_revenue(
    fewer: BlockSample,
    sample: BlockSample,
    before: Option<u64>,
    after: Option<u64>,
)
    requires
        call_ensures(BlockSample::revenue, (&fewer,), before),
        call_ensures(BlockSample::revenue, (&sample,), after),
        sample.coinbase_outputs@.len() > 0,
        fewer.coinbase_outputs@ == sample.coinbase_outputs@.drop_last(),
    ensures
        fewer.coinbase_outputs@.len() == 0 ==> before == Some(0u64),
        match (before, after) {
            (Some(b), Some(a)) => a == b + sample.coinbase_outputs@.last(),
            (Some(b), None) => b + sample.coinbase_outputs@.last() > u64::MAX,
            (None, a) => a is None,
        },
{
}

/// A sample has the weight of its block and what the outputs of its first transaction hold, which
/// is nothing where the block has no transaction.
pub proof fn samples_read_the_first_transaction(block: Block, sample: BlockSample)
    requires
        call_ensures(BlockSample::of, (&block,), sample),
    ensures
        sample.weight_wu == block_weight_wu(block),
        block_output_values(block).len() > 0 ==> sample.coinbase_outputs@ == block_output_values(
            block,
        )[0],
        block_output_values(block).len() == 0 ==> sample.coinbase_outputs@.len() == 0,
{
}

} // verus!
