//! From fee rates to one estimate per confirmation target, for each back-end.
use std::collections::HashMap;
use vstd::prelude::*;

use crate::fee_select::{
    in_order, in_order_ascends, select_fee_rate_for_target, selected_rate,
    selected_rate_keeps_the_floor, sort_rates, urgency_is_monotonic, MIN_FEERATE_SAT_PER_KWU,
};
use crate::metrics::{record_fee_rate_update, NodeMetrics};
use crate::types::{Error, FeeRate, Network};

verus! {

/// A confirmation target: what names it, and the number of blocks within which to confirm.
#[derive(Clone, Copy, Debug, PartialEq, Eq, Structural)]
pub struct ConfirmationTarget {
    pub id: u64,
    pub num_blocks: usize,
}

/// Estimates per target, each target under its name.
pub type FeeRateCache = HashMap<u64, FeeRate>;

/// The number of targets that have a base rate: as many as there are of both.
pub open spec fn rated(targets: Seq<ConfirmationTarget>, base: Seq<FeeRate>) -> int {
    if targets.len() < base.len() {
        targets.len() as int
    } else {
        base.len() as int
    }
}

/// Whether no later one of the first `n` targets has the same name as the one at `i`.
pub open spec fn last_of_its_name(targets: Seq<ConfirmationTarget>, n: int, i: int) -> bool {
    0 <= i < n && forall|j: int| i < j < n ==> (#[trigger] targets[j]).id != targets[i].id
}

/// Whether `table` has an estimate for exactly the first `n` targets: for each, its base rate as
/// `adjust` adjusts it. Of targets with the same name, the last counts.
pub open spec fn tabulates<F: Fn(u64, FeeRate) -> FeeRate>(
    table: Map<u64, FeeRate>,
    targets: Seq<ConfirmationTarget>,
    base: Seq<FeeRate>,
    n: int,
    adjust: F,
) -> bool {
    &&& forall|id: u64| #[trigger]
        table.dom().contains(id) <==> exists|i: int|
            0 <= i < n && (#[trigger] targets[i]).id == id
    &&& forall|i: int| #[trigger]
        last_of_its_name(targets, n, i) ==> call_ensures(
            adjust,
            (targets[i].id, base[i]),
            table[targets[i].id],
        )
}

/// One estimate per target that has a base rate, each adjusted for its target.
pub fn fill_fee_rate_cache<F: Fn(u64, FeeRate) -> FeeRate>(
    targets: &Vec<ConfirmationTarget>,
    base: &Vec<FeeRate>,
    adjust: F,
) -> (table: FeeRateCache)
    requires
        forall|id: u64, rate: FeeRate| call_requires(adjust, (id, rate)),
    ensures
        tabulates(table@, targets@, base@, rated(targets@, base@), adjust),
{
    broadcast use vstd::std_specs::hash::group_hash_axioms;

    let mut table: HashMap<u64, FeeRate> = HashMap::new();
    let mut i: usize = 0;
    while i < targets.len() && i < base.len()
        invariant
            i <= rated(targets@, base@),
            forall|id: u64, rate: FeeRate| call_requires(adjust, (id, rate)),
            tabulates(table@, targets@, base@, i as int, adjust),
        decreases targets@.len() - i,
    {
        let target: ConfirmationTarget = targets[i];
        let adjusted: FeeRate = adjust(target.id, base[i]);
        let ghost before = table@;
        table.insert(target.id, adjusted);
        proof {
            assert(table@ == before.insert(target.id, adjusted));
            assert forall|id: u64| #[trigger] table@.dom().contains(id) <==> exists|j: int|
                0 <= j < i + 1 && (#[trigger] targets@[j]).id == id by {
                if id == target.id {
                    assert(targets@[i as int].id == id);
                } else if before.dom().contains(id) {
                    let j = choose|j: int| 0 <= j < i && (#[trigger] targets@[j]).id == id;
                    assert(targets@[j].id == id);
                }
            }
            assert forall|j: int| #[trigger] last_of_its_name(
                targets@,
                i + 1,
                j,
            ) implies call_ensures(adjust, (targets@[j].id, base@[j]), table@[targets@[j].id]) by {
                if j < i {
                    assert(targets@[i as int].id != targets@[j].id);
                    assert(last_of_its_name(targets@, i as int, j));
                }
            }
        }
        i += 1;
    }
    table
}

/// The base rates of the targets, from the rates of the sampled blocks.
pub open spec fn base_rates(targets: Seq<ConfirmationTarget>, samples: Seq<FeeRate>) -> Seq<
    FeeRate,
> {
    targets.map_values(
        |target: ConfirmationTarget|
            selected_rate(in_order(samples), target.num_blocks as nat),
    )
}

/// Whatever the sampled blocks paid, a more urgent target never has a lower base rate than a less
/// urgent one.
pub proof fn base_rates_follow_urgency(
    targets: Seq<ConfirmationTarget>,
    samples: Seq<FeeRate>,
    urgent: int,
    patient: int,
)
    requires
        0 <= urgent < targets.len(),
        0 <= patient < targets.len(),
        targets[urgent].num_blocks <= targets[patient].num_blocks,
    ensures
        base_rates(targets, samples)[urgent].sat_per_kwu >= base_rates(
            targets,
            samples,
        )[patient].sat_per_kwu,
{
    in_order_ascends(samples);
    urgency_is_monotonic(
        in_order(samples),
        targets[urgent].num_blocks as nat,
        targets[patient].num_blocks as nat,
    );
}

/// Where no sampled rate lies below the floor, no base rate does.
pub proof fn base_rates_keep_the_floor(
    targets: Seq<ConfirmationTarget>,
    samples: Seq<FeeRate>,
    i: int,
)
    requires
        0 <= i < targets.len(),
        forall|k: int|
            0 <= k < samples.len() ==> (#[trigger] samples[k]).sat_per_kwu
                >= MIN_FEERATE_SAT_PER_KWU,
    ensures
        base_rates(targets, samples)[i].sat_per_kwu >= MIN_FEERATE_SAT_PER_KWU,
{
    in_order_ascends(samples);
    let sorted = in_order(samples);
    assert forall|k: int| 0 <= k < sorted.len() implies sorted[k].sat_per_kwu
        >= MIN_FEERATE_SAT_PER_KWU by {
        assert(sorted.contains(sorted[k]));
    }
    selected_rate_keeps_the_floor(sorted, targets[i].num_blocks as nat);
}

/// Estimates from the fee rates of recent blocks: for each target the rate at its percentile,
/// adjusted. Without any sample there is no estimate.
pub fn fee_rate_cache_from_samples<F: Fn(u64, FeeRate) -> FeeRate>(
    samples: Vec<FeeRate>,
    targets: &Vec<ConfirmationTarget>,
    adjust: F,
) -> (estimates: Result<FeeRateCache, Error>)
    requires
        forall|id: u64, rate: FeeRate| call_requires(adjust, (id, rate)),
    ensures
        match estimates {
            Ok(table) => samples@.len() > 0 && tabulates(
                table@,
                targets@,
                base_rates(targets@, samples@),
                targets@.len() as int,
                adjust,
            ),
            Err(error) => samples@.len() == 0 && error == Error::FeerateEstimationUpdateFailed,
        },
{
    if samples.len() == 0 {
        return Err(Error::FeerateEstimationUpdateFailed);
    }
    let ghost unsorted = samples@;
    let sorted: Vec<FeeRate> = sort_rates(samples);
    let mut base: Vec<FeeRate> = Vec::new();
    let mut i: usize = 0;
    while i < targets.len()
        invariant
            i <= targets@.len(),
            sorted@ == in_order(unsorted),
            base@ == base_rates(targets@, unsorted).take(i as int),
        decreases targets@.len() - i,
    {
        base.push(select_fee_rate_for_target(sorted.as_slice(), targets[i].num_blocks));
        assert(base@ =~= base_rates(targets@, unsorted).take(i + 1));
        i += 1;
    }
    assert(base@ =~= base_rates(targets@, unsorted));
    Ok(fill_fee_rate_cache(targets, &base, adjust))
}

/// Estimates from the blocks that a sampling cycle gave: those of its samples. A cycle that sampled
/// nothing (`Ok(None)`) gives no estimates, and one that failed passes its error on.
pub fn fee_rate_cache_from_cbf<F: Fn(u64, FeeRate) -> FeeRate>(
    sampled: Result<Option<Vec<FeeRate>>, Error>,
    targets: &Vec<ConfirmationTarget>,
    adjust: F,
) -> (estimates: Result<Option<FeeRateCache>, Error>)
    requires
        forall|id: u64, rate: FeeRate| call_requires(adjust, (id, rate)),
    ensures
        match sampled {
            Ok(Some(samples)) => match estimates {
                Ok(Some(table)) => samples@.len() > 0 && tabulates(
                    table@,
                    targets@,
                    base_rates(targets@, samples@),
                    targets@.len() as int,
                    adjust,
                ),
                Ok(None) => false,
                Err(error) => samples@.len() == 0 && error == Error::FeerateEstimationUpdateFailed,
            },
            Ok(None) => estimates == Ok::<Option<FeeRateCache>, Error>(None),
            Err(error) => estimates == Err::<Option<FeeRateCache>, Error>(error),
        },
{
    match sampled {
        Ok(Some(samples)) => {
            match fee_rate_cache_from_samples(samples, targets, adjust) {
                Ok(table) => Ok(Some(table)),
                Err(error) => Err(error),
            }
        },
        Ok(None) => Ok(None),
        Err(error) => Err(error),
    }
}

/// What an outside fee server answered.
pub enum ServerReply {
    /// The server sent `count` estimates, which give the targets, in order, these base rates.
    Estimates { count: usize, base: Vec<FeeRate> },
    /// The server could not be asked, or did not answer well.
    Failed,
    /// The server did not answer in time.
    TimedOut,
}

/// The estimates of a server: those of its reply, adjusted, unless the reply is missing or the
/// network demands more than it holds.
pub open spec fn estimates_of_reply<F: Fn(u64, FeeRate) -> FeeRate>(
    estimates: Result<FeeRateCache, Error>,
    reply: ServerReply,
    enough: bool,
    network: Network,
    targets: Seq<ConfirmationTarget>,
    adjust: F,
) -> bool {
    match reply {
        ServerReply::Estimates { base, .. } => if !enough && network == Network::Bitcoin {
            estimates == Err::<FeeRateCache, Error>(Error::FeerateEstimationUpdateFailed)
        } else {
            estimates matches Ok(table) && tabulates(
                table@,
                targets,
                base@,
                rated(targets, base@),
                adjust,
            )
        },
        ServerReply::Failed => estimates == Err::<FeeRateCache, Error>(
            Error::FeerateEstimationUpdateFailed,
        ),
        ServerReply::TimedOut => estimates == Err::<FeeRateCache, Error>(
            Error::FeerateEstimationUpdateTimeout,
        ),
    }
}

fn fee_rate_cache_from_reply<F: Fn(u64, FeeRate) -> FeeRate>(
    reply: ServerReply,
    enough: bool,
    network: Network,
    targets: &Vec<ConfirmationTarget>,
    adjust: F,
) -> (estimates: Result<FeeRateCache, Error>)
    requires
        forall|id: u64, rate: FeeRate| call_requires(adjust, (id, rate)),
    ensures
        estimates_of_reply(estimates, reply, enough, network, targets@, adjust),
{
    match reply {
        ServerReply::Estimates { base, .. } => {
            if !enough && network == Network::Bitcoin {
                return Err(Error::FeerateEstimationUpdateFailed);
            }
            Ok(fill_fee_rate_cache(targets, &base, adjust))
        },
        ServerReply::Failed => Err(Error::FeerateEstimationUpdateFailed),
        ServerReply::TimedOut => Err(Error::FeerateEstimationUpdateTimeout),
    }
}

/// Estimates from an Esplora server. An empty reply is disallowed on the main network.
pub fn fee_rate_cache_from_esplora<F: Fn(u64, FeeRate) -> FeeRate>(
    reply: ServerReply,
    network: Network,
    targets: &Vec<ConfirmationTarget>,
    adjust: F,
) -> (estimates: Result<FeeRateCache, Error>)
    requires
        forall|id: u64, rate: FeeRate| call_requires(adjust, (id, rate)),
    ensures
        estimates_of_reply(
            estimates,
            reply,
            !(reply matches ServerReply::Estimates { count, .. } && count == 0),
            network,
            targets@,
            adjust,
        ),
{
    let enough: bool = match &reply {
        ServerReply::Estimates { count, .. } => *count != 0,
        _ => true,
    };
    fee_rate_cache_from_reply(reply, enough, network, targets, adjust)
}

/// Estimates from an Electrum server. The main network demands one result per target; elsewhere,
/// the targets beyond the results get no estimate.
pub fn fee_rate_cache_from_electrum<F: Fn(u64, FeeRate) -> FeeRate>(
    reply: ServerReply,
    network: Network,
    targets: &Vec<ConfirmationTarget>,
    adjust: F,
) -> (estimates: Result<FeeRateCache, Error>)
    requires
        forall|id: u64, rate: FeeRate| call_requires(adjust, (id, rate)),
    ensures
        estimates_of_reply(
            estimates,
            reply,
            !(reply matches ServerReply::Estimates { count, .. } && count != targets@.len()),
            network,
            targets@,
            adjust,
        ),
{
    let enough: bool = match &reply {
        ServerReply::Estimates { count, .. } => *count == targets.len(),
        _ => true,
    };
    fee_rate_cache_from_reply(reply, enough, network, targets, adjust)
}

/// Take over the outcome of an estimation. New estimates replace the current ones and the clock
/// reading is recorded as their time, after which the metrics are to be stored (`Ok(true)`). A
/// skipped estimation (`Ok(None)`) and a failed one change nothing.
pub fn update_fee_rate_estimates(
    outcome: Result<Option<FeeRateCache>, Error>,
    current: &mut FeeRateCache,
    node_metrics: &mut NodeMetrics,
    unix_time_secs: Option<u64>,
) -> (store: Result<bool, Error>)
    ensures
        match outcome {
            Ok(Some(estimates)) => {
                &&& store == Ok::<bool, Error>(true)
                &&& final(current)@ == estimates@
                &&& *final(node_metrics) == old(node_metrics).with_fee_rate_update(unix_time_secs)
            },
            Ok(None) => {
                &&& store == Ok::<bool, Error>(false)
                &&& final(current)@ == old(current)@
                &&& *final(node_metrics) == *old(node_metrics)
            },
            Err(error) => {
                &&& store == Err::<bool, Error>(error)
                &&& final(current)@ == old(current)@
                &&& *final(node_metrics) == *old(node_metrics)
            },
        },
{
    match outcome {
        Ok(Some(estimates)) => {
            *current = estimates;
            record_fee_rate_update(node_metrics, unix_time_secs);
            Ok(true)
        },
        Ok(None) => Ok(false),
        Err(error) => Err(error),
    }
}

/// The result of an update of the fee rates, where `asked` is what [`update_fee_rate_estimates`]
/// said and `stored` is the store's answer, which counts only where the metrics were to be stored.
/// The new estimates are in force by then, also where they could not be stored.
pub fn on_estimates_stored(asked: Result<bool, Error>, stored: Result<(), Error>) -> (result: Result<
    (),
    Error,
>)
    ensures
        result == match asked {
            Ok(store) => if store {
                stored
            } else {
                Ok::<(), Error>(())
            },
            Err(error) => Err::<(), Error>(error),
        },
{
    match asked {
        Ok(store) => {
            if store {
                stored
            } else {
                Ok(())
            }
        },
        Err(error) => Err(error),
    }
}

/// Take over the outcome of an estimation, and store the metrics where there are new estimates: the
/// store gets the metrics with the new stamp, and its answer is the result, with the new estimates
/// in force either way. A skipped estimation is a success and a failed one gives its error, and
/// both change nothing.
pub fn update_and_store_fee_rate_estimates<P: FnOnce(&NodeMetrics) -> Result<(), Error>>(
    outcome: Result<Option<FeeRateCache>, Error>,
    current: &mut FeeRateCache,
    node_metrics: &mut NodeMetrics,
    unix_time_secs: Option<u64>,
    store: P,
) -> (result: Result<(), Error>)
    requires
        forall|metrics: &NodeMetrics| call_requires(store, (metrics,)),
    ensures
        match outcome {
            Ok(Some(estimates)) => {
                &&& final(current)@ == estimates@
                &&& *final(node_metrics) == old(node_metrics).with_fee_rate_update(unix_time_secs)
                &&& call_ensures(store, (&*final(node_metrics),), result)
            },
            Ok(None) => {
                &&& result == Ok::<(), Error>(())
                &&& final(current)@ == old(current)@
                &&& *final(node_metrics) == *old(node_metrics)
            },
            Err(error) => {
                &&& result == Err::<(), Error>(error)
                &&& final(current)@ == old(current)@
                &&& *final(node_metrics) == *old(node_metrics)
            },
        },
{
    let asked: Result<bool, Error> = update_fee_rate_estimates(
        outcome,
        current,
        node_metrics,
        unix_time_secs,
    );
    match asked {
        Ok(true) => {
            let stored: Result<(), Error> = store(&*node_metrics);
            on_estimates_stored(asked, stored)
        },
        _ => on_estimates_stored(asked, Ok(())),
    }
}

/// Each target gets the rate that the Esplora reply has at the target's own position, adjusted for
/// that target; of equally named targets the last. No other target gets one. Only on the main network
/// is a reply refused, and only where the server sent no estimate.
pub proof fn esplora_rates_go_to_their_own_targets<F: Fn(u64, FeeRate) -> FeeRate>(
    count: usize,
    base: Vec<FeeRate>,
    network: Network,
    targets: Vec<ConfirmationTarget>,
    adjust: F,
    estimates: Result<FeeRateCache, Error>,
)
    requires
        call_ensures(
            fee_rate_cache_from_esplora::<F>,
            (ServerReply::Estimates { count, base }, network, &targets, adjust),
            estimates,
        ),
    ensures
        network is Bitcoin && count == 0 ==> estimates == Err::<FeeRateCache, Error>(
            Error::FeerateEstimationUpdateFailed,
        ),
        !(network is Bitcoin && count == 0) ==> estimates is Ok,
        estimates matches Ok(table) ==> {
            &&& forall|i: int|
                #![trigger targets@[i], base@[i]]
                0 <= i < targets@.len() && i < base@.len() && (forall|j: int|
                    i < j < targets@.len() && j < base@.len() ==> (#[trigger] targets@[j]).id
                        != targets@[i].id) ==> table@.dom().contains(targets@[i].id)
                    && call_ensures(
                    adjust,
                    (targets@[i].id, base@[i]),
                    table@[targets@[i].id],
                )
            &&& forall|id: u64| #[trigger]
                table@.dom().contains(id) ==> exists|i: int|
                    0 <= i < targets@.len() && i < base@.len() && (#[trigger] targets@[i]).id == id
        },
{
    if let Ok(table) = estimates {
        assert forall|i: int|
            #![trigger targets@[i], base@[i]]
            0 <= i < targets@.len() && i < base@.len() && (forall|j: int|
                i < j < targets@.len() && j < base@.len() ==> (#[trigger] targets@[j]).id
                    != targets@[i].id) implies table@.dom().contains(targets@[i].id)
            && call_ensures(adjust, (targets@[i].id, base@[i]), table@[targets@[i].id]) by {
            assert(last_of_its_name(targets@, rated(targets@, base@), i));
        }
    }
}

/// Each target gets the rate that the Electrum reply has at the target's own position, adjusted for
/// that target; of equally named targets the last. No other target gets one. Only on the main network
/// is a reply refused, and only where it has not one result per target.
pub proof fn electrum_rates_go_to_their_own_targets<F: Fn(u64, FeeRate) -> FeeRate>(
    count: usize,
    base: Vec<FeeRate>,
    network: Network,
    targets: Vec<ConfirmationTarget>,
    adjust: F,
    estimates: Result<FeeRateCache, Error>,
)
    requires
        call_ensures(
            fee_rate_cache_from_electrum::<F>,
            (ServerReply::Estimates { count, base }, network, &targets, adjust),
            estimates,
        ),
    ensures
        network is Bitcoin && count != targets@.len() ==> estimates == Err::<FeeRateCache, Error>(
            Error::FeerateEstimationUpdateFailed,
        ),
        !(network is Bitcoin && count != targets@.len()) ==> estimates is Ok,
        estimates matches Ok(table) ==> {
            &&& forall|i: int|
                #![trigger targets@[i], base@[i]]
                0 <= i < targets@.len() && i < base@.len() && (forall|j: int|
                    i < j < targets@.len() && j < base@.len() ==> (#[trigger] targets@[j]).id
                        != targets@[i].id) ==> table@.dom().contains(targets@[i].id)
                    && call_ensures(
                    adjust,
                    (targets@[i].id, base@[i]),
                    table@[targets@[i].id],
                )
            &&& forall|id: u64| #[trigger]
                table@.dom().contains(id) ==> exists|i: int|
                    0 <= i < targets@.len() && i < base@.len() && (#[trigger] targets@[i]).id == id
        },
{
    if let Ok(table) = estimates {
        assert forall|i: int|
            #![trigger targets@[i], base@[i]]
            0 <= i < targets@.len() && i < base@.len() && (forall|j: int|
                i < j < targets@.len() && j < base@.len() ==> (#[trigger] targets@[j]).id
                    != targets@[i].id) implies table@.dom().contains(targets@[i].id)
            && call_ensures(adjust, (targets@[i].id, base@[i]), table@[targets@[i].id]) by {
            assert(last_of_its_name(targets@, rated(targets@, base@), i));
        }
    }
}

/// A server that failed or did not answer in time gives no estimates, on any network.
pub proof fn missing_replies_give_no_estimates<F: Fn(u64, FeeRate) -> FeeRate>(
    network: Network,
    targets: Vec<ConfirmationTarget>,
    adjust: F,
    esplora_failed: Result<FeeRateCache, Error>,
    esplora_late: Result<FeeRateCache, Error>,
    electrum_failed: Result<FeeRateCache, Error>,
    electrum_late: Result<FeeRateCache, Error>,
)
    requires
        call_ensures(
            fee_rate_cache_from_esplora::<F>,
            (ServerReply::Failed, network, &targets, adjust),
            esplora_failed,
        ),
        call_ensures(
            fee_rate_cache_from_esplora::<F>,
            (ServerReply::TimedOut, network, &targets, adjust),
            esplora_late,
        ),
        call_ensures(
            fee_rate_cache_from_electrum::<F>,
            (ServerReply::Failed, network, &targets, adjust),
            electrum_failed,
        ),
        call_ensures(
            fee_rate_cache_from_electrum::<F>,
            (ServerReply::TimedOut, network, &targets, adjust),
            electrum_late,
        ),
    ensures
        esplora_failed == Err::<FeeRateCache, Error>(Error::FeerateEstimationUpdateFailed),
        electrum_failed == Err::<FeeRateCache, Error>(Error::FeerateEstimationUpdateFailed),
        esplora_late == Err::<FeeRateCache, Error>(Error::FeerateEstimationUpdateTimeout),
        electrum_late == Err::<FeeRateCache, Error>(Error::FeerateEstimationUpdateTimeout),
{
}

/// A filled table has, for each target with a base rate at its own position, that rate as adjusted
/// for that target; of equally named targets the last; and nothing else.
pub proof fn filled_tables_pair_targets_and_rates<F: Fn(u64, FeeRate) -> FeeRate>(
    targets: Vec<ConfirmationTarget>,
    base: Vec<FeeRate>,
    adjust: F,
    table: FeeRateCache,
    i: int,
    id: u64,
)
    requires
        call_ensures(fill_fee_rate_cache::<F>, (&targets, &base, adjust), table),
        0 <= i < targets@.len(),
        i < base@.len(),
        forall|j: int|
            i < j < targets@.len() && j < base@.len() ==> (#[trigger] targets@[j]).id
                != targets@[i].id,
    ensures
        table@.dom().contains(targets@[i].id),
        call_ensures(adjust, (targets@[i].id, base@[i]), table@[targets@[i].id]),
        table@.dom().contains(id) ==> exists|k: int|
            0 <= k < targets@.len() && k < base@.len() && (#[trigger] targets@[k]).id == id,
{
    assert(last_of_its_name(targets@, rated(targets@, base@), i));
}

/// Of the sampled rates in order, each target gets the one at its percentile, adjusted for that
/// target: for one block the last, for two to six blocks the one with three quarters of the samples
/// below its position, for seven to twelve with half, beyond with one quarter. No other target gets
/// one. For each number of samples and each target there is exactly one such position.
pub proof fn estimates_are_percentiles_of_the_samples<F: Fn(u64, FeeRate) -> FeeRate>(
    samples: Vec<FeeRate>,
    targets: Vec<ConfirmationTarget>,
    adjust: F,
    table: FeeRateCache,
    of_cycle: Result<Option<FeeRateCache>, Error>,
    sorted: Vec<FeeRate>,
    i: int,
    k: int,
    id: u64,
)
    requires
        call_ensures(fee_rate_cache_from_samples::<F>, (samples, &targets, adjust), Ok(table)),
        call_ensures(
            fee_rate_cache_from_cbf::<F>,
            (Ok(Some(samples)), &targets, adjust),
            of_cycle,
        ),
        call_ensures(sort_rates, (samples,), sorted),
        0 <= i < targets@.len(),
        forall|j: int| i < j < targets@.len() ==> (#[trigger] targets@[j]).id != targets@[i].id,
        0 <= k < sorted@.len(),
        targets@[i].num_blocks <= 1 ==> k + 1 == sorted@.len(),
        2 <= targets@[i].num_blocks <= 6 ==> 4 * k <= 3 * sorted@.len() < 4 * (k + 1),
        7 <= targets@[i].num_blocks <= 12 ==> 2 * k <= sorted@.len() < 2 * (k + 1),
        13 <= targets@[i].num_blocks ==> 4 * k <= sorted@.len() < 4 * (k + 1),
    ensures
        table@.dom().contains(targets@[i].id),
        call_ensures(adjust, (targets@[i].id, sorted@[k]), table@[targets@[i].id]),
        table@.dom().contains(id) ==> exists|t: int|
            0 <= t < targets@.len() && (#[trigger] targets@[t]).id == id,
        of_cycle matches Ok(Some(same)) && same@.dom().contains(targets@[i].id) && call_ensures(
            adjust,
            (targets@[i].id, sorted@[k]),
            same@[targets@[i].id],
        ) && (same@.dom().contains(id) ==> exists|t: int|
            0 <= t < targets@.len() && (#[trigger] targets@[t]).id == id),
{
    in_order_ascends(samples@);
    assert(last_of_its_name(targets@, targets@.len() as int, i));
    assert(base_rates(targets@, samples@)[i] == sorted@[k]);
}

/// Samples give estimates exactly where there are any; a cycle that sampled nothing gives none and is
/// no failure, and one that failed passes its error on.
pub proof fn estimates_need_samples<F: Fn(u64, FeeRate) -> FeeRate>(
    samples: Vec<FeeRate>,
    targets: Vec<ConfirmationTarget>,
    adjust: F,
    error: Error,
    of_samples: Result<FeeRateCache, Error>,
    of_cycle: Result<Option<FeeRateCache>, Error>,
    of_nothing: Result<Option<FeeRateCache>, Error>,
    of_failure: Result<Option<FeeRateCache>, Error>,
)
    requires
        call_ensures(fee_rate_cache_from_samples::<F>, (samples, &targets, adjust), of_samples),
        call_ensures(
            fee_rate_cache_from_cbf::<F>,
            (Ok(Some(samples)), &targets, adjust),
            of_cycle,
        ),
        call_ensures(fee_rate_cache_from_cbf::<F>, (Ok(None), &targets, adjust), of_nothing),
        call_ensures(fee_rate_cache_from_cbf::<F>, (Err(error), &targets, adjust), of_failure),
    ensures
        samples@.len() > 0 ==> of_samples is Ok && of_cycle matches Ok(Some(_)),
        samples@.len() == 0 ==> of_samples == Err::<FeeRateCache, Error>(
            Error::FeerateEstimationUpdateFailed,
        ) && of_cycle == Err::<Option<FeeRateCache>, Error>(Error::FeerateEstimationUpdateFailed),
        of_nothing == Ok::<Option<FeeRateCache>, Error>(None),
        of_failure == Err::<Option<FeeRateCache>, Error>(error),
{
}

/// New estimates replace all former ones and set the fee timestamp to the reading, whatever the
/// store then answers, and that answer is the result; without new ones the estimates and the metrics
/// stay as they were.
pub proof fn new_estimates_are_put_in_force<P: FnOnce(&NodeMetrics) -> Result<(), Error>>(
    outcome: Result<Option<FeeRateCache>, Error>,
    current: &mut FeeRateCache,
    node_metrics: &mut NodeMetrics,
    unix_time_secs: Option<u64>,
    store: P,
    result: Result<(), Error>,
)
    requires
        call_ensures(
            update_and_store_fee_rate_estimates::<P>,
            (outcome, current, node_metrics, unix_time_secs, store),
            result,
        ),
    ensures
        outcome matches Ok(Some(estimates)) ==> {
            &&& final(current)@ == estimates@
            &&& final(node_metrics).latest_fee_rate_cache_update_timestamp == unix_time_secs
            &&& call_ensures(store, (&*final(node_metrics),), result)
        },
        !(outcome matches Ok(Some(_))) ==> {
            &&& final(current)@ == old(current)@
            &&& *final(node_metrics) == *old(node_metrics)
            &&& result is Ok <==> outcome is Ok
            &&& outcome matches Err(error) ==> result == Err::<(), Error>(error)
        },
        final(node_metrics).latest_onchain_wallet_sync_timestamp == old(node_metrics).latest_onchain_wallet_sync_timestamp,
        final(node_metrics).latest_lightning_wallet_sync_timestamp == old(node_metrics).latest_lightning_wallet_sync_timestamp,
{
}

} // verus!
