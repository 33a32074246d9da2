//! The timestamps that the chain source keeps in the node metrics.
use std::time::{Duration, SystemTime};
use vstd::prelude::*;

use crate::types::Error;

verus! {

/// When each kind of work last succeeded, in seconds since the Unix epoch.
#[derive(Clone, Copy, Debug, PartialEq, Eq)]
pub struct NodeMetrics {
    pub latest_onchain_wallet_sync_timestamp: Option<u64>,
    pub latest_lightning_wallet_sync_timestamp: Option<u64>,
    pub latest_fee_rate_cache_update_timestamp: Option<u64>,
}

impl NodeMetrics {
    /// The metrics with both wallet sync timestamps set.
    pub open spec fn with_wallet_sync(self, unix_time_secs: Option<u64>) -> NodeMetrics {
        NodeMetrics {
            latest_onchain_wallet_sync_timestamp: unix_time_secs,
            latest_lightning_wallet_sync_timestamp: unix_time_secs,
            ..self
        }
    }

    /// The metrics with the fee rate update timestamp set.
    pub open spec fn with_fee_rate_update(self, unix_time_secs: Option<u64>) -> NodeMetrics {
        NodeMetrics { latest_fee_rate_cache_update_timestamp: unix_time_secs, ..self }
    }
}

/// `std::time::SystemTime`: a reading of the system clock.
#[verifier::external_type_specification]
#[verifier::external_body]
pub struct ExSystemTime(std::time::SystemTime);

/// The time from the Unix epoch to a clock reading; `None` where the reading lies before the
/// epoch.
pub uninterp spec fn since_unix_epoch(reading: SystemTime) -> Option<Duration>;

/// The whole seconds that a duration contains.
pub uninterp spec fn duration_secs(duration: Duration) -> u64;

/// A clock reading in whole seconds since the Unix epoch; `None` where it lies before the epoch.
pub open spec fn unix_secs(reading: SystemTime) -> Option<u64> {
    match since_unix_epoch(reading) {
        Some(duration) => Some(duration_secs(duration)),
        None => None,
    }
}

/// Calls `std::time::SystemTime::now`. Nothing is claimed of the reading.
#[verifier::external_body]
fn clock_reading() -> SystemTime {
    SystemTime::now()
}

/// Calls `std::time::SystemTime::duration_since` with the Unix epoch. The result is a function of
/// the reading alone, under the name [`since_unix_epoch`]; the outside error is `None`.
#[verifier::external_body]
fn time_since_unix_epoch(reading: &SystemTime) -> (duration: Option<Duration>)
    ensures
        duration == since_unix_epoch(*reading),
{
    reading.duration_since(std::time::UNIX_EPOCH).ok()
}

/// Calls `std::time::Duration::as_secs`. The result is a function of the duration alone, under the
/// name [`duration_secs`].
#[verifier::external_body]
fn whole_secs(duration: &Duration) -> (secs: u64)
    ensures
        secs == duration_secs(*duration),
{
    duration.as_secs()
}

fn unix_time_secs() -> (unix_time_secs: Option<u64>)
    ensures
        exists|reading: SystemTime| unix_time_secs == #[trigger] unix_secs(reading),
{
    let reading: SystemTime = clock_reading();
    assert(unix_secs(reading) == unix_secs(reading));
    match time_since_unix_epoch(&reading) {
        Some(duration) => Some(whole_secs(&duration)),
        None => None,
    }
}

/// Record the current timestamp in a `NodeMetrics` field, which `setter` picks, and store the
/// metrics: the setter gets the metrics and one reading of the clock, `store` gets the metrics as
/// the setter left them, and its answer is the result.
pub fn update_node_metrics_timestamp<
    P: FnOnce(&NodeMetrics) -> Result<(), Error>,
    F: FnOnce(&mut NodeMetrics, Option<u64>),
>(node_metrics: &mut NodeMetrics, store: P, setter: F) -> (stored: Result<(), Error>)
    requires
        forall|metrics: &mut NodeMetrics, unix_time_secs: Option<u64>|
            call_requires(setter, (metrics, unix_time_secs)),
        forall|metrics: &NodeMetrics| call_requires(store, (metrics,)),
    ensures
        exists|metrics: &mut NodeMetrics, reading: SystemTime|
            *metrics == *old(node_metrics) && *final(metrics) == *final(node_metrics)
                && #[trigger] call_ensures(setter, (metrics, unix_secs(reading)), ()),
        call_ensures(store, (&*final(node_metrics),), stored),
{
    stamp_node_metrics(node_metrics, setter);
    store(&*node_metrics)
}

/// Record the current timestamp in a `NodeMetrics` field, which `setter` picks, and store nothing:
/// the setter gets the metrics and one reading of the clock.
pub fn stamp_node_metrics<F: FnOnce(&mut NodeMetrics, Option<u64>)>(
    node_metrics: &mut NodeMetrics,
    setter: F,
)
    requires
        forall|metrics: &mut NodeMetrics, unix_time_secs: Option<u64>|
            call_requires(setter, (metrics, unix_time_secs)),
    ensures
        exists|metrics: &mut NodeMetrics, reading: SystemTime|
            *metrics == *old(node_metrics) && *final(metrics) == *final(node_metrics)
                && #[trigger] call_ensures(setter, (metrics, unix_secs(reading)), ()),
{
    set_node_metrics_timestamp(node_metrics, unix_time_secs(), setter);
}

/// Record a given timestamp in a `NodeMetrics` field, which `setter` picks.
pub fn set_node_metrics_timestamp<F: FnOnce(&mut NodeMetrics, Option<u64>)>(
    node_metrics: &mut NodeMetrics,
    unix_time_secs: Option<u64>,
    setter: F,
)
    requires
        forall|metrics: &mut NodeMetrics| call_requires(setter, (metrics, unix_time_secs)),
    ensures
        exists|metrics: &mut NodeMetrics|
            *metrics == *old(node_metrics) && *final(metrics) == *final(node_metrics)
                && #[trigger] call_ensures(setter, (metrics, unix_time_secs), ()),
{
    setter(node_metrics, unix_time_secs);
}

/// Record a clock reading as the time of the last sync of both wallets.
pub fn record_wallet_sync(node_metrics: &mut NodeMetrics, unix_time_secs: Option<u64>)
    ensures
        *final(node_metrics) == old(node_metrics).with_wallet_sync(unix_time_secs),
{
    node_metrics.latest_onchain_wallet_sync_timestamp = unix_time_secs;
    node_metrics.latest_lightning_wallet_sync_timestamp = unix_time_secs;
}

/// Record a clock reading as the time of the last update of the fee rates.
pub fn record_fee_rate_update(node_metrics: &mut NodeMetrics, unix_time_secs: Option<u64>)
    ensures
        *final(node_metrics) == old(node_metrics).with_fee_rate_update(unix_time_secs),
{
    node_metrics.latest_fee_rate_cache_update_timestamp = unix_time_secs;
}

/// A recorded wallet sync sets both wallet timestamps to the reading, and nothing else.
pub proof fn wallet_syncs_set_both_timestamps(
    node_metrics: &mut NodeMetrics,
    unix_time_secs: Option<u64>,
)
    requires
        call_ensures(record_wallet_sync, (node_metrics, unix_time_secs), ()),
    ensures
        final(node_metrics).latest_onchain_wallet_sync_timestamp == unix_time_secs,
        final(node_metrics).latest_lightning_wallet_sync_timestamp == unix_time_secs,
        final(node_metrics).latest_fee_rate_cache_update_timestamp == old(node_metrics).latest_fee_rate_cache_update_timestamp,
{
}

/// A recorded fee rate update sets its timestamp to the reading, and nothing else.
pub proof fn fee_rate_updates_set_one_timestamp(
    node_metrics: &mut NodeMetrics,
    unix_time_secs: Option<u64>,
)
    requires
        call_ensures(record_fee_rate_update, (node_metrics, unix_time_secs), ()),
    ensures
        final(node_metrics).latest_fee_rate_cache_update_timestamp == unix_time_secs,
        final(node_metrics).latest_onchain_wallet_sync_timestamp == old(node_metrics).latest_onchain_wallet_sync_timestamp,
        final(node_metrics).latest_lightning_wallet_sync_timestamp == old(node_metrics).latest_lightning_wallet_sync_timestamp,
{
}

/// The time that is recorded is a clock reading's distance from the Unix epoch in whole seconds;
/// none where the reading lies before the epoch.
pub proof fn readings_are_counted_from_the_epoch(reading: SystemTime)
    ensures
        since_unix_epoch(reading) matches Some(duration) ==> unix_secs(reading) == Some(
            duration_secs(duration),
        ),
        since_unix_epoch(reading) is None ==> unix_secs(reading) is None,
{
}

} // verus!
