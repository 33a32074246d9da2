//! Waiting until the wallets have caught up with the chain, once for all who ask at a time.
//!
//! With pushed blocks there is nothing to fetch: a sync takes the height of the node's chain tip
//! and waits until both wallets have processed all blocks up to it.
use vstd::prelude::*;

use crate::metrics::{record_wallet_sync, NodeMetrics};
use crate::types::Error;

verus! {

/// Whether a wallet sync is under way. The first caller starts the wait; those who call before it
/// is over piggyback on the same result.
#[derive(Clone, Copy, Debug, PartialEq, Eq, Structural)]
pub enum WalletSyncStatus {
    Completed,
    InProgress,
}

impl WalletSyncStatus {
    /// Whether a caller who comes now subscribes to a sync that is already under way.
    pub open spec fn subscribes(self) -> bool {
        self == WalletSyncStatus::InProgress
    }

    /// The status after one more caller.
    pub open spec fn after_caller(self) -> WalletSyncStatus {
        WalletSyncStatus::InProgress
    }

    /// Register a sync, or find one to subscribe to. Whether the caller is to wait for the result
    /// of the sync that is already under way.
    pub fn register_or_subscribe_pending_sync(&mut self) -> (subscribe: bool)
        ensures
            *final(self) == old(self).after_caller(),
            subscribe == old(self).subscribes(),
    {
        match self {
            WalletSyncStatus::Completed => {
                *self = WalletSyncStatus::InProgress;
                false
            },
            WalletSyncStatus::InProgress => true,
        }
    }

    /// End the sync that is under way. Its result is that of the one who led it, and the same goes
    /// to all subscribers.
    pub fn propagate_result_to_subscribers(&mut self, result: Result<(), Error>) -> (shared: Result<
        (),
        Error,
    >)
        ensures
            *final(self) == WalletSyncStatus::Completed,
            shared == result,
    {
        *self = WalletSyncStatus::Completed;
        result
    }
}

/// The result for a subscriber: what the sync gave, or a failure where nothing was received.
pub fn subscribed_result(received: Option<Result<(), Error>>) -> (result: Result<(), Error>)
    ensures
        result == match received {
            Some(given) => given,
            None => Err::<(), Error>(Error::WalletOperationFailed),
        },
{
    match received {
        Some(given) => given,
        None => Err(Error::WalletOperationFailed),
    }
}

/// A sync that waits until both wallets have reached the height that the chain tip had when the
/// sync began.
#[derive(Clone, Copy, Debug, PartialEq, Eq, Structural)]
pub struct WalletSync {
    pub target_height: u32,
}

/// What the one who leads a sync does next.
#[derive(Clone, Copy, Debug, PartialEq, Eq)]
pub enum SyncStep {
    /// Ask the node for its chain tip.
    AskTip,
    /// Wait for the listeners' progress.
    Wait { sync: WalletSync },
    /// Store the metrics, in which the time of the sync is recorded.
    Store,
    /// The sync is over.
    Finish { result: Result<(), Error> },
}

/// Begin a sync. Without a running node it is over at once.
pub fn begin_sync(connected: bool) -> (step: SyncStep)
    ensures
        step == if connected {
            SyncStep::AskTip
        } else {
            SyncStep::Finish { result: Err(Error::ConnectionFailed) }
        },
{
    if connected {
        SyncStep::AskTip
    } else {
        SyncStep::Finish { result: Err(Error::ConnectionFailed) }
    }
}

/// Go on with the height of the current chain tip, or with the node's failure to tell it.
pub fn on_sync_tip(tip: Option<u32>) -> (step: SyncStep)
    ensures
        step == match tip {
            Some(height) => SyncStep::Wait { sync: WalletSync { target_height: height } },
            None => SyncStep::Finish { result: Err(Error::WalletOperationFailed) },
        },
{
    match tip {
        Some(target_height) => SyncStep::Wait { sync: WalletSync { target_height } },
        None => SyncStep::Finish { result: Err(Error::WalletOperationFailed) },
    }
}

impl WalletSync {
    /// Whether wallets at these heights have reached the target.
    pub open spec fn reached(self, onchain_height: u32, lightning_height: u32) -> bool {
        onchain_height >= self.target_height && lightning_height >= self.target_height
    }

    /// Go on with the heights of the on-chain and the Lightning wallet. Where both have reached the
    /// target, the clock reading is recorded for both wallets, even where no event did so
    /// meanwhile.
    pub fn on_progress(
        self,
        onchain_height: u32,
        lightning_height: u32,
        node_metrics: &mut NodeMetrics,
        unix_time_secs: Option<u64>,
    ) -> (step: SyncStep)
        ensures
            if self.reached(onchain_height, lightning_height) {
                &&& step == SyncStep::Store
                &&& *final(node_metrics) == old(node_metrics).with_wallet_sync(unix_time_secs)
            } else {
                &&& step == (SyncStep::Wait { sync: self })
                &&& *final(node_metrics) == *old(node_metrics)
            },
    {
        if onchain_height >= self.target_height && lightning_height >= self.target_height {
            record_wallet_sync(node_metrics, unix_time_secs);
            SyncStep::Store
        } else {
            SyncStep::Wait { sync: self }
        }
    }

    /// Go on after the time for the wait is over.
    pub fn on_timeout(self) -> (step: SyncStep)
        ensures
            step == (SyncStep::Finish { result: Err(Error::WalletOperationTimeout) }),
    {
        SyncStep::Finish { result: Err(Error::WalletOperationTimeout) }
    }
}

/// Go on after the metrics were stored, or could not be.
pub fn on_sync_stored(stored: Result<(), Error>) -> (step: SyncStep)
    ensures
        step == (SyncStep::Finish { result: stored }),
{
    SyncStep::Finish { result: stored }
}

/// The status after `n` callers.
pub open spec fn after_callers(status: WalletSyncStatus, n: nat) -> WalletSyncStatus
    decreases n,
{
    if n == 0 {
        status
    } else {
        after_callers(status, (n - 1) as nat).after_caller()
    }
}

/// How many of `n` callers start a wait of their own.
pub open spec fn starters(status: WalletSyncStatus, n: nat) -> nat
    decreases n,
{
    if n == 0 {
        0
    } else {
        starters(status, (n - 1) as nat) + if after_callers(status, (n - 1) as nat).subscribes() {
            0nat
        } else {
            1nat
        }
    }
}

/// Concurrent callers are deduplicated: however many come before the result is propagated, exactly
/// one of them starts a wait where none was under way, and none does where one was.
pub proof fn one_wait_at_a_time(status: WalletSyncStatus, n: nat)
    requires
        n > 0,
    ensures
        starters(status, n) == if status.subscribes() {
            0nat
        } else {
            1nat
        },
    decreases n,
{
    reveal_with_fuel(starters, 2);
    reveal_with_fuel(after_callers, 2);
    if n > 1 {
        one_wait_at_a_time(status, (n - 1) as nat);
    }
}

/// A sync that has caught up stays caught up while the wallets advance.
pub proof fn caught_up_is_stable(
    sync: WalletSync,
    onchain_height: u32,
    lightning_height: u32,
    later_onchain: u32,
    later_lightning: u32,
)
    requires
        sync.reached(onchain_height, lightning_height),
        onchain_height <= later_onchain,
        lightning_height <= later_lightning,
    ensures
        sync.reached(later_onchain, later_lightning),
{
}

/// A sync has caught up only where neither wallet is below the target height: while either is, it
/// waits, with the same target and with the metrics as they were; and as soon as neither is, the
/// reading is recorded for both wallets.
pub proof fn no_wallet_may_be_below_the_target(
    sync: WalletSync,
    onchain_height: u32,
    lightning_height: u32,
    node_metrics: &mut NodeMetrics,
    unix_time_secs: Option<u64>,
    step: SyncStep,
)
    requires
        call_ensures(
            WalletSync::on_progress,
            (sync, onchain_height, lightning_height, node_metrics, unix_time_secs),
            step,
        ),
    ensures
        onchain_height < sync.target_height || lightning_height < sync.target_height ==> step == (
        SyncStep::Wait { sync }) && *final(node_metrics) == *old(node_metrics),
        onchain_height >= sync.target_height && lightning_height >= sync.target_height ==> {
            &&& step is Store
            &&& final(node_metrics).latest_onchain_wallet_sync_timestamp == unix_time_secs
            &&& final(node_metrics).latest_lightning_wallet_sync_timestamp == unix_time_secs
            &&& final(node_metrics).latest_fee_rate_cache_update_timestamp == old(node_metrics).latest_fee_rate_cache_update_timestamp
        },
{
}

/// The target of a sync is the height of the chain tip itself. A sync fails without a node to ask,
/// without a tip, and where the wait takes too long, each time with its own error; else its result
/// is that of the store.
pub proof fn syncs_wait_for_the_tip(
    connected: bool,
    tip: Option<u32>,
    sync: WalletSync,
    stored: Result<(), Error>,
    begun: SyncStep,
    on_tip: SyncStep,
    late: SyncStep,
    end: SyncStep,
)
    requires
        call_ensures(begin_sync, (connected,), begun),
        call_ensures(on_sync_tip, (tip,), on_tip),
        call_ensures(WalletSync::on_timeout, (sync,), late),
        call_ensures(on_sync_stored, (stored,), end),
    ensures
        connected ==> begun is AskTip,
        !connected ==> begun == (SyncStep::Finish { result: Err(Error::ConnectionFailed) }),
        tip matches Some(height) ==> (on_tip matches SyncStep::Wait { sync: waiting }
            && waiting.target_height == height),
        tip is None ==> on_tip == (SyncStep::Finish { result: Err(Error::WalletOperationFailed) }),
        late == (SyncStep::Finish { result: Err(Error::WalletOperationTimeout) }),
        end == (SyncStep::Finish { result: stored }),
{
}

/// A caller subscribes exactly where a sync is under way, after the first caller one is, and after
/// its end none; and whoever led or subscribed gets the one result.
pub proof fn one_result_for_all_callers(
    status: &mut WalletSyncStatus,
    subscribe: bool,
    ending: &mut WalletSyncStatus,
    result: Result<(), Error>,
    shared: Result<(), Error>,
    received: Result<(), Error>,
    nothing: Result<(), Error>,
)
    requires
        call_ensures(
            WalletSyncStatus::register_or_subscribe_pending_sync,
            (status,),
            subscribe,
        ),
        call_ensures(
            WalletSyncStatus::propagate_result_to_subscribers,
            (ending, result),
            shared,
        ),
        call_ensures(subscribed_result, (Some(shared),), received),
        call_ensures(subscribed_result, (None::<Result<(), Error>>,), nothing),
    ensures
        subscribe == (*old(status) is InProgress),
        *final(status) is InProgress,
        *final(ending) is Completed,
        shared == result,
        received == result,
        nothing == Err::<(), Error>(Error::WalletOperationFailed),
{
}

} // verus!
