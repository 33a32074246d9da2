use cbf_chain_source::broadcast::{Broadcast, BroadcastOutcome};
use cbf_chain_source::metrics::{
    record_fee_rate_update, record_wallet_sync, set_node_metrics_timestamp, stamp_node_metrics,
    update_node_metrics_timestamp, NodeMetrics,
};
use cbf_chain_source::runtime::{
    CbfRuntimeStatus, RestartAction, RestartLoop, MAX_RESTART_RETRIES,
};
use cbf_chain_source::source::{
    usable_peers, CbfChainSource, CbfSyncConfig, FeeSource, FeeSourceConfig, SyncTimeoutsConfig,
};
use cbf_chain_source::sync_loop::{
    after_event_poll, after_stop_poll, after_tick_poll, fee_rate_update_interval, EventQueue,
    LoopAction, PollStep, SyncLoop, Wake,
};
use cbf_chain_source::types::{BlockHash, Error, Network};
use cbf_chain_source::wallet_sync::{
    begin_sync, on_sync_stored, on_sync_tip, subscribed_result, SyncStep, WalletSync,
    WalletSyncStatus,
};

fn no_metrics() -> NodeMetrics {
    NodeMetrics {
        latest_onchain_wallet_sync_timestamp: None,
        latest_lightning_wallet_sync_timestamp: None,
        latest_fee_rate_cache_update_timestamp: None,
    }
}

fn config() -> CbfSyncConfig {
    CbfSyncConfig {
        required_peers: 2,
        response_timeout_secs: 30,
        fee_rate_cache_update_interval_secs: Some(600),
        timeouts_config: SyncTimeoutsConfig {
            onchain_wallet_sync_timeout_secs: 60,
            fee_rate_cache_update_timeout_secs: 10,
            tx_broadcast_timeout_secs: 10,
            per_request_timeout_secs: 15,
        },
    }
}

fn source(fee_source: Option<FeeSourceConfig>) -> Result<CbfChainSource<u32, char, String>, Error> {
    CbfChainSource::new(
        vec![String::from("127.0.0.1:8333")],
        config(),
        fee_source,
        Network::Regtest,
        String::from("/var/lib/node"),
        'e',
        |server_url, timeout_secs| {
            if server_url == "bad" {
                None
            } else {
                Some(format!("{} within {}", server_url, timeout_secs))
            }
        },
    )
}

#[test]
fn restarts_back_off_exponentially_and_end() {
    let mut restarts = RestartLoop::new();
    let mut delays = Vec::new();
    for expected_attempt in 1..=MAX_RESTART_RETRIES {
        match restarts.on_exit(false) {
            RestartAction::Restart { next, attempt, backoff_ms } => {
                assert_eq!(attempt, expected_attempt);
                delays.push(backoff_ms);
                restarts = next;
            },
            _ => panic!("there are attempts left"),
        }
    }
    assert_eq!(delays, vec![500, 1000, 2000, 4000, 8000]);
    assert!(matches!(restarts.on_exit(false), RestartAction::GiveUp { failures: 6 }));
    assert!(matches!(RestartLoop::new().on_exit(true), RestartAction::Finished));
}

#[test]
fn rebuilt_node_does_not_outlive_a_stop() {
    let mut status: CbfRuntimeStatus<u32> = CbfRuntimeStatus::Stopped;
    assert_eq!(status.stop(), None);
    assert_eq!(status.start(1), None);
    assert!(status.is_started());
    // Already started.
    assert_eq!(status.start(2), Some(2));
    // A failed node is replaced.
    assert_eq!(status.republish(3), None);
    assert_eq!(status.requester(|_| true), Ok(&3));
    assert_eq!(status.requester(|_| false), Err(Error::ConnectionFailed));
    // Stopped during the backoff.
    assert_eq!(status.stop(), Some(3));
    assert_eq!(status.republish(4), Some(4));
    assert!(!status.is_started());
    assert_eq!(status.requester(|_| true), Err(Error::ConnectionFailed));
}

#[test]
fn concurrent_syncs_share_one_wait() {
    let mut status = WalletSyncStatus::Completed;
    assert!(!status.register_or_subscribe_pending_sync());
    assert!(status.register_or_subscribe_pending_sync());
    assert!(status.register_or_subscribe_pending_sync());
    assert_eq!(
        status.propagate_result_to_subscribers(Err(Error::WalletOperationTimeout)),
        Err(Error::WalletOperationTimeout)
    );
    assert_eq!(status, WalletSyncStatus::Completed);
    assert!(!status.register_or_subscribe_pending_sync());
    assert_eq!(subscribed_result(Some(Ok(()))), Ok(()));
    assert_eq!(
        subscribed_result(Some(Err(Error::ConnectionFailed))),
        Err(Error::ConnectionFailed)
    );
    assert_eq!(subscribed_result(None), Err(Error::WalletOperationFailed));
}

#[test]
fn sync_waits_for_both_wallets() {
    assert_eq!(begin_sync(true), SyncStep::AskTip);
    assert_eq!(
        begin_sync(false),
        SyncStep::Finish { result: Err(Error::ConnectionFailed) }
    );
    assert_eq!(
        on_sync_tip(None),
        SyncStep::Finish { result: Err(Error::WalletOperationFailed) }
    );
    let sync = WalletSync { target_height: 100 };
    assert_eq!(on_sync_tip(Some(100)), SyncStep::Wait { sync });
    let mut metrics = no_metrics();
    assert_eq!(sync.on_progress(99, 100, &mut metrics, Some(7)), SyncStep::Wait { sync });
    assert_eq!(sync.on_progress(101, 99, &mut metrics, Some(7)), SyncStep::Wait { sync });
    assert_eq!(metrics, no_metrics());
    assert_eq!(sync.on_progress(100, 101, &mut metrics, Some(8)), SyncStep::Store);
    assert_eq!(metrics.latest_onchain_wallet_sync_timestamp, Some(8));
    assert_eq!(metrics.latest_lightning_wallet_sync_timestamp, Some(8));
    assert_eq!(metrics.latest_fee_rate_cache_update_timestamp, None);
    assert_eq!(
        sync.on_timeout(),
        SyncStep::Finish { result: Err(Error::WalletOperationTimeout) }
    );
    assert_eq!(on_sync_stored(Ok(())), SyncStep::Finish { result: Ok(()) });
    assert_eq!(
        on_sync_stored(Err(Error::PersistenceFailed)),
        SyncStep::Finish { result: Err(Error::PersistenceFailed) }
    );
}

#[test]
fn timestamps_go_where_the_setter_says() {
    let mut metrics = no_metrics();
    set_node_metrics_timestamp(&mut metrics, Some(42), |m, t| {
        m.latest_lightning_wallet_sync_timestamp = t;
    });
    assert_eq!(metrics.latest_lightning_wallet_sync_timestamp, Some(42));
    assert_eq!(metrics.latest_onchain_wallet_sync_timestamp, None);
    stamp_node_metrics(&mut metrics, |m, t| {
        m.latest_fee_rate_cache_update_timestamp = t;
    });
    assert!(metrics.latest_fee_rate_cache_update_timestamp > Some(1_600_000_000));
    assert_eq!(metrics.latest_lightning_wallet_sync_timestamp, Some(42));
    record_wallet_sync(&mut metrics, Some(50));
    assert_eq!(metrics.latest_onchain_wallet_sync_timestamp, Some(50));
    assert_eq!(metrics.latest_lightning_wallet_sync_timestamp, Some(50));
    record_fee_rate_update(&mut metrics, None);
    assert_eq!(metrics.latest_fee_rate_cache_update_timestamp, None);
    let mut stored = None;
    let result = update_node_metrics_timestamp(
        &mut metrics,
        |m| {
            stored = Some(*m);
            Ok(())
        },
        record_fee_rate_update,
    );
    assert_eq!(result, Ok(()));
    assert_eq!(stored, Some(metrics));
    assert!(metrics.latest_fee_rate_cache_update_timestamp > Some(1_600_000_000));
    assert_eq!(metrics.latest_onchain_wallet_sync_timestamp, Some(50));
    // The store's error is handed on, with the new stamp in place.
    let result = update_node_metrics_timestamp(
        &mut metrics,
        |_| Err(Error::PersistenceFailed),
        record_wallet_sync,
    );
    assert_eq!(result, Err(Error::PersistenceFailed));
    assert!(metrics.latest_onchain_wallet_sync_timestamp > Some(1_600_000_000));
}

#[test]
fn fee_rates_refresh_once_per_tip() {
    let a = BlockHash::from_byte_array([1; 32]);
    let b = BlockHash::from_byte_array([2; 32]);
    let mut sync_loop = SyncLoop::new();
    assert_eq!(sync_loop.on_wake(Wake::FeeRateTick { tip: a }), LoopAction::UpdateFeeRates);
    // A failed refresh is tried again.
    sync_loop.on_fee_rates_updated(a, false);
    assert_eq!(sync_loop.on_wake(Wake::FeeRateTick { tip: a }), LoopAction::UpdateFeeRates);
    sync_loop.on_fee_rates_updated(a, true);
    assert_eq!(sync_loop.on_wake(Wake::FeeRateTick { tip: a }), LoopAction::Wait);
    assert_eq!(sync_loop.on_wake(Wake::FeeRateTick { tip: b }), LoopAction::UpdateFeeRates);
    assert_eq!(sync_loop.on_wake(Wake::EventArrived), LoopAction::Dispatch);
    assert_eq!(sync_loop.on_wake(Wake::EventsClosed), LoopAction::Exit);
    assert_eq!(sync_loop.on_wake(Wake::StopRequested), LoopAction::Exit);
}

/// Run a loop on queued events; the stop is ready from turn `stop_at` on. Gives what is dispatched.
fn run_loop(receiver: &mut Vec<u8>, stop_at: usize) -> Vec<u8> {
    let sync_loop = SyncLoop::new();
    let mut dispatched = Vec::new();
    for turn in 0.. {
        let mut event = None;
        let mut step = after_stop_poll(turn >= stop_at);
        if step == PollStep::PollEvents {
            let events = if receiver.is_empty() {
                EventQueue::Closed
            } else {
                event = Some(receiver.remove(0));
                EventQueue::Queued
            };
            step = after_event_poll(events);
        }
        match step {
            PollStep::Woken { wake } => match sync_loop.on_wake(wake) {
                LoopAction::Exit => break,
                LoopAction::Dispatch => dispatched.extend(event),
                _ => panic!("only events and the stop are ready"),
            },
            _ => panic!("something is ready"),
        }
    }
    dispatched
}

#[test]
fn the_stop_comes_before_queued_events() {
    let mut receiver = vec![1, 2, 3, 4, 5];
    assert_eq!(run_loop(&mut receiver, 0), Vec::<u8>::new());
    assert_eq!(run_loop(&mut receiver, 2), vec![1, 2]);
    // A later run goes on with the events not yet consumed.
    assert_eq!(receiver, vec![3, 4, 5]);
    assert_eq!(run_loop(&mut receiver, 100), vec![3, 4, 5]);
    assert_eq!(receiver, Vec::<u8>::new());
}

#[test]
fn ticks_are_polled_last() {
    let tip = BlockHash::from_byte_array([1; 32]);
    assert_eq!(after_stop_poll(true), PollStep::Woken { wake: Wake::StopRequested });
    assert_eq!(after_stop_poll(false), PollStep::PollEvents);
    assert_eq!(
        after_event_poll(EventQueue::Queued),
        PollStep::Woken { wake: Wake::EventArrived }
    );
    assert_eq!(
        after_event_poll(EventQueue::Closed),
        PollStep::Woken { wake: Wake::EventsClosed }
    );
    assert_eq!(after_event_poll(EventQueue::Empty), PollStep::PollFeeRateTick);
    assert_eq!(
        after_tick_poll(Some(tip)),
        PollStep::Woken { wake: Wake::FeeRateTick { tip } }
    );
    assert_eq!(after_tick_poll(None), PollStep::Asleep);
}

#[test]
fn fee_rate_interval_has_a_minimum() {
    assert_eq!(fee_rate_update_interval(None), None);
    assert_eq!(fee_rate_update_interval(Some(0)), Some(10));
    assert_eq!(fee_rate_update_interval(Some(10)), Some(10));
    assert_eq!(fee_rate_update_interval(Some(600)), Some(600));
}

#[test]
fn every_transaction_is_submitted_in_order() {
    let mut broadcast = Broadcast::begin(vec!["a", "b", "c"], true);
    assert_eq!(broadcast.next(None), Some("a"));
    assert_eq!(broadcast.next(Some(BroadcastOutcome::Failed)), Some("b"));
    assert_eq!(broadcast.next(Some(BroadcastOutcome::TimedOut)), Some("c"));
    assert_eq!(broadcast.next(Some(BroadcastOutcome::Sent)), None);
    let mut nothing = Broadcast::begin(vec!["a"], false);
    assert_eq!(nothing.next(None), None);
}

#[test]
fn fee_source_follows_the_configuration() {
    assert!(matches!(source(None).unwrap().fee_source, FeeSource::Cbf));
    let electrum = FeeSourceConfig::Electrum { server_url: String::from("tcp://x") };
    match source(Some(electrum)).unwrap().fee_source {
        FeeSource::Electrum { server_url } => assert_eq!(server_url, "tcp://x"),
        _ => panic!("Electrum is configured"),
    }
    let esplora = FeeSourceConfig::Esplora { server_url: String::from("http://x") };
    match source(Some(esplora)).unwrap().fee_source {
        FeeSource::Esplora { client } => assert_eq!(client, "http://x within 15"),
        _ => panic!("Esplora is configured"),
    }
    let bad = FeeSourceConfig::Esplora { server_url: String::from("bad") };
    assert_eq!(source(Some(bad)).err(), Some(Error::ConnectionFailed));
}

#[test]
fn a_new_source_is_idle() {
    let mut source = source(None).unwrap();
    assert!(!source.runtime_status.is_started());
    assert_eq!(source.wallet_polling_status, WalletSyncStatus::Completed);
    assert_eq!(source.block_fee_cache.len(), 0);
    assert!(!source.registered_scripts.contains(&vec![1]));
    assert_eq!(source.requester(|_| true), Err(Error::ConnectionFailed));
    // One loop at a time has the receiver.
    assert_eq!(source.take_event_rx(), Some('e'));
    assert_eq!(source.take_event_rx(), None);
    source.restore_event_rx('e');
    assert_eq!(source.take_event_rx(), Some('e'));
    assert_eq!(source.start(9), None);
    assert_eq!(source.requester(|_| true), Ok(&9));
    assert_eq!(source.stop(), Some(9));
}

#[test]
fn giving_up_stops_the_source() {
    let mut source = source(None).unwrap();
    assert_eq!(source.start(0), None);
    let mut restarts = RestartLoop::new();
    for handle in 1..=5 {
        match source.on_node_exit(restarts, false) {
            RestartAction::Restart { next, .. } => restarts = next,
            _ => panic!("there are attempts left"),
        }
        assert!(source.runtime_status.is_started());
        assert_eq!(source.republish(handle), None);
        assert_eq!(source.requester(|_| true), Ok(&handle));
    }
    assert!(matches!(
        source.on_node_exit(restarts, false),
        RestartAction::GiveUp { failures: 6 }
    ));
    assert!(!source.runtime_status.is_started());
    assert_eq!(source.republish(6), Some(6));
    // A clean exit leaves the status as it is.
    assert_eq!(source.start(7), None);
    assert!(matches!(source.on_node_exit(RestartLoop::new(), true), RestartAction::Finished));
    assert!(source.runtime_status.is_started());
}

#[test]
fn only_parsed_peers_are_used() {
    assert_eq!(usable_peers(vec![Some(1), None, Some(2), None, Some(3)]), vec![1, 2, 3]);
    assert_eq!(usable_peers(vec![None::<u8>, None]), Vec::<u8>::new());
    let plan = source(None).unwrap().node_plan(vec![None, Some(7)], None);
    assert_eq!(plan.network, Network::Regtest);
    assert_eq!(plan.storage_dir_path, "/var/lib/node");
    assert_eq!(plan.data_dir_name, "bip157_data");
    assert!(plan.fetch_witness_data);
    assert_eq!(plan.peers, vec![7]);
    assert_eq!(plan.required_peers, 2);
    assert_eq!(plan.response_timeout_secs, 30);
    assert_eq!(plan.resume_after, None);
}
