//! The chain source: its configuration, its state, and the operations on them.
use bdk_chain::keychain_txout::KeychainTxOutIndex;
use bdk_chain::CheckPoint;
use bdk_wallet::KeychainKind;
use vstd::prelude::*;

use crate::checkpoint::{
    checkpoint_blocks, is_block, reorg_safe, resume_checkpoint, resume_point,
};
use crate::dispatch::{dispatch_event, event_action, ChainEvent, DispatchAction};
use crate::fee_cache::{BlockFeeCache, Entries};
use crate::runtime::{
    is_exit_action, CbfRuntimeStatus, RestartAction, RestartLoop, MAX_RESTART_RETRIES,
};
use crate::scripts::{
    bytes_of, peeked_scripts, registered, registering_adds_one_script, ScriptRegistry,
};
use crate::types::{BestBlock, Error, Network};
use crate::wallet_sync::WalletSyncStatus;

verus! {

/// How long each kind of work may take, in seconds.
#[derive(Clone, Copy, Debug, PartialEq, Eq, Structural)]
pub struct SyncTimeoutsConfig {
    pub onchain_wallet_sync_timeout_secs: u64,
    pub fee_rate_cache_update_timeout_secs: u64,
    pub tx_broadcast_timeout_secs: u64,
    pub per_request_timeout_secs: u8,
}

/// User-provided sync configuration.
#[derive(Clone, Copy, Debug, PartialEq, Eq)]
pub struct CbfSyncConfig {
    /// How many peers must agree on filter headers before they are accepted.
    pub required_peers: u8,
    /// How long a peer has to respond, in seconds.
    pub response_timeout_secs: u64,
    /// The interval between two background refreshes of the fee rates, in seconds; none where
    /// only manual syncs happen.
    pub fee_rate_cache_update_interval_secs: Option<u64>,
    pub timeouts_config: SyncTimeoutsConfig,
}

/// Which back-end to ask for fee rates, other than the blocks themselves.
pub enum FeeSourceConfig {
    /// An Esplora HTTP server.
    Esplora { server_url: String },
    /// An Electrum server.
    Electrum { server_url: String },
}

/// The fee estimation back-end used by the chain source.
pub enum FeeSource<C> {
    /// Derive fee rates from the coinbase reward of recent blocks.
    ///
    /// Provides a per-target rate using percentile selection across multiple blocks.
    /// Less accurate than a mempool-aware source but requires no extra connectivity.
    Cbf,
    /// Delegate fee estimation to an Esplora HTTP server.
    Esplora { client: C },
    /// Delegate fee estimation to an Electrum server, over a fresh connection for each cycle.
    Electrum { server_url: String },
}

/// Whether a fee source is the one that was configured, where `build_client` made the client.
pub open spec fn is_configured<C, B: FnOnce(String, u64) -> Option<C>>(
    fee_source: Result<FeeSource<C>, Error>,
    config: Option<FeeSourceConfig>,
    per_request_timeout_secs: u8,
    build_client: B,
) -> bool {
    match config {
        None => fee_source == Ok::<FeeSource<C>, Error>(FeeSource::Cbf),
        Some(FeeSourceConfig::Electrum { server_url }) => fee_source == Ok::<FeeSource<C>, Error>(
            FeeSource::Electrum { server_url },
        ),
        Some(FeeSourceConfig::Esplora { server_url }) => match fee_source {
            Ok(FeeSource::Esplora { client }) => call_ensures(
                build_client,
                (server_url, per_request_timeout_secs as u64),
                Some(client),
            ),
            Ok(_) => false,
            Err(error) => error == Error::ConnectionFailed && call_ensures(
                build_client,
                (server_url, per_request_timeout_secs as u64),
                None::<C>,
            ),
        },
    }
}

impl<C> FeeSource<C> {
    /// The configured fee source. The client of an Esplora server is built with the request
    /// timeout; where that fails, there is no fee source.
    pub fn from_config<B: FnOnce(String, u64) -> Option<C>>(
        config: Option<FeeSourceConfig>,
        per_request_timeout_secs: u8,
        build_client: B,
    ) -> (fee_source: Result<FeeSource<C>, Error>)
        requires
            forall|server_url: String, timeout_secs: u64|
                call_requires(build_client, (server_url, timeout_secs)),
        ensures
            is_configured(fee_source, config, per_request_timeout_secs, build_client),
    {
        match config {
            Some(FeeSourceConfig::Esplora { server_url }) => {
                match build_client(server_url, per_request_timeout_secs as u64) {
                    Some(client) => Ok(FeeSource::Esplora { client }),
                    None => Err(Error::ConnectionFailed),
                }
            },
            Some(FeeSourceConfig::Electrum { server_url }) => {
                Ok(FeeSource::Electrum { server_url })
            },
            None => Ok(FeeSource::Cbf),
        }
    }
}

/// What a node is built from.
pub struct NodePlan<P> {
    /// The network to follow.
    pub network: Network,
    /// The storage path, under which the node's data directory lies.
    pub storage_dir_path: String,
    /// The name of the data directory.
    pub data_dir_name: String,
    /// The peers to try first; none where no configured peer can be used.
    pub peers: Vec<P>,
    /// How many peers must agree on filter headers.
    pub required_peers: u8,
    /// Whether blocks are requested with witness data, so that segwit transactions include full
    /// witnesses.
    pub fetch_witness_data: bool,
    /// How long a peer has to respond, in seconds.
    pub response_timeout_secs: u64,
    /// The block strictly after which the node resumes; from the start where there is none.
    pub resume_after: Option<BestBlock>,
}

/// The values that are there, in order.
pub open spec fn present<P>(parsed: Seq<Option<P>>) -> Seq<P>
    decreases parsed.len(),
{
    if parsed.len() == 0 {
        Seq::empty()
    } else {
        match parsed.last() {
            Some(peer) => present(parsed.drop_last()).push(peer),
            None => present(parsed.drop_last()),
        }
    }
}

/// The peers whose addresses could be parsed, in order.
pub fn usable_peers<P>(parsed: Vec<Option<P>>) -> (peers: Vec<P>)
    ensures
        peers@ == present(parsed@),
{
    let ghost all = parsed@;
    let mut parsed: Vec<Option<P>> = parsed;
    let mut peers: Vec<P> = Vec::new();
    assert(present(parsed@) + peers@ =~= present(all));
    while parsed.len() > 0
        invariant
            present(parsed@) + peers@ == present(all),
        decreases parsed@.len(),
    {
        let ghost left = present(parsed@);
        let ghost right = peers@;
        let last: Option<Option<P>> = parsed.pop();
        if let Some(Some(peer)) = last {
            peers.insert(0, peer);
        }
        assert(present(parsed@) + peers@ =~= left + right);
    }
    assert(peers@ =~= present(all));
    peers
}

/// The chain source: `R` is the handle to talk to the node, `E` the receiver of its events, `C`
/// the client of a fee server.
pub struct CbfChainSource<R, E, C> {
    /// Peer addresses for sourcing compact block filters via P2P.
    pub peers: Vec<String>,
    /// User-provided sync configuration (timeouts, background sync intervals).
    pub sync_config: CbfSyncConfig,
    /// The network that the node follows.
    pub network: Network,
    /// The path under which the node keeps its data.
    pub storage_dir_path: String,
    /// Fee estimation back-end.
    pub fee_source: FeeSource<C>,
    /// Tracks whether the node is running and holds the command handle.
    pub runtime_status: CbfRuntimeStatus<R>,
    /// The receiver of the node's events, while no sync loop has it.
    pub event_rx: Option<E>,
    /// Scripts registered for Lightning channel monitoring.
    pub registered_scripts: ScriptRegistry,
    /// Deduplicates concurrent wallet syncs.
    pub wallet_polling_status: WalletSyncStatus,
    /// Fee rates of recent blocks.
    pub block_fee_cache: BlockFeeCache,
}

impl<R, E, C> CbfChainSource<R, E, C> {
    /// A chain source that is not started: no script is registered, no wallet sync is under way,
    /// and no block's fee rate is known. It fails only where the fee source does.
    pub fn new<B: FnOnce(String, u64) -> Option<C>>(
        peers: Vec<String>,
        sync_config: CbfSyncConfig,
        fee_source_config: Option<FeeSourceConfig>,
        network: Network,
        storage_dir_path: String,
        event_rx: E,
        build_client: B,
    ) -> (source: Result<CbfChainSource<R, E, C>, Error>)
        requires
            forall|server_url: String, timeout_secs: u64|
                call_requires(build_client, (server_url, timeout_secs)),
        ensures
            match source {
                Ok(s) => {
                    &&& s.peers == peers
                    &&& s.sync_config == sync_config
                    &&& s.network == network
                    &&& s.storage_dir_path == storage_dir_path
                    &&& is_configured(
                        Ok(s.fee_source),
                        fee_source_config,
                        sync_config.timeouts_config.per_request_timeout_secs,
                        build_client,
                    )
                    &&& s.runtime_status is Stopped
                    &&& s.event_rx == Some(event_rx)
                    &&& s.registered_scripts@ == Seq::<Seq<u8>>::empty()
                    &&& s.wallet_polling_status == WalletSyncStatus::Completed
                    &&& s.block_fee_cache@ == Entries::empty()
                },
                Err(error) => is_configured(
                    Err::<FeeSource<C>, Error>(error),
                    fee_source_config,
                    sync_config.timeouts_config.per_request_timeout_secs,
                    build_client,
                ),
            },
    {
        let fee_source = FeeSource::from_config(
            fee_source_config,
            sync_config.timeouts_config.per_request_timeout_secs,
            build_client,
        );
        match fee_source {
            Ok(fee_source) => Ok(
                CbfChainSource {
                    peers,
                    sync_config,
                    network,
                    storage_dir_path,
                    fee_source,
                    runtime_status: CbfRuntimeStatus::Stopped,
                    event_rx: Some(event_rx),
                    registered_scripts: ScriptRegistry::new(),
                    wallet_polling_status: WalletSyncStatus::Completed,
                    block_fee_cache: BlockFeeCache::new(),
                },
            ),
            Err(error) => Err(error),
        }
    }

    /// What to build a node from: the network, the data directory under the storage path, the
    /// peers whose addresses could be parsed, the configured demands on peers, a request for
    /// witness data, which Lightning channel operations require, and, where there is a wallet, the
    /// block to resume after.
    pub fn node_plan<P>(
        &self,
        parsed_peers: Vec<Option<P>>,
        latest_checkpoint: Option<CheckPoint>,
    ) -> (plan: NodePlan<P>)
        ensures
            plan.network == self.network,
            plan.storage_dir_path == self.storage_dir_path,
            plan.data_dir_name@ == "bip157_data"@,
            plan.fetch_witness_data,
            plan.peers@ == present(parsed_peers@),
            plan.required_peers == self.sync_config.required_peers,
            plan.response_timeout_secs == self.sync_config.response_timeout_secs,
            match latest_checkpoint {
                Some(checkpoint) => is_block(
                    plan.resume_after,
                    resume_point(checkpoint_blocks(checkpoint)),
                ) && reorg_safe(
                    checkpoint_blocks(checkpoint),
                    resume_point(checkpoint_blocks(checkpoint)),
                ),
                None => plan.resume_after is None,
            },
    {
        let resume_after: Option<BestBlock> = match latest_checkpoint {
            Some(checkpoint) => resume_checkpoint(checkpoint),
            None => None,
        };
        NodePlan {
            network: self.network,
            storage_dir_path: self.storage_dir_path.clone(),
            data_dir_name: "bip157_data".to_string(),
            fetch_witness_data: true,
            peers: usable_peers(parsed_peers),
            required_peers: self.sync_config.required_peers,
            response_timeout_secs: self.sync_config.response_timeout_secs,
            resume_after,
        }
    }

    /// Start with a new node's handle. Where a node is already started, it stays, and the new
    /// handle comes back.
    pub fn start(&mut self, requester: R) -> (refused: Option<R>)
        ensures
            *final(self) == (CbfChainSource {
                runtime_status: old(self).runtime_status.after_start(requester),
                ..*old(self)
            }),
            refused == if old(self).runtime_status is Started {
                Some(requester)
            } else {
                None
            },
    {
        self.runtime_status.start(requester)
    }

    /// Stop. The handle of a started node comes back, for the node to be shut down.
    pub fn stop(&mut self) -> (to_shut_down: Option<R>)
        ensures
            *final(self) == (CbfChainSource {
                runtime_status: CbfRuntimeStatus::Stopped,
                ..*old(self)
            }),
            to_shut_down == old(self).runtime_status.handle(),
    {
        self.runtime_status.stop()
    }

    /// Decide what to do when the node exits, cleanly or with an error. Where the restart loop gives
    /// up, the chain source is stopped.
    pub fn on_node_exit(&mut self, restarts: RestartLoop, clean: bool) -> (action: RestartAction)
        ensures
            restarts@ <= MAX_RESTART_RETRIES,
            is_exit_action(restarts@, clean, action),
            *final(self) == (CbfChainSource {
                runtime_status: old(self).runtime_status.after_exit(action),
                ..*old(self)
            }),
    {
        let action: RestartAction = restarts.on_exit(clean);
        if let RestartAction::GiveUp { .. } = &action {
            self.runtime_status = CbfRuntimeStatus::Stopped;
        }
        action
    }

    /// Publish the handle of a rebuilt node, only if nobody stopped the chain source during the
    /// backoff. Otherwise the handle comes back, for the rebuilt node to be shut down.
    pub fn republish(&mut self, requester: R) -> (aborted: Option<R>)
        ensures
            *final(self) == (CbfChainSource {
                runtime_status: old(self).runtime_status.after_republish(requester),
                ..*old(self)
            }),
            aborted == if old(self).runtime_status is Started {
                None
            } else {
                Some(requester)
            },
    {
        self.runtime_status.republish(requester)
    }

    /// The handle of the node, if the node is started and `is_running` says that it runs.
    pub fn requester<F: Fn(&R) -> bool>(&self, is_running: F) -> (requester: Result<&R, Error>)
        requires
            forall|r: &R| call_requires(is_running, (r,)),
        ensures
            match self.runtime_status {
                CbfRuntimeStatus::Started { requester: handle } => match requester {
                    Ok(found) => *found == handle && call_ensures(is_running, (&handle,), true),
                    Err(error) => error == Error::ConnectionFailed && call_ensures(
                        is_running,
                        (&handle,),
                        false,
                    ),
                },
                CbfRuntimeStatus::Stopped => requester == Err::<&R, Error>(Error::ConnectionFailed),
            },
    {
        self.runtime_status.requester(is_running)
    }

    /// The chain source while a sync loop has the event receiver.
    pub open spec fn without_event_rx(self) -> CbfChainSource<R, E, C> {
        CbfChainSource { event_rx: None, ..self }
    }

    /// The chain source with an event receiver to take.
    pub open spec fn with_event_rx(self, event_rx: E) -> CbfChainSource<R, E, C> {
        CbfChainSource { event_rx: Some(event_rx), ..self }
    }

    /// Take the event receiver for a sync loop; `None` where another loop has it.
    pub fn take_event_rx(&mut self) -> (event_rx: Option<E>)
        ensures
            event_rx == old(self).event_rx,
            *final(self) == old(self).without_event_rx(),
    {
        self.event_rx.take()
    }

    /// Restore the event receiver, so that a later sync loop can pick up where this one left off.
    pub fn restore_event_rx(&mut self, event_rx: E)
        ensures
            *final(self) == old(self).with_event_rx(event_rx),
    {
        self.event_rx = Some(event_rx);
    }

    /// Register a transaction script for Lightning channel monitoring.
    pub fn register_tx(&mut self, script_pubkey: Vec<u8>)
        ensures
            final(self).registered_scripts@ == registered(
                old(self).registered_scripts@,
                script_pubkey@,
            ),
            *final(self) == (CbfChainSource {
                registered_scripts: final(self).registered_scripts,
                ..*old(self)
            }),
    {
        self.registered_scripts.insert(script_pubkey);
    }

    /// Register a watched output script for Lightning channel monitoring.
    pub fn register_output(&mut self, script_pubkey: Vec<u8>)
        ensures
            final(self).registered_scripts@ == registered(
                old(self).registered_scripts@,
                script_pubkey@,
            ),
            *final(self) == (CbfChainSource {
                registered_scripts: final(self).registered_scripts,
                ..*old(self)
            }),
    {
        self.registered_scripts.insert(script_pubkey);
    }

    /// Build the union of registered scripts and keychain scripts to match each incoming filter
    /// against.
    pub fn combined_scripts(&self, index: &KeychainTxOutIndex<KeychainKind>) -> (scripts: Vec<
        Vec<u8>,
    >)
        ensures
            bytes_of(scripts@) == peeked_scripts(*index) + self.registered_scripts@,
    {
        self.registered_scripts.combined_scripts(index)
    }

    /// Decide what to do about an event of the node; `None` where the event is a filter that cannot
    /// be read so far that it can be told whether it matches. `connected` says whether the node can be asked.
    pub fn dispatch_event(
        &self,
        event: &ChainEvent,
        index: &KeychainTxOutIndex<KeychainKind>,
        connected: bool,
    ) -> (action: Option<DispatchAction>)
        ensures
            action == event_action(
                *event,
                peeked_scripts(*index) + self.registered_scripts@,
                connected,
                self.sync_config.timeouts_config.per_request_timeout_secs,
            ),
    {
        dispatch_event(
            event,
            &self.registered_scripts,
            index,
            connected,
            self.sync_config.timeouts_config.per_request_timeout_secs,
        )
    }
}

/// At most one sync loop has the event receiver; once that loop has given it back, the chain source
/// is as it was, and the next loop gets the same receiver.
pub proof fn sync_loops_share_one_receiver<R, E, C>(source: CbfChainSource<R, E, C>, event_rx: E)
    requires
        source.event_rx == Some(event_rx),
    ensures
        source.without_event_rx().event_rx is None,
        source.without_event_rx().with_event_rx(event_rx) == source,
{
}

/// Without a configured server the rates come from the blocks; with an Electrum server, from the one
/// at the configured address; with an Esplora server, from the client built for that address and the
/// request timeout, and where none can be built there is no fee source.
pub proof fn fee_sources_are_as_configured<C, B: FnOnce(String, u64) -> Option<C>>(
    server_url: String,
    per_request_timeout_secs: u8,
    build_client: B,
    of_none: Result<FeeSource<C>, Error>,
    of_electrum: Result<FeeSource<C>, Error>,
    of_esplora: Result<FeeSource<C>, Error>,
)
    requires
        call_ensures(
            FeeSource::<C>::from_config::<B>,
            (None, per_request_timeout_secs, build_client),
            of_none,
        ),
        call_ensures(
            FeeSource::<C>::from_config::<B>,
            (
                Some(FeeSourceConfig::Electrum { server_url }),
                per_request_timeout_secs,
                build_client,
            ),
            of_electrum,
        ),
        call_ensures(
            FeeSource::<C>::from_config::<B>,
            (Some(FeeSourceConfig::Esplora { server_url }), per_request_timeout_secs, build_client),
            of_esplora,
        ),
    ensures
        of_none matches Ok(source) && source is Cbf,
        of_electrum == Ok::<FeeSource<C>, Error>(FeeSource::Electrum { server_url }),
        match of_esplora {
            Ok(source) => source matches FeeSource::Esplora { client } && call_ensures(
                build_client,
                (server_url, per_request_timeout_secs as u64),
                Some(client),
            ),
            Err(error) => error is ConnectionFailed && call_ensures(
                build_client,
                (server_url, per_request_timeout_secs as u64),
                None::<C>,
            ),
        },
{
}

/// Of the addresses none is used where there is none, and each further one is used, after the others,
/// exactly where it could be parsed. This leaves no list open.
pub proof fn parsed_peers_are_used_in_order<P>(
    fewer: Vec<Option<P>>,
    parsed: Vec<Option<P>>,
    before: Vec<P>,
    after: Vec<P>,
)
    requires
        call_ensures(usable_peers::<P>, (fewer,), before),
        call_ensures(usable_peers::<P>, (parsed,), after),
        parsed@.len() > 0,
        fewer@ == parsed@.drop_last(),
    ensures
        fewer@.len() == 0 ==> before@.len() == 0,
        parsed@.last() matches Some(peer) ==> after@ == before@.push(peer),
        parsed@.last() is None ==> after@ == before@,
{
}

/// A node is built for the configured network, with its data under the configured storage path, with
/// the parsed peers and the configured demands on peers, with witness data, and resumes where the
/// wallet's checkpoint says.
pub proof fn nodes_are_built_as_configured<R, E, C, P>(
    source: CbfChainSource<R, E, C>,
    parsed_peers: Vec<Option<P>>,
    checkpoint: CheckPoint,
    usable: Vec<P>,
    resume: Option<BestBlock>,
    plan: NodePlan<P>,
    without_wallet: NodePlan<P>,
)
    requires
        call_ensures(
            CbfChainSource::<R, E, C>::node_plan::<P>,
            (&source, parsed_peers, Some(checkpoint)),
            plan,
        ),
        call_ensures(
            CbfChainSource::<R, E, C>::node_plan::<P>,
            (&source, parsed_peers, None),
            without_wallet,
        ),
        call_ensures(usable_peers::<P>, (parsed_peers,), usable),
        call_ensures(resume_checkpoint, (checkpoint,), resume),
    ensures
        plan.network == source.network,
        plan.storage_dir_path@ == source.storage_dir_path@,
        plan.data_dir_name@ == "bip157_data"@,
        plan.peers@ == usable@,
        plan.required_peers == source.sync_config.required_peers,
        plan.response_timeout_secs == source.sync_config.response_timeout_secs,
        plan.fetch_witness_data,
        plan.resume_after is Some <==> resume is Some,
        plan.resume_after matches Some(block) ==> block.height == resume->0.height
            && block.block_hash.bytes@ == resume->0.block_hash.bytes@,
        without_wallet.resume_after is None,
        without_wallet.peers@ == usable@,
{
}

/// A node that exits for good after too many failures leaves the source stopped, and any other exit
/// leaves the source as it was.
pub proof fn only_giving_up_stops_the_source<R, E, C>(
    source: &mut CbfChainSource<R, E, C>,
    restarts: RestartLoop,
    clean: bool,
    action: RestartAction,
)
    requires
        call_ensures(
            CbfChainSource::<R, E, C>::on_node_exit,
            (source, restarts, clean),
            action,
        ),
    ensures
        action is GiveUp ==> final(source).runtime_status is Stopped,
        !(action is GiveUp) ==> *final(source) == *old(source),
        action is Finished <==> clean,
        action is GiveUp <==> !clean && restarts@ >= 5,
        final(source).event_rx == old(source).event_rx,
        final(source).registered_scripts == old(source).registered_scripts,
{
}

/// The receiver is taken by the first loop alone, and what a loop gives back is what the next one
/// takes.
pub proof fn receivers_come_back<R, E, C>(
    taking: &mut CbfChainSource<R, E, C>,
    taken: Option<E>,
    restoring: &mut CbfChainSource<R, E, C>,
    event_rx: E,
)
    requires
        call_ensures(CbfChainSource::<R, E, C>::take_event_rx, (taking,), taken),
        call_ensures(CbfChainSource::<R, E, C>::restore_event_rx, (restoring, event_rx), ()),
    ensures
        taken == old(taking).event_rx,
        final(taking).event_rx is None,
        final(taking).runtime_status == old(taking).runtime_status,
        final(restoring).event_rx == Some(event_rx),
        final(restoring).runtime_status == old(restoring).runtime_status,
{
}

/// What is registered, as a transaction or as an output, is among the scripts that filters are
/// matched against from then on, along with all that were before.
pub proof fn registered_scripts_are_looked_for<R, E, C>(
    by_tx: &mut CbfChainSource<R, E, C>,
    by_output: &mut CbfChainSource<R, E, C>,
    script_pubkey: Vec<u8>,
    other: Vec<u8>,
    tx_before: bool,
    tx_after: bool,
    output_before: bool,
    output_after: bool,
)
    requires
        call_ensures(
            ScriptRegistry::contains,
            (&old(by_tx).registered_scripts, &other),
            tx_before,
        ),
        call_ensures(
            ScriptRegistry::contains,
            (&old(by_output).registered_scripts, &other),
            output_before,
        ),
        call_ensures(CbfChainSource::<R, E, C>::register_tx, (by_tx, script_pubkey), ()),
        call_ensures(CbfChainSource::<R, E, C>::register_output, (by_output, script_pubkey), ()),
        call_ensures(
            ScriptRegistry::contains,
            (&final(by_tx).registered_scripts, &other),
            tx_after,
        ),
        call_ensures(
            ScriptRegistry::contains,
            (&final(by_output).registered_scripts, &other),
            output_after,
        ),
    ensures
        tx_after == (tx_before || other@ == script_pubkey@),
        output_after == (output_before || other@ == script_pubkey@),
{
    registering_adds_one_script(old(by_tx).registered_scripts@, script_pubkey@, other@);
    registering_adds_one_script(old(by_output).registered_scripts@, script_pubkey@, other@);
}

/// The source dispatches events on its own registered scripts and with its own request timeout, and
/// combines its own registered scripts with the wallet's.
pub proof fn sources_dispatch_on_their_own_scripts<R, E, C>(
    source: CbfChainSource<R, E, C>,
    event: ChainEvent,
    index: KeychainTxOutIndex<KeychainKind>,
    connected: bool,
    of_source: Option<DispatchAction>,
    of_event: Option<DispatchAction>,
    from_source: Vec<Vec<u8>>,
    from_registry: Vec<Vec<u8>>,
    j: int,
)
    requires
        call_ensures(
            CbfChainSource::<R, E, C>::dispatch_event,
            (&source, &event, &index, connected),
            of_source,
        ),
        call_ensures(
            dispatch_event,
            (
                &event,
                &source.registered_scripts,
                &index,
                connected,
                source.sync_config.timeouts_config.per_request_timeout_secs,
            ),
            of_event,
        ),
        call_ensures(
            CbfChainSource::<R, E, C>::combined_scripts,
            (&source, &index),
            from_source,
        ),
        call_ensures(
            ScriptRegistry::combined_scripts,
            (&source.registered_scripts, &index),
            from_registry,
        ),
        0 <= j < from_registry@.len(),
    ensures
        of_source == of_event,
        from_source@.len() == from_registry@.len(),
        from_source@[j]@ == from_registry@[j]@,
{
    assert(bytes_of(from_source@) == bytes_of(from_registry@));
    assert(bytes_of(from_source@).len() == from_source@.len());
    assert(bytes_of(from_registry@).len() == from_registry@.len());
    assert(bytes_of(from_source@)[j] == from_source@[j]@);
    assert(bytes_of(from_registry@)[j] == from_registry@[j]@);
}

/// The source starts, stops and publishes rebuilt nodes exactly as its status allows, and nothing else
/// of it changes.
pub proof fn sources_start_and_stop_in_turn<R, E, C>(
    starting: &mut CbfChainSource<R, E, C>,
    stopping: &mut CbfChainSource<R, E, C>,
    rebuilding: &mut CbfChainSource<R, E, C>,
    requester: R,
    refused: Option<R>,
    to_shut_down: Option<R>,
    aborted: Option<R>,
)
    requires
        call_ensures(CbfChainSource::<R, E, C>::start, (starting, requester), refused),
        call_ensures(CbfChainSource::<R, E, C>::stop, (stopping,), to_shut_down),
        call_ensures(CbfChainSource::<R, E, C>::republish, (rebuilding, requester), aborted),
    ensures
        old(starting).runtime_status is Stopped ==> refused is None && final(starting).runtime_status == (CbfRuntimeStatus::Started { requester }),
        old(starting).runtime_status is Started ==> refused == Some(requester) && *final(starting)
            == *old(starting),
        final(stopping).runtime_status is Stopped,
        old(stopping).runtime_status matches CbfRuntimeStatus::Started { requester: running }
            ==> to_shut_down == Some(running),
        old(stopping).runtime_status is Stopped ==> to_shut_down is None,
        old(rebuilding).runtime_status is Stopped ==> aborted == Some(requester) && *final(rebuilding) == *old(rebuilding),
        old(rebuilding).runtime_status is Started ==> aborted is None && final(rebuilding).runtime_status == (CbfRuntimeStatus::Started { requester }),
        final(starting).event_rx == old(starting).event_rx,
        final(stopping).event_rx == old(stopping).event_rx,
        final(rebuilding).event_rx == old(rebuilding).event_rx,
        final(starting).block_fee_cache == old(starting).block_fee_cache,
        final(stopping).block_fee_cache == old(stopping).block_fee_cache,
        final(rebuilding).block_fee_cache == old(rebuilding).block_fee_cache,
{
}

/// A new source keeps what it is given and is idle: nothing is started, registered, under way or
/// cached, and the event receiver is there to take. Without an Esplora server there is always one.
pub proof fn new_sources_are_idle<R, E, C, B: FnOnce(String, u64) -> Option<C>>(
    peers: Vec<String>,
    sync_config: CbfSyncConfig,
    fee_source_config: Option<FeeSourceConfig>,
    network: Network,
    storage_dir_path: String,
    event_rx: E,
    build_client: B,
    script: Vec<u8>,
    is_registered: bool,
    source: Result<CbfChainSource<R, E, C>, Error>,
)
    requires
        call_ensures(
            CbfChainSource::<R, E, C>::new::<B>,
            (
                peers,
                sync_config,
                fee_source_config,
                network,
                storage_dir_path,
                event_rx,
                build_client,
            ),
            source,
        ),
        source matches Ok(s) ==> call_ensures(
            ScriptRegistry::contains,
            (&s.registered_scripts, &script),
            is_registered,
        ),
    ensures
        !(fee_source_config matches Some(FeeSourceConfig::Esplora { .. })) ==> source is Ok,
        source matches Ok(s) ==> {
            &&& s.peers == peers
            &&& s.sync_config == sync_config
            &&& s.network == network
            &&& s.storage_dir_path == storage_dir_path
            &&& s.event_rx == Some(event_rx)
            &&& s.runtime_status is Stopped
            &&& s.wallet_polling_status is Completed
            &&& s.block_fee_cache@.len() == 0
            &&& !is_registered
        },
        source matches Err(error) ==> error is ConnectionFailed,
{
}

} // verus!
