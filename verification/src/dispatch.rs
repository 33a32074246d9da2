//! What each event of the node means for those who listen to the chain.
use bdk_chain::keychain_txout::KeychainTxOutIndex;
use bdk_wallet::KeychainKind;
use vstd::prelude::*;

use crate::filter::{filter_match_any, filter_matches, readable, IndexedFilter};
use crate::header::BlockHeader;
use crate::scripts::{peeked_scripts, ScriptRegistry};
use crate::types::{BestBlock, BlockHash, Error};

verus! {

/// A block header with associated height.
#[derive(Clone, Copy, Debug, PartialEq, Eq)]
pub struct IndexedHeader {
    pub height: u32,
    pub header: BlockHeader,
}

/// What the node reports.
pub enum ChainEvent {
    /// A compact block filter has been checked.
    IndexedFilter { filter: IndexedFilter },
    /// Blocks were reorganized. The removed headers ascend by height, so the first one is the
    /// lowest.
    Reorganized { accepted: Vec<IndexedHeader>, reorganized: Vec<IndexedHeader> },
    /// A block was connected to the tip of the header chain.
    Connected { connected: IndexedHeader },
    /// A peer proposed a block that is not on the chain of most work.
    ForkAdded { fork: IndexedHeader },
    /// The node has synced all filters up to a tip.
    FiltersSynced { tip: BestBlock },
}

/// What to do about an event.
#[derive(Clone, Copy, Debug, PartialEq, Eq)]
pub enum DispatchAction {
    /// Fetch the matched block, waiting no longer than the timeout, and hand the answer to
    /// [`after_block_fetch`].
    FetchBlock { block_hash: BlockHash, height: u32, timeout_secs: u64 },
    /// Look up the header of the unmatched block, and hand the answer to [`after_header_lookup`].
    FetchHeader { height: u32 },
    /// Roll all listeners back to the fork point.
    Disconnect { fork_point: BestBlock },
    /// Record and store the time of the sync, and hand the store's answer to
    /// [`after_sync_recorded`].
    RecordSync,
    /// Do nothing.
    Nothing,
}

/// The action for a checked filter: without a running node, nothing; else the block where some
/// script matched, and only its header where none did.
pub open spec fn filter_action(
    height: u32,
    block_hash: BlockHash,
    matches: bool,
    connected: bool,
    per_request_timeout_secs: u8,
) -> DispatchAction {
    if !connected {
        DispatchAction::Nothing
    } else if matches {
        DispatchAction::FetchBlock {
            block_hash,
            height,
            timeout_secs: per_request_timeout_secs as u64,
        }
    } else {
        DispatchAction::FetchHeader { height }
    }
}

/// Decide what to do about a checked filter, once it is known whether it matches.
pub fn on_filter(
    height: u32,
    block_hash: BlockHash,
    matches: bool,
    connected: bool,
    per_request_timeout_secs: u8,
) -> (action: DispatchAction)
    ensures
        action == filter_action(height, block_hash, matches, connected, per_request_timeout_secs),
{
    if !connected {
        return DispatchAction::Nothing;
    }
    if matches {
        DispatchAction::FetchBlock {
            block_hash,
            height,
            timeout_secs: per_request_timeout_secs as u64,
        }
    } else {
        DispatchAction::FetchHeader { height }
    }
}

/// The block at which the old chain and the new one part: one below the lowest removed block.
pub open spec fn fork_point_below(lowest: IndexedHeader) -> BestBlock {
    BestBlock {
        block_hash: lowest.header.prev_blockhash,
        height: if lowest.height == 0 {
            0
        } else {
            (lowest.height - 1) as u32
        },
    }
}

/// The action for an event, where `scripts` are those to look for; `None` where the event is a
/// filter that cannot be read so far that it can be told whether it matches.
pub open spec fn event_action(
    event: ChainEvent,
    scripts: Seq<Seq<u8>>,
    connected: bool,
    per_request_timeout_secs: u8,
) -> Option<DispatchAction> {
    match event {
        ChainEvent::IndexedFilter { filter } => match filter_matches(filter@, scripts) {
            Some(matches) => Some(
                filter_action(
                    filter@.height,
                    filter@.block_hash,
                    matches,
                    connected,
                    per_request_timeout_secs,
                ),
            ),
            None => None,
        },
        ChainEvent::Reorganized { reorganized, .. } => if reorganized@.len() == 0 {
            Some(DispatchAction::Nothing)
        } else {
            Some(DispatchAction::Disconnect { fork_point: fork_point_below(reorganized@[0]) })
        },
        ChainEvent::Connected { .. } => Some(DispatchAction::Nothing),
        ChainEvent::ForkAdded { .. } => Some(DispatchAction::Nothing),
        ChainEvent::FiltersSynced { .. } => Some(DispatchAction::RecordSync),
    }
}

/// Decide what to do about an event. `connected` says whether the node can be asked.
pub fn dispatch_event(
    event: &ChainEvent,
    registered_scripts: &ScriptRegistry,
    index: &KeychainTxOutIndex<KeychainKind>,
    connected: bool,
    per_request_timeout_secs: u8,
) -> (action: Option<DispatchAction>)
    ensures
        action == event_action(
            *event,
            peeked_scripts(*index) + registered_scripts@,
            connected,
            per_request_timeout_secs,
        ),
{
    match event {
        ChainEvent::IndexedFilter { filter } => {
            let scripts: Vec<Vec<u8>> = registered_scripts.combined_scripts(index);
            match filter.contains_any(&scripts) {
                Some(matches) => Some(
                    on_filter(
                        filter.height(),
                        filter.block_hash(),
                        matches,
                        connected,
                        per_request_timeout_secs,
                    ),
                ),
                None => None,
            }
        },
        ChainEvent::Reorganized { reorganized, .. } => Some(on_reorganization(reorganized)),
        ChainEvent::Connected { .. } => Some(DispatchAction::Nothing),
        ChainEvent::ForkAdded { .. } => Some(DispatchAction::Nothing),
        ChainEvent::FiltersSynced { .. } => Some(DispatchAction::RecordSync),
    }
}

/// Decide what to do about a reorganization that removed these headers, the lowest first. The
/// accepted headers arrive as filters later on.
pub fn on_reorganization(reorganized: &Vec<IndexedHeader>) -> (action: DispatchAction)
    ensures
        action == if reorganized@.len() == 0 {
            DispatchAction::Nothing
        } else {
            DispatchAction::Disconnect { fork_point: fork_point_below(reorganized@[0]) }
        },
{
    if reorganized.len() == 0 {
        return DispatchAction::Nothing;
    }
    let lowest: IndexedHeader = reorganized[0];
    let height: u32 = lowest.height.saturating_sub(1);
    DispatchAction::Disconnect {
        fork_point: BestBlock { block_hash: lowest.header.prev_blockhash, height },
    }
}

/// What became of the request for a matched block.
#[derive(Clone, Copy, Debug, PartialEq, Eq, Structural)]
pub enum FetchOutcome {
    Fetched,
    Failed,
    TimedOut,
}

/// What became of the lookup of a header.
#[derive(Clone, Copy, Debug, PartialEq, Eq, Structural)]
pub enum LookupOutcome {
    Found,
    NotFound,
    Failed,
}

/// What the listeners hear about a block.
#[derive(Clone, Copy, Debug, PartialEq, Eq, Structural)]
pub enum ListenerAction {
    /// The block is connected at this height, with all its transactions.
    ConnectBlock { height: u32 },
    /// The block is connected at this height, with no transaction that matters.
    ConnectHeader { height: u32 },
    /// Nothing.
    Nothing,
}

/// What the listeners hear after the request for the matched block at `height`.
pub fn after_block_fetch(height: u32, outcome: FetchOutcome) -> (action: ListenerAction)
    ensures
        action == if outcome == FetchOutcome::Fetched {
            ListenerAction::ConnectBlock { height }
        } else {
            ListenerAction::Nothing
        },
{
    match outcome {
        FetchOutcome::Fetched => ListenerAction::ConnectBlock { height },
        FetchOutcome::Failed => ListenerAction::Nothing,
        FetchOutcome::TimedOut => ListenerAction::Nothing,
    }
}

/// What the listeners hear after the lookup of the unmatched block's header at `height`.
pub fn after_header_lookup(height: u32, outcome: LookupOutcome) -> (action: ListenerAction)
    ensures
        action == if outcome == LookupOutcome::Found {
            ListenerAction::ConnectHeader { height }
        } else {
            ListenerAction::Nothing
        },
{
    match outcome {
        LookupOutcome::Found => ListenerAction::ConnectHeader { height },
        LookupOutcome::NotFound => ListenerAction::Nothing,
        LookupOutcome::Failed => ListenerAction::Nothing,
    }
}

/// What to do after the time of a sync was recorded.
#[derive(Clone, Copy, Debug, PartialEq, Eq)]
pub enum RecordedAction {
    /// Wake all who wait for the sync's progress. A failure to store the time is only logged.
    WakeWaiters { failure: Option<Error> },
}

/// Go on after the time of a sync was stored, or could not be: those who wait are woken all the
/// same.
pub fn after_sync_recorded(stored: Result<(), Error>) -> (action: RecordedAction)
    ensures
        action == (RecordedAction::WakeWaiters {
            failure: match stored {
                Ok(_) => None,
                Err(error) => Some(error),
            },
        }),
{
    match stored {
        Ok(_) => RecordedAction::WakeWaiters { failure: None },
        Err(error) => RecordedAction::WakeWaiters { failure: Some(error) },
    }
}

/// A reorganization rolls the listeners back to just below every block that it removed.
pub proof fn reorganization_disconnects_every_removed_block(
    accepted: Vec<IndexedHeader>,
    reorganized: Vec<IndexedHeader>,
    scripts: Seq<Seq<u8>>,
    connected: bool,
    per_request_timeout_secs: u8,
    i: int,
)
    requires
        forall|a: int, b: int|
            0 <= a <= b < reorganized@.len() ==> reorganized@[a].height <= reorganized@[b].height,
        0 <= i < reorganized@.len(),
        reorganized@[0].height > 0,
    ensures
        event_action(
            ChainEvent::Reorganized { accepted, reorganized },
            scripts,
            connected,
            per_request_timeout_secs,
        ) matches Some(DispatchAction::Disconnect { fork_point }) && fork_point.height
            < reorganized@[i].height && fork_point.height + 1 == reorganized@[0].height
            && fork_point.block_hash == reorganized@[0].header.prev_blockhash,
{
}

/// A block is downloaded only where its filter matches a script to look for; where there is no
/// such script, none ever is.
pub proof fn only_matched_blocks_are_fetched(
    filter: IndexedFilter,
    scripts: Seq<Seq<u8>>,
    connected: bool,
    per_request_timeout_secs: u8,
)
    ensures
        event_action(
            ChainEvent::IndexedFilter { filter },
            scripts,
            connected,
            per_request_timeout_secs,
        ) matches Some(DispatchAction::FetchBlock { .. }) ==> connected && scripts.len() > 0
            && filter_match_any(filter@.content, filter@.block_hash@, scripts) == Some(true),
{
}

/// Every matched block is downloaded: where a node is connected and a readable filter matches one of
/// the scripts to look for, the block of that very filter is fetched, whatever its height.
pub proof fn every_matched_block_is_fetched(
    filter: IndexedFilter,
    registered_scripts: ScriptRegistry,
    index: KeychainTxOutIndex<KeychainKind>,
    per_request_timeout_secs: u8,
    scripts: Vec<Vec<u8>>,
    action: Option<DispatchAction>,
)
    requires
        call_ensures(
            dispatch_event,
            (
                &ChainEvent::IndexedFilter { filter },
                &registered_scripts,
                &index,
                true,
                per_request_timeout_secs,
            ),
            action,
        ),
        call_ensures(ScriptRegistry::combined_scripts, (&registered_scripts, &index), scripts),
        call_ensures(IndexedFilter::contains_any, (&filter, &scripts), Some(true)),
    ensures
        action == Some(
            DispatchAction::FetchBlock {
                block_hash: filter@.block_hash,
                height: filter@.height,
                timeout_secs: per_request_timeout_secs as u64,
            },
        ),
{
}

/// Of every other block only the header is looked up, at the height of the very filter. Without a
/// connected node nothing is done, and a filter that cannot be read is reported.
pub proof fn unmatched_blocks_are_connected_by_their_header(
    filter: IndexedFilter,
    registered_scripts: ScriptRegistry,
    index: KeychainTxOutIndex<KeychainKind>,
    connected: bool,
    per_request_timeout_secs: u8,
    scripts: Vec<Vec<u8>>,
    matched: Option<bool>,
    action: Option<DispatchAction>,
)
    requires
        call_ensures(
            dispatch_event,
            (
                &ChainEvent::IndexedFilter { filter },
                &registered_scripts,
                &index,
                connected,
                per_request_timeout_secs,
            ),
            action,
        ),
        call_ensures(ScriptRegistry::combined_scripts, (&registered_scripts, &index), scripts),
        call_ensures(IndexedFilter::contains_any, (&filter, &scripts), matched),
    ensures
        matched is None <==> action is None,
        matched is Some && !connected ==> action == Some(DispatchAction::Nothing),
        matched == Some(false) && connected ==> action == Some(
            DispatchAction::FetchHeader { height: filter@.height },
        ),
{
}

/// A match as the filter itself decides it, on the scripts to look for, leads to the download of its
/// block.
pub proof fn a_match_leads_to_the_block(
    filter: IndexedFilter,
    scripts: Seq<Seq<u8>>,
    per_request_timeout_secs: u8,
)
    requires
        scripts.len() > 0,
        readable(filter@.content),
        filter_match_any(filter@.content, filter@.block_hash@, scripts) == Some(true),
    ensures
        event_action(
            ChainEvent::IndexedFilter { filter },
            scripts,
            true,
            per_request_timeout_secs,
        ) == Some(
            DispatchAction::FetchBlock {
                block_hash: filter@.block_hash,
                height: filter@.height,
                timeout_secs: per_request_timeout_secs as u64,
            },
        ),
{
}

/// The decision about a checked filter: with a connected node, the block where the filter matches and
/// its header where not; and nothing without one.
pub proof fn matched_blocks_come_whole(
    height: u32,
    block_hash: BlockHash,
    matches: bool,
    connected: bool,
    per_request_timeout_secs: u8,
    action: DispatchAction,
)
    requires
        call_ensures(
            on_filter,
            (height, block_hash, matches, connected, per_request_timeout_secs),
            action,
        ),
    ensures
        connected && matches <==> (action matches DispatchAction::FetchBlock {
            block_hash: h,
            height: at,
            timeout_secs,
        } && h == block_hash && at == height && timeout_secs == per_request_timeout_secs),
        connected && !matches <==> (action matches DispatchAction::FetchHeader { height: at } && at
            == height),
        !connected <==> action is Nothing,
{
}

/// A reorganization that removed blocks always rolls the listeners back: to the block before the
/// lowest removed one, which is one lower, unless that one is at the lowest height of all.
pub proof fn reorganizations_roll_back_below_the_lowest(
    accepted: Vec<IndexedHeader>,
    reorganized: Vec<IndexedHeader>,
    registered_scripts: ScriptRegistry,
    index: KeychainTxOutIndex<KeychainKind>,
    connected: bool,
    per_request_timeout_secs: u8,
    action: Option<DispatchAction>,
    alone: DispatchAction,
)
    requires
        call_ensures(
            dispatch_event,
            (
                &ChainEvent::Reorganized { accepted, reorganized },
                &registered_scripts,
                &index,
                connected,
                per_request_timeout_secs,
            ),
            action,
        ),
        call_ensures(on_reorganization, (&reorganized,), alone),
    ensures
        action == Some(alone),
        reorganized@.len() == 0 ==> alone is Nothing,
        reorganized@.len() > 0 ==> (alone matches DispatchAction::Disconnect { fork_point }
            && fork_point.block_hash == reorganized@[0].header.prev_blockhash && (
        if reorganized@[0].height == 0 {
            fork_point.height == 0
        } else {
            fork_point.height + 1 == reorganized@[0].height
        })),
{
}

/// A finished sync of the filters is always recorded, and a new header alone leads to nothing.
pub proof fn finished_syncs_are_recorded(
    tip: BestBlock,
    header: IndexedHeader,
    registered_scripts: ScriptRegistry,
    index: KeychainTxOutIndex<KeychainKind>,
    connected: bool,
    per_request_timeout_secs: u8,
    on_synced: Option<DispatchAction>,
    on_connected: Option<DispatchAction>,
    on_fork: Option<DispatchAction>,
)
    requires
        call_ensures(
            dispatch_event,
            (
                &ChainEvent::FiltersSynced { tip },
                &registered_scripts,
                &index,
                connected,
                per_request_timeout_secs,
            ),
            on_synced,
        ),
        call_ensures(
            dispatch_event,
            (
                &ChainEvent::Connected { connected: header },
                &registered_scripts,
                &index,
                connected,
                per_request_timeout_secs,
            ),
            on_connected,
        ),
        call_ensures(
            dispatch_event,
            (
                &ChainEvent::ForkAdded { fork: header },
                &registered_scripts,
                &index,
                connected,
                per_request_timeout_secs,
            ),
            on_fork,
        ),
    ensures
        on_synced == Some(DispatchAction::RecordSync),
        on_connected == Some(DispatchAction::Nothing),
        on_fork == Some(DispatchAction::Nothing),
{
}

/// The listeners hear of a block exactly where it or its header is at hand, at its own height; and
/// those who wait for a sync are woken in any case.
pub proof fn listeners_hear_of_what_is_at_hand(
    height: u32,
    fetch: FetchOutcome,
    lookup: LookupOutcome,
    stored: Result<(), Error>,
    on_fetch: ListenerAction,
    on_lookup: ListenerAction,
    recorded: RecordedAction,
)
    requires
        call_ensures(after_block_fetch, (height, fetch), on_fetch),
        call_ensures(after_header_lookup, (height, lookup), on_lookup),
        call_ensures(after_sync_recorded, (stored,), recorded),
    ensures
        fetch is Fetched ==> on_fetch == (ListenerAction::ConnectBlock { height }),
        !(fetch is Fetched) ==> on_fetch is Nothing,
        lookup is Found ==> on_lookup == (ListenerAction::ConnectHeader { height }),
        !(lookup is Found) ==> on_lookup is Nothing,
        recorded matches RecordedAction::WakeWaiters { failure } && (failure is None
            <==> stored is Ok) && (stored matches Err(error) ==> failure == Some(error)),
{
}

} // verus!
