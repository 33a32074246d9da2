//! The loop that feeds events to the listeners and refreshes the fee rates.
use vstd::prelude::*;

use crate::types::BlockHash;

verus! {

/// The shortest interval between two refreshes of the fee rates, in seconds.
pub const MIN_FEE_RATE_UPDATE_INTERVAL_SECS: u64 = 10;

/// The interval between two refreshes of the fee rates: as configured, but not below the minimum;
/// none where background syncing is not configured, and then the rates are refreshed on demand.
pub fn fee_rate_update_interval(configured_secs: Option<u64>) -> (secs: Option<u64>)
    ensures
        match configured_secs {
            Some(configured) => secs == Some(
                if configured < MIN_FEE_RATE_UPDATE_INTERVAL_SECS {
                    MIN_FEE_RATE_UPDATE_INTERVAL_SECS
                } else {
                    configured
                },
            ),
            None => secs is None,
        },
{
    match configured_secs {
        Some(configured) => {
            if configured < MIN_FEE_RATE_UPDATE_INTERVAL_SECS {
                Some(MIN_FEE_RATE_UPDATE_INTERVAL_SECS)
            } else {
                Some(configured)
            }
        },
        None => None,
    }
}

/// What wakes the loop.
#[derive(Clone, Copy, Debug, PartialEq, Eq)]
pub enum Wake {
    /// The loop is told to stop.
    StopRequested,
    /// An event of the node arrived.
    EventArrived,
    /// No event can arrive any more.
    EventsClosed,
    /// The fee rate interval elapsed, while the best block was `tip`.
    FeeRateTick { tip: BlockHash },
}

/// What the event receiver has to give.
#[derive(Clone, Copy, Debug, PartialEq, Eq, Structural)]
pub enum EventQueue {
    /// At least one event is queued.
    Queued,
    /// No event is queued, and none can arrive any more.
    Closed,
    /// No event is queued yet.
    Empty,
}

/// What is ready at one turn of the loop.
pub struct Ready {
    /// The loop is told to stop.
    pub stop_requested: bool,
    /// What the event receiver has to give.
    pub events: EventQueue,
    /// The best block, where the fee rate interval elapsed.
    pub fee_rate_tick: Option<BlockHash>,
}

/// What wakes the loop, of all that is ready: the stop before any event, and events before a fee
/// rate tick; `None` where nothing is ready.
pub open spec fn wake_of(ready: Ready) -> Option<Wake> {
    if ready.stop_requested {
        Some(Wake::StopRequested)
    } else if ready.events == EventQueue::Queued {
        Some(Wake::EventArrived)
    } else if ready.events == EventQueue::Closed {
        Some(Wake::EventsClosed)
    } else {
        match ready.fee_rate_tick {
            Some(tip) => Some(Wake::FeeRateTick { tip }),
            None => None,
        }
    }
}

/// How the search for what wakes the loop goes on.
#[derive(Clone, Copy, Debug, PartialEq, Eq)]
pub enum PollStep {
    /// Take an event, if one is queued, and hand the answer to [`after_event_poll`].
    PollEvents,
    /// See whether the fee rate interval elapsed, and hand the answer to [`after_tick_poll`].
    PollFeeRateTick,
    /// This wakes the loop.
    Woken { wake: Wake },
    /// Nothing is ready.
    Asleep,
}

/// How the search goes on after the stop was polled.
pub open spec fn step_after_stop(stop_requested: bool) -> PollStep {
    if stop_requested {
        PollStep::Woken { wake: Wake::StopRequested }
    } else {
        PollStep::PollEvents
    }
}

/// How the search goes on after the events were polled.
pub open spec fn step_after_events(events: EventQueue) -> PollStep {
    match events {
        EventQueue::Queued => PollStep::Woken { wake: Wake::EventArrived },
        EventQueue::Closed => PollStep::Woken { wake: Wake::EventsClosed },
        EventQueue::Empty => PollStep::PollFeeRateTick,
    }
}

/// How the search goes on after the fee rate interval was polled.
pub open spec fn step_after_tick(fee_rate_tick: Option<BlockHash>) -> PollStep {
    match fee_rate_tick {
        Some(tip) => PollStep::Woken { wake: Wake::FeeRateTick { tip } },
        None => PollStep::Asleep,
    }
}

/// Go on after the stop was polled, which is always first: no event is taken where it is ready.
pub fn after_stop_poll(stop_requested: bool) -> (step: PollStep)
    ensures
        step == step_after_stop(stop_requested),
{
    if stop_requested {
        PollStep::Woken { wake: Wake::StopRequested }
    } else {
        PollStep::PollEvents
    }
}

/// Go on after the events were polled.
pub fn after_event_poll(events: EventQueue) -> (step: PollStep)
    ensures
        step == step_after_events(events),
{
    match events {
        EventQueue::Queued => PollStep::Woken { wake: Wake::EventArrived },
        EventQueue::Closed => PollStep::Woken { wake: Wake::EventsClosed },
        EventQueue::Empty => PollStep::PollFeeRateTick,
    }
}

/// Go on after the fee rate interval was polled, with the best block where it elapsed.
pub fn after_tick_poll(fee_rate_tick: Option<BlockHash>) -> (step: PollStep)
    ensures
        step == step_after_tick(fee_rate_tick),
{
    match fee_rate_tick {
        Some(tip) => PollStep::Woken { wake: Wake::FeeRateTick { tip } },
        None => PollStep::Asleep,
    }
}

/// The search, from the first poll on, ends with what wakes the loop, of all that is ready, and
/// with sleep where nothing is; and events are polled only where no stop is requested.
pub proof fn polling_finds_the_wake(ready: Ready)
    ensures
        ({
            let after_stop = step_after_stop(ready.stop_requested);
            let after_events = if after_stop == PollStep::PollEvents {
                step_after_events(ready.events)
            } else {
                after_stop
            };
            let end = if after_events == PollStep::PollFeeRateTick {
                step_after_tick(ready.fee_rate_tick)
            } else {
                after_events
            };
            &&& after_stop == PollStep::PollEvents <==> !ready.stop_requested
            &&& end == match wake_of(ready) {
                Some(wake) => PollStep::Woken { wake },
                None => PollStep::Asleep,
            }
        }),
{
}

/// What the loop does next.
#[derive(Clone, Copy, Debug, PartialEq, Eq, Structural)]
pub enum LoopAction {
    /// Leave the loop, and give the event receiver back for a later run.
    Exit,
    /// Dispatch the event that arrived.
    Dispatch,
    /// Refresh the fee rates, and tell the loop how that went.
    UpdateFeeRates,
    /// Wait for the next wake-up.
    Wait,
}

/// What the loop remembers.
#[derive(Clone, Copy, Debug, PartialEq, Eq)]
pub struct SyncLoop {
    /// The best block at which the fee rates were last refreshed with success.
    pub last_fee_update_tip: Option<BlockHash>,
}

/// What a wake-up leads to.
pub open spec fn action_on(last_fee_update_tip: Option<BlockHash>, wake: Wake) -> LoopAction {
    match wake {
        Wake::StopRequested => LoopAction::Exit,
        Wake::EventArrived => LoopAction::Dispatch,
        Wake::EventsClosed => LoopAction::Exit,
        Wake::FeeRateTick { tip } => if last_fee_update_tip == Some(tip) {
            LoopAction::Wait
        } else {
            LoopAction::UpdateFeeRates
        },
    }
}

/// The tip of the last successful refresh, after one more attempt at `tip`.
pub open spec fn tip_after_update(
    last_fee_update_tip: Option<BlockHash>,
    tip: BlockHash,
    success: bool,
) -> Option<BlockHash> {
    if success {
        Some(tip)
    } else {
        last_fee_update_tip
    }
}

impl SyncLoop {
    /// A loop that has not refreshed any fee rate.
    pub fn new() -> (sync_loop: SyncLoop)
        ensures
            sync_loop.last_fee_update_tip is None,
    {
        SyncLoop { last_fee_update_tip: None }
    }

    /// Decide what to do on a wake-up. The fee rates are refreshed only where the best block is
    /// not the one of the last successful refresh.
    pub fn on_wake(&self, wake: Wake) -> (action: LoopAction)
        ensures
            action == action_on(self.last_fee_update_tip, wake),
    {
        match wake {
            Wake::StopRequested => LoopAction::Exit,
            Wake::EventArrived => LoopAction::Dispatch,
            Wake::EventsClosed => LoopAction::Exit,
            Wake::FeeRateTick { tip } => {
                match &self.last_fee_update_tip {
                    Some(last) => {
                        if last.same(&tip) {
                            LoopAction::Wait
                        } else {
                            LoopAction::UpdateFeeRates
                        }
                    },
                    None => LoopAction::UpdateFeeRates,
                }
            },
        }
    }

    /// Remember how a refresh at `tip` went.
    pub fn on_fee_rates_updated(&mut self, tip: BlockHash, success: bool)
        ensures
            final(self).last_fee_update_tip == tip_after_update(
                old(self).last_fee_update_tip,
                tip,
                success,
            ),
    {
        if success {
            self.last_fee_update_tip = Some(tip);
        }
    }
}

/// Fee rates are refreshed once per best block: after a success, a tick at the same block only
/// waits, and one at another block refreshes; after a failure, the next tick at the same block
/// tries again.
pub proof fn one_refresh_per_tip(
    last_fee_update_tip: Option<BlockHash>,
    tip: BlockHash,
    other: BlockHash,
)
    requires
        other != tip,
        action_on(last_fee_update_tip, Wake::FeeRateTick { tip }) == LoopAction::UpdateFeeRates,
    ensures
        action_on(
            tip_after_update(last_fee_update_tip, tip, true),
            Wake::FeeRateTick { tip },
        ) == LoopAction::Wait,
        action_on(
            tip_after_update(last_fee_update_tip, tip, true),
            Wake::FeeRateTick { tip: other },
        ) == LoopAction::UpdateFeeRates,
        action_on(
            tip_after_update(last_fee_update_tip, tip, false),
            Wake::FeeRateTick { tip },
        ) == LoopAction::UpdateFeeRates,
{
}

/// What happens around one turn of the loop.
pub struct Turn<E> {
    /// The events that arrive before the turn.
    pub arrived: Seq<E>,
    /// No event can arrive any more.
    pub closed: bool,
    /// The loop is told to stop.
    pub stop_requested: bool,
    /// The best block, where the fee rate interval elapsed.
    pub fee_rate_tick: Option<BlockHash>,
    /// Whether a refresh of the fee rates, if this turn begins one, succeeds.
    pub refresh_succeeds: bool,
}

/// What a run of the loop has come to.
pub struct Run<E> {
    /// The events that were dispatched, in order.
    pub dispatched: Seq<E>,
    /// The events that the receiver still holds, in order.
    pub queued: Seq<E>,
    /// The best block at which the fee rates were last refreshed with success.
    pub last_fee_update_tip: Option<BlockHash>,
    /// Whether the loop was left.
    pub exited: bool,
}

/// What is ready at a turn, where `queued` are the events in the receiver by then.
pub open spec fn ready_at<E>(queued: Seq<E>, turn: Turn<E>) -> Ready {
    Ready {
        stop_requested: turn.stop_requested,
        events: if queued.len() > 0 {
            EventQueue::Queued
        } else if turn.closed {
            EventQueue::Closed
        } else {
            EventQueue::Empty
        },
        fee_rate_tick: turn.fee_rate_tick,
    }
}

/// A run after one more turn. A loop that was left dispatches nothing any more, and what arrives
/// stays in the receiver.
pub open spec fn run_turn<E>(run: Run<E>, turn: Turn<E>) -> Run<E> {
    let queued = run.queued + turn.arrived;
    if run.exited {
        Run { queued, ..run }
    } else {
        match wake_of(ready_at(queued, turn)) {
            None => Run { queued, ..run },
            Some(wake) => match action_on(run.last_fee_update_tip, wake) {
                LoopAction::Exit => Run { queued, exited: true, ..run },
                LoopAction::Dispatch => Run {
                    dispatched: run.dispatched.push(queued[0]),
                    queued: queued.drop_first(),
                    ..run
                },
                LoopAction::UpdateFeeRates => Run {
                    queued,
                    last_fee_update_tip: tip_after_update(
                        run.last_fee_update_tip,
                        wake->tip,
                        turn.refresh_succeeds,
                    ),
                    ..run
                },
                LoopAction::Wait => Run { queued, ..run },
            },
        }
    }
}

/// A run of the loop on a receiver that holds the events `queued` when it begins.
pub open spec fn run_of<E>(queued: Seq<E>, turns: Seq<Turn<E>>) -> Run<E>
    decreases turns.len(),
{
    if turns.len() == 0 {
        Run { dispatched: Seq::empty(), queued, last_fee_update_tip: None, exited: false }
    } else {
        run_turn(run_of(queued, turns.drop_last()), turns.last())
    }
}

/// All events that arrive during some turns, in order.
pub open spec fn arrivals<E>(turns: Seq<Turn<E>>) -> Seq<E>
    decreases turns.len(),
{
    if turns.len() == 0 {
        Seq::empty()
    } else {
        arrivals(turns.drop_last()) + turns.last().arrived
    }
}

/// Each event is dispatched at most once and in order, and none is lost: what a run dispatched,
/// followed by what the receiver still holds, is what the receiver held at first, followed by what
/// arrived.
pub proof fn events_are_dispatched_in_order<E>(queued: Seq<E>, turns: Seq<Turn<E>>)
    ensures
        run_of(queued, turns).dispatched + run_of(queued, turns).queued == queued + arrivals(turns),
    decreases turns.len(),
{
    if turns.len() == 0 {
        assert(run_of(queued, turns).dispatched + run_of(queued, turns).queued =~= queued
            + arrivals(turns));
    } else {
        events_are_dispatched_in_order(queued, turns.drop_last());
        let before = run_of(queued, turns.drop_last());
        let after = run_of(queued, turns);
        let ready = before.queued + turns.last().arrived;
        assert(after.dispatched + after.queued =~= before.dispatched + ready);
        assert(before.dispatched + ready =~= (before.dispatched + before.queued)
            + turns.last().arrived);
        assert(queued + arrivals(turns) =~= (queued + arrivals(turns.drop_last()))
            + turns.last().arrived);
    }
}

/// A later run, on the receiver that an earlier one gave back, goes on with the events that were
/// not yet dispatched: the two together dispatch, in order, what one run would have met.
pub proof fn a_later_run_goes_on<E>(
    queued: Seq<E>,
    first: Seq<Turn<E>>,
    second: Seq<Turn<E>>,
)
    ensures
        ({
            let earlier = run_of(queued, first);
            let later = run_of(earlier.queued, second);
            earlier.dispatched + later.dispatched + later.queued == queued + arrivals(first)
                + arrivals(second)
        }),
{
    events_are_dispatched_in_order(queued, first);
    let earlier = run_of(queued, first);
    let later = run_of(earlier.queued, second);
    events_are_dispatched_in_order(earlier.queued, second);
    assert(earlier.dispatched + later.dispatched + later.queued =~= earlier.dispatched + (
    later.dispatched + later.queued));
    assert(earlier.dispatched + (earlier.queued + arrivals(second)) =~= (earlier.dispatched
        + earlier.queued) + arrivals(second));
}

/// Once the stop is ready at some turn, no further event is taken, even if some are queued: the
/// loop is left, and all that is dispatched was dispatched before that turn.
pub proof fn no_event_is_taken_after_the_stop<E>(queued: Seq<E>, turns: Seq<Turn<E>>, stop: int)
    requires
        0 <= stop < turns.len(),
        turns[stop].stop_requested,
    ensures
        run_of(queued, turns).exited,
        run_of(queued, turns).dispatched == run_of(queued, turns.take(stop)).dispatched,
    decreases turns.len(),
{
    if stop == turns.len() - 1 {
        assert(turns.take(stop) =~= turns.drop_last());
    } else {
        no_event_is_taken_after_the_stop(queued, turns.drop_last(), stop);
        assert(turns.drop_last().take(stop) =~= turns.take(stop));
    }
}

/// Each wake-up has its action: a stop and the end of all events leave the loop, an event is
/// dispatched, and a tick refreshes the fee rates unless the last success was at the same block.
pub proof fn wake_ups_have_their_action(sync_loop: SyncLoop, wake: Wake, action: LoopAction)
    requires
        call_ensures(SyncLoop::on_wake, (&sync_loop, wake), action),
    ensures
        wake is StopRequested ==> action is Exit,
        wake is EventsClosed ==> action is Exit,
        wake is EventArrived ==> action is Dispatch,
        wake matches Wake::FeeRateTick { tip } ==> (action is Wait
            <==> sync_loop.last_fee_update_tip == Some(tip)) && (action is UpdateFeeRates
            <==> sync_loop.last_fee_update_tip != Some(tip)),
{
}

/// A refresh is remembered exactly where it succeeded: after a success a tick at the same block
/// waits, and after a failure every tick is answered as before.
pub proof fn only_successful_refreshes_are_remembered(
    sync_loop: &mut SyncLoop,
    tip: BlockHash,
    success: bool,
    again: LoopAction,
    other: Wake,
    other_before: LoopAction,
    other_after: LoopAction,
)
    requires
        call_ensures(SyncLoop::on_wake, (&*old(sync_loop), other), other_before),
        call_ensures(SyncLoop::on_fee_rates_updated, (sync_loop, tip, success), ()),
        call_ensures(SyncLoop::on_wake, (&*final(sync_loop), Wake::FeeRateTick { tip }), again),
        call_ensures(SyncLoop::on_wake, (&*final(sync_loop), other), other_after),
    ensures
        success ==> again is Wait,
        !success ==> other_after == other_before,
        success && other != (Wake::FeeRateTick { tip }) && other is FeeRateTick ==> other_after
            is UpdateFeeRates,
{
}

/// A stop is what wakes the loop wherever it is ready; an event, or the end of all events, wherever
/// no stop is; a tick only where neither is; and nothing only where none of them is.
pub proof fn stops_win_over_events_and_events_over_ticks(ready: Ready)
    ensures
        ready.stop_requested ==> wake_of(ready) == Some(Wake::StopRequested),
        !ready.stop_requested && ready.events is Queued ==> wake_of(ready) == Some(
            Wake::EventArrived,
        ),
        !ready.stop_requested && ready.events is Closed ==> wake_of(ready) == Some(
            Wake::EventsClosed,
        ),
        !ready.stop_requested && ready.events is Empty ==> (match ready.fee_rate_tick {
            Some(tip) => wake_of(ready) == Some(Wake::FeeRateTick { tip }),
            None => wake_of(ready) is None,
        }),
{
}

/// The stop is polled first and, where it is ready, alone; then the events; then the tick.
pub proof fn polls_go_on_while_nothing_is_ready(
    stop_requested: bool,
    events: EventQueue,
    fee_rate_tick: Option<BlockHash>,
    after_stop: PollStep,
    after_events: PollStep,
    after_tick: PollStep,
)
    requires
        call_ensures(after_stop_poll, (stop_requested,), after_stop),
        call_ensures(after_event_poll, (events,), after_events),
        call_ensures(after_tick_poll, (fee_rate_tick,), after_tick),
    ensures
        stop_requested ==> after_stop == (PollStep::Woken { wake: Wake::StopRequested }),
        !stop_requested ==> after_stop is PollEvents,
        events is Queued ==> after_events == (PollStep::Woken { wake: Wake::EventArrived }),
        events is Closed ==> after_events == (PollStep::Woken { wake: Wake::EventsClosed }),
        events is Empty ==> after_events is PollFeeRateTick,
        fee_rate_tick matches Some(tip) ==> after_tick == (PollStep::Woken {
            wake: Wake::FeeRateTick { tip },
        }),
        fee_rate_tick is None ==> after_tick is Asleep,
{
}

/// The interval is the configured one, but never below ten seconds; none where none is configured.
pub proof fn intervals_are_at_least_ten_seconds(configured: Option<u64>, secs: Option<u64>)
    requires
        call_ensures(fee_rate_update_interval, (configured,), secs),
    ensures
        configured is None <==> secs is None,
        secs matches Some(s) ==> s >= 10 && s >= configured->0 && (s == configured->0 || s == 10),
{
}

} // verus!
