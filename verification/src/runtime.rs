//! Whether the node runs, who can talk to it, and how often it is restarted.
use vstd::arithmetic::power2::{lemma2_to64, lemma_pow2_unfold, pow2};
use vstd::prelude::*;

use crate::types::Error;

verus! {

/// Tracks whether the node is running and holds the handle to talk to it.
pub enum CbfRuntimeStatus<R> {
    Started { requester: R },
    Stopped,
}

impl<R> CbfRuntimeStatus<R> {
    /// The status after a start with `requester`: a started node stays.
    pub open spec fn after_start(self, requester: R) -> CbfRuntimeStatus<R> {
        match self {
            CbfRuntimeStatus::Started { .. } => self,
            CbfRuntimeStatus::Stopped => CbfRuntimeStatus::Started { requester },
        }
    }

    /// The status after the node exited and the restart loop decided what to do: giving up stops.
    pub open spec fn after_exit(self, action: RestartAction) -> CbfRuntimeStatus<R> {
        match action {
            RestartAction::GiveUp { .. } => CbfRuntimeStatus::Stopped,
            _ => self,
        }
    }

    /// The status after the handle of a rebuilt node is offered: a stop stays.
    pub open spec fn after_republish(self, requester: R) -> CbfRuntimeStatus<R> {
        match self {
            CbfRuntimeStatus::Started { .. } => CbfRuntimeStatus::Started { requester },
            CbfRuntimeStatus::Stopped => self,
        }
    }

    /// The handle of the node that the status tells of.
    pub open spec fn handle(self) -> Option<R> {
        match self {
            CbfRuntimeStatus::Started { requester } => Some(requester),
            CbfRuntimeStatus::Stopped => None,
        }
    }

    /// Whether the node has been started, and not been stopped since.
    pub fn is_started(&self) -> (started: bool)
        ensures
            started == (*self is Started),
    {
        match self {
            CbfRuntimeStatus::Started { .. } => true,
            CbfRuntimeStatus::Stopped => false,
        }
    }

    /// Start with a new node's handle. Where a node is already started, it stays, and the new
    /// handle comes back.
    pub fn start(&mut self, requester: R) -> (refused: Option<R>)
        ensures
            *final(self) == old(self).after_start(requester),
            refused == if *old(self) is Started {
                Some(requester)
            } else {
                None
            },
    {
        if self.is_started() {
            return Some(requester);
        }
        *self = CbfRuntimeStatus::Started { requester };
        None
    }

    /// Stop. The handle of a started node comes back, for the node to be shut down.
    pub fn stop(&mut self) -> (to_shut_down: Option<R>)
        ensures
            *final(self) == CbfRuntimeStatus::<R>::Stopped,
            to_shut_down == old(self).handle(),
    {
        let mut status: CbfRuntimeStatus<R> = CbfRuntimeStatus::Stopped;
        std::mem::swap(&mut status, self);
        match status {
            CbfRuntimeStatus::Started { requester } => Some(requester),
            CbfRuntimeStatus::Stopped => None,
        }
    }

    /// The handle of the node, if the node is started and `is_running` says that it runs.
    pub fn requester<F: Fn(&R) -> bool>(&self, is_running: F) -> (requester: Result<&R, Error>)
        requires
            forall|r: &R| call_requires(is_running, (r,)),
        ensures
            match *self {
                CbfRuntimeStatus::Started { requester: handle } => match requester {
                    Ok(found) => *found == handle && call_ensures(is_running, (&handle,), true),
                    Err(error) => error == Error::ConnectionFailed && call_ensures(
                        is_running,
                        (&handle,),
                        false,
                    ),
                },
                CbfRuntimeStatus::Stopped => requester == Err::<&R, Error>(Error::ConnectionFailed),
            },
    {
        match self {
            CbfRuntimeStatus::Started { requester } => {
                if is_running(requester) {
                    Ok(requester)
                } else {
                    Err(Error::ConnectionFailed)
                }
            },
            CbfRuntimeStatus::Stopped => Err(Error::ConnectionFailed),
        }
    }

    /// Publish the handle of a rebuilt node, only if nobody stopped the chain source during the
    /// backoff. Otherwise the handle comes back: the rebuilt node must not outlive the stop.
    pub fn republish(&mut self, requester: R) -> (aborted: Option<R>)
        ensures
            *final(self) == old(self).after_republish(requester),
            aborted == if *old(self) is Started {
                None
            } else {
                Some(requester)
            },
    {
        if self.is_started() {
            *self = CbfRuntimeStatus::Started { requester };
            None
        } else {
            Some(requester)
        }
    }
}

/// A node that is rebuilt while the chain source stops never outlives the stop: its handle is not
/// published, however often it is offered. A node that is rebuilt while the source is started
/// replaces the failed one.
pub proof fn rebuilt_nodes_respect_the_stop<R>(
    status: CbfRuntimeStatus<R>,
    first: R,
    second: R,
)
    ensures
        CbfRuntimeStatus::<R>::Stopped.after_republish(first).after_republish(second)
            == CbfRuntimeStatus::<R>::Stopped,
        status is Started ==> status.after_republish(first).handle() == Some(first),
        status.after_start(first).after_start(second) == status.after_start(first),
{
}

/// Maximum consecutive restart attempts before giving up.
pub const MAX_RESTART_RETRIES: u32 = 5;

/// Initial backoff delay for restart retries (doubles each attempt).
pub const INITIAL_BACKOFF_MS: u64 = 500;

/// The delay before the restart attempt `attempt`, of which the first is 1.
pub open spec fn backoff_before(attempt: nat) -> nat
    recommends
        attempt >= 1,
{
    INITIAL_BACKOFF_MS as nat * pow2((attempt - 1) as nat)
}

/// The restart loop of the node, while there are attempts left.
pub struct RestartLoop {
    retries: u32,
    backoff_ms: u64,
}

impl View for RestartLoop {
    type V = nat;

    /// The number of restarts so far.
    closed spec fn view(&self) -> nat {
        self.retries as nat
    }
}

/// What to do when the node exits.
pub enum RestartAction {
    /// The node shut down cleanly; the loop ends and the status stays as it is.
    Finished,
    /// The node failed once more than it may; the loop ends and the status becomes stopped.
    GiveUp { failures: u32 },
    /// Wait, then rebuild the node and go on with `next`.
    Restart { next: RestartLoop, attempt: u32, backoff_ms: u64 },
}

/// Whether an action is the one for a node that exits, cleanly or not, after as many restarts: a
/// clean exit ends the loop, a failure restarts the node after the backoff, and one failure more
/// than there may be restarts gives up.
pub open spec fn is_exit_action(restarts: nat, clean: bool, action: RestartAction) -> bool {
    if clean {
        action == RestartAction::Finished
    } else if restarts >= MAX_RESTART_RETRIES {
        action == (RestartAction::GiveUp { failures: (MAX_RESTART_RETRIES + 1) as u32 })
    } else {
        action matches RestartAction::Restart { next, attempt, backoff_ms } && next@ == restarts + 1
            && attempt == restarts + 1 && backoff_ms == backoff_before(restarts + 1)
    }
}

impl RestartLoop {
    #[verifier::type_invariant]
    spec fn attempts_are_left(self) -> bool {
        self.retries <= MAX_RESTART_RETRIES && self.backoff_ms == backoff_before(
            (self.retries + 1) as nat,
        )
    }

    /// The loop before any restart.
    pub fn new() -> (restarts: RestartLoop)
        ensures
            restarts@ == 0,
    {
        proof {
            lemma2_to64();
        }
        RestartLoop { retries: 0, backoff_ms: INITIAL_BACKOFF_MS }
    }

    /// Decide what to do when the node exits, cleanly or with an error.
    pub fn on_exit(self, clean: bool) -> (action: RestartAction)
        ensures
            self@ <= MAX_RESTART_RETRIES,
            is_exit_action(self@, clean, action),
    {
        proof {
            use_type_invariant(&self);
            lemma2_to64();
            lemma_pow2_unfold((self.retries + 1) as nat);
        }
        if clean {
            return RestartAction::Finished;
        }
        let retries: u32 = self.retries + 1;
        if retries > MAX_RESTART_RETRIES {
            return RestartAction::GiveUp { failures: retries };
        }
        let next = RestartLoop { retries, backoff_ms: self.backoff_ms * 2 };
        RestartAction::Restart { next, attempt: retries, backoff_ms: self.backoff_ms }
    }
}

/// The delays before the first `n` restart attempts, added up.
pub open spec fn total_backoff(n: nat) -> nat
    decreases n,
{
    if n == 0 {
        0
    } else {
        total_backoff((n - 1) as nat) + backoff_before(n)
    }
}

/// The backoff is exponential: it starts at the initial delay and doubles with each attempt.
pub proof fn backoff_doubles(attempt: nat)
    requires
        attempt >= 1,
    ensures
        backoff_before(1) == INITIAL_BACKOFF_MS,
        backoff_before(attempt + 1) == 2 * backoff_before(attempt),
{
    lemma2_to64();
    lemma_pow2_unfold(attempt);
    let p = pow2((attempt - 1) as nat);
    assert(INITIAL_BACKOFF_MS as nat * (2 * p) == 2 * (INITIAL_BACKOFF_MS as nat * p))
        by (nonlinear_arith);
}

/// However often the node fails, the loop waits no longer than all its delays together before it
/// gives up.
pub proof fn backoff_is_bounded(n: nat)
    requires
        n <= MAX_RESTART_RETRIES,
    ensures
        total_backoff(n) + INITIAL_BACKOFF_MS == INITIAL_BACKOFF_MS as nat * pow2(n),
        total_backoff(n) <= 15_500,
    decreases n,
{
    lemma2_to64();
    if n > 0 {
        backoff_is_bounded((n - 1) as nat);
        lemma_pow2_unfold(n);
    }
}

/// A clean exit ends the restarts. A failure restarts the node as long as fewer than five restarts
/// were made, after half a second at first and twice as long each time; the failure after the fifth
/// restart gives up.
pub proof fn five_restarts_with_doubling_delays(
    restarts: RestartLoop,
    clean: bool,
    action: RestartAction,
)
    requires
        call_ensures(RestartLoop::on_exit, (restarts, clean), action),
    ensures
        clean ==> action is Finished,
        !clean && restarts@ < 5 ==> (action matches RestartAction::Restart {
            next,
            attempt,
            backoff_ms,
        } && next@ == restarts@ + 1 && attempt == restarts@ + 1 && (restarts@ == 0 ==> backoff_ms
            == 500) && (restarts@ == 1 ==> backoff_ms == 1000) && (restarts@ == 2 ==> backoff_ms
            == 2000) && (restarts@ == 3 ==> backoff_ms == 4000) && (restarts@ == 4 ==> backoff_ms
            == 8000)),
        !clean && restarts@ >= 5 ==> action == (RestartAction::GiveUp { failures: 6 }),
{
    lemma2_to64();
}

/// Restarts begin with none made, and each one makes the next delay twice as long.
pub proof fn each_delay_is_twice_the_one_before(
    fresh: RestartLoop,
    restarts: RestartLoop,
    next: RestartLoop,
    attempt: u32,
    backoff_ms: u64,
    after: RestartAction,
)
    requires
        call_ensures(RestartLoop::new, (), fresh),
        call_ensures(
            RestartLoop::on_exit,
            (restarts, false),
            RestartAction::Restart { next, attempt, backoff_ms },
        ),
        call_ensures(RestartLoop::on_exit, (next, false), after),
    ensures
        fresh@ == 0,
        after matches RestartAction::Restart { attempt: a, backoff_ms: b, .. } ==> a == attempt + 1
            && b == 2 * backoff_ms,
{
    backoff_doubles(restarts@ + 1);
}

/// A start takes effect exactly where nothing is started; a stop gives the handle of what was
/// started, and leaves nothing started; a rebuilt node is published exactly where the source is still
/// started.
pub proof fn starts_and_stops_take_turns<R>(
    status: &mut CbfRuntimeStatus<R>,
    stopping: &mut CbfRuntimeStatus<R>,
    rebuilt: &mut CbfRuntimeStatus<R>,
    requester: R,
    refused: Option<R>,
    to_shut_down: Option<R>,
    aborted: Option<R>,
)
    requires
        call_ensures(CbfRuntimeStatus::<R>::start, (status, requester), refused),
        call_ensures(CbfRuntimeStatus::<R>::stop, (stopping,), to_shut_down),
        call_ensures(CbfRuntimeStatus::<R>::republish, (rebuilt, requester), aborted),
    ensures
        *old(status) is Stopped ==> *final(status) == (CbfRuntimeStatus::Started { requester })
            && refused is None,
        *old(status) is Started ==> *final(status) == *old(status) && refused == Some(requester),
        *final(stopping) is Stopped,
        *old(stopping) matches CbfRuntimeStatus::Started { requester: running } ==> to_shut_down
            == Some(running),
        *old(stopping) is Stopped ==> to_shut_down is None,
        *old(rebuilt) is Started ==> *final(rebuilt) == (CbfRuntimeStatus::Started { requester })
            && aborted is None,
        *old(rebuilt) is Stopped ==> *final(rebuilt) is Stopped && aborted == Some(requester),
{
}

/// A node can be asked exactly where it is started and runs, and by its own handle.
pub proof fn only_running_nodes_are_asked<R, F: Fn(&R) -> bool>(
    status: CbfRuntimeStatus<R>,
    is_running: F,
    requester: Result<&R, Error>,
)
    requires
        call_ensures(CbfRuntimeStatus::<R>::requester::<F>, (&status, is_running), requester),
    ensures
        requester matches Ok(handle) ==> status == (CbfRuntimeStatus::Started { requester: *handle })
            && call_ensures(is_running, (handle,), true),
        requester matches Err(error) ==> error is ConnectionFailed && (
        status matches CbfRuntimeStatus::Started { requester: handle } ==> call_ensures(
            is_running,
            (&handle,),
            false,
        )),
{
}

} // verus!
