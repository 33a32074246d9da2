//! Broadcasting a package: every transaction gets its turn.
use vstd::prelude::*;

verus! {

/// What became of one transaction.
#[derive(Clone, Copy, Debug, PartialEq, Eq, Structural)]
pub enum BroadcastOutcome {
    /// At least one peer got it.
    Sent,
    /// The node could not broadcast it.
    Failed,
    /// No peer got it in time.
    TimedOut,
}

/// The broadcast of a package of transactions, one after the other.
pub struct Broadcast<T> {
    rest_reversed: Vec<T>,
}

impl<T> View for Broadcast<T> {
    type V = Seq<T>;

    /// The transactions that wait for their turn, the next one first.
    closed spec fn view(&self) -> Seq<T> {
        self.rest_reversed@.reverse()
    }
}

impl<T> Broadcast<T> {
    /// Begin to broadcast a package. Without a running node, nothing is broadcast.
    pub fn begin(package: Vec<T>, connected: bool) -> (broadcast: Broadcast<T>)
        ensures
            broadcast@ == if connected {
                package@
            } else {
                Seq::<T>::empty()
            },
    {
        let mut reversed: Vec<T> = Vec::new();
        if !connected {
            assert(reversed@.reverse() =~= Seq::empty());
            return Broadcast { rest_reversed: reversed };
        }
        let ghost whole = package@;
        let mut package: Vec<T> = package;
        assert(package@ + reversed@.reverse() =~= whole);
        while package.len() > 0
            invariant
                package@ + reversed@.reverse() == whole,
            decreases package@.len(),
        {
            let ghost left = package@;
            let ghost right = reversed@.reverse();
            if let Some(tx) = package.pop() {
                reversed.push(tx);
                assert(package@ + reversed@.reverse() =~= left + right);
            }
        }
        assert(reversed@.reverse() =~= whole);
        Broadcast { rest_reversed: reversed }
    }

    /// The next transaction to submit, whatever became of the previous one; `None` where all had
    /// their turn.
    pub fn next(&mut self, previous: Option<BroadcastOutcome>) -> (tx: Option<T>)
        ensures
            match tx {
                Some(t) => old(self)@ == seq![t] + final(self)@,
                None => old(self)@.len() == 0 && final(self)@ == old(self)@,
            },
    {
        let ghost before = self.rest_reversed@;
        let tx: Option<T> = self.rest_reversed.pop();
        proof {
            if tx is Some {
                assert(before.reverse() =~= seq![tx->0] + self.rest_reversed@.reverse());
            }
        }
        tx
    }
}

/// Every transaction gets exactly one turn, in package order: where each turn takes one
/// transaction off the queue, as [`Broadcast::next`] does, and the queue ends up empty, the turns
/// were those of the whole queue.
pub proof fn every_transaction_gets_its_turn<T>(queues: Seq<Seq<T>>, turns: Seq<T>)
    requires
        queues.len() == turns.len() + 1,
        forall|i: int|
            0 <= i < turns.len() ==> #[trigger] queues[i] == seq![turns[i]] + queues[i + 1],
        queues.last().len() == 0,
    ensures
        turns == queues[0],
    decreases turns.len(),
{
    if turns.len() == 0 {
        assert(turns =~= queues[0]);
    } else {
        let later = queues.drop_first();
        assert forall|i: int| 0 <= i < turns.drop_first().len() implies #[trigger] later[i] == seq![
            turns.drop_first()[i],
        ] + later[i + 1] by {
            assert(queues[i + 1] == seq![turns[i + 1]] + queues[i + 2]);
        }
        every_transaction_gets_its_turn(later, turns.drop_first());
        assert(queues[0] == seq![turns[0]] + queues[1]);
        assert(turns =~= seq![turns[0]] + turns.drop_first());
    }
}

/// With a connected node the whole package waits for its turns, and without one nothing does; a turn
/// takes the first transaction that waits, whatever became of the one before, and leaves the others
/// in order.
pub proof fn turns_are_taken_in_package_order<T>(
    package: Vec<T>,
    connected: bool,
    begun: Broadcast<T>,
    broadcast: &mut Broadcast<T>,
    previous: Option<BroadcastOutcome>,
    tx: Option<T>,
)
    requires
        call_ensures(Broadcast::<T>::begin, (package, connected), begun),
        call_ensures(Broadcast::<T>::next, (broadcast, previous), tx),
    ensures
        connected ==> begun@ == package@,
        !connected ==> begun@.len() == 0,
        old(broadcast)@.len() == 0 <==> tx is None,
        tx matches Some(t) ==> t == old(broadcast)@[0] && final(broadcast)@ == old(broadcast)@.drop_first(),
        tx is None ==> final(broadcast)@.len() == 0,
{
    if let Some(t) = tx {
        assert((seq![t] + final(broadcast)@).drop_first() =~= final(broadcast)@);
    }
}

} // verus!
