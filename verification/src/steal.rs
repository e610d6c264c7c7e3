//! The work-stealing queue: one private last-in-first-out deque per worker,
//! with randomized victim selection when a worker's own deque runs dry.
//!
//! Local pops favour freshly produced follow-up work; the random victim
//! order avoids a fixed hot-spot. Whatever order the randomness picks, a
//! take removes exactly one entry, and reports empty only when every deque
//! is empty — no entry is lost or duplicated.

use vstd::multiset::Multiset;
use vstd::prelude::*;

verus! {

/// Per-worker deques of pending actions with stealing between them.
///
/// Concurrent hosts guard the queue behind their own lock.
#[derive(Debug)]
pub struct WorkerStealingQueue<A> {
    Queues: Vec<Vec<A>>,
}

/// The entries of a sequence of deques, taken together as a multiset.
pub open spec fn TotalOf<A>(Queues: Seq<Seq<A>>) -> Multiset<A>
    decreases Queues.len(),
{
    if Queues.len() == 0 {
        Multiset::empty()
    } else {
        Queues[0].to_multiset().add(TotalOf(Queues.drop_first()))
    }
}

impl<A> WorkerStealingQueue<A> {
    /// The deques, one per worker, oldest entry first.
    pub closed spec fn SpecQueues(&self) -> Seq<Seq<A>> {
        Seq::new(self.Queues@.len(), |i: int| self.Queues@[i]@)
    }

    /// Everything queued, over all workers.
    pub open spec fn SpecTotal(&self) -> Multiset<A> {
        TotalOf(self.SpecQueues())
    }

    /// A queue for `Force` workers, all deques empty.
    pub fn New(Force: usize) -> (r: Self)
        ensures
            r.SpecQueues().len() == Force,
            forall|j: int| 0 <= j < Force ==> r.SpecQueues()[j].len() == 0,
    {
        let mut Queues: Vec<Vec<A>> = Vec::new();
        let mut i: usize = 0;
        while i < Force
            invariant
                i <= Force,
                Queues@.len() == i,
                forall|j: int| 0 <= j < i ==> Queues@[j]@.len() == 0,
            decreases Force - i,
        {
            Queues.push(Vec::new());
            i += 1;
        }
        WorkerStealingQueue { Queues }
    }

    /// Push `Action` onto worker `Identifier`'s own deque.
    pub fn Assign(&mut self, Identifier: usize, Action: A)
        requires
            Identifier < old(self).SpecQueues().len(),
        ensures
            final(self).SpecQueues() =~= old(self).SpecQueues().update(
                Identifier as int,
                old(self).SpecQueues()[Identifier as int].push(Action),
            ),
    {
        self.Queues[Identifier].push(Action);
    }

    /// Take an action for worker `Worker`: pop its own deque if it holds
    /// anything, else steal the newest entry of some other worker's deque,
    /// trying victims in a randomized order.
    ///
    /// Whatever the randomness picked, the ensures pin down that exactly
    /// one entry leaves exactly one deque — or that nothing leaves and
    /// every deque was empty.
    pub fn Do(&mut self, Worker: usize) -> (r: Option<A>)
        requires
            Worker < old(self).SpecQueues().len(),
        ensures
            final(self).SpecQueues().len() == old(self).SpecQueues().len(),
            r is None ==> final(self).SpecQueues() =~= old(self).SpecQueues() && forall|j: int|
                0 <= j < old(self).SpecQueues().len() ==> old(self).SpecQueues()[j].len() == 0,
            r matches Some(a) ==> exists|j: int|
                {
                    &&& 0 <= j < old(self).SpecQueues().len()
                    &&& #[trigger] old(self).SpecQueues()[j].len() > 0
                    &&& a == old(self).SpecQueues()[j].last()
                    &&& final(self).SpecQueues() =~= old(self).SpecQueues().update(
                        j,
                        old(self).SpecQueues()[j].drop_last(),
                    )
                },
            old(self).SpecQueues()[Worker as int].len() > 0 ==> r == Some(
                old(self).SpecQueues()[Worker as int].last(),
            ) && final(self).SpecQueues() =~= old(self).SpecQueues().update(
                Worker as int,
                old(self).SpecQueues()[Worker as int].drop_last(),
            ),
            r matches Some(a) ==> final(self).SpecTotal().insert(a) =~= old(self).SpecTotal(),
    {
        let ghost qs0 = self.SpecQueues();
        let n = self.Queues.len();
        match self.Queues[Worker].pop() {
            Some(a) => {
                proof {
                    assert(self.SpecQueues() =~= qs0.update(
                        Worker as int,
                        qs0[Worker as int].drop_last(),
                    ));
                    LemmaTotalPop(qs0, Worker as int);
                }
                return Some(a);
            },
            None => {},
        }
        let mut Others: Vec<usize> = Vec::new();
        let mut i: usize = 0;
        while i < n
            invariant
                i <= n,
                n == self.Queues@.len(),
                self.SpecQueues() == qs0,
                qs0 == old(self).SpecQueues(),
                forall|k: int| 0 <= k < Others@.len() ==> Others@[k] < n && Others@[k] != Worker,
                forall|v: int|
                    0 <= v < i && v != Worker ==> #[trigger] Others@.contains(v as usize),
            decreases n - i,
        {
            if i != Worker {
                let ghost before = Others@;
                Others.push(i);
                proof {
                    assert forall|v: int|
                        0 <= v < i + 1 && v != Worker implies #[trigger] Others@.contains(
                        v as usize,
                    ) by {
                        if v == i {
                            assert(Others@[Others@.len() - 1] == i as usize);
                        } else {
                            assert(before.contains(v as usize));
                            let k = choose|k: int|
                                0 <= k < before.len() && before[k] == v as usize;
                            assert(Others@[k] == v as usize);
                        }
                    }
                }
            }
            i += 1;
        }
        let ghost others0 = Others@;
        ShuffleIndices(&mut Others);
        proof {
            broadcast use vstd::seq_lib::group_to_multiset_ensures;

            assert forall|k: int|
                0 <= k < Others@.len() implies Others@[k] < n && Others@[k] != Worker by {
                assert(Others@.contains(Others@[k]));
                assert(Others@.to_multiset().count(Others@[k]) > 0);
                assert(others0.to_multiset().count(Others@[k]) > 0);
                assert(others0.contains(Others@[k]));
            }
            assert forall|v: int|
                0 <= v < n && v != Worker implies #[trigger] Others@.contains(v as usize) by {
                assert(others0.contains(v as usize));
                assert(others0.to_multiset().count(v as usize) > 0);
                assert(Others@.to_multiset().count(v as usize) > 0);
            }
        }
        let mut j: usize = 0;
        while j < Others.len()
            invariant
                j <= Others@.len(),
                n == self.Queues@.len(),
                self.SpecQueues() == qs0,
                qs0 == old(self).SpecQueues(),
                Worker < n,
                qs0[Worker as int].len() == 0,
                forall|k: int| 0 <= k < Others@.len() ==> Others@[k] < n && Others@[k] != Worker,
                forall|v: int|
                    0 <= v < n && v != Worker ==> #[trigger] Others@.contains(v as usize),
                forall|k: int| 0 <= k < j ==> qs0[Others@[k] as int].len() == 0,
            decreases Others@.len() - j,
        {
            let Victim = Others[j];
            match self.Queues[Victim].pop() {
                Some(a) => {
                    proof {
                        assert(self.SpecQueues() =~= qs0.update(
                            Victim as int,
                            qs0[Victim as int].drop_last(),
                        ));
                        LemmaTotalPop(qs0, Victim as int);
                    }
                    return Some(a);
                },
                None => {},
            }
            j += 1;
        }
        proof {
            assert forall|v: int| 0 <= v < n implies qs0[v].len() == 0 by {
                if v != Worker {
                    assert(Others@.contains(v as usize));
                    let k = choose|k: int|
                        0 <= k < Others@.len() && Others@[k] == v as usize;
                    assert(qs0[Others@[k] as int].len() == 0);
                }
            }
        }
        None
    }
}

/// Popping the last entry of deque `i` takes exactly that entry out of the
/// combined multiset.
proof fn LemmaTotalPop<A>(Queues: Seq<Seq<A>>, i: int)
    requires
        0 <= i < Queues.len(),
        Queues[i].len() > 0,
    ensures
        TotalOf(Queues.update(i, Queues[i].drop_last())).insert(Queues[i].last()) =~= TotalOf(
            Queues,
        ),
    decreases i,
{
    broadcast use vstd::seq_lib::group_to_multiset_ensures;

    let popped = Queues.update(i, Queues[i].drop_last());
    if i == 0 {
        assert(popped.drop_first() =~= Queues.drop_first());
        assert(Queues[0].drop_last().push(Queues[0].last()) =~= Queues[0]);
        assert(Queues[0].drop_last().to_multiset().insert(Queues[0].last()) =~= Queues[0]
            .to_multiset());
    } else {
        LemmaTotalPop(Queues.drop_first(), i - 1);
        assert(popped.drop_first() =~= Queues.drop_first().update(
            i - 1,
            Queues.drop_first()[i - 1].drop_last(),
        ));
        assert(popped[0] == Queues[0]);
    }
}

/// Relies on rand's `SliceRandom::shuffle`: an in-place sequence of swaps
/// (a Fisher–Yates pass), so the slice afterwards holds exactly the
/// elements it held before, reordered. Nothing is assumed about the order.
#[verifier::external_body]
fn ShuffleIndices(Order: &mut Vec<usize>)
    ensures
        final(Order)@.len() == old(Order)@.len(),
        final(Order)@.to_multiset() == old(Order)@.to_multiset(),
{
    let mut rng = rand::thread_rng();
    rand::seq::SliceRandom::shuffle(Order.as_mut_slice(), &mut rng);
}

} // verus!
