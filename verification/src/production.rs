//! The FIFO production queue of pending actions.

use vstd::prelude::*;

verus! {

/// A first-in-first-out queue of pending actions.
///
/// `Take` appends at the tail, `Do` removes at the head, so entries leave
/// in exactly the order they arrived. Concurrent hosts guard the queue
/// behind their own lock.
#[derive(Debug)]
pub struct Production<A> {
    Line: Vec<A>,
}

impl<A> Production<A> {
    /// The queued entries, head first.
    pub closed spec fn SpecLine(&self) -> Seq<A> {
        self.Line@
    }

    pub fn New() -> (r: Self)
        ensures
            r.SpecLine().len() == 0,
    {
        Production { Line: Vec::new() }
    }

    /// Enqueue `Action` at the tail. Never fails.
    pub fn Take(&mut self, Action: A)
        ensures
            final(self).SpecLine() == old(self).SpecLine().push(Action),
    {
        self.Line.push(Action);
    }

    /// Dequeue the head entry, or `None` when the queue is empty. Never
    /// blocks.
    pub fn Do(&mut self) -> (r: Option<A>)
        ensures
            old(self).SpecLine().len() == 0
                ==> r is None && final(self).SpecLine() == old(self).SpecLine(),
            old(self).SpecLine().len() > 0
                ==> r == Some(old(self).SpecLine()[0])
                    && final(self).SpecLine() == old(self).SpecLine().drop_first(),
    {
        if self.Line.len() == 0 {
            None
        } else {
            let head = self.Line.remove(0);
            proof {
                assert(old(self).SpecLine().remove(0) =~= old(self).SpecLine().drop_first());
            }
            Some(head)
        }
    }

    /// How many entries are queued.
    pub fn Length(&self) -> (r: usize)
        ensures
            r == self.SpecLine().len(),
    {
        self.Line.len()
    }
}

/// Strict FIFO order: whatever was already queued, two entries enqueued in
/// the order `a` then `b` stand behind it in that same order, so the
/// dequeues that reach them yield `a` first and `b` second.
pub proof fn LemmaFifoOrder<A>(s: Seq<A>, a: A, b: A)
    ensures
        s.push(a).push(b).skip(s.len() as int) =~= seq![a, b],
        s.push(a).push(b)[s.len() as int] == a,
        s.push(a).push(b)[s.len() as int + 1] == b,
{
}

} // verus!
