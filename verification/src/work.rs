//! A single shared last-in-first-out work queue, the file-operation task
//! shapes exchanged with remote submitters, and the decisions of the loops
//! around them.
//!
//! The remote bridge itself (a websocket endpoint) lives with the host: it
//! parses inbound text frames and serializes outbound results. Its
//! decisions — queue what parsed, drop what did not, dispatch or idle —
//! are here.

use vstd::prelude::*;

verus! {

/// A task submitted over the wire: read a file, or write one.
#[derive(Debug, Clone, PartialEq, Eq)]
pub enum FileOperation {
    Read { path: String },
    Write { path: String, content: String },
}

/// The outcome of a processed task, sent back over the wire: the task
/// itself and either its success text or its error text.
#[derive(Debug, PartialEq, Eq)]
pub struct FileOperationResult {
    pub operation: FileOperation,
    pub result: Result<String, String>,
}

/// What a polling worker should do next.
#[derive(Debug)]
pub enum Poll<A> {
    /// A task was taken from the queue; process it.
    Dispatch(A),
    /// The queue was empty; idle for the given backoff before polling again.
    Wait { Millis: u64 },
}

/// A last-in-first-out queue of tasks shared by a pool of workers.
///
/// Concurrent hosts guard the queue behind their own lock.
#[derive(Debug)]
pub struct WorkQueue<A> {
    Tasks: Vec<A>,
}

impl<A> WorkQueue<A> {
    /// The queued tasks, oldest first; `steal` takes from the back.
    pub closed spec fn SpecTasks(&self) -> Seq<A> {
        self.Tasks@
    }

    pub fn new() -> (r: Self)
        ensures
            r.SpecTasks().len() == 0,
    {
        WorkQueue { Tasks: Vec::new() }
    }

    /// Add a task.
    pub fn push(&mut self, Task: A)
        ensures
            final(self).SpecTasks() == old(self).SpecTasks().push(Task),
    {
        self.Tasks.push(Task);
    }

    /// Take the most recently added task, or `None` when the queue is
    /// empty.
    pub fn steal(&mut self) -> (r: Option<A>)
        ensures
            old(self).SpecTasks().len() == 0
                ==> r is None && final(self).SpecTasks() == old(self).SpecTasks(),
            old(self).SpecTasks().len() > 0
                ==> r == Some(old(self).SpecTasks().last())
                    && final(self).SpecTasks() == old(self).SpecTasks().drop_last(),
    {
        self.Tasks.pop()
    }

    /// One decision of the worker loop: take a task to process, or report
    /// that the worker should idle briefly before polling again.
    pub fn NextMove(&mut self) -> (r: Poll<A>)
        ensures
            old(self).SpecTasks().len() == 0
                ==> (r matches Poll::Wait { Millis } && Millis == 100)
                    && final(self).SpecTasks() == old(self).SpecTasks(),
            old(self).SpecTasks().len() > 0
                ==> (r matches Poll::Dispatch(t) && t == old(self).SpecTasks().last())
                    && final(self).SpecTasks() == old(self).SpecTasks().drop_last(),
    {
        match self.steal() {
            Some(t) => Poll::Dispatch(t),
            None => Poll::Wait { Millis: 100 },
        }
    }

    /// The inbound half of the remote bridge's decision: a frame that
    /// parsed into a task is queued; one that did not is silently dropped.
    pub fn AcceptInbound(&mut self, Parsed: Option<A>) -> (accepted: bool)
        ensures
            match Parsed {
                Some(t) => accepted && final(self).SpecTasks() == old(self).SpecTasks().push(t),
                None => !accepted && final(self).SpecTasks() == old(self).SpecTasks(),
            },
    {
        match Parsed {
            Some(t) => {
                self.push(t);
                true
            },
            None => false,
        }
    }
}

} // verus!
