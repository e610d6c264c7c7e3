//! The driver ("Sequence"): the loop that dequeues actions, hands each to
//! the host's worker with bounded retry and backoff, and shuts down
//! cooperatively.
//!
//! Presenting an action to a worker, sleeping out a backoff, and logging a
//! final failure are the host's effects, so the driver is a step machine:
//! each method decides one move of the loop and tells the host what to do
//! through a [`Directive`]. An in-flight dispatch is never interrupted —
//! the shutdown flag is observed only at the top of an iteration — and one
//! action's final failure is never fatal to the loop.

use vstd::arithmetic::power2::{lemma2_to64, lemma2_to64_rest, lemma_pow2_strictly_increases, lemma_pow2_unfold, pow2};
use vstd::prelude::*;

use crate::error::ActionError;
use crate::life::Life;
use crate::production::Production;
use crate::signal::Signal;

verus! {

/// What the host must do next to carry the driver loop forward.
#[derive(Debug)]
pub enum Directive {
    /// Shutdown was requested; stop scheduling dequeues.
    Halt,
    /// The queue was empty; poll again (idle briefly first if desired).
    Idle,
    /// Present a fresh copy of the current action to the worker, then
    /// report the outcome through `OnOutcome`.
    Attempt,
    /// The attempt failed retryably: sleep this many seconds, then call
    /// `Resume`.
    Backoff { Seconds: u64 },
    /// The current action was processed successfully; loop on.
    Resolved,
    /// Retries are exhausted: report the error (the loop itself carries
    /// on with the next entry).
    Abandoned { Error: ActionError },
}

/// Where the driver stands between two directives.
#[derive(Debug, Clone, Copy)]
pub enum DriverState {
    /// At the top of the loop, about to check shutdown and dequeue.
    Polling,
    /// An `Attempt` directive is out; `Retries` were used so far.
    Attempting { Retries: u32 },
    /// A `Backoff` directive is out; `Retries` counts the coming attempt.
    Waiting { Retries: u32 },
}

/// The backoff before retry number `Retry`: `2^Retry` seconds plus up to a
/// second of jitter, saturated far beyond any practical retry count.
pub open spec fn BackoffSeconds(Retry: nat, Jitter: nat) -> nat {
    if Retry <= 63 {
        pow2(Retry) + Jitter
    } else {
        u64::MAX as nat
    }
}

/// The driver: a queue of pending actions, the shared context, a shutdown
/// flag, and the retry bookkeeping of the action in flight.
#[derive(Debug)]
pub struct Sequence<A> {
    /// The queue the loop drains.
    pub Work: Production<A>,
    /// The shared execution context.
    pub Life: Life<A>,
    Time: Signal<bool>,
    State: DriverState,
    Current: Option<A>,
}

impl<A> Sequence<A> {
    /// The queue the loop drains, as a specification value.
    pub closed spec fn SpecWork(&self) -> Production<A> {
        self.Work
    }

    /// The shared context, as a specification value.
    pub closed spec fn SpecLife(&self) -> Life<A> {
        self.Life
    }

    /// Whether shutdown has been requested.
    pub closed spec fn SpecShutdown(&self) -> bool {
        self.Time.SpecValue()
    }

    /// Where the driver stands.
    pub closed spec fn SpecState(&self) -> DriverState {
        self.State
    }

    /// The dequeued action being attempted, if any.
    pub closed spec fn SpecCurrent(&self) -> Option<A> {
        self.Current
    }

    /// A driver over the given queue and context, not yet shut down.
    pub fn New(Work: Production<A>, Context: Life<A>) -> (r: Self)
        ensures
            r.SpecWork() == Work,
            r.SpecLife() == Context,
            !r.SpecShutdown(),
            r.SpecState() is Polling,
            r.SpecCurrent() is None,
    {
        Sequence {
            Work,
            Life: Context,
            Time: Signal::New(false),
            State: DriverState::Polling,
            Current: None,
        }
    }

    /// One top-of-loop move: observe the shutdown flag; halt if it is set,
    /// else dequeue and begin attempting the head action, or report an
    /// empty queue.
    pub fn Run(&mut self) -> (r: Directive)
        requires
            old(self).SpecState() is Polling,
        ensures
            final(self).SpecShutdown() == old(self).SpecShutdown(),
            final(self).SpecLife() == old(self).SpecLife(),
            old(self).SpecShutdown() ==> {
                &&& r matches Directive::Halt
                &&& final(self).SpecWork() == old(self).SpecWork()
                &&& final(self).SpecState() is Polling
                &&& final(self).SpecCurrent() == old(self).SpecCurrent()
            },
            !old(self).SpecShutdown() && old(self).SpecWork().SpecLine().len() == 0 ==> {
                &&& r matches Directive::Idle
                &&& final(self).SpecWork().SpecLine() == old(self).SpecWork().SpecLine()
                &&& final(self).SpecState() is Polling
                &&& final(self).SpecCurrent() is None
            },
            !old(self).SpecShutdown() && old(self).SpecWork().SpecLine().len() > 0 ==> {
                &&& r matches Directive::Attempt
                &&& final(self).SpecWork().SpecLine() == old(self).SpecWork().SpecLine().drop_first()
                &&& final(self).SpecCurrent() == Some(old(self).SpecWork().SpecLine()[0])
                &&& final(self).SpecState() == (DriverState::Attempting { Retries: 0 })
            },
    {
        if self.Time.Get() {
            return Directive::Halt;
        }
        match self.Work.Do() {
            None => {
                self.Current = None;
                self.State = DriverState::Polling;
                Directive::Idle
            },
            Some(a) => {
                self.Current = Some(a);
                self.State = DriverState::Attempting { Retries: 0 };
                Directive::Attempt
            },
        }
    }

    /// The action a worker should receive now. The host presents a fresh
    /// duplicate on every attempt; the driver's copy stays untouched, so a
    /// failed attempt leaks no partial mutation into the retry.
    pub fn CurrentAction(&self) -> (r: Option<&A>)
        ensures
            match r {
                Some(a) => self.SpecCurrent() == Some(*a),
                None => self.SpecCurrent() is None,
            },
    {
        self.Current.as_ref()
    }

    /// Record the worker's outcome for the attempt in flight: success
    /// resolves the action; a failure within the retry budget schedules an
    /// exponential backoff with jitter; one beyond it abandons the action
    /// with its error, and the loop carries on.
    ///
    /// The budget is read from the context's configuration: `max_retries`
    /// further attempts after the first.
    pub fn OnOutcome(&mut self, Failure: Option<ActionError>) -> (r: Directive)
        requires
            old(self).SpecState() matches DriverState::Attempting { .. },
        ensures
            final(self).SpecShutdown() == old(self).SpecShutdown(),
            final(self).SpecLife() == old(self).SpecLife(),
            final(self).SpecWork() == old(self).SpecWork(),
            Failure is None ==> {
                &&& r matches Directive::Resolved
                &&& final(self).SpecState() is Polling
                &&& final(self).SpecCurrent() is None
            },
            old(self).SpecState() matches DriverState::Attempting { Retries } ==> (Failure matches
                Some(e) ==> (if Retries >= old(self).SpecLife().SpecFate().SpecMaxRetries() {
                    &&& r matches Directive::Abandoned { Error } && Error == e
                    &&& final(self).SpecState() is Polling
                    &&& final(self).SpecCurrent() is None
                } else {
                    &&& r matches Directive::Backoff { Seconds } && exists|j: nat|
                        j < 1000 && Seconds == #[trigger] BackoffSeconds((Retries + 1) as nat, j)
                    &&& final(self).SpecState() == (DriverState::Waiting {
                        Retries: (Retries + 1) as u32,
                    })
                    &&& final(self).SpecCurrent() == old(self).SpecCurrent()
                })),
    {
        let Retries: u32 = match self.State {
            DriverState::Attempting { Retries } => Retries,
            _ => {
                proof {
                    assert(false);
                }
                0
            },
        };
        match Failure {
            None => {
                self.Current = None;
                self.State = DriverState::Polling;
                Directive::Resolved
            },
            Some(e) => {
                let Max = self.Life.FateRef().MaxRetriesSetting();
                if Retries >= Max {
                    self.Current = None;
                    self.State = DriverState::Polling;
                    Directive::Abandoned { Error: e }
                } else {
                    let NextRetry: u32 = Retries + 1;
                    let Seconds = ComputeBackoff(NextRetry);
                    proof {
                        assert(exists|j: nat|
                            j < 1000 && Seconds == #[trigger] BackoffSeconds(
                                (Retries + 1) as nat,
                                j,
                            )) by {
                            let j0 = choose|j: nat|
                                j < 1000 && Seconds == #[trigger] BackoffSeconds(
                                    NextRetry as nat,
                                    j,
                                );
                            assert(BackoffSeconds((Retries + 1) as nat, j0) == BackoffSeconds(
                                NextRetry as nat,
                                j0,
                            ));
                        }
                    }
                    self.State = DriverState::Waiting { Retries: NextRetry };
                    Directive::Backoff { Seconds }
                }
            },
        }
    }

    /// The backoff slept out, present the action again.
    pub fn Resume(&mut self) -> (r: Directive)
        requires
            old(self).SpecState() matches DriverState::Waiting { .. },
        ensures
            final(self).SpecShutdown() == old(self).SpecShutdown(),
            final(self).SpecLife() == old(self).SpecLife(),
            final(self).SpecWork() == old(self).SpecWork(),
            final(self).SpecCurrent() == old(self).SpecCurrent(),
            r matches Directive::Attempt,
            old(self).SpecState() matches DriverState::Waiting { Retries }
                ==> final(self).SpecState() == (DriverState::Attempting { Retries }),
    {
        let Retries: u32 = match self.State {
            DriverState::Waiting { Retries } => Retries,
            _ => {
                proof {
                    assert(false);
                }
                0
            },
        };
        self.State = DriverState::Attempting { Retries };
        Directive::Attempt
    }

    /// Request a cooperative shutdown: the loop observes the flag at its
    /// next iteration boundary; the dispatch in flight runs to completion.
    pub fn Shutdown(&mut self)
        ensures
            final(self).SpecShutdown(),
            final(self).SpecLife() == old(self).SpecLife(),
            final(self).SpecWork() == old(self).SpecWork(),
            final(self).SpecState() == old(self).SpecState(),
            final(self).SpecCurrent() == old(self).SpecCurrent(),
    {
        self.Time.Put(true);
    }
}

/// The backoff before retry number `Retry`, with fresh jitter: exponential
/// growth relieves sustained contention, the jitter breaks up synchronized
/// retry storms.
fn ComputeBackoff(Retry: u32) -> (r: u64)
    ensures
        exists|j: nat| j < 1000 && r == #[trigger] BackoffSeconds(Retry as nat, j),
{
    if Retry > 63 {
        proof {
            assert(BackoffSeconds(Retry as nat, 0) == u64::MAX);
        }
        return u64::MAX;
    }
    proof {
        lemma2_to64();
    }
    let mut Base: u64 = 1;
    let mut i: u32 = 0;
    while i < Retry
        invariant
            i <= Retry <= 63,
            Base == pow2(i as nat),
        decreases Retry - i,
    {
        proof {
            lemma_pow2_unfold((i + 1) as nat);
            lemma2_to64_rest();
            if i + 1 < 63 {
                lemma_pow2_strictly_increases((i + 1) as nat, 63);
            }
        }
        Base = Base * 2;
        i += 1;
    }
    let Jitter = JitterMillis();
    proof {
        lemma2_to64_rest();
        if (Retry as nat) < 63 {
            lemma_pow2_strictly_increases(Retry as nat, 63);
        }
        assert(BackoffSeconds(Retry as nat, Jitter as nat) == pow2(Retry as nat) + Jitter);
    }
    Base + Jitter
}

/// Relies on rand's `Rng::gen_range` over `0..1000`: a draw below the
/// upper bound of the (non-empty) range. Nothing more is assumed of the
/// draw.
#[verifier::external_body]
fn JitterMillis() -> (r: u64)
    ensures
        r < 1000,
{
    rand::Rng::gen_range(&mut rand::thread_rng(), 0..1000u64)
}

} // verus!
