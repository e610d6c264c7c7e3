//! The execution context ("Life"): the hook table, the configuration the
//! engine consumes, a result cache, and the named queues reachable by
//! cross-queue routing actions.
//!
//! The context is read-mostly and append-only for the lifetime of the
//! engine. Hook callbacks themselves live with the host; the context holds
//! the names under which they were registered, which is what the dispatch
//! pipeline consults when an action lists hooks to run.

use vstd::prelude::*;

use crate::metadata::{Value, VectorDatabase};
use crate::production::Production;
use crate::table;

verus! {

/// The engine's configuration surface: the one setting it consumes.
///
/// The host parses its configuration file and hands the result over as a
/// plain value; an absent or unparseable setting arrives as `None` and
/// falls back to the default of 3.
#[derive(Debug, Clone)]
pub struct Fate {
    MaxRetries: Option<u32>,
}

impl Fate {
    /// How many retries a failed dispatch is granted, after the default is
    /// applied.
    pub closed spec fn SpecMaxRetries(&self) -> u32 {
        match self.MaxRetries {
            Some(n) => n,
            None => 3,
        }
    }

    pub fn New(MaxRetries: Option<u32>) -> (r: Self)
        ensures
            r.SpecMaxRetries() == (match MaxRetries {
                Some(n) => n,
                None => 3u32,
            }),
    {
        Fate { MaxRetries }
    }

    /// The `max_retries` setting, defaulted when absent.
    pub fn MaxRetriesSetting(&self) -> (r: u32)
        ensures
            r == self.SpecMaxRetries(),
    {
        match self.MaxRetries {
            Some(n) => n,
            None => 3,
        }
    }
}

/// The shared context handed to every execution.
#[derive(Debug)]
pub struct Life<A> {
    Span: Vec<String>,
    Fate: Fate,
    Cache: VectorDatabase,
    Karma: Vec<(String, Production<A>)>,
}

impl<A> Life<A> {
    /// The names under which the host registered hooks.
    pub closed spec fn SpecHookSet(&self) -> Set<Seq<char>> {
        Set::new(|n: Seq<char>| exists|i: int| 0 <= i < self.Span@.len() && self.Span@[i]@ == n)
    }

    /// The engine's configuration.
    pub closed spec fn SpecFate(&self) -> Fate {
        self.Fate
    }

    /// The result cache.
    pub closed spec fn SpecCache(&self) -> VectorDatabase {
        self.Cache
    }

    /// The named queue registered under `Name`, if any.
    pub closed spec fn SpecQueueNamed(&self, Name: Seq<char>) -> Option<Production<A>> {
        table::LookupIn(self.Karma@, Name)
    }

    /// The named-queue table keeps its keys unique.
    pub closed spec fn WellFormed(&self) -> bool {
        table::DistinctKeys(self.Karma@) && self.Cache.WellFormed()
    }

    pub fn New(Fate: Fate) -> (r: Self)
        ensures
            r.WellFormed(),
            r.SpecFate() == Fate,
            forall|n: Seq<char>| !r.SpecHookSet().contains(n),
            forall|n: Seq<char>| r.SpecQueueNamed(n) is None,
    {
        let r = Life { Span: Vec::new(), Fate, Cache: VectorDatabase::New(), Karma: Vec::new() };
        proof {
            assert forall|n: Seq<char>| !r.SpecHookSet().contains(n) by {
                assert(r.Span@.len() == 0);
            }
        }
        r
    }

    /// Register a hook name. The host keeps the callback itself and runs it
    /// when the pipeline asks.
    pub fn AddHook(&mut self, Name: String)
        ensures
            final(self).SpecHookSet() == old(self).SpecHookSet().insert(Name@),
            final(self).SpecFate() == old(self).SpecFate(),
            final(self).SpecCache() == old(self).SpecCache(),
            forall|n: Seq<char>| final(self).SpecQueueNamed(n) == old(self).SpecQueueNamed(n),
            old(self).WellFormed() ==> final(self).WellFormed(),
    {
        let ghost span0 = self.Span@;
        self.Span.push(Name);
        proof {
            assert forall|n: Seq<char>|
                final(self).SpecHookSet().contains(n) == old(self).SpecHookSet().insert(
                    Name@,
                ).contains(n) by {
                if n == Name@ {
                    assert(self.Span@[span0.len() as int]@ == n);
                } else {
                    if final(self).SpecHookSet().contains(n) {
                        let i = choose|i: int|
                            0 <= i < self.Span@.len() && self.Span@[i]@ == n;
                        assert(span0[i]@ == n);
                    }
                    if old(self).SpecHookSet().contains(n) {
                        let i = choose|i: int| 0 <= i < span0.len() && span0[i]@ == n;
                        assert(self.Span@[i]@ == n);
                    }
                }
            }
            assert(final(self).SpecHookSet() =~= old(self).SpecHookSet().insert(Name@));
        }
    }

    /// Whether a hook was registered under `Name`.
    pub fn HasHook(&self, Name: &str) -> (r: bool)
        ensures
            r == self.SpecHookSet().contains(Name@),
    {
        let Want: String = Name.to_owned();
        let mut i: usize = 0;
        while i < self.Span.len()
            invariant
                i <= self.Span@.len(),
                Want@ == Name@,
                forall|k: int| 0 <= k < i ==> self.Span@[k]@ != Name@,
            decreases self.Span@.len() - i,
        {
            if self.Span[i] == Want {
                return true;
            }
            i += 1;
        }
        false
    }

    /// The configuration, for the driver's retry policy.
    pub fn FateRef(&self) -> (r: &Fate)
        ensures
            r == self.SpecFate(),
    {
        &self.Fate
    }

    /// Store an execution result in the cache. The dispatch path itself
    /// never reads it back; `Recall` serves the host.
    pub fn Remember(&mut self, Key: String, Val: Value)
        requires
            old(self).WellFormed(),
        ensures
            final(self).WellFormed(),
            final(self).SpecCache().SpecGet(Key@) == Some(Val),
            forall|k: Seq<char>|
                k != Key@ ==> final(self).SpecCache().SpecGet(k) == old(self).SpecCache().SpecGet(
                    k,
                ),
            final(self).SpecHookSet() == old(self).SpecHookSet(),
            final(self).SpecFate() == old(self).SpecFate(),
            forall|n: Seq<char>| final(self).SpecQueueNamed(n) == old(self).SpecQueueNamed(n),
    {
        self.Cache.Insert(Key, Val);
    }

    /// Read a cached result back.
    pub fn Recall(&self, Key: &str) -> (r: Option<&Value>)
        ensures
            match r {
                Some(v) => self.SpecCache().SpecGet(Key@) == Some(*v),
                None => self.SpecCache().SpecGet(Key@) is None,
            },
    {
        self.Cache.Get(Key)
    }

    /// Register (or replace) a named queue for cross-queue routing.
    pub fn AddQueue(&mut self, Name: String, Queue: Production<A>)
        requires
            old(self).WellFormed(),
        ensures
            final(self).WellFormed(),
            final(self).SpecQueueNamed(Name@) == Some(Queue),
            forall|n: Seq<char>|
                n != Name@ ==> final(self).SpecQueueNamed(n) == old(self).SpecQueueNamed(n),
            final(self).SpecHookSet() == old(self).SpecHookSet(),
            final(self).SpecFate() == old(self).SpecFate(),
            final(self).SpecCache() == old(self).SpecCache(),
    {
        table::TableInsert(&mut self.Karma, Name, Queue);
    }

    /// Dequeue the head entry of the named queue: the step a cross-queue
    /// routing action repeats until the queue reports empty.
    pub fn PopNamed(&mut self, Name: &str) -> (r: Option<A>)
        requires
            old(self).WellFormed(),
        ensures
            final(self).WellFormed(),
            r is None ==> (match old(self).SpecQueueNamed(Name@) {
                None => true,
                Some(q) => q.SpecLine().len() == 0,
            }),
            r matches Some(a) ==> (match old(self).SpecQueueNamed(Name@) {
                None => false,
                Some(q) => {
                    &&& q.SpecLine().len() > 0
                    &&& a == q.SpecLine()[0]
                    &&& (match final(self).SpecQueueNamed(Name@) {
                        None => false,
                        Some(q2) => q2.SpecLine() == q.SpecLine().drop_first(),
                    })
                },
            }),
            forall|n: Seq<char>|
                n != Name@ ==> final(self).SpecQueueNamed(n) == old(self).SpecQueueNamed(n),
            final(self).SpecHookSet() == old(self).SpecHookSet(),
            final(self).SpecFate() == old(self).SpecFate(),
            final(self).SpecCache() == old(self).SpecCache(),
    {
        match table::TableRemove(&mut self.Karma, Name) {
            Some(mut q) => {
                let r = q.Do();
                let KeyString: String = Name.to_owned();
                table::TableInsert(&mut self.Karma, KeyString, q);
                r
            },
            None => None,
        }
    }
}

} // verus!
