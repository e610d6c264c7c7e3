//! An action's attribute bag: a string-keyed store of structured values.
//!
//! The engine reads a handful of conventional keys out of it — the action
//! type, licensing data, a delay, hook names and a chained follow-up
//! action — but the host may attach anything.

use vstd::prelude::*;

use crate::table;

verus! {

/// A structured metadata value.
///
/// `Record` nests a whole metadata snapshot, which is how a supervising
/// action (`CommandingOfficer`) and a chained follow-up (`NextAction`)
/// travel inside another action's metadata.
#[derive(Debug)]
pub enum Value {
    Null,
    Bool(bool),
    Int(u64),
    Text(String),
    List(Vec<Value>),
    Record(VectorDatabase),
}

/// A string-keyed map of metadata entries with unique keys.
///
/// Lookups are by key text; insertion overwrites the entry of an existing
/// key. Hosts that share a store across tasks guard the engine state behind
/// their own lock.
#[derive(Debug)]
pub struct VectorDatabase {
    Entry: Vec<(String, Value)>,
}

impl VectorDatabase {
    /// The entries of the store, in insertion order.
    pub closed spec fn Entries(&self) -> Seq<(String, Value)> {
        self.Entry@
    }

    /// The value stored under `Key`, if any.
    pub open spec fn SpecGet(&self, Key: Seq<char>) -> Option<Value> {
        table::LookupIn(self.Entries(), Key)
    }

    /// No two entries share a key.
    pub open spec fn WellFormed(&self) -> bool {
        table::DistinctKeys(self.Entries())
    }

    pub fn New() -> (r: Self)
        ensures
            r.WellFormed(),
            forall|k: Seq<char>| r.SpecGet(k) is None,
            r.Entries().len() == 0,
    {
        VectorDatabase { Entry: Vec::new() }
    }

    /// Look up `Key`, borrowing the stored value.
    pub fn Get(&self, Key: &str) -> (r: Option<&Value>)
        ensures
            match r {
                Some(v) => self.SpecGet(Key@) == Some(*v),
                None => self.SpecGet(Key@) is None,
            },
    {
        table::TableGet(&self.Entry, Key)
    }

    /// Insert `Val` under `Key`, overwriting an entry with the same key.
    pub fn Insert(&mut self, Key: String, Val: Value)
        requires
            old(self).WellFormed(),
        ensures
            final(self).WellFormed(),
            final(self).SpecGet(Key@) == Some(Val),
            forall|k: Seq<char>| k != Key@ ==> final(self).SpecGet(k) == old(self).SpecGet(k),
            final(self).Entries().len() <= old(self).Entries().len() + 1,
    {
        table::TableInsert(&mut self.Entry, Key, Val)
    }

    /// Remove the first entry under `Key` and hand its value back. On a
    /// well-formed store this erases the key entirely.
    pub fn Remove(&mut self, Key: &str) -> (r: Option<Value>)
        ensures
            r == old(self).SpecGet(Key@),
            forall|k: Seq<char>| k != Key@ ==> final(self).SpecGet(k) == old(self).SpecGet(k),
            old(self).WellFormed() ==> final(self).WellFormed() && final(self).SpecGet(
                Key@,
            ) is None,
            final(self).Entries().len() <= old(self).Entries().len(),
    {
        table::TableRemove(&mut self.Entry, Key)
    }
}

} // verus!
