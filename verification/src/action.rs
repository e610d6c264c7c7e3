//! A unit of work: a typed payload, a metadata bag, a license flag and the
//! registry it dispatches through.

use vstd::prelude::*;
use vstd::string::StringExecFns;

use crate::execution::{Execution, Phase};
use crate::metadata::{Value, VectorDatabase};
use crate::plan::Formality;
use crate::signal::Signal;

verus! {

/// One unit of work.
///
/// Construction stamps the `ActionType` and `License` metadata entries and
/// grants a fresh license; `WithMetadata` decorates the action further;
/// `Execute` begins the dispatch pipeline. The payload rides along for the
/// host's operations — the pipeline itself never reads it.
#[derive(Debug)]
pub struct Action<T> {
    pub Metadata: VectorDatabase,
    pub Content: T,
    pub LicenseSignal: Signal<bool>,
    pub Plan: Formality,
}

impl<T> Action<T> {
    /// The metadata keys the pipeline interprets stay well formed.
    pub open spec fn WellFormed(&self) -> bool {
        self.Metadata.WellFormed()
    }

    /// A new action of type `ActionType`, licensed, with only the stamped
    /// metadata entries.
    pub fn New(ActionType: &str, Content: T, Plan: Formality) -> (r: Self)
        ensures
            r.WellFormed(),
            r.Metadata.SpecGet("ActionType"@) matches Some(v) && v matches Value::Text(t) && t@
                == ActionType@,
            r.Metadata.SpecGet("License"@) matches Some(v) && v matches Value::Text(t) && t@
                == "valid"@,
            forall|k: Seq<char>|
                k != "ActionType"@ && k != "License"@ ==> r.Metadata.SpecGet(k) is None,
            r.LicenseSignal.SpecValue() == true,
            r.Content == Content,
            r.Plan == Plan,
    {
        proof {
            reveal_strlit("ActionType");
            reveal_strlit("License");
            assert("ActionType"@.len() == 10);
            assert("License"@.len() == 7);
        }
        let mut Metadata = VectorDatabase::New();
        Metadata.Insert(String::from_str("ActionType"), Value::Text(ActionType.to_owned()));
        Metadata.Insert(String::from_str("License"), Value::Text(String::from_str("valid")));
        Action { Metadata, Content, LicenseSignal: Signal::New(true), Plan }
    }

    /// Attach one more metadata entry, handing the decorated action back.
    pub fn WithMetadata(self, Key: &str, Val: Value) -> (r: Self)
        requires
            self.WellFormed(),
        ensures
            r.WellFormed(),
            r.Metadata.SpecGet(Key@) == Some(Val),
            forall|k: Seq<char>| k != Key@ ==> r.Metadata.SpecGet(k) == self.Metadata.SpecGet(k),
            r.Content == self.Content,
            r.LicenseSignal == self.LicenseSignal,
            r.Plan == self.Plan,
    {
        let mut Decorated = self;
        Decorated.Metadata.Insert(Key.to_owned(), Val);
        Decorated
    }

    /// Begin the execution pipeline: the returned machine walks the stages
    /// (resolve, license, delay, hooks, dispatch, chaining) and tells the
    /// host which effect to perform next.
    ///
    /// The license signal is read here, at the start of the attempt; the
    /// payload stays with the caller's copy of the action.
    pub fn Execute(self) -> (r: Execution)
        ensures
            r.SpecMetadata() == self.Metadata,
            r.SpecLicense() == self.LicenseSignal.SpecValue(),
            r.SpecPlan() == self.Plan,
            r.SpecPhase() == Phase::Begin,
    {
        let License = self.LicenseSignal.Get();
        Execution::New(self.Metadata, License, self.Plan)
    }
}

} // verus!
