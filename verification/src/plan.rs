//! The operation registry ("Plan"): named operation signatures and the
//! bindings of names to executable operations.
//!
//! A signature declares an operation's surface; a function may only be
//! bound to a name that already has a signature. The executable body of an
//! operation lives with the host, which registers it under a numeric handle
//! of its choosing; dispatch resolves a name to that handle.

use vstd::prelude::*;
use vstd::string::StringExecFns;

use crate::table;

verus! {

/// The declared surface of a named operation: its input type names and its
/// output type name. Signatures are descriptive metadata; argument shapes
/// are not enforced at call time.
#[derive(Debug, Clone)]
pub struct ActionSignature {
    pub Name: String,
    pub InputTypes: Vec<String>,
    pub OutputType: String,
}

/// The registry: operation name to signature, and operation name to the
/// host's handle for the bound executable function.
#[derive(Debug, Clone)]
pub struct Formality {
    Signature: Vec<(String, ActionSignature)>,
    Function: Vec<(String, u64)>,
}

impl Formality {
    /// The signature declared under `Name`, if any.
    pub closed spec fn SpecSignature(&self, Name: Seq<char>) -> Option<ActionSignature> {
        table::LookupIn(self.Signature@, Name)
    }

    /// The function handle bound under `Name`, if any.
    pub closed spec fn SpecFunction(&self, Name: Seq<char>) -> Option<u64> {
        table::LookupIn(self.Function@, Name)
    }

    /// Both internal tables keep their keys unique.
    pub closed spec fn WellFormed(&self) -> bool {
        table::DistinctKeys(self.Signature@) && table::DistinctKeys(self.Function@)
    }

    pub fn New() -> (r: Self)
        ensures
            r.WellFormed(),
            forall|n: Seq<char>| r.SpecSignature(n) is None,
            forall|n: Seq<char>| r.SpecFunction(n) is None,
    {
        Formality { Signature: Vec::new(), Function: Vec::new() }
    }

    /// Declare (or overwrite) the signature of the operation the signature
    /// itself names. Never fails.
    pub fn AddSignature(&mut self, Signature: ActionSignature)
        requires
            old(self).WellFormed(),
        ensures
            final(self).WellFormed(),
            final(self).SpecSignature(Signature.Name@) == Some(Signature),
            forall|n: Seq<char>|
                n != Signature.Name@ ==> final(self).SpecSignature(n) == old(self).SpecSignature(n),
            forall|n: Seq<char>| final(self).SpecFunction(n) == old(self).SpecFunction(n),
    {
        let Key = Signature.Name.clone();
        table::TableInsert(&mut self.Signature, Key, Signature);
    }

    /// Bind the host's function handle to `Name`.
    ///
    /// Fails with a registration error when no signature was declared for
    /// `Name`; re-binding an already bound name overwrites silently.
    pub fn FunctionA(&mut self, Name: &str, Function: u64) -> (r: Result<(), String>)
        requires
            old(self).WellFormed(),
        ensures
            final(self).WellFormed(),
            r is Ok <==> old(self).SpecSignature(Name@) is Some,
            forall|n: Seq<char>| final(self).SpecSignature(n) == old(self).SpecSignature(n),
            r is Ok ==> final(self).SpecFunction(Name@) == Some(Function),
            r is Ok ==> forall|n: Seq<char>|
                n != Name@ ==> final(self).SpecFunction(n) == old(self).SpecFunction(n),
            r matches Err(m) ==> {
                &&& m@ == "No signature found for function: "@ + Name@
                &&& forall|n: Seq<char>| final(self).SpecFunction(n) == old(self).SpecFunction(n)
            },
    {
        if table::TableGet(&self.Signature, Name).is_none() {
            return Err(String::from_str("No signature found for function: ").concat(Name));
        }
        let Key: String = Name.to_owned();
        table::TableInsert(&mut self.Function, Key, Function);
        Ok(())
    }

    /// Resolve `Name` to the bound function handle, or `None` when the
    /// operation is unregistered.
    pub fn FunctionB(&self, Name: &str) -> (r: Option<u64>)
        ensures
            r == self.SpecFunction(Name@),
    {
        match table::TableGet(&self.Function, Name) {
            Some(h) => Some(*h),
            None => None,
        }
    }
}

/// A builder over [`Formality`]: declare signatures, bind functions, then
/// `Build` the finished registry.
#[derive(Debug, Clone)]
pub struct Plan {
    Formality: Formality,
}

impl Plan {
    /// The registry built so far.
    pub closed spec fn SpecFormality(&self) -> Formality {
        self.Formality
    }

    pub fn New() -> (r: Self)
        ensures
            r.SpecFormality().WellFormed(),
            forall|n: Seq<char>| r.SpecFormality().SpecSignature(n) is None,
            forall|n: Seq<char>| r.SpecFormality().SpecFunction(n) is None,
    {
        Plan { Formality: Formality::New() }
    }

    /// Declare a signature and hand the builder back.
    pub fn WithSignature(self, Signature: ActionSignature) -> (r: Self)
        requires
            self.SpecFormality().WellFormed(),
        ensures
            r.SpecFormality().WellFormed(),
            r.SpecFormality().SpecSignature(Signature.Name@) == Some(Signature),
            forall|n: Seq<char>|
                n != Signature.Name@ ==> r.SpecFormality().SpecSignature(n)
                    == self.SpecFormality().SpecSignature(n),
            forall|n: Seq<char>|
                r.SpecFormality().SpecFunction(n) == self.SpecFormality().SpecFunction(n),
    {
        let mut Formality = self.Formality;
        Formality.AddSignature(Signature);
        Plan { Formality }
    }

    /// Bind a function handle and hand the builder back, or fail with the
    /// registration error when `Name` has no signature yet.
    pub fn WithFunction(self, Name: &str, Function: u64) -> (r: Result<Self, String>)
        requires
            self.SpecFormality().WellFormed(),
        ensures
            r is Ok <==> self.SpecFormality().SpecSignature(Name@) is Some,
            r matches Ok(p) ==> {
                &&& p.SpecFormality().WellFormed()
                &&& p.SpecFormality().SpecFunction(Name@) == Some(Function)
                &&& forall|n: Seq<char>|
                    n != Name@ ==> p.SpecFormality().SpecFunction(n)
                        == self.SpecFormality().SpecFunction(n)
                &&& forall|n: Seq<char>|
                    p.SpecFormality().SpecSignature(n) == self.SpecFormality().SpecSignature(n)
            },
            r matches Err(m) ==> m@ == "No signature found for function: "@ + Name@,
    {
        let mut Formality = self.Formality;
        match Formality.FunctionA(Name, Function) {
            Ok(_) => Ok(Plan { Formality }),
            Err(m) => Err(m),
        }
    }

    /// Hand the finished registry over.
    pub fn Build(self) -> (r: Formality)
        ensures
            r == self.SpecFormality(),
    {
        self.Formality
    }
}

} // verus!
