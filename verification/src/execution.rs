//! The action execution pipeline as a step machine.
//!
//! Executing an action is a strict ordered pipeline — resolve the action
//! type, check licenses, honour a requested delay, run the listed hooks,
//! dispatch the registered operation, then chain into a follow-up action —
//! where each stage can short-circuit the rest with an error. The
//! suspending stages (sleeping, invoking a hook, invoking the operation)
//! are effects only the host can perform, so the machine stops at each one,
//! hands the host a [`Step`], and resumes when the host reports the
//! [`Event`] that came of it.

use vstd::prelude::*;
use vstd::string::StringExecFns;

use crate::error::ActionError;
use crate::life::Life;
use crate::metadata::{Value, VectorDatabase};
use crate::plan::Formality;

verus! {

/// What the host must do next to carry the execution forward.
#[derive(Debug)]
pub enum Step {
    /// Suspend for this many seconds, then report `Slept`.
    Sleep { Seconds: u64 },
    /// Invoke the named hook, then report `HookDone`.
    Hook { Name: String },
    /// Invoke the operation registered under `Name` (the host resolves its
    /// handle `Function` to the callable) with `Arguments`, then report
    /// `CallDone`.
    Call { Name: String, Function: u64, Arguments: Vec<Value> },
    /// The action chained into its `NextAction`; keep advancing the same
    /// machine, starting the chained action's own pipeline.
    Chained,
    /// The pipeline finished successfully.
    Done,
    /// The pipeline failed; the error is final.
    Fail { Error: ActionError },
}

/// What the host reports back after performing a step.
#[derive(Debug)]
pub enum Event {
    /// Begin the pipeline of the current action.
    Started,
    /// The requested delay elapsed.
    Slept,
    /// The hook ran; `None` for success, or the error it raised.
    HookDone { Fault: Option<ActionError> },
    /// The operation ran, yielding its value or its error.
    CallDone { Outcome: Result<Value, ActionError> },
}

/// Where the pipeline stands between two steps.
#[derive(Debug, Clone, Copy)]
pub enum Phase {
    /// Nothing of the current action has run yet.
    Begin,
    /// A `Sleep` step is out with the host.
    Delaying,
    /// A `Hook` step is out; `Next` is the list index after the issued one.
    Hooking { Next: usize },
    /// A `Call` step is out.
    Calling,
    /// A `Done` or `Fail` step was returned; the machine is spent.
    Finished,
}

/// The action type named by the metadata, when present and a string.
pub open spec fn ResolvedType(m: VectorDatabase) -> Option<Seq<char>> {
    match m.SpecGet("ActionType"@) {
        Some(Value::Text(t)) => Some(t@),
        _ => None,
    }
}

/// Whether the supervising action referenced by `CommandingOfficer`, if
/// any, carries a `License` entry reading `"valid"`.
pub open spec fn OfficerOk(m: VectorDatabase) -> bool {
    match m.SpecGet("CommandingOfficer"@) {
        None => true,
        Some(Value::Record(o)) => match o.SpecGet("License"@) {
            Some(Value::Text(t)) => t@ == "valid"@,
            _ => false,
        },
        Some(_) => false,
    }
}

/// The delay the metadata requests: absent key means none; a non-integer
/// entry counts as zero seconds.
pub open spec fn DelayRequested(m: VectorDatabase) -> Option<u64> {
    match m.SpecGet("Delay"@) {
        None => None,
        Some(Value::Int(d)) => Some(d),
        Some(_) => Some(0),
    }
}

/// The hook list of the metadata; absent or malformed means empty.
pub open spec fn HooksOf(m: VectorDatabase) -> Seq<Value> {
    match m.SpecGet("Hooks"@) {
        Some(Value::List(hs)) => hs@,
        _ => Seq::empty(),
    }
}

/// The first entry of the hook list at or after `From` that names a
/// registered hook, with its index. Entries that are not strings, and
/// names no hook was registered under, are silently skipped.
pub open spec fn NextHookAt(hs: Seq<Value>, Registered: Set<Seq<char>>, From: int) -> Option<
    (int, Seq<char>),
>
    decreases hs.len() - From,
{
    if From < 0 || From >= hs.len() {
        None
    } else {
        match hs[From] {
            Value::Text(t) => if Registered.contains(t@) {
                Some((From, t@))
            } else {
                NextHookAt(hs, Registered, From + 1)
            },
            _ => NextHookAt(hs, Registered, From + 1),
        }
    }
}

/// The pipeline state of one action (or of the chained action that
/// replaced it), between steps.
#[derive(Debug)]
pub struct Execution {
    Metadata: VectorDatabase,
    License: bool,
    Plan: Formality,
    Stage: Phase,
}

/// The metadata, license, and plan agree between `pre` and `post`.
pub open spec fn CorePreserved(pre: Execution, post: Execution) -> bool {
    &&& post.SpecMetadata() == pre.SpecMetadata()
    &&& post.SpecLicense() == pre.SpecLicense()
    &&& post.SpecPlan() == pre.SpecPlan()
}

/// The step failed the pipeline with an execution error reading `msg`.
pub open spec fn FailsExecution(pre: Execution, r: Step, post: Execution, msg: Seq<char>) -> bool {
    &&& r matches Step::Fail { Error } && Error matches ActionError::ExecutionError(s) && s@ == msg
    &&& CorePreserved(pre, post)
    &&& post.SpecPhase() is Finished
}

/// The step failed the pipeline with a license error reading `msg`.
pub open spec fn FailsLicense(pre: Execution, r: Step, post: Execution, msg: Seq<char>) -> bool {
    &&& r matches Step::Fail { Error } && Error matches ActionError::InvalidLicense(s) && s@ == msg
    &&& CorePreserved(pre, post)
    &&& post.SpecPhase() is Finished
}

/// The dispatch stage: resolve the action type in the plan; a bound
/// operation is called, an unbound one fails naming the type.
pub open spec fn DispatchStep(pre: Execution, r: Step, post: Execution) -> bool {
    match ResolvedType(pre.SpecMetadata()) {
        Some(name) => match pre.SpecPlan().SpecFunction(name) {
            Some(h) => {
                &&& r matches Step::Call { Name, Function, Arguments } && Name@ == name && Function
                    == h && Arguments@.len() == 0
                &&& CorePreserved(pre, post)
                &&& post.SpecPhase() is Calling
            },
            None => FailsExecution(
                pre,
                r,
                post,
                "No function found for action type: "@ + name,
            ),
        },
        None => false,
    }
}

/// The hook stage from list position `From` on: issue the next registered
/// hook, or move to dispatch when none is left.
pub open spec fn HookStep(
    pre: Execution,
    Registered: Set<Seq<char>>,
    From: int,
    r: Step,
    post: Execution,
) -> bool {
    match NextHookAt(HooksOf(pre.SpecMetadata()), Registered, From) {
        Some((i, name)) => {
            &&& r matches Step::Hook { Name } && Name@ == name
            &&& CorePreserved(pre, post)
            &&& post.SpecPhase() == (Phase::Hooking { Next: (i + 1) as usize })
        },
        None => DispatchStep(pre, r, post),
    }
}

/// The opening stages of the pipeline, in their strict order: resolve the
/// action type, check the supervising and own licenses, then delay, or go
/// straight on to hooks and dispatch.
pub open spec fn BeginStep(
    pre: Execution,
    Registered: Set<Seq<char>>,
    r: Step,
    post: Execution,
) -> bool {
    let m = pre.SpecMetadata();
    if m.SpecGet("ActionType"@) is None {
        FailsExecution(pre, r, post, "ActionType not found"@)
    } else if ResolvedType(m) is None {
        FailsExecution(pre, r, post, "ActionType is not a string"@)
    } else if !OfficerOk(m) {
        FailsLicense(pre, r, post, "Invalid commanding officer license"@)
    } else if !pre.SpecLicense() {
        FailsLicense(pre, r, post, "Invalid action license"@)
    } else {
        match DelayRequested(m) {
            Some(d) => {
                &&& r matches Step::Sleep { Seconds } && Seconds == d
                &&& CorePreserved(pre, post)
                &&& post.SpecPhase() is Delaying
            },
            None => HookStep(pre, Registered, 0, r, post),
        }
    }
}

/// The chaining stage: no `NextAction` finishes the pipeline; a metadata
/// record becomes the next action to run, under the same plan and a fresh
/// license; anything else is a parse failure.
pub open spec fn ChainStep(pre: Execution, r: Step, post: Execution) -> bool {
    match pre.SpecMetadata().SpecGet("NextAction"@) {
        None => {
            &&& r matches Step::Done
            &&& CorePreserved(pre, post)
            &&& post.SpecPhase() is Finished
        },
        Some(Value::Record(db)) => {
            &&& r matches Step::Chained
            &&& post.SpecMetadata() == db
            &&& post.SpecLicense() == true
            &&& post.SpecPlan() == pre.SpecPlan()
            &&& post.SpecPhase() is Begin
        },
        Some(_) => FailsExecution(pre, r, post, "Failed to parse NextAction"@),
    }
}

/// The license gate: an action whose own license signal read `false` when
/// the pipeline started always fails its first step with `InvalidLicense`
/// — whether or not its operation is registered, and whatever else its
/// metadata holds (a failing supervising-action check also reports
/// `InvalidLicense`). Only an unresolvable action type is reported first,
/// as the pipeline's opening stage.
pub proof fn LemmaLicenseGate(pre: Execution, Registered: Set<Seq<char>>, r: Step, post: Execution)
    requires
        !pre.SpecLicense(),
        ResolvedType(pre.SpecMetadata()) is Some,
        BeginStep(pre, Registered, r, post),
    ensures
        r matches Step::Fail { Error } && Error matches ActionError::InvalidLicense(_),
        post.SpecPhase() is Finished,
{
}

/// The missing operation: a licensed action whose type resolves, asks no
/// delay and lists no registered hook, but whose type has no function
/// bound in the plan, fails its first step with an execution error naming
/// the action type. A declared signature alone binds nothing.
pub proof fn LemmaMissingOperation(
    pre: Execution,
    Registered: Set<Seq<char>>,
    r: Step,
    post: Execution,
)
    requires
        pre.SpecLicense(),
        OfficerOk(pre.SpecMetadata()),
        ResolvedType(pre.SpecMetadata()) is Some,
        DelayRequested(pre.SpecMetadata()) is None,
        NextHookAt(HooksOf(pre.SpecMetadata()), Registered, 0) is None,
        pre.SpecPlan().SpecFunction(ResolvedType(pre.SpecMetadata()).unwrap()) is None,
        BeginStep(pre, Registered, r, post),
    ensures
        r matches Step::Fail { Error } && Error matches ActionError::ExecutionError(s) && s@
            == "No function found for action type: "@ + ResolvedType(pre.SpecMetadata()).unwrap(),
        post.SpecPhase() is Finished,
{
}

/// Chaining: when the dispatched operation has returned and a `NextAction`
/// metadata record is attached, the machine does not finish. It swaps the
/// chained action in — its metadata is the attached record, its license
/// fresh, its plan the same — and stands at the start of that action's own
/// pipeline, so the chained stages run before any final step comes out;
/// and since the machine has a single outcome, a failure of the chained
/// pipeline is the failure the whole execution reports.
pub proof fn LemmaChainContinues(pre: Execution, r: Step, post: Execution)
    requires
        ChainStep(pre, r, post),
        pre.SpecMetadata().SpecGet("NextAction"@) matches Some(v) && v matches Value::Record(_),
    ensures
        r matches Step::Chained,
        !(r matches Step::Done),
        !(r matches Step::Fail { .. }),
        post.SpecPhase() is Begin,
        pre.SpecMetadata().SpecGet("NextAction"@) matches Some(v2) ==> (v2 matches Value::Record(
            db,
        ) ==> post.SpecMetadata() == db),
        post.SpecPlan() == pre.SpecPlan(),
        post.SpecLicense(),
{
}

impl Execution {
    /// The metadata of the action currently in the pipeline.
    pub closed spec fn SpecMetadata(&self) -> VectorDatabase {
        self.Metadata
    }

    /// The license the current action holds.
    pub closed spec fn SpecLicense(&self) -> bool {
        self.License
    }

    /// The registry dispatch resolves operations in.
    pub closed spec fn SpecPlan(&self) -> Formality {
        self.Plan
    }

    /// Where the pipeline stands.
    pub closed spec fn SpecPhase(&self) -> Phase {
        self.Stage
    }

    /// Past the opening stages the action type is known to resolve.
    pub open spec fn Consistent(&self) -> bool {
        match self.SpecPhase() {
            Phase::Delaying => ResolvedType(self.SpecMetadata()) is Some,
            Phase::Hooking { .. } => ResolvedType(self.SpecMetadata()) is Some,
            Phase::Calling => ResolvedType(self.SpecMetadata()) is Some,
            _ => true,
        }
    }

    /// Which event the machine is waiting for.
    pub open spec fn SpecExpects(&self, Happened: Event) -> bool {
        match self.SpecPhase() {
            Phase::Begin => Happened matches Event::Started,
            Phase::Delaying => Happened matches Event::Slept,
            Phase::Hooking { .. } => Happened matches Event::HookDone { .. },
            Phase::Calling => Happened matches Event::CallDone { .. },
            Phase::Finished => false,
        }
    }

    /// A machine poised to run the pipeline over the given action parts.
    pub fn New(Metadata: VectorDatabase, License: bool, Plan: Formality) -> (r: Self)
        ensures
            r.SpecMetadata() == Metadata,
            r.SpecLicense() == License,
            r.SpecPlan() == Plan,
            r.SpecPhase() == Phase::Begin,
    {
        Execution { Metadata, License, Plan, Stage: Phase::Begin }
    }

    /// Advance the pipeline by one step: feed in what the host observed,
    /// get the next effect to perform (or the final outcome) back.
    pub fn Advance<A>(&mut self, Context: &Life<A>, Happened: Event) -> (r: Step)
        requires
            old(self).SpecExpects(Happened),
            old(self).Consistent(),
        ensures
            final(self).Consistent(),
            old(self).SpecPhase() is Begin ==> BeginStep(
                *old(self),
                Context.SpecHookSet(),
                r,
                *final(self),
            ),
            old(self).SpecPhase() is Delaying ==> HookStep(
                *old(self),
                Context.SpecHookSet(),
                0,
                r,
                *final(self),
            ),
            old(self).SpecPhase() matches Phase::Hooking { Next } ==> (Happened matches
                Event::HookDone { Fault: Some(e) } ==> {
                &&& r matches Step::Fail { Error } && Error == e
                &&& CorePreserved(*old(self), *final(self))
                &&& final(self).SpecPhase() is Finished
            }),
            old(self).SpecPhase() matches Phase::Hooking { Next } ==> (Happened matches
                Event::HookDone { Fault: None } ==> HookStep(
                *old(self),
                Context.SpecHookSet(),
                Next as int,
                r,
                *final(self),
            )),
            old(self).SpecPhase() is Calling ==> (Happened matches Event::CallDone {
                Outcome: Err(e),
            } ==> {
                &&& r matches Step::Fail { Error } && Error == e
                &&& CorePreserved(*old(self), *final(self))
                &&& final(self).SpecPhase() is Finished
            }),
            old(self).SpecPhase() is Calling ==> (Happened matches Event::CallDone {
                Outcome: Ok(v),
            } ==> ChainStep(*old(self), r, *final(self))),
    {
        let Stage = self.Stage;
        match (Stage, Happened) {
            (Phase::Begin, Event::Started) => self.StartPipeline(Context),
            (Phase::Delaying, Event::Slept) => self.RunHooks(Context, 0),
            (Phase::Hooking { Next }, Event::HookDone { Fault }) => match Fault {
                Some(e) => {
                    self.Stage = Phase::Finished;
                    Step::Fail { Error: e }
                },
                None => self.RunHooks(Context, Next),
            },
            (Phase::Calling, Event::CallDone { Outcome }) => match Outcome {
                Err(e) => {
                    self.Stage = Phase::Finished;
                    Step::Fail { Error: e }
                },
                Ok(v) => match self.Accept(v) {
                    Ok(_) => self.Chain(),
                    Err(e) => {
                        proof {
                            assert(false);
                        }
                        Step::Fail { Error: e }
                    },
                },
            },
            _ => {
                proof {
                    assert(false);
                }
                Step::Done
            },
        }
    }

    /// The opening stages: resolve, license checks, delay.
    fn StartPipeline<A>(&mut self, Context: &Life<A>) -> (r: Step)
        requires
            old(self).SpecPhase() is Begin,
        ensures
            final(self).Consistent(),
            BeginStep(*old(self), Context.SpecHookSet(), r, *final(self)),
    {
        match self.Metadata.Get("ActionType") {
            None => {
                self.Stage = Phase::Finished;
                return Step::Fail {
                    Error: ActionError::ExecutionError(String::from_str("ActionType not found")),
                };
            },
            Some(Value::Text(_)) => {},
            Some(_) => {
                self.Stage = Phase::Finished;
                return Step::Fail {
                    Error: ActionError::ExecutionError(
                        String::from_str("ActionType is not a string"),
                    ),
                };
            },
        }
        let OfficerValid: bool = match self.Metadata.Get("CommandingOfficer") {
            None => true,
            Some(Value::Record(o)) => {
                let Wanted = String::from_str("valid");
                match o.Get("License") {
                    Some(Value::Text(t)) => *t == Wanted,
                    _ => false,
                }
            },
            Some(_) => false,
        };
        if !OfficerValid {
            self.Stage = Phase::Finished;
            return Step::Fail {
                Error: ActionError::InvalidLicense(
                    String::from_str("Invalid commanding officer license"),
                ),
            };
        }
        if !self.License {
            self.Stage = Phase::Finished;
            return Step::Fail {
                Error: ActionError::InvalidLicense(String::from_str("Invalid action license")),
            };
        }
        match self.Metadata.Get("Delay") {
            None => {},
            Some(Value::Int(d)) => {
                let Seconds = *d;
                self.Stage = Phase::Delaying;
                return Step::Sleep { Seconds };
            },
            Some(_) => {
                self.Stage = Phase::Delaying;
                return Step::Sleep { Seconds: 0 };
            },
        }
        self.RunHooks(Context, 0)
    }

    /// The hook stage: issue the next registered hook at or after list
    /// position `From`, or move on to dispatch.
    fn RunHooks<A>(&mut self, Context: &Life<A>, From: usize) -> (r: Step)
        requires
            ResolvedType(old(self).SpecMetadata()) is Some,
        ensures
            final(self).Consistent(),
            HookStep(*old(self), Context.SpecHookSet(), From as int, r, *final(self)),
    {
        let ghost SpecHooks = HooksOf(self.SpecMetadata());
        match self.Metadata.Get("Hooks") {
            Some(Value::List(hs)) => {
                let mut i: usize = From;
                while i < hs.len()
                    invariant
                        *self == *old(self),
                        ResolvedType(old(self).SpecMetadata()) is Some,
                        hs@ == HooksOf(old(self).SpecMetadata()),
                        i <= hs@.len() || i == From,
                        NextHookAt(hs@, Context.SpecHookSet(), From as int) == NextHookAt(
                            hs@,
                            Context.SpecHookSet(),
                            i as int,
                        ),
                    decreases hs@.len() - i,
                {
                    match &hs[i] {
                        Value::Text(t) => {
                            if Context.HasHook(t.as_str()) {
                                let Name = t.clone();
                                self.Stage = Phase::Hooking { Next: i + 1 };
                                return Step::Hook { Name };
                            }
                        },
                        _ => {},
                    }
                    proof {
                        assert(NextHookAt(hs@, Context.SpecHookSet(), i as int) == NextHookAt(
                            hs@,
                            Context.SpecHookSet(),
                            i + 1,
                        ));
                    }
                    i += 1;
                }
            },
            _ => {},
        }
        self.Dispatch()
    }

    /// The dispatch stage: resolve the action type to its bound operation.
    fn Dispatch(&mut self) -> (r: Step)
        requires
            ResolvedType(old(self).SpecMetadata()) is Some,
        ensures
            final(self).Consistent(),
            DispatchStep(*old(self), r, *final(self)),
    {
        let Name: String = match self.Metadata.Get("ActionType") {
            Some(Value::Text(t)) => t.clone(),
            _ => {
                proof {
                    assert(false);
                }
                String::new()
            },
        };
        match self.Plan.FunctionB(Name.as_str()) {
            Some(h) => {
                let Arguments = self.Argument();
                self.Stage = Phase::Calling;
                Step::Call { Name, Function: h, Arguments }
            },
            None => {
                self.Stage = Phase::Finished;
                Step::Fail {
                    Error: ActionError::ExecutionError(
                        String::from_str("No function found for action type: ").concat(
                            Name.as_str(),
                        ),
                    ),
                }
            },
        }
    }

    /// The chaining stage: finish, or swap in the chained action.
    fn Chain(&mut self) -> (r: Step)
        ensures
            final(self).Consistent(),
            ChainStep(*old(self), r, *final(self)),
    {
        match self.Metadata.Get("NextAction") {
            None => {
                self.Stage = Phase::Finished;
                return Step::Done;
            },
            Some(Value::Record(_)) => {},
            Some(_) => {
                self.Stage = Phase::Finished;
                return Step::Fail {
                    Error: ActionError::ExecutionError(
                        String::from_str("Failed to parse NextAction"),
                    ),
                };
            },
        }
        match self.Metadata.Remove("NextAction") {
            Some(Value::Record(db)) => {
                self.Metadata = db;
                self.License = true;
                self.Stage = Phase::Begin;
                Step::Chained
            },
            _ => {
                proof {
                    assert(false);
                }
                Step::Done
            },
        }
    }

    /// Argument extraction is a pluggable extension point; the reference
    /// behaviour supplies an empty argument list.
    fn Argument(&self) -> (r: Vec<Value>)
        ensures
            r@.len() == 0,
    {
        Vec::new()
    }

    /// Result handling is likewise an extension point; the reference
    /// behaviour accepts the operation's value and discards it.
    fn Accept(&self, _Outcome: Value) -> (r: Result<(), ActionError>)
        ensures
            r is Ok,
    {
        Ok(())
    }
}

} // verus!
