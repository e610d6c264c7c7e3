use echo::action::Action;
use echo::error::ActionError;
use echo::execution::{Event, Step};
use echo::life::{Fate, Life};
use echo::metadata::Value;
use echo::plan::{ActionSignature, Formality, Plan};

fn signature(name: &str) -> ActionSignature {
    ActionSignature {
        Name: name.to_string(),
        InputTypes: vec![],
        OutputType: "()".to_string(),
    }
}

fn plan_with(bindings: &[(&str, u64)]) -> Formality {
    let mut builder = Plan::New();
    for (name, handle) in bindings {
        builder = builder.WithSignature(signature(name));
        builder = builder.WithFunction(name, *handle).unwrap();
    }
    builder.Build()
}

fn empty_life() -> Life<u32> {
    Life::New(Fate::New(None))
}

#[test]
fn new_action_stamps_type_and_license() {
    let action = Action::New("Op", 5u32, Formality::New());
    match action.Metadata.Get("ActionType") {
        Some(Value::Text(t)) => assert_eq!(t, "Op"),
        _ => panic!("ActionType must be stamped as text"),
    }
    match action.Metadata.Get("License") {
        Some(Value::Text(t)) => assert_eq!(t, "valid"),
        _ => panic!("License must be stamped as text"),
    }
    assert_eq!(action.Content, 5);
    assert!(action.LicenseSignal.Get());
}

#[test]
fn with_metadata_decorates_a_copy() {
    let action = Action::New("Op", (), Formality::New()).WithMetadata("Role", Value::Text(
        "Supervisor".to_string(),
    ));
    match action.Metadata.Get("Role") {
        Some(Value::Text(t)) => assert_eq!(t, "Supervisor"),
        _ => panic!("decoration must be stored"),
    }
}

#[test]
fn registered_operation_is_dispatched_with_empty_arguments() {
    let action = Action::New("Op", (), plan_with(&[("Op", 42)]));
    let mut exec = action.Execute();
    match exec.Advance(&empty_life(), Event::Started) {
        Step::Call { Name, Function, Arguments } => {
            assert_eq!(Name, "Op");
            assert_eq!(Function, 42);
            assert!(Arguments.is_empty());
        },
        other => panic!("expected a call step, got {:?}", other),
    }
    match exec.Advance(&empty_life(), Event::CallDone { Outcome: Ok(Value::Null) }) {
        Step::Done => {},
        other => panic!("expected the pipeline to finish, got {:?}", other),
    }
}

#[test]
fn revoked_license_fails_even_with_registered_operation() {
    let mut action = Action::New("Op", (), plan_with(&[("Op", 1)]));
    action.LicenseSignal.Put(false);
    let mut exec = action.Execute();
    match exec.Advance(&empty_life(), Event::Started) {
        Step::Fail { Error: ActionError::InvalidLicense(reason) } => {
            assert_eq!(reason, "Invalid action license");
        },
        other => panic!("expected a license failure, got {:?}", other),
    }
}

#[test]
fn revoked_license_fails_without_registration_too() {
    let mut action = Action::New("Unbound", (), Formality::New());
    action.LicenseSignal.Put(false);
    let mut exec = action.Execute();
    assert!(matches!(
        exec.Advance(&empty_life(), Event::Started),
        Step::Fail { Error: ActionError::InvalidLicense(_) }
    ));
}

#[test]
fn commanding_officer_with_valid_license_passes() {
    let supervisor = Action::New("Commander", (), Formality::New());
    let action = Action::New("Op", (), plan_with(&[("Op", 1)]))
        .WithMetadata("CommandingOfficer", Value::Record(supervisor.Metadata));
    let mut exec = action.Execute();
    assert!(matches!(exec.Advance(&empty_life(), Event::Started), Step::Call { .. }));
}

#[test]
fn commanding_officer_without_valid_license_fails() {
    let mut officer = echo::metadata::VectorDatabase::New();
    officer.Insert("License".to_string(), Value::Text("revoked".to_string()));
    let action = Action::New("Op", (), plan_with(&[("Op", 1)]))
        .WithMetadata("CommandingOfficer", Value::Record(officer));
    let mut exec = action.Execute();
    match exec.Advance(&empty_life(), Event::Started) {
        Step::Fail { Error: ActionError::InvalidLicense(reason) } => {
            assert_eq!(reason, "Invalid commanding officer license");
        },
        other => panic!("expected an officer license failure, got {:?}", other),
    }
}

#[test]
fn unbound_action_type_fails_naming_it() {
    let registry = Plan::New().WithSignature(signature("Lonely")).Build();
    let action = Action::New("Lonely", (), registry);
    let mut exec = action.Execute();
    match exec.Advance(&empty_life(), Event::Started) {
        Step::Fail { Error: ActionError::ExecutionError(reason) } => {
            assert_eq!(reason, "No function found for action type: Lonely");
        },
        other => panic!("expected an unregistered-operation failure, got {:?}", other),
    }
}

#[test]
fn missing_action_type_fails_first() {
    let mut exec = echo::execution::Execution::New(
        echo::metadata::VectorDatabase::New(),
        true,
        Formality::New(),
    );
    match exec.Advance(&empty_life(), Event::Started) {
        Step::Fail { Error: ActionError::ExecutionError(reason) } => {
            assert_eq!(reason, "ActionType not found");
        },
        other => panic!("expected the resolve failure, got {:?}", other),
    }
}

#[test]
fn non_string_action_type_fails() {
    let mut metadata = echo::metadata::VectorDatabase::New();
    metadata.Insert("ActionType".to_string(), Value::Int(9));
    let mut exec = echo::execution::Execution::New(metadata, true, Formality::New());
    match exec.Advance(&empty_life(), Event::Started) {
        Step::Fail { Error: ActionError::ExecutionError(reason) } => {
            assert_eq!(reason, "ActionType is not a string");
        },
        other => panic!("expected the resolve failure, got {:?}", other),
    }
}

#[test]
fn delay_suspends_before_hooks_and_dispatch() {
    let action = Action::New("Op", (), plan_with(&[("Op", 1)])).WithMetadata(
        "Delay",
        Value::Int(5),
    );
    let mut exec = action.Execute();
    match exec.Advance(&empty_life(), Event::Started) {
        Step::Sleep { Seconds } => assert_eq!(Seconds, 5),
        other => panic!("expected the delay, got {:?}", other),
    }
    assert!(matches!(exec.Advance(&empty_life(), Event::Slept), Step::Call { .. }));
}

#[test]
fn non_integer_delay_counts_as_zero() {
    let action = Action::New("Op", (), plan_with(&[("Op", 1)])).WithMetadata(
        "Delay",
        Value::Text("soon".to_string()),
    );
    let mut exec = action.Execute();
    match exec.Advance(&empty_life(), Event::Started) {
        Step::Sleep { Seconds } => assert_eq!(Seconds, 0),
        other => panic!("expected a zero delay, got {:?}", other),
    }
}

#[test]
fn hooks_run_in_order_and_missing_names_are_skipped() {
    let mut life = empty_life();
    life.AddHook("Second".to_string());
    life.AddHook("Third".to_string());
    let action = Action::New("Op", (), plan_with(&[("Op", 1)])).WithMetadata(
        "Hooks",
        Value::List(vec![
            Value::Text("First".to_string()),
            Value::Text("Second".to_string()),
            Value::Int(4),
            Value::Text("Third".to_string()),
        ]),
    );
    let mut exec = action.Execute();
    match exec.Advance(&life, Event::Started) {
        Step::Hook { Name } => assert_eq!(Name, "Second"),
        other => panic!("expected the first registered hook, got {:?}", other),
    }
    match exec.Advance(&life, Event::HookDone { Fault: None }) {
        Step::Hook { Name } => assert_eq!(Name, "Third"),
        other => panic!("expected the next registered hook, got {:?}", other),
    }
    assert!(matches!(exec.Advance(&life, Event::HookDone { Fault: None }), Step::Call { .. }));
}

#[test]
fn failing_hook_aborts_the_execution() {
    let mut life = empty_life();
    life.AddHook("H".to_string());
    let action = Action::New("Op", (), plan_with(&[("Op", 1)]))
        .WithMetadata("Hooks", Value::List(vec![Value::Text("H".to_string())]));
    let mut exec = action.Execute();
    assert!(matches!(exec.Advance(&life, Event::Started), Step::Hook { .. }));
    match exec.Advance(&life, Event::HookDone {
        Fault: Some(ActionError::ExecutionError("hook broke".to_string())),
    }) {
        Step::Fail { Error: ActionError::ExecutionError(reason) } => {
            assert_eq!(reason, "hook broke");
        },
        other => panic!("expected the hook's own error, got {:?}", other),
    }
}

#[test]
fn operation_failure_is_the_pipeline_failure() {
    let action = Action::New("Op", (), plan_with(&[("Op", 1)]));
    let mut exec = action.Execute();
    assert!(matches!(exec.Advance(&empty_life(), Event::Started), Step::Call { .. }));
    match exec.Advance(&empty_life(), Event::CallDone {
        Outcome: Err(ActionError::ExecutionError("op broke".to_string())),
    }) {
        Step::Fail { Error: ActionError::ExecutionError(reason) } => {
            assert_eq!(reason, "op broke");
        },
        other => panic!("expected the operation's error, got {:?}", other),
    }
}

#[test]
fn chained_action_runs_after_the_outer_operation() {
    let plan = plan_with(&[("A", 7), ("B", 8)]);
    let inner = Action::New("B", (), plan.clone());
    let outer = Action::New("A", (), plan)
        .WithMetadata("NextAction", Value::Record(inner.Metadata));
    let mut exec = outer.Execute();
    match exec.Advance(&empty_life(), Event::Started) {
        Step::Call { Name, Function, .. } => {
            assert_eq!(Name, "A");
            assert_eq!(Function, 7);
        },
        other => panic!("expected the outer call, got {:?}", other),
    }
    assert!(matches!(
        exec.Advance(&empty_life(), Event::CallDone { Outcome: Ok(Value::Null) }),
        Step::Chained
    ));
    match exec.Advance(&empty_life(), Event::Started) {
        Step::Call { Name, Function, .. } => {
            assert_eq!(Name, "B");
            assert_eq!(Function, 8);
        },
        other => panic!("expected the chained call, got {:?}", other),
    }
    assert!(matches!(
        exec.Advance(&empty_life(), Event::CallDone { Outcome: Ok(Value::Null) }),
        Step::Done
    ));
}

#[test]
fn chained_failure_is_reported_by_the_outer_execution() {
    let plan = plan_with(&[("A", 1)]);
    let inner = Action::New("Unbound", (), plan.clone());
    let outer = Action::New("A", (), plan)
        .WithMetadata("NextAction", Value::Record(inner.Metadata));
    let mut exec = outer.Execute();
    assert!(matches!(exec.Advance(&empty_life(), Event::Started), Step::Call { .. }));
    assert!(matches!(
        exec.Advance(&empty_life(), Event::CallDone { Outcome: Ok(Value::Null) }),
        Step::Chained
    ));
    match exec.Advance(&empty_life(), Event::Started) {
        Step::Fail { Error: ActionError::ExecutionError(reason) } => {
            assert_eq!(reason, "No function found for action type: Unbound");
        },
        other => panic!("expected the chained failure, got {:?}", other),
    }
}

#[test]
fn malformed_next_action_is_a_parse_failure() {
    let action = Action::New("A", (), plan_with(&[("A", 1)]))
        .WithMetadata("NextAction", Value::Text("not an action".to_string()));
    let mut exec = action.Execute();
    assert!(matches!(exec.Advance(&empty_life(), Event::Started), Step::Call { .. }));
    match exec.Advance(&empty_life(), Event::CallDone { Outcome: Ok(Value::Null) }) {
        Step::Fail { Error: ActionError::ExecutionError(reason) } => {
            assert_eq!(reason, "Failed to parse NextAction");
        },
        other => panic!("expected the parse failure, got {:?}", other),
    }
}

#[test]
fn pipeline_stages_run_in_their_strict_order() {
    let mut life = empty_life();
    life.AddHook("Audit".to_string());
    let plan = plan_with(&[("A", 1), ("B", 2)]);
    let follow_up = Action::New("B", (), plan.clone());
    let action = Action::New("A", (), plan)
        .WithMetadata("Delay", Value::Int(1))
        .WithMetadata("Hooks", Value::List(vec![Value::Text("Audit".to_string())]))
        .WithMetadata("NextAction", Value::Record(follow_up.Metadata));
    let mut exec = action.Execute();
    assert!(matches!(exec.Advance(&life, Event::Started), Step::Sleep { Seconds: 1 }));
    assert!(matches!(exec.Advance(&life, Event::Slept), Step::Hook { .. }));
    match exec.Advance(&life, Event::HookDone { Fault: None }) {
        Step::Call { Name, .. } => assert_eq!(Name, "A"),
        other => panic!("expected the dispatch after the hook, got {:?}", other),
    }
    assert!(matches!(
        exec.Advance(&life, Event::CallDone { Outcome: Ok(Value::Null) }),
        Step::Chained
    ));
    match exec.Advance(&life, Event::Started) {
        Step::Call { Name, .. } => assert_eq!(Name, "B"),
        other => panic!("expected the chained dispatch, got {:?}", other),
    }
    assert!(matches!(
        exec.Advance(&life, Event::CallDone { Outcome: Ok(Value::Null) }),
        Step::Done
    ));
}
