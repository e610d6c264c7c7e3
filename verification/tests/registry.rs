use echo::error::ActionError;
use echo::metadata::{Value, VectorDatabase};
use echo::plan::{ActionSignature, Formality, Plan};

fn signature(name: &str) -> ActionSignature {
    ActionSignature {
        Name: name.to_string(),
        InputTypes: vec!["String".to_string()],
        OutputType: "String".to_string(),
    }
}

#[test]
fn function_before_signature_fails() {
    let mut registry = Formality::New();
    let refused = registry.FunctionA("X", 1);
    assert_eq!(refused, Err("No signature found for function: X".to_string()));
    assert_eq!(registry.FunctionB("X"), None);
}

#[test]
fn function_after_signature_succeeds() {
    let mut registry = Formality::New();
    registry.AddSignature(signature("X"));
    assert_eq!(registry.FunctionA("X", 7), Ok(()));
    assert_eq!(registry.FunctionB("X"), Some(7));
}

#[test]
fn rebinding_a_function_overwrites_silently() {
    let mut registry = Formality::New();
    registry.AddSignature(signature("X"));
    assert_eq!(registry.FunctionA("X", 7), Ok(()));
    assert_eq!(registry.FunctionA("X", 9), Ok(()));
    assert_eq!(registry.FunctionB("X"), Some(9));
}

#[test]
fn lookup_of_unregistered_operation_is_none() {
    let mut registry = Formality::New();
    registry.AddSignature(signature("X"));
    assert_eq!(registry.FunctionB("Y"), None);
}

#[test]
fn builder_collects_signatures_and_functions() {
    let registry = Plan::New()
        .WithSignature(signature("Read"))
        .WithSignature(signature("Write"))
        .WithFunction("Read", 1)
        .unwrap()
        .WithFunction("Write", 2)
        .unwrap()
        .Build();
    assert_eq!(registry.FunctionB("Read"), Some(1));
    assert_eq!(registry.FunctionB("Write"), Some(2));
}

#[test]
fn builder_refuses_function_without_signature() {
    let refused = Plan::New().WithFunction("Ghostly", 3);
    match refused {
        Err(message) => {
            assert_eq!(message, "No signature found for function: Ghostly");
        },
        Ok(_) => panic!("binding without a signature must fail"),
    }
}

#[test]
fn metadata_store_inserts_overwrites_and_removes() {
    let mut store = VectorDatabase::New();
    assert!(store.Get("k").is_none());
    store.Insert("k".to_string(), Value::Int(1));
    store.Insert("other".to_string(), Value::Bool(true));
    match store.Get("k") {
        Some(Value::Int(n)) => assert_eq!(*n, 1),
        _ => panic!("expected the stored integer"),
    }
    store.Insert("k".to_string(), Value::Text("two".to_string()));
    match store.Get("k") {
        Some(Value::Text(t)) => assert_eq!(t, "two"),
        _ => panic!("expected the overwritten text"),
    }
    let removed = store.Remove("k");
    assert!(matches!(removed, Some(Value::Text(_))));
    assert!(store.Get("k").is_none());
    assert!(matches!(store.Get("other"), Some(Value::Bool(true))));
}

#[test]
fn error_messages_render_each_variant() {
    assert_eq!(
        ActionError::InvalidLicense("no".to_string()).Message(),
        "Invalid license: no"
    );
    assert_eq!(
        ActionError::ExecutionError("boom".to_string()).Message(),
        "Execution error: boom"
    );
    assert_eq!(
        ActionError::RoutingError("lost".to_string()).Message(),
        "Routing error: lost"
    );
    assert_eq!(
        ActionError::CancellationError("late".to_string()).Message(),
        "Cancellation error: late"
    );
    assert_eq!(ActionError::ExecutionError("boom".to_string()).Reason(), "boom");
}
