use echo::error::ActionError;
use echo::life::{Fate, Life};
use echo::metadata::Value;
use echo::production::Production;
use echo::sequence::{Directive, Sequence};

fn failing_outcome() -> Option<ActionError> {
    Some(ActionError::ExecutionError("still failing".to_string()))
}

#[test]
fn always_failing_worker_gets_exactly_four_attempts() {
    let mut work: Production<&str> = Production::New();
    work.Take("doomed");
    let mut driver = Sequence::New(work, Life::New(Fate::New(Some(3))));
    assert!(matches!(driver.Run(), Directive::Attempt));
    let mut attempts: u32 = 1;
    loop {
        match driver.OnOutcome(failing_outcome()) {
            Directive::Backoff { Seconds } => {
                // 2^attempt seconds plus under a second of jitter
                let base = 1u64 << attempts;
                assert!(Seconds >= base && Seconds < base + 1000);
                assert!(matches!(driver.Resume(), Directive::Attempt));
                attempts += 1;
            },
            Directive::Abandoned { Error } => {
                assert!(matches!(Error, ActionError::ExecutionError(_)));
                break;
            },
            other => panic!("unexpected directive {:?}", other),
        }
    }
    assert_eq!(attempts, 4);
}

#[test]
fn success_on_second_attempt_stops_retrying() {
    let mut work: Production<&str> = Production::New();
    work.Take("flaky");
    let mut driver = Sequence::New(work, Life::New(Fate::New(Some(3))));
    assert!(matches!(driver.Run(), Directive::Attempt));
    assert!(matches!(driver.OnOutcome(failing_outcome()), Directive::Backoff { .. }));
    assert!(matches!(driver.Resume(), Directive::Attempt));
    assert!(matches!(driver.OnOutcome(None), Directive::Resolved));
    // the loop polls on: nothing is left to attempt
    assert!(matches!(driver.Run(), Directive::Idle));
}

#[test]
fn missing_max_retries_defaults_to_three() {
    assert_eq!(Fate::New(None).MaxRetriesSetting(), 3);
    assert_eq!(Fate::New(Some(5)).MaxRetriesSetting(), 5);
    let mut work: Production<&str> = Production::New();
    work.Take("doomed");
    let mut driver = Sequence::New(work, Life::New(Fate::New(None)));
    assert!(matches!(driver.Run(), Directive::Attempt));
    let mut attempts: u32 = 1;
    loop {
        match driver.OnOutcome(failing_outcome()) {
            Directive::Backoff { .. } => {
                assert!(matches!(driver.Resume(), Directive::Attempt));
                attempts += 1;
            },
            Directive::Abandoned { .. } => break,
            other => panic!("unexpected directive {:?}", other),
        }
    }
    assert_eq!(attempts, 4);
}

#[test]
fn abandonment_is_not_fatal_to_the_loop() {
    let mut work: Production<&str> = Production::New();
    work.Take("doomed");
    work.Take("fine");
    let mut driver = Sequence::New(work, Life::New(Fate::New(Some(0))));
    assert!(matches!(driver.Run(), Directive::Attempt));
    assert!(matches!(driver.OnOutcome(failing_outcome()), Directive::Abandoned { .. }));
    assert!(matches!(driver.Run(), Directive::Attempt));
    assert_eq!(driver.CurrentAction(), Some(&"fine"));
    assert!(matches!(driver.OnOutcome(None), Directive::Resolved));
}

#[test]
fn shutdown_is_observed_at_the_next_iteration_boundary() {
    let mut work: Production<&str> = Production::New();
    work.Take("pending");
    let mut driver = Sequence::New(work, Life::New(Fate::New(None)));
    driver.Shutdown();
    assert!(matches!(driver.Run(), Directive::Halt));
    // nothing was dequeued by the halted iteration
    assert_eq!(driver.Work.Length(), 1);
}

#[test]
fn in_flight_attempt_completes_after_shutdown() {
    let mut work: Production<&str> = Production::New();
    work.Take("running");
    let mut driver = Sequence::New(work, Life::New(Fate::New(None)));
    assert!(matches!(driver.Run(), Directive::Attempt));
    driver.Shutdown();
    // the attempt in flight still reports and resolves
    assert!(matches!(driver.OnOutcome(None), Directive::Resolved));
    // only the next iteration boundary observes the flag
    assert!(matches!(driver.Run(), Directive::Halt));
}

#[test]
fn empty_queue_polls_idle() {
    let work: Production<&str> = Production::New();
    let mut driver = Sequence::New(work, Life::New(Fate::New(None)));
    assert!(matches!(driver.Run(), Directive::Idle));
    assert!(matches!(driver.Run(), Directive::Idle));
}

#[test]
fn context_hooks_cache_and_named_queues() {
    let mut life: Life<u32> = Life::New(Fate::New(None));
    assert!(!life.HasHook("LogStart"));
    life.AddHook("LogStart".to_string());
    assert!(life.HasHook("LogStart"));
    assert!(!life.HasHook("LogEnd"));

    life.Remember("last".to_string(), Value::Int(17));
    match life.Recall("last") {
        Some(Value::Int(n)) => assert_eq!(*n, 17),
        _ => panic!("the cached result must come back"),
    }

    let mut secondary: Production<u32> = Production::New();
    secondary.Take(5);
    secondary.Take(6);
    life.AddQueue("Secondary".to_string(), secondary);
    assert_eq!(life.PopNamed("Secondary"), Some(5));
    assert_eq!(life.PopNamed("Secondary"), Some(6));
    assert_eq!(life.PopNamed("Secondary"), None);
    assert_eq!(life.PopNamed("Unknown"), None);
}
