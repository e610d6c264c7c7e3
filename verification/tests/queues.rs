use echo::production::Production;
use echo::steal::WorkerStealingQueue;
use echo::work::{FileOperation, FileOperationResult, Poll, WorkQueue};

#[test]
fn production_queue_is_strict_fifo() {
    let mut queue: Production<&str> = Production::New();
    queue.Take("A");
    queue.Take("B");
    queue.Take("C");
    assert_eq!(queue.Do(), Some("A"));
    assert_eq!(queue.Do(), Some("B"));
    assert_eq!(queue.Do(), Some("C"));
    assert_eq!(queue.Do(), None);
}

#[test]
fn production_queue_reports_its_length() {
    let mut queue: Production<u32> = Production::New();
    assert_eq!(queue.Length(), 0);
    queue.Take(1);
    queue.Take(2);
    assert_eq!(queue.Length(), 2);
    queue.Do();
    assert_eq!(queue.Length(), 1);
}

#[test]
fn work_queue_is_lifo() {
    let mut queue: WorkQueue<u32> = WorkQueue::new();
    queue.push(1);
    queue.push(2);
    assert_eq!(queue.steal(), Some(2));
    assert_eq!(queue.steal(), Some(1));
    assert_eq!(queue.steal(), None);
}

#[test]
fn empty_worker_poll_asks_for_a_short_idle() {
    let mut queue: WorkQueue<u32> = WorkQueue::new();
    match queue.NextMove() {
        Poll::Wait { Millis } => assert_eq!(Millis, 100),
        Poll::Dispatch(_) => panic!("an empty queue cannot dispatch"),
    }
    queue.push(9);
    match queue.NextMove() {
        Poll::Dispatch(task) => assert_eq!(task, 9),
        Poll::Wait { .. } => panic!("a non-empty queue must dispatch"),
    }
}

#[test]
fn bridge_queues_parsed_frames_and_drops_the_rest() {
    let mut queue: WorkQueue<FileOperation> = WorkQueue::new();
    let parsed = FileOperation::Read { path: "input.txt".to_string() };
    assert!(queue.AcceptInbound(Some(parsed.clone())));
    assert!(!queue.AcceptInbound(None));
    assert_eq!(queue.steal(), Some(parsed));
    assert_eq!(queue.steal(), None);
}

#[test]
fn file_operation_result_carries_the_task_and_outcome() {
    let op = FileOperation::Write {
        path: "out.txt".to_string(),
        content: "hello".to_string(),
    };
    let report = FileOperationResult { operation: op.clone(), result: Ok("done".to_string()) };
    assert_eq!(report.operation, op);
    assert_eq!(report.result, Ok("done".to_string()));
}

#[test]
fn stealing_queue_pops_own_deque_lifo() {
    let mut queue: WorkerStealingQueue<u32> = WorkerStealingQueue::New(2);
    queue.Assign(0, 1);
    queue.Assign(0, 2);
    assert_eq!(queue.Do(0), Some(2));
    assert_eq!(queue.Do(0), Some(1));
}

#[test]
fn stealing_drains_every_action_exactly_once() {
    let mut queue: WorkerStealingQueue<u32> = WorkerStealingQueue::New(4);
    let mut expected: Vec<u32> = Vec::new();
    for i in 0..10u32 {
        // workers 1 and 3 start empty, forcing steals
        let owner: usize = if i % 2 == 0 { 0 } else { 2 };
        queue.Assign(owner, i);
        expected.push(i);
    }
    let mut drained: Vec<u32> = Vec::new();
    loop {
        match queue.Do(1) {
            Some(task) => drained.push(task),
            None => break,
        }
    }
    assert_eq!(drained.len(), expected.len());
    drained.sort();
    assert_eq!(drained, expected);
    for w in 0..4usize {
        assert_eq!(queue.Do(w), None);
    }
}

#[test]
fn stealing_from_all_empty_reports_none() {
    let mut queue: WorkerStealingQueue<u32> = WorkerStealingQueue::New(3);
    assert_eq!(queue.Do(0), None);
    assert_eq!(queue.Do(2), None);
}
