use kwasm::fetch::{fetch, kwasm_complete_fetch, CompletionBridge, PollOutcome};
use kwasm::scratch::ScratchBuffer;

fn scratch_with(bytes: &[u8]) -> ScratchBuffer {
    let mut scratch = ScratchBuffer::new();
    scratch.reserve(bytes.len());
    for (i, b) in bytes.iter().enumerate() {
        scratch.write(i, *b);
    }
    scratch
}

#[test]
fn first_poll_issues_then_suspends() {
    let mut bridge: CompletionBridge<u32> = CompletionBridge::new();
    let token = fetch(&mut bridge, "/data.bin");
    assert_eq!(token, 0);

    let (outcome, issue) = bridge.poll(token, 7);
    assert!(matches!(outcome, PollOutcome::Pending));
    let issue = issue.expect("first poll must issue the host call");
    assert_eq!(issue.token, token);
    assert_eq!(issue.path, "/data.bin");

    // The call is issued once: a second poll only re-parks the waker.
    let (outcome, issue) = bridge.poll(token, 8);
    assert!(matches!(outcome, PollOutcome::Pending));
    assert!(issue.is_none());
}

#[test]
fn completion_result_readable_by_next_poll() {
    let mut bridge: CompletionBridge<u32> = CompletionBridge::new();
    let token = fetch(&mut bridge, "/a");
    let (_, _) = bridge.poll(token, 41);

    let mut scratch = scratch_with(&[1, 2, 3]);
    let waker = kwasm_complete_fetch(&mut bridge, &mut scratch, token);
    assert_eq!(waker, Some(41));
    assert_eq!(scratch.len(), 0);

    let (outcome, issue) = bridge.poll(token, 42);
    assert!(issue.is_none());
    match outcome {
        PollOutcome::Ready(data) => assert_eq!(data, vec![1, 2, 3]),
        PollOutcome::Pending => panic!("result must be ready after completion"),
    }
}

#[test]
fn completion_fires_at_most_once_per_token() {
    let mut bridge: CompletionBridge<u32> = CompletionBridge::new();
    let token = fetch(&mut bridge, "/a");
    let (_, _) = bridge.poll(token, 1);

    let waker = bridge.complete(token, vec![9]);
    assert_eq!(waker, Some(1));

    // The token came home with the first callback; a second delivery for the
    // same token is a no-op and wakes nobody.
    let waker = bridge.complete(token, vec![250]);
    assert_eq!(waker, None);

    match bridge.poll(token, 2).0 {
        PollOutcome::Ready(data) => assert_eq!(data, vec![9]),
        PollOutcome::Pending => panic!("first delivery must have landed"),
    }
}

#[test]
fn unknown_token_is_ignored() {
    let mut bridge: CompletionBridge<u32> = CompletionBridge::new();
    assert_eq!(bridge.complete(99, vec![1]), None);
    assert_eq!(bridge.record_count(), 0);
}

#[test]
fn out_of_order_completions_stay_separate() {
    let mut bridge: CompletionBridge<u32> = CompletionBridge::new();
    let first = fetch(&mut bridge, "/first");
    let second = fetch(&mut bridge, "/second");
    assert_ne!(first, second);

    let (_, issue) = bridge.poll(first, 10);
    assert_eq!(issue.unwrap().path, "/first");
    let (_, issue) = bridge.poll(second, 20);
    assert_eq!(issue.unwrap().path, "/second");

    // Deliver the completions in the opposite order.
    assert_eq!(bridge.complete(second, vec![2, 2]), Some(20));
    assert_eq!(bridge.complete(first, vec![1, 1]), Some(10));

    match bridge.poll(first, 11).0 {
        PollOutcome::Ready(data) => assert_eq!(data, vec![1, 1]),
        PollOutcome::Pending => panic!("first operation lost its result"),
    }
    match bridge.poll(second, 21).0 {
        PollOutcome::Ready(data) => assert_eq!(data, vec![2, 2]),
        PollOutcome::Pending => panic!("second operation lost its result"),
    }
}

#[test]
fn dropped_task_record_reclaimed_on_late_completion() {
    let mut bridge: CompletionBridge<u32> = CompletionBridge::new();
    let token = fetch(&mut bridge, "/slow");
    let (outcome, issue) = bridge.poll(token, 5);
    assert!(matches!(outcome, PollOutcome::Pending));
    assert!(issue.is_some());

    // The awaiting task goes away without ever polling again; the record
    // must stay behind for the host's outstanding token.
    bridge.drop_handle(token);
    assert!(bridge.is_record_live(token));

    // The completion eventually arrives, consumes the token, and the record
    // is reclaimed.
    let mut scratch = scratch_with(&[7]);
    kwasm_complete_fetch(&mut bridge, &mut scratch, token);
    assert!(!bridge.is_record_live(token));
}

#[test]
fn dropping_an_unissued_operation_reclaims_immediately() {
    let mut bridge: CompletionBridge<u32> = CompletionBridge::new();
    let token = fetch(&mut bridge, "/never-polled");
    assert!(bridge.is_record_live(token));
    bridge.drop_handle(token);
    assert!(!bridge.is_record_live(token));
}
