use watch_upload::reader::{
    read_start, read_step, ReadAction, ReadEvent, ReadPolicy, ReadState, DEFAULT_MAX_ATTEMPTS,
    DEFAULT_RETRY_DELAY_MS,
};

/// What a read came to, with the number of attempts made and the time waited.
#[derive(Debug, PartialEq, Eq)]
struct Run {
    returned: Option<Vec<u8>>,
    attempts: u32,
    waited_ms: u64,
}

/// Drives the reader against a file that fails `failures` times and then, if
/// `content` is given, loads it.
fn run_reader(policy: &ReadPolicy, failures: u32, content: Option<&[u8]>) -> Run {
    let (mut state, mut action) = read_start(policy);
    let mut attempts = 0;
    let mut waited_ms = 0;
    loop {
        let event = match action {
            ReadAction::Attempt => {
                attempts += 1;
                match content {
                    Some(bytes) if attempts > failures => ReadEvent::Loaded(bytes.to_vec()),
                    _ => ReadEvent::Unreadable,
                }
            }
            ReadAction::Delay { millis } => {
                waited_ms += millis;
                ReadEvent::DelayElapsed
            }
            ReadAction::Deliver { bytes } => {
                assert_eq!(state, ReadState::Finished);
                return Run { returned: Some(bytes), attempts, waited_ms };
            }
            ReadAction::GiveUp => {
                assert_eq!(state, ReadState::Finished);
                return Run { returned: None, attempts, waited_ms };
            }
        };
        let (next, asked) = read_step(policy, state, event);
        state = next;
        action = asked.expect("the reader answers the event it asked for");
    }
}

#[test]
fn default_policy_is_a_hundred_attempts_fifty_milliseconds_apart() {
    let policy = ReadPolicy::default();
    assert_eq!(policy.max_attempts, 100);
    assert_eq!(policy.retry_delay_ms, 50);
    assert_eq!(DEFAULT_MAX_ATTEMPTS, 100);
    assert_eq!(DEFAULT_RETRY_DELAY_MS, 50);
}

#[test]
fn a_read_begins_with_an_attempt() {
    let policy = ReadPolicy::default();
    let (state, action) = read_start(&policy);
    assert_eq!(state, ReadState::Attempting { remaining: 100 });
    assert_eq!(action, ReadAction::Attempt);
}

#[test]
fn a_policy_without_attempts_gives_up_at_once() {
    let policy = ReadPolicy { max_attempts: 0, retry_delay_ms: 50 };
    let (state, action) = read_start(&policy);
    assert_eq!(state, ReadState::Finished);
    assert_eq!(action, ReadAction::GiveUp);
    assert_eq!(run_reader(&policy, 0, Some(b"x")), Run { returned: None, attempts: 0, waited_ms: 0 });
}

#[test]
fn the_first_attempt_that_loads_wins() {
    let policy = ReadPolicy::default();
    let run = run_reader(&policy, 0, Some(b"exact bytes"));
    assert_eq!(run, Run { returned: Some(b"exact bytes".to_vec()), attempts: 1, waited_ms: 0 });
}

#[test]
fn a_locked_file_is_read_once_it_is_released() {
    let policy = ReadPolicy::default();
    let run = run_reader(&policy, 3, Some(&[0, 255, 7]));
    assert_eq!(run, Run { returned: Some(vec![0, 255, 7]), attempts: 4, waited_ms: 150 });
}

#[test]
fn the_last_attempt_of_the_budget_still_counts() {
    let policy = ReadPolicy::default();
    let run = run_reader(&policy, 99, Some(b"late"));
    assert_eq!(run, Run { returned: Some(b"late".to_vec()), attempts: 100, waited_ms: 4950 });
}

#[test]
fn a_file_released_after_the_budget_is_not_read() {
    let policy = ReadPolicy::default();
    let run = run_reader(&policy, 100, Some(b"too late"));
    assert_eq!(run, Run { returned: None, attempts: 100, waited_ms: 5000 });
}

#[test]
fn a_file_that_never_becomes_readable_exhausts_the_reader() {
    let policy = ReadPolicy::default();
    let run = run_reader(&policy, 0, None);
    assert_eq!(run, Run { returned: None, attempts: 100, waited_ms: 5000 });
}

#[test]
fn a_smaller_budget_is_honoured() {
    let policy = ReadPolicy { max_attempts: 3, retry_delay_ms: 10 };
    assert_eq!(run_reader(&policy, 2, Some(b"ok")), Run {
        returned: Some(b"ok".to_vec()),
        attempts: 3,
        waited_ms: 20,
    });
    assert_eq!(run_reader(&policy, 3, Some(b"ok")), Run { returned: None, attempts: 3, waited_ms: 30 });
    let single = ReadPolicy { max_attempts: 1, retry_delay_ms: 1500 };
    assert_eq!(run_reader(&single, 1, None), Run { returned: None, attempts: 1, waited_ms: 1500 });
}

#[test]
fn a_failed_attempt_is_followed_by_the_delay() {
    let policy = ReadPolicy { max_attempts: 2, retry_delay_ms: 7 };
    let (state, asked) =
        read_step(&policy, ReadState::Attempting { remaining: 2 }, ReadEvent::Unreadable);
    assert_eq!(state, ReadState::Delaying { remaining: 1 });
    assert_eq!(asked, Some(ReadAction::Delay { millis: 7 }));
    let (state, asked) = read_step(&policy, state, ReadEvent::DelayElapsed);
    assert_eq!(state, ReadState::Attempting { remaining: 1 });
    assert_eq!(asked, Some(ReadAction::Attempt));
    let (state, asked) = read_step(&policy, state, ReadEvent::Unreadable);
    assert_eq!(state, ReadState::Delaying { remaining: 0 });
    assert_eq!(asked, Some(ReadAction::Delay { millis: 7 }));
    let (state, asked) = read_step(&policy, state, ReadEvent::DelayElapsed);
    assert_eq!(state, ReadState::Finished);
    assert_eq!(asked, Some(ReadAction::GiveUp));
}

#[test]
fn a_loaded_file_ends_the_read() {
    let policy = ReadPolicy::default();
    let (state, asked) = read_step(
        &policy,
        ReadState::Attempting { remaining: 42 },
        ReadEvent::Loaded(vec![1, 2, 3]),
    );
    assert_eq!(state, ReadState::Finished);
    assert_eq!(asked, Some(ReadAction::Deliver { bytes: vec![1, 2, 3] }));
}

#[test]
fn an_empty_file_is_returned_as_no_bytes() {
    let policy = ReadPolicy::default();
    let run = run_reader(&policy, 1, Some(b""));
    assert_eq!(run, Run { returned: Some(Vec::new()), attempts: 2, waited_ms: 50 });
}

#[test]
fn events_out_of_turn_change_nothing() {
    let policy = ReadPolicy::default();
    let attempting = ReadState::Attempting { remaining: 5 };
    assert_eq!(read_step(&policy, attempting, ReadEvent::DelayElapsed), (attempting, None));
    let delaying = ReadState::Delaying { remaining: 5 };
    assert_eq!(read_step(&policy, delaying, ReadEvent::Unreadable), (delaying, None));
    assert_eq!(read_step(&policy, delaying, ReadEvent::Loaded(vec![9])), (delaying, None));
    let finished = ReadState::Finished;
    assert_eq!(read_step(&policy, finished, ReadEvent::Unreadable), (finished, None));
    assert_eq!(read_step(&policy, finished, ReadEvent::DelayElapsed), (finished, None));
    assert_eq!(read_step(&policy, finished, ReadEvent::Loaded(vec![9])), (finished, None));
}

#[test]
fn a_failure_with_nothing_left_leaves_nothing() {
    let policy = ReadPolicy::default();
    let (state, asked) =
        read_step(&policy, ReadState::Attempting { remaining: 0 }, ReadEvent::Unreadable);
    assert_eq!(state, ReadState::Delaying { remaining: 0 });
    assert_eq!(asked, Some(ReadAction::Delay { millis: 50 }));
}
