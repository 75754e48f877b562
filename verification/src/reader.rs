//! The unlocked reader: a file that was just created may still be held by the
//! program that wrote it, so a failed read is retried after a short delay, up
//! to a ceiling of attempts.
//!
//! The reader is a state machine. It never touches a file or a clock itself:
//! [`read_start`] and [`read_step`] say what to do next, and the caller reports
//! back what happened.

use vstd::prelude::*;

verus! {

/// The attempt ceiling of the default policy.
pub const DEFAULT_MAX_ATTEMPTS: u32 = 100;

/// The delay between attempts of the default policy, in milliseconds.
pub const DEFAULT_RETRY_DELAY_MS: u64 = 50;

/// How persistently a file is read: how many attempts are made at most, and how
/// long the reader waits after each attempt that failed.
#[derive(Clone, Copy, Debug, PartialEq, Eq, Structural)]
pub struct ReadPolicy {
    pub max_attempts: u32,
    pub retry_delay_ms: u64,
}

impl Default for ReadPolicy {
    fn default() -> (policy: ReadPolicy)
        ensures
            policy.max_attempts == DEFAULT_MAX_ATTEMPTS,
            policy.retry_delay_ms == DEFAULT_RETRY_DELAY_MS,
    {
        ReadPolicy { max_attempts: DEFAULT_MAX_ATTEMPTS, retry_delay_ms: DEFAULT_RETRY_DELAY_MS }
    }
}

/// Where a read stands.
#[derive(Clone, Copy, Debug, PartialEq, Eq, Structural)]
pub enum ReadState {
    /// An attempt is under way; `remaining` attempts are left, this one
    /// included.
    Attempting { remaining: u32 },
    /// The delay after a failed attempt is running; `remaining` attempts are
    /// left after it.
    Delaying { remaining: u32 },
    /// The read is over: the bytes were handed out, or the reader gave up.
    Finished,
}

/// What the caller reports to the reader.
#[derive(Debug, PartialEq, Eq)]
pub enum ReadEvent {
    /// The attempt read the whole file.
    Loaded(Vec<u8>),
    /// The attempt failed.
    Unreadable,
    /// The delay is over.
    DelayElapsed,
}

/// A read event over plain bytes.
pub enum ReadEventView {
    Loaded(Seq<u8>),
    Unreadable,
    DelayElapsed,
}

impl View for ReadEvent {
    type V = ReadEventView;

    open spec fn view(&self) -> ReadEventView {
        match self {
            ReadEvent::Loaded(bytes) => ReadEventView::Loaded(bytes@),
            ReadEvent::Unreadable => ReadEventView::Unreadable,
            ReadEvent::DelayElapsed => ReadEventView::DelayElapsed,
        }
    }
}

/// What the reader asks the caller to do.
#[derive(Debug, PartialEq, Eq)]
pub enum ReadAction {
    /// Try to read the whole file and report `Loaded` or `Unreadable`.
    Attempt,
    /// Wait this long and report `DelayElapsed`.
    Delay { millis: u64 },
    /// The read succeeded with these bytes.
    Deliver { bytes: Vec<u8> },
    /// The attempts are used up: the read has failed for good.
    GiveUp,
}

/// A read action over plain bytes.
pub enum ReadActionView {
    Attempt,
    Delay { millis: u64 },
    Deliver { bytes: Seq<u8> },
    GiveUp,
}

impl View for ReadAction {
    type V = ReadActionView;

    open spec fn view(&self) -> ReadActionView {
        match self {
            ReadAction::Attempt => ReadActionView::Attempt,
            ReadAction::Delay { millis } => ReadActionView::Delay { millis: *millis },
            ReadAction::Deliver { bytes } => ReadActionView::Deliver { bytes: bytes@ },
            ReadAction::GiveUp => ReadActionView::GiveUp,
        }
    }
}

impl DeepView for ReadAction {
    type V = ReadActionView;

    open spec fn deep_view(&self) -> ReadActionView {
        self@
    }
}

/// How a read begins: with a first attempt, unless the policy allows none.
pub open spec fn read_start_spec(policy: ReadPolicy) -> (ReadState, ReadActionView) {
    if policy.max_attempts == 0 {
        (ReadState::Finished, ReadActionView::GiveUp)
    } else {
        (ReadState::Attempting { remaining: policy.max_attempts }, ReadActionView::Attempt)
    }
}

/// The reader's transition: the state after `event`, and the action it asks
/// for. An event that does not answer the action the reader last asked for
/// changes nothing and asks for nothing.
pub open spec fn read_step_spec(policy: ReadPolicy, state: ReadState, event: ReadEventView) -> (
    ReadState,
    Option<ReadActionView>,
) {
    match (state, event) {
        (ReadState::Attempting { .. }, ReadEventView::Loaded(bytes)) => (
            ReadState::Finished,
            Some(ReadActionView::Deliver { bytes }),
        ),
        (ReadState::Attempting { remaining }, ReadEventView::Unreadable) => (
            ReadState::Delaying {
                remaining: if remaining > 0 {
                    (remaining - 1) as u32
                } else {
                    0
                },
            },
            Some(ReadActionView::Delay { millis: policy.retry_delay_ms }),
        ),
        (ReadState::Delaying { remaining }, ReadEventView::DelayElapsed) => if remaining > 0 {
            (ReadState::Attempting { remaining }, Some(ReadActionView::Attempt))
        } else {
            (ReadState::Finished, Some(ReadActionView::GiveUp))
        },
        _ => (state, None),
    }
}

/// How a read ends, as far as the attempts made so far decide it.
pub enum ReadVerdict {
    /// The reader handed out these bytes.
    Returned(Seq<u8>),
    /// The reader gave up; no bytes were handed out.
    Exhausted,
    /// The reader is waiting for the outcome of a further attempt.
    Pending,
}

/// Runs the reader from `state`, where it has just asked for `action`, against
/// a file whose successive read attempts end as `outcomes` says: `Some` with
/// the file's bytes, or `None` for a failure. Delays simply elapse; the reader
/// never answers one delay with another.
pub open spec fn read_run(
    policy: ReadPolicy,
    state: ReadState,
    action: ReadActionView,
    outcomes: Seq<Option<Seq<u8>>>,
) -> ReadVerdict
    decreases
        outcomes.len(),
        (if action is Delay {
            1nat
        } else {
            0nat
        }),
{
    match action {
        ReadActionView::Deliver { bytes } => ReadVerdict::Returned(bytes),
        ReadActionView::GiveUp => ReadVerdict::Exhausted,
        ReadActionView::Attempt => if outcomes.len() == 0 {
            ReadVerdict::Pending
        } else {
            let event = match outcomes[0] {
                Some(bytes) => ReadEventView::Loaded(bytes),
                None => ReadEventView::Unreadable,
            };
            let (next, asked) = read_step_spec(policy, state, event);
            match asked {
                Some(next_action) => read_run(policy, next, next_action, outcomes.skip(1)),
                None => ReadVerdict::Pending,
            }
        },
        ReadActionView::Delay { .. } => {
            let (next, asked) = read_step_spec(policy, state, ReadEventView::DelayElapsed);
            match asked {
                Some(next_action) if !(next_action is Delay) => read_run(
                    policy,
                    next,
                    next_action,
                    outcomes,
                ),
                _ => ReadVerdict::Pending,
            }
        },
    }
}

/// A whole read under `policy` of a file whose attempts end as `outcomes` says.
pub open spec fn read_outcome(policy: ReadPolicy, outcomes: Seq<Option<Seq<u8>>>) -> ReadVerdict {
    read_run(policy, read_start_spec(policy).0, read_start_spec(policy).1, outcomes)
}

/// The first `failures` attempts fail and the next one loads `bytes`.
pub open spec fn loads_after(outcomes: Seq<Option<Seq<u8>>>, failures: nat, bytes: Seq<u8>) -> bool {
    &&& failures < outcomes.len()
    &&& forall|i: int| 0 <= i < failures ==> #[trigger] outcomes[i] is None
    &&& outcomes[failures as int] == Some(bytes)
}

/// The first `count` attempts are made and all of them fail.
pub open spec fn fails_throughout(outcomes: Seq<Option<Seq<u8>>>, count: nat) -> bool {
    &&& count <= outcomes.len()
    &&& forall|i: int| 0 <= i < count ==> #[trigger] outcomes[i] is None
}

/// Begins a read: the initial state and the first action.
pub fn read_start(policy: &ReadPolicy) -> (begun: (ReadState, ReadAction))
    ensures
        (begun.0, begun.1@) == read_start_spec(*policy),
{
    if policy.max_attempts == 0 {
        (ReadState::Finished, ReadAction::GiveUp)
    } else {
        (ReadState::Attempting { remaining: policy.max_attempts }, ReadAction::Attempt)
    }
}

/// Advances a read by one event. The first attempt that loads the file ends the
/// read with exactly the bytes it loaded. A failed attempt is always followed
/// by the policy's delay; after the delay comes another attempt if any is left,
/// else the reader gives up.
pub fn read_step(policy: &ReadPolicy, state: ReadState, event: ReadEvent) -> (stepped: (
    ReadState,
    Option<ReadAction>,
))
    ensures
        (stepped.0, stepped.1.deep_view()) == read_step_spec(*policy, state, event@),
{
    match state {
        ReadState::Attempting { remaining } => match event {
            ReadEvent::Loaded(bytes) => (ReadState::Finished, Some(ReadAction::Deliver { bytes })),
            ReadEvent::Unreadable => {
                let left: u32 = if remaining > 0 {
                    remaining - 1
                } else {
                    0
                };
                (
                    ReadState::Delaying { remaining: left },
                    Some(ReadAction::Delay { millis: policy.retry_delay_ms }),
                )
            },
            ReadEvent::DelayElapsed => (state, None),
        },
        ReadState::Delaying { remaining } => match event {
            ReadEvent::DelayElapsed => if remaining > 0 {
                (ReadState::Attempting { remaining }, Some(ReadAction::Attempt))
            } else {
                (ReadState::Finished, Some(ReadAction::GiveUp))
            },
            _ => (state, None),
        },
        ReadState::Finished => (state, None),
    }
}

/// With `remaining` attempts left, a file that fails `failures` times and then
/// loads is returned if `failures < remaining`.
proof fn lemma_loads_after_failures(
    policy: ReadPolicy,
    remaining: u32,
    outcomes: Seq<Option<Seq<u8>>>,
    failures: nat,
    bytes: Seq<u8>,
)
    requires
        failures < remaining,
        loads_after(outcomes, failures, bytes),
    ensures
        read_run(policy, ReadState::Attempting { remaining }, ReadActionView::Attempt, outcomes)
            == ReadVerdict::Returned(bytes),
    decreases failures,
{
    reveal_with_fuel(read_run, 3);
    if failures > 0 {
        let rest = outcomes.skip(1);
        assert(forall|i: int| 0 <= i < failures - 1 ==> #[trigger] rest[i] == outcomes[i + 1]);
        lemma_loads_after_failures(
            policy,
            (remaining - 1) as u32,
            rest,
            (failures - 1) as nat,
            bytes,
        );
    }
}

/// With `remaining` attempts left, a file whose next `remaining` attempts all
/// fail is given up.
proof fn lemma_gives_up_after_failures(
    policy: ReadPolicy,
    remaining: u32,
    outcomes: Seq<Option<Seq<u8>>>,
)
    requires
        0 < remaining,
        fails_throughout(outcomes, remaining as nat),
    ensures
        read_run(policy, ReadState::Attempting { remaining }, ReadActionView::Attempt, outcomes)
            == ReadVerdict::Exhausted,
    decreases remaining,
{
    reveal_with_fuel(read_run, 3);
    if remaining > 1 {
        let rest = outcomes.skip(1);
        assert(forall|i: int| 0 <= i < remaining - 1 ==> #[trigger] rest[i] == outcomes[i + 1]);
        lemma_gives_up_after_failures(policy, (remaining - 1) as u32, rest);
    }
}

/// A file that becomes readable within the budget is returned with exactly the
/// bytes of the first attempt that loaded it: if the first `failures` attempts
/// fail, with `failures` below the attempt ceiling, and the next one loads
/// `bytes`, the read returns `bytes`.
pub proof fn readable_within_budget_is_returned(
    policy: ReadPolicy,
    outcomes: Seq<Option<Seq<u8>>>,
    failures: nat,
    bytes: Seq<u8>,
)
    requires
        failures < policy.max_attempts,
        loads_after(outcomes, failures, bytes),
    ensures
        read_outcome(policy, outcomes) == ReadVerdict::Returned(bytes),
{
    lemma_loads_after_failures(policy, policy.max_attempts, outcomes, failures, bytes);
}

/// A file that stays unreadable for as many attempts as the ceiling allows is
/// given up, and no bytes are returned.
pub proof fn never_readable_is_exhausted(policy: ReadPolicy, outcomes: Seq<Option<Seq<u8>>>)
    requires
        fails_throughout(outcomes, policy.max_attempts as nat),
    ensures
        read_outcome(policy, outcomes) == ReadVerdict::Exhausted,
{
    if policy.max_attempts > 0 {
        lemma_gives_up_after_failures(policy, policy.max_attempts, outcomes);
    }
}

/// With `remaining` attempts left, bytes that the reader returns were loaded by
/// an attempt within the budget, before which every attempt failed.
proof fn lemma_returned_was_loaded(
    policy: ReadPolicy,
    remaining: u32,
    outcomes: Seq<Option<Seq<u8>>>,
    bytes: Seq<u8>,
) -> (failures: nat)
    requires
        0 < remaining,
        read_run(policy, ReadState::Attempting { remaining }, ReadActionView::Attempt, outcomes)
            == ReadVerdict::Returned(bytes),
    ensures
        failures < remaining,
        loads_after(outcomes, failures, bytes),
    decreases outcomes.len(),
{
    reveal_with_fuel(read_run, 3);
    if outcomes[0] is Some {
        0
    } else {
        let rest = outcomes.skip(1);
        let before = lemma_returned_was_loaded(policy, (remaining - 1) as u32, rest, bytes);
        assert(forall|i: int| 1 <= i < before + 1 ==> outcomes[i] == rest[i - 1]);
        before + 1
    }
}

/// With `remaining` attempts left, a reader that gives up has made all of them
/// and seen each one fail.
proof fn lemma_exhausted_had_failed(
    policy: ReadPolicy,
    remaining: u32,
    outcomes: Seq<Option<Seq<u8>>>,
)
    requires
        0 < remaining,
        read_run(policy, ReadState::Attempting { remaining }, ReadActionView::Attempt, outcomes)
            == ReadVerdict::Exhausted,
    ensures
        fails_throughout(outcomes, remaining as nat),
    decreases outcomes.len(),
{
    reveal_with_fuel(read_run, 3);
    if remaining > 1 {
        let rest = outcomes.skip(1);
        lemma_exhausted_had_failed(policy, (remaining - 1) as u32, rest);
        assert(forall|i: int| 1 <= i < remaining ==> outcomes[i] == rest[i - 1]);
    }
}

/// The reader returns nothing but what it read: bytes that a read returns were
/// loaded by an attempt within the budget, and every attempt before it had
/// failed.
pub proof fn returned_bytes_were_loaded(
    policy: ReadPolicy,
    outcomes: Seq<Option<Seq<u8>>>,
    bytes: Seq<u8>,
)
    requires
        read_outcome(policy, outcomes) == ReadVerdict::Returned(bytes),
    ensures
        exists|failures: nat|
            failures < policy.max_attempts && #[trigger] loads_after(outcomes, failures, bytes),
{
    let failures = lemma_returned_was_loaded(policy, policy.max_attempts, outcomes, bytes);
    assert(loads_after(outcomes, failures, bytes));
}

/// The reader gives up only when the budget is spent: every attempt that the
/// ceiling allows was made and failed.
pub proof fn exhausted_only_after_the_ceiling(policy: ReadPolicy, outcomes: Seq<Option<Seq<u8>>>)
    requires
        read_outcome(policy, outcomes) == ReadVerdict::Exhausted,
    ensures
        fails_throughout(outcomes, policy.max_attempts as nat),
{
    if policy.max_attempts > 0 {
        lemma_exhausted_had_failed(policy, policy.max_attempts, outcomes);
    }
}

} // verus!
