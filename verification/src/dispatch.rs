//! The upload dispatcher: one file is read by the unlocked reader, classified,
//! and handed to the sink exactly once, under the send operation of its
//! category.
//!
//! An [`Upload`] is a state machine. The caller performs each action it asks
//! for (reading the file, waiting, sending) and reports the outcome as an
//! event; the upload decides what comes next. An upload never touches another
//! upload: whatever happens to one file leaves the others alone.

use crate::classify::{category_of, classify, names_extension, Category};
use crate::reader::{
    fails_throughout, loads_after, read_start, read_start_spec, read_step, read_step_spec,
    ReadAction, ReadActionView, ReadEvent, ReadEventView, ReadPolicy, ReadState,
};
use crate::task::{TaskView, UploadTask};
use vstd::prelude::*;

verus! {

/// One call of the sink: the send operation is chosen by `category`, the target
/// is `destination`, and `attachment` travels as an in-memory file.
#[derive(Debug, PartialEq, Eq)]
pub struct Delivery {
    pub category: Category,
    pub destination: String,
    pub attachment: Vec<u8>,
}

/// A delivery over plain text and bytes.
pub struct DeliveryView {
    pub category: Category,
    pub destination: Seq<char>,
    pub attachment: Seq<u8>,
}

impl View for Delivery {
    type V = DeliveryView;

    open spec fn view(&self) -> DeliveryView {
        DeliveryView {
            category: self.category,
            destination: self.destination@,
            attachment: self.attachment@,
        }
    }
}

/// Why an upload was abandoned.
#[derive(Debug, PartialEq, Eq)]
pub enum UploadError {
    /// The file at `path` could not be read within the retry budget.
    ReadExhausted { path: String },
    /// The sink rejected the attachment or could not transmit it.
    DeliveryFailed { reason: String },
}

/// An upload error over plain text.
pub enum UploadErrorView {
    ReadExhausted { path: Seq<char> },
    DeliveryFailed { reason: Seq<char> },
}

impl View for UploadError {
    type V = UploadErrorView;

    open spec fn view(&self) -> UploadErrorView {
        match self {
            UploadError::ReadExhausted { path } => UploadErrorView::ReadExhausted { path: path@ },
            UploadError::DeliveryFailed { reason } => UploadErrorView::DeliveryFailed {
                reason: reason@,
            },
        }
    }
}

/// Where an upload stands.
#[derive(Clone, Copy, Debug, PartialEq, Eq, Structural)]
pub enum UploadState {
    /// The file is being read.
    Reading(ReadState),
    /// The attachment is with the sink.
    Sending,
    /// The upload is over.
    Finished,
}

/// What the caller reports to an upload.
#[derive(Debug, PartialEq, Eq)]
pub enum UploadEvent {
    /// A read attempt loaded the whole file.
    Loaded(Vec<u8>),
    /// A read attempt failed.
    Unreadable,
    /// The delay is over.
    DelayElapsed,
    /// The sink accepted the attachment.
    Sent,
    /// The sink failed; the text says how.
    SendFailed(String),
}

/// An upload event over plain text and bytes.
pub enum UploadEventView {
    Loaded(Seq<u8>),
    Unreadable,
    DelayElapsed,
    Sent,
    SendFailed(Seq<char>),
}

impl View for UploadEvent {
    type V = UploadEventView;

    open spec fn view(&self) -> UploadEventView {
        match self {
            UploadEvent::Loaded(bytes) => UploadEventView::Loaded(bytes@),
            UploadEvent::Unreadable => UploadEventView::Unreadable,
            UploadEvent::DelayElapsed => UploadEventView::DelayElapsed,
            UploadEvent::Sent => UploadEventView::Sent,
            UploadEvent::SendFailed(reason) => UploadEventView::SendFailed(reason@),
        }
    }
}

/// What an upload asks the caller to do.
#[derive(Debug, PartialEq, Eq)]
pub enum UploadAction {
    /// Try to read the whole file at `path`; report `Loaded` or `Unreadable`.
    ReadFile { path: String },
    /// Wait this long; report `DelayElapsed`.
    Wait { millis: u64 },
    /// Make this one call of the sink; report `Sent` or `SendFailed`.
    Send(Delivery),
    /// The upload is over, with this result.
    Finish(Result<(), UploadError>),
}

/// An upload action over plain text and bytes.
pub enum UploadActionView {
    ReadFile { path: Seq<char> },
    Wait { millis: u64 },
    Send(DeliveryView),
    Finish(Result<(), UploadErrorView>),
}

impl View for UploadAction {
    type V = UploadActionView;

    open spec fn view(&self) -> UploadActionView {
        match self {
            UploadAction::ReadFile { path } => UploadActionView::ReadFile { path: path@ },
            UploadAction::Wait { millis } => UploadActionView::Wait { millis: *millis },
            UploadAction::Send(delivery) => UploadActionView::Send(delivery@),
            UploadAction::Finish(Ok(())) => UploadActionView::Finish(Ok(())),
            UploadAction::Finish(Err(error)) => UploadActionView::Finish(Err(error@)),
        }
    }
}

impl DeepView for UploadAction {
    type V = UploadActionView;

    open spec fn deep_view(&self) -> UploadActionView {
        self@
    }
}

/// The upload of one file.
#[derive(Debug, PartialEq, Eq)]
pub struct Upload {
    /// The file and where it goes.
    pub task: UploadTask,
    /// How the file is delivered.
    pub category: Category,
    /// How persistently the file is read.
    pub policy: ReadPolicy,
    /// Where the upload stands.
    pub state: UploadState,
}

/// An upload over plain text.
pub struct UploadView {
    pub task: TaskView,
    pub category: Category,
    pub policy: ReadPolicy,
    pub state: UploadState,
}

impl View for Upload {
    type V = UploadView;

    open spec fn view(&self) -> UploadView {
        UploadView {
            task: self.task@,
            category: self.category,
            policy: self.policy,
            state: self.state,
        }
    }
}

/// The sink call that delivers `bytes` for `upload`.
pub open spec fn delivery_of(upload: UploadView, bytes: Seq<u8>) -> DeliveryView {
    DeliveryView {
        category: upload.category,
        destination: upload.task.destination,
        attachment: bytes,
    }
}

/// The reader's event that an upload event stands for, if it is one.
pub open spec fn read_event_of(event: UploadEventView) -> Option<ReadEventView> {
    match event {
        UploadEventView::Loaded(bytes) => Some(ReadEventView::Loaded(bytes)),
        UploadEventView::Unreadable => Some(ReadEventView::Unreadable),
        UploadEventView::DelayElapsed => Some(ReadEventView::DelayElapsed),
        _ => None,
    }
}

/// What an upload makes of its reader's request: attempts and delays are passed
/// on, loaded bytes go to the sink, and a reader that gives up ends the upload.
pub open spec fn follow_reader(upload: UploadView, next: ReadState, asked: ReadActionView) -> (
    UploadView,
    UploadActionView,
) {
    match asked {
        ReadActionView::Attempt => (
            UploadView { state: UploadState::Reading(next), ..upload },
            UploadActionView::ReadFile { path: upload.task.path },
        ),
        ReadActionView::Delay { millis } => (
            UploadView { state: UploadState::Reading(next), ..upload },
            UploadActionView::Wait { millis },
        ),
        ReadActionView::Deliver { bytes } => (
            UploadView { state: UploadState::Sending, ..upload },
            UploadActionView::Send(delivery_of(upload, bytes)),
        ),
        ReadActionView::GiveUp => (
            UploadView { state: UploadState::Finished, ..upload },
            UploadActionView::Finish(
                Err(UploadErrorView::ReadExhausted { path: upload.task.path }),
            ),
        ),
    }
}

/// How the upload of `task`, delivered as `category`, begins.
pub open spec fn upload_start_spec(task: TaskView, category: Category, policy: ReadPolicy) -> (
    UploadView,
    UploadActionView,
) {
    follow_reader(
        UploadView { task, category, policy, state: UploadState::Finished },
        read_start_spec(policy).0,
        read_start_spec(policy).1,
    )
}

/// An upload's transition: the upload after `event`, and the action it asks
/// for. An event that does not answer the action last asked for changes
/// nothing and asks for nothing.
pub open spec fn upload_step_spec(upload: UploadView, event: UploadEventView) -> (
    UploadView,
    Option<UploadActionView>,
) {
    match upload.state {
        UploadState::Reading(reading) => match read_event_of(event) {
            Some(read_event) => {
                let (next, asked) = read_step_spec(upload.policy, reading, read_event);
                match asked {
                    Some(read_action) => {
                        let (after, action) = follow_reader(upload, next, read_action);
                        (after, Some(action))
                    },
                    None => (upload, None),
                }
            },
            None => (upload, None),
        },
        UploadState::Sending => match event {
            UploadEventView::Sent => (
                UploadView { state: UploadState::Finished, ..upload },
                Some(UploadActionView::Finish(Ok(()))),
            ),
            UploadEventView::SendFailed(reason) => (
                UploadView { state: UploadState::Finished, ..upload },
                Some(UploadActionView::Finish(Err(UploadErrorView::DeliveryFailed { reason }))),
            ),
            _ => (upload, None),
        },
        UploadState::Finished => (upload, None),
    }
}

impl Upload {
    /// Turns the reader's request into the upload's next state and action.
    fn follow(&mut self, next: ReadState, asked: ReadAction) -> (action: UploadAction)
        ensures
            (final(self)@, action@) == follow_reader(old(self)@, next, asked@),
    {
        match asked {
            ReadAction::Attempt => {
                self.state = UploadState::Reading(next);
                UploadAction::ReadFile { path: self.task.path.clone() }
            },
            ReadAction::Delay { millis } => {
                self.state = UploadState::Reading(next);
                UploadAction::Wait { millis }
            },
            ReadAction::Deliver { bytes } => {
                self.state = UploadState::Sending;
                UploadAction::Send(
                    Delivery {
                        category: self.category,
                        destination: self.task.destination.clone(),
                        attachment: bytes,
                    },
                )
            },
            ReadAction::GiveUp => {
                self.state = UploadState::Finished;
                UploadAction::Finish(
                    Err(UploadError::ReadExhausted { path: self.task.path.clone() }),
                )
            },
        }
    }

    /// Begins the upload of `task` as an attachment of the given category: the
    /// upload, and the first action it asks for.
    pub fn with_category(task: UploadTask, category: Category, policy: ReadPolicy) -> (begun: (
        Upload,
        UploadAction,
    ))
        ensures
            (begun.0@, begun.1@) == upload_start_spec(task@, category, policy),
    {
        let mut upload = Upload { task, category, policy, state: UploadState::Finished };
        let (reading, asked) = read_start(&policy);
        let action = upload.follow(reading, asked);
        (upload, action)
    }

    /// Begins the upload of `task`, delivered as the category that
    /// [`classify`] finds for its path.
    pub fn start(task: UploadTask, policy: ReadPolicy) -> (begun: (Upload, UploadAction))
        ensures
            (begun.0@, begun.1@) == upload_start_spec(task@, begun.0.category, policy),
            begun.0.category != Category::Document ==> exists|ext: Seq<char>|
                #[trigger] names_extension(task@.path, ext) && begun.0.category == category_of(
                    Some(ext),
                ),
            !task@.path.contains('.') ==> begun.0.category == Category::Document,
    {
        let category = classify(task.path.as_str());
        Upload::with_category(task, category, policy)
    }

    /// Advances the upload by one event.
    pub fn step(&mut self, event: UploadEvent) -> (asked: Option<UploadAction>)
        ensures
            (final(self)@, asked.deep_view()) == upload_step_spec(old(self)@, event@),
    {
        match self.state {
            UploadState::Reading(reading) => {
                let read_event = match event {
                    UploadEvent::Loaded(bytes) => ReadEvent::Loaded(bytes),
                    UploadEvent::Unreadable => ReadEvent::Unreadable,
                    UploadEvent::DelayElapsed => ReadEvent::DelayElapsed,
                    _ => {
                        return None;
                    },
                };
                let (next, asked) = read_step(&self.policy, reading, read_event);
                match asked {
                    Some(read_action) => Some(self.follow(next, read_action)),
                    None => None,
                }
            },
            UploadState::Sending => match event {
                UploadEvent::Sent => {
                    self.state = UploadState::Finished;
                    Some(UploadAction::Finish(Ok(())))
                },
                UploadEvent::SendFailed(reason) => {
                    self.state = UploadState::Finished;
                    Some(UploadAction::Finish(Err(UploadError::DeliveryFailed { reason })))
                },
                _ => None,
            },
            UploadState::Finished => None,
        }
    }
}

/// What an upload did: the sink calls it made, in order, and its result once it
/// is over.
pub struct UploadTrace {
    pub deliveries: Seq<DeliveryView>,
    pub result: Option<Result<(), UploadErrorView>>,
}

/// The event with which the caller answers a sink call that ended as `sink`
/// says.
pub open spec fn sink_event(sink: Result<(), Seq<char>>) -> UploadEventView {
    match sink {
        Ok(_) => UploadEventView::Sent,
        Err(reason) => UploadEventView::SendFailed(reason),
    }
}

/// Runs `upload`, which has just asked for `action`, against a file whose
/// successive read attempts end as `reads` says (`Some` with the file's bytes,
/// `None` for a failure) and a sink whose call ends as `sink` says. Delays
/// simply elapse; an upload never answers one delay with another. The run
/// stops where the upload finishes, or where it waits for a read attempt of
/// which `reads` says nothing.
pub open spec fn upload_run(
    upload: UploadView,
    action: UploadActionView,
    reads: Seq<Option<Seq<u8>>>,
    sink: Result<(), Seq<char>>,
) -> UploadTrace
    decreases
        reads.len(),
        (if action is Wait {
            1nat
        } else {
            0nat
        }),
{
    match action {
        UploadActionView::Finish(result) => UploadTrace {
            deliveries: Seq::empty(),
            result: Some(result),
        },
        UploadActionView::Send(delivery) => match upload_step_spec(upload, sink_event(sink)).1 {
            Some(UploadActionView::Finish(result)) => UploadTrace {
                deliveries: seq![delivery],
                result: Some(result),
            },
            _ => UploadTrace { deliveries: seq![delivery], result: None },
        },
        UploadActionView::ReadFile { .. } => if reads.len() == 0 {
            UploadTrace { deliveries: Seq::empty(), result: None }
        } else {
            let event = match reads[0] {
                Some(bytes) => UploadEventView::Loaded(bytes),
                None => UploadEventView::Unreadable,
            };
            let (next, asked) = upload_step_spec(upload, event);
            match asked {
                Some(next_action) => upload_run(next, next_action, reads.skip(1), sink),
                None => UploadTrace { deliveries: Seq::empty(), result: None },
            }
        },
        UploadActionView::Wait { .. } => {
            let (next, asked) = upload_step_spec(upload, UploadEventView::DelayElapsed);
            match asked {
                Some(next_action) if !(next_action is Wait) => upload_run(
                    next,
                    next_action,
                    reads,
                    sink,
                ),
                _ => UploadTrace { deliveries: Seq::empty(), result: None },
            }
        },
    }
}

/// A whole upload of `task` as `category` under `policy`.
pub open spec fn upload_outcome(
    task: TaskView,
    category: Category,
    policy: ReadPolicy,
    reads: Seq<Option<Seq<u8>>>,
    sink: Result<(), Seq<char>>,
) -> UploadTrace {
    upload_run(
        upload_start_spec(task, category, policy).0,
        upload_start_spec(task, category, policy).1,
        reads,
        sink,
    )
}

/// The result of an upload whose one sink call ended as `sink` says.
pub open spec fn result_of_sink(sink: Result<(), Seq<char>>) -> Result<(), UploadErrorView> {
    match sink {
        Ok(_) => Ok(()),
        Err(reason) => Err(UploadErrorView::DeliveryFailed { reason }),
    }
}

/// With `remaining` attempts left, a file that fails `failures` times and then
/// loads is sent once, with the bytes it loaded.
proof fn lemma_sends_after_failures(
    upload: UploadView,
    remaining: u32,
    reads: Seq<Option<Seq<u8>>>,
    sink: Result<(), Seq<char>>,
    failures: nat,
    bytes: Seq<u8>,
)
    requires
        upload.state == UploadState::Reading(ReadState::Attempting { remaining }),
        failures < remaining,
        loads_after(reads, failures, bytes),
    ensures
        upload_run(upload, UploadActionView::ReadFile { path: upload.task.path }, reads, sink)
            == (UploadTrace {
            deliveries: seq![delivery_of(upload, bytes)],
            result: Some(result_of_sink(sink)),
        }),
    decreases failures,
{
    reveal_with_fuel(upload_run, 3);
    if failures > 0 {
        let rest = reads.skip(1);
        assert(forall|i: int| 0 <= i < failures - 1 ==> #[trigger] rest[i] == reads[i + 1]);
        let next = UploadView {
            state: UploadState::Reading(
                ReadState::Attempting { remaining: (remaining - 1) as u32 },
            ),
            ..upload
        };
        lemma_sends_after_failures(next, (remaining - 1) as u32, rest, sink, (failures - 1) as nat, bytes);
    }
}

/// With `remaining` attempts left, a file whose next `remaining` attempts all
/// fail is given up without a sink call.
proof fn lemma_abandons_after_failures(
    upload: UploadView,
    remaining: u32,
    reads: Seq<Option<Seq<u8>>>,
    sink: Result<(), Seq<char>>,
)
    requires
        upload.state == UploadState::Reading(ReadState::Attempting { remaining }),
        0 < remaining,
        fails_throughout(reads, remaining as nat),
    ensures
        upload_run(upload, UploadActionView::ReadFile { path: upload.task.path }, reads, sink)
            == (UploadTrace {
            deliveries: Seq::empty(),
            result: Some(Err(UploadErrorView::ReadExhausted { path: upload.task.path })),
        }),
    decreases remaining,
{
    reveal_with_fuel(upload_run, 3);
    if remaining > 1 {
        let rest = reads.skip(1);
        assert(forall|i: int| 0 <= i < remaining - 1 ==> #[trigger] rest[i] == reads[i + 1]);
        let next = UploadView {
            state: UploadState::Reading(
                ReadState::Attempting { remaining: (remaining - 1) as u32 },
            ),
            ..upload
        };
        lemma_abandons_after_failures(next, (remaining - 1) as u32, rest, sink);
    }
}

/// An upload whose file becomes readable within the retry budget calls the
/// sink exactly once: with the category of the upload, the destination of the
/// task and exactly the bytes that were read. Its result is that of the sink
/// call; the call is not repeated when it fails.
pub proof fn readable_file_is_delivered_once(
    task: TaskView,
    category: Category,
    policy: ReadPolicy,
    reads: Seq<Option<Seq<u8>>>,
    sink: Result<(), Seq<char>>,
    failures: nat,
    bytes: Seq<u8>,
)
    requires
        failures < policy.max_attempts,
        loads_after(reads, failures, bytes),
    ensures
        upload_outcome(task, category, policy, reads, sink) == (UploadTrace {
            deliveries: seq![
                DeliveryView { category, destination: task.destination, attachment: bytes },
            ],
            result: Some(result_of_sink(sink)),
        }),
{
    let upload = upload_start_spec(task, category, policy).0;
    lemma_sends_after_failures(upload, policy.max_attempts, reads, sink, failures, bytes);
}

/// An upload whose file stays unreadable for as many attempts as the ceiling
/// allows fails with `ReadExhausted`, naming the file, and never calls the
/// sink.
pub proof fn unreadable_file_is_never_delivered(
    task: TaskView,
    category: Category,
    policy: ReadPolicy,
    reads: Seq<Option<Seq<u8>>>,
    sink: Result<(), Seq<char>>,
)
    requires
        fails_throughout(reads, policy.max_attempts as nat),
    ensures
        upload_outcome(task, category, policy, reads, sink) == (UploadTrace {
            deliveries: Seq::empty(),
            result: Some(Err(UploadErrorView::ReadExhausted { path: task.path })),
        }),
{
    if policy.max_attempts > 0 {
        let upload = upload_start_spec(task, category, policy).0;
        lemma_abandons_after_failures(upload, policy.max_attempts, reads, sink);
    }
}

/// Whatever the file and the sink do, an upload calls the sink at most once.
pub proof fn at_most_one_delivery(
    upload: UploadView,
    action: UploadActionView,
    reads: Seq<Option<Seq<u8>>>,
    sink: Result<(), Seq<char>>,
)
    ensures
        upload_run(upload, action, reads, sink).deliveries.len() <= 1,
    decreases
        reads.len(),
        (if action is Wait {
            1nat
        } else {
            0nat
        }),
{
    match action {
        UploadActionView::ReadFile { .. } => {
            if reads.len() > 0 {
                let event = match reads[0] {
                    Some(bytes) => UploadEventView::Loaded(bytes),
                    None => UploadEventView::Unreadable,
                };
                let (next, asked) = upload_step_spec(upload, event);
                if let Some(next_action) = asked {
                    at_most_one_delivery(next, next_action, reads.skip(1), sink);
                }
            }
        },
        UploadActionView::Wait { .. } => {
            let (next, asked) = upload_step_spec(upload, UploadEventView::DelayElapsed);
            if let Some(next_action) = asked {
                if !(next_action is Wait) {
                    at_most_one_delivery(next, next_action, reads, sink);
                }
            }
        },
        _ => {},
    }
}

/// The traces of uploads that run side by side, each against its own file and
/// its own sink call.
pub open spec fn batch_traces(
    tasks: Seq<TaskView>,
    categories: Seq<Category>,
    policy: ReadPolicy,
    reads: Seq<Seq<Option<Seq<u8>>>>,
    sinks: Seq<Result<(), Seq<char>>>,
) -> Seq<UploadTrace> {
    Seq::new(
        tasks.len(),
        |i: int| upload_outcome(tasks[i], categories[i], policy, reads[i], sinks[i]),
    )
}

/// Uploads are isolated units of failure: what one upload does is decided by
/// its own file and its own sink call. Whatever happens to the other files of
/// a batch, be it in one course of events or in another, the upload at
/// `index` makes the same sink calls and ends with the same result.
pub proof fn uploads_are_isolated(
    tasks: Seq<TaskView>,
    categories: Seq<Category>,
    policy: ReadPolicy,
    reads: Seq<Seq<Option<Seq<u8>>>>,
    sinks: Seq<Result<(), Seq<char>>>,
    other_reads: Seq<Seq<Option<Seq<u8>>>>,
    other_sinks: Seq<Result<(), Seq<char>>>,
    index: int,
)
    requires
        0 <= index < tasks.len(),
        reads[index] == other_reads[index],
        sinks[index] == other_sinks[index],
    ensures
        batch_traces(tasks, categories, policy, reads, sinks)[index] == batch_traces(
            tasks,
            categories,
            policy,
            other_reads,
            other_sinks,
        )[index],
{
}

} // verus!
