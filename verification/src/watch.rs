//! The watch orchestrator's decisions: which directories are registered with
//! the event source, and what each item pulled from the event stream leads to.

use crate::task::{TaskView, UploadTask};
use vstd::prelude::*;

verus! {

/// How many events the bridge between the watch subsystem and the event loop
/// holds. With room for one, the watch subsystem waits until the loop has taken
/// the previous event: a burst is never dropped, it is slowed down.
pub const EVENT_BUFFER_DEPTH: usize = 1;

/// What the program is configured with: the directories to watch, the sink's
/// authentication token and the destination that every upload goes to. Read
/// once at startup and never changed.
#[derive(Debug, PartialEq, Eq)]
pub struct WatchConfiguration {
    pub paths: Vec<String>,
    pub token: String,
    pub destination: String,
}

/// A configuration as plain text.
pub struct ConfigurationView {
    pub paths: Seq<Seq<char>>,
    pub token: Seq<char>,
    pub destination: Seq<char>,
}

impl View for WatchConfiguration {
    type V = ConfigurationView;

    open spec fn view(&self) -> ConfigurationView {
        ConfigurationView {
            paths: self.paths.deep_view(),
            token: self.token@,
            destination: self.destination@,
        }
    }
}

/// A directory to register with the event source.
#[derive(Debug, PartialEq, Eq)]
pub struct WatchRequest {
    pub path: String,
    pub recursive: bool,
}

/// What kind of change a filesystem event reports. Only creations matter here.
#[derive(Clone, Copy, Debug, PartialEq, Eq, Structural)]
pub enum EventKind {
    Created,
    OtherwiseIgnored,
}

/// A filesystem event: its kind and the paths it is about, in the order in which
/// the event source gave them.
#[derive(Debug, PartialEq, Eq)]
pub struct FileEvent {
    pub kind: EventKind,
    pub paths: Vec<String>,
}

/// A filesystem event as plain text.
pub struct FileEventView {
    pub kind: EventKind,
    pub paths: Seq<Seq<char>>,
}

impl View for FileEvent {
    type V = FileEventView;

    open spec fn view(&self) -> FileEventView {
        FileEventView { kind: self.kind, paths: self.paths.deep_view() }
    }
}

/// What one pull on the event stream yielded.
#[derive(Debug, PartialEq, Eq)]
pub enum StreamItem {
    /// A filesystem event.
    Event(FileEvent),
    /// The watch subsystem reported an error; the text describes it.
    Fault(String),
    /// The stream is over: no further event can come.
    Ended,
}

/// A stream item as plain text.
pub enum StreamItemView {
    Event(FileEventView),
    Fault(Seq<char>),
    Ended,
}

impl View for StreamItem {
    type V = StreamItemView;

    open spec fn view(&self) -> StreamItemView {
        match self {
            StreamItem::Event(event) => StreamItemView::Event(event@),
            StreamItem::Fault(message) => StreamItemView::Fault(message@),
            StreamItem::Ended => StreamItemView::Ended,
        }
    }
}

/// What the event loop does with a stream item.
#[derive(Debug, PartialEq, Eq)]
pub enum LoopAction {
    /// Start each of these uploads as a task of its own, then pull again.
    Spawn(Vec<UploadTask>),
    /// Report the watch error, then pull again.
    Report(String),
    /// Leave the loop.
    Stop,
}

/// A loop action as plain text.
pub enum LoopActionView {
    Spawn(Seq<TaskView>),
    Report(Seq<char>),
    Stop,
}

impl View for LoopAction {
    type V = LoopActionView;

    open spec fn view(&self) -> LoopActionView {
        match self {
            LoopAction::Spawn(tasks) => LoopActionView::Spawn(tasks.deep_view()),
            LoopAction::Report(message) => LoopActionView::Report(message@),
            LoopAction::Stop => LoopActionView::Stop,
        }
    }
}

/// The task that uploads the file at `path` under `config`.
pub open spec fn task_for(config: ConfigurationView, path: Seq<char>) -> TaskView {
    TaskView { path, destination: config.destination, token: config.token }
}

/// The uploads that an event spawns: one per path of a creation event, in the
/// event's order, and none for any other event.
pub open spec fn tasks_for(config: ConfigurationView, event: FileEventView) -> Seq<TaskView> {
    match event.kind {
        EventKind::Created => Seq::new(
            event.paths.len(),
            |i: int| task_for(config, event.paths[i]),
        ),
        EventKind::OtherwiseIgnored => Seq::empty(),
    }
}

/// What the event loop does with `item`.
pub open spec fn loop_action(config: ConfigurationView, item: StreamItemView) -> LoopActionView {
    match item {
        StreamItemView::Event(event) => LoopActionView::Spawn(tasks_for(config, event)),
        StreamItemView::Fault(message) => LoopActionView::Report(message),
        StreamItemView::Ended => LoopActionView::Stop,
    }
}

/// All uploads spawned while the loop consumes `items` from the start: those of
/// each item in turn, up to the first item that stops the loop.
pub open spec fn spawned(config: ConfigurationView, items: Seq<StreamItemView>) -> Seq<TaskView>
    decreases items.len(),
{
    if items.len() == 0 {
        Seq::empty()
    } else {
        match loop_action(config, items[0]) {
            LoopActionView::Spawn(tasks) => tasks + spawned(config, items.skip(1)),
            LoopActionView::Report(_) => spawned(config, items.skip(1)),
            LoopActionView::Stop => Seq::empty(),
        }
    }
}

impl WatchConfiguration {
    /// Whether at least one configured path is not empty. Without one there is
    /// nothing to watch.
    pub fn has_watch_root(&self) -> (found: bool)
        ensures
            found == exists|i: int| 0 <= i < self@.paths.len() && #[trigger] self@.paths[i].len() > 0,
    {
        let mut i: usize = 0;
        while i < self.paths.len()
            invariant
                i <= self.paths.len(),
                forall|j: int| 0 <= j < i ==> #[trigger] self@.paths[j].len() == 0,
            decreases self.paths.len() - i,
        {
            if !self.paths[i].as_str().is_empty() {
                assert(self@.paths[i as int].len() > 0);
                return true;
            }
            i += 1;
        }
        false
    }

    /// The directories to register with the event source: every configured
    /// path, in order, each watched recursively.
    pub fn watch_requests(&self) -> (requests: Vec<WatchRequest>)
        ensures
            requests.len() == self.paths.len(),
            forall|i: int|
                0 <= i < requests.len() ==> (#[trigger] requests[i]).path@ == self@.paths[i]
                    && requests[i].recursive,
    {
        let mut requests: Vec<WatchRequest> = Vec::new();
        let mut i: usize = 0;
        while i < self.paths.len()
            invariant
                i <= self.paths.len(),
                requests.len() == i,
                forall|j: int|
                    0 <= j < i ==> (#[trigger] requests[j]).path@ == self@.paths[j]
                        && requests[j].recursive,
            decreases self.paths.len() - i,
        {
            requests.push(WatchRequest { path: self.paths[i].clone(), recursive: true });
            i += 1;
        }
        requests
    }
}

/// The uploads that `event` spawns. A creation event that names N paths gives
/// exactly N tasks, one per path and in the same order, each bound for the
/// configured destination with the configured token. Any other event gives
/// none.
pub fn plan_uploads(config: &WatchConfiguration, event: &FileEvent) -> (tasks: Vec<UploadTask>)
    ensures
        tasks.deep_view() == tasks_for(config@, event@),
        event.kind == EventKind::Created ==> tasks.len() == event.paths.len(),
        event.kind != EventKind::Created ==> tasks.len() == 0,
        forall|i: int|
            0 <= i < tasks.len() ==> (#[trigger] tasks[i])@ == task_for(config@, event.paths[i]@),
{
    let mut tasks: Vec<UploadTask> = Vec::new();
    match event.kind {
        EventKind::Created => {
            let mut i: usize = 0;
            while i < event.paths.len()
                invariant
                    i <= event.paths.len(),
                    tasks.len() == i,
                    forall|j: int|
                        0 <= j < i ==> (#[trigger] tasks[j])@ == task_for(config@, event@.paths[j]),
                decreases event.paths.len() - i,
            {
                tasks.push(
                    UploadTask {
                        path: event.paths[i].clone(),
                        destination: config.destination.clone(),
                        token: config.token.clone(),
                    },
                );
                i += 1;
            }
        },
        EventKind::OtherwiseIgnored => {},
    }
    assert(tasks.deep_view() =~= tasks_for(config@, event@));
    tasks
}

/// Decides what the event loop does with one stream item. Only the end of the
/// stream stops the loop; a watch error is reported and the loop goes on.
pub fn on_item(config: &WatchConfiguration, item: StreamItem) -> (action: LoopAction)
    ensures
        action@ == loop_action(config@, item@),
        action is Stop <==> item is Ended,
        action is Report <==> item is Fault,
        action matches LoopAction::Spawn(tasks) ==> {
            &&& item matches StreamItem::Event(event)
            &&& event.kind == EventKind::Created ==> tasks.len() == event.paths.len()
            &&& event.kind != EventKind::Created ==> tasks.len() == 0
            &&& forall|i: int|
                0 <= i < tasks.len() ==> (#[trigger] tasks[i])@ == task_for(
                    config@,
                    event.paths[i]@,
                )
        },
{
    match item {
        StreamItem::Event(event) => LoopAction::Spawn(plan_uploads(config, &event)),
        StreamItem::Fault(message) => LoopAction::Report(message),
        StreamItem::Ended => LoopAction::Stop,
    }
}

/// An event that is not a creation spawns no upload.
pub proof fn ignored_event_spawns_nothing(config: ConfigurationView, event: FileEventView)
    requires
        event.kind != EventKind::Created,
    ensures
        tasks_for(config, event).len() == 0,
        loop_action(config, StreamItemView::Event(event)) == LoopActionView::Spawn(Seq::empty()),
{
}

/// A creation event that names N paths spawns exactly N uploads, the i-th of
/// them for the i-th path.
pub proof fn creation_spawns_one_upload_per_path(config: ConfigurationView, event: FileEventView)
    requires
        event.kind == EventKind::Created,
    ensures
        tasks_for(config, event).len() == event.paths.len(),
        forall|i: int|
            0 <= i < event.paths.len() ==> #[trigger] tasks_for(config, event)[i] == task_for(
                config,
                event.paths[i],
            ),
{
}

/// As long as the stream has not ended, the uploads spawned over two stretches
/// of items are those of the first stretch followed by those of the second.
pub proof fn spawned_over_stretches(
    config: ConfigurationView,
    before: Seq<StreamItemView>,
    after: Seq<StreamItemView>,
)
    requires
        forall|i: int| 0 <= i < before.len() ==> !(#[trigger] before[i] is Ended),
    ensures
        spawned(config, before + after) == spawned(config, before) + spawned(config, after),
    decreases before.len(),
{
    if before.len() == 0 {
        assert(before + after =~= after);
        assert(spawned(config, before) + spawned(config, after) =~= spawned(config, after));
    } else {
        assert((before + after).skip(1) =~= before.skip(1) + after);
        assert(forall|i: int|
            0 <= i < before.skip(1).len() ==> #[trigger] before.skip(1)[i] == before[i + 1]);
        spawned_over_stretches(config, before.skip(1), after);
        assert((before + after)[0] == before[0]);
        match loop_action(config, before[0]) {
            LoopActionView::Spawn(tasks) => {
                assert(tasks + (spawned(config, before.skip(1)) + spawned(config, after)) =~= (tasks
                    + spawned(config, before.skip(1))) + spawned(config, after));
            },
            LoopActionView::Report(_) => {},
            LoopActionView::Stop => {},
        }
    }
}

/// A watch error does not end the loop: the items that follow it are processed
/// as if it had not occurred.
pub proof fn watch_error_does_not_stop_the_loop(
    config: ConfigurationView,
    before: Seq<StreamItemView>,
    message: Seq<char>,
    after: Seq<StreamItemView>,
)
    requires
        forall|i: int| 0 <= i < before.len() ==> !(#[trigger] before[i] is Ended),
    ensures
        spawned(config, before + seq![StreamItemView::Fault(message)] + after) == spawned(
            config,
            before + after,
        ),
{
    let fault = seq![StreamItemView::Fault(message)];
    assert(before + fault + after =~= before + (fault + after));
    spawned_over_stretches(config, before, fault + after);
    spawned_over_stretches(config, before, after);
    assert((fault + after).skip(1) =~= after);
    assert((fault + after)[0] == StreamItemView::Fault(message));
}

/// Nothing is spawned for what follows the end of the stream.
pub proof fn nothing_is_spawned_after_the_end(
    config: ConfigurationView,
    before: Seq<StreamItemView>,
    after: Seq<StreamItemView>,
)
    requires
        forall|i: int| 0 <= i < before.len() ==> !(#[trigger] before[i] is Ended),
    ensures
        spawned(config, before + seq![StreamItemView::Ended] + after) == spawned(config, before),
{
    let end = seq![StreamItemView::Ended];
    assert(before + end + after =~= before + (end + after));
    spawned_over_stretches(config, before, end + after);
    assert((end + after)[0] == StreamItemView::Ended);
    assert(spawned(config, before) + Seq::<TaskView>::empty() =~= spawned(config, before));
}

} // verus!
