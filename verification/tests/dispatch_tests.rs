use watch_upload::classify::Category;
use watch_upload::dispatch::{Delivery, Upload, UploadAction, UploadError, UploadEvent, UploadState};
use watch_upload::reader::{ReadPolicy, ReadState};
use watch_upload::task::UploadTask;
use watch_upload::watch::{on_item, EventKind, FileEvent, LoopAction, StreamItem, WatchConfiguration};

/// What an upload did: the files it tried to read, the time it waited, the sink
/// calls it made and its result.
#[derive(Debug, PartialEq, Eq)]
struct Trace {
    reads: Vec<String>,
    waited_ms: u64,
    deliveries: Vec<Delivery>,
    result: Result<(), UploadError>,
}

/// Runs the upload of `task` against a file that fails `failures` times and
/// then, if `content` is given, loads it, and a sink that answers as `sink`
/// says.
fn run_upload(
    task: UploadTask,
    policy: ReadPolicy,
    failures: usize,
    content: Option<&[u8]>,
    sink: Result<(), &str>,
) -> Trace {
    let (mut upload, mut action) = Upload::start(task, policy);
    let mut reads = Vec::new();
    let mut waited_ms = 0;
    let mut deliveries = Vec::new();
    loop {
        let event = match action {
            UploadAction::ReadFile { path } => {
                reads.push(path);
                match content {
                    Some(bytes) if reads.len() > failures => UploadEvent::Loaded(bytes.to_vec()),
                    _ => UploadEvent::Unreadable,
                }
            }
            UploadAction::Wait { millis } => {
                waited_ms += millis;
                UploadEvent::DelayElapsed
            }
            UploadAction::Send(delivery) => {
                deliveries.push(delivery);
                match sink {
                    Ok(()) => UploadEvent::Sent,
                    Err(reason) => UploadEvent::SendFailed(reason.to_string()),
                }
            }
            UploadAction::Finish(result) => {
                assert_eq!(upload.state, UploadState::Finished);
                return Trace { reads, waited_ms, deliveries, result };
            }
        };
        action = upload.step(event).expect("the upload answers the event it asked for");
    }
}

fn task(path: &str) -> UploadTask {
    UploadTask::new(path, "-1001", "123:secret")
}

#[test]
fn an_upload_begins_by_reading_its_file() {
    let (upload, action) = Upload::start(task("A/shot.png"), ReadPolicy::default());
    assert_eq!(action, UploadAction::ReadFile { path: "A/shot.png".to_string() });
    assert_eq!(upload.state, UploadState::Reading(ReadState::Attempting { remaining: 100 }));
    assert_eq!(upload.category, Category::Photo);
    assert_eq!(upload.task, task("A/shot.png"));
}

#[test]
fn a_photo_is_sent_as_a_photo() {
    let trace = run_upload(task("A/shot.png"), ReadPolicy::default(), 0, Some(b"png bytes"), Ok(()));
    assert_eq!(trace.reads, vec!["A/shot.png".to_string()]);
    assert_eq!(trace.waited_ms, 0);
    assert_eq!(
        trace.deliveries,
        vec![Delivery {
            category: Category::Photo,
            destination: "-1001".to_string(),
            attachment: b"png bytes".to_vec(),
        }]
    );
    assert_eq!(trace.result, Ok(()));
}

#[test]
fn a_video_is_sent_as_a_video() {
    let trace = run_upload(task("B/clip.mkv"), ReadPolicy::default(), 0, Some(b"mkv bytes"), Ok(()));
    assert_eq!(
        trace.deliveries,
        vec![Delivery {
            category: Category::Video,
            destination: "-1001".to_string(),
            attachment: b"mkv bytes".to_vec(),
        }]
    );
    assert_eq!(trace.result, Ok(()));
}

#[test]
fn anything_else_is_sent_as_a_document() {
    for path in ["notes.txt", "README", "SHOT.PNG"] {
        let trace = run_upload(task(path), ReadPolicy::default(), 0, Some(b"data"), Ok(()));
        assert_eq!(
            trace.deliveries,
            vec![Delivery {
                category: Category::Document,
                destination: "-1001".to_string(),
                attachment: b"data".to_vec(),
            }]
        );
    }
}

#[test]
fn a_locked_file_is_sent_once_it_can_be_read() {
    let trace = run_upload(task("A/shot.jpg"), ReadPolicy::default(), 5, Some(&[1, 2, 3]), Ok(()));
    assert_eq!(trace.reads.len(), 6);
    assert_eq!(trace.waited_ms, 250);
    assert_eq!(trace.deliveries.len(), 1);
    assert_eq!(trace.deliveries[0].attachment, vec![1, 2, 3]);
    assert_eq!(trace.result, Ok(()));
}

#[test]
fn an_unreadable_file_is_abandoned_without_a_sink_call() {
    let trace = run_upload(task("A/locked.png"), ReadPolicy::default(), 0, None, Ok(()));
    assert_eq!(trace.reads.len(), 100);
    assert_eq!(trace.waited_ms, 5000);
    assert!(trace.deliveries.is_empty());
    assert_eq!(trace.result, Err(UploadError::ReadExhausted { path: "A/locked.png".to_string() }));
}

#[test]
fn a_failed_delivery_is_reported_and_not_repeated() {
    let trace =
        run_upload(task("A/shot.png"), ReadPolicy::default(), 0, Some(b"x"), Err("unauthorized"));
    assert_eq!(trace.deliveries.len(), 1);
    assert_eq!(
        trace.result,
        Err(UploadError::DeliveryFailed { reason: "unauthorized".to_string() })
    );
}

#[test]
fn an_upload_without_read_attempts_fails_at_once() {
    let policy = ReadPolicy { max_attempts: 0, retry_delay_ms: 50 };
    let (upload, action) = Upload::start(task("A/shot.png"), policy);
    assert_eq!(upload.state, UploadState::Finished);
    assert_eq!(
        action,
        UploadAction::Finish(Err(UploadError::ReadExhausted { path: "A/shot.png".to_string() }))
    );
}

#[test]
fn the_category_can_be_given() {
    let (mut upload, _) =
        Upload::with_category(task("shot.png"), Category::Document, ReadPolicy::default());
    let asked = upload.step(UploadEvent::Loaded(vec![4]));
    assert_eq!(
        asked,
        Some(UploadAction::Send(Delivery {
            category: Category::Document,
            destination: "-1001".to_string(),
            attachment: vec![4],
        }))
    );
    assert_eq!(upload.state, UploadState::Sending);
}

#[test]
fn upload_events_out_of_turn_change_nothing() {
    let (mut upload, _) = Upload::start(task("A/shot.png"), ReadPolicy::default());
    let reading = upload.state;
    assert_eq!(upload.step(UploadEvent::Sent), None);
    assert_eq!(upload.step(UploadEvent::SendFailed("early".to_string())), None);
    assert_eq!(upload.step(UploadEvent::DelayElapsed), None);
    assert_eq!(upload.state, reading);

    assert!(matches!(upload.step(UploadEvent::Loaded(vec![1])), Some(UploadAction::Send(_))));
    assert_eq!(upload.step(UploadEvent::Loaded(vec![2])), None);
    assert_eq!(upload.step(UploadEvent::Unreadable), None);
    assert_eq!(upload.step(UploadEvent::DelayElapsed), None);
    assert_eq!(upload.state, UploadState::Sending);

    assert_eq!(upload.step(UploadEvent::Sent), Some(UploadAction::Finish(Ok(()))));
    assert_eq!(upload.step(UploadEvent::Sent), None);
    assert_eq!(upload.step(UploadEvent::Loaded(vec![3])), None);
    assert_eq!(upload.state, UploadState::Finished);
}

#[test]
fn one_failing_upload_leaves_the_others_alone() {
    let event = FileEvent {
        kind: EventKind::Created,
        paths: vec!["A/a.png".to_string(), "A/b.mp4".to_string(), "A/c.txt".to_string()],
    };
    let config = WatchConfiguration {
        paths: vec!["A".to_string()],
        token: "123:secret".to_string(),
        destination: "-1001".to_string(),
    };
    let tasks = match on_item(&config, StreamItem::Event(event)) {
        LoopAction::Spawn(tasks) => tasks,
        other => panic!("unexpected action {:?}", other),
    };
    assert_eq!(tasks.len(), 3);
    let mut traces = Vec::new();
    for (index, task) in tasks.into_iter().enumerate() {
        // The second file never becomes readable.
        let content: Option<&[u8]> = if index == 1 { None } else { Some(b"content") };
        traces.push(run_upload(task, ReadPolicy { max_attempts: 4, retry_delay_ms: 1 }, 0, content, Ok(())));
    }
    assert_eq!(traces[0].result, Ok(()));
    assert_eq!(traces[0].deliveries.len(), 1);
    assert_eq!(traces[0].deliveries[0].category, Category::Photo);
    assert_eq!(traces[1].result, Err(UploadError::ReadExhausted { path: "A/b.mp4".to_string() }));
    assert!(traces[1].deliveries.is_empty());
    assert_eq!(traces[2].result, Ok(()));
    assert_eq!(traces[2].deliveries.len(), 1);
    assert_eq!(traces[2].deliveries[0].category, Category::Document);
}

#[test]
fn two_files_under_two_roots_are_each_delivered_once() {
    let config = WatchConfiguration {
        paths: vec!["A".to_string(), "B".to_string()],
        token: "123:secret".to_string(),
        destination: "-1001".to_string(),
    };
    let requests = config.watch_requests();
    assert_eq!(requests.len(), 2);
    assert!(requests.iter().all(|request| request.recursive));

    let items = vec![
        StreamItem::Event(FileEvent { kind: EventKind::Created, paths: vec!["A/shot.png".to_string()] }),
        StreamItem::Event(FileEvent { kind: EventKind::Created, paths: vec!["B/clip.mkv".to_string()] }),
    ];
    let mut tasks = Vec::new();
    for item in items {
        match on_item(&config, item) {
            LoopAction::Spawn(spawned) => tasks.extend(spawned),
            other => panic!("unexpected action {:?}", other),
        }
    }
    assert_eq!(tasks.len(), 2);
    assert!(tasks.iter().all(|task| task.token == "123:secret"));

    // The uploads complete in any order: run the second one first.
    let mut deliveries = Vec::new();
    for task in tasks.into_iter().rev() {
        let content: &[u8] = if task.path == "A/shot.png" { b"shot bytes" } else { b"clip bytes" };
        let trace = run_upload(task, ReadPolicy::default(), 1, Some(content), Ok(()));
        assert_eq!(trace.result, Ok(()));
        deliveries.extend(trace.deliveries);
    }
    deliveries.sort_by_key(|delivery| delivery.attachment.clone());
    assert_eq!(
        deliveries,
        vec![
            Delivery {
                category: Category::Video,
                destination: "-1001".to_string(),
                attachment: b"clip bytes".to_vec(),
            },
            Delivery {
                category: Category::Photo,
                destination: "-1001".to_string(),
                attachment: b"shot bytes".to_vec(),
            },
        ]
    );
}
