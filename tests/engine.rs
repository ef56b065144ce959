use flotilla::batch::{Batch, MAX_IN_FLIGHT};
use flotilla::failure::{classify_status, Failure};
use flotilla::metadata::read_metadata;
use flotilla::task::{Action, DownloadTask, Event, Progress, Stage, TaskStatus};

fn ids(list: &[&str]) -> Vec<String> {
    list.iter().map(|s| s.to_string()).collect()
}

/// Drives a task whose metadata names it `name` and whose body arrives in
/// `chunks`, with `length` as the reported content length.
fn download(task: &mut DownloadTask, name: &str, length: Option<u64>, chunks: &[u64]) {
    assert_eq!(task.step(Event::Start), Action::FetchMetadata);
    let body = format!("{{\"id\":\"{}\",\"name\":\"{}\"}}", task.id, name);
    let metadata = read_metadata(body.as_bytes());
    assert_eq!(
        task.step(Event::MetadataReceived { status: 200, metadata }),
        Action::FetchContent
    );
    assert_eq!(
        task.step(Event::ContentReceived { status: 200, content_length: length }),
        Action::CreateFile
    );
    assert_eq!(task.step(Event::FileCreated), Action::Transfer);
    for len in chunks {
        assert_eq!(task.step(Event::ChunkWritten { len: *len }), Action::Transfer);
    }
    assert_eq!(task.step(Event::StreamEnded), Action::Sync);
    assert_eq!(task.step(Event::Synced), Action::Finish);
}

fn not_found(task: &mut DownloadTask) {
    assert_eq!(task.step(Event::Start), Action::FetchMetadata);
    assert_eq!(
        task.step(Event::MetadataReceived { status: 404, metadata: None }),
        Action::Finish
    );
}

#[test]
fn scenario_one_found_one_missing() {
    let mut batch = Batch::new(
        "https://example.test/v2",
        "downloads",
        "token",
        ids(&["c1", "c2"]),
        false,
    );
    let (i1, mut t1) = batch.start_next().unwrap();
    let (i2, mut t2) = batch.start_next().unwrap();
    assert_eq!((i1, i2), (0, 1));
    download(&mut t1, "Alpha", Some(10), &[4, 6]);
    not_found(&mut t2);
    assert_eq!(t1.dl_dest, "downloads/Alpha-c1.zip");
    assert_eq!(t1.bytes_written, 10);
    assert!(matches!(t1.status, TaskStatus::Succeeded));
    assert!(matches!(t2.status, TaskStatus::Failed(Failure::NotFound)));
    assert!(batch.complete(i2, t2));
    assert!(batch.report().is_none());
    assert!(batch.complete(i1, t1));
    let report = batch.report().unwrap();
    assert_eq!(report, Err("c2 - not found".to_string()));
    let text = report.unwrap_err();
    assert_eq!(text.lines().count(), 1);
    assert!(text.contains("c2") && text.contains("not found"));
}

#[test]
fn one_failure_leaves_the_others_alone() {
    let mut batch = Batch::new("https://e.test", "out", "tok", ids(&["A", "X", "B"]), false);
    let mut started = Vec::new();
    while let Some(s) = batch.start_next() {
        started.push(s);
    }
    assert_eq!(started.len(), 3);
    for (i, mut t) in started {
        if t.id == "X" {
            not_found(&mut t);
        } else {
            download(&mut t, "Name", Some(3), &[3]);
        }
        assert!(batch.complete(i, t));
    }
    assert!(batch.is_finished());
    let text = batch.report().unwrap().unwrap_err();
    assert_eq!(text, "X - not found");
    assert!(!text.contains("A -") && !text.contains("B -"));
    assert!(matches!(batch.finished_task(0).unwrap().status, TaskStatus::Succeeded));
    assert!(matches!(batch.finished_task(2).unwrap().status, TaskStatus::Succeeded));
    assert_eq!(batch.finished_task(0).unwrap().dl_dest, "out/Name-A.zip");
}

#[test]
fn missing_length_still_completes_with_indeterminate_progress() {
    let mut task = DownloadTask::new(
        "abcdefghijkl".to_string(),
        "d".to_string(),
        "m".to_string(),
        "c".to_string(),
        "t".to_string(),
    );
    task.step(Event::Start);
    task.step(Event::MetadataReceived {
        status: 200,
        metadata: read_metadata(br#"{"id":"abcdefghijkl","name":"Fleet"}"#),
    });
    assert_eq!(task.progress(), Progress::Steps { done: 2, total: 3 });
    task.step(Event::ContentReceived { status: 200, content_length: None });
    task.step(Event::FileCreated);
    task.step(Event::ChunkWritten { len: 7 });
    assert_eq!(task.progress(), Progress::Indeterminate { written: 7 });
    task.step(Event::ChunkWritten { len: 5 });
    assert_eq!(task.step(Event::StreamEnded), Action::Sync);
    assert_eq!(task.step(Event::Synced), Action::Finish);
    assert!(matches!(task.status, TaskStatus::Succeeded));
    assert_eq!(task.bytes_written, 12);
    assert_eq!(task.dl_dest, "d/Fleet-abcdefgh.zip");
    assert_eq!(task.progress(), Progress::Done);
}

#[test]
fn zero_length_gives_indeterminate_progress() {
    let mut task = DownloadTask::new("i".into(), "d".into(), "m".into(), "c".into(), "t".into());
    task.step(Event::Start);
    task.step(Event::MetadataReceived {
        status: 200,
        metadata: read_metadata(br#"{"id":"i","name":"n"}"#),
    });
    task.step(Event::ContentReceived { status: 200, content_length: Some(0) });
    task.step(Event::FileCreated);
    assert_eq!(task.progress(), Progress::Indeterminate { written: 0 });
    assert_eq!(task.step(Event::StreamEnded), Action::Sync);
}

#[test]
fn known_length_gives_byte_progress() {
    let mut task = DownloadTask::new("i".into(), "d".into(), "m".into(), "c".into(), "t".into());
    assert_eq!(task.progress(), Progress::Steps { done: 0, total: 3 });
    task.step(Event::Start);
    assert_eq!(task.progress(), Progress::Steps { done: 1, total: 3 });
    task.step(Event::MetadataReceived {
        status: 200,
        metadata: read_metadata(br#"{"id":"i","name":"n"}"#),
    });
    task.step(Event::ContentReceived { status: 200, content_length: Some(100) });
    task.step(Event::FileCreated);
    task.step(Event::ChunkWritten { len: 40 });
    assert_eq!(task.progress(), Progress::Bytes { written: 40, total: 100 });
}

#[test]
fn at_most_ten_in_flight() {
    let list: Vec<String> = (0..25).map(|i| format!("id{}", i)).collect();
    let mut batch = Batch::new("e", "f", "t", list, true);
    let mut running = Vec::new();
    while let Some(s) = batch.start_next() {
        running.push(s);
    }
    assert_eq!(MAX_IN_FLIGHT, 10);
    assert_eq!(running.len(), 10);
    assert_eq!(batch.in_flight(), 10);
    let (i, mut t) = running.remove(3);
    not_found(&mut t);
    assert!(batch.complete(i, t));
    assert_eq!(batch.in_flight(), 9);
    let (j, t) = batch.start_next().unwrap();
    assert_eq!(j, 10);
    assert_eq!(t.id, "id10");
    assert_eq!(batch.in_flight(), 10);
    assert!(batch.start_next().is_none());
}

#[test]
fn tasks_carry_their_urls_and_token() {
    let mut batch = Batch::new("https://h/v2", "f", "\"tok\"", ids(&["abc"]), false);
    let (_, t) = batch.start_next().unwrap();
    assert_eq!(t.meta_url, "https://h/v2/shipyard/collection/abc");
    assert_eq!(t.dl_url, "https://h/v2/shipyard/collection/download/abc");
    assert_eq!(t.token_value, "Bearer tok");
    let mut public = Batch::new("https://h/v2", "f", "tok", ids(&["abc"]), true);
    let (_, t) = public.start_next().unwrap();
    assert_eq!(t.meta_url, "https://h/v2/shipyard/collection/public/abc");
}

#[test]
fn completion_is_refused_for_wrong_slot_or_live_task() {
    let mut batch = Batch::new("e", "f", "t", ids(&["a", "b"]), false);
    let (i, mut t) = batch.start_next().unwrap();
    let live = DownloadTask::new("a".into(), "f".into(), "m".into(), "c".into(), "t".into());
    assert!(!batch.complete(i, live));
    not_found(&mut t);
    assert!(!batch.complete(1, t));
    assert_eq!(batch.in_flight(), 1);
    assert!(batch.report().is_none());
}

#[test]
fn empty_batch_succeeds() {
    let batch = Batch::new("e", "f", "t", Vec::new(), false);
    assert!(batch.is_finished());
    assert_eq!(batch.report(), Some(Ok(())));
}

#[test]
fn report_lists_failures_in_input_order() {
    let mut batch = Batch::new("e", "f", "t", ids(&["a", "b", "c"]), false);
    let mut started = Vec::new();
    while let Some(s) = batch.start_next() {
        started.push(s);
    }
    let (ic, mut tc) = started.pop().unwrap();
    tc.step(Event::Start);
    tc.step(Event::TransportFailed { detail: "connection refused".into() });
    assert!(batch.complete(ic, tc));
    let (ib, mut tb) = started.pop().unwrap();
    download(&mut tb, "n", None, &[1]);
    assert!(batch.complete(ib, tb));
    let (ia, mut ta) = started.pop().unwrap();
    ta.step(Event::Start);
    ta.step(Event::MetadataReceived { status: 403, metadata: None });
    assert!(batch.complete(ia, ta));
    assert_eq!(
        batch.report(),
        Some(Err("a - access denied — check credentials or ownership\n\
                  c - transport error: connection refused"
            .to_string()))
    );
}

#[test]
fn failed_resolution_never_requests_content() {
    let mut task = DownloadTask::new("i".into(), "d".into(), "m".into(), "c".into(), "t".into());
    task.step(Event::Start);
    assert_eq!(
        task.step(Event::MetadataReceived {
            status: 200,
            metadata: read_metadata(br#"{"name":"no id"}"#),
        }),
        Action::Finish
    );
    assert!(matches!(task.status, TaskStatus::Failed(Failure::MalformedMetadata)));
    let later = vec![
        Event::MetadataReceived { status: 200, metadata: read_metadata(br#"{"id":"i","name":"n"}"#) },
        Event::ContentReceived { status: 200, content_length: Some(1) },
        Event::FileCreated,
        Event::Start,
    ];
    for e in later {
        assert_eq!(task.step(e), Action::Finish);
    }
    assert!(matches!(task.status, TaskStatus::Failed(Failure::MalformedMetadata)));
}

#[test]
fn short_body_is_a_size_mismatch() {
    let mut task = DownloadTask::new("i".into(), "d".into(), "m".into(), "c".into(), "t".into());
    task.step(Event::Start);
    task.step(Event::MetadataReceived {
        status: 200,
        metadata: read_metadata(br#"{"id":"i","name":"n"}"#),
    });
    task.step(Event::ContentReceived { status: 200, content_length: Some(10) });
    task.step(Event::FileCreated);
    task.step(Event::ChunkWritten { len: 9 });
    assert_eq!(task.step(Event::StreamEnded), Action::Finish);
    assert_eq!(task.summary(), "i - stream error: received 9 of 10 bytes");
}

#[test]
fn file_write_and_sync_failures() {
    let mk = || {
        let mut t = DownloadTask::new("i".into(), "d".into(), "m".into(), "c".into(), "t".into());
        t.step(Event::Start);
        t.step(Event::MetadataReceived {
            status: 200,
            metadata: read_metadata(br#"{"id":"i","name":"n"}"#),
        });
        t.step(Event::ContentReceived { status: 200, content_length: None });
        t
    };
    let mut a = mk();
    assert_eq!(a.step(Event::FileCreateFailed { cause: "denied".into() }), Action::Finish);
    assert_eq!(a.summary(), "i - cannot create destination file: denied");
    let mut b = mk();
    b.step(Event::FileCreated);
    b.step(Event::WriteFailed { cause: "disk full".into() });
    assert_eq!(b.summary(), "i - write error: disk full");
    assert!(b.file_created);
    let mut c = mk();
    c.step(Event::FileCreated);
    c.step(Event::StreamFailed { cause: "reset".into() });
    assert_eq!(c.summary(), "i - stream error: reset");
    let mut d = mk();
    d.step(Event::FileCreated);
    d.step(Event::StreamEnded);
    d.step(Event::SyncFailed { cause: "io".into() });
    assert_eq!(d.summary(), "i - sync error: io");
    let mut e = mk();
    e.step(Event::FileCreated);
    e.step(Event::ChunkWritten { len: u64::MAX });
    assert_eq!(e.step(Event::ChunkWritten { len: 1 }), Action::Finish);
    assert_eq!(e.summary(), "i - stream error: body too large");
}

#[test]
fn content_status_is_classified() {
    let mut t = DownloadTask::new("i".into(), "d".into(), "m".into(), "c".into(), "t".into());
    t.step(Event::Start);
    t.step(Event::MetadataReceived {
        status: 200,
        metadata: read_metadata(br#"{"id":"i","name":"n"}"#),
    });
    assert_eq!(t.step(Event::ContentReceived { status: 503, content_length: None }), Action::Finish);
    assert_eq!(t.summary(), "i - server error, possibly transient (status 503)");
}

#[test]
fn events_out_of_turn_change_nothing() {
    let mut t = DownloadTask::new("i".into(), "d".into(), "m".into(), "c".into(), "t".into());
    assert_eq!(t.step(Event::FileCreated), Action::Idle);
    assert!(matches!(t.status, TaskStatus::Pending));
    t.step(Event::Start);
    assert_eq!(t.step(Event::Synced), Action::Idle);
    assert!(matches!(t.status, TaskStatus::Resolving));
    t.step(Event::MetadataReceived { status: 200, metadata: read_metadata(br#"{"id":"i","name":"n"}"#) });
    assert!(matches!(t.status, TaskStatus::Downloading(Stage::Requested)));
    assert_eq!(t.step(Event::StreamEnded), Action::Idle);
}

#[test]
fn same_ids_give_same_file_names() {
    let run = || {
        let mut batch = Batch::new("e", "dl", "t", ids(&["0123456789abcdef", "zz"]), false);
        let mut names = Vec::new();
        while let Some((i, mut t)) = batch.start_next() {
            download(&mut t, "Ships", Some(2), &[2]);
            names.push(t.dl_dest.clone());
            assert!(batch.complete(i, t));
        }
        names
    };
    let first = run();
    assert_eq!(first, vec!["dl/Ships-01234567.zip".to_string(), "dl/Ships-zz.zip".to_string()]);
    assert_eq!(first, run());
}

#[test]
fn status_classes() {
    assert!(classify_status(200).is_none());
    assert!(classify_status(204).is_none());
    assert!(matches!(classify_status(401), Some(Failure::AccessDenied)));
    assert!(matches!(classify_status(403), Some(Failure::AccessDenied)));
    assert!(matches!(classify_status(404), Some(Failure::NotFound)));
    assert!(matches!(classify_status(500), Some(Failure::ServerError { code: 500 })));
    assert!(matches!(classify_status(599), Some(Failure::ServerError { code: 599 })));
    assert!(matches!(classify_status(302), Some(Failure::UnexpectedStatus { code: 302 })));
    assert!(matches!(classify_status(418), Some(Failure::UnexpectedStatus { code: 418 })));
}

#[test]
fn reason_texts() {
    assert_eq!(Failure::NotFound.reason(), "not found");
    assert_eq!(Failure::UnexpectedStatus { code: 418 }.reason(), "unexpected status 418");
    assert_eq!(Failure::UnexpectedStatus { code: 0 }.reason(), "unexpected status 0");
    assert_eq!(Failure::MalformedMetadata.reason(), "malformed metadata response");
    assert_eq!(
        Failure::SizeMismatch { expected: 1000, written: 7 }.reason(),
        "stream error: received 7 of 1000 bytes"
    );
    assert_eq!(Failure::Transport { detail: "dns".into() }.reason(), "transport error: dns");
}

#[test]
fn success_summary_names_the_file() {
    let mut t = DownloadTask::new("c1".into(), "d".into(), "m".into(), "c".into(), "t".into());
    assert_eq!(t.summary(), "c1");
    download(&mut t, "Alpha", Some(1), &[1]);
    assert_eq!(t.summary(), "c1 downloaded to d/Alpha-c1.zip");
    assert_eq!(t.failure_line(), None);
}
