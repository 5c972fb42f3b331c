use snapshot_downloader::downloader::{
    calculate_total_download_size, is_download_complete, plan_transfer, probe_metadata,
    probe_range_header, resume_range_header, Action, DownloadError, DownloadTask, LocalFile,
    Phase, RemoteMetadata, TransferMode,
};

/// One answer of the simulated server: status, `Content-Length`, body.
struct Answer {
    status: u16,
    content_length: Option<String>,
    body: Vec<u8>,
}

fn answer(status: u16, body_len: usize, fill: u8) -> Answer {
    Answer {
        status,
        content_length: Some(body_len.to_string()),
        body: vec![fill; body_len],
    }
}

/// What a run did: the last action, the file left behind, the ranges
/// requested by transfer requests, and the number of transfer requests.
struct Outcome {
    last: Action,
    file: Option<Vec<u8>>,
    ranges: Vec<Option<String>>,
}

/// Drives a task the way the program does, against a simulated server and an
/// in-memory destination file; bodies arrive in chunks of 300 bytes.
fn drive(
    url: &str,
    dir: &str,
    existing: Option<Vec<u8>>,
    probe: (u16, Option<&str>, Option<&str>),
    answers: Vec<Answer>,
) -> Outcome {
    let mut task = DownloadTask::new(url, dir);
    let mut file = existing;
    let mut ranges = Vec::new();
    let mut answers = answers.into_iter();
    let mut action = task.on_local_file(file.as_ref().map(|f| f.len() as u64));
    loop {
        match action {
            Action::Probe => {
                assert_eq!(probe_range_header(), "bytes=0-0");
                action = task.on_probe_response(probe.0, probe.1, probe.2);
            }
            Action::Request { range_from } => {
                ranges.push(range_from.map(resume_range_header));
                let a = answers.next().expect("no more answers");
                action = task.on_response(a.status, a.content_length.as_deref());
                if let Action::Stream { truncate, .. } = action {
                    if truncate || file.is_none() {
                        file = Some(Vec::new());
                    }
                    for chunk in a.body.chunks(300) {
                        action = task.on_chunk(chunk);
                        match action {
                            Action::Write { .. } => file.as_mut().unwrap().extend_from_slice(chunk),
                            _ => panic!("unexpected action while streaming: {:?}", action),
                        }
                    }
                    action = task.on_stream_end();
                }
            }
            Action::Finish { .. } | Action::Fail { .. } => break,
            other => panic!("unexpected action: {:?}", other),
        }
    }
    Outcome { last: action, file, ranges }
}

#[test]
fn scenario_fresh_download_into_empty_dir() {
    let out = drive(
        "http://x/test.bin",
        "out",
        None,
        (200, None, Some("1000")),
        vec![answer(200, 1000, 7)],
    );
    assert_eq!(out.last, Action::Finish { size: 1000 });
    assert_eq!(out.file.unwrap().len(), 1000);
    assert_eq!(out.ranges, vec![None]);
    let task = DownloadTask::new("http://x/test.bin", "out");
    assert_eq!(task.file_name(), "test.bin");
    assert_eq!(task.destination_path(), "out/test.bin");
}

#[test]
fn scenario_resume_with_partial_content() {
    let existing = vec![1u8; 500];
    let out = drive(
        "http://x/test.bin",
        "out",
        Some(existing.clone()),
        (206, Some("bytes 0-0/1000"), Some("1")),
        vec![answer(206, 500, 2)],
    );
    assert_eq!(out.last, Action::Finish { size: 1000 });
    let file = out.file.unwrap();
    assert_eq!(file.len(), 1000);
    assert_eq!(&file[..500], &existing[..]);
    assert!(file[500..].iter().all(|b| *b == 2));
    assert_eq!(out.ranges, vec![Some("bytes=500-".to_string())]);
}

#[test]
fn scenario_ignored_range_restarts() {
    let out = drive(
        "http://x/test.bin",
        "out",
        Some(vec![1u8; 500]),
        (206, Some("bytes 0-0/1000"), Some("1")),
        vec![answer(200, 1000, 3), answer(200, 1000, 3)],
    );
    assert_eq!(out.last, Action::Finish { size: 1000 });
    let file = out.file.unwrap();
    assert_eq!(file.len(), 1000);
    assert!(file.iter().all(|b| *b == 3));
    assert_eq!(out.ranges, vec![Some("bytes=500-".to_string()), None]);
}

#[test]
fn complete_file_is_not_downloaded_again() {
    let out = drive(
        "http://x/test.bin",
        "out",
        Some(vec![5u8; 1000]),
        (206, Some("bytes 0-0/1000"), Some("1")),
        vec![],
    );
    assert_eq!(out.last, Action::Finish { size: 1000 });
    assert!(out.ranges.is_empty());
    assert_eq!(out.file.unwrap(), vec![5u8; 1000]);
}

#[test]
fn range_not_satisfiable_restarts_fresh() {
    let out = drive(
        "http://x/a.tar.gz",
        "dl/",
        Some(vec![1u8; 1500]),
        (206, Some("bytes 0-0/1000"), None),
        vec![answer(416, 0, 0), answer(200, 1000, 4)],
    );
    assert_eq!(out.last, Action::Finish { size: 1000 });
    let file = out.file.unwrap();
    assert_eq!(file, vec![4u8; 1000]);
    assert_eq!(out.ranges, vec![Some("bytes=1500-".to_string()), None]);
}

#[test]
fn unknown_status_fails_and_keeps_file() {
    let existing = vec![9u8; 500];
    let out = drive(
        "http://x/test.bin",
        "out",
        Some(existing.clone()),
        (206, Some("bytes 0-0/1000"), None),
        vec![answer(500, 10, 0)],
    );
    assert_eq!(
        out.last,
        Action::Fail {
            error: DownloadError::UnexpectedStatus { status: 500 }
        }
    );
    assert_eq!(out.file.unwrap(), existing);
}

#[test]
fn unknown_status_on_fresh_request_keeps_file() {
    let existing = vec![9u8; 500];
    let out = drive(
        "http://x/test.bin",
        "out",
        Some(existing.clone()),
        (200, None, Some("1000")),
        vec![answer(404, 10, 0)],
    );
    assert_eq!(
        out.last,
        Action::Fail {
            error: DownloadError::UnexpectedStatus { status: 404 }
        }
    );
    assert_eq!(out.file.unwrap(), existing);
}

#[test]
fn second_restart_is_refused() {
    let out = drive(
        "http://x/test.bin",
        "out",
        Some(vec![1u8; 500]),
        (206, Some("bytes 0-0/1000"), None),
        vec![answer(416, 0, 0), answer(416, 0, 0)],
    );
    assert_eq!(
        out.last,
        Action::Fail {
            error: DownloadError::UnexpectedStatus { status: 416 }
        }
    );
    assert_eq!(out.ranges.len(), 2);
}

#[test]
fn probe_failure_is_fatal() {
    let out = drive(
        "http://x/test.bin",
        "out",
        None,
        (403, None, None),
        vec![],
    );
    assert_eq!(
        out.last,
        Action::Fail {
            error: DownloadError::MetadataProbeFailed { status: 403 }
        }
    );
    assert!(out.ranges.is_empty());
}

#[test]
fn existing_file_without_range_support_is_rewritten() {
    let out = drive(
        "http://x/test.bin",
        "out",
        Some(vec![1u8; 500]),
        (200, None, Some("800")),
        vec![answer(200, 800, 6)],
    );
    assert_eq!(out.last, Action::Finish { size: 800 });
    assert_eq!(out.file.unwrap(), vec![6u8; 800]);
    assert_eq!(out.ranges, vec![None]);
}

#[test]
fn probe_reads_total_from_content_range() {
    assert_eq!(
        probe_metadata(206, Some("bytes 0-0/1234"), Some("1")),
        Ok(RemoteMetadata { total_size: Some(1234), supports_range: true })
    );
    assert_eq!(
        probe_metadata(206, Some("bytes 0-0/*"), None),
        Ok(RemoteMetadata { total_size: None, supports_range: true })
    );
    assert_eq!(
        probe_metadata(206, None, Some("1")),
        Ok(RemoteMetadata { total_size: None, supports_range: true })
    );
}

#[test]
fn probe_reads_total_from_content_length() {
    assert_eq!(
        probe_metadata(200, Some("bytes 0-0/1234"), Some("99")),
        Ok(RemoteMetadata { total_size: Some(99), supports_range: false })
    );
    assert_eq!(
        probe_metadata(204, None, None),
        Ok(RemoteMetadata { total_size: None, supports_range: false })
    );
    assert_eq!(
        probe_metadata(301, None, Some("5")),
        Err(DownloadError::MetadataProbeFailed { status: 301 })
    );
}

#[test]
fn completeness_needs_existing_file_of_remote_size() {
    assert!(is_download_complete(true, 10, Some(10)));
    assert!(!is_download_complete(true, 9, Some(10)));
    assert!(!is_download_complete(false, 0, Some(0)));
    assert!(!is_download_complete(true, 10, None));
}

#[test]
fn planner_priorities() {
    let remote = RemoteMetadata { total_size: Some(10), supports_range: true };
    assert_eq!(
        plan_transfer(LocalFile { exists: true, size: 10 }, remote),
        TransferMode::AlreadyComplete
    );
    assert_eq!(
        plan_transfer(LocalFile { exists: true, size: 4 }, remote),
        TransferMode::Resume
    );
    assert_eq!(
        plan_transfer(LocalFile { exists: true, size: 0 }, remote),
        TransferMode::Fresh
    );
    assert_eq!(
        plan_transfer(
            LocalFile { exists: true, size: 4 },
            RemoteMetadata { total_size: Some(10), supports_range: false }
        ),
        TransferMode::Fresh
    );
    assert_eq!(
        plan_transfer(LocalFile { exists: false, size: 0 }, remote),
        TransferMode::Fresh
    );
}

#[test]
fn total_size_for_progress() {
    assert_eq!(calculate_total_download_size(true, 500, Some(500), Some(1000)), 1000);
    assert_eq!(calculate_total_download_size(true, 500, None, Some(1000)), 1500);
    assert_eq!(calculate_total_download_size(true, 0, Some(700), None), 700);
    assert_eq!(calculate_total_download_size(false, 500, None, Some(1000)), 1000);
    assert_eq!(calculate_total_download_size(false, 500, None, None), 0);
    assert_eq!(calculate_total_download_size(true, u64::MAX, Some(2), None), u64::MAX);
}

#[test]
fn stream_start_reports_offset_and_total() {
    let mut task = DownloadTask::new("http://x/f", "");
    assert_eq!(task.destination_path(), "f");
    task.on_local_file(Some(300));
    let a = task.on_probe_response(206, Some("bytes 0-0/1000"), None);
    assert_eq!(a, Action::Request { range_from: Some(300) });
    let a = task.on_response(206, Some("700"));
    assert_eq!(a, Action::Stream { truncate: false, start: 300, total: 1000 });
    assert_eq!(task.on_chunk(&[0u8; 10]), Action::Write { position: 310 });
    assert_eq!(task.on_stream_end(), Action::Finish { size: 310 });
    assert_eq!(task.phase(), Phase::Completed);
}

#[test]
fn chunk_beyond_64_bit_length_fails() {
    let mut task = DownloadTask::new("http://x/f", "d");
    task.on_local_file(Some(u64::MAX - 1));
    task.on_probe_response(206, Some("bytes 0-0/*"), None);
    let a = task.on_response(206, None);
    assert_eq!(a, Action::Stream { truncate: false, start: u64::MAX - 1, total: u64::MAX - 1 });
    assert_eq!(task.on_chunk(&[0u8; 1]), Action::Write { position: u64::MAX });
    assert_eq!(
        task.on_chunk(&[0u8; 1]),
        Action::Fail { error: DownloadError::StreamIoError }
    );
}

#[test]
fn caller_failures_end_the_task() {
    let mut task = DownloadTask::new("http://x/f", "d");
    task.on_local_file(None);
    assert_eq!(
        task.on_failure(DownloadError::RequestFailed),
        Action::Fail { error: DownloadError::RequestFailed }
    );
    assert_eq!(task.phase(), Phase::Failed { error: DownloadError::RequestFailed });
    let mut task = DownloadTask::new("http://x/f", "d");
    assert_eq!(
        task.on_failure(DownloadError::FilesystemError),
        Action::Fail { error: DownloadError::FilesystemError }
    );
}

#[test]
fn destination_is_named_after_last_url_segment() {
    let task = DownloadTask::new("https://host/a/b/snap.tar.lz4", "/data/snapshots");
    assert_eq!(task.source_url(), "https://host/a/b/snap.tar.lz4");
    assert_eq!(task.file_name(), "snap.tar.lz4");
    assert_eq!(task.destination_path(), "/data/snapshots/snap.tar.lz4");
    let task = DownloadTask::new("https://host/dir/", "x");
    assert_eq!(task.file_name(), "");
    assert_eq!(task.destination_path(), "x/");
    let task = DownloadTask::new("plain", "x/");
    assert_eq!(task.destination_path(), "x/plain");
}
