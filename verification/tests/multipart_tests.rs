use r2pilot::multipart::{
    clone_parts, total_parts, CompletedPart, MultipartUpload, MultipartUploadConfig, Phase,
    UploadAction, UploadEvent, MAX_READ_SIZE,
};
use r2pilot::Error;

/// A store that remembers what it was asked, and fails where it is told to.
struct FakeStore {
    fail_open: bool,
    no_id: bool,
    fail_part: Option<i32>,
    no_tag_part: Option<i32>,
    fail_read_at: Option<usize>,
    fail_complete: bool,
    /// The most bytes that one read of the file gives.
    max_read: usize,
    opened: usize,
    aborted: usize,
    completed: Vec<Vec<(i32, String)>>,
    parts: Vec<(i32, Vec<u8>)>,
    reads: Vec<usize>,
}

impl FakeStore {
    fn new() -> Self {
        FakeStore {
            fail_open: false,
            no_id: false,
            fail_part: None,
            no_tag_part: None,
            fail_read_at: None,
            fail_complete: false,
            max_read: usize::MAX,
            opened: 0,
            aborted: 0,
            completed: Vec::new(),
            parts: Vec::new(),
            reads: Vec::new(),
        }
    }
}

/// Runs an upload of `file` to the end, as a caller does: performs each
/// action and reports what came of it.
fn drive(file: &[u8], chunk_size: usize, store: &mut FakeStore) -> (Result<(), Error>, MultipartUpload) {
    let config = MultipartUploadConfig { chunk_size, concurrent_parts: 5 };
    let mut upload = MultipartUpload::new("dir/file.bin", "application/octet-stream", &config);
    let mut offset = 0usize;
    let mut event = UploadEvent::Begin;
    loop {
        assert!(upload.accepts(&event));
        let action = upload.step(event);
        event = match action {
            UploadAction::OpenSession => {
                store.opened += 1;
                if store.fail_open {
                    UploadEvent::SessionOpened(Err(Error::R2Operation("no session".to_string())))
                } else if store.no_id {
                    UploadEvent::SessionOpened(Ok(None))
                } else {
                    UploadEvent::SessionOpened(Ok(Some(format!("upload-{}", store.opened))))
                }
            }
            UploadAction::ReadChunk(len) => {
                store.reads.push(len);
                if store.fail_read_at == Some(store.reads.len()) {
                    UploadEvent::ChunkRead(Err(Error::Io("disk gone".to_string())))
                } else {
                    let end = (offset + len.min(store.max_read)).min(file.len());
                    let chunk = file[offset..end].to_vec();
                    offset = end;
                    UploadEvent::ChunkRead(Ok(chunk))
                }
            }
            UploadAction::UploadPart { part_number, body } => {
                store.parts.push((part_number, body));
                if store.fail_part == Some(part_number) {
                    UploadEvent::PartUploaded(Err(Error::R2Operation("part refused".to_string())))
                } else if store.no_tag_part == Some(part_number) {
                    UploadEvent::PartUploaded(Ok(None))
                } else {
                    UploadEvent::PartUploaded(Ok(Some(format!("etag-{}", part_number))))
                }
            }
            UploadAction::Complete(parts) => {
                store
                    .completed
                    .push(parts.iter().map(|p| (p.part_number, p.etag.clone())).collect());
                if store.fail_complete {
                    UploadEvent::CompletionReturned(Err(Error::R2Operation(
                        "cannot complete".to_string(),
                    )))
                } else {
                    UploadEvent::CompletionReturned(Ok(()))
                }
            }
            UploadAction::Abort => {
                store.aborted += 1;
                UploadEvent::AbortReturned
            }
            UploadAction::Finish(result) => {
                assert!(upload.is_finished());
                return (result, upload);
            }
        };
    }
}

fn sample(n: usize) -> Vec<u8> {
    (0..n).map(|i| (i * 7 % 251) as u8).collect()
}

#[test]
fn file_goes_out_in_numbered_parts() {
    let file = sample(10);
    let mut store = FakeStore::new();
    let (result, upload) = drive(&file, 4, &mut store);
    assert!(result.is_ok());
    assert_eq!(upload.phase(), Phase::Completed);
    assert_eq!(upload.upload_id(), Some("upload-1"));
    assert_eq!(store.opened, 1);
    assert_eq!(store.aborted, 0);
    let numbers: Vec<i32> = store.parts.iter().map(|p| p.0).collect();
    assert_eq!(numbers, vec![1, 2, 3]);
    assert_eq!(store.parts[0].1, file[0..4].to_vec());
    assert_eq!(store.parts[1].1, file[4..8].to_vec());
    assert_eq!(store.parts[2].1, file[8..10].to_vec());
    assert_eq!(
        store.completed,
        vec![vec![
            (1, "etag-1".to_string()),
            (2, "etag-2".to_string()),
            (3, "etag-3".to_string())
        ]]
    );
    // A read for each full part, one for the rest of the file, which leaves
    // two bytes of the chunk open, and the one that finds the end of the file.
    assert_eq!(store.reads, vec![4, 4, 4, 2]);
}

#[test]
fn part_count_is_size_over_chunk_rounded_up() {
    for (n, c) in [(1usize, 1usize), (1, 8), (8, 8), (9, 8), (16, 8), (17, 8), (100, 7), (5, 100)] {
        let file = sample(n);
        let mut store = FakeStore::new();
        let (result, upload) = drive(&file, c, &mut store);
        assert!(result.is_ok());
        let expected = (n + c - 1) / c;
        assert_eq!(store.parts.len(), expected);
        assert_eq!(total_parts(n as u64, c), expected);
        assert_eq!(upload.completed_parts().len(), expected);
        for (i, part) in store.parts.iter().enumerate() {
            assert_eq!(part.0 as usize, i + 1);
            assert!(!part.1.is_empty() && part.1.len() <= c);
        }
        let sent: Vec<u8> = store.parts.iter().flat_map(|p| p.1.clone()).collect();
        assert_eq!(sent, file);
        assert_eq!(store.completed.len(), 1);
        assert_eq!(store.aborted, 0);
    }
}

#[test]
fn total_parts_exact_values() {
    assert_eq!(total_parts(0, 1), 0);
    assert_eq!(total_parts(0, 104857600), 0);
    assert_eq!(total_parts(1, 104857600), 1);
    assert_eq!(total_parts(104857600, 104857600), 1);
    assert_eq!(total_parts(104857601, 104857600), 2);
    assert_eq!(total_parts(1_000_000_000, 5 * 1024 * 1024), 191);
}

#[test]
fn failed_part_aborts_once_and_never_completes() {
    let file = sample(10);
    let mut store = FakeStore::new();
    store.fail_part = Some(2);
    let (result, upload) = drive(&file, 4, &mut store);
    let err = result.unwrap_err();
    assert_eq!(err.to_string(), "R2 operation failed: part refused");
    assert_eq!(store.aborted, 1);
    assert!(store.completed.is_empty());
    assert_eq!(store.parts.len(), 2);
    assert_eq!(upload.phase(), Phase::Aborted);
    assert_eq!(upload.completed_parts().len(), 1);
    // A finished upload takes no further report.
    assert!(!upload.accepts(&UploadEvent::Begin));
    assert!(!upload.accepts(&UploadEvent::AbortReturned));
    assert!(!upload.accepts(&UploadEvent::ChunkRead(Ok(vec![1]))));
}

#[test]
fn first_part_failing_aborts_too() {
    let mut store = FakeStore::new();
    store.fail_part = Some(1);
    let (result, _) = drive(&sample(3), 4, &mut store);
    assert!(result.is_err());
    assert_eq!(store.aborted, 1);
    assert!(store.completed.is_empty());
}

#[test]
fn part_without_tag_is_a_failure() {
    let mut store = FakeStore::new();
    store.no_tag_part = Some(1);
    let (result, _) = drive(&sample(3), 4, &mut store);
    assert_eq!(
        result.unwrap_err().to_string(),
        "Multipart upload error: No ETag returned for part"
    );
    assert_eq!(store.aborted, 1);
    assert!(store.completed.is_empty());
}

#[test]
fn empty_file_makes_no_part_and_no_object() {
    let mut store = FakeStore::new();
    let (result, upload) = drive(&[], 4, &mut store);
    let err = result.unwrap_err();
    assert!(matches!(err, Error::MultipartUpload(_)));
    assert_eq!(err.to_string(), "Multipart upload error: No data to upload");
    assert!(store.parts.is_empty());
    assert!(store.completed.is_empty());
    assert_eq!(store.aborted, 1);
    assert_eq!(upload.phase(), Phase::Aborted);
}

#[test]
fn refused_session_ends_without_abort() {
    let mut store = FakeStore::new();
    store.fail_open = true;
    let (result, upload) = drive(&sample(3), 4, &mut store);
    assert_eq!(result.unwrap_err().to_string(), "R2 operation failed: no session");
    assert_eq!(store.aborted, 0);
    assert!(store.reads.is_empty());
    assert_eq!(upload.phase(), Phase::Refused);
    assert_eq!(upload.upload_id(), None);

    let mut store = FakeStore::new();
    store.no_id = true;
    let (result, _) = drive(&sample(3), 4, &mut store);
    assert_eq!(result.unwrap_err().to_string(), "Multipart upload error: No upload ID returned");
    assert_eq!(store.aborted, 0);
}

#[test]
fn failed_read_aborts_the_session() {
    let mut store = FakeStore::new();
    store.fail_read_at = Some(2);
    let (result, _) = drive(&sample(10), 4, &mut store);
    assert_eq!(result.unwrap_err().to_string(), "IO error: disk gone");
    assert_eq!(store.parts.len(), 1);
    assert_eq!(store.aborted, 1);
    assert!(store.completed.is_empty());
}

#[test]
fn failed_completion_aborts_the_session() {
    let mut store = FakeStore::new();
    store.fail_complete = true;
    let (result, upload) = drive(&sample(10), 4, &mut store);
    assert_eq!(result.unwrap_err().to_string(), "R2 operation failed: cannot complete");
    assert_eq!(store.completed.len(), 1);
    assert_eq!(store.aborted, 1);
    assert_eq!(upload.phase(), Phase::Aborted);
}

#[test]
fn every_upload_gets_a_session_of_its_own() {
    let mut store = FakeStore::new();
    store.fail_part = Some(1);
    let (first, aborted) = drive(&sample(3), 4, &mut store);
    assert!(first.is_err());
    assert_eq!(aborted.upload_id(), Some("upload-1"));
    store.fail_part = None;
    let (second, done) = drive(&sample(3), 4, &mut store);
    assert!(second.is_ok());
    assert_eq!(done.upload_id(), Some("upload-2"));
    assert_eq!(store.opened, 2);
}

#[test]
fn new_upload_has_no_session() {
    let config = MultipartUploadConfig { chunk_size: 8, concurrent_parts: 1 };
    let upload = MultipartUpload::new("k", "text/plain", &config);
    assert_eq!(upload.phase(), Phase::Idle);
    assert_eq!(upload.upload_id(), None);
    assert!(upload.completed_parts().is_empty());
    assert_eq!(upload.key(), "k");
    assert_eq!(upload.content_type(), "text/plain");
    assert!(!upload.is_finished());
    assert!(upload.accepts(&UploadEvent::Begin));
    assert!(!upload.accepts(&UploadEvent::SessionOpened(Ok(Some("x".to_string())))));
}

#[test]
fn unexpected_report_changes_nothing() {
    let config = MultipartUploadConfig { chunk_size: 8, concurrent_parts: 1 };
    let mut upload = MultipartUpload::new("k", "t", &config);
    // Nothing was asked for yet: there is no answer to report.
    let event = UploadEvent::PartUploaded(Ok(Some("tag".to_string())));
    assert!(!upload.awaits(&event));
    assert!(upload.fits(&event));
    assert!(!upload.accepts(&event));
    match upload.step(event) {
        UploadAction::Finish(Err(e)) => {
            assert_eq!(e.to_string(), "Multipart upload error: Unexpected report")
        }
        other => panic!("unexpected action {:?}", other),
    }
    assert_eq!(upload.phase(), Phase::Idle);
    assert!(upload.completed_parts().is_empty());
    // The upload goes on as if nothing had been reported.
    assert!(matches!(upload.step(UploadEvent::Begin), UploadAction::OpenSession));
    assert!(matches!(
        upload.step(UploadEvent::Begin),
        UploadAction::Finish(Err(Error::MultipartUpload(_)))
    ));
    assert_eq!(upload.phase(), Phase::Opening);
}

#[test]
fn finished_upload_answers_every_report_with_an_error() {
    let mut store = FakeStore::new();
    let (result, mut upload) = drive(&sample(3), 4, &mut store);
    assert!(result.is_ok());
    for event in [
        UploadEvent::Begin,
        UploadEvent::ChunkRead(Ok(vec![1, 2, 3])),
        UploadEvent::AbortReturned,
        UploadEvent::CompletionReturned(Ok(())),
    ] {
        assert!(matches!(upload.step(event), UploadAction::Finish(Err(_))));
        assert_eq!(upload.phase(), Phase::Completed);
        assert_eq!(upload.completed_parts().len(), 1);
    }
}

#[test]
fn read_size_is_capped() {
    let config = MultipartUploadConfig { chunk_size: MAX_READ_SIZE + 1, concurrent_parts: 1 };
    assert_eq!(config.read_len(), MAX_READ_SIZE);
    let config = MultipartUploadConfig { chunk_size: usize::MAX, concurrent_parts: 1 };
    assert_eq!(config.read_len(), 104857600);
    let config = MultipartUploadConfig { chunk_size: 5, concurrent_parts: 1 };
    assert_eq!(config.read_len(), 5);
    let mut upload = MultipartUpload::new(
        "k",
        "t",
        &MultipartUploadConfig { chunk_size: usize::MAX, concurrent_parts: 1 },
    );
    upload.step(UploadEvent::Begin);
    match upload.step(UploadEvent::SessionOpened(Ok(Some("id".to_string())))) {
        UploadAction::ReadChunk(len) => assert_eq!(len, 104857600),
        other => panic!("unexpected action {:?}", other),
    }
}

#[test]
fn default_config_is_100_mib_and_5_parts() {
    let config = MultipartUploadConfig::default();
    assert_eq!(config.chunk_size, 100 * 1024 * 1024);
    assert_eq!(config.concurrent_parts, 5);
}

#[test]
fn short_reads_are_gathered_into_full_parts() {
    // Two bytes, read one byte at a time, at two bytes a part: one part.
    let mut store = FakeStore::new();
    store.max_read = 1;
    let (result, upload) = drive(&[7, 9], 2, &mut store);
    assert!(result.is_ok());
    assert_eq!(store.parts, vec![(1, vec![7, 9])]);
    assert_eq!(store.reads, vec![2, 1, 2]);
    assert_eq!(upload.completed_parts().len(), 1);
    assert_eq!(store.completed, vec![vec![(1, "etag-1".to_string())]]);
}

#[test]
fn part_count_does_not_depend_on_the_reads() {
    for max_read in [1usize, 2, 3, 5, 7, 64] {
        for (n, c) in [(1usize, 1usize), (1, 8), (8, 8), (9, 8), (16, 8), (17, 8), (100, 7), (5, 100)]
        {
            let file = sample(n);
            let mut store = FakeStore::new();
            store.max_read = max_read;
            let (result, _) = drive(&file, c, &mut store);
            assert!(result.is_ok());
            let expected = (n + c - 1) / c;
            assert_eq!(store.parts.len(), expected, "n={} c={} read={}", n, c, max_read);
            for (i, part) in store.parts.iter().enumerate() {
                assert_eq!(part.0 as usize, i + 1);
                if i + 1 < expected {
                    assert_eq!(part.1.len(), c);
                } else {
                    assert_eq!(part.1.len(), n - c * (expected - 1));
                }
            }
            let sent: Vec<u8> = store.parts.iter().flat_map(|p| p.1.clone()).collect();
            assert_eq!(sent, file);
            assert!(store.reads.iter().all(|len| *len >= 1 && *len <= c));
        }
    }
}

#[test]
fn the_rest_of_the_chunk_is_asked_for() {
    let config = MultipartUploadConfig { chunk_size: 8, concurrent_parts: 1 };
    let mut upload = MultipartUpload::new("k", "t", &config);
    upload.step(UploadEvent::Begin);
    upload.step(UploadEvent::SessionOpened(Ok(Some("id".to_string()))));
    assert!(matches!(
        upload.step(UploadEvent::ChunkRead(Ok(vec![1, 2, 3]))),
        UploadAction::ReadChunk(5)
    ));
    assert_eq!(upload.gathered_len(), 3);
    assert_eq!(upload.phase(), Phase::Reading);
    assert!(matches!(
        upload.step(UploadEvent::ChunkRead(Ok(vec![4]))),
        UploadAction::ReadChunk(4)
    ));
    match upload.step(UploadEvent::ChunkRead(Ok(vec![5, 6, 7, 8]))) {
        UploadAction::UploadPart { part_number, body } => {
            assert_eq!(part_number, 1);
            assert_eq!(body, vec![1, 2, 3, 4, 5, 6, 7, 8]);
        }
        other => panic!("unexpected action {:?}", other),
    }
    assert_eq!(upload.gathered_len(), 0);
    assert_eq!(upload.phase(), Phase::Uploading);
    assert!(matches!(
        upload.step(UploadEvent::PartUploaded(Ok(Some("t1".to_string())))),
        UploadAction::ReadChunk(8)
    ));
    // The file ends in the middle of the second chunk.
    upload.step(UploadEvent::ChunkRead(Ok(vec![9])));
    match upload.step(UploadEvent::ChunkRead(Ok(Vec::new()))) {
        UploadAction::UploadPart { part_number, body } => {
            assert_eq!(part_number, 2);
            assert_eq!(body, vec![9]);
        }
        other => panic!("unexpected action {:?}", other),
    }
    assert_eq!(upload.phase(), Phase::UploadingLast);
    // After the last part the session is completed without another read.
    match upload.step(UploadEvent::PartUploaded(Ok(Some("t2".to_string())))) {
        UploadAction::Complete(parts) => {
            let listed: Vec<(i32, String)> =
                parts.iter().map(|p| (p.part_number, p.etag.clone())).collect();
            assert_eq!(listed, vec![(1, "t1".to_string()), (2, "t2".to_string())]);
        }
        other => panic!("unexpected action {:?}", other),
    }
    assert_eq!(upload.phase(), Phase::Completing);
}

#[test]
fn a_read_of_more_than_was_asked_for_is_refused() {
    let config = MultipartUploadConfig { chunk_size: 4, concurrent_parts: 1 };
    let mut upload = MultipartUpload::new("k", "t", &config);
    upload.step(UploadEvent::Begin);
    upload.step(UploadEvent::SessionOpened(Ok(Some("id".to_string()))));
    upload.step(UploadEvent::ChunkRead(Ok(vec![1, 2, 3])));
    let event = UploadEvent::ChunkRead(Ok(vec![4, 5]));
    assert!(!upload.awaits(&event));
    assert!(matches!(upload.step(event), UploadAction::Finish(Err(Error::MultipartUpload(_)))));
    assert_eq!(upload.gathered_len(), 3);
    assert_eq!(upload.phase(), Phase::Reading);
    assert!(upload.awaits(&UploadEvent::ChunkRead(Ok(vec![4]))));
}

#[test]
fn failure_of_the_last_part_aborts() {
    let mut store = FakeStore::new();
    store.fail_part = Some(3);
    let (result, upload) = drive(&sample(10), 4, &mut store);
    assert_eq!(result.unwrap_err().to_string(), "R2 operation failed: part refused");
    assert_eq!(store.aborted, 1);
    assert!(store.completed.is_empty());
    assert_eq!(upload.phase(), Phase::Aborted);
}

#[test]
fn failed_read_in_the_middle_of_a_chunk_aborts() {
    let mut store = FakeStore::new();
    store.max_read = 3;
    store.fail_read_at = Some(2);
    let (result, _) = drive(&sample(10), 4, &mut store);
    assert_eq!(result.unwrap_err().to_string(), "IO error: disk gone");
    assert!(store.parts.is_empty());
    assert_eq!(store.aborted, 1);
    assert!(store.completed.is_empty());
}

#[test]
fn parts_are_copied_with_number_and_tag() {
    let parts = vec![
        CompletedPart { part_number: 1, etag: "a".to_string() },
        CompletedPart { part_number: 2, etag: "b".to_string() },
    ];
    let copy = clone_parts(&parts);
    assert_eq!(copy.len(), 2);
    assert_eq!(copy[0].part_number, 1);
    assert_eq!(copy[0].etag, "a");
    assert_eq!(copy[1].part_number, 2);
    assert_eq!(copy[1].etag, "b");
}
