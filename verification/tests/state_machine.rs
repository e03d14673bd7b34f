//! The read/seek state machine driven against a simulated server: the
//! driver loop below answers every demand of the machine from a local
//! byte array, serving range requests and chunked streams the way an
//! HTTP transport would.

use http_file::{HttpFile, ReadEvent, ReadPoll, ReadStep, SeekFrom, SeekPoll, StreamFault};

fn test_content(len: usize) -> Vec<u8> {
    (0..len).map(|i| (i * 7 % 251) as u8).collect()
}

fn open_known(len: usize) -> HttpFile {
    let header = format!("{}", len);
    HttpFile::new(
        "http://localhost/files/test.bin".to_string(),
        Some(header.as_bytes()),
        Some("\"abc123\"".to_string()),
        Some("application/octet-stream".to_string()),
    )
}

fn server_error() -> StreamFault {
    StreamFault { timeout: false, status: Some(500) }
}

/// Drive one read call to completion, serving chunks of at most
/// `chunk_size` bytes from `content`. Records in `requests` the offset of
/// every range request the machine issues or waits on.
fn read_once(
    f: &mut HttpFile,
    content: &[u8],
    cap: usize,
    chunk_size: usize,
    requests: &mut Vec<u64>,
) -> Vec<u8> {
    loop {
        match f.poll_read(cap) {
            ReadPoll::Ready(data) => return data,
            ReadPoll::AwaitRequest(offset) => {
                requests.push(offset);
                match f.read_event(ReadEvent::RequestOk, cap) {
                    ReadStep::Again => {}
                    step => panic!("unexpected step after request: {:?}", step),
                }
            }
            ReadPoll::AwaitChunk => {
                let start = f.position() as usize;
                if start >= content.len() {
                    match f.read_event(ReadEvent::StreamEnd, cap) {
                        ReadStep::Data(data) => return data,
                        step => panic!("unexpected step at stream end: {:?}", step),
                    }
                }
                let end = (start + chunk_size).min(content.len());
                let chunk = bytes::Bytes::copy_from_slice(&content[start..end]);
                match f.read_event(ReadEvent::Chunk(chunk), cap) {
                    ReadStep::Data(data) => return data,
                    step => panic!("unexpected step after chunk: {:?}", step),
                }
            }
        }
    }
}

/// Drive a seek to completion, resolving every awaited request at once.
fn seek_to(f: &mut HttpFile, from: SeekFrom, requests: &mut Vec<u64>) -> u64 {
    f.start_seek(from).expect("seek target should resolve");
    loop {
        match f.poll_complete() {
            SeekPoll::Ready(p) => return p,
            SeekPoll::AwaitRequest(offset) => {
                requests.push(offset);
                let p = f.seek_request_resolved(true).expect("resolved seek reports position");
                return p;
            }
        }
    }
}

#[test]
fn full_sequential_read() {
    let content = test_content(100);
    let mut f = open_known(100);
    assert_eq!(f.content_length(), Some(100));
    let mut requests = Vec::new();
    let mut collected = Vec::new();
    loop {
        let data = read_once(&mut f, &content, 7, 13, &mut requests);
        if data.is_empty() {
            break;
        }
        collected.extend_from_slice(&data);
    }
    assert_eq!(collected, content, "file content should be the same");
    assert_eq!(f.position(), 100);
    assert_eq!(requests, vec![0], "one range request serves the whole pass");
}

#[test]
fn random_access_read() {
    let content = test_content(1024);
    for &offset in &[0usize, 1, 511, 1000] {
        let mut f = open_known(1024);
        let mut requests = Vec::new();
        let p = seek_to(&mut f, SeekFrom::Start(offset as u64), &mut requests);
        assert_eq!(p, offset as u64);
        let want = 24.min(1024 - offset);
        let mut collected = Vec::new();
        while collected.len() < want {
            let data = read_once(&mut f, &content, want - collected.len(), 10, &mut requests);
            if data.is_empty() {
                break;
            }
            collected.extend_from_slice(&data);
        }
        assert_eq!(
            collected,
            &content[offset..offset + want],
            "file content should be the same at pos {}",
            offset
        );
    }
}

#[test]
fn seek_to_end_of_file() {
    let content = test_content(100);
    let mut f = open_known(100);
    f.start_seek(SeekFrom::Start(100)).expect("remote file should seek to EOF");
    // Completion is immediate: no request is awaited.
    assert_eq!(f.poll_complete(), SeekPoll::Ready(100));
    assert_eq!(f.position(), 100);
    // A read at EOF delivers zero bytes without touching the network.
    let mut requests = Vec::new();
    let data = read_once(&mut f, &content, 10, 10, &mut requests);
    assert!(data.is_empty(), "remote file should read 0 bytes at EOF");
    assert!(requests.is_empty(), "EOF read issues no request");
    // End-relative seek with offset zero lands at the same place.
    f.start_seek(SeekFrom::End(0)).expect("remote file should be at EOF using End(0)");
    assert_eq!(f.poll_complete(), SeekPoll::Ready(100));
    let data = read_once(&mut f, &content, 10, 10, &mut requests);
    assert!(data.is_empty(), "should still read 0 bytes at EOF");
    // One byte past the end is rejected.
    assert!(
        f.start_seek(SeekFrom::Start(101)).is_err(),
        "remote file should fail when seeking beyond EOF"
    );
}

#[test]
fn end_relative_equivalence() {
    let mut requests = Vec::new();
    let mut via_end = open_known(100);
    let p1 = seek_to(&mut via_end, SeekFrom::End(0), &mut requests);
    let mut via_start = open_known(100);
    let p2 = seek_to(&mut via_start, SeekFrom::Start(100), &mut requests);
    assert_eq!(p1, p2, "both files should be at the same position");
    assert!(requests.is_empty());
}

#[test]
fn seek_rejections() {
    let mut f = open_known(100);
    assert_eq!(f.start_seek(SeekFrom::Start(101)), Err(http_file::SeekError::BeyondEnd));
    assert_eq!(f.start_seek(SeekFrom::End(1)), Err(http_file::SeekError::BeyondEnd));
    assert_eq!(f.start_seek(SeekFrom::Current(-1)), Err(http_file::SeekError::Unrepresentable));
    assert_eq!(
        f.start_seek(SeekFrom::End(-101)),
        Err(http_file::SeekError::Unrepresentable)
    );
    // A rejected target leaves the handle where it was.
    assert_eq!(f.position(), 0);
    assert_eq!(f.poll_complete(), SeekPoll::Ready(0));

    let mut unknown = HttpFile::new("http://localhost/files/u.bin".to_string(), None, None, None);
    assert_eq!(unknown.content_length(), None);
    assert_eq!(
        unknown.start_seek(SeekFrom::End(0)),
        Err(http_file::SeekError::UnknownLength)
    );
    // Without a known length, forward seeks resolve freely.
    assert!(unknown.start_seek(SeekFrom::Start(1000)).is_ok());
}

#[test]
fn seek_reuses_in_flight_request() {
    let mut f = open_known(100);
    f.start_seek(SeekFrom::Start(50)).unwrap();
    assert_eq!(f.poll_complete(), SeekPoll::AwaitRequest(50));
    // Polling again waits on the same request instead of issuing another.
    assert_eq!(f.poll_complete(), SeekPoll::AwaitRequest(50));
    assert_eq!(f.seek_request_resolved(true), Some(50));
    assert_eq!(f.position(), 50);
    // Completion is idempotent once the seek is done.
    assert_eq!(f.poll_complete(), SeekPoll::Ready(50));
    assert_eq!(f.poll_complete(), SeekPoll::Ready(50));
}

#[test]
fn short_reads_split_large_chunks() {
    let content = test_content(100);
    let mut f = open_known(100);
    let mut requests = Vec::new();
    // One 10-byte chunk arrives; a capacity-4 read takes 4 bytes.
    let first = read_once(&mut f, &content, 4, 10, &mut requests);
    assert_eq!(first, &content[0..4]);
    // The remainder is served from the retained chunk, no new demand.
    match f.poll_read(4) {
        ReadPoll::Ready(data) => assert_eq!(data, &content[4..8]),
        other => panic!("expected retained bytes, got {:?}", other),
    }
    match f.poll_read(4) {
        ReadPoll::Ready(data) => assert_eq!(data, &content[8..10]),
        other => panic!("expected retained bytes, got {:?}", other),
    }
    assert_eq!(f.position(), 10);
    assert_eq!(requests, vec![0]);
}

#[test]
fn transient_retry_transparency() {
    let content = test_content(100);
    let mut f = open_known(100);
    let mut requests = Vec::new();
    // The very first range request comes back as a server error: the
    // machine retries silently.
    assert!(matches!(f.poll_read(8), ReadPoll::AwaitRequest(0)));
    requests.push(0);
    match f.read_event(ReadEvent::RequestErr(server_error()), 8) {
        ReadStep::Again => {}
        step => panic!("transient request fault should be retried, got {:?}", step),
    }
    // The retry reopens at the same position and yields correct bytes.
    let data = read_once(&mut f, &content, 8, 16, &mut requests);
    assert_eq!(data, &content[0..8]);
    assert_eq!(requests, vec![0, 0], "retry reissues at the unchanged cursor");
    // The successful chunk restored the full budget: three more faults
    // are still retried before the fourth is fatal.
    for _ in 0..3 {
        assert!(matches!(f.poll_read(8), ReadPoll::Ready(_) | ReadPoll::AwaitChunk));
        match f.read_event(ReadEvent::StreamErr(server_error()), 8) {
            ReadStep::Again => {}
            step => panic!("budget should be restored, got {:?}", step),
        }
        assert!(matches!(f.poll_read(8), ReadPoll::AwaitRequest(_)));
        assert!(matches!(f.read_event(ReadEvent::RequestOk, 8), ReadStep::Again));
        assert!(matches!(f.poll_read(8), ReadPoll::AwaitChunk));
    }
    match f.read_event(ReadEvent::StreamErr(server_error()), 8) {
        ReadStep::Fail(fault) => assert_eq!(fault.status, Some(500)),
        step => panic!("exhausted budget should fail, got {:?}", step),
    }
}

#[test]
fn retry_exhaustion_surfaces_cause() {
    let mut f = open_known(100);
    assert!(matches!(f.poll_read(8), ReadPoll::AwaitRequest(0)));
    assert!(matches!(f.read_event(ReadEvent::RequestOk, 8), ReadStep::Again));
    // Three consecutive timeouts are retried, the fourth fails the read.
    for _ in 0..3 {
        assert!(matches!(f.poll_read(8), ReadPoll::AwaitChunk));
        let fault = StreamFault { timeout: true, status: None };
        match f.read_event(ReadEvent::StreamErr(fault), 8) {
            ReadStep::Again => {}
            step => panic!("timeout within budget should be retried, got {:?}", step),
        }
        assert!(matches!(f.poll_read(8), ReadPoll::AwaitRequest(0)));
        assert!(matches!(f.read_event(ReadEvent::RequestOk, 8), ReadStep::Again));
    }
    assert!(matches!(f.poll_read(8), ReadPoll::AwaitChunk));
    let fault = StreamFault { timeout: true, status: None };
    match f.read_event(ReadEvent::StreamErr(fault), 8) {
        ReadStep::Fail(surfaced) => assert!(surfaced.timeout, "the underlying cause surfaces"),
        step => panic!("exhausted budget should fail, got {:?}", step),
    }
}

#[test]
fn request_error_retry_exhaustion() {
    let mut f = open_known(100);
    // Three consecutive server-error responses to the range request are
    // retried, the fourth fails the read, surfacing the status.
    for _ in 0..3 {
        assert!(matches!(f.poll_read(8), ReadPoll::AwaitRequest(0)));
        match f.read_event(ReadEvent::RequestErr(server_error()), 8) {
            ReadStep::Again => {}
            step => panic!("request fault within budget should be retried, got {:?}", step),
        }
    }
    assert!(matches!(f.poll_read(8), ReadPoll::AwaitRequest(0)));
    match f.read_event(ReadEvent::RequestErr(server_error()), 8) {
        ReadStep::Fail(surfaced) => assert_eq!(surfaced.status, Some(500)),
        step => panic!("exhausted budget should fail, got {:?}", step),
    }
}

#[test]
fn client_errors_are_fatal_at_once() {
    let mut f = open_known(100);
    assert!(matches!(f.poll_read(8), ReadPoll::AwaitRequest(0)));
    assert!(matches!(f.read_event(ReadEvent::RequestOk, 8), ReadStep::Again));
    assert!(matches!(f.poll_read(8), ReadPoll::AwaitChunk));
    let fault = StreamFault { timeout: false, status: Some(404) };
    match f.read_event(ReadEvent::StreamErr(fault), 8) {
        ReadStep::Fail(surfaced) => assert_eq!(surfaced.status, Some(404)),
        step => panic!("client error should be fatal, got {:?}", step),
    }
}

#[test]
fn fatal_request_failure_fails_the_read() {
    let mut f = open_known(100);
    assert!(matches!(f.poll_read(8), ReadPoll::AwaitRequest(0)));
    let fault = StreamFault { timeout: false, status: Some(403) };
    match f.read_event(ReadEvent::RequestErr(fault), 8) {
        ReadStep::Fail(surfaced) => assert_eq!(surfaced.status, Some(403)),
        step => panic!("client-error request failure should be fatal, got {:?}", step),
    }
}

#[test]
fn unknown_length_reads_until_stream_end() {
    let content = test_content(10);
    let mut f = HttpFile::new("http://localhost/files/u.bin".to_string(), None, None, None);
    let mut requests = Vec::new();
    let mut collected = Vec::new();
    loop {
        let data = read_once(&mut f, &content, 8, 4, &mut requests);
        if data.is_empty() {
            break;
        }
        collected.extend_from_slice(&data);
    }
    assert_eq!(collected, content);
    assert_eq!(requests, vec![0]);
}

#[test]
fn position_query_has_no_side_effect() {
    let mut f = open_known(100);
    let p1 = f.position();
    let p2 = f.position();
    assert_eq!(p1, p2);
    assert_eq!(p1, 0);
    // Nothing was recorded in between: the next read still has to open
    // the very first request.
    assert!(matches!(f.poll_read(8), ReadPoll::AwaitRequest(0)));
}

#[test]
fn current_relative_seek() {
    let content = test_content(100);
    let mut f = open_known(100);
    let mut requests = Vec::new();
    let p = seek_to(&mut f, SeekFrom::Start(40), &mut requests);
    assert_eq!(p, 40);
    // A zero-offset relative seek completes without any request.
    f.start_seek(SeekFrom::Current(0)).unwrap();
    assert_eq!(f.poll_complete(), SeekPoll::Ready(40));
    // A forward relative seek resolves against the cursor.
    let p = seek_to(&mut f, SeekFrom::Current(20), &mut requests);
    assert_eq!(p, 60);
    let data = read_once(&mut f, &content, 16, 16, &mut requests);
    assert_eq!(data, &content[60..76]);
    assert_eq!(requests, vec![40, 60]);
}
