use myrtio_light::download::{
    Download, DownloadError, DownloadEvent, DownloadOutcome, DownloadPhase, OtaAction,
};

fn describe(actions: &[OtaAction]) -> Vec<String> {
    actions
        .iter()
        .map(|a| match a {
            OtaAction::Start => "start".to_string(),
            OtaAction::Begin { expected_size } => format!("begin {}", expected_size),
            OtaAction::Data(bytes) => format!("data {}", String::from_utf8_lossy(bytes)),
            OtaAction::Chunk { written, total } => format!("chunk {}/{}", written, total),
            OtaAction::ControllerAbort => "controller abort".to_string(),
            OtaAction::Abort => "abort".to_string(),
            OtaAction::Finish => "finish".to_string(),
            OtaAction::Complete => "complete".to_string(),
        })
        .collect()
}

#[test]
fn body_read_with_headers_is_handed_on_first() {
    let mut d = Download::new(4, 1024);
    let (acts, out) = d.step(DownloadEvent::Received(b"HTTP/1.0 200 OK\r\n\r\nABCD".to_vec()));
    assert_eq!(out, DownloadOutcome::Continue);
    assert_eq!(describe(&acts), vec!["start", "begin 4", "data ABCD"]);
    assert_eq!(d.phase, DownloadPhase::Body);
    let (acts, out) = d.step(DownloadEvent::Closed);
    assert_eq!(out, DownloadOutcome::Done);
    assert_eq!(describe(&acts), vec!["finish", "complete"]);
    assert_eq!(d.phase, DownloadPhase::Finished);
}

#[test]
fn headers_over_several_reads_then_chunks() {
    let mut d = Download::new(6, 1024);
    let (acts, out) = d.step(DownloadEvent::Received(b"HTTP/1.1 200 OK\r\nContent".to_vec()));
    assert_eq!(out, DownloadOutcome::Continue);
    assert!(acts.is_empty());
    let (acts, out) = d.step(DownloadEvent::Received(b"-Length: 6\r\n\r\n".to_vec()));
    assert_eq!(out, DownloadOutcome::Continue);
    assert_eq!(describe(&acts), vec!["start", "begin 6"]);
    let (acts, _) = d.step(DownloadEvent::Received(b"abc".to_vec()));
    assert_eq!(describe(&acts), vec!["data abc", "chunk 3/6"]);
    let (acts, _) = d.step(DownloadEvent::Received(b"def".to_vec()));
    assert_eq!(describe(&acts), vec!["data def", "chunk 6/6"]);
    assert_eq!(d.written, 6);
}

#[test]
fn read_error_while_streaming_aborts() {
    let mut d = Download::new(10, 1024);
    d.step(DownloadEvent::Received(b"HTTP/1.0 200 OK\r\n\r\n".to_vec()));
    d.step(DownloadEvent::Received(b"xy".to_vec()));
    let (acts, out) = d.step(DownloadEvent::Failed);
    assert_eq!(out, DownloadOutcome::Failed(DownloadError::Read));
    assert_eq!(describe(&acts), vec!["controller abort", "abort"]);
}

#[test]
fn bad_status_and_header_failures() {
    let mut d = Download::new(1, 1024);
    let (acts, out) = d.step(DownloadEvent::Received(b"HTTP/1.1 404 Not Found\r\n\r\nbody".to_vec()));
    assert_eq!(out, DownloadOutcome::Failed(DownloadError::Http));
    assert!(acts.is_empty());

    let mut closed = Download::new(1, 1024);
    assert_eq!(closed.step(DownloadEvent::Closed).1, DownloadOutcome::Failed(DownloadError::Http));
    let mut failed = Download::new(1, 1024);
    assert_eq!(failed.step(DownloadEvent::Failed).1, DownloadOutcome::Failed(DownloadError::Read));

    let mut full = Download::new(1, 1024);
    let (acts, out) = full.step(DownloadEvent::Received(vec![b'h'; 512]));
    assert_eq!(out, DownloadOutcome::Failed(DownloadError::Http));
    assert!(acts.is_empty());
}

#[test]
fn body_with_headers_larger_than_a_chunk_fails_after_begin() {
    let mut d = Download::new(8, 2);
    let (acts, out) = d.step(DownloadEvent::Received(b"HTTP/1.0 200 OK\r\n\r\nABC".to_vec()));
    assert_eq!(out, DownloadOutcome::Failed(DownloadError::Controller));
    assert_eq!(describe(&acts), vec!["start", "begin 8"]);
}
