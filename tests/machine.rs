use foundry::download::{start, Action, Download, DownloadError, Event, Phase};
use foundry::progress::{create_progress_bar, progress_mode, ProgressMode};
use foundry::DEFAULT_DESTINATION;

fn started(quiet: bool) -> Download {
    match start("http://localhost:8080/hello.txt", quiet) {
        Ok((_, d)) => d,
        Err(e) => panic!("start failed: {:?}", e),
    }
}

fn chunk(bytes: &[u8]) -> Event {
    Event::Chunk(bytes.to_vec())
}

#[test]
fn hello_world_end_to_end() {
    let mut d = started(false);
    assert_eq!(d.phase(), Phase::Requesting);
    let a = d.step(Event::Responded { status: 200, content_length: Some(11) });
    assert!(matches!(a, Action::CreateFile));
    assert!(matches!(d.step(Event::FileCreated), Action::ReadChunk));
    let mut file: Vec<u8> = Vec::new();
    match d.step(chunk(b"hello world")) {
        Action::Write(b) => file.extend_from_slice(&b),
        other => panic!("unexpected {:?}", other),
    }
    assert!(matches!(d.step(Event::Written), Action::ReadChunk));
    assert!(matches!(d.step(Event::Ended), Action::Finish));
    assert_eq!(file, b"hello world".to_vec());
    assert_eq!(d.phase(), Phase::Complete);
    let p = d.progress().unwrap();
    assert_eq!(p.position, 11);
    assert!(p.finished);
    assert_eq!(p.mode, ProgressMode::Bar(11));
    assert_eq!(d.total(), Some(11));
}

#[test]
fn malformed_url_is_invalid() {
    assert!(matches!(start("not a url", false), Err(DownloadError::InvalidUrl)));
    assert!(matches!(start("", false), Err(DownloadError::InvalidUrl)));
    assert!(matches!(start("/relative/path", true), Err(DownloadError::InvalidUrl)));
}

#[test]
fn well_formed_url_starts_requesting() {
    match start("https://example.com/a/b?c=d", true) {
        Ok((url, d)) => {
            assert_eq!(url.as_str(), "https://example.com/a/b?c=d");
            assert_eq!(d.phase(), Phase::Requesting);
            assert_eq!(d.progress(), None);
        }
        Err(e) => panic!("start failed: {:?}", e),
    }
}

#[test]
fn not_found_fails_before_file() {
    let mut d = started(false);
    let a = d.step(Event::Responded { status: 404, content_length: Some(9) });
    assert!(matches!(a, Action::Fail(DownloadError::HttpStatus(404))));
    assert_eq!(d.phase(), Phase::Failed(DownloadError::HttpStatus(404)));
    assert!(matches!(d.step(Event::FileCreated), Action::Idle));
    assert!(matches!(d.step(chunk(b"x")), Action::Idle));
    assert_eq!(d.phase(), Phase::Failed(DownloadError::HttpStatus(404)));
    assert_eq!(d.progress(), None);
}

#[test]
fn status_bounds() {
    for (status, ok) in [(199u16, false), (200, true), (204, true), (299, true), (300, false), (500, false)] {
        let mut d = started(true);
        let a = d.step(Event::Responded { status, content_length: None });
        if ok {
            assert!(matches!(a, Action::CreateFile));
        } else {
            assert!(matches!(a, Action::Fail(DownloadError::HttpStatus(s)) if s == status));
        }
    }
}

#[test]
fn request_failure_is_transport() {
    let mut d = started(false);
    assert!(matches!(d.step(Event::RequestFailed), Action::Fail(DownloadError::Transport)));
    assert_eq!(d.phase(), Phase::Failed(DownloadError::Transport));
}

#[test]
fn create_failure_is_io() {
    let mut d = started(false);
    d.step(Event::Responded { status: 200, content_length: None });
    assert!(matches!(d.step(Event::CreateFailed), Action::Fail(DownloadError::Io)));
    assert_eq!(d.phase(), Phase::Failed(DownloadError::Io));
}

#[test]
fn write_failure_is_io() {
    let mut d = started(false);
    d.step(Event::Responded { status: 200, content_length: None });
    d.step(Event::FileCreated);
    d.step(chunk(b"abc"));
    assert!(matches!(d.step(Event::WriteFailed), Action::Fail(DownloadError::Io)));
    assert_eq!(d.progress().unwrap().position, 0);
}

#[test]
fn broken_stream_keeps_partial_count() {
    let mut d = started(false);
    d.step(Event::Responded { status: 200, content_length: Some(20) });
    d.step(Event::FileCreated);
    let mut written = 0usize;
    for part in [&b"hello"[..], &b" world"[..]] {
        if let Action::Write(b) = d.step(chunk(part)) {
            written += b.len();
        }
        d.step(Event::Written);
    }
    assert!(matches!(d.step(Event::ReadFailed), Action::Fail(DownloadError::Transport)));
    assert_eq!(d.phase(), Phase::Failed(DownloadError::Transport));
    assert_eq!(written, 11);
    assert_eq!(d.progress().unwrap().position, 11);
    assert!(d.progress().unwrap().position < 20);
    assert!(!d.progress().unwrap().finished);
}

#[test]
fn repeated_run_gives_same_bytes() {
    let mut disk: Vec<u8> = b"old contents that are longer".to_vec();
    for _ in 0..2 {
        let mut d = started(true);
        d.step(Event::Responded { status: 200, content_length: None });
        if let Action::CreateFile = d.step(Event::FileCreated) {
            unreachable!();
        }
        disk.clear();
        for part in [&b"ab"[..], &b"cd"[..]] {
            if let Action::Write(b) = d.step(chunk(part)) {
                disk.extend_from_slice(&b);
            }
            d.step(Event::Written);
        }
        assert!(matches!(d.step(Event::Ended), Action::Finish));
        assert_eq!(disk, b"abcd".to_vec());
    }
}

#[test]
fn empty_chunks_and_empty_body() {
    let mut d = started(false);
    d.step(Event::Responded { status: 200, content_length: Some(0) });
    d.step(Event::FileCreated);
    assert!(matches!(d.step(chunk(b"")), Action::Write(ref b) if b.is_empty()));
    d.step(Event::Written);
    assert!(matches!(d.step(Event::Ended), Action::Finish));
    assert_eq!(d.progress().unwrap().position, 0);
}

#[test]
fn unexpected_events_are_ignored() {
    let mut d = started(false);
    assert!(matches!(d.step(Event::Written), Action::Idle));
    assert!(matches!(d.step(Event::Ended), Action::Idle));
    assert_eq!(d.phase(), Phase::Requesting);
    d.step(Event::Responded { status: 200, content_length: None });
    d.step(Event::FileCreated);
    d.step(chunk(b"a"));
    assert!(matches!(d.step(chunk(b"b")), Action::Idle));
    assert_eq!(d.phase(), Phase::Writing);
    d.step(Event::Written);
    d.step(Event::Ended);
    assert!(matches!(d.step(Event::Responded { status: 200, content_length: None }), Action::Idle));
    assert_eq!(d.progress().unwrap().position, 1);
}

#[test]
fn quiet_hides_progress() {
    let mut d = started(true);
    d.step(Event::Responded { status: 200, content_length: Some(5) });
    assert_eq!(d.progress().unwrap().mode, ProgressMode::Hidden);
    assert_eq!(d.total(), Some(5));
}

#[test]
fn progress_modes() {
    assert_eq!(progress_mode(true, Some(3)), ProgressMode::Hidden);
    assert_eq!(progress_mode(true, None), ProgressMode::Hidden);
    assert_eq!(progress_mode(false, Some(3)), ProgressMode::Bar(3));
    assert_eq!(progress_mode(false, None), ProgressMode::Spinner);
}

#[test]
fn progress_counts_and_saturates() {
    let mut p = create_progress_bar(false, Some(10));
    assert_eq!(p.position, 0);
    assert_eq!(p.length(), Some(10));
    p.increment(4);
    p.increment(6);
    assert_eq!(p.position, 10);
    p.increment(u64::MAX);
    assert_eq!(p.position, u64::MAX);
    p.finish();
    assert!(p.finished);
    assert_eq!(create_progress_bar(false, None).length(), None);
}

#[test]
fn default_destination() {
    assert_eq!(DEFAULT_DESTINATION, "downloaded_file");
}
