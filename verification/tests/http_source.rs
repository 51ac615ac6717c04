use bayin::audio_engine::http_source::{
    parse_content_length, range_header, reopened_start, Download, HttpStreamSource, ReadStep,
    SeekStep, SeekTarget, StreamBuffer, StreamError, WorkerStep, PRE_BUFFER, READ_CHUNK,
};

fn buffer_with(start: u64, bytes: &[u8]) -> StreamBuffer {
    let mut buffer = StreamBuffer::new(start);
    assert!(buffer.push_chunk(bytes));
    buffer
}

#[test]
fn open_accepts_200_and_206_only() {
    assert!(HttpStreamSource::open("http://host/a.flac", 200, Some("10")).is_ok());
    assert!(HttpStreamSource::open("http://host/a.flac", 206, None).is_ok());
    match HttpStreamSource::open("http://host/a.flac", 404, Some("10")) {
        Err(StreamError::Status(404)) => {}
        other => panic!("unexpected {:?}", other.map(|_| ())),
    }
}

#[test]
fn status_error_message() {
    assert_eq!(StreamError::Status(404).message(), "HTTP request failed with status 404");
    assert_eq!(
        StreamError::RangeStatus(416).message(),
        "Range request returned status 416"
    );
    assert_eq!(
        StreamError::PreBuffer("reset".to_string()).message(),
        "Download error during pre-buffer: reset"
    );
    assert_eq!(StreamError::NegativePosition.message(), "Seek to negative position");
}

#[test]
fn content_length_values() {
    assert_eq!(parse_content_length(Some("12345")), 12345);
    assert_eq!(parse_content_length(Some("+7")), 7);
    assert_eq!(parse_content_length(Some("0")), 0);
    assert_eq!(parse_content_length(Some("18446744073709551615")), u64::MAX);
    assert_eq!(parse_content_length(Some("18446744073709551616")), 0);
    assert_eq!(parse_content_length(Some("")), 0);
    assert_eq!(parse_content_length(Some("+")), 0);
    assert_eq!(parse_content_length(Some("12a")), 0);
    assert_eq!(parse_content_length(Some(" 12")), 0);
    assert_eq!(parse_content_length(Some("-1")), 0);
    assert_eq!(parse_content_length(None), 0);
}

#[test]
fn byte_len_unknown_without_content_length() {
    let source = HttpStreamSource::open("http://host/a", 200, None).unwrap();
    assert_eq!(source.byte_len(), None);
    assert!(source.is_seekable());
    let source = HttpStreamSource::open("http://host/a", 200, Some("42")).unwrap();
    assert_eq!(source.byte_len(), Some(42));
    assert_eq!(source.content_length(), 42);
    assert_eq!(source.url(), "http://host/a");
}

#[test]
fn range_header_text() {
    assert_eq!(range_header(0), "bytes=0-");
    assert_eq!(range_header(1048576), "bytes=1048576-");
    assert_eq!(range_header(u64::MAX), "bytes=18446744073709551615-");
}

#[test]
fn reopened_start_follows_status() {
    assert!(matches!(reopened_start(206, 5000), Ok(5000)));
    assert!(matches!(reopened_start(200, 5000), Ok(0)));
    assert!(matches!(reopened_start(416, 5000), Err(StreamError::RangeStatus(416))));
}

#[test]
fn read_copies_from_the_cursor_and_advances() {
    let buffer = buffer_with(0, &[1, 2, 3, 4, 5]);
    let mut source = HttpStreamSource::open("http://host/a", 200, Some("5")).unwrap();
    let mut out = [0u8; 3];
    assert!(matches!(source.read(&buffer, &mut out, false), ReadStep::Filled { count: 3 }));
    assert_eq!(out, [1, 2, 3]);
    assert_eq!(source.position(), 3);
    let mut out = [9u8; 4];
    assert!(matches!(source.read(&buffer, &mut out, false), ReadStep::Filled { count: 2 }));
    assert_eq!(out, [4, 5, 9, 9]);
    assert_eq!(source.position(), 5);
    assert!(matches!(source.read(&buffer, &mut out, false), ReadStep::Eof));
    assert_eq!(out, [4, 5, 9, 9]);
}

#[test]
fn read_never_passes_the_end_of_the_buffer() {
    let buffer = buffer_with(100, &[7; 10]);
    let mut source = HttpStreamSource::open("http://host/a", 200, None).unwrap();
    source.set_position(105);
    let mut out = [0u8; 64];
    match source.read(&buffer, &mut out, false) {
        ReadStep::Filled { count } => {
            assert_eq!(count, 5);
            assert_eq!(source.position(), buffer.buf_end());
        }
        other => panic!("unexpected {:?}", other),
    }
    assert_eq!(&out[..5], &[7; 5]);
    assert_eq!(&out[5..], &[0; 59][..]);
}

#[test]
fn read_waits_while_the_download_runs() {
    let buffer = buffer_with(0, &[1, 2]);
    let mut source = HttpStreamSource::open("http://host/a", 200, None).unwrap();
    source.set_position(2);
    let mut out = [0u8; 4];
    assert!(matches!(source.read(&buffer, &mut out, false), ReadStep::Wait));
    assert!(matches!(source.read(&buffer, &mut out, true), ReadStep::Wait));
    assert_eq!(source.position(), 2);
}

#[test]
fn read_ends_when_the_download_is_done() {
    let mut buffer = buffer_with(0, &[1, 2]);
    buffer.finish();
    let mut source = HttpStreamSource::open("http://host/a", 200, None).unwrap();
    source.set_position(2);
    let mut out = [0u8; 4];
    assert!(matches!(source.read(&buffer, &mut out, false), ReadStep::Eof));
    assert!(matches!(source.read(&buffer, &mut out, true), ReadStep::Eof));
}

#[test]
fn read_reports_a_failure_only_after_waiting() {
    let mut buffer = buffer_with(0, &[1, 2]);
    buffer.fail("connection reset".to_string());
    let mut source = HttpStreamSource::open("http://host/a", 200, None).unwrap();
    source.set_position(2);
    let mut out = [0u8; 4];
    assert!(matches!(source.read(&buffer, &mut out, false), ReadStep::Eof));
    match source.read(&buffer, &mut out, true) {
        ReadStep::Failed { message } => assert_eq!(message, "connection reset"),
        other => panic!("unexpected {:?}", other),
    }
    source.set_position(0);
    assert!(matches!(source.read(&buffer, &mut out, false), ReadStep::Filled { count: 2 }));
    source.set_position(0);
    assert!(matches!(source.read(&buffer, &mut out, true), ReadStep::Failed { .. }));
}

#[test]
fn read_before_the_buffer_asks_for_a_reopen() {
    let buffer = buffer_with(1000, &[1, 2, 3]);
    let mut source = HttpStreamSource::open("http://host/a", 200, Some("5000")).unwrap();
    source.set_position(10);
    let mut out = [0u8; 4];
    assert!(matches!(source.read(&buffer, &mut out, false), ReadStep::Reopen { offset: 10 }));
    assert_eq!(source.position(), 10);
}

#[test]
fn read_at_content_length_is_the_end() {
    let buffer = buffer_with(0, &[1, 2, 3]);
    let mut source = HttpStreamSource::open("http://host/a", 200, Some("3")).unwrap();
    source.set_position(3);
    let mut out = [0u8; 4];
    assert!(matches!(source.read(&buffer, &mut out, false), ReadStep::Eof));
    source.set_position(7);
    assert!(matches!(source.read(&buffer, &mut out, false), ReadStep::Eof));
}

#[test]
fn seek_inside_the_window_is_free() {
    let buffer = buffer_with(0, &[0; 1000]);
    let mut source = HttpStreamSource::open("http://host/a", 200, Some("100000")).unwrap();
    source.set_position(500);
    assert_eq!(
        source.plan_seek(SeekTarget::Start(10), &buffer),
        SeekStep::Move { position: 10, reopen: false }
    );
    assert_eq!(
        source.plan_seek(SeekTarget::Current(-100), &buffer),
        SeekStep::Move { position: 400, reopen: false }
    );
    assert_eq!(
        source.plan_seek(SeekTarget::End(-1), &buffer),
        SeekStep::Move { position: 99999, reopen: false }
    );
}

#[test]
fn seek_across_a_gap_reopens() {
    let buffer = buffer_with(0, &[0; 1000]);
    let source = HttpStreamSource::open("https://host/file.flac", 200, Some("90000000")).unwrap();
    let far = 1000 + PRE_BUFFER as u64 + 1;
    assert_eq!(
        source.plan_seek(SeekTarget::Start(far), &buffer),
        SeekStep::Move { position: far, reopen: true }
    );
    assert_eq!(range_header(far), format!("bytes={}-", far));
    let near = 1000 + PRE_BUFFER as u64;
    assert_eq!(
        source.plan_seek(SeekTarget::Start(near), &buffer),
        SeekStep::Move { position: near, reopen: false }
    );
}

#[test]
fn seek_after_the_download_never_reopens() {
    let mut buffer = buffer_with(0, &[0; 1000]);
    buffer.finish();
    let source = HttpStreamSource::open("http://host/a", 200, None).unwrap();
    assert_eq!(
        source.plan_seek(SeekTarget::Start(50_000_000), &buffer),
        SeekStep::Move { position: 50_000_000, reopen: false }
    );
    assert_eq!(
        source.plan_seek(SeekTarget::End(-10), &buffer),
        SeekStep::Move { position: 990, reopen: false }
    );
}

#[test]
fn seek_from_the_end_waits_for_an_unknown_length() {
    let buffer = buffer_with(0, &[0; 1000]);
    let source = HttpStreamSource::open("http://host/a", 200, None).unwrap();
    assert_eq!(source.plan_seek(SeekTarget::End(0), &buffer), SeekStep::WaitForEnd);
    assert_eq!(source.plan_seek(SeekTarget::End(-5), &buffer), SeekStep::WaitForEnd);
}

#[test]
fn seek_below_zero_is_invalid() {
    let buffer = buffer_with(0, &[0; 10]);
    let mut source = HttpStreamSource::open("http://host/a", 200, Some("10")).unwrap();
    source.set_position(3);
    assert_eq!(source.plan_seek(SeekTarget::Current(-4), &buffer), SeekStep::Invalid);
    assert_eq!(source.plan_seek(SeekTarget::End(-11), &buffer), SeekStep::Invalid);
    assert_eq!(source.plan_seek(SeekTarget::Start(u64::MAX), &buffer), SeekStep::Invalid);
    assert_eq!(
        source.plan_seek(SeekTarget::Current(-3), &buffer),
        SeekStep::Move { position: 0, reopen: false }
    );
}

#[test]
fn worker_appends_until_aborted() {
    let mut buffer = StreamBuffer::new(64);
    assert!(!buffer.is_prebuffered());
    assert!(buffer.push_chunk(&[1, 2, 3]));
    assert_eq!(buffer.len(), 3);
    assert_eq!(buffer.data_start(), 64);
    assert_eq!(buffer.buf_end(), 67);
    buffer.request_abort();
    assert!(buffer.is_aborted());
    assert!(!buffer.push_chunk(&[4, 5]));
    assert_eq!(buffer.len(), 3);
    assert_eq!(buffer.data_start(), 64);
}

#[test]
fn prebuffer_ends_on_size_end_or_failure() {
    let mut buffer = StreamBuffer::new(0);
    buffer.push_chunk(&vec![0u8; PRE_BUFFER - 1]);
    assert!(!buffer.is_prebuffered());
    buffer.push_chunk(&[0]);
    assert!(buffer.is_prebuffered());

    let mut buffer = StreamBuffer::new(0);
    buffer.finish();
    assert!(buffer.is_done());
    assert!(buffer.is_prebuffered());
    assert!(buffer.prebuffer_error().is_none());

    let mut buffer = StreamBuffer::new(0);
    buffer.fail("timed out".to_string());
    assert!(buffer.is_prebuffered());
    assert!(buffer.has_error());
    match buffer.prebuffer_error() {
        Some(e) => assert_eq!(e.message(), "Download error during pre-buffer: timed out"),
        None => panic!("the failure is lost"),
    }
}

#[test]
fn worker_turns() {
    let mut buffer = StreamBuffer::new(10);
    assert_eq!(
        buffer.absorb(Download::Chunk(&[1, 2, 3])),
        WorkerStep { go_on: true, notify: true }
    );
    assert_eq!(buffer.len(), 3);
    assert_eq!(buffer.absorb(Download::Interrupted), WorkerStep { go_on: true, notify: false });
    assert_eq!(buffer.len(), 3);
    assert!(!buffer.is_done());
    assert_eq!(buffer.absorb(Download::End), WorkerStep { go_on: false, notify: true });
    assert!(buffer.is_done());
    assert!(!buffer.has_error());
    assert_eq!(buffer.data_start(), 10);

    let mut buffer = StreamBuffer::new(0);
    assert_eq!(
        buffer.absorb(Download::Failed("broken pipe".to_string())),
        WorkerStep { go_on: false, notify: true }
    );
    assert!(buffer.is_done());
    assert_eq!(
        buffer.prebuffer_error(),
        Some(StreamError::PreBuffer("broken pipe".to_string()))
    );
}

#[test]
fn abandoned_worker_ends_silently() {
    let mut buffer = StreamBuffer::new(0);
    buffer.absorb(Download::Chunk(&[1, 2]));
    buffer.request_abort();
    assert_eq!(
        buffer.absorb(Download::Chunk(&[3, 4])),
        WorkerStep { go_on: false, notify: false }
    );
    assert_eq!(buffer.len(), 2);
    assert!(!buffer.is_done());
}

#[test]
fn download_then_read_gives_the_bytes_in_order() {
    let body: Vec<u8> = (0..200_000u32).map(|i| (i % 251) as u8).collect();
    let mut buffer = StreamBuffer::new(0);
    let mut source = HttpStreamSource::open("http://host/a", 200, Some("200000")).unwrap();
    let mut read_back = Vec::new();
    let mut out = vec![0u8; 7000];
    for chunk in body.chunks(READ_CHUNK) {
        buffer.absorb(Download::Chunk(chunk));
        loop {
            match source.read(&buffer, &mut out, false) {
                ReadStep::Filled { count } => read_back.extend_from_slice(&out[..count]),
                ReadStep::Wait | ReadStep::Eof => break,
                other => panic!("unexpected {:?}", other),
            }
        }
    }
    buffer.absorb(Download::End);
    assert!(matches!(source.read(&buffer, &mut out, false), ReadStep::Eof));
    assert_eq!(read_back, body);
}

#[test]
fn refused_reopen_leaves_the_download_alone() {
    let mut buffer = buffer_with(100, &[1, 2, 3, 4]);
    for status in [416u16, 404, 500, 301, 0] {
        assert_eq!(buffer.reopen(status, 5000).err(), Some(StreamError::RangeStatus(status)));
        assert!(!buffer.is_aborted());
    }
    assert_eq!(
        StreamError::RangeStatus(416).message(),
        "Range request returned status 416"
    );
    assert!(buffer.push_chunk(&[5, 6]));
    assert_eq!(buffer.len(), 6);
    assert_eq!(buffer.data_start(), 100);
    let mut source = HttpStreamSource::open("http://host/a", 200, None).unwrap();
    source.set_position(102);
    let mut out = [0u8; 8];
    assert!(matches!(source.read(&buffer, &mut out, false), ReadStep::Filled { count: 4 }));
    assert_eq!(&out[..4], &[3, 4, 5, 6]);
}

#[test]
fn accepted_reopen_abandons_the_old_buffer() {
    let mut old = buffer_with(0, &[1, 2, 3, 4]);
    let fresh = old.reopen(206, 5000).unwrap();
    assert!(old.is_aborted());
    assert_eq!(old.len(), 4);
    assert!(!old.push_chunk(&[5]));
    assert_eq!(fresh.data_start(), 5000);
    assert_eq!(fresh.len(), 0);
    assert!(!fresh.is_aborted());
    assert!(!fresh.is_done());
    assert!(!fresh.has_error());

    let mut old = buffer_with(0, &[1, 2, 3, 4]);
    let fresh = old.reopen(200, 5000).unwrap();
    assert!(old.is_aborted());
    assert_eq!(fresh.data_start(), 0);
}
