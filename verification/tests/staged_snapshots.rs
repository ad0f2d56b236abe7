//! Capturing and restoring through the staged interface, against a small engine
//! that keeps rows of text. A record of that engine is a tag, a two-byte length
//! and a payload.
use ghostty::snapshot::capture::{
    Capture, CaptureEvent, CaptureEventKind, CaptureOptions, RawCaptureEvent, RawEventKind, Screen,
    CaptureWriter, RECORD_HEADER_BYTES,
};
use ghostty::snapshot::decoder::{decode_snapshot, Decoder, PageReply};
use ghostty::snapshot::encode::{encode_snapshot, encode_snapshot_alloc, encode_snapshot_buf};
use ghostty::snapshot::error::{
    from_optional_result, from_optional_result_with_len, from_result, open_handle, Error,
};
use ghostty::snapshot::feed::{FeedDecoder, FeedIncrementalDecoder, FeedReader, NextReply};
use ghostty::status::ResultCode;

const MAX_RECORD_BYTES: usize = 64 * 1024;
const ROWS_PER_PAGE: usize = 100;

#[derive(Clone, Debug, PartialEq)]
struct Grid {
    visible: Vec<String>,
    history: Vec<Vec<String>>,
}

fn source_terminal() -> Grid {
    let rows: Vec<String> = (0..3000).map(|row| format!("row {row:03}")).collect();
    let split = rows.len() - 3;
    let history = rows[..split].chunks(ROWS_PER_PAGE).map(|c| c.to_vec()).collect();
    Grid { visible: rows[split..].to_vec(), history }
}

fn record(tag: u8, payload: &[u8]) -> Vec<u8> {
    let mut out = vec![tag];
    out.extend_from_slice(&(payload.len() as u16).to_le_bytes());
    out.extend_from_slice(payload);
    out
}

/// All records of a snapshot with what the engine reports about them.
fn records(grid: &Grid) -> Vec<(Vec<u8>, RawCaptureEvent)> {
    let mut out = Vec::new();
    let plain = |kind, written| RawCaptureEvent { kind, screen: None, rows: 0, remaining: 0, written };
    let envelope = record(b'E', b"");
    out.push((envelope.clone(), plain(RawEventKind::Record, envelope.len())));
    let body = record(b'S', grid.visible.join("\n").as_bytes());
    out.push((body.clone(), plain(RawEventKind::Record, body.len())));
    let ready = record(b'Y', b"ready");
    out.push((ready.clone(), plain(RawEventKind::Ready, ready.len())));
    let count = grid.history.len();
    for (i, page) in grid.history.iter().rev().enumerate() {
        let bytes = record(b'P', page.join("\n").as_bytes());
        out.push((
            bytes.clone(),
            RawCaptureEvent {
                kind: RawEventKind::HistoryPage,
                screen: Some(Screen::Primary),
                rows: page.len(),
                remaining: (count - 1 - i) as u32,
                written: bytes.len(),
            },
        ));
    }
    let finish = record(b'F', b"finish");
    out.push((finish.clone(), plain(RawEventKind::Finish, finish.len())));
    out
}

struct Captured {
    bytes: Vec<u8>,
    ready: Vec<u8>,
    history: Vec<(Vec<u8>, Screen, usize, u32)>,
    finish: Vec<u8>,
}

/// Emits one record through the capture, in two writes, with the engine's own
/// limits applied.
fn emit(
    capture: &mut Capture<()>,
    buf: &mut Vec<u8>,
    item: &(Vec<u8>, RawCaptureEvent),
    options: CaptureOptions,
    pages: &mut usize,
) -> Result<CaptureEvent, Error> {
    capture.begin_next(buf)?;
    let (bytes, raw) = item;
    let mut code = ResultCode::Success;
    if raw.kind == RawEventKind::HistoryPage {
        if *pages == options.max_pages {
            code = ResultCode::LimitExceeded;
        } else {
            *pages += 1;
        }
    }
    if bytes.len() > options.max_record_bytes {
        code = ResultCode::LimitExceeded;
    }
    if code == ResultCode::Success {
        let (head, tail) = bytes.split_at(bytes.len() / 2);
        assert!(capture.write(buf, head));
        assert!(capture.write(buf, tail));
    }
    capture.next(buf.len(), code, *raw)
}

fn capture(grid: &Grid, max_pages: usize) -> Result<Captured, Error> {
    let options = CaptureOptions { max_record_bytes: MAX_RECORD_BYTES, max_pages };
    let mut capture = Capture::new(options, ResultCode::Success, Some(()))?;
    let mut buf = vec![0u8; MAX_RECORD_BYTES];
    let mut pages = 0;
    let mut out = Captured { bytes: vec![], ready: vec![], history: vec![], finish: vec![] };
    let mut pending = Vec::new();
    let mut saw_ready = false;
    for item in records(grid) {
        let event = emit(&mut capture, &mut buf, &item, options, &mut pages)?;
        let record = buf[..event.written()].to_vec();
        out.bytes.extend_from_slice(&record);
        if saw_ready {
            pending.extend_from_slice(&record);
        } else {
            out.ready.extend_from_slice(&record);
        }
        match event {
            CaptureEvent::Ready { .. } => saw_ready = true,
            CaptureEvent::HistoryPage { screen, rows, remaining, .. } => {
                out.history.push((std::mem::take(&mut pending), screen, rows, remaining));
            }
            CaptureEvent::Finish { .. } => out.finish = std::mem::take(&mut pending),
            CaptureEvent::Record { .. } => {}
        }
    }
    Ok(out)
}

/// Pulls one record out of a source, as the engine does.
fn pull(read: &mut dyn FnMut(&mut [u8]) -> usize) -> Option<(u8, Vec<u8>)> {
    let mut fill = |want: usize| -> Option<Vec<u8>> {
        let mut out = vec![0u8; want];
        let mut have = 0;
        while have < want {
            let n = read(&mut out[have..]);
            if n == 0 {
                return None;
            }
            have += n;
        }
        Some(out)
    };
    let head = fill(3)?;
    let len = u16::from_le_bytes([head[1], head[2]]) as usize;
    Some((head[0], fill(len)?))
}

fn lines(payload: &[u8]) -> Vec<String> {
    String::from_utf8(payload.to_vec()).unwrap().split('\n').map(str::to_owned).collect()
}

fn decode_ready(mut decoder: FeedDecoder<()>) -> Result<FeedIncrementalDecoder<(), Grid>, Error> {
    let mut visible = Vec::new();
    loop {
        match pull(&mut |buf| decoder.read(buf)) {
            Some((b'S', payload)) => visible = lines(&payload),
            Some((b'Y', _)) => {
                return decoder.ready(ResultCode::Success, Some(Grid { visible, history: vec![] }))
            }
            Some(_) => {}
            None => return decoder.ready(ResultCode::InvalidValue, None),
        }
    }
}

fn reply(code: ResultCode, rows: usize, remaining: u32) -> NextReply {
    NextReply {
        code,
        screen: (ResultCode::Success, Some(Screen::Primary)),
        rows: (ResultCode::Success, rows),
        remaining: (ResultCode::Success, remaining),
    }
}

fn decode_next(
    decoder: &mut FeedIncrementalDecoder<(), Grid>,
    total: usize,
) -> Result<Option<ghostty::snapshot::feed::FeedProgress>, Error> {
    decoder.may_advance()?;
    match pull(&mut |buf| decoder.read(buf)) {
        Some((b'P', payload)) => {
            let page = lines(&payload);
            let rows = page.len();
            decoder.terminal_mut().history.push(page);
            let remaining = (total - decoder.terminal().history.len()) as u32;
            decoder.next(reply(ResultCode::Success, rows, remaining))
        }
        Some((b'F', _)) => decoder.next(reply(ResultCode::NoValue, 0, 0)),
        _ => decoder.next(reply(ResultCode::InvalidValue, 0, 0)),
    }
}

#[test]
fn bounded_capture_matches_one_shot_and_owned_feed_restores_history() {
    let terminal = source_terminal();
    let captured = capture(&terminal, 1000).expect("progressive capture");
    assert!(captured.history.len() > 1, "capture should contain multiple history pages");

    let eager: Vec<u8> = records(&terminal).into_iter().flat_map(|(bytes, _)| bytes).collect();
    assert_eq!(captured.bytes, eager);

    let mut decoder =
        FeedDecoder::new(captured.bytes.len(), ResultCode::Success, Some(())).expect("feed decoder");
    for fragment in captured.ready.chunks(37) {
        decoder.feed(fragment).expect("READY fragment");
    }
    assert_eq!(decoder.staged_bytes(), captured.ready.len());
    let mut decoder = decode_ready(decoder).expect("authenticated READY");
    assert_eq!(decoder.staged_bytes(), 0, "READY storage is released");
    decoder.terminal_mut().visible.push("LIVE".to_owned());

    let total = captured.history.len();
    for (unit, screen, rows, remaining) in &captured.history {
        for fragment in unit.chunks(29) {
            decoder.feed(fragment).expect("history fragment");
        }
        let progress = decode_next(&mut decoder, total).expect("valid history").expect("page");
        assert_eq!(progress.screen, *screen);
        assert_eq!(progress.rows, *rows);
        assert_eq!(progress.remaining, *remaining);
        assert_eq!(decoder.staged_bytes(), 0, "page storage is released");
    }
    decoder.feed(&captured.finish).expect("FINISH bytes");
    assert!(decode_next(&mut decoder, total).expect("authenticated FINISH").is_none());
    let restored = decoder.into_terminal();
    assert_eq!(restored.history.len(), total);
    let mut newest_first = terminal.history.clone();
    newest_first.reverse();
    assert_eq!(restored.history, newest_first);
    assert_eq!(restored.visible.last().unwrap(), "LIVE");
}

#[test]
fn staged_decoder_rejects_truncated_finish_instead_of_finishing() {
    let terminal = source_terminal();
    let captured = capture(&terminal, 1000).expect("capture");
    let mut decoder =
        FeedDecoder::new(captured.bytes.len(), ResultCode::Success, Some(())).expect("decoder");
    decoder.feed(&captured.ready).expect("READY");
    let mut decoder = decode_ready(decoder).expect("ready");
    let total = captured.history.len();
    for (unit, ..) in &captured.history {
        decoder.feed(unit).expect("history");
        assert!(decode_next(&mut decoder, total).expect("page").is_some());
    }
    decoder.feed(&captured.finish[..captured.finish.len() - 1]).expect("truncated FINISH");
    assert!(matches!(decode_next(&mut decoder, total), Err(Error::InvalidValue)));
    assert_eq!(decoder.staged_bytes(), 0, "failed staging is released");
    assert!(matches!(decoder.feed(b"more"), Err(Error::InvalidValue)));
    assert_eq!(decoder.may_advance(), Err(Error::InvalidValue));
}

#[test]
fn staged_decoder_rejects_a_truncated_history_page() {
    let terminal = source_terminal();
    let captured = capture(&terminal, 1000).expect("capture");
    let mut decoder =
        FeedDecoder::new(captured.bytes.len(), ResultCode::Success, Some(())).expect("decoder");
    decoder.feed(&captured.ready).expect("READY");
    let mut decoder = decode_ready(decoder).expect("ready");
    let first = &captured.history[0].0;
    decoder.feed(&first[..first.len() - 1]).expect("truncated history");
    assert!(matches!(decode_next(&mut decoder, 1), Err(Error::InvalidValue)));
    assert_eq!(decoder.staged_bytes(), 0, "failed staging is released");
}

#[test]
fn capture_page_limit_fails_before_emitting_an_excess_page() {
    let terminal = source_terminal();
    let options = CaptureOptions { max_record_bytes: MAX_RECORD_BYTES, max_pages: 1 };
    let mut capture = Capture::new(options, ResultCode::Success, Some(())).expect("capture");
    let mut buf = vec![0; MAX_RECORD_BYTES];
    let mut emitted = 0;
    let mut pages = 0;
    let mut limited = false;
    for item in records(&terminal) {
        match emit(&mut capture, &mut buf, &item, options, &mut emitted) {
            Ok(CaptureEvent::HistoryPage { .. }) => pages += 1,
            Err(Error::LimitExceeded) => {
                limited = true;
                break;
            }
            Ok(CaptureEvent::Finish { .. }) => panic!("history unexpectedly fit one page"),
            Ok(_) => {}
            Err(error) => panic!("unexpected capture error: {error:?}"),
        }
    }
    assert!(limited);
    assert_eq!(pages, 1);
}

#[test]
fn capture_record_limit_reports_limit_exceeded() {
    let terminal = source_terminal();
    let options = CaptureOptions { max_record_bytes: RECORD_HEADER_BYTES, max_pages: 1000 };
    let mut capture = Capture::new(options, ResultCode::Success, Some(())).expect("capture");
    let mut buf = vec![0; RECORD_HEADER_BYTES];
    let mut pages = 0;
    let all = records(&terminal);
    assert!(matches!(
        emit(&mut capture, &mut buf, &all[0], options, &mut pages),
        Ok(CaptureEvent::Record { .. })
    ));
    assert!(matches!(
        emit(&mut capture, &mut buf, &all[1], options, &mut pages),
        Err(Error::LimitExceeded)
    ));
}

#[test]
fn capture_options_are_validated() {
    assert_eq!(CaptureOptions { max_record_bytes: 10, max_pages: 1 }.validate(), Ok(()));
    let small = CaptureOptions { max_record_bytes: 9, max_pages: 1 };
    assert_eq!(small.validate(), Err(Error::InvalidValue));
    let none = CaptureOptions { max_record_bytes: 10, max_pages: 0 };
    assert_eq!(none.validate(), Err(Error::InvalidValue));
    assert!(matches!(Capture::new(none, ResultCode::Success, Some(())), Err(Error::InvalidValue)));
}

#[test]
fn capture_refuses_a_small_buffer_before_the_engine_is_asked() {
    let options = CaptureOptions { max_record_bytes: 16, max_pages: 1 };
    let mut capture = Capture::new(options, ResultCode::Success, Some(())).unwrap();
    assert_eq!(capture.begin_next(&[0u8; 15]), Err(Error::OutOfSpace { required: 16 }));
    assert_eq!(capture.begin_next(&[0u8; 16]), Ok(()));
}

#[test]
fn capture_creation_needs_a_handle() {
    let options = CaptureOptions { max_record_bytes: 16, max_pages: 1 };
    assert!(matches!(
        Capture::<()>::new(options, ResultCode::Success, None),
        Err(Error::OutOfMemory)
    ));
    assert!(matches!(
        Capture::new(options, ResultCode::IoError, Some(())),
        Err(Error::IoError)
    ));
}

#[test]
fn capture_report_has_to_agree_with_the_bytes() {
    let options = CaptureOptions { max_record_bytes: 16, max_pages: 1 };
    let mut capture = Capture::new(options, ResultCode::Success, Some(())).unwrap();
    let mut buf = [0u8; 16];
    let mut raw = RawCaptureEvent {
        kind: RawEventKind::Record,
        screen: None,
        rows: 0,
        remaining: 0,
        written: 3,
    };
    capture.begin_next(&buf).unwrap();
    assert!(capture.write(&mut buf, b"ab"));
    assert_eq!(capture.next(16, ResultCode::Success, raw), Err(Error::InvalidValue));

    capture.begin_next(&buf).unwrap();
    assert!(capture.write(&mut buf, b"ab"));
    assert!(capture.write(&mut buf, b"c"));
    assert_eq!(&buf[..3], b"abc");
    assert_eq!(
        capture.next(16, ResultCode::Success, raw),
        Ok(CaptureEvent::Record { written: 3 })
    );

    raw.kind = RawEventKind::HistoryPage;
    capture.begin_next(&buf).unwrap();
    assert!(capture.write(&mut buf, b"abc"));
    assert_eq!(capture.next(16, ResultCode::Success, raw), Err(Error::InvalidValue));

    raw.kind = RawEventKind::Unknown;
    capture.begin_next(&buf).unwrap();
    assert!(capture.write(&mut buf, b"abc"));
    assert_eq!(capture.next(16, ResultCode::Success, raw), Err(Error::InvalidValue));
}

#[test]
fn capture_events_tell_kind_and_size() {
    let page = CaptureEvent::HistoryPage { screen: Screen::Alternate, rows: 4, remaining: 2, written: 9 };
    assert_eq!(page.kind(), CaptureEventKind::HistoryPage);
    assert_eq!(page.written(), 9);
    assert_eq!(CaptureEvent::Ready { written: 5 }.kind(), CaptureEventKind::Ready);
    assert_eq!(CaptureEvent::Finish { written: 6 }.kind(), CaptureEventKind::Finish);
    assert_eq!(CaptureEvent::Finish { written: 6 }.written(), 6);
    assert_eq!(CaptureEvent::Record { written: 7 }.kind(), CaptureEventKind::Record);
}

#[test]
fn writer_admits_only_what_fits() {
    let mut writer = CaptureWriter::idle();
    let mut buf = [0u8; 4];
    assert!(!writer.write(&mut buf, b"a"));
    writer.begin(&buf);
    assert!(writer.write(&mut buf, b"abc"));
    assert!(!writer.write(&mut buf, b"de"));
    assert_eq!(&buf, b"abc\0");
    assert!(writer.write(&mut buf, b"d"));
    assert_eq!(&buf, b"abcd");
    assert!(writer.write(&mut buf, b""));
    writer.end();
    assert!(!writer.write(&mut buf, b""));
}

#[test]
fn staging_is_bounded_and_refusals_change_nothing() {
    assert!(matches!(FeedReader::new(0), Err(Error::InvalidValue)));
    let mut reader = FeedReader::new(4).unwrap();
    assert_eq!(reader.feed(b"ab"), Ok(()));
    assert_eq!(reader.feed(b"cde"), Err(Error::LimitExceeded));
    assert_eq!(reader.staged_bytes(), 2);
    assert_eq!(reader.feed(b"cd"), Ok(()));
    assert_eq!(reader.stage(b"", false), Err(Error::OutOfMemory));
    let mut out = [0u8; 3];
    assert_eq!(reader.read(&mut out), 3);
    assert_eq!(&out, b"abc");
    let mut rest = [9u8; 3];
    assert_eq!(reader.read(&mut rest), 1);
    assert_eq!(&rest, b"d\x09\x09");
    assert_eq!(reader.read(&mut rest), 0);
    assert!(reader.finish_operation());
    assert_eq!(reader.staged_bytes(), 0);
}

#[test]
fn fragments_join() {
    let mut one = FeedReader::new(16).unwrap();
    one.feed(b"hello ").unwrap();
    one.feed(b"world").unwrap();
    let mut two = FeedReader::new(16).unwrap();
    two.feed(b"hello world").unwrap();
    let (mut a, mut b) = ([0u8; 16], [0u8; 16]);
    assert_eq!(one.read(&mut a), two.read(&mut b));
    assert_eq!(a, b);
}

#[test]
fn ready_with_trailing_bytes_is_refused() {
    let mut decoder = FeedDecoder::new(64, ResultCode::Success, Some(())).unwrap();
    decoder.feed(b"ready-and-more").unwrap();
    let mut buf = [0u8; 5];
    decoder.read(&mut buf);
    assert!(matches!(decoder.ready(ResultCode::Success, Some(1u8)), Err(Error::InvalidValue)));
}

#[test]
fn ready_without_a_terminal_is_out_of_memory() {
    let decoder = FeedDecoder::new(64, ResultCode::Success, Some(())).unwrap();
    assert!(matches!(decoder.ready(ResultCode::Success, None::<u8>), Err(Error::OutOfMemory)));
}

#[test]
fn feed_decoder_creation_checks_limit_and_handle() {
    assert!(matches!(FeedDecoder::new(0, ResultCode::Success, Some(())), Err(Error::InvalidValue)));
    assert!(matches!(
        FeedDecoder::<()>::new(1, ResultCode::Success, None),
        Err(Error::OutOfMemory)
    ));
    let mut decoder = FeedDecoder::new(1, ResultCode::Success, Some(())).unwrap();
    assert!(decoder.set_max_continuation_bytes(ResultCode::Success).is_ok());
    assert!(matches!(
        decoder.set_max_continuation_bytes(ResultCode::InvalidValue),
        Err(Error::InvalidValue)
    ));
}

#[test]
fn finished_decoder_takes_nothing_more() {
    let decoder = FeedDecoder::new(64, ResultCode::Success, Some(())).unwrap();
    let mut decoder = decoder.ready(ResultCode::Success, Some(7u8)).unwrap();
    assert_eq!(decoder.next(reply(ResultCode::NoValue, 0, 0)), Ok(None));
    assert!(matches!(decoder.feed(b"x"), Err(Error::InvalidValue)));
    assert_eq!(decoder.next(reply(ResultCode::NoValue, 0, 0)), Err(Error::InvalidValue));
    assert_eq!(decoder.into_terminal(), 7);
}

#[test]
fn fragments_can_be_fed_in_one_chain() {
    let mut decoder = FeedDecoder::new(4, ResultCode::Success, Some(())).unwrap();
    let fed = decoder
        .set_max_continuation_bytes(ResultCode::Success)
        .and_then(|d| d.feed(b"re"))
        .and_then(|d| d.feed(b"ad"))
        .expect("both fragments");
    assert_eq!(fed.staged_bytes(), 4);
    assert!(matches!(fed.feed(b"y"), Err(Error::LimitExceeded)));
    let mut buf = [0u8; 4];
    assert_eq!(decoder.read(&mut buf), 4);
    assert_eq!(&buf, b"read");
    let mut decoder = decoder.ready(ResultCode::Success, Some(7u8)).unwrap();
    let fed = decoder.feed(b"p").and_then(|d| d.feed(b"age")).expect("a page");
    assert_eq!(fed.staged_bytes(), 4);
}

#[test]
fn empty_fragments_are_always_taken() {
    let mut decoder = FeedDecoder::new(2, ResultCode::Success, Some(())).unwrap();
    assert!(decoder.feed(b"").is_ok());
    decoder.feed(b"ab").expect("at the limit");
    assert!(decoder.feed(b"").is_ok());
    assert_eq!(decoder.staged_bytes(), 2);
    let mut buf = [0u8; 2];
    decoder.read(&mut buf);
    let mut decoder = decoder.ready(ResultCode::Success, Some(7u8)).unwrap();
    assert!(decoder.feed(b"").is_ok());
    assert_eq!(decoder.staged_bytes(), 0);
}

#[test]
fn unknown_screen_and_failed_queries_are_reported() {
    let mut unknown = reply(ResultCode::Success, 1, 2);
    unknown.screen = (ResultCode::Success, None);
    assert_eq!(unknown.into_progress(), Err(Error::InvalidValue));
    let mut failed = reply(ResultCode::Success, 1, 2);
    failed.rows = (ResultCode::IoError, 0);
    assert_eq!(failed.into_progress(), Err(Error::IoError));
    let mut last = reply(ResultCode::Success, 1, 2);
    last.remaining = (ResultCode::LimitExceeded, 0);
    assert_eq!(last.into_progress(), Err(Error::LimitExceeded));
}

#[test]
fn codes_become_errors() {
    assert_eq!(from_result(ResultCode::Success), Ok(()));
    assert_eq!(from_result(ResultCode::OutOfMemory), Err(Error::OutOfMemory));
    assert_eq!(from_result(ResultCode::InvalidValue), Err(Error::InvalidValue));
    assert_eq!(from_result(ResultCode::OutOfSpace), Err(Error::OutOfSpace { required: 0 }));
    assert_eq!(from_result(ResultCode::NoValue), Err(Error::InvalidValue));
    assert_eq!(from_result(ResultCode::LimitExceeded), Err(Error::LimitExceeded));
    assert_eq!(from_result(ResultCode::IoError), Err(Error::IoError));
    assert_eq!(from_result(ResultCode::Unknown), Err(Error::InvalidValue));
    assert_eq!(from_optional_result(ResultCode::NoValue, 1), Ok(None));
    assert_eq!(from_optional_result(ResultCode::Success, 1), Ok(Some(1)));
    assert_eq!(
        from_optional_result_with_len(ResultCode::OutOfSpace, 9),
        Err(Error::OutOfSpace { required: 9 })
    );
    assert_eq!(open_handle(ResultCode::Success, Some(4)), Ok(4));
    assert_eq!(open_handle::<u8>(ResultCode::Success, None), Err(Error::OutOfMemory));
}

#[test]
fn one_shot_encoding_reports_sizes() {
    assert_eq!(encode_snapshot(ResultCode::IoError), Err(Error::IoError));
    assert_eq!(encode_snapshot(ResultCode::Success), Ok(()));
    assert_eq!(encode_snapshot_alloc(ResultCode::Success, Some(vec![1u8])), Ok(Some(vec![1u8])));
    assert_eq!(encode_snapshot_alloc::<Vec<u8>>(ResultCode::Success, None), Ok(None));
    assert_eq!(encode_snapshot_alloc(ResultCode::NoValue, Some(vec![1u8])), Ok(None));
    assert_eq!(
        encode_snapshot_buf(ResultCode::OutOfSpace, 77),
        Err(Error::OutOfSpace { required: 77 })
    );
    assert_eq!(encode_snapshot_buf(ResultCode::Success, 77), Ok(Some(77)));
}

#[test]
fn short_buffers_report_one_size() {
    let snapshot = b"whole snapshot";
    let encode = |buf: &mut [u8]| {
        if buf.len() < snapshot.len() {
            return encode_snapshot_buf(ResultCode::OutOfSpace, snapshot.len());
        }
        buf[..snapshot.len()].copy_from_slice(snapshot);
        encode_snapshot_buf(ResultCode::Success, snapshot.len())
    };
    for len in 0..snapshot.len() {
        assert_eq!(encode(&mut vec![0; len]), Err(Error::OutOfSpace { required: snapshot.len() }));
    }
    for len in snapshot.len()..snapshot.len() + 3 {
        let mut buf = vec![0; len];
        assert_eq!(encode(&mut buf), Ok(Some(snapshot.len())));
        assert_eq!(&buf[..snapshot.len()], snapshot);
    }
}

#[test]
fn pull_decoder_passes_through_its_states() {
    let mut decoder = Decoder::new(ResultCode::Success, Some('d')).unwrap_or_else(|_| panic!());
    assert!(matches!(Decoder::<char>::new(ResultCode::Success, None), Err(Error::OutOfMemory)));
    assert_eq!(decoder.max_continuation_bytes(ResultCode::Success, 65), Ok(65));
    let capped = decoder.set_max_continuation_bytes(ResultCode::Success).unwrap_or_else(|_| panic!());
    assert_eq!(*capped.inner(), 'd');
    assert!(matches!(
        decoder.set_max_continuation_bytes(ResultCode::LimitExceeded),
        Err(Error::LimitExceeded)
    ));
    assert_eq!(decoder.source_offset(ResultCode::InvalidValue, 3), Err(Error::InvalidValue));
    assert_eq!(decoder.history_rows_primary(ResultCode::Success, 8), Ok(8));
    assert_eq!(decoder.history_rows_alternate(ResultCode::NoValue, 8), Ok(None));
    let mut next = decoder.ready(ResultCode::Success, Some("grid".to_owned())).unwrap_or_else(|_| panic!());
    assert_eq!(*next.decoder().inner(), 'd');
    let page = PageReply {
        screen: (ResultCode::Success, Some(Screen::Alternate)),
        rows: (ResultCode::Success, 12),
        remaining: (ResultCode::Success, 1),
    };
    let progress = next.next(ResultCode::Success, page).unwrap().unwrap();
    assert_eq!(progress.screen(), Ok(Screen::Alternate));
    assert_eq!(progress.rows(), Ok(12));
    assert_eq!(progress.remaining(), Ok(1));
    let behind = progress.as_decoder();
    assert_eq!(behind.source_offset(ResultCode::Success, 40), Ok(40));
    assert_eq!(*behind.inner(), 'd');
    for _ in 0..3 {
        assert!(next.next(ResultCode::NoValue, page).unwrap().is_none());
        assert_eq!(next.terminal(), "grid");
    }
    next.terminal_mut().push('!');
    assert_eq!(next.terminal(), "grid!");
    assert_eq!(next.into_terminal(), "grid!");
    let other = Decoder::new(ResultCode::Success, Some('d')).unwrap_or_else(|_| panic!());
    assert_eq!(other.decode(ResultCode::Success, Some(5)), Ok(5));
}

#[test]
fn restoring_tells_where_the_snapshot_ends() {
    let transport = b"snapshotnext message";
    let restored = decode_snapshot(ResultCode::Success, Some("terminal"), (ResultCode::Success, 8));
    let restored = restored.unwrap_or_else(|_| panic!());
    assert_eq!(restored.terminal, "terminal");
    assert_eq!(&transport[restored.consumed..], b"next message");

    let invalid = decode_snapshot(ResultCode::InvalidValue, Some(()), (ResultCode::Success, 8));
    assert!(matches!(invalid, Err(Error::InvalidValue)));
    let missing = decode_snapshot::<()>(ResultCode::Success, None, (ResultCode::Success, 8));
    assert!(matches!(missing, Err(Error::OutOfMemory)));
    let unknown = decode_snapshot(ResultCode::Success, Some(()), (ResultCode::LimitExceeded, 0));
    assert!(matches!(unknown, Err(Error::LimitExceeded)));
}
