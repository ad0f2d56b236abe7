//! The incremental interface, against a small engine: a snapshot is an envelope, a
//! state record, a continuation, READY, history pages and FINISH, each a tag, a
//! length and a payload.
use ghostty::snapshot::incremental::capabilities::{
    capabilities, library_str, CapabilitiesReply, LibraryText,
};
use ghostty::snapshot::incremental::capture::{
    Capture, CaptureEventKind, CaptureOptions, CaptureReply, RawCaptureKind,
};
use ghostty::snapshot::incremental::decode::{
    AfterReadyStep, ContinuationDecoder, DecodeEventKind, DecodeFailure, DecodeReply, DecodeStep,
    DecodedStream, Decoder, DecoderOptions, HandedTerminal, TakeReply,
};
use ghostty::snapshot::incremental::history::{
    HistoryEvent, HistoryLease, HistoryOptions, HistoryReply, ImportReply, LeaseReply,
    LiveHistoryCursor, RawHistoryKind, Release, TransferReply,
};
use ghostty::snapshot::incremental::status::{
    from_status, open_handle, CapabilityToken, CheckpointToken, Error, ScreenKey, SnapshotStatus,
};
use std::cell::RefCell;
use std::rc::Rc;

const ABI_VERSION: u32 = 1;
const CODEC_VERSION: u16 = 2;

/// What the small engine keeps: the text written so far.
#[derive(Clone, Debug, PartialEq)]
struct Grid {
    text: Vec<u8>,
    pages: Vec<Vec<u8>>,
}

fn grid(text: &[u8]) -> Grid {
    Grid { text: text.to_vec(), pages: vec![b"older".to_vec(), b"oldest".to_vec()] }
}

fn records(source: &Grid) -> Vec<(RawCaptureKind, Vec<u8>)> {
    let record = |tag: u8, payload: &[u8]| {
        let mut out = vec![tag, payload.len() as u8];
        out.extend_from_slice(payload);
        out
    };
    let mut out = vec![
        (RawCaptureKind::Record, record(b'E', b"")),
        (RawCaptureKind::Record, record(b'S', &source.text)),
        (RawCaptureKind::Ready, record(b'Y', b"digest")),
        (RawCaptureKind::HistoryBegin, record(b'H', &[source.pages.len() as u8])),
    ];
    for page in &source.pages {
        out.push((RawCaptureKind::HistoryPage, record(b'P', page)));
    }
    out.push((RawCaptureKind::Finish, record(b'F', b"")));
    out
}

fn capture_reply(status: SnapshotStatus, kind: RawCaptureKind, size: usize) -> CaptureReply {
    CaptureReply {
        status,
        kind,
        codec_version: CODEC_VERSION,
        written: if status == SnapshotStatus::Success { size } else { 0 },
        required_bytes: size,
        screen_key: 0,
        index: 0,
        count: 2,
        checkpoint: b"digest".to_vec(),
    }
}

/// One step of the engine's capture.
fn capture_next(item: &(RawCaptureKind, Vec<u8>), buffer: &mut [u8]) -> CaptureReply {
    if buffer.len() < item.1.len() {
        return capture_reply(SnapshotStatus::OutOfSpace, item.0, item.1.len());
    }
    buffer[..item.1.len()].copy_from_slice(&item.1);
    capture_reply(SnapshotStatus::Success, item.0, item.1.len())
}

fn capture_all(source: &Grid) -> Vec<u8> {
    let mut capture = Capture::new(SnapshotStatus::Success, Some(())).unwrap_or_else(|_| panic!());
    let mut all = Vec::new();
    for item in records(source) {
        let required = match capture.next(&[], capture_next(&item, &mut [])) {
            Err(Error::OutOfSpace { required_bytes, required_rows: 0 }) => required_bytes,
            _ => panic!("zero-byte capture probe"),
        };
        assert!(required > 0);
        if required > 1 {
            let mut short = vec![0; required - 1];
            let reply = capture_next(&item, &mut short);
            assert_eq!(
                capture.next(&short, reply).err(),
                Some(Error::OutOfSpace { required_bytes: required, required_rows: 0 })
            );
        }
        let mut record = vec![0; required];
        let reply = capture_next(&item, &mut record);
        let event = capture.next(&record, reply).unwrap_or_else(|_| panic!("exact record buffer"));
        assert_eq!(event.record.len(), required);
        assert_eq!(event.codec_version, CODEC_VERSION);
        all.extend_from_slice(event.record);
    }
    let released = capture.release();
    assert!(released.abort);
    all
}

/// The engine's side of decoding.
#[derive(Debug, Default)]
struct Engine {
    buffered: Vec<u8>,
    text: Vec<u8>,
    pages: Vec<Vec<u8>>,
}

impl Engine {
    fn push(&mut self, data: &[u8]) -> DecodeReply {
        let mut reply = DecodeReply {
            status: SnapshotStatus::Success,
            kind: DecodeEventKind::NeedInput,
            consumed: 0,
            needed: 0,
            codec_version: CODEC_VERSION,
            screen_key: 0,
            index: 0,
            count: 2,
            retained: true,
        };
        if data.is_empty() {
            reply.status = SnapshotStatus::Truncated;
            return reply;
        }
        for byte in data {
            self.buffered.push(*byte);
            reply.consumed += 1;
            if self.buffered.len() >= 2 && self.buffered.len() == 2 + self.buffered[1] as usize {
                let record = std::mem::take(&mut self.buffered);
                reply.kind = match record[0] {
                    b'Y' => DecodeEventKind::Ready,
                    b'H' => DecodeEventKind::HistoryBegin,
                    b'P' => {
                        reply.index = self.pages.len() as u32;
                        self.pages.push(record[2..].to_vec());
                        DecodeEventKind::HistoryPage
                    }
                    b'F' => DecodeEventKind::Finish,
                    b'S' => {
                        self.text = record[2..].to_vec();
                        DecodeEventKind::Progress
                    }
                    _ => DecodeEventKind::Progress,
                };
                return reply;
            }
        }
        reply.needed = 1;
        reply
    }

    fn terminal(&self) -> Grid {
        Grid { text: self.text.clone(), pages: vec![] }
    }
}

enum DriveState {
    Before(Decoder<u8>),
    After(DecodedStream<u8, Grid>),
    Empty,
}

fn decode_with_cut(data: &[u8], cut: usize, live: bool) -> (Grid, usize) {
    let mut engine = Engine::default();
    let mut state =
        DriveState::Before(Decoder::new(SnapshotStatus::Success, Some(9u8)).unwrap_or_else(|_| panic!()));
    let mut offset = 0;
    let mut boundary = cut.min(data.len());
    let mut wrote_live = false;
    loop {
        if offset == boundary && boundary != data.len() {
            boundary = data.len();
        }
        assert!(offset < boundary, "decoder did not reach FINISH");
        let fragment = &data[offset..boundary];
        let reply = engine.push(fragment);
        state = match std::mem::replace(&mut state, DriveState::Empty) {
            DriveState::Before(decoder) => match decoder.push(fragment, reply) {
                (Ok(DecodeStep::NeedInput { decoder, progress }), None)
                | (Ok(DecodeStep::Progress { decoder, progress }), None) => {
                    assert!(progress.consumed > 0);
                    offset += progress.consumed;
                    DriveState::Before(decoder)
                }
                (Ok(DecodeStep::Ready { decoder, progress }), None) => {
                    assert!(progress.consumed > 0);
                    offset += progress.consumed;
                    let take = TakeReply {
                        status: SnapshotStatus::Success,
                        terminal: HandedTerminal::Usable(engine.terminal()),
                        codec_version: CODEC_VERSION,
                    };
                    let (continuation, released) = decoder.take_terminal(take);
                    assert!(released.is_none());
                    let continuation =
                        continuation.unwrap_or_else(|_| panic!("READY terminal transfer"));
                    DriveState::After(
                        continuation
                            .replay(SnapshotStatus::Success)
                            .unwrap_or_else(|_| panic!("one-shot continuation replay")),
                    )
                }
                _ => panic!("decode before READY failed"),
            },
            DriveState::After(decoder) => match decoder.push(fragment, reply) {
                (Ok(AfterReadyStep::NeedInput { decoder, progress }), None)
                | (Ok(AfterReadyStep::Progress { decoder, progress }), None)
                | (Ok(AfterReadyStep::HistoryBegin { decoder, progress, .. }), None) => {
                    assert!(progress.consumed > 0);
                    offset += progress.consumed;
                    DriveState::After(decoder)
                }
                (Ok(AfterReadyStep::HistoryPage { mut decoder, progress, .. }), None) => {
                    assert!(progress.consumed > 0);
                    offset += progress.consumed;
                    if live && !wrote_live {
                        decoder
                            .terminal_mut()
                            .text
                            .extend_from_slice(b"live-between-decoded-history-pages\r\n");
                        wrote_live = true;
                    }
                    DriveState::After(decoder)
                }
                (Ok(AfterReadyStep::Finish(mut finished)), Some(released)) => {
                    offset += finished.progress.consumed;
                    assert!(!released.abort);
                    assert_eq!(released.handle, 9);
                    assert_eq!(finished.codec_version, CODEC_VERSION);
                    finished.terminal.pages = engine.pages;
                    return (finished.terminal, offset);
                }
                _ => panic!("decode after READY failed"),
            },
            DriveState::Empty => unreachable!(),
        };
    }
}

#[test]
fn every_fragment_cut_reaches_ready_replays_continuation_and_finishes() {
    let source = grid(b"first\r\nsecond\r\n\x1b[31");
    let bytes = capture_all(&source);
    for cut in 1..bytes.len() {
        let (mut decoded, consumed) = decode_with_cut(&bytes, cut, false);
        assert_eq!(consumed, bytes.len(), "cut {cut}");
        assert_eq!(decoded, source, "cut {cut}");
        let mut continued = source.clone();
        continued.text.extend_from_slice(b"mred");
        decoded.text.extend_from_slice(b"mred");
        assert_eq!(capture_all(&decoded), capture_all(&continued), "cut {cut}");
    }
}

#[test]
fn finish_leaves_transport_suffix_for_the_live_terminal() {
    let source = grid(b"snapshot");
    let bytes = capture_all(&source);
    let tail = b"PTY-after-snapshot";
    let mut transport = bytes.clone();
    transport.extend_from_slice(tail);

    let (mut decoded, consumed) = decode_with_cut(&transport, 1, true);
    assert_eq!(consumed, bytes.len());
    assert_eq!(&transport[consumed..], tail);
    decoded.text.extend_from_slice(&transport[consumed..]);
    assert_eq!(
        decoded.text,
        b"snapshotlive-between-decoded-history-pages\r\nPTY-after-snapshot".to_vec()
    );
}

fn text(bytes: &'static [u8]) -> LibraryText {
    LibraryText { bytes: Some(bytes), len: bytes.len() }
}

fn capabilities_reply() -> CapabilitiesReply {
    CapabilitiesReply {
        status: SnapshotStatus::Success,
        version: ABI_VERSION,
        min_decode_version: 1,
        max_decode_version: 2,
        default_encode_version: 2,
        incremental: true,
        ready: true,
        history: true,
        authenticated_tokens: false,
        bounded_records: true,
        bounded_pages: true,
        bounded_units: false,
        max_record_bytes: 100,
        max_pages: 101,
        max_unit_bytes: 102,
        max_rows: 103,
        codec_identity: text(b"codec"),
        build_identity: text("bu\u{ef}ld".as_bytes()),
    }
}

#[test]
fn reports_incremental_codec_identity_and_bounds() {
    let capabilities = capabilities(capabilities_reply()).expect("incremental capabilities");
    assert_eq!(capabilities.version, ABI_VERSION);
    assert_eq!(capabilities.default_encode_version, 2);
    assert!(capabilities.incremental);
    assert!(capabilities.ready);
    assert!(capabilities.history);
    assert!(capabilities.bounded_records);
    assert!(capabilities.bounded_pages);
    assert!(!capabilities.authenticated_tokens);
    assert!(!capabilities.bounded_units);
    assert_eq!(capabilities.max_record_bytes, 100);
    assert_eq!(capabilities.max_pages, 101);
    assert_eq!(capabilities.max_unit_bytes, 102);
    assert_eq!(capabilities.max_rows, 103);
    assert_eq!(capabilities.codec_identity, "codec");
    assert_eq!(capabilities.build_identity, "bu\u{ef}ld");
}

#[test]
fn capabilities_refuse_what_cannot_be_read() {
    let mut reply = capabilities_reply();
    reply.status = SnapshotStatus::UnsupportedFeature;
    assert_eq!(capabilities(reply).err(), Some(Error::UnsupportedFeature));
    let mut reply = capabilities_reply();
    reply.codec_identity = text(b"\xff");
    assert_eq!(capabilities(reply).err(), Some(Error::Corruption));
    let mut reply = capabilities_reply();
    reply.build_identity = LibraryText { bytes: None, len: 3 };
    assert_eq!(capabilities(reply).err(), Some(Error::InvalidHandle));
    assert_eq!(library_str(LibraryText { bytes: None, len: 0 }), Ok(""));
    assert_eq!(library_str(text(b"")), Ok(""));
}

fn import_reply(status: SnapshotStatus, consumed: usize) -> ImportReply {
    ImportReply { status, consumed, rows: 1, retained: true, required_bytes: 5, required_rows: 6 }
}

/// A terminal of the small engine that history is imported into.
struct Screen {
    name: &'static str,
    text: RefCell<Vec<u8>>,
    history: RefCell<Vec<Vec<u8>>>,
}

fn screen(name: &'static str) -> Screen {
    Screen { name, text: RefCell::new(Vec::new()), history: RefCell::new(Vec::new()) }
}

impl Screen {
    fn vt_write(&self, data: &[u8]) {
        self.text.borrow_mut().extend_from_slice(data);
    }
}

/// A unit is its row with a byte behind it that makes the sum of all bits even.
fn sealed(row: &[u8]) -> Vec<u8> {
    let mut unit = row.to_vec();
    unit.push(row.iter().fold(0, |sum, byte| sum ^ byte));
    unit
}

/// The engine's side of importing: it tells a wrong terminal and damage.
fn import(bound_to: &str, into: &Screen, unit: &[u8]) -> ImportReply {
    if into.name != bound_to {
        return import_reply(SnapshotStatus::WrongTerminal, 0);
    }
    if unit.iter().fold(0, |sum, byte| sum ^ byte) != 0 {
        return import_reply(SnapshotStatus::Corruption, 0);
    }
    into.history.borrow_mut().push(unit[..unit.len() - 1].to_vec());
    import_reply(SnapshotStatus::Success, unit.len())
}

#[test]
fn history_units_retry_short_buffers_and_allow_live_writes_while_importing() {
    let rows: Vec<Vec<u8>> = (0..200).rev().map(|row| format!("row-{row:03}").into_bytes()).collect();
    let units: Vec<Vec<u8>> = rows.iter().map(|row| sealed(row)).collect();
    let source = screen("source");
    let destination = screen("destination");
    let lease = HistoryLease::new(
        ScreenKey::primary(),
        Some(&source),
        LeaseReply { status: SnapshotStatus::Success, lease: Some('l'), checkpoint: b"cut".to_vec() },
    )
    .unwrap_or_else(|_| panic!("history lease"));
    assert_eq!(lease.checkpoint().raw(), &b"cut".to_vec());
    assert_eq!((*lease.parts().0, lease.parts().1.name), ('l', "source"));
    let mut cursor = lease
        .into_cursor(TransferReply {
            status: SnapshotStatus::Success,
            handle: Some('c'),
            capability: b"may read".to_vec(),
        })
        .unwrap_or_else(|_| panic!("one-way cursor transfer"));
    assert_eq!((*cursor.parts().0, cursor.parts().1.name), ('c', "source"));

    let request = cursor
        .import_request(Some(&destination), HistoryOptions::default())
        .unwrap_or_else(|_| panic!("import request"));
    assert_eq!(request.destination.name, "destination");
    assert_eq!(request.screen, ScreenKey::primary());
    assert_eq!(request.source.name, "source");
    assert_eq!(request.checkpoint, &b"cut".to_vec());
    assert_eq!(request.options, HistoryOptions::default());
    assert_eq!(
        cursor.import_request(None::<u8>, HistoryOptions::default()).err(),
        Some(Error::WrongTerminal)
    );

    let mut importer = cursor
        .importer(
            &destination,
            TransferReply {
                status: SnapshotStatus::Success,
                handle: Some('i'),
                capability: b"may write".to_vec(),
            },
        )
        .unwrap_or_else(|_| panic!("history importer"));
    assert_eq!(importer.capability().label(), "CapabilityToken(<opaque>)");

    let step = |unit: &Vec<u8>, buffer: &mut [u8]| -> HistoryReply {
        let fits = buffer.len() >= unit.len();
        if fits {
            buffer[..unit.len()].copy_from_slice(unit);
        }
        HistoryReply {
            status: if fits { SnapshotStatus::Success } else { SnapshotStatus::OutOfSpace },
            kind: RawHistoryKind::Unit,
            written: if fits { unit.len() } else { 0 },
            required_bytes: unit.len(),
            rows: 1,
            page_complete: true,
        }
    };
    let mut wrote_live = false;
    let mut corrupted = false;
    for unit in &units {
        let required = match cursor.next(&[], step(unit, &mut [])) {
            Err(Error::OutOfSpace { required_bytes, required_rows: 0 }) => required_bytes,
            _ => panic!("history probe"),
        };
        assert!(required > 0);
        assert_eq!(required, unit.len());
        let mut short = vec![0; required - 1];
        let reply = step(unit, &mut short);
        assert_eq!(
            cursor.next(&short, reply).err(),
            Some(Error::OutOfSpace { required_bytes: required, required_rows: 0 })
        );
        let mut buffer = vec![0; required];
        let reply = step(unit, &mut buffer);
        let unit_len = match cursor.next(&buffer, reply) {
            Ok(HistoryEvent::Unit { unit, rows: 1, page_complete: true }) => unit.len(),
            _ => panic!("history unit"),
        };
        assert_eq!(unit_len, required);

        if !corrupted {
            buffer[unit_len - 1] ^= 0x40;
            let reply = import("destination", importer.parts().1, &buffer);
            assert_eq!(importer.push(&buffer, reply), Err(Error::Corruption));
            buffer[unit_len - 1] ^= 0x40;
            corrupted = true;
        }
        let reply = import("destination", &source, &buffer);
        assert_eq!(importer.push(&buffer, reply), Err(Error::WrongTerminal));

        let reply = import("destination", importer.parts().1, &buffer);
        let event = importer.push(&buffer, reply).expect("history import");
        assert_eq!(event.consumed, unit_len);
        if !wrote_live {
            importer.parts().1.vt_write(b"live while older history imports\r\n");
            wrote_live = true;
        }
    }
    let end = HistoryReply {
        status: SnapshotStatus::Success,
        kind: RawHistoryKind::End,
        written: 0,
        required_bytes: 0,
        rows: 0,
        page_complete: false,
    };
    assert!(matches!(cursor.next(&[], end), Ok(HistoryEvent::End)));
    assert_eq!((*importer.parts().0, importer.parts().1.name), ('i', "destination"));
    let (result, released) = importer.commit(SnapshotStatus::Success);
    assert_eq!(result, Ok(()));
    assert!(!released.abort);
    assert_eq!(released.handle, 'i');
    drop(cursor);
    destination.vt_write(b"after commit");
    assert_eq!(*destination.history.borrow(), rows);
    assert_eq!(
        *destination.text.borrow(),
        b"live while older history imports\r\nafter commit".to_vec()
    );
    assert!(source.history.borrow().is_empty());
}

#[test]
fn partly_consumed_units_and_unknown_events_are_refused() {
    let lease = HistoryLease::new(
        ScreenKey::alternate(),
        Some(1u8),
        LeaseReply { status: SnapshotStatus::Success, lease: Some(2u8), checkpoint: vec![] },
    )
    .unwrap_or_else(|_| panic!());
    let transfer = |handle| TransferReply {
        status: SnapshotStatus::Success,
        handle,
        capability: vec![],
    };
    let mut cursor = lease.into_cursor(transfer(Some(3u8))).unwrap_or_else(|_| panic!());
    assert_eq!(cursor.capability().label(), "CapabilityToken(<opaque>)");
    let mut reply = HistoryReply {
        status: SnapshotStatus::Success,
        kind: RawHistoryKind::Unknown,
        written: 0,
        required_bytes: 0,
        rows: 0,
        page_complete: false,
    };
    assert_eq!(cursor.next(&[], reply).err(), Some(Error::InvalidState));
    reply.kind = RawHistoryKind::Unit;
    reply.written = 4;
    reply.required_bytes = 4;
    assert_eq!(cursor.next(&[0; 3], reply).err(), Some(Error::InvalidState));
    reply.required_bytes = 3;
    assert_eq!(cursor.next(&[0; 9], reply).err(), Some(Error::InvalidState));

    assert_eq!(cursor.importer::<u8, u8>(0, transfer(None)).err(), Some(Error::OutOfMemory));
    let mut importer = cursor.importer(0u8, transfer(Some(5u8))).unwrap_or_else(|_| panic!());
    assert_eq!(
        importer.push(b"unit", import_reply(SnapshotStatus::Success, 3)),
        Err(Error::InvalidState)
    );
    assert_eq!(
        importer.push(b"unit", import_reply(SnapshotStatus::OutOfSpace, 0)),
        Err(Error::OutOfSpace { required_bytes: 5, required_rows: 6 })
    );
    let (result, released) = importer.commit(SnapshotStatus::Pruned);
    assert_eq!(result, Err(Error::Pruned));
    assert!(released.abort, "a failed commit is rolled back");

    let importer = cursor.importer(0u8, transfer(Some(5u8))).unwrap_or_else(|_| panic!());
    let (result, released) = importer.abort(SnapshotStatus::InvalidHandle);
    assert_eq!(result, Err(Error::InvalidHandle));
    assert!(!released.abort);

    let importer = cursor.importer(0u8, transfer(Some(5u8))).unwrap_or_else(|_| panic!());
    assert!(importer.release().abort);
}

#[test]
fn native_stale_reset_and_resize_statuses_remain_distinct() {
    assert_eq!(from_status(SnapshotStatus::WrongGeneration, 0, 0), Err(Error::WrongGeneration));
    assert_eq!(from_status(SnapshotStatus::Stale, 0, 0), Err(Error::Stale));
    assert_eq!(from_status(SnapshotStatus::Reset, 0, 0), Err(Error::Reset));
    assert_eq!(from_status(SnapshotStatus::Resize, 0, 0), Err(Error::Resize));
}

#[test]
fn every_status_has_its_error_and_text() {
    let all = [
        (SnapshotStatus::UnsupportedFeature, Error::UnsupportedFeature, "unsupported snapshot feature"),
        (SnapshotStatus::UnknownVersion, Error::UnknownVersion, "unknown snapshot version"),
        (SnapshotStatus::Corruption, Error::Corruption, "corrupt snapshot or history unit"),
        (SnapshotStatus::Truncated, Error::Truncated, "truncated snapshot"),
        (SnapshotStatus::LimitExceeded, Error::LimitExceeded, "snapshot limit exceeded"),
        (SnapshotStatus::Stale, Error::Stale, "stale history lease"),
        (SnapshotStatus::Pruned, Error::Pruned, "history was pruned"),
        (SnapshotStatus::WrongGeneration, Error::WrongGeneration, "wrong history generation"),
        (SnapshotStatus::WrongTerminal, Error::WrongTerminal, "wrong terminal"),
        (SnapshotStatus::InvalidHandle, Error::InvalidHandle, "invalid snapshot handle or token"),
        (SnapshotStatus::ImportBusy, Error::ImportBusy, "history import already active"),
        (SnapshotStatus::OutOfMemory, Error::OutOfMemory, "out of memory"),
        (
            SnapshotStatus::OutOfSpace,
            Error::OutOfSpace { required_bytes: 120, required_rows: 7 },
            "out of space (120 bytes and 7 rows required)",
        ),
        (SnapshotStatus::InvalidState, Error::InvalidState, "invalid snapshot state"),
        (
            SnapshotStatus::ContinuationUnavailable,
            Error::ContinuationUnavailable,
            "snapshot continuation unavailable",
        ),
        (SnapshotStatus::Reset, Error::Reset, "terminal reset invalidated history"),
        (SnapshotStatus::Resize, Error::Resize, "terminal resize invalidated history"),
        (SnapshotStatus::Unknown, Error::InvalidState, "invalid snapshot state"),
    ];
    assert_eq!(from_status(SnapshotStatus::Success, 1, 2), Ok(()));
    for (status, error, message) in all {
        assert_eq!(from_status(status, 120, 7), Err(error));
        assert_eq!(error.message(), message);
    }
}

#[test]
fn custom_allocator_oom_and_early_drop_cleanup_are_exact() {
    assert_eq!(
        Capture::<u8>::new(SnapshotStatus::OutOfMemory, None).err().map(|e| e.message()),
        Some("out of memory".to_owned())
    );
    assert!(matches!(Capture::<u8>::new(SnapshotStatus::Success, None), Err(Error::OutOfMemory)));
    assert!(matches!(Decoder::<u8>::new(SnapshotStatus::OutOfMemory, Some(1)), Err(Error::OutOfMemory)));
    let lease = |status, lease| LeaseReply { status, lease, checkpoint: vec![] };
    assert!(matches!(
        HistoryLease::new(ScreenKey::primary(), Some(0u8), lease(SnapshotStatus::OutOfMemory, Some(1u8))),
        Err(Error::OutOfMemory)
    ));
    assert!(matches!(
        HistoryLease::new(ScreenKey::primary(), Some(0u8), lease(SnapshotStatus::Success, None::<u8>)),
        Err(Error::OutOfMemory)
    ));
    assert!(matches!(
        HistoryLease::new(ScreenKey::primary(), None::<u8>, lease(SnapshotStatus::Success, None::<u8>)),
        Err(Error::WrongTerminal)
    ));
    assert_eq!(open_handle(SnapshotStatus::Success, Some(3)), Ok(3));

    let early = Capture::new(SnapshotStatus::Success, Some(8u8)).unwrap_or_else(|_| panic!()).release();
    assert!(early.abort && early.handle == 8);
    let (result, aborted) = Capture::new(SnapshotStatus::Success, Some(8u8))
        .unwrap_or_else(|_| panic!())
        .abort(SnapshotStatus::Success);
    assert_eq!(result, Ok(()));
    assert!(!aborted.abort);
    let early = Decoder::new(SnapshotStatus::Success, Some(8u8)).unwrap_or_else(|_| panic!()).release();
    assert!(early.abort);
}

fn ready_decoder() -> ghostty::snapshot::incremental::decode::ReadyDecoder<u8> {
    let decoder = Decoder::new(SnapshotStatus::Success, Some(1u8)).unwrap_or_else(|_| panic!());
    match decoder.push(b"Y\0", event(DecodeEventKind::Ready, 2)).0 {
        Ok(DecodeStep::Ready { decoder, .. }) => decoder,
        _ => panic!(),
    }
}

fn event(kind: DecodeEventKind, consumed: usize) -> DecodeReply {
    DecodeReply {
        status: SnapshotStatus::Success,
        kind,
        consumed,
        needed: 4,
        codec_version: CODEC_VERSION,
        screen_key: 1,
        index: 3,
        count: 5,
        retained: false,
    }
}

fn waiting() -> ContinuationDecoder<u8, String> {
    let take = TakeReply {
        status: SnapshotStatus::Success,
        terminal: HandedTerminal::Usable("grid".to_owned()),
        codec_version: CODEC_VERSION,
    };
    ready_decoder().take_terminal(take).0.unwrap_or_else(|_| panic!())
}

#[test]
fn continuation_replay_oom_preserves_state_for_retry() {
    let mut source = grid(b"before\r\n\x1b[31");
    let bytes = capture_all(&source);
    let mut engine = Engine::default();
    let mut decoder =
        Decoder::new(SnapshotStatus::Success, Some(9u8)).unwrap_or_else(|_| panic!());
    let mut offset = 0;
    let ready = loop {
        let reply = engine.push(&bytes[offset..]);
        match decoder.push(&bytes[offset..], reply) {
            (Ok(DecodeStep::NeedInput { decoder: next, progress }), None)
            | (Ok(DecodeStep::Progress { decoder: next, progress }), None) => {
                assert!(progress.consumed > 0);
                offset += progress.consumed;
                decoder = next;
            }
            (Ok(DecodeStep::Ready { decoder: ready, progress }), None) => {
                assert!(progress.consumed > 0);
                offset += progress.consumed;
                break ready;
            }
            _ => panic!("decode before READY failed"),
        }
    };
    let take = TakeReply {
        status: SnapshotStatus::Success,
        terminal: HandedTerminal::Usable(engine.terminal()),
        codec_version: CODEC_VERSION,
    };
    let continuation =
        ready.take_terminal(take).0.unwrap_or_else(|_| panic!("READY terminal transfer"));

    let failure = match continuation.replay(SnapshotStatus::OutOfMemory) {
        Err(failure) => failure,
        Ok(_) => panic!("verification allocation should fail once"),
    };
    assert_eq!(failure.error, Error::OutOfMemory);
    assert_eq!(failure.message(), "out of memory");
    assert_eq!(failure.decoder.parts(), (&9u8, &engine.terminal()));
    let mut stream = failure
        .decoder
        .replay(SnapshotStatus::Success)
        .unwrap_or_else(|_| panic!("retry should replay the untouched continuation"));
    assert_eq!(*stream.terminal(), engine.terminal());
    let mut decoded = loop {
        let reply = engine.push(&bytes[offset..]);
        match stream.push(&bytes[offset..], reply) {
            (Ok(AfterReadyStep::NeedInput { decoder, progress }), None)
            | (Ok(AfterReadyStep::Progress { decoder, progress }), None)
            | (Ok(AfterReadyStep::HistoryBegin { decoder, progress, .. }), None)
            | (Ok(AfterReadyStep::HistoryPage { decoder, progress, .. }), None) => {
                assert!(progress.consumed > 0);
                offset += progress.consumed;
                stream = decoder;
            }
            (Ok(AfterReadyStep::Finish(finished)), Some(released)) => {
                offset += finished.progress.consumed;
                assert_eq!(finished.codec_version, CODEC_VERSION);
                assert!(!released.abort);
                break finished.terminal;
            }
            _ => panic!("decode after replay retry failed"),
        }
    };
    assert_eq!(offset, bytes.len());
    decoded.pages = engine.pages;
    source.text.extend_from_slice(b"mred");
    decoded.text.extend_from_slice(b"mred");
    assert_eq!(decoded, source);
    assert_eq!(capture_all(&decoded), capture_all(&source));
}

#[test]
fn terminal_transfer_refuses_mismatches() {
    let take = |status, terminal, codec_version| TakeReply { status, terminal, codec_version };
    let usable = || HandedTerminal::Usable(1u8);
    let success = SnapshotStatus::Success;
    let refusals = [
        (take(success, HandedTerminal::Missing, CODEC_VERSION), Error::InvalidState),
        (take(success, usable(), CODEC_VERSION + 1), Error::InvalidState),
        (take(success, HandedTerminal::Unusable, CODEC_VERSION + 1), Error::InvalidState),
        (take(success, HandedTerminal::Unusable, CODEC_VERSION), Error::InvalidHandle),
        (take(SnapshotStatus::OutOfMemory, usable(), CODEC_VERSION), Error::OutOfMemory),
        (take(SnapshotStatus::Stale, HandedTerminal::Unusable, CODEC_VERSION), Error::Stale),
    ];
    for (reply, error) in refusals {
        let (r, released) = ready_decoder().take_terminal(reply);
        assert_eq!(r.err(), Some(error));
        assert!(released.is_some_and(|r| r.abort && r.handle == 1));
    }
    assert!(ready_decoder().release().abort);
    assert!(waiting().release().abort);
}

#[test]
fn decode_failures_tell_what_was_consumed() {
    let decoder = || Decoder::new(SnapshotStatus::Success, Some(1u8)).unwrap_or_else(|_| panic!());
    let mut truncated = event(DecodeEventKind::NeedInput, 0);
    truncated.status = SnapshotStatus::Truncated;
    let (r, released) = decoder().end_input(truncated);
    let failure = r.err().unwrap();
    assert_eq!(failure, DecodeFailure { error: Error::Truncated, consumed: 0 });
    assert_eq!(failure.message(), "truncated snapshot after consuming 0 bytes");
    assert!(released.unwrap().abort);

    let (r, _) = decoder().push(b"ab", event(DecodeEventKind::Progress, 3));
    assert_eq!(r.err(), Some(DecodeFailure { error: Error::InvalidState, consumed: 3 }));
    for kind in [
        DecodeEventKind::HistoryBegin,
        DecodeEventKind::HistoryPage,
        DecodeEventKind::Finish,
        DecodeEventKind::Unknown,
    ] {
        let (r, _) = decoder().push(b"ab", event(kind, 1));
        assert_eq!(r.err(), Some(DecodeFailure { error: Error::InvalidState, consumed: 1 }));
    }
}

#[test]
fn stream_failures_keep_the_terminal() {
    let stream = || waiting().replay(SnapshotStatus::Success).unwrap_or_else(|_| panic!());
    let mut corrupt = event(DecodeEventKind::Progress, 1);
    corrupt.status = SnapshotStatus::Corruption;
    match stream().push(b"ab", corrupt) {
        (Err(failure), Some(released)) => {
            assert_eq!(failure.error, Error::Corruption);
            assert_eq!(failure.consumed, 1);
            assert_eq!(failure.terminal, "grid");
            assert_eq!(failure.message(), "corrupt snapshot or history unit after consuming 1 bytes");
            assert!(released.abort);
        }
        _ => panic!(),
    }
    assert!(stream().push(b"ab", event(DecodeEventKind::Ready, 1)).0.is_err());
    assert!(stream().push(b"ab", event(DecodeEventKind::Unknown, 1)).0.is_err());
    assert!(stream().push(b"ab", event(DecodeEventKind::Progress, 3)).0.is_err());
    let mut truncated = event(DecodeEventKind::NeedInput, 0);
    truncated.status = SnapshotStatus::Truncated;
    assert!(stream().end_input(truncated).0.is_err_and(|f| f.error == Error::Truncated));
    match stream().push(b"ab", event(DecodeEventKind::HistoryPage, 2)).0 {
        Ok(AfterReadyStep::HistoryPage { screen, index, count, retained, progress, .. }) => {
            assert_eq!(screen, ScreenKey::alternate());
            assert_eq!((index, count, retained), (3, 5, false));
            assert_eq!((progress.consumed, progress.needed), (2, 4));
        }
        _ => panic!(),
    }
    assert!(stream().release().abort);
}

#[test]
fn capture_refuses_inconsistent_answers() {
    let mut capture = Capture::new(SnapshotStatus::Success, Some(())).unwrap_or_else(|_| panic!());
    let buffer = [7u8; 4];
    let ok = |kind| capture_reply(SnapshotStatus::Success, kind, 4);
    assert!(matches!(capture.next(&buffer, ok(RawCaptureKind::Unknown)), Err(Error::InvalidState)));
    let mut reply = ok(RawCaptureKind::Record);
    reply.required_bytes = 5;
    assert!(matches!(capture.next(&buffer, reply), Err(Error::InvalidState)));
    assert!(matches!(capture.next(&buffer[..3], ok(RawCaptureKind::Record)), Err(Error::InvalidState)));
    match capture.next(&buffer, ok(RawCaptureKind::Ready)).unwrap_or_else(|_| panic!()).kind {
        CaptureEventKind::Ready { checkpoint } => assert_eq!(checkpoint.raw(), &b"digest".to_vec()),
        _ => panic!(),
    }
    match capture.next(&buffer, ok(RawCaptureKind::HistoryBegin)).unwrap_or_else(|_| panic!()).kind {
        CaptureEventKind::HistoryBegin { screen, count } => {
            assert_eq!((screen, count), (ScreenKey::primary(), 2));
        }
        _ => panic!(),
    }
}

#[test]
fn tokens_show_nothing() {
    assert_eq!(CheckpointToken::new(b"secret".to_vec()).label(), "CheckpointToken(<opaque>)");
    assert_eq!(CapabilityToken::new(b"secret".to_vec()).label(), "CapabilityToken(<opaque>)");
}

#[test]
fn options_have_their_defaults() {
    let capture = CaptureOptions::default();
    assert_eq!((capture.max_record_bytes, capture.max_pages), (4 * 1024 * 1024, 4096));
    let decoder = DecoderOptions::default();
    assert_eq!(decoder.max_continuation_bytes, 1024 * 1024);
    assert_eq!((decoder.max_record_bytes, decoder.max_pages), (4 * 1024 * 1024, 4096));
    let history = HistoryOptions::default();
    assert_eq!((history.max_unit_bytes, history.max_rows, history.max_units), (256 * 1024, 32, 4096));
}

/// Notes in a list when it is dropped.
struct Noted(&'static str, Rc<RefCell<Vec<&'static str>>>);

impl Drop for Noted {
    fn drop(&mut self) {
        self.1.borrow_mut().push(self.0);
    }
}

fn live_cursor(
    notes: &Rc<RefCell<Vec<&'static str>>>,
    lease: SnapshotStatus,
    transfer: SnapshotStatus,
) -> Result<LiveHistoryCursor<Noted, Noted, u8, Noted>, (Error, Noted)> {
    let noted = |name| Noted(name, notes.clone());
    LiveHistoryCursor::new(
        noted("terminal"),
        ScreenKey::primary(),
        7,
        LeaseReply { status: lease, lease: Some(noted("lease")), checkpoint: b"cut".to_vec() },
        TransferReply { status: transfer, handle: Some(noted("cursor")), capability: Vec::new() },
    )
}

#[test]
fn live_cursor_releases_cursor_and_lease_before_the_terminal() {
    let notes = Rc::new(RefCell::new(Vec::new()));
    let live = live_cursor(&notes, SnapshotStatus::Success, SnapshotStatus::Success);
    let live = live.unwrap_or_else(|_| panic!());
    assert_eq!(notes.borrow().len(), 0);
    let (released, terminal) = live.into_terminal();
    let order: Vec<&str> = released
        .iter()
        .map(|release| match release {
            Release::Cursor(cursor) => cursor.0,
            Release::Lease(lease) => lease.0,
        })
        .collect();
    assert_eq!(order, ["cursor", "lease"]);
    assert!(matches!(released[0], Release::Cursor(_)));
    assert!(matches!(released[1], Release::Lease(_)));
    assert_eq!(notes.borrow().len(), 0);
    drop(released);
    assert_eq!(*notes.borrow(), vec!["cursor", "lease"]);
    drop(terminal);
    assert_eq!(*notes.borrow(), vec!["cursor", "lease", "terminal"]);

    notes.borrow_mut().clear();
    drop(live_cursor(&notes, SnapshotStatus::Success, SnapshotStatus::Success));
    assert_eq!(*notes.borrow(), vec!["cursor", "lease", "terminal"]);
}

#[test]
fn live_cursor_pages_and_gives_the_terminal_back() {
    let notes = Rc::new(RefCell::new(Vec::new()));
    let mut live = live_cursor(&notes, SnapshotStatus::Success, SnapshotStatus::Success)
        .unwrap_or_else(|_| panic!());
    assert_eq!((live.parts().0 .0, *live.parts().1), ("cursor", 7));
    let unit = HistoryReply {
        status: SnapshotStatus::Success,
        kind: RawHistoryKind::Unit,
        written: 2,
        required_bytes: 2,
        rows: 1,
        page_complete: true,
    };
    match live.next(b"abc", unit) {
        Ok(HistoryEvent::Unit { unit, rows, page_complete }) => {
            assert_eq!((unit, rows, page_complete), (&b"ab"[..], 1, true));
        }
        _ => panic!(),
    }
    live.terminal().1.borrow_mut().push("written");
    let end = HistoryReply { kind: RawHistoryKind::End, ..unit };
    assert!(matches!(live.next(b"", end), Ok(HistoryEvent::End)));
    assert_eq!(*notes.borrow(), vec!["written"]);
    assert_eq!(live.into_terminal().1 .0, "terminal");

    match live_cursor(&notes, SnapshotStatus::WrongGeneration, SnapshotStatus::Success) {
        Err((error, terminal)) => {
            assert_eq!((error, terminal.0), (Error::WrongGeneration, "terminal"));
        }
        Ok(_) => panic!(),
    }
    match live_cursor(&notes, SnapshotStatus::Success, SnapshotStatus::Stale) {
        Err((error, terminal)) => assert_eq!((error, terminal.0), (Error::Stale, "terminal")),
        Ok(_) => panic!(),
    }
}
