//! Capturing a snapshot one record at a time into the caller's buffer.
use vstd::prelude::*;

use crate::snapshot::error::{from_result, open_handle, Error};
use crate::status::ResultCode;

verus! {

/// Bytes of a record before its payload: tag, payload length and checksum.
pub const RECORD_HEADER_BYTES: usize = 10;

/// The two screens of a terminal.
#[derive(Clone, Copy, Debug, PartialEq, Eq, Structural)]
pub enum Screen {
    /// The screen with scrollback.
    Primary,
    /// The screen that full-screen programs switch to.
    Alternate,
}

/// Hard limits fixed for the lifetime of a progressive snapshot capture.
#[derive(Clone, Copy, Debug, PartialEq, Eq, Structural)]
pub struct CaptureOptions {
    /// Maximum encoded size of any individual record.
    pub max_record_bytes: usize,
    /// Maximum number of history pages the capture may emit.
    pub max_pages: usize,
}

impl CaptureOptions {
    /// A record fits at least its header, and at least one page is allowed.
    pub open spec fn acceptable(self) -> bool {
        self.max_record_bytes >= RECORD_HEADER_BYTES && self.max_pages != 0
    }

    /// Refuses limits that no capture could keep to.
    pub fn validate(self) -> (r: Result<(), Error>)
        ensures
            r == (if self.acceptable() {
                Ok::<(), Error>(())
            } else {
                Err::<(), Error>(Error::InvalidValue)
            }),
    {
        if self.max_record_bytes < RECORD_HEADER_BYTES || self.max_pages == 0 {
            return Err(Error::InvalidValue);
        }
        Ok(())
    }
}

/// Boundary represented by a progressive capture event.
#[derive(Clone, Copy, Debug, PartialEq, Eq, Structural)]
pub enum CaptureEventKind {
    /// A format envelope or ordinary record.
    Record,
    /// The authenticated renderable checkpoint.
    Ready,
    /// A history PAGE record.
    HistoryPage,
    /// The authenticated final checkpoint.
    Finish,
}

/// Metadata for one complete envelope or record that a capture emitted.
#[derive(Clone, Copy, Debug, PartialEq, Eq, Structural)]
pub enum CaptureEvent {
    /// A format envelope or non-checkpoint record was emitted.
    Record {
        /// Bytes emitted for this envelope or record.
        written: usize,
    },
    /// The authenticated renderable prefix ends at this record.
    Ready {
        /// Bytes emitted for the READY record.
        written: usize,
    },
    /// One complete history page was emitted.
    HistoryPage {
        /// Screen whose history contains this page.
        screen: Screen,
        /// Rows encoded in this page.
        rows: usize,
        /// Page records remaining in this screen's HISTORY sequence.
        remaining: u32,
        /// Bytes emitted for this record.
        written: usize,
    },
    /// The final authenticated checkpoint was emitted.
    Finish {
        /// Bytes emitted for the FINISH record.
        written: usize,
    },
}

impl CaptureEvent {
    /// The boundary of an event.
    pub open spec fn kind_spec(self) -> CaptureEventKind {
        match self {
            CaptureEvent::Record { .. } => CaptureEventKind::Record,
            CaptureEvent::Ready { .. } => CaptureEventKind::Ready,
            CaptureEvent::HistoryPage { .. } => CaptureEventKind::HistoryPage,
            CaptureEvent::Finish { .. } => CaptureEventKind::Finish,
        }
    }

    /// The size of the record that an event stands for.
    pub open spec fn size(self) -> usize {
        match self {
            CaptureEvent::Record { written } => written,
            CaptureEvent::Ready { written } => written,
            CaptureEvent::HistoryPage { written, .. } => written,
            CaptureEvent::Finish { written } => written,
        }
    }

    /// The boundary represented by this event.
    #[must_use]
    pub fn kind(self) -> (k: CaptureEventKind)
        ensures
            k == self.kind_spec(),
    {
        match self {
            CaptureEvent::Record { .. } => CaptureEventKind::Record,
            CaptureEvent::Ready { .. } => CaptureEventKind::Ready,
            CaptureEvent::HistoryPage { .. } => CaptureEventKind::HistoryPage,
            CaptureEvent::Finish { .. } => CaptureEventKind::Finish,
        }
    }

    /// Number of bytes written into the caller's buffer.
    #[must_use]
    pub fn written(self) -> (n: usize)
        ensures
            n == self.size(),
    {
        match self {
            CaptureEvent::Record { written } => written,
            CaptureEvent::Ready { written } => written,
            CaptureEvent::HistoryPage { written, .. } => written,
            CaptureEvent::Finish { written } => written,
        }
    }
}

/// What the engine writes one record through: it admits data only while a
/// caller's buffer is installed and only as far as that buffer reaches.
pub struct CaptureWriter {
    installed: bool,
    capacity: usize,
    written: usize,
}

/// The state of a [`CaptureWriter`].
pub struct WriterView {
    /// The size of the installed buffer, while there is one.
    pub capacity: Option<nat>,
    /// Bytes written since a buffer was last installed.
    pub written: nat,
}

impl WriterView {
    /// What is written lies inside the installed buffer.
    pub open spec fn wf(self) -> bool {
        self.capacity is Some ==> self.written <= self.capacity->0
    }

    /// `len` more bytes may be written.
    pub open spec fn admits(self, len: nat) -> bool {
        self.capacity is Some && self.written + len <= self.capacity->0
    }
}

impl View for CaptureWriter {
    type V = WriterView;

    closed spec fn view(&self) -> WriterView {
        WriterView {
            capacity: if self.installed {
                Some(self.capacity as nat)
            } else {
                None
            },
            written: self.written as nat,
        }
    }
}

impl CaptureWriter {
    /// A writer without a buffer.
    pub fn idle() -> (w: CaptureWriter)
        ensures
            w@ == (WriterView { capacity: None, written: 0 }),
    {
        CaptureWriter { installed: false, capacity: 0, written: 0 }
    }

    /// Installs `buf` for the next record.
    pub fn begin(&mut self, buf: &[u8])
        ensures
            final(self)@ == (WriterView { capacity: Some(buf@.len()), written: 0 }),
    {
        self.installed = true;
        self.capacity = buf.len();
        self.written = 0;
    }

    /// Takes the buffer away again; the count of what was written stays.
    pub fn end(&mut self)
        ensures
            final(self)@ == (WriterView { capacity: None, ..old(self)@ }),
    {
        self.installed = false;
        self.capacity = 0;
    }

    /// Writes `data` behind what is in `buf` already, or nothing at all where it
    /// does not fit; tells which.
    pub fn write(&mut self, buf: &mut [u8], data: &[u8]) -> (ok: bool)
        requires
            old(self)@.wf(),
            old(self)@.capacity is Some ==> old(buf)@.len() == old(self)@.capacity->0,
        ensures
            ok == old(self)@.admits(data@.len()),
            ok ==> final(self)@ == (WriterView {
                written: old(self)@.written + data@.len(),
                ..old(self)@
            }),
            ok ==> final(buf)@ == old(buf)@.take(old(self)@.written as int) + data@
                + old(buf)@.skip((old(self)@.written + data@.len()) as int),
            !ok ==> final(self)@ == old(self)@ && final(buf)@ == old(buf)@,
            final(self)@.wf(),
    {
        let end: usize = match self.written.checked_add(data.len()) {
            None => {
                return false;
            },
            Some(end) => end,
        };
        if !self.installed || end > self.capacity {
            return false;
        }
        let ghost before = buf@;
        let start: usize = self.written;
        let mut i: usize = 0;
        while i < data.len()
            invariant
                i <= data@.len(),
                start + data@.len() == end,
                end <= before.len(),
                buf@.len() == before.len(),
                forall|k: int| 0 <= k < i ==> buf@[start + k] == data@[k],
                forall|k: int| 0 <= k < start || start + i <= k < before.len() ==> buf@[k] == before[k],
            decreases data@.len() - i,
        {
            buf[start + i] = data[i];
            i = i + 1;
        }
        assert(buf@ =~= before.take(start as int) + data@ + before.skip(end as int));
        self.written = end;
        true
    }
}

/// A write that is admitted appends to the record under construction.
pub proof fn law_writes_append(w: WriterView, buf: Seq<u8>, data: Seq<u8>)
    requires
        w.wf(),
        w.admits(data.len()),
        buf.len() == w.capacity->0,
    ensures
        ({
            let after = buf.take(w.written as int) + data + buf.skip(
                (w.written + data.len()) as int,
            );
            &&& after.len() == buf.len()
            &&& after.take((w.written + data.len()) as int) == buf.take(w.written as int) + data
        }),
{
    let after = buf.take(w.written as int) + data + buf.skip((w.written + data.len()) as int);
    assert(after.take((w.written + data.len()) as int) =~= buf.take(w.written as int) + data);
}

/// Chunks joined in order.
pub open spec fn joined(chunks: Seq<Seq<u8>>) -> Seq<u8>
    decreases chunks.len(),
{
    if chunks.len() == 0 {
        Seq::empty()
    } else {
        joined(chunks.drop_last()) + chunks.last()
    }
}

/// The buffer after the chunks were written one after the other, behind what was
/// in it before.
pub open spec fn filled(w: WriterView, buf: Seq<u8>, chunks: Seq<Seq<u8>>) -> Seq<u8>
    decreases chunks.len(),
{
    if chunks.len() == 0 {
        buf
    } else {
        let before = filled(w, buf, chunks.drop_last());
        let at = w.written + joined(chunks.drop_last()).len();
        before.take(at as int) + chunks.last() + before.skip((at + chunks.last().len()) as int)
    }
}

/// A record that keeps to the capture's limit is admitted in whatever chunks the
/// engine writes it, and the buffer then begins with exactly that record.
pub proof fn law_records_arrive_whole(limit: nat, buf: Seq<u8>, chunks: Seq<Seq<u8>>)
    requires
        joined(chunks).len() <= limit <= buf.len(),
    ensures
        ({
            let w = WriterView { capacity: Some(buf.len()), written: 0 };
            &&& filled(w, buf, chunks).len() == buf.len()
            &&& filled(w, buf, chunks).take(joined(chunks).len() as int) == joined(chunks)
            &&& forall|i: int|
                0 <= i < chunks.len() ==> (WriterView {
                    written: joined(#[trigger] chunks.take(i)).len(),
                    ..w
                }).admits(chunks[i].len())
        }),
    decreases chunks.len(),
{
    let w = WriterView { capacity: Some(buf.len()), written: 0 };
    if chunks.len() == 0 {
        assert(filled(w, buf, chunks).take(0) =~= joined(chunks));
    } else {
        let init = chunks.drop_last();
        law_records_arrive_whole(limit, buf, init);
        let before = filled(w, buf, init);
        let n = joined(init).len() as int;
        let after = filled(w, buf, chunks);
        assert(after =~= before.take(n) + chunks.last() + before.skip(n + chunks.last().len()));
        assert(after.take(joined(chunks).len() as int) =~= joined(init) + chunks.last());
        assert forall|i: int| 0 <= i < chunks.len() implies (WriterView {
            written: joined(#[trigger] chunks.take(i)).len(),
            ..w
        }).admits(chunks[i].len()) by {
            if i < init.len() {
                assert(init.take(i) =~= chunks.take(i));
                assert(init[i] == chunks[i]);
            } else {
                assert(chunks.take(i) =~= init);
            }
        }
    }
}

/// What the caller takes out of the buffer for each record of a capture, joined;
/// `records[i]` are the chunks in which the engine writes the record `i`.
pub open spec fn collected(buf: Seq<u8>, records: Seq<Seq<Seq<u8>>>) -> Seq<u8>
    decreases records.len(),
{
    if records.len() == 0 {
        Seq::empty()
    } else {
        let w = WriterView { capacity: Some(buf.len()), written: 0 };
        collected(buf, records.drop_last()) + filled(w, buf, records.last()).take(
            joined(records.last()).len() as int,
        )
    }
}

/// A capture hands on every byte that the engine writes, in order: the records
/// joined are the stream of bytes that the engine would write in one go.
pub proof fn law_capture_hands_on_the_whole_stream(
    limit: nat,
    buf: Seq<u8>,
    records: Seq<Seq<Seq<u8>>>,
)
    requires
        limit <= buf.len(),
        forall|i: int| 0 <= i < records.len() ==> joined(#[trigger] records[i]).len() <= limit,
    ensures
        collected(buf, records) == joined(records.map_values(|chunks: Seq<Seq<u8>>| joined(chunks))),
    decreases records.len(),
{
    let whole = records.map_values(|chunks: Seq<Seq<u8>>| joined(chunks));
    if records.len() > 0 {
        let init = records.drop_last();
        assert(forall|i: int| 0 <= i < init.len() ==> init[i] == records[i]);
        law_capture_hands_on_the_whole_stream(limit, buf, init);
        assert(records[records.len() - 1] == records.last());
        law_records_arrive_whole(limit, buf, records.last());
        assert(whole.drop_last() =~= init.map_values(|chunks: Seq<Seq<u8>>| joined(chunks)));
        assert(whole.last() == joined(records.last()));
    }
}

/// The kind of record that the engine reports; kinds that this library does not
/// know are `Unknown`.
#[derive(Clone, Copy, Debug, PartialEq, Eq, Structural)]
pub enum RawEventKind {
    Record,
    Ready,
    HistoryPage,
    Finish,
    Unknown,
}

/// What the engine reports of one emitted record. A screen that this library
/// does not know is `None`.
#[derive(Clone, Copy, Debug)]
pub struct RawCaptureEvent {
    pub kind: RawEventKind,
    pub screen: Option<Screen>,
    pub rows: usize,
    pub remaining: u32,
    pub written: usize,
}

impl RawCaptureEvent {
    /// The event, where the report makes sense.
    pub open spec fn event(self) -> Option<CaptureEvent> {
        match self.kind {
            RawEventKind::Record => Some(CaptureEvent::Record { written: self.written }),
            RawEventKind::Ready => Some(CaptureEvent::Ready { written: self.written }),
            RawEventKind::HistoryPage => match self.screen {
                Some(screen) => Some(
                    CaptureEvent::HistoryPage {
                        screen,
                        rows: self.rows,
                        remaining: self.remaining,
                        written: self.written,
                    },
                ),
                None => None,
            },
            RawEventKind::Finish => Some(CaptureEvent::Finish { written: self.written }),
            RawEventKind::Unknown => None,
        }
    }
}

/// A bounded progressive snapshot capture of one terminal.
pub struct Capture<C> {
    inner: C,
    writer: CaptureWriter,
    max_record_bytes: usize,
}

impl<C> Capture<C> {
    /// The capture of the engine.
    pub closed spec fn handle(&self) -> C {
        self.inner
    }

    /// What the engine writes the current record through.
    pub closed spec fn writer_view(&self) -> WriterView {
        self.writer@
    }

    /// The least size of buffer that a record is written into.
    pub closed spec fn record_limit(&self) -> nat {
        self.max_record_bytes as nat
    }

    /// No buffer of a caller is held between two records.
    pub open spec fn at_rest(&self) -> bool {
        self.writer_view().capacity is None
    }

    /// A capture with the given limits; `code` and `capture` are what the engine
    /// answered when it was asked for one. Limits that [`CaptureOptions::validate`]
    /// refuses are refused here too.
    pub fn new(options: CaptureOptions, code: ResultCode, capture: Option<C>) -> (r: Result<
        Capture<C>,
        Error,
    >)
        ensures
            !options.acceptable() ==> r == Err::<Capture<C>, Error>(Error::InvalidValue),
            options.acceptable() ==> match crate::snapshot::error::handle_when(code, capture) {
                Err(e) => r == Err::<Capture<C>, Error>(e),
                Ok(c) => r is Ok && r->Ok_0.handle() == c && r->Ok_0.at_rest()
                    && r->Ok_0.record_limit() == options.max_record_bytes
                    && r->Ok_0.writer_view().written == 0,
            },
    {
        if let Err(e) = options.validate() {
            return Err(e);
        }
        match open_handle(code, capture) {
            Err(e) => Err(e),
            Ok(inner) => Ok(
                Capture {
                    inner,
                    writer: CaptureWriter::idle(),
                    max_record_bytes: options.max_record_bytes,
                },
            ),
        }
    }

    /// Prepares `buf` for the next record. A buffer smaller than the largest
    /// record that the capture may emit is refused before the engine is asked,
    /// so that the engine cannot fail halfway through a record.
    pub fn begin_next(&mut self, buf: &[u8]) -> (r: Result<(), Error>)
        requires
            old(self).at_rest(),
        ensures
            final(self).handle() == old(self).handle(),
            final(self).record_limit() == old(self).record_limit(),
            buf@.len() < old(self).record_limit() ==> {
                &&& r == Err::<(), Error>(
                    Error::OutOfSpace { required: old(self).record_limit() as usize },
                )
                &&& final(self).writer_view() == old(self).writer_view()
            },
            buf@.len() >= old(self).record_limit() ==> {
                &&& r == Ok::<(), Error>(())
                &&& final(self).writer_view() == (WriterView {
                    capacity: Some(buf@.len()),
                    written: 0,
                })
            },
    {
        if buf.len() < self.max_record_bytes {
            return Err(Error::OutOfSpace { required: self.max_record_bytes });
        }
        self.writer.begin(buf);
        Ok(())
    }

    /// Takes data of the current record from the engine.
    pub fn write(&mut self, buf: &mut [u8], data: &[u8]) -> (ok: bool)
        requires
            old(self).writer_view().wf(),
            old(self).writer_view().capacity is Some ==> old(buf)@.len()
                == old(self).writer_view().capacity->0,
        ensures
            ok == old(self).writer_view().admits(data@.len()),
            ok ==> final(self).writer_view() == (WriterView {
                written: old(self).writer_view().written + data@.len(),
                ..old(self).writer_view()
            }),
            ok ==> final(buf)@ == old(buf)@.take(old(self).writer_view().written as int) + data@
                + old(buf)@.skip((old(self).writer_view().written + data@.len()) as int),
            !ok ==> final(self).writer_view() == old(self).writer_view() && final(buf)@
                == old(buf)@,
            final(self).writer_view().wf(),
            final(self).handle() == old(self).handle(),
            final(self).record_limit() == old(self).record_limit(),
    {
        self.writer.write(buf, data)
    }

    /// Ends the record that [`Capture::begin_next`] began with a buffer of
    /// `buf_len` bytes: `code` and `raw` are what the engine answered. A report
    /// that does not agree with what was written is refused.
    pub fn next(&mut self, buf_len: usize, code: ResultCode, raw: RawCaptureEvent) -> (r: Result<
        CaptureEvent,
        Error,
    >)
        ensures
            final(self).at_rest(),
            final(self).handle() == old(self).handle(),
            final(self).record_limit() == old(self).record_limit(),
            final(self).writer_view().written == old(self).writer_view().written,
            r == match crate::snapshot::error::error_of(code, 0) {
                Some(e) => Err::<CaptureEvent, Error>(e),
                None => if raw.written != old(self).writer_view().written || raw.written > buf_len {
                    Err(Error::InvalidValue)
                } else {
                    match raw.event() {
                        Some(event) => Ok(event),
                        None => Err(Error::InvalidValue),
                    }
                },
            },
    {
        self.writer.end();
        if let Err(e) = from_result(code) {
            return Err(e);
        }
        if raw.written != self.writer.written || raw.written > buf_len {
            return Err(Error::InvalidValue);
        }
        match raw.kind {
            RawEventKind::Record => Ok(CaptureEvent::Record { written: raw.written }),
            RawEventKind::Ready => Ok(CaptureEvent::Ready { written: raw.written }),
            RawEventKind::HistoryPage => match raw.screen {
                Some(screen) => Ok(
                    CaptureEvent::HistoryPage {
                        screen,
                        rows: raw.rows,
                        remaining: raw.remaining,
                        written: raw.written,
                    },
                ),
                None => Err(Error::InvalidValue),
            },
            RawEventKind::Finish => Ok(CaptureEvent::Finish { written: raw.written }),
            RawEventKind::Unknown => Err(Error::InvalidValue),
        }
    }
}

/// An event that a capture reports carries the size of the record under it.
pub proof fn law_event_size_is_record_size(raw: RawCaptureEvent)
    ensures
        raw.event() is Some ==> raw.event()->0.size() == raw.written,
{
}

/// Limits are accepted exactly where a record's header of ten bytes fits and at
/// least one page is allowed.
pub proof fn law_limits_leave_room_for_a_header_and_a_page(
    options: CaptureOptions,
    r: Result<(), Error>,
)
    requires
        call_ensures(CaptureOptions::validate, (options,), r),
    ensures
        r is Ok <==> options.max_record_bytes >= 10 && options.max_pages >= 1,
        r is Err ==> r->Err_0 == Error::InvalidValue,
{
}

/// An event tells its own kind and its own size.
pub proof fn law_events_tell_kind_and_size(e: CaptureEvent, k: CaptureEventKind, n: usize)
    requires
        call_ensures(CaptureEvent::kind, (e,), k),
        call_ensures(CaptureEvent::written, (e,), n),
    ensures
        k == CaptureEventKind::Record <==> e is Record,
        k == CaptureEventKind::Ready <==> e is Ready,
        k == CaptureEventKind::HistoryPage <==> e is HistoryPage,
        k == CaptureEventKind::Finish <==> e is Finish,
        e matches CaptureEvent::Record { written } ==> n == written,
        e matches CaptureEvent::Ready { written } ==> n == written,
        e matches CaptureEvent::HistoryPage { written, .. } ==> n == written,
        e matches CaptureEvent::Finish { written } ==> n == written,
{
}

/// A buffer is taken for the next record exactly where the largest record that was
/// agreed on fits into it; otherwise that size is asked for, and nothing changes.
pub proof fn law_small_buffers_are_refused_first<C>(
    options: CaptureOptions,
    code: ResultCode,
    handle: Option<C>,
    opened: Result<C, Error>,
    made: Result<Capture<C>, Error>,
    capture: &mut Capture<C>,
    buf: &[u8],
    r: Result<(), Error>,
)
    requires
        call_ensures(Capture::<C>::new, (options, code, handle), made),
        call_ensures(open_handle::<C>, (code, handle), opened),
        made == Ok::<Capture<C>, Error>(*old(capture)),
        call_ensures(Capture::<C>::begin_next, (capture, buf), r),
    ensures
        options.max_record_bytes >= 10 && options.max_pages >= 1,
        opened == Ok::<C, Error>(old(capture).handle()),
        r is Ok <==> buf@.len() >= options.max_record_bytes,
        r matches Err(e) ==> e == (Error::OutOfSpace { required: options.max_record_bytes }),
        r is Err ==> final(capture).writer_view() == old(capture).writer_view(),
        r is Ok ==> final(capture).writer_view().capacity == Some(buf@.len())
            && final(capture).writer_view().written == 0,
        final(capture).handle() == old(capture).handle(),
{
}

/// A capture is refused where its limits are, and otherwise as the engine says.
pub proof fn law_captures_keep_to_their_limits<C>(
    options: CaptureOptions,
    code: ResultCode,
    handle: Option<C>,
    opened: Result<C, Error>,
    r: Result<Capture<C>, Error>,
)
    requires
        call_ensures(Capture::<C>::new, (options, code, handle), r),
        call_ensures(open_handle::<C>, (code, handle), opened),
    ensures
        r is Ok <==> options.max_record_bytes >= 10 && options.max_pages >= 1 && opened is Ok,
        options.max_record_bytes < 10 || options.max_pages == 0 ==> r is Err && r->Err_0
            == Error::InvalidValue,
        options.max_record_bytes >= 10 && options.max_pages >= 1 && opened is Err ==> r is Err
            && r->Err_0 == opened->Err_0,
        r matches Ok(c) ==> Some(c.handle()) == handle && c.record_limit()
            == options.max_record_bytes && c.at_rest(),
{
}

/// Data is written exactly where a buffer is installed and has room for all of it;
/// it then stands behind what was written before, and everything else in the buffer
/// stays. Otherwise nothing changes.
pub proof fn law_data_is_written_whole_or_not_at_all<C>(
    capture: &mut Capture<C>,
    buf: &mut [u8],
    data: &[u8],
    ok: bool,
)
    requires
        old(capture).writer_view().wf(),
        old(capture).writer_view().capacity is Some ==> old(buf)@.len()
            == old(capture).writer_view().capacity->0,
        call_ensures(Capture::<C>::write, (capture, buf, data), ok),
    ensures
        ({
            let w = old(capture).writer_view();
            &&& ok <==> w.capacity is Some && w.written + data@.len() <= w.capacity->0
            &&& final(buf)@.len() == old(buf)@.len()
            &&& ok ==> final(capture).writer_view().written == w.written + data@.len()
            &&& !ok ==> final(capture).writer_view().written == w.written
            &&& final(capture).writer_view().capacity == w.capacity
            &&& ok ==> forall|i: int|
                0 <= i < data@.len() ==> final(buf)@[w.written + i] == #[trigger] data@[i]
            &&& ok ==> forall|i: int|
                0 <= i < w.written || w.written + data@.len() <= i < old(buf)@.len()
                    ==> #[trigger] final(buf)@[i] == old(buf)@[i]
            &&& !ok ==> final(buf)@ == old(buf)@
            &&& final(capture).handle() == old(capture).handle()
        }),
{
}

/// A record ends as an event exactly where the engine reports success, a kind that
/// is known and, for a page, a screen that is known, and claims as many bytes as it
/// wrote, inside the buffer. The event is of that kind and carries the engine's
/// numbers. The buffer is given back in any case.
pub proof fn law_records_are_reported_as_written<C>(
    capture: &mut Capture<C>,
    buf_len: usize,
    code: ResultCode,
    raw: RawCaptureEvent,
    told: Result<(), Error>,
    r: Result<CaptureEvent, Error>,
)
    requires
        call_ensures(Capture::<C>::next, (capture, buf_len, code, raw), r),
        call_ensures(from_result, (code,), told),
    ensures
        final(capture).writer_view().capacity is None,
        final(capture).handle() == old(capture).handle(),
        r is Ok <==> code == ResultCode::Success && raw.written == old(
            capture,
        ).writer_view().written && raw.written <= buf_len && raw.kind != RawEventKind::Unknown && (
        raw.kind == RawEventKind::HistoryPage ==> raw.screen is Some),
        r matches Ok(e) ==> {
            &&& e is Record <==> raw.kind == RawEventKind::Record
            &&& e is Ready <==> raw.kind == RawEventKind::Ready
            &&& e is HistoryPage <==> raw.kind == RawEventKind::HistoryPage
            &&& e is Finish <==> raw.kind == RawEventKind::Finish
            &&& e matches CaptureEvent::Record { written } ==> written == raw.written
            &&& e matches CaptureEvent::Ready { written } ==> written == raw.written
            &&& e matches CaptureEvent::Finish { written } ==> written == raw.written
            &&& e matches CaptureEvent::HistoryPage { screen, rows, remaining, written }
                ==> raw.screen == Some(screen) && rows == raw.rows && remaining == raw.remaining
                && written == raw.written
        },
        r matches Err(e) ==> e == (match told {
            Err(t) => t,
            Ok(()) => Error::InvalidValue,
        }),
{
}

/// A writer takes nothing until a buffer is installed, counts from nought when one
/// is, and keeps its count when the buffer is taken away.
pub proof fn law_writers_need_a_buffer(
    idle: CaptureWriter,
    begun: &mut CaptureWriter,
    buf: &[u8],
    ended: &mut CaptureWriter,
)
    requires
        call_ensures(CaptureWriter::idle, (), idle),
        call_ensures(CaptureWriter::begin, (begun, buf), ()),
        call_ensures(CaptureWriter::end, (ended,), ()),
    ensures
        idle@.capacity is None && idle@.written == 0,
        final(begun)@.capacity == Some(buf@.len()) && final(begun)@.written == 0,
        final(ended)@.capacity is None && final(ended)@.written == old(ended)@.written,
{
}

/// What a writer admits stands behind what was written before, and everything else
/// in the buffer stays; what it does not admit changes nothing.
pub proof fn law_writers_write_whole_or_not_at_all(
    w: &mut CaptureWriter,
    buf: &mut [u8],
    data: &[u8],
    ok: bool,
)
    requires
        old(w)@.wf(),
        old(w)@.capacity is Some ==> old(buf)@.len() == old(w)@.capacity->0,
        call_ensures(CaptureWriter::write, (w, buf, data), ok),
    ensures
        ok <==> old(w)@.capacity is Some && old(w)@.written + data@.len() <= old(buf)@.len(),
        final(w)@.capacity == old(w)@.capacity,
        final(w)@.written == old(w)@.written + (if ok {
            data@.len()
        } else {
            0
        }),
        final(buf)@.len() == old(buf)@.len(),
        ok ==> forall|i: int|
            0 <= i < data@.len() ==> final(buf)@[old(w)@.written + i] == #[trigger] data@[i],
        forall|i: int|
            0 <= i < old(buf)@.len() && !(ok && old(w)@.written <= i < old(w)@.written
                + data@.len()) ==> #[trigger] final(buf)@[i] == old(buf)@[i],
{
}

} // verus!
