//! Incremental capture into the caller's buffer.
use vstd::prelude::*;
use vstd::slice::*;

use crate::snapshot::incremental::status::{
    from_status, open_handle, CheckpointToken, Error, Released, ScreenKey, SnapshotStatus,
};

verus! {

/// Strict limits for incremental capture.
#[derive(Clone, Copy, Debug, PartialEq, Eq, Structural)]
pub struct CaptureOptions {
    /// Inclusive limit for one envelope or framed record.
    pub max_record_bytes: usize,
    /// Inclusive PAGE-record count.
    pub max_pages: usize,
}

impl Default for CaptureOptions {
    fn default() -> (o: CaptureOptions)
        ensures
            o == (CaptureOptions { max_record_bytes: 0x40_0000, max_pages: 4096 }),
    {
        CaptureOptions { max_record_bytes: 4 * 1024 * 1024, max_pages: 4096 }
    }
}

/// The kind of record that the engine reports; kinds that this library does not
/// know are `Unknown`.
#[derive(Clone, Copy, Debug, PartialEq, Eq, Structural)]
pub enum RawCaptureKind {
    Record,
    Ready,
    HistoryBegin,
    HistoryPage,
    Finish,
    Unknown,
}

/// What the engine answered when it was asked for the next record.
pub struct CaptureReply {
    pub status: SnapshotStatus,
    pub kind: RawCaptureKind,
    pub codec_version: u16,
    pub written: usize,
    pub required_bytes: usize,
    pub screen_key: u16,
    pub index: u32,
    pub count: u32,
    pub checkpoint: Vec<u8>,
}

/// Metadata for one complete opaque capture record.
pub enum CaptureEventKind {
    /// Envelope or non-boundary state record.
    Record,
    /// Authenticated renderable boundary.
    Ready {
        /// Digest authenticating all bytes through READY.
        checkpoint: CheckpointToken,
    },
    /// Start of one screen's snapshot history pages.
    HistoryBegin {
        /// Screen generation key.
        screen: ScreenKey,
        /// Total pages for this screen.
        count: u32,
    },
    /// One snapshot history page.
    HistoryPage {
        /// Screen generation key.
        screen: ScreenKey,
        /// Zero-based page index.
        index: u32,
        /// Total pages for this screen.
        count: u32,
    },
    /// Authenticated end of exactly one snapshot.
    Finish,
}

impl CaptureEventKind {
    /// The metadata are those of the engine's answer.
    pub open spec fn describes(self, reply: CaptureReply) -> bool {
        match reply.kind {
            RawCaptureKind::Record => self is Record,
            RawCaptureKind::Ready => self is Ready && self->checkpoint@ == reply.checkpoint@,
            RawCaptureKind::HistoryBegin => self == (CaptureEventKind::HistoryBegin {
                screen: ScreenKey(reply.screen_key),
                count: reply.count,
            }),
            RawCaptureKind::HistoryPage => self == (CaptureEventKind::HistoryPage {
                screen: ScreenKey(reply.screen_key),
                index: reply.index,
                count: reply.count,
            }),
            RawCaptureKind::Finish => self is Finish,
            RawCaptureKind::Unknown => false,
        }
    }
}

/// One complete capture record in the caller's buffer.
pub struct CaptureEvent<'buffer> {
    /// Typed record metadata.
    pub kind: CaptureEventKind,
    /// Snapshot envelope version emitted by this capture.
    pub codec_version: u16,
    /// Complete opaque record bytes.
    pub record: &'buffer [u8],
}

/// What the caller sees of an answer about a buffer of `capacity` bytes: an
/// error, or nothing where the record in the buffer can be handed out.
pub open spec fn capture_refusal(reply: CaptureReply, capacity: nat) -> Option<Error> {
    match crate::snapshot::incremental::status::error_of(reply.status, reply.required_bytes, 0) {
        Some(e) => Some(e),
        None => if reply.written > capacity || reply.required_bytes != reply.written || reply.kind
            == RawCaptureKind::Unknown {
            Some(Error::InvalidState)
        } else {
            None
        },
    }
}

/// An incremental capture of one terminal. Until it is aborted, the engine has
/// the capture under way.
pub struct Capture<C> {
    inner: C,
}

impl<C> Capture<C> {
    /// The capture of the engine.
    pub closed spec fn handle(&self) -> C {
        self.inner
    }

    /// Wraps the capture that the engine began.
    pub fn new(status: SnapshotStatus, capture: Option<C>) -> (r: Result<Capture<C>, Error>)
        ensures
            match crate::snapshot::incremental::status::handle_when(status, capture) {
                Err(e) => r == Err::<Capture<C>, Error>(e),
                Ok(c) => r is Ok && r->Ok_0.handle() == c,
            },
    {
        match open_handle(status, capture) {
            Err(e) => Err(e),
            Ok(inner) => Ok(Capture { inner }),
        }
    }

    /// Ends one step of the capture, for which the engine was given `buffer`.
    ///
    /// [`Error::OutOfSpace`] carries the size that the engine requires; the
    /// capture itself stays as it is, so that the step can be tried again with a
    /// buffer of that size.
    pub fn next<'buffer>(&mut self, buffer: &'buffer [u8], reply: CaptureReply) -> (r: Result<
        CaptureEvent<'buffer>,
        Error,
    >)
        ensures
            *final(self) == *old(self),
            match capture_refusal(reply, buffer@.len()) {
                Some(e) => r == Err::<CaptureEvent<'buffer>, Error>(e),
                None => {
                    &&& r is Ok
                    &&& r->Ok_0.kind.describes(reply)
                    &&& r->Ok_0.codec_version == reply.codec_version
                    &&& r->Ok_0.record@ == buffer@.take(reply.written as int)
                },
            },
    {
        if let Err(e) = from_status(reply.status, reply.required_bytes, 0) {
            return Err(e);
        }
        if reply.written > buffer.len() || reply.required_bytes != reply.written {
            return Err(Error::InvalidState);
        }
        let record = slice_subrange(buffer, 0, reply.written);
        let codec_version = reply.codec_version;
        let kind = match reply.kind {
            RawCaptureKind::Record => CaptureEventKind::Record,
            RawCaptureKind::Ready => CaptureEventKind::Ready {
                checkpoint: CheckpointToken::new(reply.checkpoint),
            },
            RawCaptureKind::HistoryBegin => CaptureEventKind::HistoryBegin {
                screen: ScreenKey(reply.screen_key),
                count: reply.count,
            },
            RawCaptureKind::HistoryPage => CaptureEventKind::HistoryPage {
                screen: ScreenKey(reply.screen_key),
                index: reply.index,
                count: reply.count,
            },
            RawCaptureKind::Finish => CaptureEventKind::Finish,
            RawCaptureKind::Unknown => {
                return Err(Error::InvalidState);
            },
        };
        Ok(CaptureEvent { kind, codec_version, record })
    }

    /// Ends the capture after the engine was asked to abort it, whatever the
    /// engine answered: it is not aborted a second time.
    pub fn abort(self, status: SnapshotStatus) -> (r: (Result<(), Error>, Released<C>))
        ensures
            r.0 == crate::snapshot::incremental::status::outcome(status, 0, 0),
            r.1 == (Released { handle: self.handle(), abort: false }),
    {
        (from_status(status, 0, 0), Released { handle: self.inner, abort: false })
    }

    /// Gives the capture up: it is still to be aborted.
    pub fn release(self) -> (r: Released<C>)
        ensures
            r == (Released { handle: self.handle(), abort: true }),
    {
        Released { handle: self.inner, abort: true }
    }
}

/// An answer that says which size is required is reported with exactly that
/// size, however large the buffer was.
pub proof fn law_short_buffer_reports_the_required_size(reply: CaptureReply, capacity: nat)
    requires
        reply.status == SnapshotStatus::OutOfSpace,
    ensures
        capture_refusal(reply, capacity) == Some(
            Error::OutOfSpace { required_bytes: reply.required_bytes, required_rows: 0 },
        ),
{
}

/// `answer` tells what the engine says to a buffer of a given size while it has a
/// record of `size` bytes to hand out: it asks for that size until it gets it.
pub open spec fn offers(answer: spec_fn(nat) -> CaptureReply, size: usize) -> bool {
    forall|capacity: nat|
        #![trigger answer(capacity)]
        answer(capacity).required_bytes == size && if capacity < size {
            answer(capacity).status == SnapshotStatus::OutOfSpace
        } else {
            &&& answer(capacity).status == SnapshotStatus::Success
            &&& answer(capacity).kind != RawCaptureKind::Unknown
            &&& answer(capacity).written == size
        }
}

/// A short buffer does not lose a record that the engine goes on offering: every
/// buffer that is too small is refused with the same size, and one of that size,
/// or a larger one, gets the record.
pub proof fn law_short_buffers_lose_no_record(
    answer: spec_fn(nat) -> CaptureReply,
    size: usize,
    capacity: nat,
)
    requires
        offers(answer, size),
    ensures
        capacity < size ==> capture_refusal(answer(capacity), capacity) == Some(
            Error::OutOfSpace { required_bytes: size, required_rows: 0 },
        ),
        capacity >= size ==> capture_refusal(answer(capacity), capacity) is None && answer(
            capacity,
        ).written == size,
{
    assert(answer(capacity).required_bytes == size);
}

/// A record that is handed out lies inside the buffer and is exactly as long as
/// the engine required.
pub proof fn law_records_fit_their_buffer(reply: CaptureReply, buffer: Seq<u8>)
    requires
        capture_refusal(reply, buffer.len()) is None,
    ensures
        buffer.take(reply.written as int).len() == reply.required_bytes,
        reply.required_bytes <= buffer.len(),
{
}

/// A step of a capture succeeds exactly where the engine reports success, a kind
/// that is known, and as many bytes written as it required, inside the buffer. The
/// boundary that is reported is the one that the engine emitted, with the engine's
/// screen, index, count and checkpoint; the record is what the engine wrote. The
/// capture itself stays as it is.
pub proof fn law_boundaries_are_reported_as_emitted<'buffer, C>(
    capture: &mut Capture<C>,
    buffer: &'buffer [u8],
    reply: CaptureReply,
    told: Result<(), Error>,
    r: Result<CaptureEvent<'buffer>, Error>,
)
    requires
        call_ensures(Capture::<C>::next, (capture, buffer, reply), r),
        call_ensures(from_status, (reply.status, reply.required_bytes, 0usize), told),
    ensures
        *final(capture) == *old(capture),
        r is Ok <==> reply.status == SnapshotStatus::Success && reply.written <= buffer@.len()
            && reply.written == reply.required_bytes && reply.kind != RawCaptureKind::Unknown,
        r matches Ok(event) ==> {
            &&& event.kind is Record <==> reply.kind == RawCaptureKind::Record
            &&& event.kind is Ready <==> reply.kind == RawCaptureKind::Ready
            &&& event.kind is HistoryBegin <==> reply.kind == RawCaptureKind::HistoryBegin
            &&& event.kind is HistoryPage <==> reply.kind == RawCaptureKind::HistoryPage
            &&& event.kind is Finish <==> reply.kind == RawCaptureKind::Finish
            &&& event.codec_version == reply.codec_version
            &&& event.record@.len() == reply.written
            &&& forall|i: int|
                0 <= i < reply.written ==> #[trigger] event.record@[i] == buffer@[i]
            &&& event.kind matches CaptureEventKind::Ready { checkpoint } ==> checkpoint@
                == reply.checkpoint@
            &&& event.kind matches CaptureEventKind::HistoryBegin { screen, count } ==> screen.0
                == reply.screen_key && count == reply.count
            &&& event.kind matches CaptureEventKind::HistoryPage { screen, index, count }
                ==> screen.0 == reply.screen_key && index == reply.index && count == reply.count
        },
        r matches Err(e) ==> e == (match told {
            Err(t) => t,
            Ok(()) => Error::InvalidState,
        }),
{
}

/// Two steps that report boundaries of the same kind were answered with the same
/// kind: no boundary is taken for another.
pub proof fn law_boundaries_are_told_apart<'buffer, C>(
    capture: &mut Capture<C>,
    other: &mut Capture<C>,
    buffer: &'buffer [u8],
    a: CaptureReply,
    b: CaptureReply,
    r: Result<CaptureEvent<'buffer>, Error>,
    s: Result<CaptureEvent<'buffer>, Error>,
)
    requires
        call_ensures(Capture::<C>::next, (capture, buffer, a), r),
        call_ensures(Capture::<C>::next, (other, buffer, b), s),
        r is Ok,
        s is Ok,
        r->Ok_0.kind == s->Ok_0.kind,
    ensures
        a.kind == b.kind,
{
}

/// A capture that is aborted on request is not aborted again, whatever the engine
/// answered; one that is given up is still to be aborted. Either way its handle
/// comes out.
pub proof fn law_captures_are_aborted_once<C>(
    capture: Capture<C>,
    status: SnapshotStatus,
    told: Result<(), Error>,
    aborted: (Result<(), Error>, Released<C>),
    released: Released<C>,
)
    requires
        call_ensures(Capture::<C>::abort, (capture, status), aborted),
        call_ensures(Capture::<C>::release, (capture,), released),
        call_ensures(from_status, (status, 0usize, 0usize), told),
    ensures
        aborted.0 == told,
        !aborted.1.abort,
        released.abort,
        aborted.1.handle == capture.handle(),
        released.handle == capture.handle(),
{
}

/// A capture is made exactly where the engine reports success and gave one; it is
/// that very one that is given up in the end.
pub proof fn law_captures_wrap_the_engines<C>(
    status: SnapshotStatus,
    capture: Option<C>,
    opened: Result<C, Error>,
    r: Result<Capture<C>, Error>,
    gone: Released<C>,
)
    requires
        call_ensures(Capture::<C>::new, (status, capture), r),
        call_ensures(open_handle::<C>, (status, capture), opened),
        r is Ok ==> call_ensures(Capture::<C>::release, (r->Ok_0,), gone),
    ensures
        r is Ok <==> status == SnapshotStatus::Success && capture is Some,
        r matches Err(e) ==> opened == Err::<C, Error>(e),
        r is Ok ==> Some(gone.handle) == capture,
{
}

} // verus!
