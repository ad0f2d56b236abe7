//! Decoding a snapshot from fragments, one bounded transition at a time.
//!
//! The states follow each other one way: a [`Decoder`] reaches READY as a
//! [`ReadyDecoder`], hands its terminal over once as a [`ContinuationDecoder`],
//! replays the pending parser input to become a [`DecodedStream`], and ends as a
//! [`FinishedSnapshot`].
use vstd::prelude::*;

use crate::snapshot::incremental::status::{
    failure_message, from_status, open_handle, Error, Released, ScreenKey, SnapshotStatus,
};

verus! {

/// Strict limits for a fragmented decoder.
#[derive(Clone, Copy, Debug, PartialEq, Eq, Structural)]
pub struct DecoderOptions {
    /// Greatest retained parser-continuation byte count.
    pub max_continuation_bytes: usize,
    /// Inclusive limit for one envelope or framed record.
    pub max_record_bytes: usize,
    /// Inclusive PAGE-record count.
    pub max_pages: usize,
}

impl Default for DecoderOptions {
    fn default() -> (o: DecoderOptions)
        ensures
            o == (DecoderOptions {
                max_continuation_bytes: 0x10_0000,
                max_record_bytes: 0x40_0000,
                max_pages: 4096,
            }),
    {
        DecoderOptions {
            max_continuation_bytes: 1024 * 1024,
            max_record_bytes: 4 * 1024 * 1024,
            max_pages: 4096,
        }
    }
}

/// The kind of transition that the engine reports; kinds that this library does
/// not know are `Unknown`.
#[derive(Clone, Copy, Debug, PartialEq, Eq, Structural)]
pub enum DecodeEventKind {
    NeedInput,
    Progress,
    Ready,
    HistoryBegin,
    HistoryPage,
    Finish,
    Unknown,
}

/// What the engine answered when a fragment was pushed.
#[derive(Clone, Copy, Debug)]
pub struct DecodeReply {
    pub status: SnapshotStatus,
    pub kind: DecodeEventKind,
    pub consumed: usize,
    pub needed: usize,
    pub codec_version: u16,
    pub screen_key: u16,
    pub index: u32,
    pub count: u32,
    pub retained: bool,
}

/// Common accounting for one decoder transition.
#[derive(Clone, Copy, Debug, PartialEq, Eq, Structural)]
pub struct DecodeProgress {
    /// Bytes consumed from the submitted fragment.
    pub consumed: usize,
    /// Additional bytes currently needed for the buffered record.
    pub needed: usize,
    /// Snapshot envelope version, once known.
    pub codec_version: u16,
}

impl DecodeReply {
    /// The accounting of the transition.
    pub open spec fn accounting(self) -> DecodeProgress {
        DecodeProgress {
            consumed: self.consumed,
            needed: self.needed,
            codec_version: self.codec_version,
        }
    }

    /// The accounting of the transition.
    pub fn progress(self) -> (p: DecodeProgress)
        ensures
            p == self.accounting(),
    {
        DecodeProgress {
            consumed: self.consumed,
            needed: self.needed,
            codec_version: self.codec_version,
        }
    }

    /// What the engine did wrong with a fragment of `len` bytes, if anything: a
    /// failing status, or more bytes consumed than there were.
    pub open spec fn fault(self, len: nat) -> Option<Error> {
        match crate::snapshot::incremental::status::error_of(self.status, 0, 0) {
            Some(e) => Some(e),
            None => if self.consumed > len {
                Some(Error::InvalidState)
            } else {
                None
            },
        }
    }

    /// As [`DecodeReply::fault`], where only the given transitions are possible.
    pub open spec fn fault_before_ready(self, len: nat) -> Option<Error> {
        match self.fault(len) {
            Some(e) => Some(e),
            None => match self.kind {
                DecodeEventKind::NeedInput | DecodeEventKind::Progress
                | DecodeEventKind::Ready => None,
                _ => Some(Error::InvalidState),
            },
        }
    }

    /// As [`DecodeReply::fault`] after READY, which does not come a second time.
    pub open spec fn fault_after_ready(self, len: nat) -> Option<Error> {
        match self.fault(len) {
            Some(e) => Some(e),
            None => match self.kind {
                DecodeEventKind::Ready | DecodeEventKind::Unknown => Some(Error::InvalidState),
                _ => None,
            },
        }
    }

    fn check(self, len: usize) -> (r: Result<(), Error>)
        ensures
            r == match self.fault(len as nat) {
                Some(e) => Err::<(), Error>(e),
                None => Ok(()),
            },
    {
        if let Err(e) = from_status(self.status, 0, 0) {
            return Err(e);
        }
        if self.consumed > len {
            return Err(Error::InvalidState);
        }
        Ok(())
    }
}

/// A terminal-free decode failure with exact fragment consumption.
#[derive(Clone, Copy, Debug, PartialEq, Eq, Structural)]
pub struct DecodeFailure {
    /// Exact error of the engine.
    pub error: Error,
    /// Bytes consumed from the fragment before failure.
    pub consumed: usize,
}

impl DecodeFailure {
    /// The text of this failure.
    pub fn message(self) -> (s: String)
        ensures
            s@ == crate::snapshot::incremental::status::failure_text(self.error, self.consumed),
    {
        failure_message(self.error, self.consumed)
    }
}

/// Decoder before the authenticated READY boundary.
pub struct Decoder<D> {
    inner: D,
}

/// Typed transition before READY.
pub enum DecodeStep<D> {
    /// More bytes are required to complete the current record.
    NeedInput {
        /// Decoder for the unconsumed suffix or next fragment.
        decoder: Decoder<D>,
        /// Exact transition accounting.
        progress: DecodeProgress,
    },
    /// One bounded non-READY transition completed.
    Progress {
        /// Decoder for the unconsumed suffix or next fragment.
        decoder: Decoder<D>,
        /// Exact transition accounting.
        progress: DecodeProgress,
    },
    /// The authenticated renderable terminal is available.
    Ready {
        /// One-shot READY terminal transfer state.
        decoder: ReadyDecoder<D>,
        /// Exact transition accounting.
        progress: DecodeProgress,
    },
}

impl<D> DecodeStep<D> {
    /// The step that an acceptable answer leads to, with the decoder `d`.
    pub open spec fn follows(self, d: D, reply: DecodeReply) -> bool {
        match reply.kind {
            DecodeEventKind::NeedInput => self matches DecodeStep::NeedInput {
                decoder,
                progress,
            } && decoder.handle() == d && progress == reply.accounting(),
            DecodeEventKind::Progress => self matches DecodeStep::Progress { decoder, progress }
                && decoder.handle() == d && progress == reply.accounting(),
            DecodeEventKind::Ready => self matches DecodeStep::Ready { decoder, progress }
                && decoder.handle() == d && decoder.version() == reply.codec_version && progress
                == reply.accounting(),
            _ => false,
        }
    }
}

impl<D> Decoder<D> {
    /// The decoder of the engine.
    pub closed spec fn handle(&self) -> D {
        self.inner
    }

    /// Wraps the decoder that the engine gave.
    pub fn new(status: SnapshotStatus, decoder: Option<D>) -> (r: Result<Decoder<D>, Error>)
        ensures
            match crate::snapshot::incremental::status::handle_when(status, decoder) {
                Err(e) => r == Err::<Decoder<D>, Error>(e),
                Ok(d) => r is Ok && r->Ok_0.handle() == d,
            },
    {
        match open_handle(status, decoder) {
            Err(e) => Err(e),
            Ok(inner) => Ok(Decoder { inner }),
        }
    }

    /// Ends one transition, for which the engine was given `data`. A decoder
    /// that fails is given up and has to be aborted.
    pub fn push(self, data: &[u8], reply: DecodeReply) -> (r: (
        Result<DecodeStep<D>, DecodeFailure>,
        Option<Released<D>>,
    ))
        ensures
            match reply.fault_before_ready(data@.len()) {
                Some(error) => {
                    &&& r.0 == Err::<DecodeStep<D>, DecodeFailure>(
                        DecodeFailure { error, consumed: reply.consumed },
                    )
                    &&& r.1 == Some(Released { handle: self.handle(), abort: true })
                },
                None => r.0 is Ok && r.0->Ok_0.follows(self.handle(), reply) && r.1 is None,
            },
    {
        let progress = reply.progress();
        let error = match reply.check(data.len()) {
            Err(error) => error,
            Ok(()) => match reply.kind {
                DecodeEventKind::NeedInput => {
                    return (Ok(DecodeStep::NeedInput { decoder: self, progress }), None);
                },
                DecodeEventKind::Progress => {
                    return (Ok(DecodeStep::Progress { decoder: self, progress }), None);
                },
                DecodeEventKind::Ready => {
                    let decoder = ReadyDecoder {
                        inner: self.inner,
                        codec_version: reply.codec_version,
                    };
                    return (Ok(DecodeStep::Ready { decoder, progress }), None);
                },
                _ => Error::InvalidState,
            },
        };
        (
            Err(DecodeFailure { error, consumed: reply.consumed }),
            Some(Released { handle: self.inner, abort: true }),
        )
    }

    /// Ends the transition by which the end of input was marked: the engine was
    /// given an empty fragment.
    pub fn end_input(self, reply: DecodeReply) -> (r: (
        Result<DecodeStep<D>, DecodeFailure>,
        Option<Released<D>>,
    ))
        ensures
            match reply.fault_before_ready(0) {
                Some(error) => {
                    &&& r.0 == Err::<DecodeStep<D>, DecodeFailure>(
                        DecodeFailure { error, consumed: reply.consumed },
                    )
                    &&& r.1 == Some(Released { handle: self.handle(), abort: true })
                },
                None => r.0 is Ok && r.0->Ok_0.follows(self.handle(), reply) && r.1 is None,
            },
    {
        self.push(&[], reply)
    }

    /// Gives the decoder up: it is still to be aborted.
    pub fn release(self) -> (r: Released<D>)
        ensures
            r == (Released { handle: self.handle(), abort: true }),
    {
        Released { handle: self.inner, abort: true }
    }
}

/// Decoder positioned exactly at READY, before terminal transfer.
pub struct ReadyDecoder<D> {
    inner: D,
    codec_version: u16,
}

/// The terminal that the engine handed over at READY.
pub enum HandedTerminal<T> {
    /// The engine gave a null pointer.
    Missing,
    /// The engine gave one that cannot be wrapped; it was freed.
    Unusable,
    /// The terminal.
    Usable(T),
}

impl<T> HandedTerminal<T> {
    /// The terminal, where there is one that can be used.
    pub open spec fn usable(self) -> Option<T> {
        match self {
            HandedTerminal::Usable(terminal) => Some(terminal),
            _ => None,
        }
    }
}

/// What the engine answered when the READY terminal was taken.
pub struct TakeReply<T> {
    pub status: SnapshotStatus,
    pub terminal: HandedTerminal<T>,
    pub codec_version: u16,
}

impl<T> TakeReply<T> {
    /// Why a terminal of the envelope version `version` cannot be taken, if so.
    pub open spec fn fault(self, version: u16) -> Option<Error> {
        match crate::snapshot::incremental::status::error_of(self.status, 0, 0) {
            Some(e) => Some(e),
            None => if self.terminal is Missing || self.codec_version != version {
                Some(Error::InvalidState)
            } else if self.terminal is Unusable {
                Some(Error::InvalidHandle)
            } else {
                None
            },
        }
    }
}

impl<D> ReadyDecoder<D> {
    /// The decoder of the engine.
    pub closed spec fn handle(&self) -> D {
        self.inner
    }

    /// The envelope version that READY was authenticated with.
    pub closed spec fn version(&self) -> u16 {
        self.codec_version
    }

    /// Ends the transfer of the READY terminal, which happens once. Where it
    /// fails, a terminal that came along is dropped, and the decoder is given up
    /// and has to be aborted.
    pub fn take_terminal<T>(self, reply: TakeReply<T>) -> (r: (
        Result<ContinuationDecoder<D, T>, Error>,
        Option<Released<D>>,
    ))
        ensures
            match reply.fault(self.version()) {
                Some(error) => {
                    &&& r.0 == Err::<ContinuationDecoder<D, T>, Error>(error)
                    &&& r.1 == Some(Released { handle: self.handle(), abort: true })
                },
                None => r.0 is Ok && r.0->Ok_0.took(self, reply) && r.1 is None,
            },
    {
        let error = match from_status(reply.status, 0, 0) {
            Err(error) => error,
            Ok(()) => match reply.terminal {
                HandedTerminal::Usable(terminal) => {
                    if reply.codec_version == self.codec_version {
                        let decoder = ContinuationDecoder {
                            inner: self.inner,
                            terminal,
                            codec_version: reply.codec_version,
                        };
                        return (Ok(decoder), None);
                    }
                    Error::InvalidState
                },
                HandedTerminal::Unusable => {
                    if reply.codec_version == self.codec_version {
                        Error::InvalidHandle
                    } else {
                        Error::InvalidState
                    }
                },
                HandedTerminal::Missing => Error::InvalidState,
            },
        };
        (Err(error), Some(Released { handle: self.inner, abort: true }))
    }

    /// Gives the decoder up: it is still to be aborted.
    pub fn release(self) -> (r: Released<D>)
        ensures
            r == (Released { handle: self.handle(), abort: true }),
    {
        Released { handle: self.inner, abort: true }
    }
}

/// READY terminal after one-way transfer and before continuation replay.
///
/// The terminal is not handed out while its authenticated parser continuation
/// is pending.
pub struct ContinuationDecoder<D, T> {
    inner: D,
    terminal: T,
    codec_version: u16,
}

/// Failed continuation replay, with everything that a second try needs.
pub struct ContinuationFailure<D, T> {
    /// Exact error of the engine.
    pub error: Error,
    /// Decoder and READY terminal, unchanged.
    pub decoder: ContinuationDecoder<D, T>,
}

impl<D, T> ContinuationFailure<D, T> {
    /// The text of this failure.
    pub fn message(&self) -> (s: String)
        ensures
            s@ == crate::snapshot::incremental::status::error_text(self.error),
    {
        self.error.message()
    }
}

impl<D, T> ContinuationDecoder<D, T> {
    /// The decoder of the engine.
    pub closed spec fn handle(&self) -> D {
        self.inner
    }

    /// The envelope version that READY was authenticated with.
    pub closed spec fn version(&self) -> u16 {
        self.codec_version
    }

    /// The terminal that waits for its continuation.
    pub closed spec fn pending(&self) -> T {
        self.terminal
    }

    /// This is what taking the terminal of `ready` leads to.
    pub open spec fn took(self, ready: ReadyDecoder<D>, reply: TakeReply<T>) -> bool {
        &&& self.handle() == ready.handle()
        &&& self.version() == ready.version()
        &&& Some(self.pending()) == reply.terminal.usable()
    }

    /// This is what a replay that the engine answered with `status` leads to.
    pub open spec fn replayed(
        self,
        status: SnapshotStatus,
        r: Result<DecodedStream<D, T>, ContinuationFailure<D, T>>,
    ) -> bool {
        match crate::snapshot::incremental::status::error_of(status, 0, 0) {
            Some(error) => r == Err::<DecodedStream<D, T>, ContinuationFailure<D, T>>(
                ContinuationFailure { error, decoder: self },
            ),
            None => r is Ok && r->Ok_0.continues(self),
        }
    }

    /// The objects that the engine needs for replaying.
    pub fn parts(&self) -> (r: (&D, &T))
        ensures
            *r.0 == self.handle(),
            *r.1 == self.pending(),
    {
        (&self.inner, &self.terminal)
    }

    /// Ends the replay of the parser continuation. Where it fails, the whole
    /// state comes back unchanged, so that the replay can be tried again.
    pub fn replay(self, status: SnapshotStatus) -> (r: Result<
        DecodedStream<D, T>,
        ContinuationFailure<D, T>,
    >)
        ensures
            self.replayed(status, r),
    {
        match from_status(status, 0, 0) {
            Err(error) => Err(ContinuationFailure { error, decoder: self }),
            Ok(()) => Ok(
                DecodedStream {
                    inner: self.inner,
                    terminal: self.terminal,
                    codec_version: self.codec_version,
                },
            ),
        }
    }

    /// Gives the decoder up, and with it the terminal: it is still to be aborted.
    pub fn release(self) -> (r: Released<D>)
        ensures
            r == (Released { handle: self.handle(), abort: true }),
    {
        Released { handle: self.inner, abort: true }
    }
}

/// Decoder after READY transfer and continuation replay. Its terminal is live
/// and may take input between history transitions.
pub struct DecodedStream<D, T> {
    inner: D,
    terminal: T,
    codec_version: u16,
}

/// Typed transition after READY.
pub enum AfterReadyStep<D, T> {
    /// More bytes are required for the current record.
    NeedInput {
        /// Decoder retaining the live terminal.
        decoder: DecodedStream<D, T>,
        /// Exact transition accounting.
        progress: DecodeProgress,
    },
    /// One bounded non-history transition completed.
    Progress {
        /// Decoder retaining the live terminal.
        decoder: DecodedStream<D, T>,
        /// Exact transition accounting.
        progress: DecodeProgress,
    },
    /// Start of one screen's history pages.
    HistoryBegin {
        /// Decoder retaining the live terminal.
        decoder: DecodedStream<D, T>,
        /// Exact transition accounting.
        progress: DecodeProgress,
        /// Screen generation key.
        screen: ScreenKey,
        /// Total page count.
        count: u32,
    },
    /// One history page was authenticated and considered for retention.
    HistoryPage {
        /// Decoder retaining the live terminal.
        decoder: DecodedStream<D, T>,
        /// Exact transition accounting.
        progress: DecodeProgress,
        /// Screen generation key.
        screen: ScreenKey,
        /// Zero-based page index.
        index: u32,
        /// Total page count.
        count: u32,
        /// Whether the bounded decoder retained the page.
        retained: bool,
    },
    /// Exactly one authenticated snapshot reached FINISH.
    Finish(FinishedSnapshot<T>),
}

/// Terminal and accounting returned at authenticated FINISH.
pub struct FinishedSnapshot<T> {
    /// Fully decoded live terminal.
    pub terminal: T,
    /// Accounting for the FINISH transition only.
    pub progress: DecodeProgress,
    /// Authenticated snapshot envelope version.
    pub codec_version: u16,
}

/// A post-READY decode failure retaining the usable terminal and consumption.
pub struct DecodedFailure<T> {
    /// Exact error of the engine.
    pub error: Error,
    /// Bytes consumed from the fragment before failure.
    pub consumed: usize,
    /// READY terminal, with its continuation already replayed.
    pub terminal: T,
}

impl<T> DecodedFailure<T> {
    /// The text of this failure.
    pub fn message(&self) -> (s: String)
        ensures
            s@ == crate::snapshot::incremental::status::failure_text(self.error, self.consumed),
    {
        failure_message(self.error, self.consumed)
    }
}

impl<D, T> AfterReadyStep<D, T> {
    /// The step that an acceptable answer to `stream` leads to.
    pub open spec fn follows(self, stream: DecodedStream<D, T>, reply: DecodeReply) -> bool {
        match reply.kind {
            DecodeEventKind::NeedInput => self == (AfterReadyStep::NeedInput {
                decoder: stream,
                progress: reply.accounting(),
            }),
            DecodeEventKind::Progress => self == (AfterReadyStep::Progress {
                decoder: stream,
                progress: reply.accounting(),
            }),
            DecodeEventKind::HistoryBegin => self == (AfterReadyStep::HistoryBegin {
                decoder: stream,
                progress: reply.accounting(),
                screen: ScreenKey(reply.screen_key),
                count: reply.count,
            }),
            DecodeEventKind::HistoryPage => self == (AfterReadyStep::HistoryPage {
                decoder: stream,
                progress: reply.accounting(),
                screen: ScreenKey(reply.screen_key),
                index: reply.index,
                count: reply.count,
                retained: reply.retained,
            }),
            DecodeEventKind::Finish => self == AfterReadyStep::<D, T>::Finish(
                FinishedSnapshot {
                    terminal: stream.live(),
                    progress: reply.accounting(),
                    codec_version: stream.version(),
                },
            ),
            _ => false,
        }
    }
}

impl<D, T> DecodedStream<D, T> {
    /// The decoder of the engine.
    pub closed spec fn handle(&self) -> D {
        self.inner
    }

    /// The envelope version that READY was authenticated with.
    pub closed spec fn version(&self) -> u16 {
        self.codec_version
    }

    /// The live terminal.
    pub closed spec fn live(&self) -> T {
        self.terminal
    }

    /// This is what a successful replay makes of `waiting`.
    pub open spec fn continues(self, waiting: ContinuationDecoder<D, T>) -> bool {
        &&& self.handle() == waiting.handle()
        &&& self.version() == waiting.version()
        &&& self.live() == waiting.pending()
    }

    /// Borrow the live decoded terminal.
    pub fn terminal(&self) -> (t: &T)
        ensures
            *t == self.live(),
    {
        &self.terminal
    }

    /// Mutably borrow the terminal for serialized live input.
    pub fn terminal_mut(&mut self) -> (t: &mut T)
        ensures
            *t == old(self).live(),
            final(self).live() == *final(t),
            final(self).handle() == old(self).handle(),
            final(self).version() == old(self).version(),
    {
        &mut self.terminal
    }

    /// Ends one transition, for which the engine was given `data`.
    ///
    /// After FINISH the decoder is released without an abort. A decoder that
    /// fails is given up and has to be aborted; its terminal stays usable.
    pub fn push(self, data: &[u8], reply: DecodeReply) -> (r: (
        Result<AfterReadyStep<D, T>, DecodedFailure<T>>,
        Option<Released<D>>,
    ))
        ensures
            match reply.fault_after_ready(data@.len()) {
                Some(error) => {
                    &&& r.0 == Err::<AfterReadyStep<D, T>, DecodedFailure<T>>(
                        DecodedFailure {
                            error,
                            consumed: reply.consumed,
                            terminal: self.live(),
                        },
                    )
                    &&& r.1 == Some(Released { handle: self.handle(), abort: true })
                },
                None => {
                    &&& r.0 is Ok
                    &&& r.0->Ok_0.follows(self, reply)
                    &&& r.1 == (if reply.kind == DecodeEventKind::Finish {
                        Some(Released { handle: self.handle(), abort: false })
                    } else {
                        None::<Released<D>>
                    })
                },
            },
    {
        let progress = reply.progress();
        let error = match reply.check(data.len()) {
            Err(error) => error,
            Ok(()) => match reply.kind {
                DecodeEventKind::NeedInput => {
                    return (Ok(AfterReadyStep::NeedInput { decoder: self, progress }), None);
                },
                DecodeEventKind::Progress => {
                    return (Ok(AfterReadyStep::Progress { decoder: self, progress }), None);
                },
                DecodeEventKind::HistoryBegin => {
                    let step = AfterReadyStep::HistoryBegin {
                        decoder: self,
                        progress,
                        screen: ScreenKey(reply.screen_key),
                        count: reply.count,
                    };
                    return (Ok(step), None);
                },
                DecodeEventKind::HistoryPage => {
                    let step = AfterReadyStep::HistoryPage {
                        decoder: self,
                        progress,
                        screen: ScreenKey(reply.screen_key),
                        index: reply.index,
                        count: reply.count,
                        retained: reply.retained,
                    };
                    return (Ok(step), None);
                },
                DecodeEventKind::Finish => {
                    let finished = FinishedSnapshot {
                        terminal: self.terminal,
                        progress,
                        codec_version: self.codec_version,
                    };
                    return (
                        Ok(AfterReadyStep::Finish(finished)),
                        Some(Released { handle: self.inner, abort: false }),
                    );
                },
                _ => Error::InvalidState,
            },
        };
        (
            Err(DecodedFailure { error, consumed: reply.consumed, terminal: self.terminal }),
            Some(Released { handle: self.inner, abort: true }),
        )
    }

    /// Ends the transition by which the end of input was marked: the engine was
    /// given an empty fragment.
    pub fn end_input(self, reply: DecodeReply) -> (r: (
        Result<AfterReadyStep<D, T>, DecodedFailure<T>>,
        Option<Released<D>>,
    ))
        ensures
            match reply.fault_after_ready(0) {
                Some(error) => {
                    &&& r.0 == Err::<AfterReadyStep<D, T>, DecodedFailure<T>>(
                        DecodedFailure {
                            error,
                            consumed: reply.consumed,
                            terminal: self.live(),
                        },
                    )
                    &&& r.1 == Some(Released { handle: self.handle(), abort: true })
                },
                None => {
                    &&& r.0 is Ok
                    &&& r.0->Ok_0.follows(self, reply)
                    &&& r.1 == (if reply.kind == DecodeEventKind::Finish {
                        Some(Released { handle: self.handle(), abort: false })
                    } else {
                        None::<Released<D>>
                    })
                },
            },
    {
        self.push(&[], reply)
    }

    /// Gives the decoder up, and with it the terminal: it is still to be aborted.
    pub fn release(self) -> (r: Released<D>)
        ensures
            r == (Released { handle: self.handle(), abort: true }),
    {
        Released { handle: self.inner, abort: true }
    }
}

/// No transition consumes more than the fragment that it was given, so that what
/// follows the snapshot in a transport stays there.
pub proof fn law_consumption_stays_inside_the_fragment(reply: DecodeReply, data: Seq<u8>)
    ensures
        reply.fault_before_ready(data.len()) is None ==> reply.accounting().consumed <= data.len(),
        reply.fault_after_ready(data.len()) is None ==> reply.accounting().consumed <= data.len(),
{
}

/// Bytes consumed by a run of transitions together.
pub open spec fn consumed(replies: Seq<DecodeReply>) -> nat
    decreases replies.len(),
{
    if replies.len() == 0 {
        0
    } else {
        consumed(replies.drop_last()) + replies.last().consumed as nat
    }
}

/// The replies answer to pushes of `data` from the byte behind what was consumed
/// before up to the place `ends[i]`, none of them with a fault.
pub open spec fn pushed(data: Seq<u8>, ends: Seq<nat>, replies: Seq<DecodeReply>) -> bool {
    &&& ends.len() == replies.len()
    &&& forall|i: int|
        #![trigger replies[i]]
        0 <= i < replies.len() ==> consumed(replies.take(i)) <= ends[i] <= data.len()
            && replies[i].fault((ends[i] - consumed(replies.take(i))) as nat) is None
}

/// The bytes that the engine took in a run of transitions, joined.
pub open spec fn taken(data: Seq<u8>, ends: Seq<nat>, replies: Seq<DecodeReply>) -> Seq<u8>
    decreases replies.len(),
{
    if replies.len() == 0 {
        Seq::empty()
    } else {
        let before = consumed(replies.drop_last()) as int;
        let fragment = data.subrange(before, ends.last() as int);
        taken(data, ends.drop_last(), replies.drop_last()) + fragment.take(
            replies.last().consumed as int,
        )
    }
}

/// Wherever the input is cut, the engine takes it in order, without gap or
/// overlap: what it took in all is the beginning of the input, and what it left,
/// such as the bytes behind the snapshot, is the rest.
#[verifier::spinoff_prover]
pub proof fn law_cuts_make_no_difference(data: Seq<u8>, ends: Seq<nat>, replies: Seq<DecodeReply>)
    requires
        pushed(data, ends, replies),
    ensures
        consumed(replies) <= data.len(),
        taken(data, ends, replies) == data.take(consumed(replies) as int),
        taken(data, ends, replies) + data.skip(consumed(replies) as int) == data,
    decreases replies.len(),
{
    if replies.len() > 0 {
        let n = replies.len() - 1;
        let init = replies.drop_last();
        assert(replies.take(n) =~= init);
        assert(replies[n] == replies.last());
        assert forall|i: int|
            #![trigger init[i]]
            0 <= i < init.len() implies consumed(init.take(i)) <= ends.drop_last()[i] <= data.len()
            && init[i].fault((ends.drop_last()[i] - consumed(init.take(i))) as nat) is None by {
            assert(init.take(i) =~= replies.take(i));
            assert(replies[i] == init[i]);
        }
        law_cuts_make_no_difference(data, ends.drop_last(), init);
        let before = consumed(init) as int;
        let fragment = data.subrange(before, ends.last() as int);
        assert(data.take(before) + fragment.take(replies.last().consumed as int) =~= data.take(
            consumed(replies) as int,
        ));
    } else {
        assert(data.take(0) =~= Seq::<u8>::empty());
    }
    assert(data.take(consumed(replies) as int) + data.skip(consumed(replies) as int) =~= data);
}

/// Two runs over the same input that consumed equally much handed the engine the
/// same bytes, however differently they cut the input.
pub proof fn law_cuts_hand_over_the_same_bytes(
    data: Seq<u8>,
    ends: Seq<nat>,
    replies: Seq<DecodeReply>,
    other_ends: Seq<nat>,
    other_replies: Seq<DecodeReply>,
)
    requires
        pushed(data, ends, replies),
        pushed(data, other_ends, other_replies),
        consumed(replies) == consumed(other_replies),
    ensures
        taken(data, ends, replies) == taken(data, other_ends, other_replies),
        consumed(replies) == data.len() ==> taken(data, ends, replies) == data,
{
    law_cuts_make_no_difference(data, ends, replies);
    law_cuts_make_no_difference(data, other_ends, other_replies);
    assert(data.take(data.len() as int) =~= data);
}

/// A replay that the engine refuses loses nothing: the failure names the engine's
/// error and holds the very decoder, and a later replay that succeeds continues
/// it.
pub proof fn law_refused_replays_can_be_tried_again<D, T>(
    waiting: ContinuationDecoder<D, T>,
    status: SnapshotStatus,
    first: Result<DecodedStream<D, T>, ContinuationFailure<D, T>>,
    second: Result<DecodedStream<D, T>, ContinuationFailure<D, T>>,
)
    requires
        status != SnapshotStatus::Success,
        waiting.replayed(status, first),
        first matches Err(failure) ==> failure.decoder.replayed(SnapshotStatus::Success, second),
    ensures
        first matches Err(failure) && failure.decoder == waiting && Some(failure.error)
            == crate::snapshot::incremental::status::error_of(status, 0, 0),
        second matches Ok(stream) && stream.continues(waiting),
{
}

/// End of input before READY or FINISH is reported as truncation where the
/// engine says so, and no answer to it can consume anything.
pub proof fn law_end_of_input(reply: DecodeReply)
    ensures
        reply.status == SnapshotStatus::Truncated ==> reply.fault_before_ready(0) == Some(
            Error::Truncated,
        ) && reply.fault_after_ready(0) == Some(Error::Truncated),
        reply.fault(0) is None ==> reply.consumed == 0,
{
}

/// The terminal that was taken at READY, and the envelope version that READY
/// announced, are what FINISH hands out; every other transition keeps them.
pub proof fn law_version_and_terminal_last_until_finish<D, T>(
    ready: ReadyDecoder<D>,
    take: TakeReply<T>,
    waiting: ContinuationDecoder<D, T>,
    stream: DecodedStream<D, T>,
    reply: DecodeReply,
    step: AfterReadyStep<D, T>,
)
    requires
        waiting.took(ready, take),
        stream.continues(waiting),
        step.follows(stream, reply),
    ensures
        match step {
            AfterReadyStep::NeedInput { decoder, .. } => decoder == stream,
            AfterReadyStep::Progress { decoder, .. } => decoder == stream,
            AfterReadyStep::HistoryBegin { decoder, .. } => decoder == stream,
            AfterReadyStep::HistoryPage { decoder, .. } => decoder == stream,
            AfterReadyStep::Finish(finished) => finished.codec_version == ready.version() && Some(
                finished.terminal,
            ) == take.terminal.usable(),
        },
{
}

/// READY is reached at most once, and FINISH only after it.
pub proof fn law_boundaries_come_in_order(reply: DecodeReply, len: nat)
    ensures
        reply.kind == DecodeEventKind::Finish ==> reply.fault_before_ready(len) is Some,
        reply.kind == DecodeEventKind::Ready ==> reply.fault_after_ready(len) is Some,
{
}

/// After READY, a push succeeds exactly where the engine reports success, took no
/// more bytes than there were, and made a transition that is possible there. The
/// step that comes out is of the kind that the engine reported and carries the
/// engine's numbers, and the stream goes on as it was. A failure names the engine's
/// error, or else an invalid state, and gives the terminal back. Only FINISH
/// releases the decoder without an abort.
pub proof fn law_transitions_after_ready_are_reported<D, T>(
    stream: DecodedStream<D, T>,
    data: &[u8],
    reply: DecodeReply,
    told: Result<(), Error>,
    r: (Result<AfterReadyStep<D, T>, DecodedFailure<T>>, Option<Released<D>>),
)
    requires
        call_ensures(DecodedStream::<D, T>::push, (stream, data, reply), r),
        call_ensures(from_status, (reply.status, 0usize, 0usize), told),
    ensures
        r.0 is Ok <==> reply.status == SnapshotStatus::Success && reply.consumed <= data@.len()
            && reply.kind != DecodeEventKind::Ready && reply.kind != DecodeEventKind::Unknown,
        r.0 matches Ok(step) ==> {
            &&& step is NeedInput <==> reply.kind == DecodeEventKind::NeedInput
            &&& step is Progress <==> reply.kind == DecodeEventKind::Progress
            &&& step is HistoryBegin <==> reply.kind == DecodeEventKind::HistoryBegin
            &&& step is HistoryPage <==> reply.kind == DecodeEventKind::HistoryPage
            &&& step is Finish <==> reply.kind == DecodeEventKind::Finish
        },
        r.0 matches Ok(AfterReadyStep::NeedInput { decoder, progress }) ==> decoder == stream
            && progress.consumed == reply.consumed && progress.needed == reply.needed
            && progress.codec_version == reply.codec_version,
        r.0 matches Ok(AfterReadyStep::Progress { decoder, progress }) ==> decoder == stream
            && progress.consumed == reply.consumed && progress.needed == reply.needed
            && progress.codec_version == reply.codec_version,
        r.0 matches Ok(AfterReadyStep::HistoryBegin { decoder, progress, screen, count })
            ==> decoder == stream && progress.consumed == reply.consumed && progress.needed
            == reply.needed && progress.codec_version == reply.codec_version && screen.0
            == reply.screen_key && count == reply.count,
        r.0 matches Ok(
            AfterReadyStep::HistoryPage { decoder, progress, screen, index, count, retained },
        ) ==> decoder == stream && progress.consumed == reply.consumed && progress.needed
            == reply.needed && progress.codec_version == reply.codec_version && screen.0
            == reply.screen_key && index == reply.index && count == reply.count && retained
            == reply.retained,
        r.0 matches Ok(AfterReadyStep::Finish(finished)) ==> finished.terminal == stream.live()
            && finished.codec_version == stream.version() && finished.progress.consumed
            == reply.consumed && finished.progress.needed == reply.needed
            && finished.progress.codec_version == reply.codec_version,
        r.0 matches Err(failure) ==> failure.consumed == reply.consumed && failure.terminal
            == stream.live() && failure.error == (match told {
            Err(e) => e,
            Ok(()) => Error::InvalidState,
        }),
        r.1 is Some <==> r.0 is Err || r.0->Ok_0 is Finish,
        r.1 matches Some(released) ==> released.handle == stream.handle() && (released.abort
            <==> r.0 is Err),
{
}

/// The end of the input is told to a stream as a push of nothing: whatever it leads
/// to, an answer that consumed something is an error.
pub proof fn law_the_end_of_the_stream_is_an_empty_push<D, T>(
    stream: DecodedStream<D, T>,
    reply: DecodeReply,
    told: Result<(), Error>,
    r: (Result<AfterReadyStep<D, T>, DecodedFailure<T>>, Option<Released<D>>),
)
    requires
        call_ensures(DecodedStream::<D, T>::end_input, (stream, reply), r),
        call_ensures(from_status, (reply.status, 0usize, 0usize), told),
    ensures
        r.0 is Ok <==> reply.status == SnapshotStatus::Success && reply.consumed == 0 && reply.kind
            != DecodeEventKind::Ready && reply.kind != DecodeEventKind::Unknown,
        r.0 matches Ok(step) ==> {
            &&& step is NeedInput <==> reply.kind == DecodeEventKind::NeedInput
            &&& step is Progress <==> reply.kind == DecodeEventKind::Progress
            &&& step is HistoryBegin <==> reply.kind == DecodeEventKind::HistoryBegin
            &&& step is HistoryPage <==> reply.kind == DecodeEventKind::HistoryPage
            &&& step is Finish <==> reply.kind == DecodeEventKind::Finish
        },
        r.0 matches Ok(AfterReadyStep::HistoryBegin { screen, count, .. }) ==> screen.0
            == reply.screen_key && count == reply.count,
        r.0 matches Ok(AfterReadyStep::HistoryPage { screen, index, count, retained, .. })
            ==> screen.0 == reply.screen_key && index == reply.index && count == reply.count
            && retained == reply.retained,
        r.0 matches Ok(AfterReadyStep::Finish(finished)) ==> finished.terminal == stream.live()
            && finished.codec_version == stream.version(),
        r.0 matches Err(failure) ==> failure.consumed == reply.consumed && failure.terminal
            == stream.live() && failure.error == (match told {
            Err(e) => e,
            Ok(()) => Error::InvalidState,
        }),
        r.1 is Some <==> r.0 is Err || r.0->Ok_0 is Finish,
        r.1 matches Some(released) ==> released.handle == stream.handle() && (released.abort
            <==> r.0 is Err),
{
}

/// Two pushes to a stream that come out as the same step were answered alike: with
/// transitions of the same kind that consumed equally much.
pub proof fn law_steps_tell_transitions_apart<D, T>(
    stream: DecodedStream<D, T>,
    data: &[u8],
    a: DecodeReply,
    b: DecodeReply,
    r: (Result<AfterReadyStep<D, T>, DecodedFailure<T>>, Option<Released<D>>),
    s: (Result<AfterReadyStep<D, T>, DecodedFailure<T>>, Option<Released<D>>),
)
    requires
        call_ensures(DecodedStream::<D, T>::push, (stream, data, a), r),
        call_ensures(DecodedStream::<D, T>::push, (stream, data, b), s),
        r.0 is Ok,
        r.0 == s.0,
    ensures
        a.kind == b.kind,
        a.consumed == b.consumed,
        a.needed == b.needed,
        a.codec_version == b.codec_version,
        a.kind == DecodeEventKind::HistoryBegin || a.kind == DecodeEventKind::HistoryPage
            ==> a.screen_key == b.screen_key && a.count == b.count,
        a.kind == DecodeEventKind::HistoryPage ==> a.index == b.index && a.retained == b.retained,
{
}

/// Before READY, a push succeeds exactly where the engine reports success, took no
/// more bytes than there were, and asks for more, goes on, or reached READY. The
/// step is of that kind and carries the engine's numbers and decoder; READY keeps
/// the envelope version. A failure releases the decoder for an abort.
pub proof fn law_transitions_before_ready_are_reported<D>(
    decoder: Decoder<D>,
    data: &[u8],
    reply: DecodeReply,
    told: Result<(), Error>,
    r: (Result<DecodeStep<D>, DecodeFailure>, Option<Released<D>>),
)
    requires
        call_ensures(Decoder::<D>::push, (decoder, data, reply), r),
        call_ensures(from_status, (reply.status, 0usize, 0usize), told),
    ensures
        r.0 is Ok <==> reply.status == SnapshotStatus::Success && reply.consumed <= data@.len() && (
        reply.kind == DecodeEventKind::NeedInput || reply.kind == DecodeEventKind::Progress
            || reply.kind == DecodeEventKind::Ready),
        r.0 matches Ok(step) ==> {
            &&& step is NeedInput <==> reply.kind == DecodeEventKind::NeedInput
            &&& step is Progress <==> reply.kind == DecodeEventKind::Progress
            &&& step is Ready <==> reply.kind == DecodeEventKind::Ready
        },
        r.0 matches Ok(DecodeStep::NeedInput { decoder: next, progress }) ==> next.handle()
            == decoder.handle() && progress.consumed == reply.consumed && progress.needed
            == reply.needed && progress.codec_version == reply.codec_version,
        r.0 matches Ok(DecodeStep::Progress { decoder: next, progress }) ==> next.handle()
            == decoder.handle() && progress.consumed == reply.consumed && progress.needed
            == reply.needed && progress.codec_version == reply.codec_version,
        r.0 matches Ok(DecodeStep::Ready { decoder: next, progress }) ==> next.handle()
            == decoder.handle() && next.version() == reply.codec_version && progress.consumed
            == reply.consumed && progress.needed == reply.needed && progress.codec_version
            == reply.codec_version,
        r.0 matches Err(failure) ==> failure.consumed == reply.consumed && failure.error == (
        match told {
            Err(e) => e,
            Ok(()) => Error::InvalidState,
        }),
        r.1 is Some <==> r.0 is Err,
        r.1 matches Some(released) ==> released.handle == decoder.handle() && released.abort,
{
}

/// The end of the input is told to a decoder as a push of nothing.
pub proof fn law_the_end_before_ready_is_an_empty_push<D>(
    decoder: Decoder<D>,
    reply: DecodeReply,
    told: Result<(), Error>,
    r: (Result<DecodeStep<D>, DecodeFailure>, Option<Released<D>>),
)
    requires
        call_ensures(Decoder::<D>::end_input, (decoder, reply), r),
        call_ensures(from_status, (reply.status, 0usize, 0usize), told),
    ensures
        r.0 is Ok <==> reply.status == SnapshotStatus::Success && reply.consumed == 0 && (reply.kind
            == DecodeEventKind::NeedInput || reply.kind == DecodeEventKind::Progress || reply.kind
            == DecodeEventKind::Ready),
        r.0 matches Ok(step) ==> {
            &&& step is NeedInput <==> reply.kind == DecodeEventKind::NeedInput
            &&& step is Progress <==> reply.kind == DecodeEventKind::Progress
            &&& step is Ready <==> reply.kind == DecodeEventKind::Ready
        },
        r.0 matches Err(failure) ==> failure.consumed == reply.consumed && failure.error == (
        match told {
            Err(e) => e,
            Ok(()) => Error::InvalidState,
        }),
        r.1 is Some <==> r.0 is Err,
        r.1 matches Some(released) ==> released.handle == decoder.handle() && released.abort,
{
}

/// A terminal is taken over exactly where the engine reports success, hands over a
/// terminal that can be used, and names the version that READY announced. What
/// waits for its replay is then that terminal with the same decoder and version;
/// everything else leaves a decoder that has to be aborted.
pub proof fn law_only_the_announced_terminal_is_taken<D, T>(
    ready: ReadyDecoder<D>,
    reply: TakeReply<T>,
    told: Result<(), Error>,
    r: (Result<ContinuationDecoder<D, T>, Error>, Option<Released<D>>),
)
    requires
        call_ensures(ReadyDecoder::<D>::take_terminal::<T>, (ready, reply), r),
        call_ensures(from_status, (reply.status, 0usize, 0usize), told),
    ensures
        r.0 is Ok <==> reply.status == SnapshotStatus::Success && reply.terminal is Usable
            && reply.codec_version == ready.version(),
        r.0 matches Ok(waiting) ==> reply.terminal == HandedTerminal::Usable(waiting.pending())
            && waiting.handle() == ready.handle() && waiting.version() == ready.version(),
        r.0 matches Err(e) ==> e == (match told {
            Err(t) => t,
            Ok(()) => if reply.terminal is Unusable && reply.codec_version == ready.version() {
                Error::InvalidHandle
            } else {
                Error::InvalidState
            },
        }),
        r.1 is Some <==> r.0 is Err,
        r.1 matches Some(released) ==> released.handle == ready.handle() && released.abort,
{
}

/// A replay succeeds exactly where the engine says so, and then nothing of what
/// waited is lost: the stream has its decoder, its terminal and its version.
pub proof fn law_replays_go_on_with_what_waited<D, T>(
    waiting: ContinuationDecoder<D, T>,
    status: SnapshotStatus,
    told: Result<(), Error>,
    r: Result<DecodedStream<D, T>, ContinuationFailure<D, T>>,
)
    requires
        call_ensures(ContinuationDecoder::<D, T>::replay, (waiting, status), r),
        call_ensures(from_status, (status, 0usize, 0usize), told),
    ensures
        r is Ok <==> status == SnapshotStatus::Success,
        r matches Ok(stream) ==> stream.live() == waiting.pending() && stream.handle()
            == waiting.handle() && stream.version() == waiting.version(),
        r matches Err(failure) ==> failure.decoder == waiting && told == Err::<(), Error>(
            failure.error,
        ),
{
}

/// Whichever state a decoder is given up in, its handle is released for an abort.
pub proof fn law_decoders_given_up_are_aborted<D, T>(
    decoder: Decoder<D>,
    ready: ReadyDecoder<D>,
    waiting: ContinuationDecoder<D, T>,
    stream: DecodedStream<D, T>,
    a: Released<D>,
    b: Released<D>,
    c: Released<D>,
    d: Released<D>,
)
    requires
        call_ensures(Decoder::<D>::release, (decoder,), a),
        call_ensures(ReadyDecoder::<D>::release, (ready,), b),
        call_ensures(ContinuationDecoder::<D, T>::release, (waiting,), c),
        call_ensures(DecodedStream::<D, T>::release, (stream,), d),
    ensures
        a.abort && b.abort && c.abort && d.abort,
        a.handle == decoder.handle(),
        b.handle == ready.handle(),
        c.handle == waiting.handle(),
        d.handle == stream.handle(),
{
}

/// The accounting of a transition has the engine's own numbers, and the text of a
/// failure tells its error and what was consumed.
pub proof fn law_accounts_and_failures_are_told(
    reply: DecodeReply,
    p: DecodeProgress,
    failure: DecodeFailure,
    text: String,
    told: String,
)
    requires
        call_ensures(DecodeReply::progress, (reply,), p),
        call_ensures(DecodeFailure::message, (failure,), text),
        call_ensures(failure_message, (failure.error, failure.consumed), told),
    ensures
        p.consumed == reply.consumed,
        p.needed == reply.needed,
        p.codec_version == reply.codec_version,
        text@ == told@,
{
}

/// A failure behind READY is told as one before it; a replay that failed is told by
/// its error alone.
pub proof fn law_failures_behind_ready_are_told<D, T>(
    after: DecodedFailure<T>,
    before: DecodeFailure,
    text: String,
    told: String,
    replay: ContinuationFailure<D, T>,
    replay_text: String,
    error_text: String,
)
    requires
        after.error == before.error && after.consumed == before.consumed,
        call_ensures(DecodedFailure::<T>::message, (&after,), text),
        call_ensures(DecodeFailure::message, (before,), told),
        call_ensures(ContinuationFailure::<D, T>::message, (&replay,), replay_text),
        call_ensures(Error::message, (replay.error,), error_text),
    ensures
        text@ == told@,
        replay_text@ == error_text@,
{
}

/// A decoder is made exactly where the engine reports success and gave one; a
/// fragment then goes to that very one.
pub proof fn law_fragments_go_to_the_engines_decoder<D>(
    status: SnapshotStatus,
    decoder: Option<D>,
    opened: Result<D, Error>,
    r: Result<Decoder<D>, Error>,
    data: &[u8],
    reply: DecodeReply,
    step: (Result<DecodeStep<D>, DecodeFailure>, Option<Released<D>>),
)
    requires
        call_ensures(Decoder::<D>::new, (status, decoder), r),
        call_ensures(open_handle::<D>, (status, decoder), opened),
        r is Ok ==> call_ensures(Decoder::<D>::push, (r->Ok_0, data, reply), step),
    ensures
        r is Ok <==> status == SnapshotStatus::Success && decoder is Some,
        r matches Err(e) ==> opened == Err::<D, Error>(e),
        r is Ok ==> (step.1 matches Some(gone) ==> Some(gone.handle) == decoder),
        r is Ok ==> (step.0 is Err <==> step.1 is Some),
{
}

/// A terminal is the same before its continuation is replayed and behind it.
pub proof fn law_replays_keep_their_terminal<D, T>(
    waiting: ContinuationDecoder<D, T>,
    parts: (&D, &T),
    status: SnapshotStatus,
    stream: DecodedStream<D, T>,
    shown: &T,
)
    requires
        call_ensures(ContinuationDecoder::<D, T>::parts, (&waiting,), parts),
        call_ensures(
            ContinuationDecoder::<D, T>::replay,
            (waiting, status),
            Ok::<DecodedStream<D, T>, ContinuationFailure<D, T>>(stream),
        ),
        call_ensures(DecodedStream::<D, T>::terminal, (&stream,), shown),
    ensures
        status == SnapshotStatus::Success,
        *shown == *parts.1,
        stream.handle() == *parts.0,
{
}

/// What is done to the terminal through the decoder is done to the decoder's own
/// terminal: it begins as the one that is shown, and what it becomes is shown
/// behind.
pub proof fn law_terminals_are_changed_in_place<'d, D, T>(
    d: &'d mut DecodedStream<D, T>,
    t: &'d mut T,
    before: &T,
    after: &T,
)
    requires
        call_ensures(DecodedStream::<D, T>::terminal_mut, (d,), t),
        call_ensures(DecodedStream::<D, T>::terminal, (&*old(d),), before),
        call_ensures(DecodedStream::<D, T>::terminal, (&*final(d),), after),
    ensures
        *old(t) == *before,
        *after == *final(t),
        final(d).handle() == old(d).handle(),
        final(d).version() == old(d).version(),
{
}

} // verus!
