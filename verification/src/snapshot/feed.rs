//! Restoring a snapshot from bytes that are pushed in, fragment by fragment.
//!
//! The engine pulls its input. Bytes from a source that cannot block are staged
//! here until a whole unit has arrived, and only then is the engine asked to
//! decode, so that it never takes temporary starvation for the end of input.
use vstd::prelude::*;

use crate::snapshot::capture::Screen;
use crate::snapshot::error::{from_result, open_handle, Error};
use crate::status::ResultCode;

verus! {

/// The staged bytes: `taken` of them have been handed to the engine, and there
/// may never be more than `limit`.
pub struct SourceView {
    pub staged: Seq<u8>,
    pub taken: nat,
    pub limit: nat,
}

impl SourceView {
    /// What holds of every staging source.
    pub open spec fn wf(self) -> bool {
        &&& self.taken <= self.staged.len() <= self.limit
        &&& 0 < self.limit
    }

    /// The same source with everything released.
    pub open spec fn released(self) -> SourceView {
        SourceView { staged: Seq::empty(), taken: 0, limit: self.limit }
    }

    /// The bytes that the engine has not been given yet.
    pub open spec fn rest(self) -> Seq<u8> {
        self.staged.skip(self.taken as int)
    }

    /// Staging `bytes`; `reserved` says whether memory for them was available.
    pub open spec fn fed(self, bytes: Seq<u8>, reserved: bool) -> (SourceView, Result<(), Error>) {
        if self.staged.len() + bytes.len() > self.limit {
            (self, Err(Error::LimitExceeded))
        } else if !reserved {
            (self, Err(Error::OutOfMemory))
        } else {
            (SourceView { staged: self.staged + bytes, ..self }, Ok(()))
        }
    }
}

/// A bounded staging buffer that the engine reads from.
pub struct FeedReader {
    bytes: Vec<u8>,
    offset: usize,
    max_bytes: usize,
}

impl View for FeedReader {
    type V = SourceView;

    closed spec fn view(&self) -> SourceView {
        SourceView {
            staged: self.bytes@,
            taken: self.offset as nat,
            limit: self.max_bytes as nat,
        }
    }
}

impl FeedReader {
    /// A source that stages at most `max_bytes`, which must not be zero.
    pub fn new(max_bytes: usize) -> (r: Result<FeedReader, Error>)
        ensures
            max_bytes == 0 ==> r == Err::<FeedReader, Error>(Error::InvalidValue),
            max_bytes > 0 ==> r is Ok && r->Ok_0@ == (SourceView {
                staged: Seq::empty(),
                taken: 0,
                limit: max_bytes as nat,
            }),
    {
        if max_bytes == 0 {
            return Err(Error::InvalidValue);
        }
        Ok(FeedReader { bytes: Vec::new(), offset: 0, max_bytes })
    }

    /// Stages `bytes` given that memory for them was or was not available.
    pub fn stage(&mut self, bytes: &[u8], reserved: bool) -> (r: Result<(), Error>)
        requires
            old(self)@.wf(),
        ensures
            (final(self)@, r) == old(self)@.fed(bytes@, reserved),
            final(self)@.wf(),
    {
        match self.bytes.len().checked_add(bytes.len()) {
            None => Err(Error::LimitExceeded),
            Some(total) => if total > self.max_bytes {
                Err(Error::LimitExceeded)
            } else if !reserved {
                Err(Error::OutOfMemory)
            } else {
                let ghost before = self.bytes@;
                self.bytes.extend_from_slice(bytes);
                assert(self.bytes@ =~= before + bytes@);
                Ok(())
            },
        }
    }

    /// Stages `bytes` behind what is staged already.
    ///
    /// More than the limit is refused with [`Error::LimitExceeded`], and
    /// [`Error::OutOfMemory`] is returned where no memory can be had; in both
    /// cases nothing changes. An empty fragment needs no memory and is always
    /// taken.
    pub fn feed(&mut self, bytes: &[u8]) -> (r: Result<(), Error>)
        requires
            old(self)@.wf(),
        ensures
            (final(self)@, r) == old(self)@.fed(bytes@, true) || (bytes@.len() > 0 && (
            final(self)@,
            r,
        ) == old(self)@.fed(bytes@, false)),
            bytes@.len() == 0 ==> r is Ok,
            final(self)@.wf(),
    {
        let room: usize = self.max_bytes - self.bytes.len();
        if bytes.len() > room {
            return self.stage(bytes, false);
        }
        let reserved = bytes.len() == 0 || self.bytes.try_reserve(bytes.len()).is_ok();
        self.stage(bytes, reserved)
    }

    /// Copies as many of the remaining bytes as fit into `buf` and returns how
    /// many; zero where none are left.
    pub fn read(&mut self, buf: &mut [u8]) -> (n: usize)
        requires
            old(self)@.wf(),
        ensures
            n == read_len(old(self)@, old(buf)@.len()),
            final(buf)@ == old(self)@.rest().take(n as int) + old(buf)@.skip(n as int),
            final(self)@ == (SourceView { taken: old(self)@.taken + n as nat, ..old(self)@ }),
            final(self)@.wf(),
    {
        let remaining: usize = self.bytes.len() - self.offset;
        let space: usize = buf.len();
        let len: usize = if remaining <= space { remaining } else { space };
        let ghost rest = self@.rest();
        let ghost before = buf@;
        let mut i: usize = 0;
        while i < len
            invariant
                i <= len,
                len <= space,
                buf@.len() == before.len() == space,
                self.bytes@ == old(self).bytes@,
                self.offset == old(self).offset,
                self.max_bytes == old(self).max_bytes,
                self.offset + len <= self.bytes@.len(),
                rest == self.bytes@.skip(self.offset as int),
                self.bytes.len() <= usize::MAX,
                forall|k: int| 0 <= k < i ==> buf@[k] == rest[k],
                forall|k: int| i <= k < space ==> buf@[k] == before[k],
            decreases len - i,
        {
            buf[i] = self.bytes[self.offset + i];
            i = i + 1;
        }
        assert(buf@ =~= rest.take(len as int) + before.skip(len as int));
        self.offset = self.offset + len;
        len
    }

    /// Releases the storage once the engine is done with a unit, and tells
    /// whether the engine had taken all of it.
    pub fn finish_operation(&mut self) -> (consumed_all: bool)
        requires
            old(self)@.wf(),
        ensures
            consumed_all == (old(self)@.taken == old(self)@.staged.len()),
            final(self)@ == old(self)@.released(),
            final(self)@.wf(),
    {
        let consumed_all = self.offset == self.bytes.len();
        self.bytes = Vec::new();
        self.offset = 0;
        consumed_all
    }

    /// Number of bytes that are staged.
    pub fn staged_bytes(&self) -> (n: usize)
        ensures
            n == self@.staged.len(),
    {
        self.bytes.len()
    }
}

/// The state of a staged decoder.
pub struct FeedView {
    pub source: SourceView,
    /// An operation failed: nothing more is decoded.
    pub failed: bool,
    /// FINISH was authenticated: nothing more is expected.
    pub finished: bool,
}

impl FeedView {
    /// What holds of every staged decoder.
    pub open spec fn wf(self) -> bool {
        self.source.wf()
    }

    /// A decoder that nothing was done with.
    pub open spec fn fresh(limit: nat) -> FeedView {
        FeedView {
            source: SourceView { staged: Seq::empty(), taken: 0, limit },
            failed: false,
            finished: false,
        }
    }

    /// The engine takes the next `n` staged bytes.
    pub open spec fn read(self, n: nat) -> FeedView {
        FeedView {
            source: SourceView { taken: self.source.taken + n, ..self.source },
            ..self
        }
    }

    /// Staging `bytes`, which a decoder that failed or finished refuses.
    pub open spec fn fed(self, bytes: Seq<u8>, reserved: bool) -> (FeedView, Result<(), Error>) {
        if self.failed || self.finished {
            (self, Err(Error::InvalidValue))
        } else {
            let (source, r) = self.source.fed(bytes, reserved);
            (FeedView { source, ..self }, r)
        }
    }

    /// The end of an operation of the engine that decodes one staged unit. The
    /// storage is released in any case; an error of the engine, and bytes that
    /// it left untouched, make the decoder fail.
    pub open spec fn completed(self, code: ResultCode) -> (FeedView, Result<(), Error>) {
        let all = self.source.taken == self.source.staged.len();
        let r = match crate::snapshot::error::error_of(code, 0) {
            Some(e) => Err(e),
            None => if all { Ok(()) } else { Err(Error::InvalidValue) },
        };
        (
            FeedView {
                source: self.source.released(),
                failed: self.failed || r is Err,
                finished: self.finished,
            },
            r,
        )
    }

    /// The end of the operation that decodes one history unit or FINISH.
    pub open spec fn advanced(self, reply: NextReply) -> (
        FeedView,
        Result<Option<FeedProgress>, Error>,
    ) {
        let all = self.source.taken == self.source.staged.len();
        if self.finished || self.failed {
            (self, Err(Error::InvalidValue))
        } else if reply.code == ResultCode::NoValue {
            (
                FeedView { source: self.source.released(), failed: !all, finished: all },
                if all { Ok(None) } else { Err(Error::InvalidValue) },
            )
        } else {
            let (next, r) = self.completed(reply.code);
            (
                next,
                match r {
                    Err(e) => Err(e),
                    Ok(()) => match reply.progress() {
                        Ok(p) => Ok(Some(p)),
                        Err(e) => Err(e),
                    },
                },
            )
        }
    }
}

/// Progress from one complete staged history unit.
#[derive(Clone, Copy, Debug, PartialEq, Eq, Structural)]
pub struct FeedProgress {
    /// Screen whose history received the page.
    pub screen: Screen,
    /// Rows prepended to the live terminal, or zero if it could not be applied.
    pub rows: usize,
    /// Pages remaining in this screen's HISTORY sequence.
    pub remaining: u32,
}

/// What the engine answered when it was asked for the next history unit: the
/// code of the step, and the codes and values of the three queries about it.
/// A screen that the engine names but this library does not know is `None`.
#[derive(Clone, Copy, Debug)]
pub struct NextReply {
    pub code: ResultCode,
    pub screen: (ResultCode, Option<Screen>),
    pub rows: (ResultCode, usize),
    pub remaining: (ResultCode, u32),
}

impl NextReply {
    /// The progress that the three queries give, or the first error among them.
    pub open spec fn progress(self) -> Result<FeedProgress, Error> {
        match crate::snapshot::error::error_of(self.screen.0, 0) {
            Some(e) => Err(e),
            None => match self.screen.1 {
                None => Err(Error::InvalidValue),
                Some(screen) => match crate::snapshot::error::error_of(self.rows.0, 0) {
                    Some(e) => Err(e),
                    None => match crate::snapshot::error::error_of(self.remaining.0, 0) {
                        Some(e) => Err(e),
                        None => Ok(
                            FeedProgress {
                                screen,
                                rows: self.rows.1,
                                remaining: self.remaining.1,
                            },
                        ),
                    },
                },
            },
        }
    }

    /// Collects the progress that the three queries give.
    pub fn into_progress(self) -> (r: Result<FeedProgress, Error>)
        ensures
            r == self.progress(),
    {
        if let Err(e) = from_result(self.screen.0) {
            return Err(e);
        }
        match self.screen.1 {
            None => Err(Error::InvalidValue),
            Some(screen) => {
                if let Err(e) = from_result(self.rows.0) {
                    return Err(e);
                }
                if let Err(e) = from_result(self.remaining.0) {
                    return Err(e);
                }
                Ok(FeedProgress { screen, rows: self.rows.1, remaining: self.remaining.1 })
            },
        }
    }
}

/// A decoder of the engine together with the source that it reads.
pub struct FeedCore<D> {
    inner: D,
    source: FeedReader,
    failed: bool,
}

impl<D> View for FeedCore<D> {
    type V = FeedView;

    closed spec fn view(&self) -> FeedView {
        FeedView { source: self.source@, failed: self.failed, finished: false }
    }
}

impl<D> FeedCore<D> {
    /// The decoder of the engine.
    pub closed spec fn handle(&self) -> D {
        self.inner
    }

    /// Pairs a fresh decoder of the engine with a fresh source.
    pub fn new(max_staged_bytes: usize, code: ResultCode, decoder: Option<D>) -> (r: Result<
        FeedCore<D>,
        Error,
    >)
        ensures
            max_staged_bytes == 0 ==> r == Err::<FeedCore<D>, Error>(Error::InvalidValue),
            max_staged_bytes > 0 ==> match crate::snapshot::error::handle_when(code, decoder) {
                Err(e) => r == Err::<FeedCore<D>, Error>(e),
                Ok(d) => r is Ok && r->Ok_0.handle() == d && r->Ok_0@ == FeedView::fresh(
                    max_staged_bytes as nat,
                ),
            },
    {
        match FeedReader::new(max_staged_bytes) {
            Err(e) => Err(e),
            Ok(source) => match open_handle(code, decoder) {
                Err(e) => Err(e),
                Ok(inner) => Ok(FeedCore { inner, source, failed: false }),
            },
        }
    }

    /// Stages `bytes` unless an operation failed before.
    pub fn feed(&mut self, bytes: &[u8]) -> (r: Result<(), Error>)
        requires
            old(self)@.wf(),
        ensures
            (final(self)@, r) == old(self)@.fed(bytes@, true) || (bytes@.len() > 0 && (
            final(self)@,
            r,
        ) == old(self)@.fed(bytes@, false)),
            bytes@.len() == 0 && !old(self)@.failed ==> r is Ok,
            final(self)@.wf(),
            final(self).handle() == old(self).handle(),
    {
        if self.failed {
            return Err(Error::InvalidValue);
        }
        self.source.feed(bytes)
    }

    /// Ends an operation of the engine that decoded one staged unit.
    pub fn complete_operation(&mut self, code: ResultCode) -> (r: Result<(), Error>)
        requires
            old(self)@.wf(),
        ensures
            (final(self)@, r) == old(self)@.completed(code),
            final(self)@.wf(),
            final(self).handle() == old(self).handle(),
    {
        let consumed_all = self.source.finish_operation();
        if code != ResultCode::Success || !consumed_all {
            self.failed = true;
        }
        if let Err(e) = from_result(code) {
            return Err(e);
        }
        if !consumed_all {
            return Err(Error::InvalidValue);
        }
        Ok(())
    }

    /// Hands the next staged bytes to the engine, as [`FeedReader::read`] does.
    pub fn read(&mut self, buf: &mut [u8]) -> (n: usize)
        requires
            old(self)@.wf(),
        ensures
            n == read_len(old(self)@.source, old(buf)@.len()),
            final(buf)@ == old(self)@.source.rest().take(n as int) + old(buf)@.skip(n as int),
            final(self)@ == old(self)@.read(n as nat),
            final(self)@.wf(),
            final(self).handle() == old(self).handle(),
    {
        self.source.read(buf)
    }
}

/// The number of bytes that a read into a buffer of `space` bytes hands over.
pub open spec fn read_len(source: SourceView, space: nat) -> nat {
    if source.rest().len() <= space {
        source.rest().len()
    } else {
        space
    }
}

/// An owned, bounded staging source for the decoder of the engine, before READY.
///
/// Input is accumulated with [`FeedDecoder::feed`], and [`FeedDecoder::ready`]
/// ends the decoding of the prefix once the complete READY record has arrived.
pub struct FeedDecoder<D> {
    core: FeedCore<D>,
}

impl<D> View for FeedDecoder<D> {
    type V = FeedView;

    closed spec fn view(&self) -> FeedView {
        self.core@
    }
}

impl<D> FeedDecoder<D> {
    /// The decoder of the engine.
    pub closed spec fn handle(&self) -> D {
        self.core.handle()
    }

    /// A decoder that stages at most `max_staged_bytes`; `code` and `decoder` are
    /// what the engine answered when it was asked for one.
    pub fn new(max_staged_bytes: usize, code: ResultCode, decoder: Option<D>) -> (r: Result<
        FeedDecoder<D>,
        Error,
    >)
        ensures
            max_staged_bytes == 0 ==> r == Err::<FeedDecoder<D>, Error>(Error::InvalidValue),
            max_staged_bytes > 0 ==> match crate::snapshot::error::handle_when(code, decoder) {
                Err(e) => r == Err::<FeedDecoder<D>, Error>(e),
                Ok(d) => r is Ok && r->Ok_0.handle() == d && r->Ok_0@ == FeedView::fresh(
                    max_staged_bytes as nat,
                ),
            },
    {
        match FeedCore::new(max_staged_bytes, code, decoder) {
            Err(e) => Err(e),
            Ok(core) => Ok(FeedDecoder { core }),
        }
    }

    /// Appends one bounded fragment to the prefix that is not decoded yet, and
    /// gives the decoder back for the next call.
    pub fn feed(&mut self, bytes: &[u8]) -> (r: Result<&mut Self, Error>)
        requires
            old(self)@.wf(),
        ensures
            match r {
                Ok(s) => {
                    &&& old(self)@.fed(bytes@, true) == (s@, Ok::<(), Error>(()))
                    &&& s@.wf()
                    &&& s.handle() == old(self).handle()
                    &&& *final(self) == *final(s)
                },
                Err(e) => {
                    &&& old(self)@.fed(bytes@, true).1 == Err::<(), Error>(e) || (bytes@.len() > 0
                        && old(self)@.fed(bytes@, false).1 == Err::<(), Error>(e))
                    &&& final(self)@ == old(self)@
                    &&& final(self).handle() == old(self).handle()
                },
            },
            bytes@.len() == 0 && !old(self)@.failed && !old(self)@.finished ==> r is Ok,
    {
        match self.core.feed(bytes) {
            Ok(()) => Ok(self),
            Err(e) => Err(e),
        }
    }

    /// Current number of bytes waiting for the next decoding operation.
    #[must_use]
    pub fn staged_bytes(&self) -> (n: usize)
        ensures
            n == self@.source.staged.len(),
    {
        self.core.source.staged_bytes()
    }

    /// Hands the next staged bytes to the engine.
    pub fn read(&mut self, buf: &mut [u8]) -> (n: usize)
        requires
            old(self)@.wf(),
        ensures
            n == read_len(old(self)@.source, old(buf)@.len()),
            final(buf)@ == old(self)@.source.rest().take(n as int) + old(buf)@.skip(n as int),
            final(self)@ == old(self)@.read(n as nat),
            final(self)@.wf(),
            final(self).handle() == old(self).handle(),
    {
        self.core.read(buf)
    }

    /// The end of setting the largest accepted non-ground parser continuation:
    /// gives the decoder back for the next call.
    pub fn set_max_continuation_bytes(&mut self, code: ResultCode) -> (r: Result<&mut Self, Error>)
        ensures
            match crate::snapshot::error::error_of(code, 0) {
                Some(e) => r == Err::<&mut Self, Error>(e) && *final(self) == *old(self),
                None => r is Ok && *r->Ok_0 == *old(self) && *final(self) == *final(r->Ok_0),
            },
    {
        match from_result(code) {
            Ok(()) => Ok(self),
            Err(e) => Err(e),
        }
    }

    /// Ends the decoding of the staged prefix through its READY record: `code` is
    /// what the engine answered, and `terminal` the terminal that it handed over.
    ///
    /// A terminal that comes with an error, or with a unit that has bytes behind
    /// READY, is released.
    pub fn ready<T>(self, code: ResultCode, terminal: Option<T>) -> (r: Result<
        FeedIncrementalDecoder<D, T>,
        Error,
    >)
        requires
            self@.wf(),
        ensures
            match self@.completed(code).1 {
                Err(e) => r == Err::<FeedIncrementalDecoder<D, T>, Error>(e),
                Ok(()) => match terminal {
                    None => r == Err::<FeedIncrementalDecoder<D, T>, Error>(Error::OutOfMemory),
                    Some(t) => r is Ok && r->Ok_0@ == self@.completed(code).0
                        && r->Ok_0.live() == t && r->Ok_0.handle() == self.handle(),
                },
            },
            r is Ok ==> r->Ok_0@.wf(),
    {
        let mut core = self.core;
        if let Err(e) = core.complete_operation(code) {
            return Err(e);
        }
        match terminal {
            None => Err(Error::OutOfMemory),
            Some(terminal) => Ok(FeedIncrementalDecoder { core, terminal, finished: false }),
        }
    }
}

/// A READY terminal plus an owned staged source for history records.
pub struct FeedIncrementalDecoder<D, T> {
    core: FeedCore<D>,
    terminal: T,
    finished: bool,
}

impl<D, T> View for FeedIncrementalDecoder<D, T> {
    type V = FeedView;

    closed spec fn view(&self) -> FeedView {
        FeedView { finished: self.finished, ..self.core@ }
    }
}

impl<D, T> FeedIncrementalDecoder<D, T> {
    /// The decoder of the engine.
    pub closed spec fn handle(&self) -> D {
        self.core.handle()
    }

    /// The terminal that READY handed over.
    pub closed spec fn live(&self) -> T {
        self.terminal
    }

    /// Appends bytes belonging to the next complete history unit or FINISH, and
    /// gives the decoder back for the next call.
    pub fn feed(&mut self, bytes: &[u8]) -> (r: Result<&mut Self, Error>)
        requires
            old(self)@.wf(),
        ensures
            match r {
                Ok(s) => {
                    &&& old(self)@.fed(bytes@, true) == (s@, Ok::<(), Error>(()))
                    &&& s@.wf()
                    &&& s.live() == old(self).live()
                    &&& s.handle() == old(self).handle()
                    &&& *final(self) == *final(s)
                },
                Err(e) => {
                    &&& old(self)@.fed(bytes@, true).1 == Err::<(), Error>(e) || (bytes@.len() > 0
                        && old(self)@.fed(bytes@, false).1 == Err::<(), Error>(e))
                    &&& final(self)@ == old(self)@
                    &&& final(self).live() == old(self).live()
                    &&& final(self).handle() == old(self).handle()
                },
            },
            bytes@.len() == 0 && !old(self)@.failed && !old(self)@.finished ==> r is Ok,
    {
        if self.finished {
            return Err(Error::InvalidValue);
        }
        match self.core.feed(bytes) {
            Ok(()) => Ok(self),
            Err(e) => Err(e),
        }
    }

    /// Current number of bytes waiting for the next unit to be decoded.
    #[must_use]
    pub fn staged_bytes(&self) -> (n: usize)
        ensures
            n == self@.source.staged.len(),
    {
        self.core.source.staged_bytes()
    }

    /// Hands the next staged bytes to the engine.
    pub fn read(&mut self, buf: &mut [u8]) -> (n: usize)
        requires
            old(self)@.wf(),
        ensures
            n == read_len(old(self)@.source, old(buf)@.len()),
            final(buf)@ == old(self)@.source.rest().take(n as int) + old(buf)@.skip(n as int),
            final(self)@ == old(self)@.read(n as nat),
            final(self)@.wf(),
            final(self).live() == old(self).live(),
            final(self).handle() == old(self).handle(),
    {
        self.core.read(buf)
    }

    /// Whether the engine may be asked to decode another unit: not after FINISH,
    /// and not after a failure.
    pub fn may_advance(&self) -> (r: Result<(), Error>)
        ensures
            r == (if self@.finished || self@.failed {
                Err::<(), Error>(Error::InvalidValue)
            } else {
                Ok::<(), Error>(())
            }),
    {
        if self.finished || self.core.failed {
            return Err(Error::InvalidValue);
        }
        Ok(())
    }

    /// Ends the decoding of one complete staged page unit, or of staged FINISH.
    ///
    /// `Ok(None)` is returned only after the engine validated FINISH.
    pub fn next(&mut self, reply: NextReply) -> (r: Result<Option<FeedProgress>, Error>)
        requires
            old(self)@.wf(),
        ensures
            (final(self)@, r) == old(self)@.advanced(reply),
            final(self)@.wf(),
            final(self).live() == old(self).live(),
            final(self).handle() == old(self).handle(),
    {
        if let Err(e) = self.may_advance() {
            return Err(e);
        }
        if reply.code == ResultCode::NoValue {
            let consumed_all = self.core.source.finish_operation();
            if !consumed_all {
                self.core.failed = true;
                return Err(Error::InvalidValue);
            }
            self.finished = true;
            return Ok(None);
        }
        if let Err(e) = self.core.complete_operation(reply.code) {
            return Err(e);
        }
        match reply.into_progress() {
            Ok(p) => Ok(Some(p)),
            Err(e) => Err(e),
        }
    }

    /// Borrows the renderable terminal while history is arriving.
    #[must_use]
    pub fn terminal(&self) -> (t: &T)
        ensures
            *t == self.live(),
    {
        &self.terminal
    }

    /// Mutably borrows the terminal for live writes between history units.
    pub fn terminal_mut(&mut self) -> (t: &mut T)
        ensures
            *t == old(self).live(),
            final(self).live() == *final(t),
            final(self)@ == old(self)@,
            final(self).handle() == old(self).handle(),
    {
        &mut self.terminal
    }

    /// Stops history decoding and takes ownership of the live terminal. The
    /// decoder of the engine is released.
    #[must_use]
    pub fn into_terminal(self) -> (t: T)
        ensures
            t == self.live(),
    {
        self.terminal
    }
}

/// Staging two fragments one after the other is staging them joined, wherever
/// the whole fits and memory is available.
pub proof fn law_fragments_join(v: FeedView, a: Seq<u8>, b: Seq<u8>)
    requires
        v.wf(),
        v.source.staged.len() + a.len() + b.len() <= v.source.limit,
    ensures
        v.fed(a, true).0.fed(b, true) == v.fed(a + b, true),
{
    assert(v.source.staged + a + b =~= v.source.staged + (a + b));
}

/// A fragment that is refused leaves everything as it was.
pub proof fn law_refused_fragment_changes_nothing(v: FeedView, bytes: Seq<u8>, reserved: bool)
    ensures
        v.fed(bytes, reserved).1 is Err ==> v.fed(bytes, reserved).0 == v,
{
}

/// What the source holds never exceeds its limit.
pub proof fn law_staging_is_bounded(v: FeedView, bytes: Seq<u8>, reserved: bool)
    requires
        v.wf(),
    ensures
        v.fed(bytes, reserved).0.source.staged.len() <= v.source.limit,
        v.fed(bytes, reserved).0.source.limit == v.source.limit,
        v.fed(bytes, reserved).0.wf(),
{
}

/// Successive reads hand the staged bytes over in order, without gap or overlap.
pub proof fn law_reads_run_through_the_staged_bytes(v: FeedView, space: nat)
    requires
        v.wf(),
    ensures
        ({
            let n = read_len(v.source, space);
            &&& v.source.rest() == v.source.rest().take(n as int) + v.read(n).source.rest()
            &&& v.read(n).wf()
        }),
{
    let n = read_len(v.source, space);
    assert(v.source.rest() =~= v.source.rest().take(n as int) + v.read(n).source.rest());
}

/// The decoder after the fragments were fed one after the other, with memory
/// available for each.
pub open spec fn fed_all(v: FeedView, fragments: Seq<Seq<u8>>) -> FeedView
    decreases fragments.len(),
{
    if fragments.len() == 0 {
        v
    } else {
        fed_all(v, fragments.drop_last()).fed(fragments.last(), true).0
    }
}

/// What the engine gets from reads into buffers of the given sizes, joined.
pub open spec fn read_all(v: FeedView, spaces: Seq<nat>) -> Seq<u8>
    decreases spaces.len(),
{
    if spaces.len() == 0 {
        Seq::empty()
    } else {
        let n = read_len(v.source, spaces.first());
        v.source.rest().take(n as int) + read_all(v.read(n), spaces.drop_first())
    }
}

/// The sum of the sizes.
pub open spec fn total(spaces: Seq<nat>) -> nat
    decreases spaces.len(),
{
    if spaces.len() == 0 {
        0
    } else {
        spaces.first() + total(spaces.drop_first())
    }
}

/// Fragments that fit together are all staged, joined in order.
pub proof fn law_fragments_are_staged_in_order(v: FeedView, fragments: Seq<Seq<u8>>)
    requires
        v.wf(),
        !v.failed,
        !v.finished,
        v.source.staged.len() + crate::snapshot::capture::joined(fragments).len()
            <= v.source.limit,
    ensures
        fed_all(v, fragments) == (FeedView {
            source: SourceView {
                staged: v.source.staged + crate::snapshot::capture::joined(fragments),
                ..v.source
            },
            ..v
        }),
    decreases fragments.len(),
{
    if fragments.len() == 0 {
        assert(v.source.staged + Seq::<u8>::empty() =~= v.source.staged);
    } else {
        let init = fragments.drop_last();
        law_fragments_are_staged_in_order(v, init);
        assert(v.source.staged + crate::snapshot::capture::joined(init) + fragments.last()
            =~= v.source.staged + crate::snapshot::capture::joined(fragments));
    }
}

/// Reads give the remaining bytes from the front, as many as they have space for.
pub proof fn law_reads_give_a_prefix(v: FeedView, spaces: Seq<nat>)
    requires
        v.wf(),
    ensures
        read_all(v, spaces) == v.source.rest().take(
            if total(spaces) <= v.source.rest().len() {
                total(spaces) as int
            } else {
                v.source.rest().len() as int
            },
        ),
    decreases spaces.len(),
{
    let rest = v.source.rest();
    if spaces.len() == 0 {
        assert(rest.take(0) =~= Seq::<u8>::empty());
    } else {
        let n = read_len(v.source, spaces.first());
        let next = v.read(n);
        law_reads_run_through_the_staged_bytes(v, spaces.first());
        law_reads_give_a_prefix(next, spaces.drop_first());
        assert(next.source.rest() =~= rest.skip(n as int));
        let k = if total(spaces) <= rest.len() {
            total(spaces) as int
        } else {
            rest.len() as int
        };
        assert(rest.take(n as int) + rest.skip(n as int).take(k - n) =~= rest.take(k));
    }
}

/// What was fed is what the engine reads: from a fresh decoder, in whatever
/// fragments the bytes come and into whatever buffers they are read.
pub proof fn law_engine_reads_what_was_fed(
    limit: nat,
    fragments: Seq<Seq<u8>>,
    spaces: Seq<nat>,
)
    requires
        0 < limit,
        crate::snapshot::capture::joined(fragments).len() <= limit,
        total(spaces) >= crate::snapshot::capture::joined(fragments).len(),
    ensures
        read_all(fed_all(FeedView::fresh(limit), fragments), spaces)
            == crate::snapshot::capture::joined(fragments),
{
    let v = FeedView::fresh(limit);
    let bytes = crate::snapshot::capture::joined(fragments);
    law_fragments_are_staged_in_order(v, fragments);
    assert(Seq::<u8>::empty() + bytes =~= bytes);
    let w = fed_all(v, fragments);
    law_reads_give_a_prefix(w, spaces);
    assert(w.source.rest() =~= bytes);
    assert(bytes.take(bytes.len() as int) =~= bytes);
}

/// Every decoding operation that is begun releases the staged storage, however
/// it ends.
pub proof fn law_operations_release_storage(v: FeedView, reply: NextReply)
    ensures
        v.completed(reply.code).0.source == v.source.released(),
        !v.failed && !v.finished ==> v.advanced(reply).0.source == v.source.released(),
{
}

/// A unit that the engine decoded whole reports the page that the engine tells
/// of, releases the storage, and leaves the decoder ready for the next unit.
pub proof fn law_whole_units_report_their_page(v: FeedView, reply: NextReply)
    requires
        !v.failed,
        !v.finished,
        v.source.taken == v.source.staged.len(),
        reply.code == ResultCode::Success,
        reply.screen.0 == ResultCode::Success,
        reply.screen.1 is Some,
        reply.rows.0 == ResultCode::Success,
        reply.remaining.0 == ResultCode::Success,
    ensures
        v.advanced(reply) == (
            FeedView { source: v.source.released(), ..v },
            Ok::<Option<FeedProgress>, Error>(
                Some(
                    FeedProgress {
                        screen: reply.screen.1->0,
                        rows: reply.rows.1,
                        remaining: reply.remaining.1,
                    },
                ),
            ),
        ),
{
}

/// A decoder that failed stays failed: it takes no more bytes, decodes no more
/// units, and does not change.
pub proof fn law_failure_is_final(v: FeedView, bytes: Seq<u8>, reserved: bool, reply: NextReply)
    requires
        v.failed,
    ensures
        v.fed(bytes, reserved) == (v, Err::<(), Error>(Error::InvalidValue)),
        v.advanced(reply) == (v, Err::<Option<FeedProgress>, Error>(Error::InvalidValue)),
{
}

/// A decoder that finished takes no more bytes and decodes no more units.
pub proof fn law_finish_is_final(v: FeedView, bytes: Seq<u8>, reserved: bool, reply: NextReply)
    requires
        v.finished,
    ensures
        v.fed(bytes, reserved) == (v, Err::<(), Error>(Error::InvalidValue)),
        v.advanced(reply) == (v, Err::<Option<FeedProgress>, Error>(Error::InvalidValue)),
{
}

/// The end of the history is reported exactly when the engine validated FINISH
/// and had taken every staged byte; only then is the decoder finished.
pub proof fn law_end_means_authenticated_finish(v: FeedView, reply: NextReply)
    requires
        !v.finished,
    ensures
        v.advanced(reply).1 == Ok::<Option<FeedProgress>, Error>(None) <==> (!v.failed && reply.code
            == ResultCode::NoValue && v.source.taken == v.source.staged.len()),
        v.advanced(reply).0.finished <==> v.advanced(reply).1 == Ok::<
            Option<FeedProgress>,
            Error,
        >(None),
{
}

/// A unit with bytes that the engine did not take is refused, whatever the
/// engine made of the rest.
pub proof fn law_trailing_bytes_are_refused(v: FeedView, reply: NextReply)
    requires
        v.source.taken < v.source.staged.len(),
    ensures
        v.completed(reply.code).1 is Err,
        v.completed(reply.code).0.failed,
        v.advanced(reply).1 is Err,
{
}

/// A source is made exactly where it may hold something, and holds nothing yet.
pub proof fn law_sources_begin_empty(max_bytes: usize, r: Result<FeedReader, Error>)
    requires
        call_ensures(FeedReader::new, (max_bytes,), r),
    ensures
        r is Ok <==> max_bytes > 0,
        r is Err ==> r->Err_0 == Error::InvalidValue,
        r matches Ok(source) ==> source@.staged.len() == 0 && source@.taken == 0 && source@.limit
            == max_bytes,
{
}

/// Bytes are staged behind those that are there, all or none: all of them exactly
/// where they fit and there is memory for them.
pub proof fn law_bytes_are_staged_whole_or_not_at_all(
    source: &mut FeedReader,
    bytes: &[u8],
    reserved: bool,
    r: Result<(), Error>,
)
    requires
        old(source)@.wf(),
        call_ensures(FeedReader::stage, (source, bytes, reserved), r),
    ensures
        r is Ok <==> old(source)@.staged.len() + bytes@.len() <= old(source)@.limit && reserved,
        r == Err::<(), Error>(Error::LimitExceeded) <==> old(source)@.staged.len() + bytes@.len()
            > old(source)@.limit,
        r is Err && r->Err_0 != Error::LimitExceeded ==> r->Err_0 == Error::OutOfMemory,
        r is Ok ==> final(source)@.staged == old(source)@.staged + bytes@,
        r is Err ==> final(source)@.staged == old(source)@.staged,
        final(source)@.taken == old(source)@.taken,
        final(source)@.limit == old(source)@.limit,
{
}

/// Feeding a source stages the bytes where they fit, unless memory runs out; bytes
/// that do not fit are refused for the limit, and a refusal changes nothing.
pub proof fn law_fed_bytes_are_staged_where_they_fit(
    source: &mut FeedReader,
    bytes: &[u8],
    r: Result<(), Error>,
)
    requires
        old(source)@.wf(),
        call_ensures(FeedReader::feed, (source, bytes), r),
    ensures
        r == Err::<(), Error>(Error::LimitExceeded) <==> old(source)@.staged.len() + bytes@.len()
            > old(source)@.limit,
        r is Err && r->Err_0 != Error::LimitExceeded ==> r->Err_0 == Error::OutOfMemory
            && bytes@.len() > 0,
        r is Ok ==> final(source)@.staged == old(source)@.staged + bytes@,
        r is Err ==> final(source)@.staged == old(source)@.staged,
        final(source)@.taken == old(source)@.taken,
        final(source)@.limit == old(source)@.limit,
{
    assert(old(source)@.staged + Seq::<u8>::empty() =~= old(source)@.staged);
}

/// A read hands over the next bytes that were not read, as many as there are and as
/// fit; the rest of the caller's buffer and everything that is staged stay.
pub proof fn law_reads_hand_over_the_next_bytes(
    source: &mut FeedReader,
    buf: &mut [u8],
    n: usize,
)
    requires
        old(source)@.wf(),
        call_ensures(FeedReader::read, (source, buf), n),
    ensures
        ({
            let v = old(source)@;
            let left = v.staged.len() - v.taken;
            &&& n <= left && n <= old(buf)@.len()
            &&& n == left || n == old(buf)@.len()
            &&& final(buf)@.len() == old(buf)@.len()
            &&& forall|i: int| 0 <= i < n ==> #[trigger] final(buf)@[i] == v.staged[v.taken + i]
            &&& forall|i: int|
                n <= i < old(buf)@.len() ==> #[trigger] final(buf)@[i] == old(buf)@[i]
            &&& final(source)@.taken == v.taken + n
            &&& final(source)@.staged == v.staged
            &&& final(source)@.limit == v.limit
        }),
{
}

/// The end of an operation empties the source, keeps its limit, and tells whether
/// everything had been read.
pub proof fn law_operations_empty_the_source(
    source: &mut FeedReader,
    all: bool,
    n: usize,
)
    requires
        old(source)@.wf(),
        call_ensures(FeedReader::finish_operation, (source,), all),
        call_ensures(FeedReader::staged_bytes, (&*final(source),), n),
    ensures
        all <==> old(source)@.taken == old(source)@.staged.len(),
        n == 0,
        final(source)@.staged.len() == 0 && final(source)@.taken == 0,
        final(source)@.limit == old(source)@.limit,
{
}

/// The progress of a unit has the engine's screen, rows and remaining pages, and
/// there is one exactly where the engine could tell all three and the screen is
/// known. The first question that failed is the error.
pub proof fn law_progress_is_what_the_engine_tells(
    reply: NextReply,
    screen: Result<(), Error>,
    rows: Result<(), Error>,
    remaining: Result<(), Error>,
    r: Result<FeedProgress, Error>,
)
    requires
        call_ensures(NextReply::into_progress, (reply,), r),
        call_ensures(from_result, (reply.screen.0,), screen),
        call_ensures(from_result, (reply.rows.0,), rows),
        call_ensures(from_result, (reply.remaining.0,), remaining),
    ensures
        r is Ok <==> screen is Ok && reply.screen.1 is Some && rows is Ok && remaining is Ok,
        r matches Ok(p) ==> reply.screen.1 == Some(p.screen) && p.rows == reply.rows.1
            && p.remaining == reply.remaining.1,
        r matches Err(e) ==> e == (match (screen, reply.screen.1, rows, remaining) {
            (Err(s), _, _, _) => s,
            (Ok(()), None, _, _) => Error::InvalidValue,
            (Ok(()), Some(_), Err(n), _) => n,
            (Ok(()), Some(_), Ok(()), Err(m)) => m,
            (Ok(()), Some(_), Ok(()), Ok(())) => e,
        }),
{
}

/// A decoder that is staged begins empty, and is refused where nothing could be
/// staged or as the engine says.
pub proof fn law_staged_decoders_begin_empty<D>(
    max: usize,
    code: ResultCode,
    decoder: Option<D>,
    opened: Result<D, Error>,
    r: Result<FeedDecoder<D>, Error>,
)
    requires
        call_ensures(FeedDecoder::<D>::new, (max, code, decoder), r),
        call_ensures(open_handle::<D>, (code, decoder), opened),
    ensures
        r is Ok <==> max > 0 && opened is Ok,
        max == 0 ==> r is Err && r->Err_0 == Error::InvalidValue,
        max > 0 && opened is Err ==> r is Err && r->Err_0 == opened->Err_0,
        r matches Ok(d) ==> {
            &&& Some(d.handle()) == decoder
            &&& d@.source.staged.len() == 0 && d@.source.taken == 0 && d@.source.limit == max
            &&& !d@.failed && !d@.finished
            &&& forall|n: usize| #[trigger]
                call_ensures(FeedDecoder::<D>::staged_bytes, (&d,), n) ==> n == 0
        },
{
}

/// Feeding a decoder stages the bytes behind those that are there, and hands the
/// decoder back. After a failure or FINISH nothing is taken; bytes that do not fit
/// are refused for the limit; other than that, only memory can run out.
pub proof fn law_decoders_take_fragments_until_they_end<D, T>(
    d: &mut FeedDecoder<D>,
    bytes: &[u8],
    r: Result<&mut FeedDecoder<D>, Error>,
    later: &mut FeedIncrementalDecoder<D, T>,
    s: Result<&mut FeedIncrementalDecoder<D, T>, Error>,
)
    requires
        old(d)@.wf(),
        old(later)@.wf(),
        call_ensures(FeedDecoder::<D>::feed, (d, bytes), r),
        call_ensures(FeedIncrementalDecoder::<D, T>::feed, (later, bytes), s),
    ensures
        r matches Ok(next) ==> next@.source.staged == old(d)@.source.staged + bytes@
            && next@.source.taken == old(d)@.source.taken && next@.source.limit == old(
            d,
        )@.source.limit && !next@.failed && !next@.finished && next.handle() == old(d).handle(),
        r is Err ==> final(d)@ == old(d)@,
        old(d)@.failed || old(d)@.finished ==> r is Err && r->Err_0 == Error::InvalidValue,
        !old(d)@.failed && !old(d)@.finished && old(d)@.source.staged.len() + bytes@.len() > old(
            d,
        )@.source.limit ==> r is Err && r->Err_0 == Error::LimitExceeded,
        !old(d)@.failed && !old(d)@.finished && old(d)@.source.staged.len() + bytes@.len() <= old(
            d,
        )@.source.limit && r is Err ==> r->Err_0 == Error::OutOfMemory && bytes@.len() > 0,
        s matches Ok(next) ==> next@.source.staged == old(later)@.source.staged + bytes@
            && next@.source.taken == old(later)@.source.taken && next@.source.limit == old(
            later,
        )@.source.limit && !next@.failed && !next@.finished && next.live() == old(later).live(),
        s is Err ==> final(later)@ == old(later)@,
        old(later)@.failed || old(later)@.finished ==> s is Err && s->Err_0 == Error::InvalidValue,
        !old(later)@.failed && !old(later)@.finished && old(later)@.source.staged.len()
            + bytes@.len() > old(later)@.source.limit ==> s is Err && s->Err_0
            == Error::LimitExceeded,
        !old(later)@.failed && !old(later)@.finished && old(later)@.source.staged.len()
            + bytes@.len() <= old(later)@.source.limit && s is Err ==> s->Err_0
            == Error::OutOfMemory && bytes@.len() > 0,
{
    assert(old(d)@.source.staged + Seq::<u8>::empty() =~= old(d)@.source.staged);
}

/// The engine reads the staged bytes of a decoder in order, before READY and behind
/// it.
pub proof fn law_the_engine_reads_in_order<D, T>(
    d: &mut FeedDecoder<D>,
    buf: &mut [u8],
    n: usize,
    later: &mut FeedIncrementalDecoder<D, T>,
    other: &mut [u8],
    m: usize,
)
    requires
        old(d)@.wf(),
        old(later)@.wf(),
        call_ensures(FeedDecoder::<D>::read, (d, buf), n),
        call_ensures(FeedIncrementalDecoder::<D, T>::read, (later, other), m),
    ensures
        ({
            let v = old(d)@.source;
            let left = v.staged.len() - v.taken;
            &&& n <= left && n <= old(buf)@.len() && (n == left || n == old(buf)@.len())
            &&& forall|i: int| 0 <= i < n ==> #[trigger] final(buf)@[i] == v.staged[v.taken + i]
            &&& final(d)@.source.taken == v.taken + n && final(d)@.source.staged == v.staged
            &&& final(d)@.failed == old(d)@.failed && final(d)@.finished == old(d)@.finished
        }),
        ({
            let v = old(later)@.source;
            let left = v.staged.len() - v.taken;
            &&& m <= left && m <= old(other)@.len() && (m == left || m == old(other)@.len())
            &&& forall|i: int| 0 <= i < m ==> #[trigger] final(other)@[i] == v.staged[v.taken + i]
            &&& final(later)@.source.taken == v.taken + m && final(later)@.source.staged == v.staged
            &&& final(later)@.failed == old(later)@.failed && final(later)@.finished == old(
                later,
            )@.finished
            &&& final(later).live() == old(later).live()
        }),
{
}

/// READY is reached exactly where the engine reports success, had read every staged
/// byte, and gave a terminal. The decoder then goes on empty with that terminal; an
/// error of the engine is told first, then bytes that were left, then the missing
/// terminal.
pub proof fn law_ready_takes_every_staged_byte<D, T>(
    d: FeedDecoder<D>,
    code: ResultCode,
    terminal: Option<T>,
    told: Result<(), Error>,
    r: Result<FeedIncrementalDecoder<D, T>, Error>,
)
    requires
        d@.wf(),
        call_ensures(FeedDecoder::<D>::ready::<T>, (d, code, terminal), r),
        call_ensures(from_result, (code,), told),
    ensures
        r is Ok <==> code == ResultCode::Success && d@.source.taken == d@.source.staged.len()
            && terminal is Some,
        r matches Ok(next) ==> Some(next.live()) == terminal && next.handle() == d.handle()
            && next@.source.staged.len() == 0 && next@.source.taken == 0 && next@.source.limit
            == d@.source.limit && next@.failed == d@.failed && next@.finished == d@.finished,
        r matches Err(e) ==> e == (match told {
            Err(t) => t,
            Ok(()) => if d@.source.taken < d@.source.staged.len() {
                Error::InvalidValue
            } else {
                Error::OutOfMemory
            },
        }),
{
}

/// A unit is decoded only while nothing failed and FINISH was not reached. The end
/// is told exactly where the engine has nothing more and had read every staged
/// byte; a page exactly where the engine reports success, had read every staged
/// byte, and could describe it. Whatever the outcome, the staged bytes are gone.
/// Failing, or leaving bytes, ends the decoding for good.
pub proof fn law_units_are_decoded_whole<D, T>(
    d: &mut FeedIncrementalDecoder<D, T>,
    reply: NextReply,
    may: Result<(), Error>,
    told: Result<(), Error>,
    progress: Result<FeedProgress, Error>,
    r: Result<Option<FeedProgress>, Error>,
)
    requires
        old(d)@.wf(),
        call_ensures(FeedIncrementalDecoder::<D, T>::may_advance, (&*old(d),), may),
        call_ensures(FeedIncrementalDecoder::<D, T>::next, (d, reply), r),
        call_ensures(from_result, (reply.code,), told),
        call_ensures(NextReply::into_progress, (reply,), progress),
    ensures
        ({
            let v = old(d)@;
            let all = v.source.taken == v.source.staged.len();
            &&& may is Ok <==> !v.failed && !v.finished
            &&& may is Err ==> may->Err_0 == Error::InvalidValue && r is Err && r->Err_0
                == Error::InvalidValue && final(d)@ == v
            &&& may is Ok ==> {
                &&& r is Ok && r->Ok_0 is None <==> reply.code == ResultCode::NoValue && all
                &&& r is Ok && r->Ok_0 is Some <==> reply.code == ResultCode::Success && all
                    && progress is Ok
                &&& r matches Ok(Some(p)) ==> progress == Ok::<FeedProgress, Error>(p)
                &&& reply.code == ResultCode::NoValue && !all ==> r->Err_0 == Error::InvalidValue
                &&& reply.code == ResultCode::Success && !all ==> r->Err_0 == Error::InvalidValue
                &&& reply.code == ResultCode::Success && all && progress is Err ==> r->Err_0
                    == progress->Err_0
                &&& reply.code != ResultCode::Success && reply.code != ResultCode::NoValue
                    ==> told == Err::<(), Error>(r->Err_0)
                &&& final(d)@.source.staged.len() == 0 && final(d)@.source.taken == 0
                &&& final(d)@.source.limit == v.source.limit
                &&& final(d)@.finished <==> reply.code == ResultCode::NoValue && all
                &&& final(d)@.failed <==> !all || reply.code != ResultCode::Success && reply.code
                    != ResultCode::NoValue
            }
            &&& final(d).live() == old(d).live()
        }),
{
}

/// The pair of a decoder and its source begins empty and takes fragments until it
/// failed, all of one or nothing.
pub proof fn law_pairs_take_fragments_until_they_fail<D>(
    max: usize,
    code: ResultCode,
    decoder: Option<D>,
    opened: Result<D, Error>,
    made: Result<FeedCore<D>, Error>,
    core: &mut FeedCore<D>,
    bytes: &[u8],
    r: Result<(), Error>,
)
    requires
        old(core)@.wf(),
        !old(core)@.finished,
        call_ensures(FeedCore::<D>::new, (max, code, decoder), made),
        call_ensures(open_handle::<D>, (code, decoder), opened),
        call_ensures(FeedCore::<D>::feed, (core, bytes), r),
    ensures
        made is Ok <==> max > 0 && opened is Ok,
        made matches Err(e) ==> e == (if max == 0 {
            Error::InvalidValue
        } else {
            opened->Err_0
        }),
        made matches Ok(c) ==> Some(c.handle()) == decoder && c@.source.staged.len() == 0
            && c@.source.taken == 0 && c@.source.limit == max && !c@.failed && !c@.finished,
        old(core)@.failed ==> r == Err::<(), Error>(Error::InvalidValue),
        !old(core)@.failed ==> (r == Err::<(), Error>(Error::LimitExceeded) <==> old(
            core,
        )@.source.staged.len() + bytes@.len() > old(core)@.source.limit),
        r is Ok ==> final(core)@.source.staged == old(core)@.source.staged + bytes@,
        r is Err ==> final(core)@.source.staged == old(core)@.source.staged,
        final(core)@.source.taken == old(core)@.source.taken,
        final(core)@.source.limit == old(core)@.source.limit,
        final(core)@.failed == old(core)@.failed,
        final(core).handle() == old(core).handle(),
{
    assert(old(core)@.source.staged + Seq::<u8>::empty() =~= old(core)@.source.staged);
}

/// An operation succeeds exactly where the engine reports success and had read every
/// staged byte; it empties the source in any case, and a failure stays.
pub proof fn law_operations_read_every_staged_byte<D>(
    core: &mut FeedCore<D>,
    code: ResultCode,
    told: Result<(), Error>,
    r: Result<(), Error>,
)
    requires
        old(core)@.wf(),
        call_ensures(FeedCore::<D>::complete_operation, (core, code), r),
        call_ensures(from_result, (code,), told),
    ensures
        r is Ok <==> code == ResultCode::Success && old(core)@.source.taken == old(
            core,
        )@.source.staged.len(),
        r matches Err(e) ==> e == (match told {
            Err(t) => t,
            Ok(()) => Error::InvalidValue,
        }),
        final(core)@.source.staged.len() == 0 && final(core)@.source.taken == 0,
        final(core)@.source.limit == old(core)@.source.limit,
        final(core)@.failed <==> old(core)@.failed || r is Err,
        final(core).handle() == old(core).handle(),
{
}

/// The engine reads the staged bytes of a pair in order.
pub proof fn law_pairs_are_read_in_order<D>(core: &mut FeedCore<D>, buf: &mut [u8], n: usize)
    requires
        old(core)@.wf(),
        call_ensures(FeedCore::<D>::read, (core, buf), n),
    ensures
        ({
            let v = old(core)@.source;
            let left = v.staged.len() - v.taken;
            &&& n <= left && n <= old(buf)@.len() && (n == left || n == old(buf)@.len())
            &&& forall|i: int| 0 <= i < n ==> #[trigger] final(buf)@[i] == v.staged[v.taken + i]
            &&& forall|i: int|
                n <= i < old(buf)@.len() ==> #[trigger] final(buf)@[i] == old(buf)@[i]
            &&& final(core)@.source.taken == v.taken + n && final(core)@.source.staged == v.staged
            &&& final(core)@.source.limit == v.limit
            &&& final(core)@.failed == old(core)@.failed
        }),
{
}

/// The terminal that READY gave is the one that is shown while history arrives and
/// the one that is left in the end; nothing is staged behind READY. A decoder comes
/// back for the next call exactly where the engine accepts a setting.
pub proof fn law_terminals_stay_while_history_arrives<'d, D, T>(
    d: FeedDecoder<D>,
    code: ResultCode,
    terminal: Option<T>,
    live: FeedIncrementalDecoder<D, T>,
    shown: &T,
    left: T,
    n: usize,
    e: &'d mut FeedDecoder<D>,
    setting: ResultCode,
    told: Result<(), Error>,
    s: Result<&'d mut FeedDecoder<D>, Error>,
)
    requires
        d@.wf(),
        call_ensures(
            FeedDecoder::<D>::ready::<T>,
            (d, code, terminal),
            Ok::<FeedIncrementalDecoder<D, T>, Error>(live),
        ),
        call_ensures(FeedIncrementalDecoder::<D, T>::terminal, (&live,), shown),
        call_ensures(FeedIncrementalDecoder::<D, T>::into_terminal, (live,), left),
        call_ensures(FeedIncrementalDecoder::<D, T>::staged_bytes, (&live,), n),
        call_ensures(FeedDecoder::<D>::set_max_continuation_bytes, (e, setting), s),
        call_ensures(from_result, (setting,), told),
    ensures
        Some(*shown) == terminal,
        Some(left) == terminal,
        n == 0,
        s is Ok <==> setting == ResultCode::Success,
        s matches Ok(next) ==> *next == *old(e) && *final(next) == *final(e),
        s matches Err(e2) ==> told == Err::<(), Error>(e2) && *final(e) == *old(e),
{
}

/// What is done to the terminal through the decoder is done to the decoder's own
/// terminal: it begins as the one that is shown, and what it becomes is shown
/// behind. What is staged stays.
pub proof fn law_terminals_are_changed_in_place<'d, D, T>(
    d: &'d mut FeedIncrementalDecoder<D, T>,
    t: &'d mut T,
    before: &T,
    after: &T,
)
    requires
        call_ensures(FeedIncrementalDecoder::<D, T>::terminal_mut, (d,), t),
        call_ensures(FeedIncrementalDecoder::<D, T>::terminal, (&*old(d),), before),
        call_ensures(FeedIncrementalDecoder::<D, T>::terminal, (&*final(d),), after),
    ensures
        *old(t) == *before,
        *after == *final(t),
        final(d).handle() == old(d).handle(),
        final(d)@.source.staged == old(d)@.source.staged,
        final(d)@.source.taken == old(d)@.source.taken,
        final(d)@.source.limit == old(d)@.source.limit,
        final(d)@.failed == old(d)@.failed,
        final(d)@.finished == old(d)@.finished,
{
}

} // verus!
