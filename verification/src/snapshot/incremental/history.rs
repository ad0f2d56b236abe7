//! Paging live history out of one terminal and into another.
//!
//! A [`HistoryLease`] cuts the history of one screen at an authenticated
//! checkpoint. Its cursor and every importer share the lease, which lives as
//! long as any of them.
use std::rc::Rc;

use vstd::prelude::*;
use vstd::slice::*;

use crate::snapshot::incremental::status::{
    from_status, open_handle, CapabilityToken, CheckpointToken, Error, Released, ScreenKey,
    SnapshotStatus,
};

verus! {

/// Strict budgets for one history cursor or import operation.
#[derive(Clone, Copy, Debug, PartialEq, Eq, Structural)]
pub struct HistoryOptions {
    /// Maximum bytes for each unit.
    pub max_unit_bytes: usize,
    /// Maximum rows for each unit.
    pub max_rows: usize,
    /// Maximum imported units; used only at importer construction.
    pub max_units: usize,
}

impl Default for HistoryOptions {
    fn default() -> (o: HistoryOptions)
        ensures
            o == (HistoryOptions { max_unit_bytes: 0x4_0000, max_rows: 32, max_units: 4096 }),
    {
        HistoryOptions { max_unit_bytes: 256 * 1024, max_rows: 32, max_units: 4096 }
    }
}

/// What a lease is bound to; `L` stands for the lease of the engine and `S` for
/// the terminal that it was cut from.
pub struct LeaseInner<L, S> {
    handle: L,
    source: S,
    screen: ScreenKey,
    checkpoint: CheckpointToken,
}

/// The content of a [`LeaseInner`].
#[verifier::ext_equal]
pub struct LeaseView<L, S> {
    pub handle: L,
    pub source: S,
    pub screen: ScreenKey,
    pub checkpoint: Seq<u8>,
}

impl<L, S> View for LeaseInner<L, S> {
    type V = LeaseView<L, S>;

    closed spec fn view(&self) -> LeaseView<L, S> {
        LeaseView {
            handle: self.handle,
            source: self.source,
            screen: self.screen,
            checkpoint: self.checkpoint@,
        }
    }
}

/// `Rc::clone`: another owner of the same value.
#[verifier::external_body]
fn share<L, S>(rc: &Rc<LeaseInner<L, S>>) -> (r: Rc<LeaseInner<L, S>>)
    ensures
        *r == **rc,
{
    Rc::clone(rc)
}

/// A generation-bound history lease.
pub struct HistoryLease<L, S> {
    inner: Rc<LeaseInner<L, S>>,
}

/// What the engine answered when a lease was asked for.
pub struct LeaseReply<L> {
    pub status: SnapshotStatus,
    pub lease: Option<L>,
    pub checkpoint: Vec<u8>,
}

/// What the engine answered when a cursor or an importer was asked for.
pub struct TransferReply<H> {
    pub status: SnapshotStatus,
    pub handle: Option<H>,
    pub capability: Vec<u8>,
}

impl<L, S> HistoryLease<L, S> {
    /// What the lease is bound to.
    pub closed spec fn bound(&self) -> LeaseView<L, S> {
        (*self.inner)@
    }

    /// Wraps the lease that the engine cut from the screen `screen` of `source`.
    /// A failing status comes first, then a missing terminal, then a missing
    /// lease.
    pub fn new(screen: ScreenKey, source: Option<S>, reply: LeaseReply<L>) -> (r: Result<
        HistoryLease<L, S>,
        Error,
    >)
        ensures
            match crate::snapshot::incremental::status::error_of(reply.status, 0, 0) {
                Some(e) => r == Err::<HistoryLease<L, S>, Error>(e),
                None => match (source, reply.lease) {
                    (None, _) => r == Err::<HistoryLease<L, S>, Error>(Error::WrongTerminal),
                    (Some(_), None) => r == Err::<HistoryLease<L, S>, Error>(Error::OutOfMemory),
                    (Some(s), Some(l)) => r is Ok && r->Ok_0.bound() == (LeaseView {
                        handle: l,
                        source: s,
                        screen,
                        checkpoint: reply.checkpoint@,
                    }),
                },
            },
    {
        if let Err(e) = from_status(reply.status, 0, 0) {
            return Err(e);
        }
        let source = match source {
            Some(s) => s,
            None => {
                return Err(Error::WrongTerminal);
            },
        };
        match reply.lease {
            None => Err(Error::OutOfMemory),
            Some(handle) => {
                let checkpoint = CheckpointToken::new(reply.checkpoint);
                let inner = Rc::new(LeaseInner { handle, source, screen, checkpoint });
                Ok(HistoryLease { inner })
            },
        }
    }

    /// The opaque authenticated checkpoint for this cut.
    pub fn checkpoint(&self) -> (c: &CheckpointToken)
        ensures
            c@ == self.bound().checkpoint,
    {
        &self.inner.checkpoint
    }

    /// The lease of the engine and the terminal that it was cut from.
    pub fn parts(&self) -> (r: (&L, &S))
        ensures
            *r.0 == self.bound().handle,
            *r.1 == self.bound().source,
    {
        (&self.inner.handle, &self.inner.source)
    }

    /// Ends the transfer of the newest-first cursor, which happens once.
    pub fn into_cursor<C>(self, reply: TransferReply<C>) -> (r: Result<
        HistoryCursor<C, L, S>,
        Error,
    >)
        ensures
            match crate::snapshot::incremental::status::handle_when(reply.status, reply.handle) {
                Err(e) => r == Err::<HistoryCursor<C, L, S>, Error>(e),
                Ok(c) => {
                    &&& r is Ok
                    &&& r->Ok_0.handle() == c
                    &&& r->Ok_0.bound() == self.bound()
                    &&& r->Ok_0.token() == reply.capability@
                },
            },
    {
        match open_handle(reply.status, reply.handle) {
            Err(e) => Err(e),
            Ok(inner) => Ok(
                HistoryCursor {
                    inner,
                    lease: share(&self.inner),
                    capability: CapabilityToken::new(reply.capability),
                },
            ),
        }
    }
}

/// The kind of history event that the engine reports; kinds that this library
/// does not know are `Unknown`.
#[derive(Clone, Copy, Debug, PartialEq, Eq, Structural)]
pub enum RawHistoryKind {
    Unit,
    End,
    Unknown,
}

/// What the engine answered when the next history unit was asked for.
#[derive(Clone, Copy, Debug)]
pub struct HistoryReply {
    pub status: SnapshotStatus,
    pub kind: RawHistoryKind,
    pub written: usize,
    pub required_bytes: usize,
    pub rows: usize,
    pub page_complete: bool,
}

/// One history unit in the caller's buffer, or the end of the cursor.
pub enum HistoryEvent<'buffer> {
    /// One authenticated opaque history unit.
    Unit {
        /// Complete unit bytes in the caller's buffer.
        unit: &'buffer [u8],
        /// Rows represented by this unit.
        rows: usize,
        /// This unit completes its source page.
        page_complete: bool,
    },
    /// No older units remain.
    End,
}

/// What the caller sees of an answer about a buffer of `capacity` bytes: an
/// error, or nothing where the event can be handed out.
pub open spec fn history_refusal(reply: HistoryReply, capacity: nat) -> Option<Error> {
    match crate::snapshot::incremental::status::error_of(reply.status, reply.required_bytes, 0) {
        Some(e) => Some(e),
        None => match reply.kind {
            RawHistoryKind::Unit => if reply.written > capacity || reply.required_bytes
                != reply.written {
                Some(Error::InvalidState)
            } else {
                None
            },
            RawHistoryKind::End => None,
            RawHistoryKind::Unknown => Some(Error::InvalidState),
        },
    }
}

/// `r` is what the caller gets for an answer about the content `buffer` of its
/// buffer.
pub open spec fn history_event(
    reply: HistoryReply,
    buffer: Seq<u8>,
    r: Result<HistoryEvent<'_>, Error>,
) -> bool {
    match history_refusal(reply, buffer.len()) {
        Some(e) => r == Err::<HistoryEvent<'_>, Error>(e),
        None => match reply.kind {
            RawHistoryKind::Unit => r matches Ok(HistoryEvent::Unit { unit, rows, page_complete })
                && unit@ == buffer.take(reply.written as int) && rows == reply.rows
                && page_complete == reply.page_complete,
            _ => r == Ok::<HistoryEvent<'_>, Error>(HistoryEvent::End),
        },
    }
}

/// Reads the answer about one step of a cursor.
fn history_step<'buffer>(buffer: &'buffer [u8], reply: HistoryReply) -> (r: Result<
    HistoryEvent<'buffer>,
    Error,
>)
    ensures
        history_event(reply, buffer@, r),
{
    if let Err(e) = from_status(reply.status, reply.required_bytes, 0) {
        return Err(e);
    }
    match reply.kind {
        RawHistoryKind::Unit => {
            if reply.written > buffer.len() || reply.required_bytes != reply.written {
                return Err(Error::InvalidState);
            }
            Ok(
                HistoryEvent::Unit {
                    unit: slice_subrange(buffer, 0, reply.written),
                    rows: reply.rows,
                    page_complete: reply.page_complete,
                },
            )
        },
        RawHistoryKind::End => Ok(HistoryEvent::End),
        RawHistoryKind::Unknown => Err(Error::InvalidState),
    }
}

/// Newest-to-oldest cursor for a live history cut.
pub struct HistoryCursor<C, L, S> {
    inner: C,
    lease: Rc<LeaseInner<L, S>>,
    capability: CapabilityToken,
}

/// What the engine is handed to begin an import.
pub struct ImportRequest<'lease, S, T> {
    /// The terminal that receives the history.
    pub destination: T,
    /// The screen that the lease was cut from.
    pub screen: ScreenKey,
    /// The terminal that the lease was cut from.
    pub source: &'lease S,
    /// The checkpoint of the cut.
    pub checkpoint: &'lease Vec<u8>,
    /// Budgets of the import.
    pub options: HistoryOptions,
}

impl<C, L, S> HistoryCursor<C, L, S> {
    /// The cursor of the engine.
    pub closed spec fn handle(&self) -> C {
        self.inner
    }

    /// What the cursor's lease is bound to.
    pub closed spec fn bound(&self) -> LeaseView<L, S> {
        (*self.lease)@
    }

    /// The bytes of the cursor's capability.
    pub closed spec fn token(&self) -> Seq<u8> {
        self.capability@
    }

    /// This cursor's opaque engine capability.
    pub fn capability(&self) -> (c: &CapabilityToken)
        ensures
            c@ == self.token(),
    {
        &self.capability
    }

    /// The cursor of the engine and the terminal that its lease was cut from.
    pub fn parts(&self) -> (r: (&C, &S))
        ensures
            *r.0 == self.handle(),
            *r.1 == self.bound().source,
    {
        (&self.inner, &self.lease.source)
    }

    /// Ends one step of the cursor, for which the engine was given `buffer`. The
    /// cursor stays as it is, so that a step that failed for want of space can be
    /// tried again.
    pub fn next<'buffer>(&mut self, buffer: &'buffer [u8], reply: HistoryReply) -> (r: Result<
        HistoryEvent<'buffer>,
        Error,
    >)
        ensures
            *final(self) == *old(self),
            history_event(reply, buffer@, r),
    {
        history_step(buffer, reply)
    }

    /// What to ask the engine for an import into `destination`. The import is
    /// bound to the screen, the terminal and the checkpoint of this cursor's
    /// lease.
    pub fn import_request<'lease, T>(
        &'lease self,
        destination: Option<T>,
        options: HistoryOptions,
    ) -> (r: Result<ImportRequest<'lease, S, T>, Error>)
        ensures
            match destination {
                None => r == Err::<ImportRequest<'lease, S, T>, Error>(Error::WrongTerminal),
                Some(t) => {
                    &&& r is Ok
                    &&& r->Ok_0.destination == t
                    &&& r->Ok_0.screen == self.bound().screen
                    &&& *r->Ok_0.source == self.bound().source
                    &&& r->Ok_0.checkpoint@ == self.bound().checkpoint
                    &&& r->Ok_0.options == options
                },
            },
    {
        match destination {
            None => Err(Error::WrongTerminal),
            Some(destination) => Ok(
                ImportRequest {
                    destination,
                    screen: self.lease.screen,
                    source: &self.lease.source,
                    checkpoint: self.lease.checkpoint.raw(),
                    options,
                },
            ),
        }
    }

    /// Wraps the importer that the engine gave for an import into `destination`.
    pub fn importer<I, T>(&self, destination: T, reply: TransferReply<I>) -> (r: Result<
        HistoryImporter<I, T, L, S>,
        Error,
    >)
        ensures
            match crate::snapshot::incremental::status::handle_when(reply.status, reply.handle) {
                Err(e) => r == Err::<HistoryImporter<I, T, L, S>, Error>(e),
                Ok(i) => {
                    &&& r is Ok
                    &&& r->Ok_0.handle() == i
                    &&& r->Ok_0.receiver() == destination
                    &&& r->Ok_0.bound() == self.bound()
                    &&& r->Ok_0.token() == reply.capability@
                },
            },
    {
        match open_handle(reply.status, reply.handle) {
            Err(e) => Err(e),
            Ok(inner) => Ok(
                HistoryImporter {
                    inner,
                    destination,
                    lease: share(&self.lease),
                    capability: CapabilityToken::new(reply.capability),
                },
            ),
        }
    }
}

/// A cursor that owns the terminal whose history it pages, so that the terminal
/// can take live input between two units.
pub struct LiveHistoryCursor<C, L, S, T> {
    // Fields are dropped in this order: the cursor, then its lease, then the
    // terminal.
    cursor: C,
    lease: LeaseInner<L, S>,
    capability: CapabilityToken,
    terminal: T,
}

/// An object of the engine that is released.
pub enum Release<C, L> {
    /// The cursor.
    Cursor(C),
    /// The lease that the cursor came from.
    Lease(L),
}

impl<C, L, S, T> LiveHistoryCursor<C, L, S, T> {
    /// The cursor of the engine.
    pub closed spec fn handle(&self) -> C {
        self.cursor
    }

    /// What the cursor's lease is bound to.
    pub closed spec fn bound(&self) -> LeaseView<L, S> {
        self.lease@
    }

    /// The bytes of the cursor's capability.
    pub closed spec fn token(&self) -> Seq<u8> {
        self.capability@
    }

    /// The terminal whose history is paged.
    pub closed spec fn live(&self) -> T {
        self.terminal
    }

    /// What is released, in order, before the terminal is handed out: the cursor,
    /// then its lease.
    pub open spec fn releases(&self) -> Seq<Release<C, L>> {
        seq![Release::Cursor(self.handle()), Release::Lease(self.bound().handle)]
    }

    /// Takes the terminal over: `source` stands for it in the calls of the
    /// engine, `lease` is what the engine answered when it was asked for a lease
    /// on the screen `screen`, and `transfer` what it answered when it was then
    /// asked for the cursor. Where either failed, the terminal comes back.
    pub fn new(
        terminal: T,
        screen: ScreenKey,
        source: S,
        lease: LeaseReply<L>,
        transfer: TransferReply<C>,
    ) -> (r: Result<LiveHistoryCursor<C, L, S, T>, (Error, T)>)
        ensures
            match crate::snapshot::incremental::status::handle_when(lease.status, lease.lease) {
                Err(e) => r == Err::<LiveHistoryCursor<C, L, S, T>, (Error, T)>((e, terminal)),
                Ok(l) => match crate::snapshot::incremental::status::handle_when(
                    transfer.status,
                    transfer.handle,
                ) {
                    Err(e) => r == Err::<LiveHistoryCursor<C, L, S, T>, (Error, T)>((e, terminal)),
                    Ok(c) => {
                        &&& r is Ok
                        &&& r->Ok_0.handle() == c
                        &&& r->Ok_0.live() == terminal
                        &&& r->Ok_0.token() == transfer.capability@
                        &&& r->Ok_0.bound() == (LeaseView {
                            handle: l,
                            source,
                            screen,
                            checkpoint: lease.checkpoint@,
                        })
                    },
                },
            },
    {
        let handle = match open_handle(lease.status, lease.lease) {
            Ok(handle) => handle,
            Err(e) => {
                return Err((e, terminal));
            },
        };
        let checkpoint = CheckpointToken::new(lease.checkpoint);
        let lease = LeaseInner { handle, source, screen, checkpoint };
        match open_handle(transfer.status, transfer.handle) {
            Ok(cursor) => {
                let capability = CapabilityToken::new(transfer.capability);
                Ok(LiveHistoryCursor { cursor, lease, capability, terminal })
            },
            Err(e) => Err((e, terminal)),
        }
    }

    /// The cursor of the engine and what stands for the terminal in its calls.
    pub fn parts(&self) -> (r: (&C, &S))
        ensures
            *r.0 == self.handle(),
            *r.1 == self.bound().source,
    {
        (&self.cursor, &self.lease.source)
    }

    /// This cursor's opaque engine capability.
    pub fn capability(&self) -> (c: &CapabilityToken)
        ensures
            c@ == self.token(),
    {
        &self.capability
    }

    /// Ends one step of the cursor, as [`HistoryCursor::next`] does.
    pub fn next<'buffer>(&mut self, buffer: &'buffer [u8], reply: HistoryReply) -> (r: Result<
        HistoryEvent<'buffer>,
        Error,
    >)
        ensures
            *final(self) == *old(self),
            history_event(reply, buffer@, r),
    {
        history_step(buffer, reply)
    }

    /// The terminal, for the engine to write live input to between two units. It
    /// stays with the cursor.
    pub fn terminal(&self) -> (t: &T)
        ensures
            *t == self.live(),
    {
        &self.terminal
    }

    /// Stops paging and gives the terminal back, behind what has to be released
    /// before it is used: the objects of the engine in their order.
    pub fn into_terminal(self) -> (r: (Vec<Release<C, L>>, T))
        ensures
            r.0@ == self.releases(),
            r.1 == self.live(),
    {
        let mut released: Vec<Release<C, L>> = Vec::new();
        released.push(Release::Cursor(self.cursor));
        released.push(Release::Lease(self.lease.handle));
        assert(released@ =~= self.releases());
        (released, self.terminal)
    }
}

/// What the engine answered when a unit was pushed.
#[derive(Clone, Copy, Debug)]
pub struct ImportReply {
    pub status: SnapshotStatus,
    pub consumed: usize,
    pub rows: usize,
    pub retained: bool,
    pub required_bytes: usize,
    pub required_rows: usize,
}

/// Result of importing one complete opaque history unit.
#[derive(Clone, Copy, Debug, PartialEq, Eq, Structural)]
pub struct HistoryImportEvent {
    /// Exact bytes consumed from the submitted unit.
    pub consumed: usize,
    /// Rows represented by the unit.
    pub rows: usize,
    /// Whether the destination retained this unit.
    pub retained: bool,
}

/// What the caller sees of an answer about a unit of `len` bytes.
pub open spec fn import_outcome(reply: ImportReply, len: nat) -> Result<HistoryImportEvent, Error> {
    match crate::snapshot::incremental::status::error_of(
        reply.status,
        reply.required_bytes,
        reply.required_rows,
    ) {
        Some(e) => Err(e),
        None => if reply.consumed != len {
            Err(Error::InvalidState)
        } else {
            Ok(
                HistoryImportEvent {
                    consumed: reply.consumed,
                    rows: reply.rows,
                    retained: reply.retained,
                },
            )
        },
    }
}

/// Transactional authenticated history importer. Until it is committed or
/// aborted, the engine has the import under way.
pub struct HistoryImporter<I, T, L, S> {
    inner: I,
    destination: T,
    lease: Rc<LeaseInner<L, S>>,
    capability: CapabilityToken,
}

impl<I, T, L, S> HistoryImporter<I, T, L, S> {
    /// The importer of the engine.
    pub closed spec fn handle(&self) -> I {
        self.inner
    }

    /// The terminal that receives the history.
    pub closed spec fn receiver(&self) -> T {
        self.destination
    }

    /// What the lease of the imported history is bound to.
    pub closed spec fn bound(&self) -> LeaseView<L, S> {
        (*self.lease)@
    }

    /// The bytes of the importer's capability.
    pub closed spec fn token(&self) -> Seq<u8> {
        self.capability@
    }

    /// This importer's opaque engine capability.
    pub fn capability(&self) -> (c: &CapabilityToken)
        ensures
            c@ == self.token(),
    {
        &self.capability
    }

    /// The importer of the engine and the terminal that receives the history,
    /// which may take live input between pushes.
    pub fn parts(&self) -> (r: (&I, &T))
        ensures
            *r.0 == self.handle(),
            *r.1 == self.receiver(),
    {
        (&self.inner, &self.destination)
    }

    /// Ends the import of one complete unit. A unit that the engine did not
    /// consume whole is refused.
    pub fn push(&mut self, unit: &[u8], reply: ImportReply) -> (r: Result<
        HistoryImportEvent,
        Error,
    >)
        ensures
            *final(self) == *old(self),
            r == import_outcome(reply, unit@.len()),
    {
        if let Err(e) = from_status(reply.status, reply.required_bytes, reply.required_rows) {
            return Err(e);
        }
        if reply.consumed != unit.len() {
            return Err(Error::InvalidState);
        }
        Ok(
            HistoryImportEvent {
                consumed: reply.consumed,
                rows: reply.rows,
                retained: reply.retained,
            },
        )
    }

    /// Ends the import after the engine was asked to publish it. Where that
    /// failed, the import is still under way and has to be aborted.
    pub fn commit(self, status: SnapshotStatus) -> (r: (Result<(), Error>, Released<I>))
        ensures
            r.0 == crate::snapshot::incremental::status::outcome(status, 0, 0),
            r.1 == (Released { handle: self.handle(), abort: r.0 is Err }),
    {
        match from_status(status, 0, 0) {
            Ok(()) => (Ok(()), Released { handle: self.inner, abort: false }),
            Err(e) => (Err(e), Released { handle: self.inner, abort: true }),
        }
    }

    /// Ends the import after the engine was asked to abort it, whatever the
    /// engine answered: it is not aborted a second time.
    pub fn abort(self, status: SnapshotStatus) -> (r: (Result<(), Error>, Released<I>))
        ensures
            r.0 == crate::snapshot::incremental::status::outcome(status, 0, 0),
            r.1 == (Released { handle: self.handle(), abort: false }),
    {
        (from_status(status, 0, 0), Released { handle: self.inner, abort: false })
    }

    /// Gives the import up: it is still to be aborted.
    pub fn release(self) -> (r: Released<I>)
        ensures
            r == (Released { handle: self.handle(), abort: true }),
    {
        Released { handle: self.inner, abort: true }
    }
}

/// A step that fails for want of space reports exactly the bytes that the engine
/// requires, and no rows.
pub proof fn law_short_buffer_reports_the_required_size(reply: HistoryReply, capacity: nat)
    requires
        reply.status == SnapshotStatus::OutOfSpace,
    ensures
        history_refusal(reply, capacity) == Some(
            Error::OutOfSpace { required_bytes: reply.required_bytes, required_rows: 0 },
        ),
{
}

/// `answer` tells what the engine says to a buffer of a given size while it has a
/// unit of `size` bytes to hand out: it asks for that size until it gets it.
pub open spec fn offers(answer: spec_fn(nat) -> HistoryReply, size: usize) -> bool {
    forall|capacity: nat|
        #![trigger answer(capacity)]
        answer(capacity).required_bytes == size && if capacity < size {
            answer(capacity).status == SnapshotStatus::OutOfSpace
        } else {
            &&& answer(capacity).status == SnapshotStatus::Success
            &&& answer(capacity).kind == RawHistoryKind::Unit
            &&& answer(capacity).written == size
        }
}

/// A short buffer does not lose a unit that the engine goes on offering: every
/// buffer that is too small is refused with the same size, and one of that size,
/// or a larger one, gets the unit.
pub proof fn law_short_buffers_lose_no_unit(
    answer: spec_fn(nat) -> HistoryReply,
    size: usize,
    buffer: Seq<u8>,
    r: Result<HistoryEvent<'_>, Error>,
)
    requires
        offers(answer, size),
        history_event(answer(buffer.len()), buffer, r),
    ensures
        buffer.len() < size ==> r == Err::<HistoryEvent<'_>, Error>(
            Error::OutOfSpace { required_bytes: size, required_rows: 0 },
        ),
        buffer.len() >= size ==> (r matches Ok(HistoryEvent::Unit { unit, .. }) && unit@.len()
            == size && unit@ == buffer.take(size as int)),
{
    assert(answer(buffer.len()).required_bytes == size);
}

/// The states that a live cursor passes through while it pages: no step changes
/// it.
pub open spec fn paged<C, L, S, T>(states: Seq<LiveHistoryCursor<C, L, S, T>>) -> bool {
    forall|i: int, j: int|
        #![trigger states[i], states[j]]
        0 <= i < states.len() && j == i + 1 && j < states.len() ==> states[j] == states[i]
}

/// However many units a live cursor pages, the terminal that it gives back is the
/// one that it took over, and what it releases before that is its cursor and then
/// its lease.
pub proof fn law_the_terminal_taken_over_comes_back<C, L, S, T>(
    states: Seq<LiveHistoryCursor<C, L, S, T>>,
    taken: T,
    released: Seq<Release<C, L>>,
    given: T,
)
    requires
        states.len() > 0,
        states[0].live() == taken,
        paged(states),
        released == states.last().releases(),
        given == states.last().live(),
    ensures
        given == taken,
        released == seq![
            Release::<C, L>::Cursor(states[0].handle()),
            Release::<C, L>::Lease(states[0].bound().handle),
        ],
    decreases states.len(),
{
    let n = states.len() - 1;
    if n > 0 {
        let init = states.drop_last();
        assert(states[n - 1] == init.last());
        assert(states[n] == states[n - 1]);
        assert forall|i: int, j: int|
            #![trigger init[i], init[j]]
            0 <= i < init.len() && j == i + 1 && j < init.len() implies init[j] == init[i] by {
            assert(states[j] == states[i]);
        }
        law_the_terminal_taken_over_comes_back(init, taken, released, given);
    }
}

/// A damaged unit is refused as corrupt, and nothing of that stays behind: where
/// the engine then consumes the unit whole, it counts as imported.
pub proof fn law_damaged_units_can_be_pushed_again(
    first: ImportReply,
    damaged: Seq<u8>,
    second: ImportReply,
    unit: Seq<u8>,
)
    requires
        first.status == SnapshotStatus::Corruption,
        second.status == SnapshotStatus::Success,
        second.consumed == unit.len(),
    ensures
        import_outcome(first, damaged.len()) == Err::<HistoryImportEvent, Error>(Error::Corruption),
        import_outcome(second, unit.len()) == Ok::<HistoryImportEvent, Error>(
            HistoryImportEvent {
                consumed: second.consumed,
                rows: second.rows,
                retained: second.retained,
            },
        ),
{
}

/// A unit counts as imported only where every byte of it was consumed.
pub proof fn law_units_are_imported_whole(reply: ImportReply, unit: Seq<u8>)
    ensures
        import_outcome(reply, unit.len()) matches Ok(event) ==> event.consumed == unit.len(),
{
}

/// A unit is handed out exactly where the engine reports success and as many bytes
/// written as it required, inside the buffer; it is then those bytes, with the
/// engine's own row count and page boundary. The end is reported where the engine
/// reports it, and nothing else is. The cursor stays as it is.
pub proof fn law_units_are_handed_out_as_written<'buffer, C, L, S>(
    cursor: &mut HistoryCursor<C, L, S>,
    buffer: &'buffer [u8],
    reply: HistoryReply,
    told: Result<(), Error>,
    r: Result<HistoryEvent<'buffer>, Error>,
)
    requires
        call_ensures(HistoryCursor::<C, L, S>::next, (cursor, buffer, reply), r),
        call_ensures(from_status, (reply.status, reply.required_bytes, 0usize), told),
    ensures
        *final(cursor) == *old(cursor),
        r is Ok && r->Ok_0 is Unit <==> reply.status == SnapshotStatus::Success && reply.kind
            == RawHistoryKind::Unit && reply.written <= buffer@.len() && reply.written
            == reply.required_bytes,
        r is Ok && r->Ok_0 is End <==> reply.status == SnapshotStatus::Success && reply.kind
            == RawHistoryKind::End,
        r matches Ok(HistoryEvent::Unit { unit, rows, page_complete }) ==> {
            &&& unit@.len() == reply.written
            &&& forall|i: int| 0 <= i < reply.written ==> #[trigger] unit@[i] == buffer@[i]
            &&& rows == reply.rows
            &&& page_complete == reply.page_complete
        },
        r matches Err(e) ==> e == (match told {
            Err(t) => t,
            Ok(()) => Error::InvalidState,
        }),
{
}

/// A live cursor hands units out as every cursor does.
pub proof fn law_live_units_are_handed_out_as_written<'buffer, C, L, S, T>(
    cursor: &mut LiveHistoryCursor<C, L, S, T>,
    buffer: &'buffer [u8],
    reply: HistoryReply,
    told: Result<(), Error>,
    r: Result<HistoryEvent<'buffer>, Error>,
)
    requires
        call_ensures(LiveHistoryCursor::<C, L, S, T>::next, (cursor, buffer, reply), r),
        call_ensures(from_status, (reply.status, reply.required_bytes, 0usize), told),
    ensures
        *final(cursor) == *old(cursor),
        r is Ok && r->Ok_0 is Unit <==> reply.status == SnapshotStatus::Success && reply.kind
            == RawHistoryKind::Unit && reply.written <= buffer@.len() && reply.written
            == reply.required_bytes,
        r is Ok && r->Ok_0 is End <==> reply.status == SnapshotStatus::Success && reply.kind
            == RawHistoryKind::End,
        r matches Ok(HistoryEvent::Unit { unit, rows, page_complete }) ==> {
            &&& unit@.len() == reply.written
            &&& forall|i: int| 0 <= i < reply.written ==> #[trigger] unit@[i] == buffer@[i]
            &&& rows == reply.rows
            &&& page_complete == reply.page_complete
        },
        r matches Err(e) ==> e == (match told {
            Err(t) => t,
            Ok(()) => Error::InvalidState,
        }),
{
}

/// A unit counts as imported exactly where the engine reports success and consumed
/// the whole of it; rows and retention are then the engine's. Every error leaves
/// the importer as it was, with the sizes that the engine asks for.
pub proof fn law_imports_are_reported_as_made<I, T, L, S>(
    importer: &mut HistoryImporter<I, T, L, S>,
    unit: &[u8],
    reply: ImportReply,
    told: Result<(), Error>,
    r: Result<HistoryImportEvent, Error>,
)
    requires
        call_ensures(HistoryImporter::<I, T, L, S>::push, (importer, unit, reply), r),
        call_ensures(from_status, (reply.status, reply.required_bytes, reply.required_rows), told),
    ensures
        *final(importer) == *old(importer),
        r is Ok <==> reply.status == SnapshotStatus::Success && reply.consumed == unit@.len(),
        r matches Ok(event) ==> event.consumed == unit@.len() && event.rows == reply.rows
            && event.retained == reply.retained,
        r matches Err(e) ==> e == (match told {
            Err(t) => t,
            Ok(()) => Error::InvalidState,
        }),
{
}

/// An import that the engine published, or was asked to abort, is not aborted
/// again; one that it did not publish, or that is given up, still has to be.
pub proof fn law_imports_end_once<I, T, L, S>(
    importer: HistoryImporter<I, T, L, S>,
    status: SnapshotStatus,
    told: Result<(), Error>,
    committed: (Result<(), Error>, Released<I>),
    aborted: (Result<(), Error>, Released<I>),
    released: Released<I>,
)
    requires
        call_ensures(HistoryImporter::<I, T, L, S>::commit, (importer, status), committed),
        call_ensures(HistoryImporter::<I, T, L, S>::abort, (importer, status), aborted),
        call_ensures(HistoryImporter::<I, T, L, S>::release, (importer,), released),
        call_ensures(from_status, (status, 0usize, 0usize), told),
    ensures
        committed.0 == told,
        aborted.0 == told,
        committed.1.abort <==> status != SnapshotStatus::Success,
        !aborted.1.abort,
        released.abort,
        committed.1.handle == importer.handle(),
        aborted.1.handle == importer.handle(),
        released.handle == importer.handle(),
{
}

/// What an import is asked for comes from the lease that the cursor was cut with:
/// its screen, its terminal and its checkpoint. The destination and the budgets are
/// the caller's, and without a destination there is no import.
pub proof fn law_imports_are_bound_to_their_lease<'lease, C, L, S, T>(
    screen: ScreenKey,
    source: Option<S>,
    lease_reply: LeaseReply<L>,
    lease: HistoryLease<L, S>,
    transfer: TransferReply<C>,
    cursor: HistoryCursor<C, L, S>,
    destination: Option<T>,
    options: HistoryOptions,
    r: Result<ImportRequest<'lease, S, T>, Error>,
)
    requires
        call_ensures(
            HistoryLease::<L, S>::new,
            (screen, source, lease_reply),
            Ok::<HistoryLease<L, S>, Error>(lease),
        ),
        call_ensures(
            HistoryLease::<L, S>::into_cursor::<C>,
            (lease, transfer),
            Ok::<HistoryCursor<C, L, S>, Error>(cursor),
        ),
        call_ensures(
            HistoryCursor::<C, L, S>::import_request::<T>,
            (&cursor, destination, options),
            r,
        ),
    ensures
        lease_reply.status == SnapshotStatus::Success,
        transfer.status == SnapshotStatus::Success,
        transfer.handle == Some(cursor.handle()),
        cursor.token() == transfer.capability@,
        r is Ok <==> destination is Some,
        r is Err ==> r->Err_0 == Error::WrongTerminal,
        r matches Ok(request) ==> {
            &&& Some(request.destination) == destination
            &&& request.screen == screen
            &&& Some(*request.source) == source
            &&& request.checkpoint@ == lease_reply.checkpoint@
            &&& request.options == options
        },
{
}

/// Of what can be wrong with a lease, the engine's refusal is told first, then that
/// the terminal is missing, then that there was no memory for the lease.
pub proof fn law_leases_are_refused_in_order<L, S>(
    screen: ScreenKey,
    source: Option<S>,
    reply: LeaseReply<L>,
    told: Result<(), Error>,
    r: Result<HistoryLease<L, S>, Error>,
)
    requires
        call_ensures(HistoryLease::<L, S>::new, (screen, source, reply), r),
        call_ensures(from_status, (reply.status, 0usize, 0usize), told),
    ensures
        r is Ok <==> told is Ok && source is Some && reply.lease is Some,
        told is Err ==> r is Err && r->Err_0 == told->Err_0,
        told is Ok && source is None ==> r is Err && r->Err_0 == Error::WrongTerminal,
        told is Ok && source is Some && reply.lease is None ==> r is Err && r->Err_0
            == Error::OutOfMemory,
        r matches Ok(lease) ==> {
            &&& Some(lease.bound().handle) == reply.lease
            &&& Some(lease.bound().source) == source
            &&& lease.bound().screen == screen
            &&& lease.bound().checkpoint == reply.checkpoint@
        },
{
}

/// A lease shows the engine's lease, the terminal it was cut from and its checkpoint;
/// a cursor the engine's cursor, that very terminal and its own capability.
pub proof fn law_leases_and_cursors_show_their_parts<C, L, S>(
    screen: ScreenKey,
    source: Option<S>,
    lease_reply: LeaseReply<L>,
    lease: HistoryLease<L, S>,
    lease_parts: (&L, &S),
    checkpoint: &CheckpointToken,
    transfer: TransferReply<C>,
    cursor: HistoryCursor<C, L, S>,
    cursor_parts: (&C, &S),
    capability: &CapabilityToken,
)
    requires
        call_ensures(
            HistoryLease::<L, S>::new,
            (screen, source, lease_reply),
            Ok::<HistoryLease<L, S>, Error>(lease),
        ),
        call_ensures(HistoryLease::<L, S>::parts, (&lease,), lease_parts),
        call_ensures(HistoryLease::<L, S>::checkpoint, (&lease,), checkpoint),
        call_ensures(
            HistoryLease::<L, S>::into_cursor::<C>,
            (lease, transfer),
            Ok::<HistoryCursor<C, L, S>, Error>(cursor),
        ),
        call_ensures(HistoryCursor::<C, L, S>::parts, (&cursor,), cursor_parts),
        call_ensures(HistoryCursor::<C, L, S>::capability, (&cursor,), capability),
    ensures
        Some(*lease_parts.0) == lease_reply.lease,
        Some(*lease_parts.1) == source,
        checkpoint@ == lease_reply.checkpoint@,
        Some(*cursor_parts.0) == transfer.handle,
        Some(*cursor_parts.1) == source,
        capability@ == transfer.capability@,
{
}

/// An import is made exactly where the engine reports success and gave an importer.
/// It shows that importer, the terminal that receives the history and its own
/// capability.
pub proof fn law_imports_show_their_parts<C, L, S, I, T>(
    cursor: HistoryCursor<C, L, S>,
    destination: T,
    reply: TransferReply<I>,
    opened: Result<I, Error>,
    r: Result<HistoryImporter<I, T, L, S>, Error>,
    parts: (&I, &T),
    capability: &CapabilityToken,
)
    requires
        call_ensures(
            HistoryCursor::<C, L, S>::importer::<I, T>,
            (&cursor, destination, reply),
            r,
        ),
        call_ensures(open_handle::<I>, (reply.status, reply.handle), opened),
        r is Ok ==> call_ensures(HistoryImporter::<I, T, L, S>::parts, (&r->Ok_0,), parts),
        r is Ok ==> call_ensures(HistoryImporter::<I, T, L, S>::capability, (&r->Ok_0,), capability),
    ensures
        r is Ok <==> reply.status == SnapshotStatus::Success && reply.handle is Some,
        r matches Err(e) ==> opened == Err::<I, Error>(e),
        r is Ok ==> Some(*parts.0) == reply.handle && *parts.1 == destination && capability@
            == reply.capability@,
{
}

/// A live cursor is made exactly where the engine gave both lease and cursor. The
/// terminal is never lost: it comes back with the error, is shown while the cursor
/// lives, and comes back in the end, behind the cursor and then the lease, which are
/// released.
pub proof fn law_live_cursors_keep_their_terminal<C, L, S, T>(
    terminal: T,
    screen: ScreenKey,
    source: S,
    lease: LeaseReply<L>,
    transfer: TransferReply<C>,
    leased: Result<L, Error>,
    transferred: Result<C, Error>,
    r: Result<LiveHistoryCursor<C, L, S, T>, (Error, T)>,
    shown: &T,
    parts: (&C, &S),
    capability: &CapabilityToken,
    left: (Vec<Release<C, L>>, T),
)
    requires
        call_ensures(
            LiveHistoryCursor::<C, L, S, T>::new,
            (terminal, screen, source, lease, transfer),
            r,
        ),
        call_ensures(open_handle::<L>, (lease.status, lease.lease), leased),
        call_ensures(open_handle::<C>, (transfer.status, transfer.handle), transferred),
        r matches Ok(live) ==> {
            &&& call_ensures(LiveHistoryCursor::<C, L, S, T>::terminal, (&live,), shown)
            &&& call_ensures(LiveHistoryCursor::<C, L, S, T>::parts, (&live,), parts)
            &&& call_ensures(LiveHistoryCursor::<C, L, S, T>::capability, (&live,), capability)
            &&& call_ensures(LiveHistoryCursor::<C, L, S, T>::into_terminal, (live,), left)
        },
    ensures
        r is Ok <==> leased is Ok && transferred is Ok,
        r matches Err((e, back)) ==> back == terminal && e == (match leased {
            Err(l) => l,
            Ok(_) => transferred->Err_0,
        }),
        r is Ok ==> {
            &&& *shown == terminal
            &&& Some(*parts.0) == transfer.handle
            &&& *parts.1 == source
            &&& capability@ == transfer.capability@
            &&& left.1 == terminal
            &&& left.0@.len() == 2
            &&& left.0@[0] matches Release::Cursor(c) && Some(c) == transfer.handle
            &&& left.0@[1] matches Release::Lease(l) && Some(l) == lease.lease
        },
{
}

} // verus!
