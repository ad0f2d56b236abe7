//! Restoring a snapshot from a source that the engine reads by itself.
use vstd::prelude::*;

use crate::snapshot::capture::Screen;
use crate::snapshot::error::{from_optional_result, from_result, open_handle, Error};
use crate::status::ResultCode;

verus! {

/// A snapshot decoder of the engine.
pub struct Decoder<D> {
    inner: D,
}

impl<D> Decoder<D> {
    /// The decoder of the engine.
    pub closed spec fn handle(&self) -> D {
        self.inner
    }

    /// Wraps the decoder that the engine gave.
    pub fn new(code: ResultCode, decoder: Option<D>) -> (r: Result<Decoder<D>, Error>)
        ensures
            match crate::snapshot::error::handle_when(code, decoder) {
                Err(e) => r == Err::<Decoder<D>, Error>(e),
                Ok(d) => r is Ok && r->Ok_0.handle() == d,
            },
    {
        match open_handle(code, decoder) {
            Err(e) => Err(e),
            Ok(inner) => Ok(Decoder { inner }),
        }
    }

    /// The decoder of the engine, for queries.
    pub fn inner(&self) -> (d: &D)
        ensures
            *d == self.handle(),
    {
        &self.inner
    }

    /// The end of a one-shot decode: the restored terminal.
    pub fn decode<T>(self, code: ResultCode, terminal: Option<T>) -> (r: Result<T, Error>)
        ensures
            r == crate::snapshot::error::handle_when(code, terminal),
    {
        open_handle(code, terminal)
    }

    /// The end of decoding through READY: the renderable terminal, and the
    /// decoder for the history behind it.
    pub fn ready<T>(self, code: ResultCode, terminal: Option<T>) -> (r: Result<
        IncrementalDecoder<D, T>,
        Error,
    >)
        ensures
            match crate::snapshot::error::handle_when(code, terminal) {
                Err(e) => r == Err::<IncrementalDecoder<D, T>, Error>(e),
                Ok(t) => r is Ok && r->Ok_0.live() == t && r->Ok_0.handle() == self.handle(),
            },
    {
        match open_handle(code, terminal) {
            Err(e) => Err(e),
            Ok(terminal) => Ok(IncrementalDecoder { decoder: self, terminal }),
        }
    }

    /// The value that a query of the decoder filled in.
    pub fn get<V>(&self, code: ResultCode, value: V) -> (r: Result<V, Error>)
        ensures
            r == crate::snapshot::error::value_when(code, value),
    {
        match from_result(code) {
            Ok(()) => Ok(value),
            Err(e) => Err(e),
        }
    }

    /// As [`Decoder::get`] for a value that the snapshot need not hold, such as
    /// the history extent of the alternate screen.
    pub fn get_optional<V>(&self, code: ResultCode, value: V) -> (r: Result<Option<V>, Error>)
        ensures
            r == crate::snapshot::error::optional_when(code, 0, value),
    {
        from_optional_result(code, value)
    }

    /// Current maximum accepted continuation size.
    pub fn max_continuation_bytes(&self, code: ResultCode, value: usize) -> (r: Result<
        usize,
        Error,
    >)
        ensures
            r == crate::snapshot::error::value_when(code, value),
    {
        self.get(code, value)
    }

    /// The end of setting the largest non-ground continuation that the decoder
    /// accepts: gives the decoder back for the next call.
    pub fn set_max_continuation_bytes(&mut self, code: ResultCode) -> (r: Result<&mut Self, Error>)
        ensures
            match crate::snapshot::error::error_of(code, 0) {
                Some(e) => r == Err::<&mut Self, Error>(e) && *final(self) == *old(self),
                None => r is Ok && *r->Ok_0 == *old(self) && *final(self) == *final(r->Ok_0),
            },
    {
        match from_result(code) {
            Ok(()) => Ok(self),
            Err(e) => Err(e),
        }
    }

    /// Number of snapshot source bytes consumed so far. At FINISH this is where
    /// the bytes behind the snapshot begin.
    pub fn source_offset(&self, code: ResultCode, value: usize) -> (r: Result<usize, Error>)
        ensures
            r == crate::snapshot::error::value_when(code, value),
    {
        self.get(code, value)
    }

    /// Advisory complete history extent of the primary screen, in rows.
    pub fn history_rows_primary(&self, code: ResultCode, value: u64) -> (r: Result<u64, Error>)
        ensures
            r == crate::snapshot::error::value_when(code, value),
    {
        self.get(code, value)
    }

    /// Advisory complete history extent of the alternate screen, in rows, where
    /// the snapshot declares one.
    pub fn history_rows_alternate(&self, code: ResultCode, value: u64) -> (r: Result<
        Option<u64>,
        Error,
    >)
        ensures
            r == crate::snapshot::error::optional_when(code, 0, value),
    {
        self.get_optional(code, value)
    }
}

/// A terminal that was restored from bytes, and how many of them the snapshot
/// took.
pub struct DecodedSnapshot<T> {
    /// The restored terminal.
    pub terminal: T,
    /// Where the bytes behind the snapshot begin.
    pub consumed: usize,
}

/// The end of restoring a terminal from bytes that may go on behind the snapshot:
/// `code` and `terminal` are what the engine answered to the one-shot decode, and
/// `offset` what it answered when it was then asked for its source offset.
pub fn decode_snapshot<T>(
    code: ResultCode,
    terminal: Option<T>,
    offset: (ResultCode, usize),
) -> (r: Result<DecodedSnapshot<T>, Error>)
    ensures
        match crate::snapshot::error::handle_when(code, terminal) {
            Err(e) => r == Err::<DecodedSnapshot<T>, Error>(e),
            Ok(terminal) => r == match crate::snapshot::error::error_of(offset.0, 0) {
                Some(e) => Err::<DecodedSnapshot<T>, Error>(e),
                None => Ok(DecodedSnapshot { terminal, consumed: offset.1 }),
            },
        },
{
    match open_handle(code, terminal) {
        Err(e) => Err(e),
        Ok(terminal) => match from_result(offset.0) {
            Err(e) => Err(e),
            Ok(()) => Ok(DecodedSnapshot { terminal, consumed: offset.1 }),
        },
    }
}

/// A [`Decoder`] that adds history to the terminal that READY gave.
pub struct IncrementalDecoder<D, T> {
    decoder: Decoder<D>,
    terminal: T,
}

impl<D, T> IncrementalDecoder<D, T> {
    /// The decoder of the engine.
    pub closed spec fn handle(&self) -> D {
        self.decoder.handle()
    }

    /// The decoder that adds the history.
    pub closed spec fn decoder_view(&self) -> Decoder<D> {
        self.decoder
    }

    /// The terminal that READY gave.
    pub closed spec fn live(&self) -> T {
        self.terminal
    }

    /// This is what decoding one history page leads to: `after` is the decoder
    /// afterwards, and `told` what its caller is told of the page.
    pub open spec fn advances(
        self,
        code: ResultCode,
        page: PageReply,
        after: Self,
        told: Result<Option<PageReply>, Error>,
    ) -> bool {
        &&& after == self
        &&& told == crate::snapshot::error::optional_when(code, 0, page)
    }

    /// The end of decoding one history page: `Ok(None)` once FINISH was
    /// validated, and otherwise the decoder together with what the engine answers
    /// about the page.
    pub fn next<'d>(&'d mut self, code: ResultCode, page: PageReply) -> (r: Result<
        Option<Progress<'d, D>>,
        Error,
    >)
        ensures
            old(self).advances(code, page, *final(self), told(r)),
            r matches Ok(Some(p)) ==> p.decoder_view() == old(self).decoder_view(),
    {
        match from_optional_result(code, page) {
            Err(e) => Err(e),
            Ok(None) => Ok(None),
            Ok(Some(page)) => Ok(Some(Progress { decoder: &self.decoder, page })),
        }
    }

    /// The decoder, for the queries that it answers in every state.
    pub fn decoder(&self) -> (d: &Decoder<D>)
        ensures
            *d == self.decoder_view(),
            d.handle() == self.handle(),
    {
        &self.decoder
    }

    /// The terminal being decoded.
    pub fn terminal(&self) -> (t: &T)
        ensures
            *t == self.live(),
    {
        &self.terminal
    }

    /// The terminal being decoded, for live input.
    pub fn terminal_mut(&mut self) -> (t: &mut T)
        ensures
            *t == old(self).live(),
            final(self).live() == *final(t),
            final(self).handle() == old(self).handle(),
    {
        &mut self.terminal
    }

    /// Stops decoding and gives the terminal away.
    pub fn into_terminal(self) -> (t: T)
        ensures
            t == self.live(),
    {
        self.terminal
    }
}

/// The codes and values of the queries about the page decoded last. A screen that
/// this library does not know is `None`.
#[derive(Clone, Copy, Debug)]
pub struct PageReply {
    pub screen: (ResultCode, Option<Screen>),
    pub rows: (ResultCode, usize),
    pub remaining: (ResultCode, u32),
}

/// The current progress of the decode process.
pub struct Progress<'d, D> {
    decoder: &'d Decoder<D>,
    page: PageReply,
}

impl<'d, D> Progress<'d, D> {
    /// The decoder that made the progress.
    pub closed spec fn decoder_view(&self) -> Decoder<D> {
        *self.decoder
    }

    /// What the engine answered about the page decoded last.
    pub closed spec fn page(&self) -> PageReply {
        self.page
    }

    /// Screen associated with the most recently decoded history page.
    pub fn screen(&self) -> (r: Result<Screen, Error>)
        ensures
            r == match crate::snapshot::error::error_of(self.page().screen.0, 0) {
                Some(e) => Err::<Screen, Error>(e),
                None => match self.page().screen.1 {
                    Some(s) => Ok(s),
                    None => Err(Error::InvalidValue),
                },
            },
    {
        match from_result(self.page.screen.0) {
            Err(e) => Err(e),
            Ok(()) => match self.page.screen.1 {
                Some(s) => Ok(s),
                None => Err(Error::InvalidValue),
            },
        }
    }

    /// Rows prepended by the most recently decoded history page; zero where the
    /// page was authenticated but could not be applied.
    pub fn rows(&self) -> (r: Result<usize, Error>)
        ensures
            r == crate::snapshot::error::value_when(self.page().rows.0, self.page().rows.1),
    {
        match from_result(self.page.rows.0) {
            Ok(()) => Ok(self.page.rows.1),
            Err(e) => Err(e),
        }
    }

    /// Page records remaining in the same screen's HISTORY sequence.
    pub fn remaining(&self) -> (r: Result<u32, Error>)
        ensures
            r == crate::snapshot::error::value_when(
                self.page().remaining.0,
                self.page().remaining.1,
            ),
    {
        match from_result(self.page.remaining.0) {
            Ok(()) => Ok(self.page.remaining.1),
            Err(e) => Err(e),
        }
    }

    /// The underlying decoder.
    pub fn as_decoder(self) -> (d: &'d Decoder<D>)
        ensures
            *d == self.decoder_view(),
    {
        self.decoder
    }
}

/// What the caller is told of a page.
pub open spec fn told<D>(r: Result<Option<Progress<'_, D>>, Error>) -> Result<
    Option<PageReply>,
    Error,
> {
    match r {
        Err(e) => Err(e),
        Ok(None) => Ok(None),
        Ok(Some(p)) => Ok(Some(p.page())),
    }
}

/// The decoder passes through `states` while the engine answers every call with
/// the code `code`; `told` is what the callers are told.
pub open spec fn keeps_answering<D, T>(
    states: Seq<IncrementalDecoder<D, T>>,
    code: ResultCode,
    pages: Seq<PageReply>,
    told: Seq<Result<Option<PageReply>, Error>>,
) -> bool {
    &&& states.len() == pages.len() + 1
    &&& told.len() == pages.len()
    &&& forall|i: int|
        #![trigger told[i]]
        0 <= i < pages.len() ==> states[i].advances(code, pages[i], states[i + 1], told[i])
}

/// After FINISH, while the engine goes on answering that there is no further page,
/// every call says so again, and decoder and terminal stay as they are.
pub proof fn law_the_end_is_told_again<D, T>(
    states: Seq<IncrementalDecoder<D, T>>,
    pages: Seq<PageReply>,
    told: Seq<Result<Option<PageReply>, Error>>,
)
    requires
        keeps_answering(states, ResultCode::NoValue, pages, told),
    ensures
        forall|i: int|
            0 <= i < told.len() ==> #[trigger] told[i] == Ok::<Option<PageReply>, Error>(None),
        states.last() == states[0],
        states.last().live() == states[0].live(),
    decreases pages.len(),
{
    let n = pages.len() as int;
    if n > 0 {
        let before = states.drop_last();
        assert(states[n - 1].advances(ResultCode::NoValue, pages[n - 1], states[n], told[n - 1]));
        assert forall|i: int|
            #![trigger told.drop_last()[i]]
            0 <= i < n - 1 implies before[i].advances(
            ResultCode::NoValue,
            pages.drop_last()[i],
            before[i + 1],
            told.drop_last()[i],
        ) by {
            assert(told[i] == told.drop_last()[i]);
        }
        law_the_end_is_told_again(before, pages.drop_last(), told.drop_last());
        assert forall|i: int| 0 <= i < told.len() implies #[trigger] told[i] == Ok::<
            Option<PageReply>,
            Error,
        >(None) by {
            if i < n - 1 {
                assert(told.drop_last()[i] == told[i]);
            }
        }
    }
}

/// What a decoder is asked for comes out as the engine filled it in, exactly where
/// the engine reports success; what a snapshot need not hold may be missing.
pub proof fn law_queries_give_the_engines_values<D, V>(
    d: &Decoder<D>,
    code: ResultCode,
    value: V,
    n: usize,
    rows: u64,
    told: Result<(), Error>,
    r: Result<V, Error>,
    s: Result<Option<V>, Error>,
    cap: Result<usize, Error>,
    offset: Result<usize, Error>,
    primary: Result<u64, Error>,
    alternate: Result<Option<u64>, Error>,
)
    requires
        call_ensures(from_result, (code,), told),
        call_ensures(Decoder::<D>::get::<V>, (d, code, value), r),
        call_ensures(Decoder::<D>::get_optional::<V>, (d, code, value), s),
        call_ensures(Decoder::<D>::max_continuation_bytes, (d, code, n), cap),
        call_ensures(Decoder::<D>::source_offset, (d, code, n), offset),
        call_ensures(Decoder::<D>::history_rows_primary, (d, code, rows), primary),
        call_ensures(Decoder::<D>::history_rows_alternate, (d, code, rows), alternate),
    ensures
        r is Ok <==> code == ResultCode::Success,
        r matches Ok(v) ==> v == value,
        r matches Err(e) ==> told == Err::<(), Error>(e),
        s is Ok && s->Ok_0 is Some <==> code == ResultCode::Success,
        s is Ok && s->Ok_0 is None <==> code == ResultCode::NoValue,
        s matches Ok(Some(v)) ==> v == value,
        s matches Err(e) ==> told == Err::<(), Error>(e),
        cap == (match told {
            Ok(()) => Ok::<usize, Error>(n),
            Err(e) => Err(e),
        }),
        offset == cap,
        primary == (match told {
            Ok(()) => Ok::<u64, Error>(rows),
            Err(e) => Err(e),
        }),
        alternate == (if code == ResultCode::NoValue {
            Ok::<Option<u64>, Error>(None)
        } else {
            match told {
                Ok(()) => Ok(Some(rows)),
                Err(e) => Err(e),
            }
        }),
{
}

/// A page is told exactly where the engine reports success, and then as the engine
/// describes it: its screen, rows and remaining pages, or the error of that very
/// question. The end is told where the engine has no further page. The decoder and
/// its terminal stay.
pub proof fn law_pages_are_told_as_the_engine_describes_them<'d, D, T>(
    d: &'d mut IncrementalDecoder<D, T>,
    code: ResultCode,
    page: PageReply,
    told: Result<(), Error>,
    r: Result<Option<Progress<'d, D>>, Error>,
    p: Progress<'d, D>,
    screen_told: Result<(), Error>,
    screen: Result<Screen, Error>,
    rows_told: Result<(), Error>,
    rows: Result<usize, Error>,
    remaining_told: Result<(), Error>,
    remaining: Result<u32, Error>,
)
    requires
        call_ensures(IncrementalDecoder::<D, T>::next, (d, code, page), r),
        call_ensures(from_result, (code,), told),
        r matches Ok(Some(progress)) ==> progress == p,
        call_ensures(from_result, (page.screen.0,), screen_told),
        call_ensures(from_result, (page.rows.0,), rows_told),
        call_ensures(from_result, (page.remaining.0,), remaining_told),
        call_ensures(Progress::<'d, D>::screen, (&p,), screen),
        call_ensures(Progress::<'d, D>::rows, (&p,), rows),
        call_ensures(Progress::<'d, D>::remaining, (&p,), remaining),
    ensures
        *final(d) == *old(d),
        r is Ok && r->Ok_0 is Some <==> code == ResultCode::Success,
        r is Ok && r->Ok_0 is None <==> code == ResultCode::NoValue,
        r matches Err(e) ==> told == Err::<(), Error>(e),
        r is Ok && r->Ok_0 is Some ==> {
            &&& screen == match (screen_told, page.screen.1) {
                (Err(e), _) => Err::<Screen, Error>(e),
                (Ok(()), Some(s)) => Ok(s),
                (Ok(()), None) => Err(Error::InvalidValue),
            }
            &&& rows == match rows_told {
                Err(e) => Err::<usize, Error>(e),
                Ok(()) => Ok(page.rows.1),
            }
            &&& remaining == match remaining_told {
                Err(e) => Err::<u32, Error>(e),
                Ok(()) => Ok(page.remaining.1),
            }
            &&& p.decoder_view() == old(d).decoder_view()
        },
{
}

/// A terminal is restored exactly where the engine reports success, gave one, and
/// could tell where the snapshot ended; that place is where the caller's other bytes
/// begin. A decoder that reached READY goes on with the terminal that it gave.
pub proof fn law_snapshots_are_restored_with_their_end<D, T>(
    code: ResultCode,
    terminal: Option<T>,
    offset: (ResultCode, usize),
    opened: Result<T, Error>,
    asked: Result<(), Error>,
    r: Result<DecodedSnapshot<T>, Error>,
    d: Decoder<D>,
    decoded: Result<T, Error>,
    ready: Result<IncrementalDecoder<D, T>, Error>,
)
    requires
        call_ensures(decode_snapshot::<T>, (code, terminal, offset), r),
        call_ensures(open_handle::<T>, (code, terminal), opened),
        call_ensures(from_result, (offset.0,), asked),
        call_ensures(Decoder::<D>::decode::<T>, (d, code, terminal), decoded),
        call_ensures(Decoder::<D>::ready::<T>, (d, code, terminal), ready),
    ensures
        r is Ok <==> code == ResultCode::Success && terminal is Some && offset.0
            == ResultCode::Success,
        r matches Ok(restored) ==> Some(restored.terminal) == terminal && restored.consumed
            == offset.1,
        r matches Err(e) ==> e == (match (opened, asked) {
            (Err(o), _) => o,
            (Ok(_), Err(a)) => a,
            (Ok(_), Ok(())) => e,
        }),
        decoded == opened,
        ready is Ok <==> opened is Ok,
        ready matches Err(e) ==> opened == Err::<T, Error>(e),
        ready matches Ok(next) ==> Some(next.live()) == terminal && next.handle() == d.handle(),
{
}

/// A decoder is the one that the engine gave, and comes back for the next call
/// exactly where the engine accepts a setting; it does not change.
pub proof fn law_decoders_wrap_the_engines<'d, D>(
    code: ResultCode,
    decoder: Option<D>,
    opened: Result<D, Error>,
    told: Result<(), Error>,
    r: Result<Decoder<D>, Error>,
    d: &'d mut Decoder<D>,
    s: Result<&'d mut Decoder<D>, Error>,
)
    requires
        call_ensures(Decoder::<D>::new, (code, decoder), r),
        call_ensures(open_handle::<D>, (code, decoder), opened),
        call_ensures(from_result, (code,), told),
        call_ensures(Decoder::<D>::set_max_continuation_bytes, (d, code), s),
    ensures
        r is Ok <==> opened is Ok,
        r matches Err(e) ==> opened == Err::<D, Error>(e),
        r matches Ok(made) ==> forall|i: &D| #[trigger]
            call_ensures(Decoder::<D>::inner, (&made,), i) ==> Some(*i) == decoder,
        s is Ok <==> code == ResultCode::Success,
        s matches Ok(next) ==> *next == *old(d) && *final(next) == *final(d),
        s matches Err(e) ==> told == Err::<(), Error>(e) && *final(d) == *old(d),
{
}

/// The terminal that READY gave is the one that is shown while history is decoded
/// and the one that is left in the end; the decoder is the one that was ready, also
/// seen from a page.
pub proof fn law_terminals_stay_while_history_is_decoded<D, T>(
    d: Decoder<D>,
    code: ResultCode,
    terminal: Option<T>,
    live: IncrementalDecoder<D, T>,
    shown: &T,
    left: T,
    used: &Decoder<D>,
    inner: &D,
    engine: &D,
)
    requires
        call_ensures(
            Decoder::<D>::ready::<T>,
            (d, code, terminal),
            Ok::<IncrementalDecoder<D, T>, Error>(live),
        ),
        call_ensures(IncrementalDecoder::<D, T>::terminal, (&live,), shown),
        call_ensures(IncrementalDecoder::<D, T>::into_terminal, (live,), left),
        call_ensures(IncrementalDecoder::<D, T>::decoder, (&live,), used),
        call_ensures(Decoder::<D>::inner, (used,), inner),
        call_ensures(Decoder::<D>::inner, (&d,), engine),
    ensures
        Some(*shown) == terminal,
        Some(left) == terminal,
        *inner == *engine,
        forall|p: Progress<'_, D>, seen: &Decoder<D>|
            p.decoder_view() == live.decoder_view() && #[trigger] call_ensures(
                Progress::<'_, D>::as_decoder,
                (p,),
                seen,
            ) ==> *seen == *used,
{
}

/// What is done to the terminal through the decoder is done to the decoder's own
/// terminal: it begins as the one that is shown, and what it becomes is shown
/// behind.
pub proof fn law_terminals_are_changed_in_place<'d, D, T>(
    d: &'d mut IncrementalDecoder<D, T>,
    t: &'d mut T,
    before: &T,
    after: &T,
)
    requires
        call_ensures(IncrementalDecoder::<D, T>::terminal_mut, (d,), t),
        call_ensures(IncrementalDecoder::<D, T>::terminal, (&*old(d),), before),
        call_ensures(IncrementalDecoder::<D, T>::terminal, (&*final(d),), after),
    ensures
        *old(t) == *before,
        *after == *final(t),
        final(d).handle() == old(d).handle(),
{
}

} // verus!
