//! Terminal options, modes, viewport scrolling and effects.
use vstd::prelude::*;
use vstd::utf8::*;

use crate::key::KittyKeyFlags;
use crate::status::{from_result, open_handle, value_or_error, Error, ResultCode};
use crate::utf8::text_from_utf8;

verus! {

/// Terminal initialization options.
#[derive(Clone, Copy, Debug, PartialEq, Eq, Structural)]
pub struct Options {
    /// Terminal width in cells. Must be greater than zero.
    pub cols: u16,
    /// Terminal height in cells. Must be greater than zero.
    pub rows: u16,
    /// Maximum number of lines to keep in scrollback history.
    pub max_scrollback: usize,
}

/// Where to scroll the viewport.
#[derive(Clone, Copy, Debug, PartialEq, Eq, Structural)]
pub enum ScrollViewport {
    /// To the oldest line.
    Top,
    /// To the active area.
    Bottom,
    /// By a number of rows; up is negative.
    Delta(isize),
}

/// What the engine calls the ways to scroll.
#[derive(Clone, Copy, Debug, PartialEq, Eq, Structural)]
pub enum ScrollTag {
    Top,
    Bottom,
    Delta,
}

/// A scroll request as the engine takes it: the delta counts only with its tag.
#[derive(Clone, Copy, Debug, PartialEq, Eq, Structural)]
pub struct ScrollCommand {
    pub tag: ScrollTag,
    pub delta: isize,
}

impl ScrollViewport {
    /// The request that scrolls the viewport this way.
    pub open spec fn request(self) -> ScrollCommand {
        match self {
            ScrollViewport::Top => ScrollCommand { tag: ScrollTag::Top, delta: 0 },
            ScrollViewport::Bottom => ScrollCommand { tag: ScrollTag::Bottom, delta: 0 },
            ScrollViewport::Delta(delta) => ScrollCommand { tag: ScrollTag::Delta, delta },
        }
    }

    /// The request that scrolls the viewport this way.
    pub fn command(self) -> (c: ScrollCommand)
        ensures
            c == self.request(),
    {
        match self {
            ScrollViewport::Top => ScrollCommand { tag: ScrollTag::Top, delta: 0 },
            ScrollViewport::Bottom => ScrollCommand { tag: ScrollTag::Bottom, delta: 0 },
            ScrollViewport::Delta(delta) => ScrollCommand { tag: ScrollTag::Delta, delta },
        }
    }
}

/// Different ways to scroll make different requests.
pub proof fn law_scroll_requests_are_distinct(a: ScrollViewport, b: ScrollViewport)
    ensures
        a.request() == b.request() ==> a == b,
{
}

/// A terminal mode.
#[non_exhaustive]
#[derive(Clone, Copy, Debug, PartialEq, Eq, Hash, Structural)]
pub enum Mode {
    Kam,
    Insert,
    Srm,
    Linefeed,
    Decckm,
    _132Column,
    SlowScroll,
    ReverseColors,
    Origin,
    Wraparound,
    Autorepeat,
    X10Mouse,
    CursorBlinking,
    CursorVisible,
    EnableMode3,
    ReverseWrap,
    AltScreenLegacy,
    KeypadKeys,
    LeftRightMargin,
    NormalMouse,
    ButtonMouse,
    AnyMouse,
    FocusEvent,
    Utf8Mouse,
    SgrMouse,
    AltScroll,
    UrxvtMouse,
    SgrPixelsMouse,
    NumlockKeypad,
    AltEscPrefix,
    AltSendsEsc,
    ReverseWrapExt,
    AltScreen,
    SaveCursor,
    AltScreenSave,
    BracketedPaste,
    SyncOutput,
    GraphemeCluster,
    ColorSchemeReport,
    InBandResize,
}

/// Whether a mode is one of ANSI's or a DEC private one.
#[derive(Clone, Copy, Debug, PartialEq, Eq, Hash, Structural)]
pub enum ModeKind {
    Dec,
    Ansi,
}

/// The bit of a mode's code that marks ANSI modes.
pub const ANSI_BIT: u16 = 0x8000;

/// The number of a mode within its kind.
pub open spec fn mode_value(mode: Mode) -> u16 {
    match mode {
        Mode::Kam => 2,
        Mode::Insert => 4,
        Mode::Srm => 12,
        Mode::Linefeed => 20,
        Mode::Decckm => 1,
        Mode::_132Column => 3,
        Mode::SlowScroll => 4,
        Mode::ReverseColors => 5,
        Mode::Origin => 6,
        Mode::Wraparound => 7,
        Mode::Autorepeat => 8,
        Mode::X10Mouse => 9,
        Mode::CursorBlinking => 12,
        Mode::CursorVisible => 25,
        Mode::EnableMode3 => 40,
        Mode::ReverseWrap => 45,
        Mode::AltScreenLegacy => 47,
        Mode::KeypadKeys => 66,
        Mode::LeftRightMargin => 69,
        Mode::NormalMouse => 1000,
        Mode::ButtonMouse => 1002,
        Mode::AnyMouse => 1003,
        Mode::FocusEvent => 1004,
        Mode::Utf8Mouse => 1005,
        Mode::SgrMouse => 1006,
        Mode::AltScroll => 1007,
        Mode::UrxvtMouse => 1015,
        Mode::SgrPixelsMouse => 1016,
        Mode::NumlockKeypad => 1035,
        Mode::AltEscPrefix => 1036,
        Mode::AltSendsEsc => 1039,
        Mode::ReverseWrapExt => 1045,
        Mode::AltScreen => 1047,
        Mode::SaveCursor => 1048,
        Mode::AltScreenSave => 1049,
        Mode::BracketedPaste => 2004,
        Mode::SyncOutput => 2026,
        Mode::GraphemeCluster => 2027,
        Mode::ColorSchemeReport => 2031,
        Mode::InBandResize => 2048,
    }
}

/// The kind of a mode.
pub open spec fn mode_kind(mode: Mode) -> ModeKind {
    match mode {
        Mode::Kam | Mode::Insert | Mode::Srm | Mode::Linefeed => ModeKind::Ansi,
        _ => ModeKind::Dec,
    }
}

/// The code of a mode: its number, and [`ANSI_BIT`] for an ANSI mode.
pub open spec fn mode_code(mode: Mode) -> int {
    mode_value(mode) + match mode_kind(mode) {
        ModeKind::Ansi => ANSI_BIT as int,
        ModeKind::Dec => 0int,
    }
}

impl Mode {
    /// The code by which the engine knows the mode.
    pub fn code(self) -> (c: u16)
        ensures
            c == mode_code(self),
    {
        match self {
            Mode::Kam => 2 + ANSI_BIT,
            Mode::Insert => 4 + ANSI_BIT,
            Mode::Srm => 12 + ANSI_BIT,
            Mode::Linefeed => 20 + ANSI_BIT,
            Mode::Decckm => 1,
            Mode::_132Column => 3,
            Mode::SlowScroll => 4,
            Mode::ReverseColors => 5,
            Mode::Origin => 6,
            Mode::Wraparound => 7,
            Mode::Autorepeat => 8,
            Mode::X10Mouse => 9,
            Mode::CursorBlinking => 12,
            Mode::CursorVisible => 25,
            Mode::EnableMode3 => 40,
            Mode::ReverseWrap => 45,
            Mode::AltScreenLegacy => 47,
            Mode::KeypadKeys => 66,
            Mode::LeftRightMargin => 69,
            Mode::NormalMouse => 1000,
            Mode::ButtonMouse => 1002,
            Mode::AnyMouse => 1003,
            Mode::FocusEvent => 1004,
            Mode::Utf8Mouse => 1005,
            Mode::SgrMouse => 1006,
            Mode::AltScroll => 1007,
            Mode::UrxvtMouse => 1015,
            Mode::SgrPixelsMouse => 1016,
            Mode::NumlockKeypad => 1035,
            Mode::AltEscPrefix => 1036,
            Mode::AltSendsEsc => 1039,
            Mode::ReverseWrapExt => 1045,
            Mode::AltScreen => 1047,
            Mode::SaveCursor => 1048,
            Mode::AltScreenSave => 1049,
            Mode::BracketedPaste => 2004,
            Mode::SyncOutput => 2026,
            Mode::GraphemeCluster => 2027,
            Mode::ColorSchemeReport => 2031,
            Mode::InBandResize => 2048,
        }
    }

    /// The number of the mode within its kind.
    pub fn value(self) -> (v: u16)
        ensures
            v == mode_value(self),
    {
        let code: u16 = self.code();
        assert(code < 0x8000 ==> code & 0x7fff == code) by (bit_vector);
        assert(code >= 0x8000 ==> code & 0x7fff == code - 0x8000) by (bit_vector);
        code & 0x7fff
    }

    /// Whether the mode is an ANSI or a DEC mode.
    pub fn kind(self) -> (k: ModeKind)
        ensures
            k == mode_kind(self),
    {
        let code: u16 = self.code();
        assert(code < 0x8000 ==> code & 0x8000 == 0) by (bit_vector);
        assert(code >= 0x8000 ==> code & 0x8000 == 0x8000) by (bit_vector);
        if code & ANSI_BIT > 0 {
            ModeKind::Ansi
        } else {
            ModeKind::Dec
        }
    }
}

/// A mode is determined by its code, and its number never reaches the bit that
/// marks its kind.
pub proof fn law_modes_are_told_apart(a: Mode, b: Mode)
    ensures
        mode_code(a) == mode_code(b) ==> a == b,
        mode_value(a) < ANSI_BIT,
        mode_value(a) == mode_value(b) && mode_kind(a) == mode_kind(b) ==> a == b,
{
}

/// What the engine calls back for.
#[derive(Clone, Copy, Debug, PartialEq, Eq, Structural)]
pub enum Effect {
    /// Data is to be written back to the pty.
    PtyWrite,
    /// A BEL character (0x07) was received.
    Bell,
    /// An ENQ character (0x05) was received.
    Enquiry,
    /// An XTVERSION query (CSI > q) was received.
    Xtversion,
    /// The title changed via escape sequences (e.g. OSC 0 or OSC 2).
    TitleChanged,
    /// An XTWINOPS size query (CSI 14/16/18 t) was received.
    Size,
    /// A color scheme query (CSI ? 996 n) was received.
    ColorScheme,
    /// A device attributes query (CSI c, CSI > c, or CSI = c) was received.
    DeviceAttributes,
}

/// Number of effects.
pub const EFFECT_COUNT: usize = 8;

/// The place of an effect among the callbacks.
pub open spec fn effect_index(effect: Effect) -> int {
    match effect {
        Effect::PtyWrite => 0,
        Effect::Bell => 1,
        Effect::Enquiry => 2,
        Effect::Xtversion => 3,
        Effect::TitleChanged => 4,
        Effect::Size => 5,
        Effect::ColorScheme => 6,
        Effect::DeviceAttributes => 7,
    }
}

impl Effect {
    /// The place of this effect among the callbacks.
    pub fn index(self) -> (i: usize)
        ensures
            i == effect_index(self),
            i < EFFECT_COUNT,
    {
        match self {
            Effect::PtyWrite => 0,
            Effect::Bell => 1,
            Effect::Enquiry => 2,
            Effect::Xtversion => 3,
            Effect::TitleChanged => 4,
            Effect::Size => 5,
            Effect::ColorScheme => 6,
            Effect::DeviceAttributes => 7,
        }
    }
}

/// A terminal: `T` stands for the terminal of the engine, `F` for a callback and
/// `U` for the data that all callbacks get. It keeps one callback for each
/// effect.
pub struct Terminal<T, F, U> {
    inner: T,
    userdata: Option<U>,
    callbacks: Vec<Option<F>>,
}

impl<T, F, U> Terminal<T, F, U> {
    /// The terminal of the engine.
    pub closed spec fn handle(&self) -> T {
        self.inner
    }

    /// The data that all callbacks get.
    pub closed spec fn data(&self) -> Option<U> {
        self.userdata
    }

    /// The callbacks, by the places of their effects.
    pub closed spec fn registered(&self) -> Seq<Option<F>> {
        self.callbacks@
    }

    /// There is a place for every effect.
    pub open spec fn wf(&self) -> bool {
        self.registered().len() == EFFECT_COUNT
    }

    /// The callback for an effect, if one is set.
    pub open spec fn callback_for(&self, effect: Effect) -> Option<F> {
        self.registered()[effect_index(effect)]
    }

    /// Wraps the terminal that the engine gave. No callback is set.
    pub fn new(code: ResultCode, terminal: Option<T>) -> (r: Result<Terminal<T, F, U>, Error>)
        ensures
            match crate::status::handle_when(code, terminal) {
                Err(e) => r == Err::<Terminal<T, F, U>, Error>(e),
                Ok(t) => {
                    &&& r is Ok
                    &&& r->Ok_0.handle() == t
                    &&& r->Ok_0.data() is None
                    &&& r->Ok_0.wf()
                    &&& forall|effect: Effect| (#[trigger] r->Ok_0.callback_for(effect)) is None
                },
            },
    {
        match open_handle(code, terminal) {
            Err(e) => Err(e),
            Ok(inner) => {
                let mut callbacks: Vec<Option<F>> = Vec::new();
                let mut i: usize = 0;
                while i < EFFECT_COUNT
                    invariant
                        i <= EFFECT_COUNT,
                        callbacks@.len() == i,
                        forall|k: int| 0 <= k < i ==> (#[trigger] callbacks@[k]) is None,
                    decreases EFFECT_COUNT - i,
                {
                    callbacks.push(None);
                    i = i + 1;
                }
                Ok(Terminal { inner, userdata: None, callbacks })
            },
        }
    }

    /// The terminal of the engine.
    pub fn inner(&self) -> (t: &T)
        ensures
            *t == self.handle(),
    {
        &self.inner
    }

    /// Sets the data that all callbacks get; `code` is what the engine answered
    /// when the callbacks were handed to it again.
    pub fn set_userdata(&mut self, userdata: U, code: ResultCode) -> (r: Result<(), Error>)
        ensures
            final(self).data() == Some(userdata),
            final(self).handle() == old(self).handle(),
            final(self).registered() == old(self).registered(),
            r == crate::status::value_when(code, 0, ()),
    {
        self.userdata = Some(userdata);
        from_result(code)
    }

    /// Sets the callback for an effect, or takes it away. `update` is what the
    /// engine answered when the callbacks were handed to it again, and `install`
    /// what it answered when the effect was switched on or off; where the first
    /// failed, the second call is not made.
    pub fn on(
        &mut self,
        effect: Effect,
        callback: Option<F>,
        update: ResultCode,
        install: ResultCode,
    ) -> (r: Result<(), Error>)
        requires
            old(self).wf(),
        ensures
            final(self).registered() == old(self).registered().update(
                effect_index(effect),
                callback,
            ),
            final(self).wf(),
            final(self).handle() == old(self).handle(),
            final(self).data() == old(self).data(),
            r == match crate::status::error_of(update, 0) {
                Some(e) => Err::<(), Error>(e),
                None => crate::status::value_when(install, 0, ()),
            },
    {
        let i: usize = effect.index();
        self.callbacks[i] = callback;
        if let Err(e) = from_result(update) {
            return Err(e);
        }
        from_result(install)
    }

    /// The callback for an effect, for the engine to be answered with, and the
    /// data that goes with it.
    pub fn callback(&self, effect: Effect) -> (r: (&Option<F>, &Option<U>))
        requires
            self.wf(),
        ensures
            *r.0 == self.callback_for(effect),
            *r.1 == self.data(),
    {
        (&self.callbacks[effect.index()], &self.userdata)
    }

    /// The value that a query of the terminal filled in.
    pub fn get<V>(&self, code: ResultCode, value: V) -> (r: Result<V, Error>)
        ensures
            r == crate::status::value_when(code, 0, value),
    {
        value_or_error(code, value)
    }

    /// The current Kitty keyboard protocol flags; unknown bits are kept.
    pub fn kitty_keyboard_flags(&self, code: ResultCode, bits: u8) -> (r: Result<
        KittyKeyFlags,
        Error,
    >)
        ensures
            match crate::status::error_of(code, 0) {
                Some(e) => r == Err::<KittyKeyFlags, Error>(e),
                None => r is Ok && r->Ok_0@ == bits,
            },
    {
        match from_result(code) {
            Err(e) => Err(e),
            Ok(()) => Ok(KittyKeyFlags::from_bits_retain(bits)),
        }
    }

    /// The terminal title as set by escape sequences; empty when none is set.
    pub fn title<'a>(&self, code: ResultCode, text: &'a [u8]) -> (r: Result<&'a str, Error>)
        ensures
            text_reply(code, text@, r),
    {
        borrowed_text(code, text)
    }

    /// The working directory as set by escape sequences; empty when none is set.
    pub fn pwd<'a>(&self, code: ResultCode, text: &'a [u8]) -> (r: Result<&'a str, Error>)
        ensures
            text_reply(code, text@, r),
    {
        borrowed_text(code, text)
    }
}

/// `r` is the text that the engine answered with: the bytes must be UTF-8.
pub open spec fn text_reply(code: ResultCode, bytes: Seq<u8>, r: Result<&str, Error>) -> bool {
    match crate::status::error_of(code, 0) {
        Some(e) => r == Err::<&str, Error>(e),
        None => if valid_utf8(bytes) {
            r is Ok && encode_utf8(r->Ok_0@) == bytes
        } else {
            r == Err::<&str, Error>(Error::InvalidValue)
        },
    }
}

/// Reads a text that the engine lends.
fn borrowed_text<'a>(code: ResultCode, text: &'a [u8]) -> (r: Result<&'a str, Error>)
    ensures
        text_reply(code, text@, r),
{
    match from_result(code) {
        Err(e) => Err(e),
        Ok(()) => match text_from_utf8(text) {
            Some(s) => Ok(s),
            None => Err(Error::InvalidValue),
        },
    }
}

/// What a query that wants a text is answered with: the callback's text, or an
/// empty one where there is no callback or it gives none.
pub fn text_answer<'a>(given: Option<&'a str>) -> (s: &'a str)
    ensures
        match given {
            Some(text) => s@ == text@,
            None => s@ == ""@,
        },
{
    match given {
        Some(text) => text,
        None => "",
    }
}

/// What a query that wants a value is answered with: whether there is one, which
/// is then written to `out`.
pub fn value_answer<V>(given: Option<V>, out: &mut V) -> (answered: bool)
    ensures
        answered == (given is Some),
        *final(out) == match given {
            Some(v) => v,
            None => *old(out),
        },
{
    match given {
        Some(v) => {
            *out = v;
            true
        },
        None => false,
    }
}

/// Registering a callback changes no other effect, and taking it away again
/// leaves the terminal as it was before where the effect had none.
pub proof fn law_effects_are_independent<F>(
    callbacks: Seq<Option<F>>,
    a: Effect,
    b: Effect,
    f: Option<F>,
)
    requires
        callbacks.len() == EFFECT_COUNT,
    ensures
        a != b ==> callbacks.update(effect_index(a), f)[effect_index(b)]
            == callbacks[effect_index(b)],
        callbacks.update(effect_index(a), f)[effect_index(a)] == f,
        callbacks[effect_index(a)] is None ==> callbacks.update(effect_index(a), f).update(
            effect_index(a),
            None,
        ) == callbacks,
{
    assert(callbacks[effect_index(a)] is None ==> callbacks.update(effect_index(a), f).update(
        effect_index(a),
        None,
    ) =~= callbacks);
}

/// A request to scroll carries the tag of its own way, and the rows go along with
/// their tag unchanged.
pub proof fn law_scroll_requests_keep_their_way(way: ScrollViewport, c: ScrollCommand)
    requires
        call_ensures(ScrollViewport::command, (way,), c),
    ensures
        c.tag == ScrollTag::Top <==> way == ScrollViewport::Top,
        c.tag == ScrollTag::Bottom <==> way == ScrollViewport::Bottom,
        c.tag == ScrollTag::Delta <==> way is Delta,
        way matches ScrollViewport::Delta(rows) ==> c.delta == rows,
{
}

/// A mode's code is its number with the highest bit for the ANSI modes.
pub proof fn law_codes_join_number_and_kind(mode: Mode, code: u16, value: u16, kind: ModeKind)
    requires
        call_ensures(Mode::code, (mode,), code),
        call_ensures(Mode::value, (mode,), value),
        call_ensures(Mode::kind, (mode,), kind),
    ensures
        code == value + (if kind == ModeKind::Ansi {
            0x8000int
        } else {
            0
        }),
        value < 0x8000,
{
}

/// The modes by their numbers.
pub proof fn law_modes_are_found_by_their_numbers(mode: Mode, value: u16, kind: ModeKind)
    requires
        call_ensures(Mode::value, (mode,), value),
        call_ensures(Mode::kind, (mode,), kind),
    ensures
        kind == ModeKind::Ansi && value == 2 <==> mode == Mode::Kam,
        kind == ModeKind::Ansi && value == 4 <==> mode == Mode::Insert,
        kind == ModeKind::Ansi && value == 12 <==> mode == Mode::Srm,
        kind == ModeKind::Ansi && value == 20 <==> mode == Mode::Linefeed,
        kind == ModeKind::Dec && value == 1 <==> mode == Mode::Decckm,
        kind == ModeKind::Dec && value == 3 <==> mode == Mode::_132Column,
        kind == ModeKind::Dec && value == 4 <==> mode == Mode::SlowScroll,
        kind == ModeKind::Dec && value == 5 <==> mode == Mode::ReverseColors,
        kind == ModeKind::Dec && value == 6 <==> mode == Mode::Origin,
        kind == ModeKind::Dec && value == 7 <==> mode == Mode::Wraparound,
        kind == ModeKind::Dec && value == 8 <==> mode == Mode::Autorepeat,
        kind == ModeKind::Dec && value == 9 <==> mode == Mode::X10Mouse,
        kind == ModeKind::Dec && value == 12 <==> mode == Mode::CursorBlinking,
        kind == ModeKind::Dec && value == 25 <==> mode == Mode::CursorVisible,
        kind == ModeKind::Dec && value == 40 <==> mode == Mode::EnableMode3,
        kind == ModeKind::Dec && value == 45 <==> mode == Mode::ReverseWrap,
        kind == ModeKind::Dec && value == 47 <==> mode == Mode::AltScreenLegacy,
        kind == ModeKind::Dec && value == 66 <==> mode == Mode::KeypadKeys,
        kind == ModeKind::Dec && value == 69 <==> mode == Mode::LeftRightMargin,
        kind == ModeKind::Dec && value == 1000 <==> mode == Mode::NormalMouse,
        kind == ModeKind::Dec && value == 1002 <==> mode == Mode::ButtonMouse,
        kind == ModeKind::Dec && value == 1003 <==> mode == Mode::AnyMouse,
        kind == ModeKind::Dec && value == 1004 <==> mode == Mode::FocusEvent,
        kind == ModeKind::Dec && value == 1005 <==> mode == Mode::Utf8Mouse,
        kind == ModeKind::Dec && value == 1006 <==> mode == Mode::SgrMouse,
        kind == ModeKind::Dec && value == 1007 <==> mode == Mode::AltScroll,
        kind == ModeKind::Dec && value == 1015 <==> mode == Mode::UrxvtMouse,
        kind == ModeKind::Dec && value == 1016 <==> mode == Mode::SgrPixelsMouse,
        kind == ModeKind::Dec && value == 1035 <==> mode == Mode::NumlockKeypad,
        kind == ModeKind::Dec && value == 1036 <==> mode == Mode::AltEscPrefix,
        kind == ModeKind::Dec && value == 1039 <==> mode == Mode::AltSendsEsc,
        kind == ModeKind::Dec && value == 1045 <==> mode == Mode::ReverseWrapExt,
        kind == ModeKind::Dec && value == 1047 <==> mode == Mode::AltScreen,
        kind == ModeKind::Dec && value == 1048 <==> mode == Mode::SaveCursor,
        kind == ModeKind::Dec && value == 1049 <==> mode == Mode::AltScreenSave,
        kind == ModeKind::Dec && value == 2004 <==> mode == Mode::BracketedPaste,
        kind == ModeKind::Dec && value == 2026 <==> mode == Mode::SyncOutput,
        kind == ModeKind::Dec && value == 2027 <==> mode == Mode::GraphemeCluster,
        kind == ModeKind::Dec && value == 2031 <==> mode == Mode::ColorSchemeReport,
        kind == ModeKind::Dec && value == 2048 <==> mode == Mode::InBandResize,
{
}

/// A new terminal has no callback for any effect and no data.
pub proof fn law_new_terminals_have_no_callbacks<T, F, U>(
    code: ResultCode,
    terminal: Option<T>,
    told: Result<T, Error>,
    r: Result<Terminal<T, F, U>, Error>,
)
    requires
        call_ensures(Terminal::<T, F, U>::new, (code, terminal), r),
        call_ensures(open_handle::<T>, (code, terminal), told),
    ensures
        r is Ok <==> told is Ok,
        r matches Err(e) ==> told == Err::<T, Error>(e),
        r matches Ok(t) ==> {
            &&& told == Ok::<T, Error>(t.handle())
            &&& t.wf()
            &&& forall|effect: Effect, c: (&Option<F>, &Option<U>)| #[trigger]
                call_ensures(Terminal::<T, F, U>::callback, (&t, effect), c) ==> *c.0 is None
                    && *c.1 is None
        },
{
}

/// The callback that was set for an effect is the one that the engine is answered
/// with, and those of all other effects stay, as do the data. Setting it succeeds
/// exactly where both calls of the engine did, and otherwise fails with the first
/// error.
pub proof fn law_callbacks_answer_for_their_effect<T, F, U>(
    t: &mut Terminal<T, F, U>,
    effect: Effect,
    callback: Option<F>,
    update: ResultCode,
    install: ResultCode,
    updated: Result<(), Error>,
    installed: Result<(), Error>,
    r: Result<(), Error>,
    other: Effect,
    before: (&Option<F>, &Option<U>),
    after: (&Option<F>, &Option<U>),
)
    requires
        old(t).wf(),
        call_ensures(Terminal::<T, F, U>::on, (t, effect, callback, update, install), r),
        call_ensures(from_result, (update,), updated),
        call_ensures(from_result, (install,), installed),
        call_ensures(Terminal::<T, F, U>::callback, (&*old(t), other), before),
        call_ensures(Terminal::<T, F, U>::callback, (&*final(t), other), after),
    ensures
        other == effect ==> *after.0 == callback,
        other != effect ==> *after.0 == *before.0,
        *after.1 == *before.1,
        final(t).handle() == old(t).handle(),
        r == (match updated {
            Err(e) => Err::<(), Error>(e),
            Ok(()) => installed,
        }),
{
}

/// Every effect has a place of its own among the callbacks.
pub proof fn law_effects_have_places_of_their_own(a: Effect, b: Effect, i: usize, j: usize)
    requires
        call_ensures(Effect::index, (a,), i),
        call_ensures(Effect::index, (b,), j),
    ensures
        i == j <==> a == b,
        i < 8,
{
}

/// Data that was set goes along with every callback, and the callbacks stay.
pub proof fn law_data_goes_along_with_callbacks<T, F, U>(
    t: &mut Terminal<T, F, U>,
    userdata: U,
    code: ResultCode,
    told: Result<(), Error>,
    r: Result<(), Error>,
    effect: Effect,
    before: (&Option<F>, &Option<U>),
    after: (&Option<F>, &Option<U>),
)
    requires
        old(t).wf(),
        call_ensures(Terminal::<T, F, U>::set_userdata, (t, userdata, code), r),
        call_ensures(from_result, (code,), told),
        call_ensures(Terminal::<T, F, U>::callback, (&*old(t), effect), before),
        call_ensures(Terminal::<T, F, U>::callback, (&*final(t), effect), after),
    ensures
        *after.0 == *before.0,
        *after.1 == Some(userdata),
        final(t).handle() == old(t).handle(),
        r == told,
{
}

/// A query gives the value that the engine filled in, exactly where the engine
/// reports success; flags keep every bit.
pub proof fn law_queries_give_the_engines_values<T, F, U, V>(
    t: &Terminal<T, F, U>,
    code: ResultCode,
    value: V,
    bits: u8,
    told: Result<(), Error>,
    r: Result<V, Error>,
    s: Result<KittyKeyFlags, Error>,
)
    requires
        call_ensures(Terminal::<T, F, U>::get::<V>, (t, code, value), r),
        call_ensures(Terminal::<T, F, U>::kitty_keyboard_flags, (t, code, bits), s),
        call_ensures(from_result, (code,), told),
    ensures
        r is Ok <==> code == ResultCode::Success,
        s is Ok <==> code == ResultCode::Success,
        r matches Ok(v) ==> v == value,
        s matches Ok(f) ==> f@ == bits,
        r matches Err(e) ==> told == Err::<(), Error>(e),
        s matches Err(e) ==> told == Err::<(), Error>(e),
{
}

/// A title or a directory comes out exactly where the engine reports success and
/// lent valid UTF-8, and it is the text of those bytes; bytes that are not valid
/// are an invalid value.
pub proof fn law_lent_texts_are_read<'a, T, F, U>(
    t: &Terminal<T, F, U>,
    code: ResultCode,
    text: &'a [u8],
    told: Result<(), Error>,
    r: Result<&'a str, Error>,
    s: Result<&'a str, Error>,
)
    requires
        call_ensures(Terminal::<T, F, U>::title, (t, code, text), r),
        call_ensures(Terminal::<T, F, U>::pwd, (t, code, text), s),
        call_ensures(from_result, (code,), told),
    ensures
        r is Ok <==> code == ResultCode::Success && valid_utf8(text@),
        s is Ok <==> code == ResultCode::Success && valid_utf8(text@),
        r matches Ok(title) ==> title@ == decode_utf8(text@),
        s matches Ok(dir) ==> dir@ == decode_utf8(text@),
        r matches Err(e) ==> e == (match told {
            Err(t) => t,
            Ok(()) => Error::InvalidValue,
        }),
        s matches Err(e) ==> e == (match told {
            Err(t) => t,
            Ok(()) => Error::InvalidValue,
        }),
{
    if let Ok(title) = r {
        encode_utf8_decode_utf8(title@);
    }
    if let Ok(dir) = s {
        encode_utf8_decode_utf8(dir@);
    }
}

/// A query for a text is answered with the callback's, or with an empty one; a
/// query for a value with the callback's, or not at all, and then nothing is
/// written.
pub proof fn law_queries_are_answered_by_callbacks<'a, V>(
    text: Option<&'a str>,
    s: &'a str,
    given: Option<V>,
    out: &mut V,
    answered: bool,
)
    requires
        call_ensures(text_answer, (text,), s),
        call_ensures(value_answer::<V>, (given, out), answered),
    ensures
        text matches Some(t) ==> s@ == t@,
        text is None ==> s@.len() == 0,
        answered <==> given is Some,
        given matches Some(v) ==> *final(out) == v,
        given is None ==> *final(out) == *old(out),
{
    reveal_strlit("");
}

} // verus!
