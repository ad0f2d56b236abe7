//! Keys, modifiers, key events and the settings of a key encoder.
use vstd::prelude::*;

use crate::status::{from_result_with_len, open_handle, Error, ResultCode};

verus! {

/// A physical key.
#[derive(Clone, Copy, Debug, PartialEq, Eq, Hash, Structural)]
pub enum Key {
    A,
    B,
    C,
    D,
    E,
    F,
    G,
    H,
    I,
    J,
    K,
    L,
    M,
    N,
    O,
    P,
    Q,
    R,
    S,
    T,
    U,
    V,
    W,
    X,
    Y,
    Z,
    Digit0,
    Digit1,
    Digit2,
    Digit3,
    Digit4,
    Digit5,
    Digit6,
    Digit7,
    Digit8,
    Digit9,
    Space,
    Enter,
    Tab,
    Backspace,
    Delete,
    Escape,
    ArrowUp,
    ArrowDown,
    ArrowLeft,
    ArrowRight,
    Home,
    End,
    PageUp,
    PageDown,
    Insert,
    Minus,
    Equal,
    BracketLeft,
    BracketRight,
    Backslash,
    Semicolon,
    Quote,
    Comma,
    Period,
    Slash,
    Backquote,
    F1,
    F2,
    F3,
    F4,
    F5,
    F6,
    F7,
    F8,
    F9,
    F10,
    F11,
    F12,
}

/// The character that a key produces without modifiers on a US layout, or NUL
/// for keys that have none (arrows, function keys and the like).
pub open spec fn unshifted(key: Key) -> char {
    match key {
        Key::A => 'a',
        Key::B => 'b',
        Key::C => 'c',
        Key::D => 'd',
        Key::E => 'e',
        Key::F => 'f',
        Key::G => 'g',
        Key::H => 'h',
        Key::I => 'i',
        Key::J => 'j',
        Key::K => 'k',
        Key::L => 'l',
        Key::M => 'm',
        Key::N => 'n',
        Key::O => 'o',
        Key::P => 'p',
        Key::Q => 'q',
        Key::R => 'r',
        Key::S => 's',
        Key::T => 't',
        Key::U => 'u',
        Key::V => 'v',
        Key::W => 'w',
        Key::X => 'x',
        Key::Y => 'y',
        Key::Z => 'z',
        Key::Digit0 => '0',
        Key::Digit1 => '1',
        Key::Digit2 => '2',
        Key::Digit3 => '3',
        Key::Digit4 => '4',
        Key::Digit5 => '5',
        Key::Digit6 => '6',
        Key::Digit7 => '7',
        Key::Digit8 => '8',
        Key::Digit9 => '9',
        Key::Space => ' ',
        Key::Minus => '-',
        Key::Equal => '=',
        Key::BracketLeft => '[',
        Key::BracketRight => ']',
        Key::Backslash => '\\',
        Key::Semicolon => ';',
        Key::Quote => '\'',
        Key::Comma => ',',
        Key::Period => '.',
        Key::Slash => '/',
        Key::Backquote => '`',
        _ => '\0',
    }
}

/// The place of a key in the order in which keys are polled.
pub open spec fn poll_order(key: Key) -> int {
    match key {
        Key::A => 0,
        Key::B => 1,
        Key::C => 2,
        Key::D => 3,
        Key::E => 4,
        Key::F => 5,
        Key::G => 6,
        Key::H => 7,
        Key::I => 8,
        Key::J => 9,
        Key::K => 10,
        Key::L => 11,
        Key::M => 12,
        Key::N => 13,
        Key::O => 14,
        Key::P => 15,
        Key::Q => 16,
        Key::R => 17,
        Key::S => 18,
        Key::T => 19,
        Key::U => 20,
        Key::V => 21,
        Key::W => 22,
        Key::X => 23,
        Key::Y => 24,
        Key::Z => 25,
        Key::Digit0 => 26,
        Key::Digit1 => 27,
        Key::Digit2 => 28,
        Key::Digit3 => 29,
        Key::Digit4 => 30,
        Key::Digit5 => 31,
        Key::Digit6 => 32,
        Key::Digit7 => 33,
        Key::Digit8 => 34,
        Key::Digit9 => 35,
        Key::Space => 36,
        Key::Enter => 37,
        Key::Tab => 38,
        Key::Backspace => 39,
        Key::Delete => 40,
        Key::Escape => 41,
        Key::ArrowUp => 42,
        Key::ArrowDown => 43,
        Key::ArrowLeft => 44,
        Key::ArrowRight => 45,
        Key::Home => 46,
        Key::End => 47,
        Key::PageUp => 48,
        Key::PageDown => 49,
        Key::Insert => 50,
        Key::Minus => 51,
        Key::Equal => 52,
        Key::BracketLeft => 53,
        Key::BracketRight => 54,
        Key::Backslash => 55,
        Key::Semicolon => 56,
        Key::Quote => 57,
        Key::Comma => 58,
        Key::Period => 59,
        Key::Slash => 60,
        Key::Backquote => 61,
        Key::F1 => 62,
        Key::F2 => 63,
        Key::F3 => 64,
        Key::F4 => 65,
        Key::F5 => 66,
        Key::F6 => 67,
        Key::F7 => 68,
        Key::F8 => 69,
        Key::F9 => 70,
        Key::F10 => 71,
        Key::F11 => 72,
        Key::F12 => 73,
    }
}

impl Key {
    /// The character that this key produces without modifiers on a US layout, or
    /// NUL. The Kitty keyboard protocol identifies keys by it.
    pub fn unshifted_codepoint(self) -> (c: char)
        ensures
            c == unshifted(self),
    {
        match self {
            Key::A => 'a',
            Key::B => 'b',
            Key::C => 'c',
            Key::D => 'd',
            Key::E => 'e',
            Key::F => 'f',
            Key::G => 'g',
            Key::H => 'h',
            Key::I => 'i',
            Key::J => 'j',
            Key::K => 'k',
            Key::L => 'l',
            Key::M => 'm',
            Key::N => 'n',
            Key::O => 'o',
            Key::P => 'p',
            Key::Q => 'q',
            Key::R => 'r',
            Key::S => 's',
            Key::T => 't',
            Key::U => 'u',
            Key::V => 'v',
            Key::W => 'w',
            Key::X => 'x',
            Key::Y => 'y',
            Key::Z => 'z',
            Key::Digit0 => '0',
            Key::Digit1 => '1',
            Key::Digit2 => '2',
            Key::Digit3 => '3',
            Key::Digit4 => '4',
            Key::Digit5 => '5',
            Key::Digit6 => '6',
            Key::Digit7 => '7',
            Key::Digit8 => '8',
            Key::Digit9 => '9',
            Key::Space => ' ',
            Key::Minus => '-',
            Key::Equal => '=',
            Key::BracketLeft => '[',
            Key::BracketRight => ']',
            Key::Backslash => '\\',
            Key::Semicolon => ';',
            Key::Quote => '\'',
            Key::Comma => ',',
            Key::Period => '.',
            Key::Slash => '/',
            Key::Backquote => '`',
            _ => '\0',
        }
    }
}

/// Number of keys that are polled.
pub const KEY_COUNT: usize = 74;

/// Every key that is polled for events, in order.
pub fn all_keys() -> (keys: [Key; 74])
    ensures
        forall|k: Key| 0 <= #[trigger] poll_order(k) < KEY_COUNT && keys@[poll_order(k)] == k,
        forall|i: int| 0 <= i < KEY_COUNT ==> poll_order(#[trigger] keys@[i]) == i,
{
    [
        Key::A,
        Key::B,
        Key::C,
        Key::D,
        Key::E,
        Key::F,
        Key::G,
        Key::H,
        Key::I,
        Key::J,
        Key::K,
        Key::L,
        Key::M,
        Key::N,
        Key::O,
        Key::P,
        Key::Q,
        Key::R,
        Key::S,
        Key::T,
        Key::U,
        Key::V,
        Key::W,
        Key::X,
        Key::Y,
        Key::Z,
        Key::Digit0,
        Key::Digit1,
        Key::Digit2,
        Key::Digit3,
        Key::Digit4,
        Key::Digit5,
        Key::Digit6,
        Key::Digit7,
        Key::Digit8,
        Key::Digit9,
        Key::Space,
        Key::Enter,
        Key::Tab,
        Key::Backspace,
        Key::Delete,
        Key::Escape,
        Key::ArrowUp,
        Key::ArrowDown,
        Key::ArrowLeft,
        Key::ArrowRight,
        Key::Home,
        Key::End,
        Key::PageUp,
        Key::PageDown,
        Key::Insert,
        Key::Minus,
        Key::Equal,
        Key::BracketLeft,
        Key::BracketRight,
        Key::Backslash,
        Key::Semicolon,
        Key::Quote,
        Key::Comma,
        Key::Period,
        Key::Slash,
        Key::Backquote,
        Key::F1,
        Key::F2,
        Key::F3,
        Key::F4,
        Key::F5,
        Key::F6,
        Key::F7,
        Key::F8,
        Key::F9,
        Key::F10,
        Key::F11,
        Key::F12,
    ]
}

/// No two keys share a place in the polling order.
pub proof fn law_keys_are_polled_once(a: Key, b: Key)
    ensures
        poll_order(a) == poll_order(b) ==> a == b,
        0 <= poll_order(a) < KEY_COUNT,
{
}

/// Keys that produce a character produce different ones.
pub proof fn law_unshifted_characters_are_distinct(a: Key, b: Key)
    ensures
        unshifted(a) == unshifted(b) && unshifted(a) != '\0' ==> a == b,
{
}

/// What happened to a key.
#[derive(Clone, Copy, Debug, PartialEq, Eq, Structural)]
pub enum Action {
    /// The key was released.
    Release,
    /// The key was pressed.
    Press,
    /// The key is held and repeats.
    Repeat,
}

/// Which modifiers are pressed and, where the platform can tell, on which side.
///
/// A side is only meaningful while its modifier is pressed; unset means left.
#[derive(Clone, Copy, Debug, PartialEq, Eq, Structural)]
pub struct Mods {
    /// Shift key is pressed.
    pub shift: bool,
    /// Alt key is pressed.
    pub alt: bool,
    /// Control key is pressed.
    pub ctrl: bool,
    /// Super/Command/Windows key is pressed.
    pub super_key: bool,
    /// Caps Lock is active.
    pub caps_lock: bool,
    /// Num Lock is active.
    pub num_lock: bool,
    /// Right Shift is pressed.
    pub shift_side: bool,
    /// Right Alt is pressed.
    pub alt_side: bool,
    /// Right Control is pressed.
    pub ctrl_side: bool,
    /// Right Super is pressed.
    pub super_side: bool,
}

impl Mods {
    /// No modifier.
    pub open spec fn spec_empty() -> Mods {
        Mods {
            shift: false,
            alt: false,
            ctrl: false,
            super_key: false,
            caps_lock: false,
            num_lock: false,
            shift_side: false,
            alt_side: false,
            ctrl_side: false,
            super_side: false,
        }
    }

    /// What is set in either.
    pub open spec fn spec_union(self, other: Mods) -> Mods {
        Mods {
            shift: self.shift || other.shift,
            alt: self.alt || other.alt,
            ctrl: self.ctrl || other.ctrl,
            super_key: self.super_key || other.super_key,
            caps_lock: self.caps_lock || other.caps_lock,
            num_lock: self.num_lock || other.num_lock,
            shift_side: self.shift_side || other.shift_side,
            alt_side: self.alt_side || other.alt_side,
            ctrl_side: self.ctrl_side || other.ctrl_side,
            super_side: self.super_side || other.super_side,
        }
    }

    /// Everything that is set in `other` is set here.
    pub open spec fn spec_contains(self, other: Mods) -> bool {
        self.spec_union(other) == self
    }

    /// No modifier.
    pub fn empty() -> (m: Mods)
        ensures
            m == Mods::spec_empty(),
    {
        Mods {
            shift: false,
            alt: false,
            ctrl: false,
            super_key: false,
            caps_lock: false,
            num_lock: false,
            shift_side: false,
            alt_side: false,
            ctrl_side: false,
            super_side: false,
        }
    }

    /// What is set in either.
    pub fn union(self, other: Mods) -> (m: Mods)
        ensures
            m == self.spec_union(other),
    {
        Mods {
            shift: self.shift || other.shift,
            alt: self.alt || other.alt,
            ctrl: self.ctrl || other.ctrl,
            super_key: self.super_key || other.super_key,
            caps_lock: self.caps_lock || other.caps_lock,
            num_lock: self.num_lock || other.num_lock,
            shift_side: self.shift_side || other.shift_side,
            alt_side: self.alt_side || other.alt_side,
            ctrl_side: self.ctrl_side || other.ctrl_side,
            super_side: self.super_side || other.super_side,
        }
    }

    /// Whether everything that is set in `other` is set here.
    pub fn contains(self, other: Mods) -> (b: bool)
        ensures
            b == self.spec_contains(other),
    {
        self.union(other) == self
    }
}

/// Modifiers combine as sets do: the order and repetition do not matter, and
/// what is combined is contained.
pub proof fn law_mods_combine_as_sets(a: Mods, b: Mods, c: Mods)
    ensures
        a.spec_union(b) == b.spec_union(a),
        a.spec_union(b).spec_union(c) == a.spec_union(b.spec_union(c)),
        a.spec_union(a) == a,
        a.spec_union(Mods::spec_empty()) == a,
        a.spec_union(b).spec_contains(a),
        a.spec_contains(b) && b.spec_contains(a) ==> a == b,
{
}

/// Which of the keys that act as modifiers are held down.
#[derive(Clone, Copy, Debug, PartialEq, Eq, Structural)]
pub struct HeldKeys {
    pub left_shift: bool,
    pub right_shift: bool,
    pub left_control: bool,
    pub right_control: bool,
    pub left_alt: bool,
    pub right_alt: bool,
    pub left_super: bool,
    pub right_super: bool,
}

/// The modifiers that the held keys amount to. Sides are not told apart.
pub fn held_mods(held: HeldKeys) -> (m: Mods)
    ensures
        m == (Mods {
            shift: held.left_shift || held.right_shift,
            ctrl: held.left_control || held.right_control,
            alt: held.left_alt || held.right_alt,
            super_key: held.left_super || held.right_super,
            ..Mods::spec_empty()
        }),
{
    let mut mods: Mods = Mods::empty();
    if held.left_shift || held.right_shift {
        mods.shift = true;
    }
    if held.left_control || held.right_control {
        mods.ctrl = true;
    }
    if held.left_alt || held.right_alt {
        mods.alt = true;
    }
    if held.left_super || held.right_super {
        mods.super_key = true;
    }
    mods
}

/// Kitty keyboard protocol flags, as the bits that the engine uses for them.
#[derive(Clone, Copy, Debug, PartialEq, Eq, Structural)]
pub struct KittyKeyFlags {
    raw: u8,
}

impl View for KittyKeyFlags {
    type V = u8;

    closed spec fn view(&self) -> u8 {
        self.raw
    }
}

impl KittyKeyFlags {
    /// The flags with the given bits; bits without a name are kept.
    pub fn from_bits_retain(bits: u8) -> (f: KittyKeyFlags)
        ensures
            f@ == bits,
    {
        KittyKeyFlags { raw: bits }
    }

    /// The bits of these flags.
    pub fn bits(self) -> (b: u8)
        ensures
            b == self@,
    {
        self.raw
    }

    /// The flags that are set in either.
    pub fn union(self, other: KittyKeyFlags) -> (f: KittyKeyFlags)
        ensures
            f@ == self@ | other@,
    {
        KittyKeyFlags { raw: self.raw | other.raw }
    }

    /// Whether every flag of `other` is set here.
    pub fn contains(self, other: KittyKeyFlags) -> (b: bool)
        ensures
            b == (self@ & other@ == other@),
    {
        self.raw & other.raw == other.raw
    }
}

/// macOS option key behavior: whether the "option" key is treated as "alt".
#[derive(Clone, Copy, Debug, PartialEq, Eq, Structural)]
pub enum OptionAsAlt {
    /// Option key is not treated as alt.
    False,
    /// Option key is treated as alt.
    True,
    /// Only left option key is treated as alt.
    Left,
    /// Only right option key is treated as alt.
    Right,
}

/// A keyboard event: the physical key, the modifiers, and the generated text.
pub struct Event {
    key: Key,
    action: Action,
    mods: Mods,
    consumed_mods: Mods,
    composing: bool,
    utf8: Option<Vec<u8>>,
    unshifted_codepoint: u32,
}

/// The content of an [`Event`].
#[verifier::ext_equal]
pub struct EventView {
    pub key: Key,
    pub action: Action,
    pub mods: Mods,
    pub consumed_mods: Mods,
    pub composing: bool,
    pub utf8: Option<Seq<u8>>,
    pub unshifted_codepoint: u32,
}

impl View for Event {
    type V = EventView;

    closed spec fn view(&self) -> EventView {
        EventView {
            key: self.key,
            action: self.action,
            mods: self.mods,
            consumed_mods: self.consumed_mods,
            composing: self.composing,
            utf8: match self.utf8 {
                Some(bytes) => Some(bytes@),
                None => None,
            },
            unshifted_codepoint: self.unshifted_codepoint,
        }
    }
}

impl Event {
    /// An event for `key`, without modifiers and text.
    pub fn new(key: Key, action: Action) -> (e: Event)
        ensures
            e@ == (EventView {
                key,
                action,
                mods: Mods::spec_empty(),
                consumed_mods: Mods::spec_empty(),
                composing: false,
                utf8: None,
                unshifted_codepoint: 0,
            }),
    {
        Event {
            key,
            action,
            mods: Mods::empty(),
            consumed_mods: Mods::empty(),
            composing: false,
            utf8: None,
            unshifted_codepoint: 0,
        }
    }

    /// Sets what happened to the key.
    pub fn set_action(&mut self, action: Action)
        ensures
            final(self)@ == (EventView { action, ..old(self)@ }),
    {
        self.action = action;
    }

    /// What happened to the key.
    pub fn get_action(&self) -> (a: Action)
        ensures
            a == self@.action,
    {
        self.action
    }

    /// Sets the physical key.
    pub fn set_key(&mut self, key: Key)
        ensures
            final(self)@ == (EventView { key, ..old(self)@ }),
    {
        self.key = key;
    }

    /// The physical key.
    pub fn get_key(&self) -> (k: Key)
        ensures
            k == self@.key,
    {
        self.key
    }

    /// Sets the modifiers.
    pub fn set_mods(&mut self, mods: Mods)
        ensures
            final(self)@ == (EventView { mods, ..old(self)@ }),
    {
        self.mods = mods;
    }

    /// The modifiers.
    pub fn get_mods(&self) -> (m: Mods)
        ensures
            m == self@.mods,
    {
        self.mods
    }

    /// Sets the modifiers that went into producing the text.
    pub fn set_consumed_mods(&mut self, mods: Mods)
        ensures
            final(self)@ == (EventView { consumed_mods: mods, ..old(self)@ }),
    {
        self.consumed_mods = mods;
    }

    /// The modifiers that went into producing the text.
    pub fn get_consumed_mods(&self) -> (m: Mods)
        ensures
            m == self@.consumed_mods,
    {
        self.consumed_mods
    }

    /// Sets whether the event is part of a composition.
    pub fn set_composing(&mut self, composing: bool)
        ensures
            final(self)@ == (EventView { composing, ..old(self)@ }),
    {
        self.composing = composing;
    }

    /// Whether the event is part of a composition.
    pub fn get_composing(&self) -> (b: bool)
        ensures
            b == self@.composing,
    {
        self.composing
    }

    /// Sets the generated text, as UTF-8, or takes it away.
    pub fn set_utf8(&mut self, text: Option<Vec<u8>>)
        ensures
            final(self)@ == (EventView {
                utf8: match text {
                    Some(bytes) => Some(bytes@),
                    None => None,
                },
                ..old(self)@
            }),
    {
        self.utf8 = text;
    }

    /// The generated text.
    pub fn utf8(&self) -> (t: &Option<Vec<u8>>)
        ensures
            match t {
                Some(bytes) => self@.utf8 == Some(bytes@),
                None => self@.utf8 is None,
            },
    {
        &self.utf8
    }

    /// Sets the character that the key produces without modifiers.
    pub fn set_unshifted_codepoint(&mut self, codepoint: u32)
        ensures
            final(self)@ == (EventView { unshifted_codepoint: codepoint, ..old(self)@ }),
    {
        self.unshifted_codepoint = codepoint;
    }

    /// The character that the key produces without modifiers.
    pub fn get_unshifted_codepoint(&self) -> (c: u32)
        ensures
            c == self@.unshifted_codepoint,
    {
        self.unshifted_codepoint
    }
}

/// The settings of a key encoder; the engine's default stands for what is `None`.
#[derive(Clone, Copy, Debug, PartialEq, Eq)]
pub struct EncoderOptions {
    /// Terminal DEC mode 1: cursor key application mode.
    pub cursor_key_application: Option<bool>,
    /// Terminal DEC mode 66: keypad key application mode.
    pub keypad_key_application: Option<bool>,
    /// Terminal DEC mode 1035: ignore keypad with numlock.
    pub ignore_keypad_with_numlock: Option<bool>,
    /// Terminal DEC mode 1036: alt sends escape prefix.
    pub alt_esc_prefix: Option<bool>,
    /// xterm modifyOtherKeys mode 2.
    pub modify_other_keys_state_2: Option<bool>,
    /// Kitty keyboard protocol flags.
    pub kitty_flags: Option<KittyKeyFlags>,
    /// macOS option-as-alt setting.
    pub macos_option_as_alt: Option<OptionAsAlt>,
}

/// The part of a terminal's state that key encoding depends on.
#[derive(Clone, Copy, Debug, PartialEq, Eq)]
pub struct TerminalKeyState {
    pub cursor_key_application: bool,
    pub keypad_key_application: bool,
    pub alt_esc_prefix: bool,
    pub modify_other_keys_state_2: bool,
    pub kitty_flags: KittyKeyFlags,
}

/// Key encoder that converts key events into terminal escape sequences; `H`
/// stands for the encoder of the engine, which does the converting.
pub struct Encoder<H> {
    inner: H,
    options: EncoderOptions,
}

impl<H> Encoder<H> {
    /// The encoder of the engine.
    pub closed spec fn handle(&self) -> H {
        self.inner
    }

    /// The settings made so far.
    pub closed spec fn settings(&self) -> EncoderOptions {
        self.options
    }

    /// Wraps the encoder that the engine gave.
    pub fn new(code: ResultCode, encoder: Option<H>) -> (r: Result<Encoder<H>, Error>)
        ensures
            match crate::status::handle_when(code, encoder) {
                Err(e) => r == Err::<Encoder<H>, Error>(e),
                Ok(h) => r is Ok && r->Ok_0.handle() == h && r->Ok_0.settings() == (EncoderOptions {
                    cursor_key_application: None,
                    keypad_key_application: None,
                    ignore_keypad_with_numlock: None,
                    alt_esc_prefix: None,
                    modify_other_keys_state_2: None,
                    kitty_flags: None,
                    macos_option_as_alt: None,
                }),
            },
    {
        match open_handle(code, encoder) {
            Err(e) => Err(e),
            Ok(inner) => Ok(
                Encoder {
                    inner,
                    options: EncoderOptions {
                        cursor_key_application: None,
                        keypad_key_application: None,
                        ignore_keypad_with_numlock: None,
                        alt_esc_prefix: None,
                        modify_other_keys_state_2: None,
                        kitty_flags: None,
                        macos_option_as_alt: None,
                    },
                },
            ),
        }
    }

    /// This is what encoding an event leads to: `after` is the encoder afterwards.
    pub open spec fn encodes(
        self,
        code: ResultCode,
        written: usize,
        after: Self,
        r: Result<usize, Error>,
    ) -> bool {
        &&& after == self
        &&& r == crate::status::value_when(code, written, written)
    }

    /// The encoder of the engine and the settings to hand to it.
    pub fn parts(&self) -> (r: (&H, EncoderOptions))
        ensures
            *r.0 == self.handle(),
            r.1 == self.settings(),
    {
        (&self.inner, self.options)
    }

    /// The end of encoding an event into a buffer: the number of bytes written,
    /// which is zero for events that produce nothing, or the number required
    /// where the buffer is too small.
    pub fn encode(&mut self, code: ResultCode, written: usize) -> (r: Result<usize, Error>)
        ensures
            old(self).encodes(code, written, *final(self), r),
    {
        from_result_with_len(code, written)
    }

    /// Takes the settings over from a terminal's current state. The
    /// option-as-alt setting cannot be told from it and is reset to
    /// [`OptionAsAlt::False`].
    pub fn with_options_from_terminal(self, terminal: TerminalKeyState) -> (e: Self)
        ensures
            e.handle() == self.handle(),
            e.settings() == (EncoderOptions {
                cursor_key_application: Some(terminal.cursor_key_application),
                keypad_key_application: Some(terminal.keypad_key_application),
                ignore_keypad_with_numlock: self.settings().ignore_keypad_with_numlock,
                alt_esc_prefix: Some(terminal.alt_esc_prefix),
                modify_other_keys_state_2: Some(terminal.modify_other_keys_state_2),
                kitty_flags: Some(terminal.kitty_flags),
                macos_option_as_alt: Some(OptionAsAlt::False),
            }),
    {
        Encoder {
            inner: self.inner,
            options: EncoderOptions {
                cursor_key_application: Some(terminal.cursor_key_application),
                keypad_key_application: Some(terminal.keypad_key_application),
                ignore_keypad_with_numlock: self.options.ignore_keypad_with_numlock,
                alt_esc_prefix: Some(terminal.alt_esc_prefix),
                modify_other_keys_state_2: Some(terminal.modify_other_keys_state_2),
                kitty_flags: Some(terminal.kitty_flags),
                macos_option_as_alt: Some(OptionAsAlt::False),
            },
        }
    }

    /// Set terminal DEC mode 1: cursor key application mode.
    pub fn with_cursor_key_application(self, value: bool) -> (e: Self)
        ensures
            e.handle() == self.handle(),
            e.settings() == (EncoderOptions { cursor_key_application: Some(value), ..self.settings() }),
    {
        Encoder {
            inner: self.inner,
            options: EncoderOptions { cursor_key_application: Some(value), ..self.options },
        }
    }

    /// Set terminal DEC mode 66: keypad key application mode.
    pub fn with_keypad_key_application(self, value: bool) -> (e: Self)
        ensures
            e.handle() == self.handle(),
            e.settings() == (EncoderOptions { keypad_key_application: Some(value), ..self.settings() }),
    {
        Encoder {
            inner: self.inner,
            options: EncoderOptions { keypad_key_application: Some(value), ..self.options },
        }
    }

    /// Set terminal DEC mode 1035: ignore keypad with numlock.
    pub fn with_ignore_keypad_with_numlock(self, value: bool) -> (e: Self)
        ensures
            e.handle() == self.handle(),
            e.settings() == (EncoderOptions { ignore_keypad_with_numlock: Some(value), ..self.settings() }),
    {
        Encoder {
            inner: self.inner,
            options: EncoderOptions { ignore_keypad_with_numlock: Some(value), ..self.options },
        }
    }

    /// Set terminal DEC mode 1036: alt sends escape prefix.
    pub fn with_alt_esc_prefix(self, value: bool) -> (e: Self)
        ensures
            e.handle() == self.handle(),
            e.settings() == (EncoderOptions { alt_esc_prefix: Some(value), ..self.settings() }),
    {
        Encoder {
            inner: self.inner,
            options: EncoderOptions { alt_esc_prefix: Some(value), ..self.options },
        }
    }

    /// Set xterm modifyOtherKeys mode 2.
    pub fn with_modify_other_keys_state_2(self, value: bool) -> (e: Self)
        ensures
            e.handle() == self.handle(),
            e.settings() == (EncoderOptions { modify_other_keys_state_2: Some(value), ..self.settings() }),
    {
        Encoder {
            inner: self.inner,
            options: EncoderOptions { modify_other_keys_state_2: Some(value), ..self.options },
        }
    }

    /// Set Kitty keyboard protocol flags.
    pub fn with_kitty_flags(self, value: KittyKeyFlags) -> (e: Self)
        ensures
            e.handle() == self.handle(),
            e.settings() == (EncoderOptions { kitty_flags: Some(value), ..self.settings() }),
    {
        Encoder {
            inner: self.inner,
            options: EncoderOptions { kitty_flags: Some(value), ..self.options },
        }
    }

    /// Set macOS option-as-alt setting.
    pub fn with_macos_option_as_alt(self, value: OptionAsAlt) -> (e: Self)
        ensures
            e.handle() == self.handle(),
            e.settings() == (EncoderOptions { macos_option_as_alt: Some(value), ..self.settings() }),
    {
        Encoder {
            inner: self.inner,
            options: EncoderOptions { macos_option_as_alt: Some(value), ..self.options },
        }
    }
}

/// A buffer that is too small costs nothing: the refusal names the size `required`,
/// and where the engine then writes an event of at most that size, its size is
/// returned. The encoder stays as it was throughout.
pub proof fn law_refused_events_can_be_encoded_again<H>(
    before: Encoder<H>,
    required: usize,
    between: Encoder<H>,
    first: Result<usize, Error>,
    written: usize,
    after: Encoder<H>,
    second: Result<usize, Error>,
)
    requires
        before.encodes(ResultCode::OutOfSpace, required, between, first),
        between.encodes(ResultCode::Success, written, after, second),
        0 < written <= required,
    ensures
        first == Err::<usize, Error>(Error::OutOfSpace { required }),
        second == Ok::<usize, Error>(written),
        0 < second->Ok_0 <= required,
        after == before,
{
}

/// A modifier is on exactly where one of its two keys is held; sides are not told
/// apart, and the locks are not looked at.
pub proof fn law_modifiers_are_held_on_either_side(held: HeldKeys, m: Mods)
    requires
        call_ensures(held_mods, (held,), m),
    ensures
        m.shift <==> held.left_shift || held.right_shift,
        m.ctrl <==> held.left_control || held.right_control,
        m.alt <==> held.left_alt || held.right_alt,
        m.super_key <==> held.left_super || held.right_super,
        !m.caps_lock && !m.num_lock,
        !m.shift_side && !m.ctrl_side && !m.alt_side && !m.super_side,
{
}

/// A modifier is in a union exactly where it is in one of the two, it is contained
/// exactly where it is in both, and none is in the empty set.
pub proof fn law_modifiers_are_members_of_sets(a: Mods, b: Mods, u: Mods, e: Mods, c: bool)
    requires
        call_ensures(Mods::union, (a, b), u),
        call_ensures(Mods::contains, (a, b), c),
        call_ensures(Mods::empty, (), e),
    ensures
        u.shift <==> a.shift || b.shift,
        u.alt <==> a.alt || b.alt,
        u.ctrl <==> a.ctrl || b.ctrl,
        u.super_key <==> a.super_key || b.super_key,
        u.caps_lock <==> a.caps_lock || b.caps_lock,
        u.num_lock <==> a.num_lock || b.num_lock,
        u.shift_side <==> a.shift_side || b.shift_side,
        u.alt_side <==> a.alt_side || b.alt_side,
        u.ctrl_side <==> a.ctrl_side || b.ctrl_side,
        u.super_side <==> a.super_side || b.super_side,
        c <==> {
            &&& b.shift ==> a.shift
            &&& b.alt ==> a.alt
            &&& b.ctrl ==> a.ctrl
            &&& b.super_key ==> a.super_key
            &&& b.caps_lock ==> a.caps_lock
            &&& b.num_lock ==> a.num_lock
            &&& b.shift_side ==> a.shift_side
            &&& b.alt_side ==> a.alt_side
            &&& b.ctrl_side ==> a.ctrl_side
            &&& b.super_side ==> a.super_side
        },
        !(e.shift || e.alt || e.ctrl || e.super_key || e.caps_lock || e.num_lock || e.shift_side
            || e.alt_side || e.ctrl_side || e.super_side),
{
}

/// The letters and digits follow each other in the polling order as they do in the
/// alphabet, and each produces its own small letter or digit. The other keys that
/// produce a character produce the one that they are named after, and the rest none.
pub proof fn law_keys_produce_their_own_characters(key: Key, c: char)
    requires
        call_ensures(Key::unshifted_codepoint, (key,), c),
    ensures
        0 <= poll_order(key) < 26 ==> c as int == 'a' as int + poll_order(key),
        26 <= poll_order(key) < 36 ==> c as int == '0' as int + (poll_order(key) - 26),
        key == Key::A ==> poll_order(key) == 0,
        key == Key::Z ==> poll_order(key) == 25,
        key == Key::Digit0 ==> poll_order(key) == 26,
        key == Key::Digit9 ==> poll_order(key) == 35,
        c == ' ' <==> key == Key::Space,
        c == '-' <==> key == Key::Minus,
        c == '=' <==> key == Key::Equal,
        c == '[' <==> key == Key::BracketLeft,
        c == ']' <==> key == Key::BracketRight,
        c == '\\' <==> key == Key::Backslash,
        c == ';' <==> key == Key::Semicolon,
        c == '\'' <==> key == Key::Quote,
        c == ',' <==> key == Key::Comma,
        c == '.' <==> key == Key::Period,
        c == '/' <==> key == Key::Slash,
        c == '`' <==> key == Key::Backquote,
        c == '\0' <==> poll_order(key) >= 36 && !(key == Key::Space || key == Key::Minus || key
            == Key::Equal || key == Key::BracketLeft || key == Key::BracketRight || key
            == Key::Backslash || key == Key::Semicolon || key == Key::Quote || key == Key::Comma
            || key == Key::Period || key == Key::Slash || key == Key::Backquote),
{
}

/// The keys are polled in one fixed order, each once: letters, digits, the keys for
/// editing and moving, punctuation, function keys.
pub proof fn law_keys_are_polled_in_one_order(keys: [Key; 74])
    requires
        call_ensures(all_keys, (), keys),
    ensures
        keys@.len() == 74,
        forall|k: Key| #[trigger] keys@.contains(k),
        forall|i: int, j: int| 0 <= i < j < 74 ==> keys@[i] != keys@[j],
        keys@.subrange(0, 26) == seq![
            Key::A,
            Key::B,
            Key::C,
            Key::D,
            Key::E,
            Key::F,
            Key::G,
            Key::H,
            Key::I,
            Key::J,
            Key::K,
            Key::L,
            Key::M,
            Key::N,
            Key::O,
            Key::P,
            Key::Q,
            Key::R,
            Key::S,
            Key::T,
            Key::U,
            Key::V,
            Key::W,
            Key::X,
            Key::Y,
            Key::Z,
        ],
        keys@.subrange(26, 37) == seq![
            Key::Digit0,
            Key::Digit1,
            Key::Digit2,
            Key::Digit3,
            Key::Digit4,
            Key::Digit5,
            Key::Digit6,
            Key::Digit7,
            Key::Digit8,
            Key::Digit9,
            Key::Space,
        ],
        keys@.subrange(37, 51) == seq![
            Key::Enter,
            Key::Tab,
            Key::Backspace,
            Key::Delete,
            Key::Escape,
            Key::ArrowUp,
            Key::ArrowDown,
            Key::ArrowLeft,
            Key::ArrowRight,
            Key::Home,
            Key::End,
            Key::PageUp,
            Key::PageDown,
            Key::Insert,
        ],
        keys@.subrange(51, 62) == seq![
            Key::Minus,
            Key::Equal,
            Key::BracketLeft,
            Key::BracketRight,
            Key::Backslash,
            Key::Semicolon,
            Key::Quote,
            Key::Comma,
            Key::Period,
            Key::Slash,
            Key::Backquote,
        ],
        keys@.subrange(62, 74) == seq![
            Key::F1,
            Key::F2,
            Key::F3,
            Key::F4,
            Key::F5,
            Key::F6,
            Key::F7,
            Key::F8,
            Key::F9,
            Key::F10,
            Key::F11,
            Key::F12,
        ],
{
    assert forall|k: Key| #[trigger] keys@.contains(k) by {
        assert(keys@[poll_order(k)] == k);
    }
    lemma_polled_letters(keys);
    lemma_polled_others(keys);
}

proof fn lemma_polled_letters(keys: [Key; 74])
    requires
        forall|k: Key| 0 <= #[trigger] poll_order(k) < KEY_COUNT && keys@[poll_order(k)] == k,
    ensures
        keys@.subrange(0, 26) == seq![
            Key::A,
            Key::B,
            Key::C,
            Key::D,
            Key::E,
            Key::F,
            Key::G,
            Key::H,
            Key::I,
            Key::J,
            Key::K,
            Key::L,
            Key::M,
            Key::N,
            Key::O,
            Key::P,
            Key::Q,
            Key::R,
            Key::S,
            Key::T,
            Key::U,
            Key::V,
            Key::W,
            Key::X,
            Key::Y,
            Key::Z,
        ],
        keys@.subrange(26, 37) == seq![
            Key::Digit0,
            Key::Digit1,
            Key::Digit2,
            Key::Digit3,
            Key::Digit4,
            Key::Digit5,
            Key::Digit6,
            Key::Digit7,
            Key::Digit8,
            Key::Digit9,
            Key::Space,
        ],
{
    let letters = seq![
        Key::A,
        Key::B,
        Key::C,
        Key::D,
        Key::E,
        Key::F,
        Key::G,
        Key::H,
        Key::I,
        Key::J,
        Key::K,
        Key::L,
        Key::M,
        Key::N,
        Key::O,
        Key::P,
        Key::Q,
        Key::R,
        Key::S,
        Key::T,
        Key::U,
        Key::V,
        Key::W,
        Key::X,
        Key::Y,
        Key::Z,
    ];
    let digits = seq![
        Key::Digit0,
        Key::Digit1,
        Key::Digit2,
        Key::Digit3,
        Key::Digit4,
        Key::Digit5,
        Key::Digit6,
        Key::Digit7,
        Key::Digit8,
        Key::Digit9,
        Key::Space,
    ];
    assert forall|i: int| 0 <= i < 26 implies keys@.subrange(0, 26)[i] == letters[i] by {
        assert(poll_order(letters[i]) == i);
    }
    assert forall|i: int| 0 <= i < 11 implies keys@.subrange(26, 37)[i] == digits[i] by {
        assert(poll_order(digits[i]) == 26 + i);
    }
    assert(keys@.subrange(0, 26) =~= letters);
    assert(keys@.subrange(26, 37) =~= digits);
}

proof fn lemma_polled_others(keys: [Key; 74])
    requires
        forall|k: Key| 0 <= #[trigger] poll_order(k) < KEY_COUNT && keys@[poll_order(k)] == k,
    ensures
        keys@.subrange(37, 51) == seq![
            Key::Enter,
            Key::Tab,
            Key::Backspace,
            Key::Delete,
            Key::Escape,
            Key::ArrowUp,
            Key::ArrowDown,
            Key::ArrowLeft,
            Key::ArrowRight,
            Key::Home,
            Key::End,
            Key::PageUp,
            Key::PageDown,
            Key::Insert,
        ],
        keys@.subrange(51, 62) == seq![
            Key::Minus,
            Key::Equal,
            Key::BracketLeft,
            Key::BracketRight,
            Key::Backslash,
            Key::Semicolon,
            Key::Quote,
            Key::Comma,
            Key::Period,
            Key::Slash,
            Key::Backquote,
        ],
        keys@.subrange(62, 74) == seq![
            Key::F1,
            Key::F2,
            Key::F3,
            Key::F4,
            Key::F5,
            Key::F6,
            Key::F7,
            Key::F8,
            Key::F9,
            Key::F10,
            Key::F11,
            Key::F12,
        ],
{
    let moving = seq![
        Key::Enter,
        Key::Tab,
        Key::Backspace,
        Key::Delete,
        Key::Escape,
        Key::ArrowUp,
        Key::ArrowDown,
        Key::ArrowLeft,
        Key::ArrowRight,
        Key::Home,
        Key::End,
        Key::PageUp,
        Key::PageDown,
        Key::Insert,
    ];
    let punctuation = seq![
        Key::Minus,
        Key::Equal,
        Key::BracketLeft,
        Key::BracketRight,
        Key::Backslash,
        Key::Semicolon,
        Key::Quote,
        Key::Comma,
        Key::Period,
        Key::Slash,
        Key::Backquote,
    ];
    let functions = seq![
        Key::F1,
        Key::F2,
        Key::F3,
        Key::F4,
        Key::F5,
        Key::F6,
        Key::F7,
        Key::F8,
        Key::F9,
        Key::F10,
        Key::F11,
        Key::F12,
    ];
    assert forall|i: int| 0 <= i < 14 implies keys@.subrange(37, 51)[i] == moving[i] by {
        assert(poll_order(moving[i]) == 37 + i);
    }
    assert forall|i: int| 0 <= i < 11 implies keys@.subrange(51, 62)[i] == punctuation[i] by {
        assert(poll_order(punctuation[i]) == 51 + i);
    }
    assert forall|i: int| 0 <= i < 12 implies keys@.subrange(62, 74)[i] == functions[i] by {
        assert(poll_order(functions[i]) == 62 + i);
    }
    assert(keys@.subrange(37, 51) =~= moving);
    assert(keys@.subrange(51, 62) =~= punctuation);
    assert(keys@.subrange(62, 74) =~= functions);
}

/// A new event names its key and action and holds nothing else.
pub proof fn law_new_events_are_bare(key: Key, action: Action, e: Event)
    requires
        call_ensures(Event::new, (key, action), e),
    ensures
        forall|k: Key| #[trigger] call_ensures(Event::get_key, (&e,), k) ==> k == key,
        forall|a: Action| #[trigger] call_ensures(Event::get_action, (&e,), a) ==> a == action,
        forall|m: Mods| #[trigger]
            call_ensures(Event::get_mods, (&e,), m) ==> !(m.shift || m.alt || m.ctrl || m.super_key
                || m.caps_lock || m.num_lock || m.shift_side || m.alt_side || m.ctrl_side
                || m.super_side),
        forall|m: Mods| #[trigger]
            call_ensures(Event::get_consumed_mods, (&e,), m) ==> !(m.shift || m.alt || m.ctrl
                || m.super_key || m.caps_lock || m.num_lock || m.shift_side || m.alt_side
                || m.ctrl_side || m.super_side),
        forall|b: bool| #[trigger] call_ensures(Event::get_composing, (&e,), b) ==> !b,
        forall|t: &Option<Vec<u8>>| #[trigger] call_ensures(Event::utf8, (&e,), t) ==> *t is None,
        forall|c: u32| #[trigger]
            call_ensures(Event::get_unshifted_codepoint, (&e,), c) ==> c == 0,
{
}

/// What is set in an event is what is got from it, and setting one thing leaves the
/// others alone.
pub proof fn law_events_give_back_what_is_set(
    e: &mut Event,
    key: Key,
    f: &mut Event,
    action: Action,
    g: &mut Event,
    mods: Mods,
    h: &mut Event,
    consumed: Mods,
)
    requires
        call_ensures(Event::set_key, (e, key), ()),
        call_ensures(Event::set_action, (f, action), ()),
        call_ensures(Event::set_mods, (g, mods), ()),
        call_ensures(Event::set_consumed_mods, (h, consumed), ()),
    ensures
        final(e)@.key == key,
        final(e)@.action == old(e)@.action && final(e)@.mods == old(e)@.mods
            && final(e)@.consumed_mods == old(e)@.consumed_mods && final(e)@.composing
            == old(e)@.composing && final(e)@.utf8 == old(e)@.utf8
            && final(e)@.unshifted_codepoint == old(e)@.unshifted_codepoint,
        final(f)@.action == action,
        final(f)@.key == old(f)@.key && final(f)@.mods == old(f)@.mods && final(f)@.consumed_mods
            == old(f)@.consumed_mods && final(f)@.composing == old(f)@.composing && final(f)@.utf8
            == old(f)@.utf8 && final(f)@.unshifted_codepoint == old(f)@.unshifted_codepoint,
        final(g)@.mods == mods,
        final(g)@.key == old(g)@.key && final(g)@.action == old(g)@.action
            && final(g)@.consumed_mods == old(g)@.consumed_mods && final(g)@.composing
            == old(g)@.composing && final(g)@.utf8 == old(g)@.utf8
            && final(g)@.unshifted_codepoint == old(g)@.unshifted_codepoint,
        final(h)@.consumed_mods == consumed,
        final(h)@.key == old(h)@.key && final(h)@.action == old(h)@.action && final(h)@.mods
            == old(h)@.mods && final(h)@.composing == old(h)@.composing && final(h)@.utf8
            == old(h)@.utf8 && final(h)@.unshifted_codepoint == old(h)@.unshifted_codepoint,
        forall|k: Key| #[trigger] call_ensures(Event::get_key, (final(e),), k) ==> k == key,
        forall|a: Action| #[trigger]
            call_ensures(Event::get_action, (final(f),), a) ==> a == action,
        forall|m: Mods| #[trigger] call_ensures(Event::get_mods, (final(g),), m) ==> m == mods,
        forall|m: Mods| #[trigger]
            call_ensures(Event::get_consumed_mods, (final(h),), m) ==> m == consumed,
{
}

/// The same of the rest of an event: its composition, its text and its character.
pub proof fn law_events_give_back_their_text(
    e: &mut Event,
    composing: bool,
    f: &mut Event,
    text: Option<Vec<u8>>,
    g: &mut Event,
    codepoint: u32,
)
    requires
        call_ensures(Event::set_composing, (e, composing), ()),
        call_ensures(Event::set_utf8, (f, text), ()),
        call_ensures(Event::set_unshifted_codepoint, (g, codepoint), ()),
    ensures
        final(e)@.composing == composing,
        final(e)@.key == old(e)@.key && final(e)@.action == old(e)@.action && final(e)@.mods
            == old(e)@.mods && final(e)@.consumed_mods == old(e)@.consumed_mods && final(e)@.utf8
            == old(e)@.utf8 && final(e)@.unshifted_codepoint == old(e)@.unshifted_codepoint,
        final(f)@.utf8 is Some <==> text is Some,
        text matches Some(bytes) ==> final(f)@.utf8 == Some(bytes@),
        final(f)@.key == old(f)@.key && final(f)@.action == old(f)@.action && final(f)@.mods
            == old(f)@.mods && final(f)@.consumed_mods == old(f)@.consumed_mods
            && final(f)@.composing == old(f)@.composing && final(f)@.unshifted_codepoint
            == old(f)@.unshifted_codepoint,
        final(g)@.unshifted_codepoint == codepoint,
        final(g)@.key == old(g)@.key && final(g)@.action == old(g)@.action && final(g)@.mods
            == old(g)@.mods && final(g)@.consumed_mods == old(g)@.consumed_mods
            && final(g)@.composing == old(g)@.composing && final(g)@.utf8 == old(g)@.utf8,
        forall|b: bool| #[trigger]
            call_ensures(Event::get_composing, (final(e),), b) ==> b == composing,
        forall|t: &Option<Vec<u8>>| #[trigger]
            call_ensures(Event::utf8, (final(f),), t) ==> (*t is Some <==> text is Some) && (
            *t is Some ==> (*t)->0@ == text->0@),
        forall|c: u32| #[trigger]
            call_ensures(Event::get_unshifted_codepoint, (final(g),), c) ==> c == codepoint,
{
}

/// Flags keep every bit: they give back the bits that they were made of, a union
/// has what either has, and one set contains another exactly where joining it adds
/// nothing.
pub proof fn law_flags_are_sets_of_bits(
    a: u8,
    b: u8,
    f: KittyKeyFlags,
    g: KittyKeyFlags,
    u: KittyKeyFlags,
    bits: u8,
    joined: u8,
    c: bool,
)
    requires
        call_ensures(KittyKeyFlags::from_bits_retain, (a,), f),
        call_ensures(KittyKeyFlags::from_bits_retain, (b,), g),
        call_ensures(KittyKeyFlags::bits, (f,), bits),
        call_ensures(KittyKeyFlags::union, (f, g), u),
        call_ensures(KittyKeyFlags::bits, (u,), joined),
        call_ensures(KittyKeyFlags::contains, (f, g), c),
    ensures
        bits == a,
        joined == a | b,
        c <==> a | b == a,
{
    assert((a & b == b) == (a | b == a)) by (bit_vector);
}

/// A new encoder is the engine's, with nothing set, exactly where the engine reports
/// success and gave one.
pub proof fn law_new_encoders_have_nothing_set<H>(
    code: ResultCode,
    encoder: Option<H>,
    opened: Result<H, Error>,
    r: Result<Encoder<H>, Error>,
)
    requires
        call_ensures(Encoder::<H>::new, (code, encoder), r),
        call_ensures(open_handle::<H>, (code, encoder), opened),
    ensures
        r is Ok <==> code == ResultCode::Success && encoder is Some,
        r matches Err(e) ==> opened == Err::<H, Error>(e),
        r matches Ok(e) ==> forall|p: (&H, EncoderOptions)| #[trigger]
            call_ensures(Encoder::<H>::parts, (&e,), p) ==> {
                &&& Some(*p.0) == encoder
                &&& p.1.cursor_key_application is None
                &&& p.1.keypad_key_application is None
                &&& p.1.ignore_keypad_with_numlock is None
                &&& p.1.alt_esc_prefix is None
                &&& p.1.modify_other_keys_state_2 is None
                &&& p.1.kitty_flags is None
                &&& p.1.macos_option_as_alt is None
            },
{
}

/// What a terminal tells is taken over, each thing into the setting of its own name.
/// What it cannot tell stays, but for the option key, which is reset.
pub proof fn law_encoders_follow_their_terminal<H>(
    before: Encoder<H>,
    terminal: TerminalKeyState,
    after: Encoder<H>,
    p: (&H, EncoderOptions),
    q: (&H, EncoderOptions),
)
    requires
        call_ensures(Encoder::<H>::with_options_from_terminal, (before, terminal), after),
        call_ensures(Encoder::<H>::parts, (&before,), p),
        call_ensures(Encoder::<H>::parts, (&after,), q),
    ensures
        *q.0 == *p.0,
        q.1.cursor_key_application == Some(terminal.cursor_key_application),
        q.1.keypad_key_application == Some(terminal.keypad_key_application),
        q.1.alt_esc_prefix == Some(terminal.alt_esc_prefix),
        q.1.modify_other_keys_state_2 == Some(terminal.modify_other_keys_state_2),
        q.1.kitty_flags == Some(terminal.kitty_flags),
        q.1.macos_option_as_alt == Some(OptionAsAlt::False),
        q.1.ignore_keypad_with_numlock == p.1.ignore_keypad_with_numlock,
{
}

/// An event was encoded exactly where the engine reports success, into as many bytes
/// as it says; a buffer that is too small is refused with the size that is needed.
/// The encoder stays.
pub proof fn law_events_are_encoded_as_the_engine_says<H>(
    e: &mut Encoder<H>,
    code: ResultCode,
    written: usize,
    r: Result<usize, Error>,
)
    requires
        call_ensures(Encoder::<H>::encode, (e, code, written), r),
    ensures
        *final(e) == *old(e),
        r is Ok <==> code == ResultCode::Success,
        r matches Ok(n) ==> n == written,
        code == ResultCode::OutOfSpace ==> r == Err::<usize, Error>(
            Error::OutOfSpace { required: written },
        ),
{
}

/// Each setting is made by its own function, which leaves the others and the engine's
/// encoder alone.
pub proof fn law_settings_are_made_one_by_one<H>(
    before: Encoder<H>,
    p: (&H, EncoderOptions),
    on: bool,
    flags: KittyKeyFlags,
    option: OptionAsAlt,
    after: Encoder<H>,
    q: (&H, EncoderOptions),
)
    requires
        call_ensures(Encoder::<H>::parts, (&before,), p),
        call_ensures(Encoder::<H>::parts, (&after,), q),
    ensures
        call_ensures(Encoder::<H>::with_cursor_key_application, (before, on), after) ==> {
            &&& *q.0 == *p.0
            &&& q.1.cursor_key_application == Some(on)
            &&& q.1.keypad_key_application == p.1.keypad_key_application
            &&& q.1.ignore_keypad_with_numlock == p.1.ignore_keypad_with_numlock
            &&& q.1.alt_esc_prefix == p.1.alt_esc_prefix
            &&& q.1.modify_other_keys_state_2 == p.1.modify_other_keys_state_2
            &&& q.1.kitty_flags == p.1.kitty_flags
            &&& q.1.macos_option_as_alt == p.1.macos_option_as_alt
        },
        call_ensures(Encoder::<H>::with_keypad_key_application, (before, on), after) ==> {
            &&& *q.0 == *p.0
            &&& q.1.cursor_key_application == p.1.cursor_key_application
            &&& q.1.keypad_key_application == Some(on)
            &&& q.1.ignore_keypad_with_numlock == p.1.ignore_keypad_with_numlock
            &&& q.1.alt_esc_prefix == p.1.alt_esc_prefix
            &&& q.1.modify_other_keys_state_2 == p.1.modify_other_keys_state_2
            &&& q.1.kitty_flags == p.1.kitty_flags
            &&& q.1.macos_option_as_alt == p.1.macos_option_as_alt
        },
        call_ensures(Encoder::<H>::with_ignore_keypad_with_numlock, (before, on), after) ==> {
            &&& *q.0 == *p.0
            &&& q.1.cursor_key_application == p.1.cursor_key_application
            &&& q.1.keypad_key_application == p.1.keypad_key_application
            &&& q.1.ignore_keypad_with_numlock == Some(on)
            &&& q.1.alt_esc_prefix == p.1.alt_esc_prefix
            &&& q.1.modify_other_keys_state_2 == p.1.modify_other_keys_state_2
            &&& q.1.kitty_flags == p.1.kitty_flags
            &&& q.1.macos_option_as_alt == p.1.macos_option_as_alt
        },
        call_ensures(Encoder::<H>::with_alt_esc_prefix, (before, on), after) ==> {
            &&& *q.0 == *p.0
            &&& q.1.cursor_key_application == p.1.cursor_key_application
            &&& q.1.keypad_key_application == p.1.keypad_key_application
            &&& q.1.ignore_keypad_with_numlock == p.1.ignore_keypad_with_numlock
            &&& q.1.alt_esc_prefix == Some(on)
            &&& q.1.modify_other_keys_state_2 == p.1.modify_other_keys_state_2
            &&& q.1.kitty_flags == p.1.kitty_flags
            &&& q.1.macos_option_as_alt == p.1.macos_option_as_alt
        },
        call_ensures(Encoder::<H>::with_modify_other_keys_state_2, (before, on), after) ==> {
            &&& *q.0 == *p.0
            &&& q.1.cursor_key_application == p.1.cursor_key_application
            &&& q.1.keypad_key_application == p.1.keypad_key_application
            &&& q.1.ignore_keypad_with_numlock == p.1.ignore_keypad_with_numlock
            &&& q.1.alt_esc_prefix == p.1.alt_esc_prefix
            &&& q.1.modify_other_keys_state_2 == Some(on)
            &&& q.1.kitty_flags == p.1.kitty_flags
            &&& q.1.macos_option_as_alt == p.1.macos_option_as_alt
        },
        call_ensures(Encoder::<H>::with_kitty_flags, (before, flags), after) ==> {
            &&& *q.0 == *p.0
            &&& q.1.cursor_key_application == p.1.cursor_key_application
            &&& q.1.keypad_key_application == p.1.keypad_key_application
            &&& q.1.ignore_keypad_with_numlock == p.1.ignore_keypad_with_numlock
            &&& q.1.alt_esc_prefix == p.1.alt_esc_prefix
            &&& q.1.modify_other_keys_state_2 == p.1.modify_other_keys_state_2
            &&& q.1.kitty_flags == Some(flags)
            &&& q.1.macos_option_as_alt == p.1.macos_option_as_alt
        },
        call_ensures(Encoder::<H>::with_macos_option_as_alt, (before, option), after) ==> {
            &&& *q.0 == *p.0
            &&& q.1.cursor_key_application == p.1.cursor_key_application
            &&& q.1.keypad_key_application == p.1.keypad_key_application
            &&& q.1.ignore_keypad_with_numlock == p.1.ignore_keypad_with_numlock
            &&& q.1.alt_esc_prefix == p.1.alt_esc_prefix
            &&& q.1.modify_other_keys_state_2 == p.1.modify_other_keys_state_2
            &&& q.1.kitty_flags == p.1.kitty_flags
            &&& q.1.macos_option_as_alt == Some(option)
        },
{
}

} // verus!
