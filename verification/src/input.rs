//! Turning the keyboard's state into key events.
use vstd::prelude::*;
use vstd::utf8::*;

use crate::key::{Action, Event, Key, Mods};
use crate::status::Error;
use crate::utf8::{char_len, utf8_encode};

verus! {

/// Bytes that the text typed within one frame may take.
pub const TEXT_CAPACITY: usize = 64;

/// The text buffer for the typed characters: their UTF-8 encoding, except that
/// the character which would fill the buffer to the last byte is not written and
/// leaves zero bytes.
pub open spec fn typed_bytes(chars: Seq<char>) -> Seq<u8> {
    let all = encode_utf8(chars);
    if all.len() < TEXT_CAPACITY {
        all
    } else {
        let kept = encode_utf8(chars.drop_last());
        kept + Seq::new((TEXT_CAPACITY - kept.len()) as nat, |i: int| 0u8)
    }
}

/// Collects the characters typed within one frame into one text.
///
/// More than [`TEXT_CAPACITY`] bytes cannot be collected.
pub fn typed_text(chars: &[char]) -> (bytes: Vec<u8>)
    requires
        encode_utf8(chars@).len() <= TEXT_CAPACITY,
    ensures
        bytes@ == typed_bytes(chars@),
{
    let mut bytes: Vec<u8> = Vec::new();
    let mut buf: [u8; 4] = [0, 0, 0, 0];
    let mut i: usize = 0;
    proof {
        assert(chars@.take(0) =~= Seq::<char>::empty());
        assert(encode_utf8(Seq::<char>::empty()) =~= Seq::<u8>::empty());
        assert(encode_utf8(chars@.take(0)).len() == 0);
    }
    while i < chars.len()
        invariant
            i <= chars@.len(),
            encode_utf8(chars@).len() <= TEXT_CAPACITY,
            bytes@ == typed_bytes(chars@.take(i as int)),
            bytes@.len() == encode_utf8(chars@.take(i as int)).len(),
            bytes@.len() <= TEXT_CAPACITY,
            i < chars@.len() ==> bytes@.len() < TEXT_CAPACITY,
        decreases chars@.len() - i,
    {
        let c: char = chars[i];
        let n: usize = char_len(c);
        let ghost before = bytes@;
        let ghost prefix = chars@.take(i as int);
        proof {
            assert(chars@.take(i + 1) =~= prefix.push(c));
            assert(prefix.push(c).drop_last() =~= prefix);
            crate::utf8::lemma_encode_utf8_push(prefix, c);
            crate::utf8::lemma_encoded_len_push(prefix, c);
            lemma_prefix_len(chars@, i + 1);
            if i + 1 < chars@.len() {
                lemma_prefix_len(chars@, i + 2);
                assert(chars@.take(i + 2) =~= chars@.take(i + 1).push(chars@[i + 1]));
                crate::utf8::lemma_encoded_len_push(chars@.take(i + 1), chars@[i + 1]);
            }
        }
        if bytes.len() + n < TEXT_CAPACITY {
            let written: usize = utf8_encode(c as u32, &mut buf);
            let mut k: usize = 0;
            while k < written
                invariant
                    k <= written <= 4,
                    bytes@ == before + buf@.take(k as int),
                decreases written - k,
            {
                bytes.push(buf[k]);
                k = k + 1;
                assert(bytes@ =~= before + buf@.take(k as int));
            }
        } else {
            let ghost zeros = Seq::new(n as nat, |j: int| 0u8);
            let mut k: usize = 0;
            while k < n
                invariant
                    k <= n,
                    zeros == Seq::new(n as nat, |j: int| 0u8),
                    bytes@ == before + zeros.take(k as int),
                decreases n - k,
            {
                bytes.push(0);
                k = k + 1;
                assert(bytes@ =~= before + zeros.take(k as int));
            }
            assert(bytes@ =~= typed_bytes(prefix.push(c)));
        }
        i = i + 1;
    }
    assert(chars@.take(i as int) =~= chars@);
    bytes
}

/// A longer run takes at least as many bytes.
proof fn lemma_prefix_len(chars: Seq<char>, k: int)
    requires
        0 <= k <= chars.len(),
    ensures
        encode_utf8(chars.take(k)).len() <= encode_utf8(chars).len(),
    decreases chars.len() - k,
{
    if k == chars.len() {
        assert(chars.take(k) =~= chars);
    } else {
        lemma_prefix_len(chars, k + 1);
        assert(chars.take(k + 1) =~= chars.take(k).push(chars[k]));
        crate::utf8::lemma_encoded_len_push(chars.take(k), chars[k]);
    }
}

/// Text that stays below the capacity arrives unchanged.
pub proof fn law_short_text_is_kept(chars: Seq<char>)
    requires
        encode_utf8(chars).len() < TEXT_CAPACITY,
    ensures
        valid_utf8(typed_bytes(chars)),
        decode_utf8(typed_bytes(chars)) == chars,
{
    encode_utf8_valid_utf8(chars);
    encode_utf8_decode_utf8(chars);
}

/// Whether a key went down, repeated or came up within the frame.
#[derive(Clone, Copy, Debug, PartialEq, Eq, Structural)]
pub struct KeyState {
    pub key: Key,
    pub pressed: bool,
    pub repeated: bool,
    pub released: bool,
}

impl KeyState {
    /// Something happened to the key.
    pub open spec fn active(self) -> bool {
        self.pressed || self.repeated || self.released
    }

    /// What happened: a release comes before a press, a press before a repeat.
    pub open spec fn action(self) -> Action {
        if self.released {
            Action::Release
        } else if self.pressed {
            Action::Press
        } else {
            Action::Repeat
        }
    }

    /// The key takes the typed text, where there is any.
    pub open spec fn takes_text(self) -> bool {
        self.active() && !self.released
    }

    /// The event for this key, with `text` attached where the key takes it.
    pub open spec fn event(self, mods: Mods, text: Seq<u8>) -> crate::key::EventView {
        let ucp = crate::key::unshifted(self.key);
        crate::key::EventView {
            key: self.key,
            action: self.action(),
            mods,
            consumed_mods: if ucp != '\0' && mods.shift {
                Mods { shift: true, ..Mods::spec_empty() }
            } else {
                Mods::spec_empty()
            },
            composing: false,
            utf8: if text.len() > 0 && !self.released {
                Some(text)
            } else {
                None
            },
            unshifted_codepoint: ucp as u32,
        }
    }
}

/// The events of a frame: one for each key to which something happened, in
/// order. The text goes to the first of them that is not a release.
pub open spec fn frame_events(states: Seq<KeyState>, mods: Mods, text: Seq<u8>) -> Seq<
    crate::key::EventView,
>
    decreases states.len(),
{
    if states.len() == 0 {
        Seq::empty()
    } else {
        let init = states.drop_last();
        let rest = if exists|i: int| 0 <= i < init.len() && #[trigger] init[i].takes_text() {
            Seq::empty()
        } else {
            text
        };
        if states.last().active() {
            frame_events(init, mods, text).push(states.last().event(mods, rest))
        } else {
            frame_events(init, mods, text)
        }
    }
}

/// What a list of events holds.
pub open spec fn contents(events: Seq<Event>) -> Seq<crate::key::EventView> {
    events.map_values(|e: Event| e@)
}

/// Makes the events of a frame.
pub fn handle_input(states: &[KeyState], mods: Mods, text: Vec<u8>) -> (events: Vec<Event>)
    ensures
        contents(events@) == frame_events(states@, mods, text@),
{
    let mut events: Vec<Event> = Vec::new();
    let ghost typed = text@;
    let mut pending: Vec<u8> = text;
    let mut i: usize = 0;
    assert(contents(events@) =~= frame_events(states@.take(0), mods, typed));
    while i < states.len()
        invariant
            i <= states@.len(),
            contents(events@) == frame_events(states@.take(i as int), mods, typed),
            pending@ == (if exists|k: int|
                0 <= k < i && #[trigger] states@.take(i as int)[k].takes_text() {
                Seq::<u8>::empty()
            } else {
                typed
            }),
        decreases states@.len() - i,
    {
        let state: KeyState = states[i];
        let ghost seen = states@.take(i as int);
        let ghost next = states@.take(i + 1);
        let ghost taken = exists|k: int| 0 <= k < seen.len() && #[trigger] seen[k].takes_text();
        let ghost rest = pending@;
        proof {
            assert(next.drop_last() =~= seen);
            assert(next.last() == state);
            assert(forall|k: int| 0 <= k < i ==> seen[k] == next[k]);
            assert(next[i as int] == state);
            if taken {
                let k = choose|k: int| 0 <= k < seen.len() && #[trigger] seen[k].takes_text();
                assert(next[k].takes_text());
            }
        }
        if !state.pressed && !state.repeated && !state.released {
            i = i + 1;
            continue;
        }
        let action: Action = if state.released {
            Action::Release
        } else if state.pressed {
            Action::Press
        } else {
            Action::Repeat
        };
        let ucp: char = state.key.unshifted_codepoint();
        let mut event = Event::new(state.key, action);
        event.set_mods(mods);
        event.set_unshifted_codepoint(ucp as u32);
        let mut consumed: Mods = Mods::empty();
        if ucp != '\0' && mods.shift {
            consumed.shift = true;
        }
        event.set_consumed_mods(consumed);
        if pending.len() > 0 && !state.released {
            event.set_utf8(Some(pending));
            pending = Vec::new();
        } else {
            event.set_utf8(None);
        }
        assert(event@ =~= state.event(mods, rest));
        let ghost before = contents(events@);
        events.push(event);
        assert(contents(events@) =~= before.push(state.event(mods, rest)));
        proof {
            if state.takes_text() {
                assert(next[i as int].takes_text());
                assert(pending@ =~= Seq::<u8>::empty());
            }
        }
        i = i + 1;
    }
    assert(states@.take(i as int) =~= states@);
    events
}

/// How many bytes of an encoded event go out: those that were written, where
/// encoding succeeded and produced anything.
pub open spec fn to_send(encoded: Result<usize, Error>) -> Option<usize> {
    match encoded {
        Ok(n) if n > 0 => Some(n),
        _ => None,
    }
}

/// How many bytes of an encoded event go out.
pub fn encoded_len(encoded: Result<usize, Error>) -> (r: Option<usize>)
    ensures
        r == to_send(encoded),
{
    match encoded {
        Ok(n) => if n > 0 {
            Some(n)
        } else {
            None
        },
        Err(_) => None,
    }
}

/// At most one event of a frame carries text, and then it is the whole text.
pub proof fn law_text_is_attached_once(states: Seq<KeyState>, mods: Mods, text: Seq<u8>)
    ensures
        forall|i: int|
            0 <= i < frame_events(states, mods, text).len() ==> {
                let t = (#[trigger] frame_events(states, mods, text)[i]).utf8;
                t is None || t == Some(text)
            },
        forall|i: int, j: int|
            0 <= i < j < frame_events(states, mods, text).len() && (#[trigger] frame_events(
                states,
                mods,
                text,
            )[i]).utf8 is Some ==> (#[trigger] frame_events(states, mods, text)[j]).utf8 is None,
        (exists|i: int|
            0 <= i < frame_events(states, mods, text).len() && (#[trigger] frame_events(
                states,
                mods,
                text,
            )[i]).utf8 is Some) ==> exists|k: int|
            0 <= k < states.len() && #[trigger] states[k].takes_text(),
    decreases states.len(),
{
    if states.len() > 0 {
        let init = states.drop_last();
        law_text_is_attached_once(init, mods, text);
        let some = exists|k: int| 0 <= k < init.len() && #[trigger] init[k].takes_text();
        let events = frame_events(states, mods, text);
        let before = frame_events(init, mods, text);
        assert(forall|k: int| 0 <= k < init.len() ==> states[k] == init[k]);
        if some {
            let k = choose|k: int| 0 <= k < init.len() && #[trigger] init[k].takes_text();
            assert(states[k].takes_text());
        }
        if states.last().active() {
            assert(forall|i: int| 0 <= i < before.len() ==> events[i] == before[i]);
            if events.last().utf8 is Some {
                assert(states[states.len() - 1].takes_text());
            }
        }
    }
}

/// A frame in which nothing happened to any key makes no event.
pub proof fn law_idle_keys_are_silent(states: Seq<KeyState>, mods: Mods, text: Seq<u8>)
    requires
        forall|i: int| 0 <= i < states.len() ==> !(#[trigger] states[i]).active(),
    ensures
        frame_events(states, mods, text).len() == 0,
    decreases states.len(),
{
    if states.len() > 0 {
        assert(forall|i: int|
            0 <= i < states.drop_last().len() ==> states.drop_last()[i] == states[i]);
        law_idle_keys_are_silent(states.drop_last(), mods, text);
        assert(!states[states.len() - 1].active());
    }
}

proof fn lemma_events_follow_the_acting_keys(states: Seq<KeyState>, mods: Mods, text: Seq<u8>)
    ensures
        ({
            let acting = states.filter(
                |s: KeyState| s.pressed || s.repeated || s.released,
            );
            let events = frame_events(states, mods, text);
            &&& events.len() == acting.len()
            &&& (exists|k: int| 0 <= k < states.len() && #[trigger] states[k].takes_text())
                <==> exists|k: int| 0 <= k < acting.len() && !(#[trigger] acting[k]).released
            &&& forall|i: int|
                0 <= i < acting.len() ==> #[trigger] events[i] == acting[i].event(
                    mods,
                    if exists|k: int| 0 <= k < i && !(#[trigger] acting[k]).released {
                        Seq::empty()
                    } else {
                        text
                    },
                )
        }),
    decreases states.len(),
{
    reveal(Seq::filter);
    if states.len() > 0 {
        let init = states.drop_last();
        let n = states.len() - 1;
        lemma_events_follow_the_acting_keys(init, mods, text);
        let before = init.filter(|s: KeyState| s.pressed || s.repeated || s.released);
        let acting = states.filter(|s: KeyState| s.pressed || s.repeated || s.released);
        let events = frame_events(states, mods, text);
        assert(states[n] == states.last());
        assert(forall|k: int| 0 <= k < init.len() ==> states[k] == init[k]);
        assert(forall|k: int| 0 <= k < before.len() ==> acting[k] == before[k]);
        if exists|k: int| 0 <= k < init.len() && #[trigger] init[k].takes_text() {
            let k = choose|k: int| 0 <= k < init.len() && #[trigger] init[k].takes_text();
            assert(states[k].takes_text());
            let m = choose|m: int| 0 <= m < before.len() && !(#[trigger] before[m]).released;
            assert(!acting[m].released);
        } else {
            assert forall|m: int| 0 <= m < before.len() implies (#[trigger] acting[m]).released by {
                assert(before[m].released);
            }
            if states[n].takes_text() {
                assert(acting[before.len() as int] == states[n]);
            } else if exists|k: int| 0 <= k < acting.len() && !(#[trigger] acting[k]).released {
                let m = choose|m: int| 0 <= m < acting.len() && !(#[trigger] acting[m]).released;
                assert(m == before.len());
                assert(acting[m] == states[n]);
                assert(states[n].takes_text());
            }
        }
        assert forall|i: int| 0 <= i < acting.len() implies #[trigger] events[i]
            == acting[i].event(
            mods,
            if exists|k: int| 0 <= k < i && !(#[trigger] acting[k]).released {
                Seq::empty()
            } else {
                text
            },
        ) by {
            if i < before.len() {
                assert(acting[i] == before[i]);
                if exists|k: int| 0 <= k < i && !(#[trigger] before[k]).released {
                    let m = choose|m: int| 0 <= m < i && !(#[trigger] before[m]).released;
                    assert(!acting[m].released);
                } else {
                    assert forall|m: int| 0 <= m < i implies (#[trigger] acting[m]).released by {
                        assert(before[m].released);
                    }
                }
            } else {
                assert(acting[i] == states[n]);
                if exists|k: int| 0 <= k < init.len() && #[trigger] init[k].takes_text() {
                    let m = choose|m: int| 0 <= m < before.len() && !(#[trigger] before[m]).released;
                    assert(!acting[m].released);
                } else {
                    assert forall|m: int| 0 <= m < i implies (#[trigger] acting[m]).released by {
                        assert(before[m].released);
                    }
                }
            }
        }
    }
}

/// A frame makes one event for each key that went down, repeated or came up, in
/// the order of the keys. The event names the key; it is a release where the key
/// came up, else a press where it went down, else a repeat. It carries exactly the
/// modifiers that are held, is never part of a composition, and has the character
/// that the key produces without modifiers. Shift counts as consumed, and nothing
/// else does, where it is held and the key produces a character. The first event
/// that is no release gets the typed text, where there is any, and no other does.
pub proof fn law_events_describe_the_acting_keys(
    states: &[KeyState],
    mods: Mods,
    text: Vec<u8>,
    events: Vec<Event>,
)
    requires
        call_ensures(handle_input, (states, mods, text), events),
    ensures
        ({
            let acting = states@.filter(
                |s: KeyState| s.pressed || s.repeated || s.released,
            );
            &&& events@.len() == acting.len()
            &&& forall|i: int|
                0 <= i < acting.len() ==> {
                    let e = (#[trigger] events@[i])@;
                    &&& e.key == acting[i].key
                    &&& e.action == Action::Release <==> acting[i].released
                    &&& e.action == Action::Press <==> acting[i].pressed && !acting[i].released
                    &&& e.mods == mods
                    &&& !e.composing
                    &&& e.consumed_mods.shift <==> mods.shift && e.unshifted_codepoint != 0
                    &&& !e.consumed_mods.alt
                    &&& !e.consumed_mods.ctrl
                    &&& !e.consumed_mods.super_key
                    &&& !e.consumed_mods.caps_lock
                    &&& !e.consumed_mods.num_lock
                    &&& !e.consumed_mods.shift_side
                    &&& !e.consumed_mods.alt_side
                    &&& !e.consumed_mods.ctrl_side
                    &&& !e.consumed_mods.super_side
                    &&& e.utf8 is Some <==> text@.len() > 0 && !acting[i].released && forall|k: int|
                        0 <= k < i ==> (#[trigger] acting[k]).released
                    &&& e.utf8 is Some ==> e.utf8->0 == text@
                    &&& forall|c: char| #[trigger]
                        call_ensures(Key::unshifted_codepoint, (acting[i].key,), c)
                            ==> e.unshifted_codepoint == c as u32
                }
        }),
{
    lemma_events_follow_the_acting_keys(states@, mods, text@);
    let acting = states@.filter(|s: KeyState| s.pressed || s.repeated || s.released);
    let views = contents(events@);
    assert forall|i: int| 0 <= i < acting.len() implies {
        let e = (#[trigger] events@[i])@;
        &&& e.key == acting[i].key
        &&& e.action == Action::Release <==> acting[i].released
        &&& e.action == Action::Press <==> acting[i].pressed && !acting[i].released
        &&& e.mods == mods
        &&& !e.composing
        &&& e.consumed_mods.shift <==> mods.shift && e.unshifted_codepoint != 0
        &&& !e.consumed_mods.alt
        &&& !e.consumed_mods.ctrl
        &&& !e.consumed_mods.super_key
        &&& !e.consumed_mods.caps_lock
        &&& !e.consumed_mods.num_lock
        &&& !e.consumed_mods.shift_side
        &&& !e.consumed_mods.alt_side
        &&& !e.consumed_mods.ctrl_side
        &&& !e.consumed_mods.super_side
        &&& e.utf8 is Some <==> text@.len() > 0 && !acting[i].released && forall|k: int|
            0 <= k < i ==> (#[trigger] acting[k]).released
        &&& e.utf8 is Some ==> e.utf8->0 == text@
        &&& forall|c: char| #[trigger]
            call_ensures(Key::unshifted_codepoint, (acting[i].key,), c) ==> e.unshifted_codepoint
                == c as u32
    } by {
        assert(views[i] == events@[i]@);
    }
}

/// Typed text takes as many bytes as its characters. Below sixty-four bytes it can
/// be read back; at sixty-four the last character is not written, and zero bytes
/// stand in its place behind the others.
pub proof fn law_typed_text_reads_back(chars: &[char], bytes: Vec<u8>)
    requires
        encode_utf8(chars@).len() <= 64,
        call_ensures(typed_text, (chars,), bytes),
    ensures
        bytes@.len() == encode_utf8(chars@).len(),
        encode_utf8(chars@).len() < 64 ==> valid_utf8(bytes@) && decode_utf8(bytes@) == chars@,
        encode_utf8(chars@).len() == 64 ==> ({
            let kept = encode_utf8(chars@.drop_last());
            &&& kept.len() < 64
            &&& bytes@.take(kept.len() as int) == kept
            &&& forall|i: int| kept.len() <= i < 64 ==> #[trigger] bytes@[i] == 0
        }),
{
    if encode_utf8(chars@).len() < 64 {
        law_short_text_is_kept(chars@);
    } else {
        assert(chars@.len() > 0) by {
            if chars@.len() == 0 {
                assert(encode_utf8(chars@) =~= Seq::<u8>::empty());
            }
        }
        let init = chars@.drop_last();
        assert(init.push(chars@.last()) =~= chars@);
        crate::utf8::lemma_encoded_len_push(init, chars@.last());
        let kept = encode_utf8(init);
        assert(bytes@.take(kept.len() as int) =~= kept);
    }
}

/// An encoded event is sent exactly where encoding it succeeded and gave anything,
/// and then all of it.
pub proof fn law_only_what_was_encoded_is_sent(encoded: Result<usize, Error>, r: Option<usize>)
    requires
        call_ensures(encoded_len, (encoded,), r),
    ensures
        r is Some <==> encoded is Ok && encoded->Ok_0 > 0,
        r matches Some(n) ==> encoded == Ok::<usize, Error>(n),
{
}

} // verus!
