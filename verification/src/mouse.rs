//! Mouse events, the settings of a mouse encoder, and what a frame's mouse input
//! leads to.
use vstd::prelude::*;

use crate::key::Mods;
use crate::terminal::{Mode, ScrollViewport};

verus! {

/// What happened to the mouse.
#[derive(Clone, Copy, Debug, PartialEq, Eq, Structural)]
pub enum Action {
    /// A button was pressed.
    Press,
    /// A button was released.
    Release,
    /// The pointer moved.
    Motion,
}

/// A mouse button.
#[derive(Clone, Copy, Debug, PartialEq, Eq, Structural)]
pub enum Button {
    Left,
    Right,
    Middle,
    Four,
    Five,
    Six,
    Seven,
}

/// Number of buttons that are polled.
pub const BUTTON_COUNT: usize = 7;

/// The buttons in the order in which they are polled.
pub open spec fn polled(i: int) -> Button {
    if i == 0 {
        Button::Left
    } else if i == 1 {
        Button::Right
    } else if i == 2 {
        Button::Middle
    } else if i == 3 {
        Button::Four
    } else if i == 4 {
        Button::Five
    } else if i == 5 {
        Button::Six
    } else {
        Button::Seven
    }
}

/// Every button that is polled for events, in order.
pub fn all_buttons() -> (b: [Button; 7])
    ensures
        forall|i: int| 0 <= i < BUTTON_COUNT ==> #[trigger] b@[i] == polled(i),
{
    [
        Button::Left,
        Button::Right,
        Button::Middle,
        Button::Four,
        Button::Five,
        Button::Six,
        Button::Seven,
    ]
}

/// Geometry by which pixel positions become cell positions.
#[derive(Clone, Copy, Debug, PartialEq, Eq, Structural)]
pub struct EncoderSize {
    pub screen_width: u32,
    pub screen_height: u32,
    pub cell_width: u32,
    pub cell_height: u32,
    pub padding_top: u32,
    pub padding_bottom: u32,
    pub padding_right: u32,
    pub padding_left: u32,
}

/// What the mouse encoder is set to before a frame's events: its tracking mode
/// and format come from the terminal.
#[derive(Clone, Copy, Debug, PartialEq, Eq, Structural)]
pub struct EncoderOptions {
    /// Geometry of the terminal.
    pub size: EncoderSize,
    /// A button is held, so that motion is dragging.
    pub any_button_pressed: bool,
    /// Motion within one cell is reported once.
    pub track_last_cell: bool,
}

/// One mouse event.
#[derive(Clone, Copy, Debug, PartialEq, Eq, Structural)]
pub struct Event {
    pub action: Action,
    pub button: Option<Button>,
    pub mods: Mods,
}

impl Event {
    /// Sets what happened.
    pub fn set_action(&mut self, action: Action)
        ensures
            *final(self) == (Event { action, ..*old(self) }),
    {
        self.action = action;
    }

    /// What happened.
    pub fn get_action(&self) -> (a: Action)
        ensures
            a == self.action,
    {
        self.action
    }

    /// Sets the button.
    pub fn set_button(&mut self, button: Button)
        ensures
            *final(self) == (Event { button: Some(button), ..*old(self) }),
    {
        self.button = Some(button);
    }

    /// Takes the button away, as for motion without one.
    pub fn clear_button(&mut self)
        ensures
            *final(self) == (Event { button: None, ..*old(self) }),
    {
        self.button = None;
    }

    /// The button, if there is one.
    pub fn get_button(&self) -> (b: Option<Button>)
        ensures
            b == self.button,
    {
        self.button
    }

    /// Sets the modifiers.
    pub fn set_mods(&mut self, mods: Mods)
        ensures
            *final(self) == (Event { mods, ..*old(self) }),
    {
        self.mods = mods;
    }

    /// The modifiers.
    pub fn get_mods(&self) -> (m: Mods)
        ensures
            m == self.mods,
    {
        self.mods
    }
}

/// The way the wheel was turned.
#[derive(Clone, Copy, Debug, PartialEq, Eq, Structural)]
pub enum Wheel {
    Still,
    Up,
    Down,
}

/// The mouse's state within a frame: which buttons went down or came up, in
/// polling order, which of the first three are held, whether the pointer moved,
/// and the wheel.
#[derive(Clone, Copy)]
pub struct MouseState {
    pub pressed: [bool; 7],
    pub released: [bool; 7],
    pub left_down: bool,
    pub right_down: bool,
    pub middle_down: bool,
    pub moved: bool,
    pub wheel: Wheel,
}

/// What follows from mouse input, in order.
#[derive(Clone, Copy, Debug, PartialEq, Eq)]
pub enum Outcome {
    /// Encode the event and send it to the application.
    Send(Event),
    /// Scroll the viewport.
    Scroll(ScrollViewport),
}

/// The sizes and flags of the encoder for the current frame.
pub fn encoder_options(
    state: &MouseState,
    screen_width: u32,
    screen_height: u32,
    cell_width: u32,
    cell_height: u32,
    pad: u32,
) -> (o: EncoderOptions)
    ensures
        o == (EncoderOptions {
            size: EncoderSize {
                screen_width,
                screen_height,
                cell_width,
                cell_height,
                padding_top: pad,
                padding_bottom: pad,
                padding_right: pad,
                padding_left: pad,
            },
            any_button_pressed: state.left_down || state.right_down || state.middle_down,
            track_last_cell: true,
        }),
{
    EncoderOptions {
        size: EncoderSize {
            screen_width,
            screen_height,
            cell_width,
            cell_height,
            padding_top: pad,
            padding_bottom: pad,
            padding_right: pad,
            padding_left: pad,
        },
        any_button_pressed: state.left_down || state.right_down || state.middle_down,
        track_last_cell: true,
    }
}

/// The modes by which an application tracks the mouse.
pub fn tracking_modes() -> (m: [Mode; 4])
    ensures
        m@ == seq![Mode::X10Mouse, Mode::NormalMouse, Mode::ButtonMouse, Mode::AnyMouse],
{
    let modes: [Mode; 4] = [
        Mode::X10Mouse,
        Mode::NormalMouse,
        Mode::ButtonMouse,
        Mode::AnyMouse,
    ];
    assert(modes@ =~= seq![
        Mode::X10Mouse,
        Mode::NormalMouse,
        Mode::ButtonMouse,
        Mode::AnyMouse,
    ]);
    modes
}

/// Whether any mouse tracking mode is on; `modes` holds what the engine answered
/// for each of [`tracking_modes`], `None` where it answered with an error.
pub fn is_mouse_tracking_enabled(modes: &[Option<bool>]) -> (b: bool)
    ensures
        b == exists|i: int| 0 <= i < modes@.len() && #[trigger] modes@[i] == Some(true),
{
    let mut i: usize = 0;
    while i < modes.len()
        invariant
            i <= modes@.len(),
            forall|k: int| 0 <= k < i ==> #[trigger] modes@[k] != Some(true),
        decreases modes@.len() - i,
    {
        if let Some(on) = modes[i] {
            if on {
                assert(modes@[i as int] == Some(true));
                return true;
            }
        }
        i = i + 1;
    }
    false
}

impl MouseState {
    /// The event for the button in the place `i`, if it went down or came up.
    pub open spec fn button_event(self, i: int, mods: Mods) -> Seq<Outcome> {
        if self.pressed@[i] {
            seq![Outcome::Send(Event { action: Action::Press, button: Some(polled(i)), mods })]
        } else if self.released@[i] {
            seq![Outcome::Send(Event { action: Action::Release, button: Some(polled(i)), mods })]
        } else {
            Seq::empty()
        }
    }

    /// The events for the first `n` buttons.
    pub open spec fn button_events(self, n: nat, mods: Mods) -> Seq<Outcome>
        decreases n,
    {
        if n == 0 {
            Seq::empty()
        } else {
            self.button_events((n - 1) as nat, mods) + self.button_event(n - 1, mods)
        }
    }

    /// The button that counts as held while the pointer moves.
    pub open spec fn held(self) -> Option<Button> {
        if self.left_down {
            Some(Button::Left)
        } else if self.right_down {
            Some(Button::Right)
        } else if self.middle_down {
            Some(Button::Middle)
        } else {
            None
        }
    }

    /// The event for the pointer's motion, if it moved.
    pub open spec fn motion_event(self, mods: Mods) -> Seq<Outcome> {
        if self.moved {
            seq![Outcome::Send(Event { action: Action::Motion, button: self.held(), mods })]
        } else {
            Seq::empty()
        }
    }

    /// What turning the wheel does: while the application tracks the mouse it is
    /// a press and a release of button four or five, and otherwise the viewport
    /// scrolls by three rows.
    pub open spec fn wheel_events(self, mods: Mods, tracking: bool) -> Seq<Outcome> {
        match self.wheel {
            Wheel::Still => Seq::empty(),
            _ => if tracking {
                let button = Some(
                    if self.wheel == Wheel::Up {
                        Button::Four
                    } else {
                        Button::Five
                    },
                );
                seq![
                    Outcome::Send(Event { action: Action::Press, button, mods }),
                    Outcome::Send(Event { action: Action::Release, button, mods }),
                ]
            } else {
                seq![
                    Outcome::Scroll(
                        ScrollViewport::Delta(
                            if self.wheel == Wheel::Up {
                                -3isize
                            } else {
                                3isize
                            },
                        ),
                    ),
                ]
            },
        }
    }

    /// Everything that the mouse input of a frame leads to.
    pub open spec fn outcomes(self, mods: Mods, tracking: bool) -> Seq<Outcome> {
        self.button_events(BUTTON_COUNT as nat, mods) + self.motion_event(mods)
            + self.wheel_events(mods, tracking)
    }
}

/// Lists what the mouse input of a frame leads to; `tracking` tells whether the
/// application tracks the mouse.
pub fn handle_mouse(state: &MouseState, mods: Mods, tracking: bool) -> (out: Vec<Outcome>)
    ensures
        out@ == state.outcomes(mods, tracking),
{
    let mut out: Vec<Outcome> = Vec::new();
    let buttons = all_buttons();
    let mut i: usize = 0;
    assert(out@ =~= state.button_events(0, mods));
    while i < BUTTON_COUNT
        invariant
            i <= BUTTON_COUNT,
            forall|k: int| 0 <= k < BUTTON_COUNT ==> #[trigger] buttons@[k] == polled(k),
            out@ == state.button_events(i as nat, mods),
        decreases BUTTON_COUNT - i,
    {
        let ghost before = out@;
        assert(buttons@[i as int] == polled(i as int));
        if state.pressed[i] {
            let event = Event { action: Action::Press, button: Some(buttons[i]), mods };
            out.push(Outcome::Send(event));
        } else if state.released[i] {
            let event = Event { action: Action::Release, button: Some(buttons[i]), mods };
            out.push(Outcome::Send(event));
        }
        assert(out@ =~= before + state.button_event(i as int, mods));
        i = i + 1;
    }
    let ghost buttons_done = out@;
    if state.moved {
        let button: Option<Button> = if state.left_down {
            Some(Button::Left)
        } else if state.right_down {
            Some(Button::Right)
        } else if state.middle_down {
            Some(Button::Middle)
        } else {
            None
        };
        out.push(Outcome::Send(Event { action: Action::Motion, button, mods }));
    }
    assert(out@ =~= buttons_done + state.motion_event(mods));
    let ghost motion_done = out@;
    let up: bool = match state.wheel {
        Wheel::Up => true,
        _ => false,
    };
    match state.wheel {
        Wheel::Still => {},
        _ => {
            if tracking {
                let button: Option<Button> = Some(
                    if up {
                        Button::Four
                    } else {
                        Button::Five
                    },
                );
                out.push(Outcome::Send(Event { action: Action::Press, button, mods }));
                out.push(Outcome::Send(Event { action: Action::Release, button, mods }));
            } else {
                let delta: isize = if up {
                    -3
                } else {
                    3
                };
                out.push(Outcome::Scroll(ScrollViewport::Delta(delta)));
            }
        },
    }
    assert(out@ =~= motion_done + state.wheel_events(mods, tracking));
    out
}

/// While the application tracks the mouse the viewport never scrolls by it.
pub proof fn law_tracking_keeps_the_viewport(state: MouseState, mods: Mods)
    ensures
        forall|i: int|
            0 <= i < state.outcomes(mods, true).len() ==> (#[trigger] state.outcomes(
                mods,
                true,
            )[i]) is Send,
{
    lemma_buttons_are_sent(state, mods, BUTTON_COUNT as nat);
}

proof fn lemma_buttons_are_sent(state: MouseState, mods: Mods, n: nat)
    ensures
        forall|i: int|
            0 <= i < state.button_events(n, mods).len() ==> (#[trigger] state.button_events(
                n,
                mods,
            )[i]) is Send,
    decreases n,
{
    if n > 0 {
        lemma_buttons_are_sent(state, mods, (n - 1) as nat);
    }
}

proof fn lemma_clicks_are_joined(
    state: MouseState,
    mods: Mods,
    n: nat,
    clicks: Seq<Seq<Outcome>>,
)
    requires
        clicks.len() == n,
        forall|i: int| 0 <= i < n ==> #[trigger] clicks[i] == state.button_event(i, mods),
    ensures
        state.button_events(n, mods) == clicks.flatten_alt(),
    decreases n,
{
    if n > 0 {
        lemma_clicks_are_joined(state, mods, (n - 1) as nat, clicks.drop_last());
        assert(clicks[n - 1] == clicks.last());
    }
}

/// The buttons are polled in one fixed order.
pub proof fn law_buttons_are_polled_in_one_order(buttons: [Button; 7])
    requires
        call_ensures(all_buttons, (), buttons),
    ensures
        buttons@ == seq![
            Button::Left,
            Button::Right,
            Button::Middle,
            Button::Four,
            Button::Five,
            Button::Six,
            Button::Seven,
        ],
{
    assert(buttons@ =~= seq![
        Button::Left,
        Button::Right,
        Button::Middle,
        Button::Four,
        Button::Five,
        Button::Six,
        Button::Seven,
    ]);
}

/// Every button that went down or came up makes one event, a press before a
/// release, in the polling order. Motion comes behind them, with the button that is
/// held: the left before the right before the middle one. The wheel comes last:
/// upwards it is button four, downwards button five, pressed and released, while
/// the application tracks the mouse; otherwise it scrolls three rows up or down.
/// Every event carries exactly the modifiers that are held.
pub proof fn law_mouse_input_is_told_in_order(
    state: &MouseState,
    mods: Mods,
    tracking: bool,
    buttons: [Button; 7],
    out: Vec<Outcome>,
)
    requires
        call_ensures(handle_mouse, (state, mods, tracking), out),
        call_ensures(all_buttons, (), buttons),
    ensures
        ({
            let clicks = Seq::new(
                7,
                |i: int|
                    if state.pressed@[i] || state.released@[i] {
                        seq![
                            Outcome::Send(
                                Event {
                                    action: if state.pressed@[i] {
                                        Action::Press
                                    } else {
                                        Action::Release
                                    },
                                    button: Some(buttons@[i]),
                                    mods,
                                },
                            ),
                        ]
                    } else {
                        Seq::empty()
                    },
            ).flatten();
            let motion = if state.moved {
                seq![
                    Outcome::Send(
                        Event {
                            action: Action::Motion,
                            button: if state.left_down {
                                Some(Button::Left)
                            } else if state.right_down {
                                Some(Button::Right)
                            } else if state.middle_down {
                                Some(Button::Middle)
                            } else {
                                None
                            },
                            mods,
                        },
                    ),
                ]
            } else {
                Seq::empty()
            };
            let turned = Some(
                if state.wheel == Wheel::Up {
                    Button::Four
                } else {
                    Button::Five
                },
            );
            let wheel = if state.wheel == Wheel::Still {
                Seq::empty()
            } else if tracking {
                seq![
                    Outcome::Send(Event { action: Action::Press, button: turned, mods }),
                    Outcome::Send(Event { action: Action::Release, button: turned, mods }),
                ]
            } else if state.wheel == Wheel::Up {
                seq![Outcome::Scroll(ScrollViewport::Delta(-3isize))]
            } else {
                seq![Outcome::Scroll(ScrollViewport::Delta(3isize))]
            };
            out@ == clicks + motion + wheel
        }),
{
    let clicks = Seq::new(
        7,
        |i: int|
            if state.pressed@[i] || state.released@[i] {
                seq![
                    Outcome::Send(
                        Event {
                            action: if state.pressed@[i] {
                                Action::Press
                            } else {
                                Action::Release
                            },
                            button: Some(buttons@[i]),
                            mods,
                        },
                    ),
                ]
            } else {
                Seq::empty()
            },
    );
    assert forall|i: int| 0 <= i < 7 implies #[trigger] clicks[i] == state.button_event(i, mods) by {
        assert(buttons@[i] == polled(i));
    }
    lemma_clicks_are_joined(*state, mods, 7, clicks);
    clicks.lemma_flatten_and_flatten_alt_are_equivalent();
}

/// The encoder is told the sizes of the frame, the same padding on every side, and
/// that motion is dragging exactly where one of the first three buttons is held.
pub proof fn law_encoders_are_told_the_geometry(
    state: &MouseState,
    screen_width: u32,
    screen_height: u32,
    cell_width: u32,
    cell_height: u32,
    pad: u32,
    o: EncoderOptions,
)
    requires
        call_ensures(
            encoder_options,
            (state, screen_width, screen_height, cell_width, cell_height, pad),
            o,
        ),
    ensures
        o.size.screen_width == screen_width,
        o.size.screen_height == screen_height,
        o.size.cell_width == cell_width,
        o.size.cell_height == cell_height,
        o.size.padding_top == pad,
        o.size.padding_bottom == pad,
        o.size.padding_left == pad,
        o.size.padding_right == pad,
        o.any_button_pressed <==> state.left_down || state.right_down || state.middle_down,
        o.track_last_cell,
{
}

/// The mouse is tracked exactly where one of the four modes is on; a mode that the
/// engine cannot tell counts as off.
pub proof fn law_any_tracking_mode_is_enough(modes: &[Option<bool>], asked: [Mode; 4], b: bool)
    requires
        call_ensures(is_mouse_tracking_enabled, (modes,), b),
        call_ensures(tracking_modes, (), asked),
    ensures
        b <==> modes@.contains(Some(true)),
        asked@[0] == Mode::X10Mouse,
        asked@[1] == Mode::NormalMouse,
        asked@[2] == Mode::ButtonMouse,
        asked@[3] == Mode::AnyMouse,
{
    if b {
        let i = choose|i: int| 0 <= i < modes@.len() && #[trigger] modes@[i] == Some(true);
        assert(modes@.contains(modes@[i]));
    }
}

/// What is set in an event is what is got from it, and setting one thing leaves the
/// others alone.
pub proof fn law_events_give_back_what_is_set(
    e: &mut Event,
    action: Action,
    f: &mut Event,
    button: Button,
    g: &mut Event,
    h: &mut Event,
    mods: Mods,
)
    requires
        call_ensures(Event::set_action, (e, action), ()),
        call_ensures(Event::set_button, (f, button), ()),
        call_ensures(Event::clear_button, (g,), ()),
        call_ensures(Event::set_mods, (h, mods), ()),
    ensures
        final(e).action == action && final(e).button == old(e).button && final(e).mods
            == old(e).mods,
        final(f).action == old(f).action && final(f).button == Some(button) && final(f).mods
            == old(f).mods,
        final(g).action == old(g).action && final(g).button is None && final(g).mods
            == old(g).mods,
        final(h).action == old(h).action && final(h).button == old(h).button && final(h).mods
            == mods,
        forall|a: Action| #[trigger]
            call_ensures(Event::get_action, (final(e),), a) ==> a == action,
        forall|b: Option<Button>| #[trigger]
            call_ensures(Event::get_button, (final(f),), b) ==> b == Some(button),
        forall|b: Option<Button>| #[trigger]
            call_ensures(Event::get_button, (final(g),), b) ==> b is None,
        forall|m: Mods| #[trigger] call_ensures(Event::get_mods, (final(h),), m) ==> m == mods,
{
}

} // verus!
