//! Drawing, keyboard, mouse and scrollbar.
use ghostty::draw::{
    backdrop_of, optional_color, render_terminal, window_background, Backdrop, Cell, CellStyle,
    Color, Colors, ContentTag, DrawOp, Frame, Geometry, Rgb, Thumb,
};
use ghostty::input::{encoded_len, handle_input, typed_text, KeyState};
use ghostty::key::{
    all_keys, held_mods, Action, Encoder, Event, HeldKeys, Key, KittyKeyFlags, Mods, OptionAsAlt,
    TerminalKeyState, KEY_COUNT,
};
use ghostty::mouse::Action as Mouse;
use ghostty::mouse::{
    encoder_options, handle_mouse, is_mouse_tracking_enabled, tracking_modes, Button, MouseState,
    Outcome, Wheel,
};
use ghostty::scrollbar::{grab_left, handle_scrollbar, thumb_height, Grip, Scrollbar};
use ghostty::status::{Error, ResultCode};
use ghostty::terminal::{Mode, ScrollViewport};

const FG: Rgb = Rgb { r: 200, g: 201, b: 202 };
const BG: Rgb = Rgb { r: 10, g: 11, b: 12 };
const RED: Rgb = Rgb { r: 255, g: 0, b: 0 };
const BLUE: Rgb = Rgb { r: 0, g: 0, b: 255 };

fn colors() -> Colors {
    let mut palette = [BG; 256];
    palette[4] = BLUE;
    Colors { background: BG, foreground: FG, cursor: None, palette }
}

fn opaque(c: Rgb) -> Color {
    Color { r: c.r, g: c.g, b: c.b, a: 255 }
}

fn geometry() -> Geometry {
    Geometry { cell_width: 8, cell_height: 16, font_size: 16 }
}

fn plain() -> CellStyle {
    CellStyle { inverse: false, bold: false, italic: false }
}

fn cell(text: &[char]) -> Cell {
    let mut codepoints = ['\0'; 16];
    for (slot, c) in codepoints.iter_mut().zip(text) {
        *slot = *c;
    }
    Cell {
        grapheme_len: text.len(),
        codepoints,
        fg: None,
        bg: None,
        style: plain(),
        backdrop: Backdrop::Absent,
    }
}

fn frame(rows: Vec<Option<Vec<Cell>>>) -> Frame {
    Frame {
        colors: Some(colors()),
        rows: Some(rows),
        failed: false,
        cursor_visible: false,
        cursor: None,
        thumb: None,
    }
}

fn shown(ops: &[DrawOp]) -> Vec<String> {
    ops.iter()
        .map(|op| match op {
            DrawOp::Rect { x, y, width, height, color } => {
                format!("rect {x},{y} {width}x{height} {},{},{},{}", color.r, color.g, color.b, color.a)
            }
            DrawOp::Text { text, x, y, color } => {
                format!("text {text} {x},{y} {},{},{},{}", color.r, color.g, color.b, color.a)
            }
            DrawOp::CleanRow { row } => format!("clean {row}"),
            DrawOp::CleanFrame => String::from("clean"),
        })
        .collect()
}

#[test]
fn plain_cells_are_drawn_in_columns() {
    let ops = render_terminal(&frame(vec![Some(vec![cell(&['a']), cell(&[]), cell(&['b'])])]), &geometry());
    assert_eq!(
        shown(&ops),
        ["text a 4,4 200,201,202,255", "text b 20,4 200,201,202,255", "clean 0", "clean"]
    );
}

#[test]
fn empty_cells_show_their_backdrop() {
    let mut palette = cell(&[]);
    palette.backdrop = Backdrop::Palette(4);
    let mut direct = cell(&[]);
    direct.backdrop = Backdrop::Direct(RED);
    let ops = render_terminal(&frame(vec![Some(vec![palette, direct])]), &geometry());
    assert_eq!(
        shown(&ops),
        ["rect 4,4 8x16 0,0,255,255", "rect 12,4 8x16 255,0,0,255", "clean 0", "clean"]
    );
}

#[test]
fn backdrops_follow_the_content_tag() {
    let palette = Some(ContentTag::BgColorPalette);
    let direct = Some(ContentTag::BgColorRgb);
    assert_eq!(backdrop_of(palette, Some(4), Some(RED)), Backdrop::Palette(4));
    assert_eq!(backdrop_of(palette, None, Some(RED)), Backdrop::Absent);
    assert_eq!(backdrop_of(direct, Some(4), Some(RED)), Backdrop::Direct(RED));
    assert_eq!(backdrop_of(direct, Some(4), None), Backdrop::Absent);
    assert_eq!(backdrop_of(Some(ContentTag::Other), Some(4), Some(RED)), Backdrop::Absent);
    assert_eq!(backdrop_of(None, Some(4), Some(RED)), Backdrop::Absent);
}

#[test]
fn invalid_values_mean_no_color() {
    assert_eq!(optional_color(ResultCode::Success, RED), Ok(Some(RED)));
    assert_eq!(optional_color(ResultCode::InvalidValue, RED), Ok(None));
    assert_eq!(optional_color(ResultCode::OutOfMemory, RED), Err(Error::OutOfMemory));
    assert_eq!(optional_color(ResultCode::OutOfSpace, RED), Err(Error::OutOfSpace { required: 0 }));
    assert_eq!(optional_color(ResultCode::Unknown, RED), Err(Error::InvalidValue));
}

#[test]
fn styles_change_colors_and_offsets() {
    let mut inverse = cell(&['i']);
    inverse.style.inverse = true;
    let mut fancy = cell(&['f']);
    fancy.bg = Some(RED);
    fancy.fg = Some(BLUE);
    fancy.style = CellStyle { inverse: false, bold: true, italic: true };
    let ops = render_terminal(&frame(vec![Some(vec![inverse, fancy])]), &geometry());
    assert_eq!(
        shown(&ops),
        [
            "rect 4,4 8x16 200,201,202,255",
            "text i 4,4 10,11,12,255",
            "rect 12,4 8x16 255,0,0,255",
            "text f 14,4 0,0,255,255",
            "text f 15,4 0,0,255,255",
            "clean 0",
            "clean",
        ]
    );
}

#[test]
fn inverting_uses_the_cells_own_colors() {
    let mut c = cell(&['c']);
    c.fg = Some(BLUE);
    c.style.inverse = true;
    let ops = render_terminal(&frame(vec![Some(vec![c])]), &geometry());
    assert_eq!(
        shown(&ops),
        ["rect 4,4 8x16 0,0,255,255", "text c 4,4 10,11,12,255", "clean 0", "clean"]
    );
}

#[test]
fn unreadable_rows_take_no_space() {
    let ops = render_terminal(
        &frame(vec![Some(vec![cell(&['a'])]), None, Some(vec![cell(&['b'])])]),
        &geometry(),
    );
    assert_eq!(
        shown(&ops),
        [
            "text a 4,4 200,201,202,255",
            "clean 0",
            "text b 4,20 200,201,202,255",
            "clean 2",
            "clean",
        ]
    );
}

#[test]
fn cursor_and_thumb_lie_on_top() {
    let mut f = frame(vec![]);
    f.cursor_visible = true;
    f.cursor = Some((2, 3));
    f.thumb = Some(Thumb { screen_width: 800, y: 30, height: 40 });
    assert_eq!(
        shown(&render_terminal(&f, &geometry())),
        ["rect 20,52 8x16 200,201,202,128", "rect 792,30 6x40 200,200,200,128", "clean"]
    );
    f.colors = Some(Colors { cursor: Some(RED), ..colors() });
    f.thumb = None;
    assert_eq!(shown(&render_terminal(&f, &geometry())), ["rect 20,52 8x16 255,0,0,128", "clean"]);
    f.cursor_visible = false;
    assert_eq!(shown(&render_terminal(&f, &geometry())), ["clean"]);
}

#[test]
fn unreadable_frames_are_left_alone() {
    let mut f = frame(vec![Some(vec![cell(&['a'])])]);
    f.cursor_visible = true;
    f.cursor = Some((2, 3));
    f.thumb = Some(Thumb { screen_width: 800, y: 30, height: 40 });
    f.colors = None;
    assert!(render_terminal(&f, &geometry()).is_empty());
    f.colors = Some(colors());
    f.rows = None;
    assert!(render_terminal(&f, &geometry()).is_empty());
    f.rows = Some(Vec::new());
    assert_eq!(render_terminal(&f, &geometry()).len(), 3);
}

#[test]
fn a_failed_grid_is_drawn_as_far_as_it_was_read() {
    let mut f = frame(vec![Some(vec![cell(&['a'])])]);
    f.failed = true;
    f.cursor_visible = true;
    f.cursor = Some((0, 0));
    assert_eq!(shown(&render_terminal(&f, &geometry())), ["text a 4,4 200,201,202,255"]);
    f.rows = Some(vec![Some(vec![cell(&['a'])]), None, Some(vec![cell(&['b'])])]);
    assert_eq!(
        shown(&render_terminal(&f, &geometry())),
        ["text a 4,4 200,201,202,255", "clean 0", "text b 4,20 200,201,202,255"]
    );
}

#[test]
fn cell_text_is_clipped() {
    let wide = ['\u{1f600}'; 16];
    let ops = render_terminal(&frame(vec![Some(vec![cell(&wide)])]), &geometry());
    match &ops[0] {
        DrawOp::Text { text, .. } => assert_eq!(text.chars().count(), 15),
        _ => panic!(),
    }
    let narrow = ['e'; 16];
    let mut long = cell(&narrow);
    long.grapheme_len = 40;
    let ops = render_terminal(&frame(vec![Some(vec![long])]), &geometry());
    match &ops[0] {
        DrawOp::Text { text, .. } => assert_eq!(text, "eeeeeeeeeeeeeeee"),
        _ => panic!(),
    }
    let mut mixed = ['\u{1f600}'; 16];
    mixed[0] = 'a';
    let ops = render_terminal(&frame(vec![Some(vec![cell(&mixed)])]), &geometry());
    match &ops[0] {
        DrawOp::Text { text, .. } => {
            assert_eq!(text.len(), 61);
            assert_eq!(text.chars().count(), 16);
        }
        _ => panic!(),
    }
}

#[test]
fn window_background_is_opaque() {
    assert_eq!(window_background(&colors()), opaque(BG));
}

#[test]
fn typed_text_is_collected() {
    assert_eq!(typed_text(&[]), b"");
    assert_eq!(typed_text(&['a', '\u{e9}']), "a\u{e9}".as_bytes());
    let full: Vec<char> = vec!['x'; 63];
    assert_eq!(typed_text(&full), "x".repeat(63).as_bytes());
    let exact: Vec<char> = vec!['x'; 64];
    let mut expected = "x".repeat(63).into_bytes();
    expected.push(0);
    assert_eq!(typed_text(&exact), expected);
    let mut wide: Vec<char> = vec!['x'; 61];
    wide.push('\u{20ac}');
    let mut expected = "x".repeat(61).into_bytes();
    expected.extend_from_slice(&[0, 0, 0]);
    assert_eq!(typed_text(&wide), expected);
}

fn state(key: Key, pressed: bool, repeated: bool, released: bool) -> KeyState {
    KeyState { key, pressed, repeated, released }
}

#[test]
fn keys_become_events() {
    let mut mods = Mods::empty();
    mods.shift = true;
    let states = [
        state(Key::Q, false, false, false),
        state(Key::Enter, true, false, true),
        state(Key::A, true, true, false),
        state(Key::F1, false, true, false),
    ];
    let events = handle_input(&states, mods, b"A".to_vec());
    assert_eq!(events.len(), 3);
    assert_eq!((events[0].get_key(), events[0].get_action()), (Key::Enter, Action::Release));
    assert_eq!(events[0].utf8(), &None);
    assert_eq!(events[0].get_consumed_mods(), Mods::empty());
    assert_eq!(events[0].get_unshifted_codepoint(), 0);
    assert_eq!((events[1].get_key(), events[1].get_action()), (Key::A, Action::Press));
    assert_eq!(events[1].utf8(), &Some(b"A".to_vec()));
    assert_eq!(events[1].get_consumed_mods(), mods);
    assert_eq!(events[1].get_unshifted_codepoint(), 'a' as u32);
    assert_eq!(events[1].get_mods(), mods);
    assert!(!events[1].get_composing());
    assert_eq!((events[2].get_key(), events[2].get_action()), (Key::F1, Action::Repeat));
    assert_eq!(events[2].utf8(), &None);
    assert!(handle_input(&[state(Key::A, false, false, false)], mods, b"x".to_vec()).is_empty());
}

#[test]
fn events_hold_what_was_set() {
    let mut e = Event::new(Key::A, Action::Press);
    e.set_key(Key::B);
    e.set_action(Action::Repeat);
    e.set_composing(true);
    e.set_unshifted_codepoint(98);
    let mut m = Mods::empty();
    m.ctrl = true;
    e.set_mods(m);
    e.set_consumed_mods(Mods::empty());
    e.set_utf8(Some(b"b".to_vec()));
    assert_eq!((e.get_key(), e.get_action(), e.get_composing()), (Key::B, Action::Repeat, true));
    assert_eq!((e.get_mods(), e.get_consumed_mods()), (m, Mods::empty()));
    assert_eq!(e.get_unshifted_codepoint(), 98);
    e.set_utf8(None);
    assert_eq!(e.utf8(), &None);
}

#[test]
fn only_written_bytes_are_sent() {
    assert_eq!(encoded_len(Ok(3)), Some(3));
    assert_eq!(encoded_len(Ok(0)), None);
    assert_eq!(encoded_len(Err(Error::OutOfMemory)), None);
}

#[test]
fn keys_are_polled_in_order() {
    let keys = all_keys();
    assert_eq!(keys.len(), KEY_COUNT);
    assert_eq!(keys[0], Key::A);
    assert_eq!(keys[25], Key::Z);
    assert_eq!(keys[26], Key::Digit0);
    assert_eq!(keys[36], Key::Space);
    assert_eq!(keys[37], Key::Enter);
    assert_eq!(keys[73], Key::F12);
    for (i, a) in keys.iter().enumerate() {
        for b in &keys[i + 1..] {
            assert_ne!(a, b);
        }
    }
    assert_eq!(Key::Backslash.unshifted_codepoint(), '\\');
    assert_eq!(Key::Quote.unshifted_codepoint(), '\'');
    assert_eq!(Key::Digit7.unshifted_codepoint(), '7');
    assert_eq!(Key::ArrowUp.unshifted_codepoint(), '\0');
}

#[test]
fn modifiers_are_sets() {
    let held = HeldKeys {
        left_shift: false,
        right_shift: true,
        left_control: false,
        right_control: false,
        left_alt: true,
        right_alt: true,
        left_super: false,
        right_super: false,
    };
    let m = held_mods(held);
    assert!(m.shift && m.alt && !m.ctrl && !m.super_key && !m.shift_side);
    let mut ctrl = Mods::empty();
    ctrl.ctrl = true;
    assert!(m.union(ctrl).contains(ctrl));
    assert!(m.union(ctrl).contains(m));
    assert!(!m.contains(ctrl));
    assert!(m.contains(Mods::empty()));
    assert_eq!(m.union(ctrl), ctrl.union(m));
}

#[test]
fn kitty_flags_keep_unknown_bits() {
    let f = KittyKeyFlags::from_bits_retain(0b1010_0001);
    assert_eq!(f.bits(), 0b1010_0001);
    let g = f.union(KittyKeyFlags::from_bits_retain(0b10));
    assert_eq!(g.bits(), 0b1010_0011);
    assert!(g.contains(f));
    assert!(!f.contains(g));
}

#[test]
fn refused_events_can_be_encoded_again() {
    let encoder = Encoder::new(ResultCode::Success, Some('e')).unwrap_or_else(|_| panic!());
    let mut encoder = encoder.with_alt_esc_prefix(true);
    let required = match encoder.encode(ResultCode::OutOfSpace, 7) {
        Err(Error::OutOfSpace { required }) => required,
        _ => panic!(),
    };
    assert_eq!(required, 7);
    assert_eq!(encoder.encode(ResultCode::Success, 6), Ok(6));
    assert_eq!(encoder.encode(ResultCode::Success, 0), Ok(0));
    let (handle, options) = encoder.parts();
    assert_eq!((*handle, options.alt_esc_prefix), ('e', Some(true)));
}

#[test]
fn encoder_settings_follow_the_calls() {
    let encoder = Encoder::new(ResultCode::Success, Some('e')).unwrap_or_else(|_| panic!());
    assert!(matches!(Encoder::<u8>::new(ResultCode::Success, None), Err(Error::OutOfMemory)));
    let encoder = encoder
        .with_cursor_key_application(false)
        .with_keypad_key_application(false)
        .with_ignore_keypad_with_numlock(true)
        .with_alt_esc_prefix(true)
        .with_modify_other_keys_state_2(false)
        .with_kitty_flags(KittyKeyFlags::from_bits_retain(1))
        .with_macos_option_as_alt(OptionAsAlt::Left);
    let (handle, options) = encoder.parts();
    assert_eq!(*handle, 'e');
    assert_eq!(options.macos_option_as_alt, Some(OptionAsAlt::Left));
    assert_eq!(options.alt_esc_prefix, Some(true));
    let mut encoder = encoder.with_options_from_terminal(TerminalKeyState {
        cursor_key_application: true,
        keypad_key_application: true,
        alt_esc_prefix: false,
        modify_other_keys_state_2: true,
        kitty_flags: KittyKeyFlags::from_bits_retain(7),
    });
    let (_, options) = encoder.parts();
    assert_eq!(options.cursor_key_application, Some(true));
    assert_eq!(options.keypad_key_application, Some(true));
    assert_eq!(options.ignore_keypad_with_numlock, Some(true));
    assert_eq!(options.alt_esc_prefix, Some(false));
    assert_eq!(options.modify_other_keys_state_2, Some(true));
    assert_eq!(options.kitty_flags.map(|f| f.bits()), Some(7));
    assert_eq!(options.macos_option_as_alt, Some(OptionAsAlt::False));
    assert_eq!(encoder.encode(ResultCode::Success, 4), Ok(4));
    assert_eq!(encoder.encode(ResultCode::OutOfSpace, 40), Err(Error::OutOfSpace { required: 40 }));
}

fn still() -> MouseState {
    MouseState {
        pressed: [false; 7],
        released: [false; 7],
        left_down: false,
        right_down: false,
        middle_down: false,
        moved: false,
        wheel: Wheel::Still,
    }
}

fn sent(outcomes: &[Outcome]) -> Vec<(ghostty::mouse::Action, Option<Button>)> {
    outcomes
        .iter()
        .map(|o| match o {
            Outcome::Send(e) => (e.action, e.button),
            Outcome::Scroll(_) => panic!(),
        })
        .collect()
}

#[test]
fn buttons_are_reported_in_polling_order() {
    let mut s = still();
    s.pressed[3] = true;
    s.released[3] = true;
    s.released[0] = true;
    s.moved = true;
    s.middle_down = true;
    let out = handle_mouse(&s, Mods::empty(), false);
    assert_eq!(
        sent(&out),
        [
            (Mouse::Release, Some(Button::Left)),
            (Mouse::Press, Some(Button::Four)),
            (Mouse::Motion, Some(Button::Middle)),
        ]
    );
    s = still();
    s.moved = true;
    assert_eq!(sent(&handle_mouse(&s, Mods::empty(), true)), [(Mouse::Motion, None)]);
    s.right_down = true;
    s.left_down = true;
    assert_eq!(sent(&handle_mouse(&s, Mods::empty(), true)), [(Mouse::Motion, Some(Button::Left))]);
}

#[test]
fn the_wheel_scrolls_or_is_forwarded() {
    let mut s = still();
    s.wheel = Wheel::Up;
    assert_eq!(
        handle_mouse(&s, Mods::empty(), false),
        vec![Outcome::Scroll(ScrollViewport::Delta(-3))]
    );
    assert_eq!(
        sent(&handle_mouse(&s, Mods::empty(), true)),
        [(Mouse::Press, Some(Button::Four)), (Mouse::Release, Some(Button::Four))]
    );
    s.wheel = Wheel::Down;
    assert_eq!(
        handle_mouse(&s, Mods::empty(), false),
        vec![Outcome::Scroll(ScrollViewport::Delta(3))]
    );
    assert_eq!(
        sent(&handle_mouse(&s, Mods::empty(), true)),
        [(Mouse::Press, Some(Button::Five)), (Mouse::Release, Some(Button::Five))]
    );
    assert!(handle_mouse(&still(), Mods::empty(), true).is_empty());
}

#[test]
fn tracking_needs_one_mode_that_is_on() {
    assert!(!is_mouse_tracking_enabled(&[None, Some(false), None, Some(false)]));
    assert!(is_mouse_tracking_enabled(&[None, Some(false), Some(true), None]));
    assert!(!is_mouse_tracking_enabled(&[]));
}

#[test]
fn mouse_encoder_gets_the_geometry() {
    let mut s = still();
    s.right_down = true;
    let o = encoder_options(&s, 800, 600, 8, 16, 4);
    assert_eq!((o.size.screen_width, o.size.screen_height), (800, 600));
    assert_eq!((o.size.cell_width, o.size.cell_height), (8, 16));
    assert_eq!((o.size.padding_top, o.size.padding_bottom), (4, 4));
    assert_eq!((o.size.padding_left, o.size.padding_right), (4, 4));
    assert!(o.any_button_pressed && o.track_last_cell);
    assert!(!encoder_options(&still(), 1, 1, 1, 1, 1).any_button_pressed);
}

#[test]
fn dragging_the_scrollbar() {
    let bar = Some(Scrollbar { total: 100, offset: 10, len: 20 });
    let grip = |grabbed, down, released, target| Grip { grabbed, down, released, target };
    let mut dragging = false;
    assert_eq!(handle_scrollbar(&mut dragging, bar, grip(false, true, false, 50)), (false, None));
    assert_eq!(handle_scrollbar(&mut dragging, bar, grip(true, true, false, 50)), (true, Some(40)));
    assert!(dragging);
    assert_eq!(handle_scrollbar(&mut dragging, bar, grip(false, true, false, 10)), (true, None));
    assert_eq!(handle_scrollbar(&mut dragging, bar, grip(false, true, false, 0)), (true, Some(-10)));
    assert_eq!(handle_scrollbar(&mut dragging, bar, grip(false, false, true, 0)), (false, None));
    assert!(!dragging);
    dragging = true;
    let short = Some(Scrollbar { total: 20, offset: 0, len: 20 });
    assert_eq!(handle_scrollbar(&mut dragging, short, grip(true, true, false, 5)), (false, None));
    assert!(!dragging);
    dragging = true;
    assert_eq!(handle_scrollbar(&mut dragging, None, grip(true, true, false, 5)), (false, None));
    assert!(!dragging);
}

#[test]
fn scrollbar_geometry() {
    assert_eq!(grab_left(800), 784);
    assert_eq!(thumb_height(9), 10);
    assert_eq!(thumb_height(11), 11);
    let bar = Scrollbar { total: 100, offset: 10, len: 20 };
    assert!(bar.is_scrollable());
    assert_eq!(bar.range(), 80);
    assert!(!Scrollbar { total: 20, offset: 0, len: 20 }.is_scrollable());
}

#[test]
fn mouse_events_hold_what_was_set() {
    let mut e = ghostty::mouse::Event { action: Mouse::Motion, button: None, mods: Mods::empty() };
    e.set_action(Mouse::Press);
    e.set_button(Button::Six);
    assert_eq!((e.get_action(), e.get_button()), (Mouse::Press, Some(Button::Six)));
    e.clear_button();
    assert_eq!(e.get_button(), None);
    let mut m = Mods::empty();
    m.alt = true;
    e.set_mods(m);
    assert_eq!(e.get_mods(), m);
}

#[test]
fn tracking_modes_are_the_four_mouse_modes() {
    assert_eq!(
        tracking_modes(),
        [Mode::X10Mouse, Mode::NormalMouse, Mode::ButtonMouse, Mode::AnyMouse]
    );
}

#[test]
fn frames_that_do_not_fit_are_told_apart() {
    let fitting = frame(vec![Some(vec![cell(&['a'])]), None]);
    assert!(fitting.can_be_drawn(&geometry()));
    assert!(!fitting.can_be_drawn(&Geometry { cell_width: 0, ..geometry() }));
    assert!(!fitting.can_be_drawn(&Geometry { font_size: -1, ..geometry() }));
    assert!(fitting.can_be_drawn(&Geometry { font_size: i32::MAX, ..geometry() }));
    let mut leaning = cell(&['a']);
    leaning.style.italic = true;
    let slanted = frame(vec![Some(vec![cell(&[]), leaning])]);
    let wide = Geometry { cell_width: i32::MAX - 4 - 2, ..geometry() };
    assert!(slanted.can_be_drawn(&wide));
    assert!(!slanted.can_be_drawn(&Geometry { font_size: 18, ..wide }));
    let mut heavy = cell(&['a']);
    heavy.style = CellStyle { inverse: false, bold: true, italic: true };
    assert!(!frame(vec![Some(vec![cell(&[]), heavy])]).can_be_drawn(&wide));
    let tall = Geometry { cell_height: i32::MAX, ..geometry() };
    assert!(fitting.can_be_drawn(&tall));
    assert!(frame(vec![None, Some(vec![cell(&['a'])])]).can_be_drawn(&tall));
    assert!(!frame(vec![Some(Vec::new()), Some(Vec::new())]).can_be_drawn(&tall));
    let mut far = frame(Vec::new());
    far.cursor = Some((u16::MAX, 0));
    let coarse = Geometry { cell_width: i32::MAX / 2, ..geometry() };
    assert!(far.can_be_drawn(&coarse));
    far.cursor_visible = true;
    assert!(far.can_be_drawn(&geometry()));
    assert!(!far.can_be_drawn(&coarse));
    far.failed = true;
    assert!(far.can_be_drawn(&coarse));
    far.failed = false;
    far.colors = None;
    assert!(far.can_be_drawn(&coarse));
    let mut left = frame(Vec::new());
    left.thumb = Some(Thumb { screen_width: i32::MIN + 8, y: 0, height: 10 });
    assert!(left.can_be_drawn(&geometry()));
    left.thumb = Some(Thumb { screen_width: i32::MIN + 7, y: 0, height: 10 });
    assert!(!left.can_be_drawn(&geometry()));
}
