//! The pty, sessions, the run of the emulator, terminals and modes.
use ghostty::pty::{
    choose_shell, nonblocking_flags, pty_read, shell_arg0, shell_command, window_size,
    PtyReadResult, PtyWrite, ReadOutcome, ReadStep, WindowSize, WriteOutcome,
};
use ghostty::run::{Action, Event, Phase, Run};
use ghostty::scrollbar::{Grip, Scrollbar};
use ghostty::session::{
    banner, cell_extent, grid_cells, Cleanup, FocusEvent, Resize, Session, WaitOutcome,
};
use ghostty::draw::DrawOp;
use ghostty::status::{Error, ResultCode};
use ghostty::terminal::{
    text_answer, value_answer, Effect, Mode, ModeKind, Options, ScrollTag, ScrollViewport, Terminal,
};

#[test]
fn shells_are_chosen_in_order() {
    let path = |s: &str| Some(s.as_bytes().to_vec());
    assert_eq!(choose_shell(path("/bin/zsh"), path("/bin/bash")), b"/bin/zsh");
    assert_eq!(choose_shell(path(""), path("/bin/bash")), b"/bin/bash");
    assert_eq!(choose_shell(None, path("/bin/bash")), b"/bin/bash");
    assert_eq!(choose_shell(None, None), b"/bin/sh");
    assert_eq!(choose_shell(path(""), None), b"/bin/sh");
}

#[test]
fn shells_are_called_by_their_file() {
    let called = |path: &str| String::from_utf8(shell_arg0(path.as_bytes())).unwrap();
    assert_eq!(called("/bin/zsh"), "zsh");
    assert_eq!(called("fish"), "fish");
    assert_eq!(called("/bin/"), "bin");
    assert_eq!(called("/opt/sh/."), "sh");
    assert_eq!(called("/opt/sh/.//./"), "sh");
    assert_eq!(called("/opt/.sh"), ".sh");
    assert_eq!(called("/opt/sh."), "sh.");
    assert_eq!(called("/opt/..."), "...");
    assert_eq!(called("/opt/.."), "/opt/..");
    for whole in ["", "/", "//", "/.", ".", "./", "..", "../"] {
        assert_eq!(called(whole), whole);
    }
    for path in ["/bin/zsh", "/bin/", "a/./b/.", "/", ".", "./.", "..", "x/..", "", "a//b//"] {
        let p = std::path::Path::new(path);
        let expected = p.file_name().unwrap_or(p.as_os_str());
        assert_eq!(called(path), expected.to_str().unwrap());
    }
}

#[test]
fn shells_are_started_with_name_and_terminal() {
    let path = |s: &str| Some(s.as_bytes().to_vec());
    let command = shell_command(path("/usr/bin/fish"), path("/bin/bash"));
    assert_eq!(command.program, b"/usr/bin/fish");
    assert_eq!(command.arg0, b"fish");
    assert_eq!(command.term, "xterm-256color");
    let command = shell_command(path(""), None);
    assert_eq!(command.program, b"/bin/sh");
    assert_eq!(command.arg0, b"sh");
}

#[test]
fn window_sizes_have_no_pixels() {
    assert_eq!(window_size(80, 24), WindowSize { rows: 24, cols: 80, xpixel: 0, ypixel: 0 });
}

#[test]
fn nonblocking_flag_is_added() {
    assert_eq!(nonblocking_flags(0o2, 0o4000), 0o4002);
    assert_eq!(nonblocking_flags(0o4002, 0o4000), 0o4002);
    assert_eq!(nonblocking_flags(-1, 0o4000), -1);
}

#[test]
fn reads_are_sorted_out() {
    assert_eq!(pty_read(ReadOutcome::Bytes(0)), ReadStep::Done(PtyReadResult::Eof));
    assert_eq!(pty_read(ReadOutcome::Bytes(7)), ReadStep::Feed(7));
    assert_eq!(pty_read(ReadOutcome::WouldBlock), ReadStep::Done(PtyReadResult::Drained));
    assert_eq!(pty_read(ReadOutcome::Interrupted), ReadStep::Retry);
    assert_eq!(pty_read(ReadOutcome::Io), ReadStep::Done(PtyReadResult::Eof));
    assert_eq!(pty_read(ReadOutcome::Other), ReadStep::Done(PtyReadResult::Error));
}

fn deliver(data: &[u8], outcomes: &[WriteOutcome]) -> Vec<u8> {
    let mut write = PtyWrite::new(data);
    let mut sent = Vec::new();
    for outcome in outcomes {
        let Some(rest) = write.remaining() else {
            break;
        };
        if let WriteOutcome::Bytes(n) = outcome {
            sent.extend_from_slice(&rest[..*n]);
        }
        write.advance(*outcome);
    }
    assert!(write.remaining().is_none());
    sent
}

#[test]
fn writes_continue_and_drop() {
    assert_eq!(deliver(b"hello", &[WriteOutcome::Bytes(2), WriteOutcome::Interrupted, WriteOutcome::Bytes(3)]), b"hello");
    assert_eq!(deliver(b"hello", &[WriteOutcome::Bytes(2), WriteOutcome::Failed]), b"he");
    assert_eq!(deliver(b"", &[]), b"");
}

#[test]
fn grids_fit_their_windows() {
    assert_eq!(grid_cells(800, 10), 79);
    assert_eq!(grid_cells(8, 10), 1);
    assert_eq!(grid_cells(0, 10), 1);
    assert_eq!(grid_cells(-100, 10), 1);
    assert_eq!(grid_cells(28, 10), 2);
    assert_eq!(grid_cells(65536 + 8, 1), 0);
    assert_eq!(grid_cells(65537 + 8, 1), 1);
    assert_eq!(cell_extent(0), 1);
    assert_eq!(cell_extent(-4), 1);
    assert_eq!(cell_extent(9), 9);
}

fn session() -> Session {
    Session::new(800, 600, 10, 20, true)
}

#[test]
fn sessions_follow_the_window() {
    let mut s = session();
    assert_eq!((s.state().cols, s.state().rows), (79, 29));
    assert_eq!(s.resize(false, 100, 100), None);
    assert_eq!(s.resize(true, 800, 600), None);
    let expected = Resize {
        cols: 9,
        rows: 4,
        cell_width: 10,
        cell_height: 20,
        window: WindowSize { rows: 4, cols: 9, xpixel: 0, ypixel: 0 },
    };
    assert_eq!(s.resize(true, 100, 100), Some(expected));
    assert_eq!(s.resize(true, 100, 100), None);
    let report = s.size_report();
    assert_eq!((report.columns, report.rows), (9, 4));
    assert_eq!((report.cell_width, report.cell_height), (10, 20));
}

#[test]
fn focus_is_reported_on_request() {
    let mut s = session();
    assert_eq!(s.focus(true, true), None);
    assert_eq!(s.focus(false, false), None);
    assert_eq!(s.focus(true, true), Some(FocusEvent::Gained));
    assert_eq!(s.focus(false, true), Some(FocusEvent::Lost));
    s.drained(PtyReadResult::Eof);
    assert_eq!(s.focus(true, true), None);
}

#[test]
fn exits_are_shown() {
    let mut s = session();
    assert_eq!(s.exit_message(), None);
    assert!(s.serves_child());
    assert_eq!(s.cleanup(), Cleanup { hang_up: true, wait: true });
    s.drained(PtyReadResult::Drained);
    assert!(s.serves_child());
    s.drained(PtyReadResult::Error);
    assert!(!s.serves_child() && s.must_reap());
    assert_eq!(s.exit_message().as_deref(), Some("[process exited]"));
    assert_eq!(s.cleanup(), Cleanup { hang_up: false, wait: true });
    s.waited(WaitOutcome::Failed);
    assert!(s.must_reap());
    s.waited(WaitOutcome::Exited(3));
    assert!(!s.must_reap());
    assert_eq!(s.exit_message().as_deref(), Some("[process exited with status 3]"));
    assert_eq!(s.cleanup(), Cleanup { hang_up: false, wait: false });
}

#[test]
fn signals_and_other_answers() {
    let mut s = session();
    s.drained(PtyReadResult::Eof);
    s.waited(WaitOutcome::Signaled(9));
    assert_eq!(s.exit_message().as_deref(), Some("[process exited with status 137]"));
    let mut s = session();
    s.drained(PtyReadResult::Eof);
    s.waited(WaitOutcome::Other);
    assert_eq!(s.exit_message().as_deref(), Some("[process exited]"));
    assert!(!s.must_reap());
}

#[test]
fn the_banner_lies_at_the_bottom() {
    let (bar, text_y) = banner(800, 600, 16);
    match bar {
        DrawOp::Rect { x, y, width, height, color } => {
            assert_eq!((x, y, width, height), (0, 576, 800, 24));
            assert_eq!((color.r, color.g, color.b, color.a), (0, 0, 0, 180));
        }
        _ => panic!(),
    }
    assert_eq!(text_y, 580);
}

fn window(close: bool) -> Event {
    Event::Window { close, resized: false, width: 800, height: 600 }
}

fn no_scroll() -> Event {
    let grip = Grip { grabbed: false, down: false, released: false, target: 0 };
    Event::Scrollbar { scrollbar: None, grip }
}

#[test]
fn a_quiet_frame_goes_through_every_part() {
    let mut run = Run::new(session());
    assert_eq!(run.advance(window(false)), Action::CheckFocus);
    assert_eq!(run.advance(Event::Focus { focused: true, reporting: true }), Action::ReadPty);
    assert_eq!(run.advance(Event::Drained(PtyReadResult::Drained)), Action::CheckScrollbar);
    assert_eq!(run.advance(no_scroll()), Action::HandleKeys);
    assert_eq!(run.advance(Event::Done), Action::HandleMouse);
    assert_eq!(run.advance(Event::Done), Action::Draw);
    assert_eq!(run.advance(Event::Done), Action::CheckWindow);
    assert_eq!(run.advance(window(true)), Action::HangUp);
    assert_eq!(run.advance(Event::Done), Action::WaitChild);
    assert_eq!(run.advance(Event::Done), Action::Stop);
    assert_eq!(run.phase(), Phase::Ended);
}

#[test]
fn a_busy_frame_resizes_reports_and_scrolls() {
    let mut run = Run::new(session());
    let resized = Event::Window { close: false, resized: true, width: 100, height: 600 };
    match run.advance(resized) {
        Action::Resize(r) => assert_eq!((r.cols, r.rows), (9, 29)),
        _ => panic!(),
    }
    assert_eq!(run.advance(Event::Done), Action::CheckFocus);
    assert_eq!(
        run.advance(Event::Focus { focused: false, reporting: true }),
        Action::SendFocus(FocusEvent::Lost)
    );
    assert_eq!(run.advance(Event::Done), Action::ReadPty);
    assert_eq!(run.advance(Event::Drained(PtyReadResult::Drained)), Action::CheckScrollbar);
    let drag = Event::Scrollbar {
        scrollbar: Some(Scrollbar { total: 100, offset: 0, len: 20 }),
        grip: Grip { grabbed: true, down: true, released: false, target: 30 },
    };
    assert_eq!(run.advance(drag), Action::Scroll(30));
    assert_eq!(run.advance(Event::Done), Action::HandleKeys);
    assert_eq!(run.advance(Event::Done), Action::Draw, "the scrollbar keeps the mouse");
}

#[test]
fn a_dead_child_is_asked_after_and_not_served() {
    let mut run = Run::new(session());
    run.advance(window(false));
    run.advance(Event::Focus { focused: true, reporting: true });
    assert_eq!(run.advance(Event::Drained(PtyReadResult::Eof)), Action::AskChild);
    assert_eq!(run.advance(Event::Waited(WaitOutcome::Failed)), Action::CheckScrollbar);
    assert_eq!(run.advance(no_scroll()), Action::Draw);
    assert_eq!(run.advance(Event::Done), Action::CheckWindow);
    assert_eq!(run.advance(window(false)), Action::CheckFocus);
    assert_eq!(run.advance(Event::Focus { focused: false, reporting: true }), Action::AskChild);
    assert_eq!(run.advance(Event::Waited(WaitOutcome::Exited(0))), Action::CheckScrollbar);
    assert_eq!(run.session().exit_message().as_deref(), Some("[process exited with status 0]"));
    assert_eq!(run.advance(no_scroll()), Action::Draw);
    run.advance(Event::Done);
    assert_eq!(run.advance(window(true)), Action::Stop);
}

#[test]
fn modes_have_numbers_and_kinds() {
    assert_eq!((Mode::Kam.value(), Mode::Kam.kind()), (2, ModeKind::Ansi));
    assert_eq!((Mode::Insert.value(), Mode::Insert.kind()), (4, ModeKind::Ansi));
    assert_eq!((Mode::SlowScroll.value(), Mode::SlowScroll.kind()), (4, ModeKind::Dec));
    assert_eq!((Mode::Linefeed.value(), Mode::Linefeed.code()), (20, 20 | 1 << 15));
    assert_eq!((Mode::X10Mouse.value(), Mode::X10Mouse.code()), (9, 9));
    assert_eq!(Mode::BracketedPaste.value(), 2004);
    assert_eq!(Mode::InBandResize.value(), 2048);
    assert_eq!(Mode::_132Column.value(), 3);
    assert_eq!(Mode::FocusEvent.kind(), ModeKind::Dec);
}

#[test]
fn effects_keep_their_callbacks() {
    let mut t: Terminal<u8, &str, u32> =
        Terminal::new(ResultCode::Success, Some(5)).unwrap_or_else(|_| panic!());
    assert!(matches!(Terminal::<u8, u8, u8>::new(ResultCode::Success, None), Err(Error::OutOfMemory)));
    assert_eq!(*t.inner(), 5);
    let ok = ResultCode::Success;
    assert_eq!(t.on(Effect::Bell, Some("ring"), ok, ok), Ok(()));
    assert_eq!(t.on(Effect::Size, Some("size"), ok, ok), Ok(()));
    assert_eq!(t.set_userdata(42, ok), Ok(()));
    assert_eq!(t.callback(Effect::Bell), (&Some("ring"), &Some(42)));
    assert_eq!(t.callback(Effect::Enquiry).0, &None);
    assert_eq!(
        t.on(Effect::Bell, None, ResultCode::InvalidValue, ok),
        Err(Error::InvalidValue)
    );
    assert_eq!(t.callback(Effect::Bell).0, &None);
    assert_eq!(t.on(Effect::Bell, None, ok, ResultCode::OutOfMemory), Err(Error::OutOfMemory));
    assert_eq!(t.callback(Effect::Size).0, &Some("size"));
    for effect in [
        Effect::PtyWrite,
        Effect::Xtversion,
        Effect::TitleChanged,
        Effect::ColorScheme,
        Effect::DeviceAttributes,
    ] {
        assert_eq!(t.callback(effect).0, &None);
    }
}

#[test]
fn terminal_queries() {
    let t: Terminal<u8, u8, u8> = Terminal::new(ResultCode::Success, Some(5)).unwrap_or_else(|_| panic!());
    assert_eq!(t.get(ResultCode::Success, 80u16), Ok(80));
    assert_eq!(t.get(ResultCode::InvalidValue, 80u16), Err(Error::InvalidValue));
    assert_eq!(t.title(ResultCode::Success, "t\u{ef}tle".as_bytes()), Ok("t\u{ef}tle"));
    assert_eq!(t.title(ResultCode::Success, b""), Ok(""));
    assert_eq!(t.title(ResultCode::Success, b"\xc3"), Err(Error::InvalidValue));
    assert_eq!(t.pwd(ResultCode::Success, b"/tmp"), Ok("/tmp"));
    assert_eq!(t.pwd(ResultCode::OutOfMemory, b"/tmp"), Err(Error::OutOfMemory));
    assert_eq!(t.kitty_keyboard_flags(ResultCode::Success, 0xff).map(|f| f.bits()), Ok(0xff));
    let o = Options { cols: 80, rows: 24, max_scrollback: 1000 };
    assert_eq!((o.cols, o.rows, o.max_scrollback), (80, 24, 1000));
}

#[test]
fn answers_to_queries() {
    assert_eq!(text_answer(Some("ghostling-rs")), "ghostling-rs");
    assert_eq!(text_answer(None), "");
    let mut out = 1;
    assert!(value_answer(Some(7), &mut out));
    assert_eq!(out, 7);
    assert!(!value_answer(None, &mut out));
    assert_eq!(out, 7);
}

#[test]
fn scroll_requests_carry_their_own_tag() {
    let top = ScrollViewport::Top.command();
    assert_eq!((top.tag, top.delta), (ScrollTag::Top, 0));
    let bottom = ScrollViewport::Bottom.command();
    assert_eq!((bottom.tag, bottom.delta), (ScrollTag::Bottom, 0));
    let delta = ScrollViewport::Delta(-3).command();
    assert_eq!((delta.tag, delta.delta), (ScrollTag::Delta, -3));
}
