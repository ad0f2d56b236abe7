//! The loop of the terminal emulator as a state machine: it asks for one thing at
//! a time, and what came of it decides what it asks for next.
//!
//! A frame looks at the window and its focus, drains the pty, asks after a child
//! that exited, serves the scrollbar, the keyboard and the mouse, and draws. When
//! the window closes, the child is told to hang up and waited for.
use vstd::prelude::*;

use crate::pty::PtyReadResult;
use crate::scrollbar::{handle_scrollbar, Grip, Scrollbar};
use crate::session::{FocusEvent, Resize, Session, WaitOutcome};

verus! {

/// What is to be done next.
#[derive(Clone, Copy, Debug, PartialEq, Eq, Structural)]
pub enum Action {
    /// Look at the window: answered by [`Event::Window`].
    CheckWindow,
    /// Tell the terminal and the pty about the new size.
    Resize(Resize),
    /// Look at the window's focus: answered by [`Event::Focus`].
    CheckFocus,
    /// Report the focus to the application.
    SendFocus(FocusEvent),
    /// Drain the pty: answered by [`Event::Drained`].
    ReadPty,
    /// Ask after the child: answered by [`Event::Waited`].
    AskChild,
    /// Look at the mouse over the scrollbar: answered by [`Event::Scrollbar`].
    CheckScrollbar,
    /// Scroll the viewport by this many rows.
    Scroll(i64),
    /// Handle the keyboard.
    HandleKeys,
    /// Handle the mouse.
    HandleMouse,
    /// Draw the frame, and the banner where the child has exited.
    Draw,
    /// Tell the child that its terminal is gone.
    HangUp,
    /// Wait for the child to end.
    WaitChild,
    /// The run is over.
    Stop,
}

/// What came of the last action.
#[derive(Clone, Copy, Debug, PartialEq, Eq)]
pub enum Event {
    /// The window: whether it is to close, whether it was resized, and its size.
    Window { close: bool, resized: bool, width: i32, height: i32 },
    /// Whether the window has the focus, and whether the application asked for
    /// focus reports.
    Focus { focused: bool, reporting: bool },
    /// How draining the pty ended.
    Drained(PtyReadResult),
    /// How the child was found.
    Waited(WaitOutcome),
    /// The scrollbar, where the engine can tell it, and the mouse over it.
    Scrollbar { scrollbar: Option<Scrollbar>, grip: Grip },
    /// The action is done.
    Done,
}

/// Where the run stands: the action that it waits for.
#[derive(Clone, Copy, Debug, PartialEq, Eq, Structural)]
pub enum Phase {
    Window,
    Resizing,
    Focus,
    Reporting,
    Reading,
    Asking,
    Scrollbar,
    /// Scrolling; whether the mouse input belongs to the scrollbar.
    Scrolling { consumed: bool },
    /// Keys; whether the mouse input belongs to the scrollbar.
    Keys { consumed: bool },
    Mouse,
    Drawing,
    HangingUp,
    Waiting,
    Ended,
}

/// The state of a [`Run`].
pub struct RunView {
    pub session: crate::session::SessionView,
    pub dragging: bool,
    pub phase: Phase,
}

impl RunView {
    /// The session is sound, and the phase agrees with what is known of the
    /// child.
    pub open spec fn wf(self) -> bool {
        &&& self.session.wf()
        &&& match self.phase {
            Phase::Reporting | Phase::Reading | Phase::Keys { .. } | Phase::Mouse
            | Phase::HangingUp => !self.session.exited,
            Phase::Asking => self.session.exited && !self.session.reaped,
            Phase::Waiting => !self.session.reaped,
            _ => true,
        }
    }

    /// The event answers the action that the run waits for, and holds nothing
    /// that cannot be.
    pub open spec fn expects(self, event: Event) -> bool {
        match self.phase {
            Phase::Window => event is Window,
            Phase::Focus => event is Focus,
            Phase::Reading => event is Drained,
            Phase::Asking => event matches Event::Waited(outcome) && (
            outcome matches WaitOutcome::Signaled(signal) ==> signal <= i32::MAX - 128),
            Phase::Scrollbar => event matches Event::Scrollbar { scrollbar, grip } && grip.target
                >= 0 && (scrollbar matches Some(s) ==> s.offset <= i64::MAX),
            Phase::Ended => false,
            _ => event is Done,
        }
    }

    /// The run in another phase.
    pub open spec fn at(self, phase: Phase) -> RunView {
        RunView { phase, ..self }
    }

    /// On to reading the pty, which only a child that is there writes to.
    pub open spec fn to_reading(self) -> (RunView, Action) {
        if !self.session.exited {
            (self.at(Phase::Reading), Action::ReadPty)
        } else {
            self.to_asking()
        }
    }

    /// On to asking after the child, once it has exited and until it answers.
    pub open spec fn to_asking(self) -> (RunView, Action) {
        if self.session.exited && !self.session.reaped {
            (self.at(Phase::Asking), Action::AskChild)
        } else {
            (self.at(Phase::Scrollbar), Action::CheckScrollbar)
        }
    }

    /// On to the keyboard, which only a child that is there gets.
    pub open spec fn to_keys(self, consumed: bool) -> (RunView, Action) {
        if !self.session.exited {
            (self.at(Phase::Keys { consumed }), Action::HandleKeys)
        } else {
            (self.at(Phase::Drawing), Action::Draw)
        }
    }

    /// On to the mouse, unless the scrollbar took its input.
    pub open spec fn to_mouse(self, consumed: bool) -> (RunView, Action) {
        if !consumed {
            (self.at(Phase::Mouse), Action::HandleMouse)
        } else {
            (self.at(Phase::Drawing), Action::Draw)
        }
    }

    /// On to ending the run.
    pub open spec fn to_end(self) -> (RunView, Action) {
        let cleanup = self.session.at_end();
        if cleanup.hang_up {
            (self.at(Phase::HangingUp), Action::HangUp)
        } else if cleanup.wait {
            (self.at(Phase::Waiting), Action::WaitChild)
        } else {
            (self.at(Phase::Ended), Action::Stop)
        }
    }

    /// The state and the action that follow an event.
    pub open spec fn after(self, event: Event) -> (RunView, Action) {
        match (self.phase, event) {
            (Phase::Window, Event::Window { close, resized, width, height }) => if close {
                self.to_end()
            } else {
                let session = self.session.resized(resized, width, height);
                if self.session.must_resize(resized, width, height) {
                    (
                        RunView { session, phase: Phase::Resizing, ..self },
                        Action::Resize(resize_request(session)),
                    )
                } else {
                    (self.at(Phase::Focus), Action::CheckFocus)
                }
            },
            (Phase::Resizing, _) => (self.at(Phase::Focus), Action::CheckFocus),
            (Phase::Focus, Event::Focus { focused, reporting }) => {
                let next = RunView {
                    session: crate::session::SessionView { focused, ..self.session },
                    ..self
                };
                match self.session.focus_event(focused, reporting) {
                    Some(report) => (next.at(Phase::Reporting), Action::SendFocus(report)),
                    None => next.to_reading(),
                }
            },
            (Phase::Reporting, _) => self.to_reading(),
            (Phase::Reading, Event::Drained(result)) => RunView {
                session: self.session.drained(result),
                ..self
            }.to_asking(),
            (Phase::Asking, Event::Waited(outcome)) => (
                RunView { session: self.session.waited(outcome), phase: Phase::Scrollbar, ..self },
                Action::CheckScrollbar,
            ),
            (Phase::Scrollbar, Event::Scrollbar { scrollbar, grip }) => {
                let dragging = crate::scrollbar::still_dragging(scrollbar, self.dragging, grip);
                let next = RunView { dragging, ..self };
                match crate::scrollbar::scroll_by(scrollbar, self.dragging, grip) {
                    Some(delta) => (
                        next.at(Phase::Scrolling { consumed: dragging }),
                        Action::Scroll(delta as i64),
                    ),
                    None => next.to_keys(dragging),
                }
            },
            (Phase::Scrolling { consumed }, _) => self.to_keys(consumed),
            (Phase::Keys { consumed }, _) => self.to_mouse(consumed),
            (Phase::Mouse, _) => (self.at(Phase::Drawing), Action::Draw),
            (Phase::Drawing, _) => (self.at(Phase::Window), Action::CheckWindow),
            (Phase::HangingUp, _) => (self.at(Phase::Waiting), Action::WaitChild),
            (Phase::Waiting, _) => (self.at(Phase::Ended), Action::Stop),
            _ => (self, Action::Stop),
        }
    }
}

/// What the terminal and the pty are told about the grid of a session.
pub open spec fn resize_request(s: crate::session::SessionView) -> Resize {
    Resize {
        cols: s.cols,
        rows: s.rows,
        cell_width: s.cell_width as u32,
        cell_height: s.cell_height as u32,
        window: crate::pty::WindowSize { rows: s.rows, cols: s.cols, xpixel: 0, ypixel: 0 },
    }
}

/// A run of the terminal emulator.
pub struct Run {
    session: Session,
    dragging: bool,
    phase: Phase,
}

impl View for Run {
    type V = RunView;

    closed spec fn view(&self) -> RunView {
        RunView { session: self.session@, dragging: self.dragging, phase: self.phase }
    }
}

impl Run {
    /// Begins a run. The first thing to be done is [`Action::CheckWindow`].
    pub fn new(session: Session) -> (r: Run)
        requires
            session@.wf(),
        ensures
            r@ == (RunView { session: session@, dragging: false, phase: Phase::Window }),
            r@.wf(),
    {
        Run { session, dragging: false, phase: Phase::Window }
    }

    /// The session of this run.
    pub fn session(&self) -> (s: &Session)
        ensures
            s@ == self@.session,
    {
        &self.session
    }

    /// What the run waits for.
    pub fn phase(&self) -> (p: Phase)
        ensures
            p == self@.phase,
    {
        self.phase
    }

    fn to_asking(&mut self) -> (a: Action)
        ensures
            (final(self)@, a) == old(self)@.to_asking(),
    {
        if self.session.must_reap() {
            self.phase = Phase::Asking;
            Action::AskChild
        } else {
            self.phase = Phase::Scrollbar;
            Action::CheckScrollbar
        }
    }

    fn to_reading(&mut self) -> (a: Action)
        ensures
            (final(self)@, a) == old(self)@.to_reading(),
    {
        if self.session.serves_child() {
            self.phase = Phase::Reading;
            Action::ReadPty
        } else {
            self.to_asking()
        }
    }

    fn to_keys(&mut self, consumed: bool) -> (a: Action)
        ensures
            (final(self)@, a) == old(self)@.to_keys(consumed),
    {
        if self.session.serves_child() {
            self.phase = Phase::Keys { consumed };
            Action::HandleKeys
        } else {
            self.phase = Phase::Drawing;
            Action::Draw
        }
    }

    fn to_mouse(&mut self, consumed: bool) -> (a: Action)
        ensures
            (final(self)@, a) == old(self)@.to_mouse(consumed),
    {
        if !consumed {
            self.phase = Phase::Mouse;
            Action::HandleMouse
        } else {
            self.phase = Phase::Drawing;
            Action::Draw
        }
    }

    fn to_end(&mut self) -> (a: Action)
        ensures
            (final(self)@, a) == old(self)@.to_end(),
    {
        let cleanup = self.session.cleanup();
        if cleanup.hang_up {
            self.phase = Phase::HangingUp;
            Action::HangUp
        } else if cleanup.wait {
            self.phase = Phase::Waiting;
            Action::WaitChild
        } else {
            self.phase = Phase::Ended;
            Action::Stop
        }
    }

    /// Takes what came of the last action and tells what to do next.
    pub fn advance(&mut self, event: Event) -> (a: Action)
        requires
            old(self)@.wf(),
            old(self)@.expects(event),
        ensures
            (final(self)@, a) == old(self)@.after(event),
            final(self)@.wf(),
    {
        match (self.phase, event) {
            (Phase::Window, Event::Window { close, resized, width, height }) => {
                if close {
                    return self.to_end();
                }
                match self.session.resize(resized, width, height) {
                    Some(resize) => {
                        self.phase = Phase::Resizing;
                        Action::Resize(resize)
                    },
                    None => {
                        self.phase = Phase::Focus;
                        Action::CheckFocus
                    },
                }
            },
            (Phase::Resizing, _) => {
                self.phase = Phase::Focus;
                Action::CheckFocus
            },
            (Phase::Focus, Event::Focus { focused, reporting }) => {
                match self.session.focus(focused, reporting) {
                    Some(report) => {
                        self.phase = Phase::Reporting;
                        Action::SendFocus(report)
                    },
                    None => self.to_reading(),
                }
            },
            (Phase::Reporting, _) => self.to_reading(),
            (Phase::Reading, Event::Drained(result)) => {
                self.session.drained(result);
                self.to_asking()
            },
            (Phase::Asking, Event::Waited(outcome)) => {
                self.session.waited(outcome);
                self.phase = Phase::Scrollbar;
                Action::CheckScrollbar
            },
            (Phase::Scrollbar, Event::Scrollbar { scrollbar, grip }) => {
                let mut dragging: bool = self.dragging;
                let (consumed, scroll) = handle_scrollbar(&mut dragging, scrollbar, grip);
                self.dragging = dragging;
                match scroll {
                    Some(delta) => {
                        self.phase = Phase::Scrolling { consumed };
                        Action::Scroll(delta)
                    },
                    None => self.to_keys(consumed),
                }
            },
            (Phase::Scrolling { consumed }, _) => self.to_keys(consumed),
            (Phase::Keys { consumed }, _) => self.to_mouse(consumed),
            (Phase::Mouse, _) => {
                self.phase = Phase::Drawing;
                Action::Draw
            },
            (Phase::Drawing, _) => {
                self.phase = Phase::Window;
                Action::CheckWindow
            },
            (Phase::HangingUp, _) => {
                self.phase = Phase::Waiting;
                Action::WaitChild
            },
            (Phase::Waiting, _) => {
                self.phase = Phase::Ended;
                Action::Stop
            },
            _ => Action::Stop,
        }
    }
}

/// The place of a phase within a frame, or behind it.
pub open spec fn order(phase: Phase) -> int {
    match phase {
        Phase::Window => 0,
        Phase::Resizing => 1,
        Phase::Focus => 2,
        Phase::Reporting => 3,
        Phase::Reading => 4,
        Phase::Asking => 5,
        Phase::Scrollbar => 6,
        Phase::Scrolling { .. } => 7,
        Phase::Keys { .. } => 8,
        Phase::Mouse => 9,
        Phase::Drawing => 10,
        Phase::HangingUp => 11,
        Phase::Waiting => 12,
        Phase::Ended => 13,
    }
}

/// A frame goes through its phases in order, each at most once, until it is
/// drawn; a run that ends goes through its last phases in order. Only drawing
/// leads to a new frame.
pub proof fn law_frames_run_in_order(v: RunView, event: Event)
    requires
        v.wf(),
        v.expects(event),
    ensures
        v.phase != Phase::Drawing ==> order(v.after(event).0.phase) > order(v.phase),
        v.phase == Phase::Drawing ==> v.after(event).0.phase == Phase::Window,
{
}

/// Every frame that begins is drawn: only the window's closing skips the drawing.
pub proof fn law_every_frame_is_drawn(v: RunView, event: Event)
    requires
        v.wf(),
        v.expects(event),
        order(v.phase) < order(Phase::Drawing),
        !(event matches Event::Window { close, .. } && close),
    ensures
        order(v.after(event).0.phase) <= order(Phase::Drawing),
{
}

/// The keyboard and the mouse are handled, the pty is read, the focus is reported
/// and the child is told to hang up only while the child is there.
pub proof fn law_only_a_living_child_is_served(v: RunView, event: Event)
    requires
        v.wf(),
        v.expects(event),
        v.session.exited,
    ensures
        ({
            let action = v.after(event).1;
            &&& action != Action::HandleKeys
            &&& action != Action::HandleMouse
            &&& action != Action::ReadPty
            &&& !(action is SendFocus)
            &&& action != Action::HangUp
        }),
{
}

/// While the scrollbar is being dragged the mouse input belongs to it.
pub proof fn law_dragging_keeps_the_mouse(v: RunView, event: Event)
    requires
        v.wf(),
        v.expects(event),
        v.phase == Phase::Scrollbar,
    ensures
        ({
            let next = v.after(event).0;
            next.phase matches Phase::Keys { consumed } ==> consumed == next.dragging
        }),
        ({
            let next = v.after(event).0;
            next.phase matches Phase::Scrolling { consumed } ==> consumed == next.dragging
        }),
{
}

/// A run ends only after the child was asked after with success or waited for. The
/// answer to asking may have been that the child is still there.
pub proof fn law_child_is_asked_after_before_the_end(v: RunView, event: Event)
    requires
        v.wf(),
        v.expects(event),
        v.after(event).1 == Action::Stop,
    ensures
        v.session.reaped || v.phase == Phase::Waiting,
{
}

/// What every step keeps.
pub proof fn law_steps_keep_the_run_sound(v: RunView, event: Event)
    requires
        v.wf(),
        v.expects(event),
    ensures
        v.after(event).0.wf(),
        v.session.exited ==> v.after(event).0.session.exited,
{
}

/// A run begins by looking at the window, with nothing being dragged, and keeps its
/// session.
pub proof fn law_runs_begin_with_the_window(session: Session, r: Run, p: Phase, s: &Session)
    requires
        session@.wf(),
        call_ensures(Run::new, (session,), r),
        call_ensures(Run::phase, (&r,), p),
        call_ensures(Run::session, (&r,), s),
    ensures
        p == Phase::Window,
        s@ == session@,
        !r@.dragging,
{
}

/// What is asked for is always what the run then waits for.
pub proof fn law_runs_wait_for_what_they_ask(run: &mut Run, event: Event, a: Action)
    requires
        old(run)@.wf(),
        old(run)@.expects(event),
        call_ensures(Run::advance, (run, event), a),
    ensures
        a == Action::CheckWindow <==> final(run)@.phase == Phase::Window,
        a is Resize <==> final(run)@.phase == Phase::Resizing,
        a == Action::CheckFocus <==> final(run)@.phase == Phase::Focus,
        a is SendFocus <==> final(run)@.phase == Phase::Reporting,
        a == Action::ReadPty <==> final(run)@.phase == Phase::Reading,
        a == Action::AskChild <==> final(run)@.phase == Phase::Asking,
        a == Action::CheckScrollbar <==> final(run)@.phase == Phase::Scrollbar,
        a is Scroll <==> final(run)@.phase is Scrolling,
        a == Action::HandleKeys <==> final(run)@.phase is Keys,
        a == Action::HandleMouse <==> final(run)@.phase == Phase::Mouse,
        a == Action::Draw <==> final(run)@.phase == Phase::Drawing,
        a == Action::HangUp <==> final(run)@.phase == Phase::HangingUp,
        a == Action::WaitChild <==> final(run)@.phase == Phase::Waiting,
        a == Action::Stop <==> final(run)@.phase == Phase::Ended,
{
}

/// Where a frame goes from each of its steps. A closing window ends the run; one of
/// another size is laid out first. A change of focus that is to be told is told
/// before the pty is read. The pty is read while the child is there; a child that
/// is gone is asked after until it answered. Then come the scrollbar and, where it
/// is dragged, the scrolling. Keys and mouse come while the child is there, the
/// mouse unless the scrollbar has it. Then the frame is drawn, and the next begins.
/// A run that ends tells a child that is there to hang up, and waits for one that
/// has not answered.
pub proof fn law_frames_take_their_steps(run: &mut Run, event: Event, a: Action)
    requires
        old(run)@.wf(),
        old(run)@.expects(event),
        call_ensures(Run::advance, (run, event), a),
    ensures
        ({
            let s = old(run)@.session;
            let e = final(run)@.session;
            match old(run)@.phase {
                Phase::Window => event matches Event::Window { close, resized, width, height } && {
                    let other = width != s.width || height != s.height;
                    &&& close && !s.exited && !s.reaped <==> a == Action::HangUp
                    &&& close && s.exited && !s.reaped <==> a == Action::WaitChild
                    &&& close && s.reaped <==> a == Action::Stop
                    &&& !close && resized && other <==> a is Resize
                    &&& !close && !(resized && other) <==> a == Action::CheckFocus
                },
                Phase::Resizing => a == Action::CheckFocus,
                Phase::Focus => event matches Event::Focus { focused, reporting } && {
                    let told = focused != s.focused && reporting && !s.exited;
                    &&& told && focused <==> a == Action::SendFocus(FocusEvent::Gained)
                    &&& told && !focused <==> a == Action::SendFocus(FocusEvent::Lost)
                    &&& !told && !s.exited <==> a == Action::ReadPty
                    &&& !told && s.exited && !s.reaped <==> a == Action::AskChild
                    &&& !told && s.exited && s.reaped <==> a == Action::CheckScrollbar
                },
                Phase::Reporting => {
                    &&& !s.exited <==> a == Action::ReadPty
                    &&& s.exited && !s.reaped <==> a == Action::AskChild
                    &&& s.exited && s.reaped <==> a == Action::CheckScrollbar
                },
                Phase::Reading => {
                    &&& e.exited && !e.reaped <==> a == Action::AskChild
                    &&& !e.exited || e.reaped <==> a == Action::CheckScrollbar
                },
                Phase::Asking => a == Action::CheckScrollbar,
                Phase::Scrollbar => a is Scroll || (a == Action::HandleKeys <==> !s.exited) && (a
                    == Action::Draw <==> s.exited),
                Phase::Scrolling { consumed } => {
                    &&& a == Action::HandleKeys <==> !s.exited
                    &&& a == Action::Draw <==> s.exited
                    &&& final(run)@.phase matches Phase::Keys { consumed: kept } ==> kept == consumed
                },
                Phase::Keys { consumed } => {
                    &&& a == Action::HandleMouse <==> !consumed
                    &&& a == Action::Draw <==> consumed
                },
                Phase::Mouse => a == Action::Draw,
                Phase::Drawing => a == Action::CheckWindow,
                Phase::HangingUp => a == Action::WaitChild,
                Phase::Waiting => a == Action::Stop,
                Phase::Ended => false,
            }
        }),
{
}

/// What each step changes: the window's size lays the grid out, the focus is taken
/// note of, draining may find the child's end, asking its status, and the
/// scrollbar's step whether it is dragged. Nothing else ever changes.
pub proof fn law_steps_change_only_what_they_learn(
    run: &mut Run,
    event: Event,
    a: Action,
    cols: u16,
    rows: u16,
)
    requires
        old(run)@.wf(),
        old(run)@.expects(event),
        call_ensures(Run::advance, (run, event), a),
        event matches Event::Window { width, .. } ==> call_ensures(
            crate::session::grid_cells,
            (width, old(run)@.session.cell_width),
            cols,
        ),
        event matches Event::Window { height, .. } ==> call_ensures(
            crate::session::grid_cells,
            (height, old(run)@.session.cell_height),
            rows,
        ),
    ensures
        ({
            let s = old(run)@.session;
            let e = final(run)@.session;
            &&& e.cell_width == s.cell_width && e.cell_height == s.cell_height
            &&& a is Resize <==> e.width != s.width || e.height != s.height
            &&& !(a is Resize) ==> e.cols == s.cols && e.rows == s.rows
            &&& old(run)@.phase != Phase::Focus ==> e.focused == s.focused
            &&& old(run)@.phase != Phase::Reading ==> e.exited == s.exited
            &&& old(run)@.phase != Phase::Asking ==> e.reaped == s.reaped && e.exit_status
                == s.exit_status
            &&& old(run)@.phase != Phase::Scrollbar ==> final(run)@.dragging == old(run)@.dragging
            &&& event matches Event::Focus { focused, .. } ==> e.focused == focused
            &&& event matches Event::Drained(result) ==> (e.exited <==> s.exited || result
                != PtyReadResult::Drained)
            &&& event matches Event::Waited(outcome) ==> (e.reaped <==> s.reaped || outcome
                != WaitOutcome::Failed)
            &&& event matches Event::Waited(WaitOutcome::Exited(status)) ==> e.exit_status == status
            &&& event matches Event::Waited(WaitOutcome::Signaled(signal)) ==> e.exit_status == 128
                + signal
            &&& event matches Event::Waited(WaitOutcome::Other) ==> e.exit_status == s.exit_status
            &&& event matches Event::Waited(WaitOutcome::Failed) ==> e.exit_status == s.exit_status
            &&& a matches Action::Resize(told) ==> (event matches Event::Window {
                width,
                height,
                ..
            } && e.width == width && e.height == height && e.cols == cols && e.rows == rows
                && told.cols == cols && told.rows == rows && told.window.cols == cols
                && told.window.rows == rows && told.window.xpixel == 0 && told.window.ypixel == 0
                && told.cell_width == s.cell_width && told.cell_height == s.cell_height)
        }),
{
}

/// The scrollbar's step: the viewport scrolls right to the target, where the
/// scrollbar is held with the button down away from it. Whether the scrollbar is
/// held afterwards is also whether it takes the mouse.
pub proof fn law_runs_drag_the_viewport(
    run: &mut Run,
    scrollbar: Option<Scrollbar>,
    grip: Grip,
    a: Action,
)
    requires
        old(run)@.wf(),
        old(run)@.phase == Phase::Scrollbar,
        old(run)@.expects(Event::Scrollbar { scrollbar, grip }),
        call_ensures(Run::advance, (run, Event::Scrollbar { scrollbar, grip }), a),
    ensures
        a is Scroll <==> scrollbar is Some && scrollbar->0.total > scrollbar->0.len && (old(
            run,
        )@.dragging || grip.grabbed) && grip.down && grip.target != scrollbar->0.offset,
        a matches Action::Scroll(delta) ==> scrollbar->0.offset + delta == grip.target,
        final(run)@.dragging <==> scrollbar is Some && scrollbar->0.total > scrollbar->0.len && (
        old(run)@.dragging || grip.grabbed) && !grip.released,
        final(run)@.phase matches Phase::Scrolling { consumed } ==> consumed
            == final(run)@.dragging,
        final(run)@.phase matches Phase::Keys { consumed } ==> consumed == final(run)@.dragging,
{
}

} // verus!
