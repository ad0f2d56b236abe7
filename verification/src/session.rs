//! One run of the terminal emulator: what each frame does about the window, the
//! child process and the exit banner, and how the run ends.
use vstd::prelude::*;
use vstd::string::*;

use crate::draw::{Color, DrawOp, PADDING};
use crate::pty::{window_size, PtyReadResult, WindowSize};
use crate::report::SizeReportSize;
use crate::text::decimal_text;

verus! {

/// The extent of a cell in pixels: what was measured, but at least one.
pub fn cell_extent(measured: i32) -> (n: i32)
    ensures
        n == (if measured < 1 {
            1
        } else {
            measured
        }),
{
    if measured < 1 {
        1
    } else {
        measured
    }
}

/// How many cells fit into an extent of pixels with the padding on both sides, at
/// least one, as a 16-bit number.
pub open spec fn cells_in(extent: i32, cell: i32) -> int {
    let inner = extent - 2 * PADDING;
    if inner < cell {
        1
    } else {
        (inner / cell as int) % 0x10000
    }
}

/// Counts the cells that fit into an extent of pixels.
pub fn grid_cells(extent: i32, cell: i32) -> (n: u16)
    requires
        cell >= 1,
    ensures
        n == cells_in(extent, cell),
{
    if extent < 2 * PADDING || extent - 2 * PADDING < cell {
        return 1;
    }
    let q: u32 = (extent - 2 * PADDING) as u32 / cell as u32;
    assert(q as u16 == q % 0x10000) by (bit_vector);
    #[verifier::truncate]
    let n: u16 = q as u16;
    n
}

/// Windows of ordinary size show at least one cell.
pub proof fn law_grid_is_never_empty(extent: i32, cell: i32)
    requires
        cell >= 1,
        extent < 0x10000,
    ensures
        1 <= cells_in(extent, cell) < 0x10000,
{
    let inner = extent - 2 * PADDING;
    if inner >= cell {
        assert(1 <= inner / (cell as int) <= inner) by (nonlinear_arith)
            requires
                inner >= cell,
                cell >= 1,
        ;
    }
}

/// The cells that fit do fit: they and the padding take no more than the extent.
pub proof fn law_grid_fits_the_window(extent: i32, cell: i32)
    requires
        cell >= 1,
        extent - 2 * PADDING >= cell,
    ensures
        cells_in(extent, cell) * cell + 2 * PADDING <= extent,
{
    let inner = extent - 2 * PADDING;
    let q = inner / (cell as int);
    assert(q * cell <= inner && q >= 0) by (nonlinear_arith)
        requires
            q == inner / (cell as int),
            inner >= cell,
            cell >= 1,
    ;
    assert((q % 0x10000) * cell <= q * cell) by (nonlinear_arith)
        requires
            q >= 0,
            cell >= 1,
    ;
}

/// The window gained or lost the focus.
#[derive(Clone, Copy, Debug, PartialEq, Eq, Structural)]
pub enum FocusEvent {
    Gained,
    Lost,
}

/// How the child is found when it is asked after.
#[derive(Clone, Copy, Debug, PartialEq, Eq, Structural)]
pub enum WaitOutcome {
    /// It exited with this status.
    Exited(i32),
    /// It was ended by this signal.
    Signaled(i32),
    /// Any other answer.
    Other,
    /// Asking failed.
    Failed,
}

/// What to do about a new window size.
#[derive(Clone, Copy, Debug, PartialEq, Eq, Structural)]
pub struct Resize {
    pub cols: u16,
    pub rows: u16,
    pub cell_width: u32,
    pub cell_height: u32,
    pub window: WindowSize,
}

/// What to do with the child when the run ends.
#[derive(Clone, Copy, Debug, PartialEq, Eq, Structural)]
pub struct Cleanup {
    /// Tell the child that its terminal is gone.
    pub hang_up: bool,
    /// Wait for the child to end.
    pub wait: bool,
}

/// The state of a run.
#[derive(Clone, Copy, Debug, PartialEq, Eq, Structural)]
pub struct SessionView {
    /// Size of a cell in pixels.
    pub cell_width: i32,
    pub cell_height: i32,
    /// Size of the window in pixels when the grid was last laid out.
    pub width: i32,
    pub height: i32,
    /// Size of the grid in cells.
    pub cols: u16,
    pub rows: u16,
    /// The window had the focus in the last frame.
    pub focused: bool,
    /// The child closed its end of the pty.
    pub exited: bool,
    /// The child's end was asked after with success.
    pub reaped: bool,
    /// The child's exit status, negative while it is not known.
    pub exit_status: i32,
}

impl SessionView {
    /// The grid is that of the window, and only a child that exited was reaped.
    pub open spec fn wf(self) -> bool {
        &&& self.cell_width >= 1
        &&& self.cell_height >= 1
        &&& self.cols == cells_in(self.width, self.cell_width)
        &&& self.rows == cells_in(self.height, self.cell_height)
        &&& self.reaped ==> self.exited
        &&& !self.reaped ==> self.exit_status == -1
    }

    /// The window was given another size.
    pub open spec fn must_resize(self, resized: bool, width: i32, height: i32) -> bool {
        resized && (width != self.width || height != self.height)
    }

    /// The state after the window was looked at.
    pub open spec fn resized(self, resized: bool, width: i32, height: i32) -> SessionView {
        if self.must_resize(resized, width, height) {
            SessionView {
                width,
                height,
                cols: cells_in(width, self.cell_width) as u16,
                rows: cells_in(height, self.cell_height) as u16,
                ..self
            }
        } else {
            self
        }
    }

    /// The focus event to report, if one is wanted.
    pub open spec fn focus_event(self, focused: bool, reporting: bool) -> Option<FocusEvent> {
        if focused != self.focused && !self.exited && reporting {
            Some(
                if focused {
                    FocusEvent::Gained
                } else {
                    FocusEvent::Lost
                },
            )
        } else {
            None
        }
    }

    /// The state after the pty was drained with the given result.
    pub open spec fn drained(self, result: PtyReadResult) -> SessionView {
        SessionView { exited: self.exited || result != PtyReadResult::Drained, ..self }
    }

    /// The state after the child was asked after.
    pub open spec fn waited(self, outcome: WaitOutcome) -> SessionView {
        match outcome {
            WaitOutcome::Exited(status) => SessionView {
                reaped: true,
                exit_status: status,
                ..self
            },
            WaitOutcome::Signaled(signal) => SessionView {
                reaped: true,
                exit_status: (128 + signal) as i32,
                ..self
            },
            WaitOutcome::Other => SessionView { reaped: true, ..self },
            WaitOutcome::Failed => self,
        }
    }

    /// What is to be done when the run ends.
    pub open spec fn at_end(self) -> Cleanup {
        Cleanup { hang_up: !self.reaped && !self.exited, wait: !self.reaped }
    }

    /// The text of the banner that shows once the child has exited.
    pub open spec fn banner_text(self) -> Option<Seq<char>> {
        if !self.exited {
            None
        } else if self.exit_status >= 0 {
            Some(
                "[process exited with status "@ + crate::text::decimal(self.exit_status as nat)
                    + "]"@,
            )
        } else {
            Some("[process exited]"@)
        }
    }
}

/// One run of the terminal emulator.
pub struct Session {
    state: SessionView,
}

impl View for Session {
    type V = SessionView;

    closed spec fn view(&self) -> SessionView {
        self.state
    }
}

impl Session {
    /// Begins a run in a window of the given size in pixels.
    pub fn new(width: i32, height: i32, cell_width: i32, cell_height: i32, focused: bool) -> (s:
        Session)
        requires
            cell_width >= 1,
            cell_height >= 1,
        ensures
            s@ == (SessionView {
                cell_width,
                cell_height,
                width,
                height,
                cols: cells_in(width, cell_width) as u16,
                rows: cells_in(height, cell_height) as u16,
                focused,
                exited: false,
                reaped: false,
                exit_status: -1i32,
            }),
            s@.wf(),
    {
        let cols: u16 = grid_cells(width, cell_width);
        let rows: u16 = grid_cells(height, cell_height);
        Session {
            state: SessionView {
                cell_width,
                cell_height,
                width,
                height,
                cols,
                rows,
                focused,
                exited: false,
                reaped: false,
                exit_status: -1,
            },
        }
    }

    /// The state of the run.
    pub fn state(&self) -> (s: SessionView)
        ensures
            s == self@,
    {
        self.state
    }

    /// The grid as it is reported to applications that ask for it.
    pub fn size_report(&self) -> (s: SizeReportSize)
        requires
            self@.wf(),
        ensures
            s == (SizeReportSize {
                rows: self@.rows,
                columns: self@.cols,
                cell_width: self@.cell_width as u32,
                cell_height: self@.cell_height as u32,
            }),
    {
        SizeReportSize {
            rows: self.state.rows,
            columns: self.state.cols,
            cell_width: self.state.cell_width as u32,
            cell_height: self.state.cell_height as u32,
        }
    }

    /// Lays the grid out again where the window has another size, and tells what
    /// the terminal and the pty have to be told.
    pub fn resize(&mut self, resized: bool, width: i32, height: i32) -> (r: Option<Resize>)
        requires
            old(self)@.wf(),
        ensures
            final(self)@ == old(self)@.resized(resized, width, height),
            final(self)@.wf(),
            r == (if old(self)@.must_resize(resized, width, height) {
                Some(
                    Resize {
                        cols: final(self)@.cols,
                        rows: final(self)@.rows,
                        cell_width: old(self)@.cell_width as u32,
                        cell_height: old(self)@.cell_height as u32,
                        window: WindowSize {
                            rows: final(self)@.rows,
                            cols: final(self)@.cols,
                            xpixel: 0,
                            ypixel: 0,
                        },
                    },
                )
            } else {
                None
            }),
    {
        if !resized || (width == self.state.width && height == self.state.height) {
            return None;
        }
        let cols: u16 = grid_cells(width, self.state.cell_width);
        let rows: u16 = grid_cells(height, self.state.cell_height);
        self.state.cols = cols;
        self.state.rows = rows;
        self.state.width = width;
        self.state.height = height;
        Some(
            Resize {
                cols,
                rows,
                cell_width: self.state.cell_width as u32,
                cell_height: self.state.cell_height as u32,
                window: window_size(cols, rows),
            },
        )
    }

    /// Takes note of the focus and tells what to report to the application, which
    /// is nothing unless it asked for focus reports and is still there.
    pub fn focus(&mut self, focused: bool, reporting: bool) -> (r: Option<FocusEvent>)
        ensures
            final(self)@ == (SessionView { focused, ..old(self)@ }),
            r == old(self)@.focus_event(focused, reporting),
    {
        let changed: bool = focused != self.state.focused;
        self.state.focused = focused;
        if changed && !self.state.exited && reporting {
            if focused {
                Some(FocusEvent::Gained)
            } else {
                Some(FocusEvent::Lost)
            }
        } else {
            None
        }
    }

    /// Whether the child is served: its output read and input sent to it.
    pub fn serves_child(&self) -> (b: bool)
        ensures
            b == !self@.exited,
    {
        !self.state.exited
    }

    /// Takes the result of draining the pty.
    pub fn drained(&mut self, result: PtyReadResult)
        requires
            old(self)@.wf(),
        ensures
            final(self)@ == old(self)@.drained(result),
            final(self)@.wf(),
    {
        match result {
            PtyReadResult::Drained => {},
            _ => {
                self.state.exited = true;
            },
        }
    }

    /// Whether the child is to be asked after.
    pub fn must_reap(&self) -> (b: bool)
        ensures
            b == (self@.exited && !self@.reaped),
    {
        self.state.exited && !self.state.reaped
    }

    /// Takes the answer to asking after the child.
    pub fn waited(&mut self, outcome: WaitOutcome)
        requires
            old(self)@.wf(),
            old(self)@.exited,
            outcome matches WaitOutcome::Signaled(signal) ==> signal <= i32::MAX - 128,
        ensures
            final(self)@ == old(self)@.waited(outcome),
            final(self)@.wf(),
    {
        match outcome {
            WaitOutcome::Exited(status) => {
                self.state.reaped = true;
                self.state.exit_status = status;
            },
            WaitOutcome::Signaled(signal) => {
                self.state.reaped = true;
                self.state.exit_status = 128 + signal;
            },
            WaitOutcome::Other => {
                self.state.reaped = true;
            },
            WaitOutcome::Failed => {},
        }
    }

    /// The text of the banner that shows once the child has exited.
    pub fn exit_message(&self) -> (r: Option<String>)
        ensures
            match r {
                Some(s) => self@.banner_text() == Some(s@),
                None => self@.banner_text() is None,
            },
    {
        if !self.state.exited {
            return None;
        }
        if self.state.exit_status >= 0 {
            let mut s: String = "[process exited with status ".to_owned();
            s.append(decimal_text(self.state.exit_status as u64).as_str());
            s.append("]");
            Some(s)
        } else {
            Some("[process exited]".to_owned())
        }
    }

    /// What to do with the child when the run ends.
    pub fn cleanup(&self) -> (c: Cleanup)
        ensures
            c == self@.at_end(),
    {
        Cleanup {
            hang_up: !self.state.reaped && !self.state.exited,
            wait: !self.state.reaped,
        }
    }
}

/// The dark bar at the bottom of the window that the banner's text stands on, and
/// the height at which the text is drawn, for a text of the given height.
pub fn banner(screen_width: i32, screen_height: i32, text_height: i32) -> (r: (DrawOp, i32))
    requires
        0 <= text_height <= i32::MAX - 8,
        screen_height >= 0,
    ensures
        r.0@ == (crate::draw::Shape::Rect {
            x: 0,
            y: screen_height - (text_height + 8),
            width: screen_width as int,
            height: text_height + 8,
            color: Color { r: 0, g: 0, b: 0, a: 180 },
        }),
        r.1 == screen_height - (text_height + 8) + 4,
{
    let height: i32 = text_height + 8;
    let y: i32 = screen_height - height;
    let bar = DrawOp::Rect {
        x: 0,
        y,
        width: screen_width,
        height,
        color: Color { r: 0, g: 0, b: 0, a: 180 },
    };
    (bar, y + 4)
}

/// A child that exited stays so, and what is known of it never gets lost again.
pub proof fn law_exit_is_final(s: SessionView, result: PtyReadResult, outcome: WaitOutcome)
    ensures
        s.exited ==> s.drained(result).exited && s.waited(outcome).exited,
        s.reaped ==> s.drained(result).reaped && s.waited(outcome).reaped,
        s.drained(result).exit_status == s.exit_status,
{
}

/// Once the child has exited it is sent no focus reports.
pub proof fn law_no_reports_after_exit(s: SessionView, focused: bool, reporting: bool)
    requires
        s.exited,
    ensures
        s.focus_event(focused, reporting) is None,
{
}

/// The child is waited for at the end exactly when it was not asked after before,
/// and it is told to hang up only where it is also waited for.
pub proof fn law_child_is_waited_for_once(s: SessionView)
    requires
        s.wf(),
    ensures
        s.at_end().wait <==> !s.reaped,
        s.at_end().hang_up <==> !s.exited,
        s.at_end().hang_up ==> s.at_end().wait,
{
}

/// Looking at an unchanged window again changes nothing.
pub proof fn law_resizing_settles(s: SessionView, resized: bool, width: i32, height: i32)
    ensures
        s.resized(resized, width, height).resized(resized, width, height) == s.resized(
            resized,
            width,
            height,
        ),
        !s.resized(true, width, height).must_resize(true, width, height),
{
}

/// A cell is at least one pixel large, and as large as measured where that is more.
pub proof fn law_cells_have_an_extent(measured: i32, n: i32)
    requires
        call_ensures(cell_extent, (measured,), n),
    ensures
        n >= 1 && n >= measured,
        n == 1 || n == measured,
{
}

/// As many cells are counted as fit between paddings of four pixels on both sides,
/// as a 16-bit number, and one where not even one fits.
pub proof fn law_the_most_cells_that_fit_are_counted(extent: i32, cell: i32, n: u16)
    requires
        cell >= 1,
        call_ensures(grid_cells, (extent, cell), n),
    ensures
        extent - 8 < cell ==> n == 1,
        extent - 8 >= cell ==> exists|q: int|
            q * cell <= extent - 8 < (q + 1) * cell && n == #[trigger] (q % 0x10000),
        extent < 0x10000 && extent - 8 >= cell ==> n * cell <= extent - 8 < (n + 1) * cell,
{
    let inner = extent - 8;
    if inner >= cell {
        let q = inner / (cell as int);
        assert(q * cell <= inner < (q + 1) * cell && 1 <= q <= inner) by (nonlinear_arith)
            requires
                q == inner / (cell as int),
                inner >= cell,
                cell >= 1,
        ;
        assert(n == q % 0x10000);
    }
}

/// A session begins with the grid that its window has room for, in the given focus,
/// with a child of which nothing is known.
pub proof fn law_sessions_begin_with_a_living_child(
    width: i32,
    height: i32,
    cell_width: i32,
    cell_height: i32,
    focused: bool,
    cols: u16,
    rows: u16,
    s: Session,
    v: SessionView,
)
    requires
        cell_width >= 1,
        cell_height >= 1,
        call_ensures(Session::new, (width, height, cell_width, cell_height, focused), s),
        call_ensures(Session::state, (&s,), v),
        call_ensures(grid_cells, (width, cell_width), cols),
        call_ensures(grid_cells, (height, cell_height), rows),
    ensures
        v.width == width && v.height == height,
        v.cell_width == cell_width && v.cell_height == cell_height,
        v.cols == cols && v.rows == rows,
        v.focused == focused,
        !v.exited && !v.reaped && v.exit_status < 0,
{
}

/// The grid is laid out again exactly where the window was resized to another size,
/// and then to what the window has room for; the terminal and the pty are told
/// that grid. Nothing else of the session changes.
pub proof fn law_resizing_follows_the_window(
    s: &mut Session,
    resized: bool,
    width: i32,
    height: i32,
    cols: u16,
    rows: u16,
    r: Option<Resize>,
)
    requires
        old(s)@.wf(),
        call_ensures(Session::resize, (s, resized, width, height), r),
        call_ensures(grid_cells, (width, old(s)@.cell_width), cols),
        call_ensures(grid_cells, (height, old(s)@.cell_height), rows),
    ensures
        r is Some <==> resized && (width != old(s)@.width || height != old(s)@.height),
        r is None ==> final(s)@ == old(s)@,
        r matches Some(told) ==> {
            &&& told.cols == cols && told.rows == rows
            &&& told.cell_width == old(s)@.cell_width && told.cell_height == old(s)@.cell_height
            &&& told.window.cols == cols && told.window.rows == rows
            &&& told.window.xpixel == 0 && told.window.ypixel == 0
            &&& final(s)@.cols == cols && final(s)@.rows == rows
            &&& final(s)@.width == width && final(s)@.height == height
            &&& final(s)@.cell_width == old(s)@.cell_width
            &&& final(s)@.cell_height == old(s)@.cell_height
            &&& final(s)@.focused == old(s)@.focused
            &&& final(s)@.exited == old(s)@.exited
            &&& final(s)@.reaped == old(s)@.reaped
            &&& final(s)@.exit_status == old(s)@.exit_status
        },
{
}

/// The focus is reported exactly where it changed, the application asked for it and
/// is still there: as gained where the window has it now, else as lost. It is taken
/// note of in any case, and of nothing else.
pub proof fn law_focus_changes_are_reported(
    s: &mut Session,
    focused: bool,
    reporting: bool,
    r: Option<FocusEvent>,
)
    requires
        call_ensures(Session::focus, (s, focused, reporting), r),
    ensures
        r is Some <==> focused != old(s)@.focused && reporting && !old(s)@.exited,
        r matches Some(e) ==> (e == FocusEvent::Gained <==> focused),
        final(s)@.focused == focused,
        final(s)@ == (SessionView { focused: final(s)@.focused, ..old(s)@ }),
{
}

/// The child counts as gone once draining the pty found its end or an error, and
/// stays so; nothing else is learned from draining.
pub proof fn law_draining_finds_the_childs_end(s: &mut Session, result: PtyReadResult)
    requires
        old(s)@.wf(),
        call_ensures(Session::drained, (s, result), ()),
    ensures
        final(s)@.exited <==> old(s)@.exited || result == PtyReadResult::Eof || result
            == PtyReadResult::Error,
        final(s)@ == (SessionView { exited: final(s)@.exited, ..old(s)@ }),
{
}

/// Asking after the child settles it unless asking failed. The status is the one
/// that it exited with, or that of its signal counted from 128; any other answer
/// leaves the status as it was.
pub proof fn law_asking_finds_the_exit_status(s: &mut Session, outcome: WaitOutcome)
    requires
        old(s)@.wf(),
        old(s)@.exited,
        outcome matches WaitOutcome::Signaled(signal) ==> signal <= i32::MAX - 128,
        call_ensures(Session::waited, (s, outcome), ()),
    ensures
        final(s)@.reaped <==> old(s)@.reaped || outcome != WaitOutcome::Failed,
        outcome matches WaitOutcome::Exited(status) ==> final(s)@.exit_status == status,
        outcome matches WaitOutcome::Signaled(signal) ==> final(s)@.exit_status == 128 + signal,
        outcome == WaitOutcome::Other || outcome == WaitOutcome::Failed ==> final(s)@.exit_status
            == old(s)@.exit_status,
        final(s)@ == (SessionView {
            reaped: final(s)@.reaped,
            exit_status: final(s)@.exit_status,
            ..old(s)@
        }),
{
}

/// The child is served while it is there, asked after once it is gone and until it
/// answered, and at the end told to hang up where it is there and waited for where
/// it did not answer.
pub proof fn law_children_are_cared_for(s: Session, serves: bool, reap: bool, c: Cleanup)
    requires
        call_ensures(Session::serves_child, (&s,), serves),
        call_ensures(Session::must_reap, (&s,), reap),
        call_ensures(Session::cleanup, (&s,), c),
    ensures
        serves <==> !s@.exited,
        reap <==> s@.exited && !s@.reaped,
        c.wait <==> !s@.reaped,
        c.hang_up <==> !s@.reaped && !s@.exited,
{
}

/// The size that applications are told is the grid and the size of its cells.
pub proof fn law_size_reports_tell_the_grid(s: Session, r: SizeReportSize)
    requires
        s@.wf(),
        call_ensures(Session::size_report, (&s,), r),
    ensures
        r.rows == s@.rows && r.columns == s@.cols,
        r.cell_width == s@.cell_width && r.cell_height == s@.cell_height,
{
}

/// A message shows exactly where the child is gone, and it spells the exit status
/// out where that is known.
pub proof fn law_exits_are_announced(s: Session, r: Option<String>)
    requires
        call_ensures(Session::exit_message, (&s,), r),
    ensures
        r is Some <==> s@.exited,
        r matches Some(text) ==> text@ == if s@.exit_status >= 0 {
            "[process exited with status "@ + crate::text::decimal(s@.exit_status as nat) + "]"@
        } else {
            "[process exited]"@
        },
{
}

/// The banner is a bar over the whole width at the very bottom, dark and
/// translucent, four pixels higher than its text on either side.
pub proof fn law_the_banner_lies_at_the_bottom(
    screen_width: i32,
    screen_height: i32,
    text_height: i32,
    r: (DrawOp, i32),
)
    requires
        0 <= text_height <= i32::MAX - 8,
        screen_height >= 0,
        call_ensures(banner, (screen_width, screen_height, text_height), r),
    ensures
        r.0 matches DrawOp::Rect { x, y, width, height, color } && x == 0 && width == screen_width
            && y + height == screen_height && r.1 == y + 4 && r.1 + text_height + 4
            == screen_height && color == (Color { r: 0, g: 0, b: 0, a: 180 }),
{
}

} // verus!
