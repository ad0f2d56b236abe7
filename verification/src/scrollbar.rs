//! Dragging the scrollbar.
use vstd::prelude::*;

verus! {

/// The viewport's place in the scrollback, in rows.
#[derive(Clone, Copy, Debug, PartialEq, Eq, Structural)]
pub struct Scrollbar {
    /// Rows that there are.
    pub total: u64,
    /// Rows above the viewport.
    pub offset: u64,
    /// Rows in the viewport.
    pub len: u64,
}

impl Scrollbar {
    /// There is something to scroll.
    pub open spec fn spec_scrollable(self) -> bool {
        self.total > self.len
    }

    /// Whether there is something to scroll, so that a thumb shows.
    pub fn is_scrollable(self) -> (b: bool)
        ensures
            b == self.spec_scrollable(),
    {
        self.total > self.len
    }

    /// Rows that the viewport can move by in all.
    pub fn range(self) -> (n: u64)
        requires
            self.spec_scrollable(),
        ensures
            n == self.total - self.len,
    {
        self.total - self.len
    }
}

/// Where the region begins in which the scrollbar can be grabbed: sixteen pixels
/// from the right edge.
pub fn grab_left(screen_width: i32) -> (x: i32)
    requires
        screen_width >= i32::MIN + 16,
    ensures
        x == screen_width - 16,
{
    screen_width - 16
}

/// The least height of the thumb.
pub const MIN_THUMB: i32 = 10;

/// The height of the thumb: what is proportional, but not less than
/// [`MIN_THUMB`].
pub fn thumb_height(proportional: i32) -> (h: i32)
    ensures
        h == (if proportional < MIN_THUMB {
            MIN_THUMB
        } else {
            proportional
        }),
{
    if proportional < MIN_THUMB {
        MIN_THUMB
    } else {
        proportional
    }
}

/// The left mouse button within a frame, and where the pointer is.
#[derive(Clone, Copy, Debug, PartialEq, Eq, Structural)]
pub struct Grip {
    /// The button went down inside the region where the scrollbar can be grabbed.
    pub grabbed: bool,
    /// The button is down.
    pub down: bool,
    /// The button came up.
    pub released: bool,
    /// The offset that the pointer's height stands for.
    pub target: i64,
}

/// The scrollbar is held after grabbing is taken into account.
pub open spec fn held(dragging: bool, grip: Grip) -> bool {
    dragging || grip.grabbed
}

/// How far the viewport has to scroll, if at all.
pub open spec fn scroll_by(scrollbar: Option<Scrollbar>, dragging: bool, grip: Grip) -> Option<int> {
    match scrollbar {
        Some(s) if s.spec_scrollable() && held(dragging, grip) && grip.down && grip.target
            != s.offset => Some(grip.target - s.offset),
        _ => None,
    }
}

/// Whether the scrollbar is held after the frame.
pub open spec fn still_dragging(
    scrollbar: Option<Scrollbar>,
    dragging: bool,
    grip: Grip,
) -> bool {
    match scrollbar {
        Some(s) => s.spec_scrollable() && held(dragging, grip) && !grip.released,
        None => false,
    }
}

/// Takes the frame's mouse input into account for the scrollbar, which is missing
/// where the engine cannot tell it. Updates whether it is being dragged, which is
/// also whether the mouse input was meant for it, and tells how far to scroll.
pub fn handle_scrollbar(dragging: &mut bool, scrollbar: Option<Scrollbar>, grip: Grip) -> (r: (
    bool,
    Option<i64>,
))
    requires
        scrollbar matches Some(s) ==> s.offset <= i64::MAX,
        grip.target >= 0,
    ensures
        *final(dragging) == still_dragging(scrollbar, *old(dragging), grip),
        r.0 == *final(dragging),
        match r.1 {
            Some(delta) => scroll_by(scrollbar, *old(dragging), grip) == Some(delta as int),
            None => scroll_by(scrollbar, *old(dragging), grip) is None,
        },
{
    let s: Scrollbar = match scrollbar {
        Some(s) => s,
        None => {
            *dragging = false;
            return (false, None);
        },
    };
    if s.total <= s.len {
        *dragging = false;
        return (false, None);
    }
    if grip.grabbed {
        *dragging = true;
    }
    let mut scroll: Option<i64> = None;
    if *dragging && grip.down {
        let delta: i64 = grip.target - s.offset as i64;
        if delta != 0 {
            scroll = Some(delta);
        }
    }
    if grip.released {
        *dragging = false;
    }
    (*dragging, scroll)
}

/// Scrolling by what is asked for brings the viewport to the target, and asking
/// again there asks for nothing.
pub proof fn law_dragging_reaches_its_target(s: Scrollbar, dragging: bool, grip: Grip)
    requires
        grip.target >= 0,
        scroll_by(Some(s), dragging, grip) is Some,
    ensures
        s.offset + scroll_by(Some(s), dragging, grip)->0 == grip.target,
        scroll_by(
            Some(Scrollbar { offset: grip.target as u64, ..s }),
            dragging,
            grip,
        ) is None,
{
}

/// The viewport moves only while the scrollbar is held with the button down.
pub proof fn law_only_dragging_scrolls(
    scrollbar: Option<Scrollbar>,
    dragging: bool,
    grip: Grip,
)
    ensures
        scroll_by(scrollbar, dragging, grip) is Some ==> grip.down && (dragging || grip.grabbed),
        grip.released ==> !still_dragging(scrollbar, dragging, grip),
{
}

/// There is something to scroll exactly where there are more rows than the viewport
/// shows, and then by as many as do not show.
pub proof fn law_hidden_rows_can_be_scrolled(s: Scrollbar, b: bool, n: u64)
    requires
        call_ensures(Scrollbar::is_scrollable, (s,), b),
        b ==> call_ensures(Scrollbar::range, (s,), n),
    ensures
        b <==> s.len < s.total,
        b ==> s.len + n == s.total,
{
}

/// The scrollbar is grabbed within sixteen pixels of the right edge, and its thumb
/// is never less than ten high.
pub proof fn law_the_thumb_can_be_grabbed(width: i32, x: i32, proportional: i32, h: i32)
    requires
        width >= i32::MIN + 16,
        call_ensures(grab_left, (width,), x),
        call_ensures(thumb_height, (proportional,), h),
    ensures
        x + 16 == width,
        h >= 10 && h >= proportional,
        h == 10 || h == proportional,
{
}

/// The scrollbar is held after a frame exactly where it can be scrolled, was held
/// or grabbed, and was not let go; the mouse input is then its own. The viewport
/// scrolls exactly where it was held or grabbed with the button down away from the
/// target, and then right to the target.
pub proof fn law_dragging_moves_the_viewport(
    dragging: &mut bool,
    scrollbar: Option<Scrollbar>,
    grip: Grip,
    r: (bool, Option<i64>),
)
    requires
        scrollbar matches Some(s) ==> s.offset <= i64::MAX,
        grip.target >= 0,
        call_ensures(handle_scrollbar, (dragging, scrollbar, grip), r),
    ensures
        r.0 == *final(dragging),
        r.0 <==> scrollbar is Some && scrollbar->0.total > scrollbar->0.len && (*old(dragging)
            || grip.grabbed) && !grip.released,
        r.1 is Some <==> scrollbar is Some && scrollbar->0.total > scrollbar->0.len && (*old(
            dragging,
        ) || grip.grabbed) && grip.down && grip.target != scrollbar->0.offset,
        r.1 matches Some(delta) ==> scrollbar->0.offset + delta == grip.target,
{
}

} // verus!
