//! Window focus and pointer capture.
//!
//! Two sources say whether the window should hold the focus: the windowing
//! layer, whose last signal of a frame wins, and the user's toggle, which
//! flips the tracked flag. Both end in one notification, and the capture
//! mode follows the last notification of the frame.

use vstd::prelude::*;

verus! {

/// How the pointer is shown and held.
#[derive(Clone, Copy, PartialEq, Eq, Structural, Debug)]
pub struct CaptureMode {
    pub pointer_visible: bool,
    pub pointer_locked: bool,
}

/// The tracked focus flag.
#[derive(Clone, Copy, PartialEq, Eq, Structural, Debug)]
pub struct FocusState {
    pub focused: bool,
}

/// The capture mode that a notification asks for: hidden and locked with
/// the focus, visible and free without it.
pub open spec fn grab_mode(grab: bool) -> CaptureMode {
    CaptureMode { pointer_visible: !grab, pointer_locked: grab }
}

/// The last focus signal of a frame, if any arrived.
pub open spec fn last_signal(events: Seq<bool>) -> Option<bool> {
    if events.len() == 0 {
        None
    } else {
        Some(events.last())
    }
}

/// The focus flag after a frame: the last signal, or the old flag where none
/// arrived, then flipped by a toggle.
pub open spec fn focused_after(focus: FocusState, events: Seq<bool>, toggle: bool) -> bool {
    let signalled = match last_signal(events) {
        Some(grab) => grab,
        None => focus.focused,
    };
    if toggle {
        !signalled
    } else {
        signalled
    }
}

/// The capture mode after a frame: that of the new focus flag if the frame
/// brought any notification, else the old mode.
pub open spec fn capture_after(
    focus: FocusState,
    capture: CaptureMode,
    events: Seq<bool>,
    toggle: bool,
) -> CaptureMode {
    if events.len() > 0 || toggle {
        grab_mode(focused_after(focus, events, toggle))
    } else {
        capture
    }
}

impl CaptureMode {
    /// The mode before any notification: the pointer is visible and free.
    pub fn new() -> (mode: CaptureMode)
        ensures
            mode == grab_mode(false),
    {
        CaptureMode { pointer_visible: true, pointer_locked: false }
    }
}

impl FocusState {
    /// A window that starts with the focus.
    pub fn new() -> (focus: FocusState)
        ensures
            focus.focused,
    {
        FocusState { focused: true }
    }
}

/// Turns a notification into the capture mode it asks for.
pub fn apply_grab(grab: bool) -> (mode: CaptureMode)
    ensures
        mode == grab_mode(grab),
{
    if grab {
        CaptureMode { pointer_visible: false, pointer_locked: true }
    } else {
        CaptureMode { pointer_visible: true, pointer_locked: false }
    }
}

/// Reduces the focus signals of one frame to a notification: the last one
/// wins and the earlier ones are dropped.
pub fn focus_events(events: &Vec<bool>) -> (grab: Option<bool>)
    ensures
        grab == last_signal(events@),
{
    let n: usize = events.len();
    if n == 0 {
        None
    } else {
        Some(events[n - 1])
    }
}

/// Flips the focus flag and returns the notification of its new value.
pub fn toggle_grab(focus: &mut FocusState) -> (grab: bool)
    ensures
        final(focus).focused == !old(focus).focused,
        grab == final(focus).focused,
{
    focus.focused = !focus.focused;
    focus.focused
}

/// One frame of the focus state machine: the window's signals first, then
/// the toggle, then the capture mode of the last notification.
pub fn update_focus(focus: &mut FocusState, capture: &mut CaptureMode, events: &Vec<bool>, toggle: bool)
    ensures
        final(focus).focused == focused_after(*old(focus), events@, toggle),
        *final(capture) == capture_after(*old(focus), *old(capture), events@, toggle),
{
    let mut notified: Option<bool> = focus_events(events);
    if let Some(grab) = notified {
        focus.focused = grab;
    }
    if toggle {
        notified = Some(toggle_grab(focus));
    }
    if let Some(grab) = notified {
        *capture = apply_grab(grab);
    }
}

/// Of several focus signals in one frame only the last one shows in the
/// capture mode.
pub proof fn lemma_last_signal_wins(focus: FocusState, capture: CaptureMode, earlier: Seq<bool>, last: bool)
    ensures
        focused_after(focus, earlier.push(last), false) == last,
        capture_after(focus, capture, earlier.push(last), false) == grab_mode(last),
{
}

} // verus!
