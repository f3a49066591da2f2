//! The interactive session's decision logic: the event-driven state machine
//! that turns decoded display-server events into actions (re-render, pick a
//! color, terminate), the bounded keyboard-grab retry policy, and the small
//! checks the setup sequence performs on grab and keymap replies. Everything
//! here is pure; the surrounding program performs the requests and hands the
//! decoded replies back.

use vstd::prelude::*;
use crate::snapshot::Snapshot;

verus! {

/// The mouse button that confirms a selection: the primary (left) button.
pub const SELECTION_BUTTON: u8 = 1;

/// The reply status a successful grab request reports.
pub const GRAB_STATUS_SUCCESS: u8 = 0;

/// How long the keyboard grab keeps being retried, in milliseconds.
pub const KEYBOARD_GRAB_TIMEOUT_MS: u64 = 1000;

/// The pause between keyboard grab attempts, in milliseconds.
pub const KEYBOARD_GRAB_RETRY_DELAY_MS: u64 = 5;

/// A decoded display-server event, as the state machine sees it.
pub enum SessionEvent {
    /// A mouse button was pressed at the given root coordinates.
    ButtonPress { button: u8, x: i16, y: i16 },
    /// A key with the given physical keycode was pressed.
    KeyPress { keycode: u8 },
    /// The pointer moved to the given root coordinates.
    Motion { x: i16, y: i16 },
    /// Any other event.
    Other,
}

/// What the event loop must do after one event.
pub enum SessionStep {
    /// The session is over: the picked color, or `None` on cancellation.
    Finish(Option<u32>),
    /// Re-render the magnifier for this pointer position and move the
    /// overlay window so it stays centered there.
    Repaint { x: i16, y: i16 },
    /// The confirm key was pressed: query the current pointer position,
    /// then pick the color there.
    ConfirmAtPointer,
    /// Nothing to do.
    Ignore,
}

/// The physical keycodes the session reacts to, resolved from the symbolic
/// Escape and Return keys at session start.
pub struct KeyBindings {
    /// Cancels the session.
    pub escape: u8,
    /// Confirms a pick at the current pointer position.
    pub confirm: u8,
}

/// The step the state machine takes for one event. A primary-button press
/// picks the color under the (clamped) event coordinates; the escape key
/// cancels; the confirm key defers to a pointer query; motion requests a
/// repaint; everything else is ignored.
pub open spec fn spec_handle_event(snap: Snapshot, keys: KeyBindings, ev: SessionEvent) -> SessionStep {
    match ev {
        SessionEvent::ButtonPress { button, x, y } => {
            if button == SELECTION_BUTTON {
                SessionStep::Finish(Some(snap.spec_picked_color(x as int, y as int)))
            } else {
                SessionStep::Ignore
            }
        },
        SessionEvent::KeyPress { keycode } => {
            if keycode == keys.escape {
                SessionStep::Finish(None)
            } else if keycode == keys.confirm {
                SessionStep::ConfirmAtPointer
            } else {
                SessionStep::Ignore
            }
        },
        SessionEvent::Motion { x, y } => SessionStep::Repaint { x, y },
        SessionEvent::Other => SessionStep::Ignore,
    }
}

/// Decides the event loop's next action for one decoded event.
pub fn handle_event(snap: &Snapshot, keys: &KeyBindings, ev: &SessionEvent) -> (r: SessionStep)
    requires
        snap.wf(),
    ensures
        r == spec_handle_event(*snap, *keys, *ev),
{
    match *ev {
        SessionEvent::ButtonPress { button, x, y } => {
            if button == SELECTION_BUTTON {
                SessionStep::Finish(Some(snap.pick_color(x, y)))
            } else {
                SessionStep::Ignore
            }
        },
        SessionEvent::KeyPress { keycode } => {
            if keycode == keys.escape {
                SessionStep::Finish(None)
            } else if keycode == keys.confirm {
                SessionStep::ConfirmAtPointer
            } else {
                SessionStep::Ignore
            }
        },
        SessionEvent::Motion { x, y } => SessionStep::Repaint { x, y },
        SessionEvent::Other => SessionStep::Ignore,
    }
}

/// The result of a whole session run over a finite event stream: the outcome
/// of the first terminating event, or `None` once the stream is exhausted
/// (stream termination counts as cancellation). A confirm-key press picks at
/// `pointer`, the position a query would report at that moment.
pub open spec fn spec_session_result(
    snap: Snapshot,
    keys: KeyBindings,
    events: Seq<SessionEvent>,
    pointer: (i16, i16),
) -> Option<u32>
    decreases events.len(),
{
    if events.len() == 0 {
        None
    } else {
        match spec_handle_event(snap, keys, events[0]) {
            SessionStep::Finish(r) => r,
            SessionStep::ConfirmAtPointer => Some(
                snap.spec_picked_color(pointer.0 as int, pointer.1 as int),
            ),
            SessionStep::Repaint { x, y } => spec_session_result(
                snap,
                keys,
                events.drop_first(),
                pointer,
            ),
            SessionStep::Ignore => spec_session_result(snap, keys, events.drop_first(), pointer),
        }
    }
}

/// Runs the state machine over a finite, already-decoded event stream and
/// returns the session outcome. Repaints have no bearing on the outcome, so
/// this models an interactive run whose pointer queries all report
/// `pointer`; it is how terminal behavior is exercised without a display
/// server.
#[verifier::loop_isolation(false)]
pub fn run_session(
    snap: &Snapshot,
    keys: &KeyBindings,
    events: &Vec<SessionEvent>,
    pointer: (i16, i16),
) -> (r: Option<u32>)
    requires
        snap.wf(),
    ensures
        r == spec_session_result(*snap, *keys, events@, pointer),
{
    let n: usize = events.len();
    let mut idx: usize = 0;
    proof {
        assert(events@.skip(0) =~= events@);
    }
    while idx < n
        invariant
            idx <= n,
            spec_session_result(*snap, *keys, events@, pointer) == spec_session_result(
                *snap,
                *keys,
                events@.skip(idx as int),
                pointer,
            ),
        decreases n - idx,
    {
        proof {
            assert(events@.skip(idx as int).drop_first() =~= events@.skip(idx as int + 1));
            assert(events@.skip(idx as int)[0] == events@[idx as int]);
        }
        match handle_event(snap, keys, &events[idx]) {
            SessionStep::Finish(r) => {
                return r;
            },
            SessionStep::ConfirmAtPointer => {
                return Some(snap.pick_color(pointer.0, pointer.1));
            },
            SessionStep::Repaint { x: _, y: _ } => {},
            SessionStep::Ignore => {},
        }
        idx += 1;
    }
    None
}

/// What one round of the keyboard-grab retry policy decides.
pub enum GrabRetryStep {
    /// The grab succeeded; the session may become interactive.
    Acquired,
    /// The grab failed and the deadline has passed: give up, fatally.
    GiveUp,
    /// The grab failed but time remains: sleep this many milliseconds,
    /// then try again.
    RetryAfterMs(u64),
}

/// The bounded retry policy for the exclusive keyboard grab: a success ends
/// the retries; a refusal after the deadline is fatal; a refusal before it
/// asks for one more attempt after a short fixed pause. Servers briefly
/// refuse the grab right after a window is mapped, so one attempt is
/// unreliable, but an unbounded retry could hang forever.
pub fn keyboard_grab_step(status: u8, elapsed_ms: u64) -> (r: GrabRetryStep)
    ensures
        status == GRAB_STATUS_SUCCESS ==> r == GrabRetryStep::Acquired,
        status != GRAB_STATUS_SUCCESS && elapsed_ms >= KEYBOARD_GRAB_TIMEOUT_MS ==> r
            == GrabRetryStep::GiveUp,
        status != GRAB_STATUS_SUCCESS && elapsed_ms < KEYBOARD_GRAB_TIMEOUT_MS ==> r
            == GrabRetryStep::RetryAfterMs(KEYBOARD_GRAB_RETRY_DELAY_MS),
{
    if status == GRAB_STATUS_SUCCESS {
        GrabRetryStep::Acquired
    } else if elapsed_ms >= KEYBOARD_GRAB_TIMEOUT_MS {
        GrabRetryStep::GiveUp
    } else {
        GrabRetryStep::RetryAfterMs(KEYBOARD_GRAB_RETRY_DELAY_MS)
    }
}

/// A fatal setup failure; any of these aborts the session before it becomes
/// interactive.
pub enum SetupError {
    /// No 32-bit true-color visual is available on this screen.
    NoArgbVisual,
    /// The exclusive pointer grab was refused; there is no retry.
    PointerGrabRefused,
    /// The keyboard grab was still refused when the retry deadline passed.
    KeyboardGrabTimedOut,
    /// Escape or Return has no physical keycode in the current keymap.
    KeycodeUnresolved,
}

/// Checks a keymap lookup: keycode zero means the symbolic key has no
/// physical key in the current layout, which is fatal.
pub fn resolve_keycode(raw: u8) -> (r: Result<u8, SetupError>)
    ensures
        raw != 0 ==> r == Ok::<u8, SetupError>(raw),
        raw == 0 ==> r == Err::<u8, SetupError>(SetupError::KeycodeUnresolved),
{
    if raw == 0 {
        Err(SetupError::KeycodeUnresolved)
    } else {
        Ok(raw)
    }
}

/// Checks the pointer-grab reply: any status but success is immediately
/// fatal, since the session cannot run without exclusive pointer control.
pub fn check_pointer_grab(status: u8) -> (r: Result<(), SetupError>)
    ensures
        status == GRAB_STATUS_SUCCESS ==> r == Ok::<(), SetupError>(()),
        status != GRAB_STATUS_SUCCESS ==> r == Err::<(), SetupError>(
            SetupError::PointerGrabRefused,
        ),
{
    if status == GRAB_STATUS_SUCCESS {
        Ok(())
    } else {
        Err(SetupError::PointerGrabRefused)
    }
}

/// Where the overlay window's top-left corner goes so the window stays
/// centered on the pointer.
pub fn overlay_position(px: i16, py: i16, win_size: u16) -> (r: (i32, i32))
    ensures
        r.0 == px as int - win_size as int / 2,
        r.1 == py as int - win_size as int / 2,
{
    (px as i32 - win_size as i32 / 2, py as i32 - win_size as i32 / 2)
}

} // verus!
