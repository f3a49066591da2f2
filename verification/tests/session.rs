use xcolor::session::check_pointer_grab;
use xcolor::session::handle_event;
use xcolor::session::keyboard_grab_step;
use xcolor::session::overlay_position;
use xcolor::session::resolve_keycode;
use xcolor::session::run_session;
use xcolor::session::GrabRetryStep;
use xcolor::session::KeyBindings;
use xcolor::session::SessionEvent;
use xcolor::session::SessionStep;
use xcolor::session::SetupError;
use xcolor::session::KEYBOARD_GRAB_RETRY_DELAY_MS;
use xcolor::snapshot::Snapshot;

const ESCAPE: u8 = 9;
const CONFIRM: u8 = 36;

fn keys() -> KeyBindings {
    KeyBindings { escape: ESCAPE, confirm: CONFIRM }
}

// A 20x20 snapshot whose pixel at (x, y) is y * 20 + x plus a marker bit.
fn snapshot_20x20() -> Snapshot {
    let mut pixels = Vec::new();
    for k in 0..400u32 {
        pixels.push(0xFF000000 | k);
    }
    Snapshot::new(pixels, 20, 20).unwrap()
}

fn color_at(snap: &Snapshot, x: u32, y: u32) -> u32 {
    snap.pixels[(y * snap.width as u32 + x) as usize]
}

#[test]
fn snapshot_new_accepts_exact_buffer() {
    let snap = Snapshot::new(vec![0; 12], 4, 3);
    assert!(snap.is_some());
    let snap = snap.unwrap();
    assert_eq!(snap.width, 4);
    assert_eq!(snap.height, 3);
}

#[test]
fn snapshot_new_rejects_bad_dimensions() {
    assert!(Snapshot::new(vec![0; 11], 4, 3).is_none());
    assert!(Snapshot::new(vec![0; 13], 4, 3).is_none());
    assert!(Snapshot::new(vec![], 0, 3).is_none());
    assert!(Snapshot::new(vec![], 4, 0).is_none());
}

#[test]
fn pick_color_clamps_both_axes() {
    let snap = snapshot_20x20();
    // In-bounds reads are direct.
    assert_eq!(snap.pick_color(10, 10), color_at(&snap, 10, 10));
    // Off-screen coordinates resolve to the nearest edge pixel.
    assert_eq!(snap.pick_color(-5, 10), color_at(&snap, 0, 10));
    assert_eq!(snap.pick_color(25, 10), color_at(&snap, 19, 10));
    assert_eq!(snap.pick_color(10, -1), color_at(&snap, 10, 0));
    assert_eq!(snap.pick_color(10, 99), color_at(&snap, 10, 19));
    assert_eq!(snap.pick_color(-100, 100), color_at(&snap, 0, 19));
}

#[test]
fn primary_button_finishes_with_picked_color() {
    let snap = snapshot_20x20();
    let step = handle_event(
        &snap,
        &keys(),
        &SessionEvent::ButtonPress { button: 1, x: 10, y: 10 },
    );
    let expected = color_at(&snap, 10, 10);
    assert!(matches!(step, SessionStep::Finish(Some(c)) if c == expected));
}

#[test]
fn other_button_is_ignored() {
    let snap = snapshot_20x20();
    let step = handle_event(
        &snap,
        &keys(),
        &SessionEvent::ButtonPress { button: 3, x: 10, y: 10 },
    );
    assert!(matches!(step, SessionStep::Ignore));
}

#[test]
fn escape_key_cancels() {
    let snap = snapshot_20x20();
    let step = handle_event(&snap, &keys(), &SessionEvent::KeyPress { keycode: ESCAPE });
    assert!(matches!(step, SessionStep::Finish(None)));
}

#[test]
fn confirm_key_defers_to_pointer_query() {
    let snap = snapshot_20x20();
    let step = handle_event(&snap, &keys(), &SessionEvent::KeyPress { keycode: CONFIRM });
    assert!(matches!(step, SessionStep::ConfirmAtPointer));
}

#[test]
fn other_key_is_ignored() {
    let snap = snapshot_20x20();
    let step = handle_event(&snap, &keys(), &SessionEvent::KeyPress { keycode: 55 });
    assert!(matches!(step, SessionStep::Ignore));
}

#[test]
fn motion_requests_repaint() {
    let snap = snapshot_20x20();
    let step = handle_event(&snap, &keys(), &SessionEvent::Motion { x: 3, y: 4 });
    assert!(matches!(step, SessionStep::Repaint { x: 3, y: 4 }));
}

#[test]
fn off_screen_button_press_resolves_to_edge_pixel() {
    let snap = snapshot_20x20();
    let step = handle_event(
        &snap,
        &keys(),
        &SessionEvent::ButtonPress { button: 1, x: -3, y: 50 },
    );
    let expected = color_at(&snap, 0, 19);
    assert!(matches!(step, SessionStep::Finish(Some(c)) if c == expected));
}

#[test]
fn session_button_press_returns_known_color() {
    let snap = snapshot_20x20();
    let events = vec![SessionEvent::ButtonPress { button: 1, x: 10, y: 10 }];
    let result = run_session(&snap, &keys(), &events, (0, 0));
    assert_eq!(result, Some(color_at(&snap, 10, 10)));
}

#[test]
fn session_escape_returns_none() {
    let snap = snapshot_20x20();
    let events = vec![
        SessionEvent::Motion { x: 4, y: 4 },
        SessionEvent::KeyPress { keycode: ESCAPE },
    ];
    let result = run_session(&snap, &keys(), &events, (0, 0));
    assert_eq!(result, None);
}

#[test]
fn session_stream_exhaustion_returns_none() {
    let snap = snapshot_20x20();
    let events: Vec<SessionEvent> = vec![];
    assert_eq!(run_session(&snap, &keys(), &events, (0, 0)), None);
}

#[test]
fn session_ignores_events_before_terminal_one() {
    let snap = snapshot_20x20();
    let events = vec![
        SessionEvent::Other,
        SessionEvent::ButtonPress { button: 2, x: 1, y: 1 },
        SessionEvent::KeyPress { keycode: 77 },
        SessionEvent::Motion { x: 2, y: 2 },
        SessionEvent::ButtonPress { button: 1, x: 7, y: 3 },
        SessionEvent::KeyPress { keycode: ESCAPE },
    ];
    let result = run_session(&snap, &keys(), &events, (0, 0));
    assert_eq!(result, Some(color_at(&snap, 7, 3)));
}

#[test]
fn session_confirm_picks_at_pointer() {
    let snap = snapshot_20x20();
    let events = vec![
        SessionEvent::Motion { x: 3, y: 4 },
        SessionEvent::KeyPress { keycode: CONFIRM },
    ];
    let result = run_session(&snap, &keys(), &events, (3, 4));
    assert_eq!(result, Some(color_at(&snap, 3, 4)));
}

#[test]
fn keyboard_grab_success_ends_retries() {
    assert!(matches!(keyboard_grab_step(0, 0), GrabRetryStep::Acquired));
    assert!(matches!(keyboard_grab_step(0, 5000), GrabRetryStep::Acquired));
}

#[test]
fn keyboard_grab_gives_up_after_deadline() {
    assert!(matches!(keyboard_grab_step(1, 1000), GrabRetryStep::GiveUp));
    assert!(matches!(keyboard_grab_step(3, 2000), GrabRetryStep::GiveUp));
}

#[test]
fn keyboard_grab_retries_before_deadline() {
    assert!(matches!(
        keyboard_grab_step(1, 0),
        GrabRetryStep::RetryAfterMs(d) if d == KEYBOARD_GRAB_RETRY_DELAY_MS
    ));
    assert!(matches!(
        keyboard_grab_step(2, 999),
        GrabRetryStep::RetryAfterMs(5)
    ));
}

#[test]
fn resolve_keycode_rejects_zero() {
    assert!(matches!(
        resolve_keycode(0),
        Err(SetupError::KeycodeUnresolved)
    ));
    assert!(matches!(resolve_keycode(9), Ok(9)));
}

#[test]
fn pointer_grab_status_check() {
    assert!(matches!(check_pointer_grab(0), Ok(())));
    assert!(matches!(
        check_pointer_grab(1),
        Err(SetupError::PointerGrabRefused)
    ));
}

#[test]
fn overlay_stays_centered_on_pointer() {
    assert_eq!(overlay_position(100, 50, 11), (95, 45));
    assert_eq!(overlay_position(0, 0, 11), (-5, -5));
    assert_eq!(overlay_position(-3, 2, 101), (-53, -48));
}
