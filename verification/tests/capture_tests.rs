use click4loop::capture::{CaptureWorker, HookDecision};
use click4loop::events::{EventKind, MouseButton, MouseEvent};

fn press(button: MouseButton) -> EventKind {
    EventKind::ButtonPress { button }
}

fn release(button: MouseButton) -> EventKind {
    EventKind::ButtonRelease { button }
}

#[test]
fn stop_request_exits_without_processing() {
    let mut w = CaptureWorker::new();
    let d = w.observe(true, press(MouseButton::Left), 0);
    assert_eq!(d, HookDecision::Exit);
    assert!(w.last_event_kind.is_none());
}

#[test]
fn recorded_event_snapshots_last_move_coordinates() {
    let mut w = CaptureWorker::new();
    assert_eq!(
        w.observe(false, EventKind::MouseMove { x: 100, y: 200 }, 0),
        HookDecision::Pass
    );
    let d = w.observe(false, press(MouseButton::Left), 5);
    assert_eq!(
        d,
        HookDecision::Record {
            event: MouseEvent {
                x: 100,
                y: 200,
                button: Some(MouseButton::Left),
            }
        }
    );
}

#[test]
fn first_button_event_records_at_origin() {
    let mut w = CaptureWorker::new();
    let d = w.observe(false, press(MouseButton::Middle), 0);
    assert_eq!(
        d,
        HookDecision::Record {
            event: MouseEvent {
                x: 0,
                y: 0,
                button: Some(MouseButton::Middle),
            }
        }
    );
}

#[test]
fn same_kind_within_window_is_debounced() {
    // press(Left) at 0 ms, 30 ms, 100 ms: the middle one is within the
    // 50 ms window of the first, so only two are recorded.
    let mut w = CaptureWorker::new();
    let mut recorded: usize = 0;
    for t in [0u64, 30, 100] {
        if let HookDecision::Record { .. } = w.observe(false, press(MouseButton::Left), t) {
            recorded += 1;
        }
    }
    assert_eq!(recorded, 2);
}

#[test]
fn differing_kinds_are_never_debounced() {
    // press(Left) at 0 ms, release(Left) at 10 ms: both recorded.
    let mut w = CaptureWorker::new();
    let d1 = w.observe(false, press(MouseButton::Left), 0);
    let d2 = w.observe(false, release(MouseButton::Left), 10);
    assert!(matches!(d1, HookDecision::Record { .. }));
    assert!(matches!(d2, HookDecision::Record { .. }));
}

#[test]
fn same_kind_beyond_window_is_recorded() {
    let mut w = CaptureWorker::new();
    let d1 = w.observe(false, press(MouseButton::Right), 0);
    let d2 = w.observe(false, press(MouseButton::Right), 51);
    assert!(matches!(d1, HookDecision::Record { .. }));
    assert!(matches!(d2, HookDecision::Record { .. }));
}

#[test]
fn moves_update_coordinates_but_record_nothing() {
    let mut w = CaptureWorker::new();
    assert_eq!(
        w.observe(false, EventKind::MouseMove { x: 3, y: 4 }, 0),
        HookDecision::Pass
    );
    assert_eq!((w.cx, w.cy), (3, 4));
    // A move to different coordinates is a different kind, so it is always
    // eligible, however quickly it follows.
    assert_eq!(
        w.observe(false, EventKind::MouseMove { x: 5, y: 6 }, 1),
        HookDecision::Pass
    );
    assert_eq!((w.cx, w.cy), (5, 6));
}

#[test]
fn repeated_identical_move_within_window_changes_nothing() {
    let mut w = CaptureWorker::new();
    w.observe(false, EventKind::MouseMove { x: 9, y: 9 }, 0);
    let d = w.observe(false, EventKind::MouseMove { x: 9, y: 9 }, 10);
    assert_eq!(d, HookDecision::Pass);
    assert_eq!((w.cx, w.cy), (9, 9));
    assert_eq!(w.last_event_time_ms, 0);
}

#[test]
fn other_kinds_pass_through_but_refresh_debounce() {
    let mut w = CaptureWorker::new();
    let d1 = w.observe(false, press(MouseButton::Left), 0);
    assert!(matches!(d1, HookDecision::Record { .. }));
    // An eligible unrelated event refreshes the debounce reference...
    assert_eq!(w.observe(false, EventKind::Other, 10), HookDecision::Pass);
    // ...so a press 30 ms after the first press is eligible again, its kind
    // differing from the last eligible one.
    let d2 = w.observe(false, press(MouseButton::Left), 30);
    assert!(matches!(d2, HookDecision::Record { .. }));
}

#[test]
fn debounce_clock_resets_on_each_eligible_event() {
    let mut w = CaptureWorker::new();
    // Eligible at 0; the one at 30 is suppressed and does not refresh the
    // clock; the one at 60 is more than 50 ms after 0, so it is recorded.
    assert!(matches!(
        w.observe(false, press(MouseButton::Left), 0),
        HookDecision::Record { .. }
    ));
    assert_eq!(
        w.observe(false, press(MouseButton::Left), 30),
        HookDecision::Pass
    );
    assert!(matches!(
        w.observe(false, press(MouseButton::Left), 60),
        HookDecision::Record { .. }
    ));
}
