use voiceinput::hotkey::{key_transition, HotkeyDetector, HotkeyEvent};

const MS: u64 = 1_000_000;

#[test]
fn long_hold_releases() {
    let mut d = HotkeyDetector::new(300);
    assert_eq!(d.on_key(true, true, 1000 * MS), Some(HotkeyEvent::Pressed));
    assert!(d.is_held());
    assert_eq!(d.on_key(true, false, 1300 * MS), Some(HotkeyEvent::Released));
    assert!(!d.is_held());
}

#[test]
fn short_hold_cancels() {
    let mut d = HotkeyDetector::new(300);
    assert_eq!(d.on_key(true, true, 1000 * MS), Some(HotkeyEvent::Pressed));
    assert_eq!(d.on_key(true, false, 1300 * MS - 1), Some(HotkeyEvent::Cancelled));
}

#[test]
fn hold_is_measured_below_the_millisecond() {
    // pressed at 10.9 ms, released at 310.2 ms: held 299.3 ms, short of 300 ms
    let mut d = HotkeyDetector::new(300);
    d.on_key(true, true, 10_900_000);
    assert_eq!(d.on_key(true, false, 310_200_000), Some(HotkeyEvent::Cancelled));
    // released at 310.9 ms: held exactly 300 ms
    d.on_key(true, true, 10_900_000);
    assert_eq!(d.on_key(true, false, 310_900_000), Some(HotkeyEvent::Released));
}

#[test]
fn combination_cancels() {
    let mut d = HotkeyDetector::new(300);
    assert_eq!(d.on_key(true, true, 0), Some(HotkeyEvent::Pressed));
    assert_eq!(d.on_key(false, true, 10 * MS), None);
    assert_eq!(d.on_key(false, false, 20 * MS), None);
    assert_eq!(d.on_key(true, false, 5000 * MS), Some(HotkeyEvent::Cancelled));
    // the next hold starts clean
    assert_eq!(d.on_key(true, true, 6000 * MS), Some(HotkeyEvent::Pressed));
    assert_eq!(d.on_key(true, false, 7000 * MS), Some(HotkeyEvent::Released));
}

#[test]
fn repeated_press_and_stray_release_are_ignored() {
    let mut d = HotkeyDetector::new(0);
    assert_eq!(d.on_key(true, false, 0), None);
    assert_eq!(d.on_key(false, true, 0), None);
    assert_eq!(d.on_key(true, true, 5), Some(HotkeyEvent::Pressed));
    assert_eq!(d.on_key(true, true, 6), None);
    assert_eq!(d.on_key(true, false, 5), Some(HotkeyEvent::Released));
}

#[test]
fn clock_going_backwards_counts_as_no_time() {
    let mut d = HotkeyDetector::new(1);
    d.on_key(true, true, 100 * MS);
    assert_eq!(d.on_key(true, false, 50 * MS), Some(HotkeyEvent::Cancelled));
}

#[test]
fn huge_minimum_hold_does_not_overflow() {
    let mut d = HotkeyDetector::new(u64::MAX);
    d.on_key(true, true, 0);
    assert_eq!(d.on_key(true, false, u64::MAX), Some(HotkeyEvent::Cancelled));
}

#[test]
fn raw_key_values() {
    assert_eq!(key_transition(1), Some(true));
    assert_eq!(key_transition(0), Some(false));
    assert_eq!(key_transition(2), None);
    assert_eq!(key_transition(-1), None);
}

#[test]
fn events_alternate_over_a_session() {
    let mut d = HotkeyDetector::new(100);
    let inputs = [
        (true, true, 0),
        (true, true, 10),
        (false, true, 20),
        (true, false, 300),
        (true, false, 310),
        (false, false, 320),
        (true, true, 400),
        (true, false, 450),
        (true, true, 500),
        (true, false, 700),
        (true, true, 800),
    ];
    let mut events = Vec::new();
    for (is_trigger, is_press, now) in inputs {
        if let Some(e) = d.on_key(is_trigger, is_press, now * MS) {
            events.push(e);
        }
    }
    assert_eq!(
        events,
        vec![
            HotkeyEvent::Pressed,
            HotkeyEvent::Cancelled,
            HotkeyEvent::Pressed,
            HotkeyEvent::Cancelled,
            HotkeyEvent::Pressed,
            HotkeyEvent::Released,
            HotkeyEvent::Pressed,
        ]
    );
    for (i, e) in events.iter().enumerate() {
        assert_eq!(*e == HotkeyEvent::Pressed, i % 2 == 0);
    }
    assert!(d.is_held());
}
