use cazzmachine_lib::settings::{clamp_thread_count, clamp_throttle_level, Controls};

#[test]
fn controls_start_at_defaults() {
    let c = Controls::new();
    assert_eq!(c.get_throttle_level(), 5);
    assert_eq!(c.get_consumption_threads(), 1);
    assert!(!c.next_notification_skipped());
}

#[test]
fn throttle_level_is_clamped_and_read_back() {
    let mut c = Controls::new();
    let e = c.set_throttle_level(0);
    assert_eq!(c.get_throttle_level(), 1);
    assert_eq!(e.event_type, "setting_change");
    assert_eq!(e.severity, "info");
    assert_eq!(e.message, "Throttle level set to 1");
    let e = c.set_throttle_level(200);
    assert_eq!(c.get_throttle_level(), 9);
    assert_eq!(e.message, "Throttle level set to 9");
    c.set_throttle_level(7);
    assert_eq!(c.get_throttle_level(), 7);
    assert_eq!(c.get_consumption_threads(), 1);
}

#[test]
fn thread_count_is_clamped_and_read_back() {
    let mut c = Controls::new();
    let e = c.set_consumption_threads(0);
    assert_eq!(c.get_consumption_threads(), 1);
    assert_eq!(e.message, "Thread count set to 1");
    let e = c.set_consumption_threads(12);
    assert_eq!(c.get_consumption_threads(), 8);
    assert_eq!(e.message, "Thread count set to 8");
    c.set_consumption_threads(4);
    assert_eq!(c.get_consumption_threads(), 4);
    assert_eq!(c.get_throttle_level(), 5);
}

#[test]
fn skip_next_notification_sets_flag_only() {
    let mut c = Controls::new();
    c.skip_next_notification();
    assert!(c.next_notification_skipped());
    assert_eq!(c.get_throttle_level(), 5);
    assert_eq!(c.get_consumption_threads(), 1);
}

#[test]
fn clamps_are_idempotent() {
    for x in 0..=255u8 {
        let t = clamp_throttle_level(x);
        assert!((1..=9).contains(&t));
        assert_eq!(clamp_throttle_level(t), t);
        let n = clamp_thread_count(x);
        assert!((1..=8).contains(&n));
        assert_eq!(clamp_thread_count(n), n);
    }
}
