use evmon::event::{DeviceEvent, EV_KEY, KEY_Q};
use evmon::quit::{QuitDetector, QUIT_WINDOW_MICROS};
use evmon::time::Timestamp;

fn key(code: u16, value: i32, seconds: u64, microseconds: u32) -> DeviceEvent {
    DeviceEvent {
        time: Timestamp::new(seconds, microseconds),
        event_type: EV_KEY,
        event_code: code,
        type_label: "EV_KEY".to_string(),
        code_label: if code == KEY_Q { "KEY_Q".to_string() } else { "KEY_A".to_string() },
        value,
    }
}

#[test]
fn window_is_a_fifth_of_a_second() {
    assert_eq!(QUIT_WINDOW_MICROS, 200_000);
}

#[test]
fn new_detector_remembers_time_zero() {
    let d = QuitDetector::new();
    assert_eq!(d.last_press(), Timestamp::new(0, 0));
    assert_eq!(d.last_press(), Timestamp::zero());
}

#[test]
fn first_press_arms_and_is_remembered() {
    let mut d = QuitDetector::new();
    assert!(!d.observe(&key(KEY_Q, 1, 1700000000, 250)));
    assert_eq!(d.last_press(), Timestamp::new(1700000000, 250));
}

#[test]
fn first_press_at_the_end_of_the_window_arms() {
    let mut d = QuitDetector::new();
    assert!(!d.observe(&key(KEY_Q, 1, 0, 200_000)));
    assert_eq!(d.last_press(), Timestamp::new(0, 200_000));
}

#[test]
fn first_press_inside_the_window_after_time_zero_quits() {
    let mut d = QuitDetector::new();
    assert!(d.observe(&key(KEY_Q, 1, 0, 199_999)));
    assert_eq!(d.last_press(), Timestamp::zero());
}

#[test]
fn second_press_inside_the_window_quits() {
    let mut d = QuitDetector::new();
    assert!(!d.observe(&key(KEY_Q, 1, 1, 0)));
    assert!(d.observe(&key(KEY_Q, 1, 1, 100_000)));
    assert_eq!(d.last_press(), Timestamp::new(1, 0));
}

#[test]
fn second_press_just_inside_the_window_quits() {
    let mut d = QuitDetector::new();
    assert!(!d.observe(&key(KEY_Q, 1, 5, 900_000)));
    assert!(d.observe(&key(KEY_Q, 1, 6, 99_999)));
}

#[test]
fn second_press_exactly_at_the_window_does_not_quit() {
    let mut d = QuitDetector::new();
    assert!(!d.observe(&key(KEY_Q, 1, 5, 900_000)));
    assert!(!d.observe(&key(KEY_Q, 1, 6, 100_000)));
    assert_eq!(d.last_press(), Timestamp::new(6, 100_000));
}

#[test]
fn second_press_after_the_window_rearms() {
    let mut d = QuitDetector::new();
    assert!(!d.observe(&key(KEY_Q, 1, 1, 0)));
    assert!(!d.observe(&key(KEY_Q, 1, 1, 300_000)));
    assert_eq!(d.last_press(), Timestamp::new(1, 300_000));
    assert!(d.observe(&key(KEY_Q, 1, 1, 450_000)));
}

#[test]
fn press_at_the_same_time_quits() {
    let mut d = QuitDetector::new();
    assert!(!d.observe(&key(KEY_Q, 1, 9, 9)));
    assert!(d.observe(&key(KEY_Q, 1, 9, 9)));
}

#[test]
fn release_and_repeat_are_ignored() {
    let mut d = QuitDetector::new();
    assert!(!d.observe(&key(KEY_Q, 1, 10, 0)));
    assert!(!d.observe(&key(KEY_Q, 0, 10, 10_000)));
    assert!(!d.observe(&key(KEY_Q, 2, 10, 20_000)));
    assert!(!d.observe(&key(KEY_Q, 2, 10, 30_000)));
    assert!(!d.observe(&key(KEY_Q, -1, 10, 40_000)));
    assert_eq!(d.last_press(), Timestamp::new(10, 0));
    assert!(d.observe(&key(KEY_Q, 1, 10, 50_000)));
}

#[test]
fn release_and_repeat_do_not_arm() {
    let mut d = QuitDetector::new();
    assert!(!d.observe(&key(KEY_Q, 0, 10, 0)));
    assert!(!d.observe(&key(KEY_Q, 2, 10, 1)));
    assert_eq!(d.last_press(), Timestamp::zero());
}

#[test]
fn other_keys_are_ignored() {
    let mut d = QuitDetector::new();
    assert!(!d.observe(&key(30, 1, 10, 0)));
    assert!(!d.observe(&key(30, 1, 10, 1)));
    assert_eq!(d.last_press(), Timestamp::zero());
}

#[test]
fn same_code_in_another_category_is_ignored() {
    let mut d = QuitDetector::new();
    let mut ev = key(KEY_Q, 1, 10, 0);
    ev.event_type = 2;
    assert!(!ev.is_quit_press());
    assert!(!d.observe(&ev));
    assert!(!d.observe(&ev));
    assert_eq!(d.last_press(), Timestamp::zero());
}

#[test]
fn press_before_the_remembered_one_does_not_quit() {
    let mut d = QuitDetector::new();
    assert!(!d.observe(&key(KEY_Q, 1, 100, 0)));
    assert!(!d.observe(&key(KEY_Q, 1, 99, 950_000)));
    assert_eq!(d.last_press(), Timestamp::new(99, 950_000));
}

#[test]
fn microseconds_beyond_a_second_carry_over() {
    let mut d = QuitDetector::new();
    assert!(!d.observe(&key(KEY_Q, 1, 1, 1_950_000)));
    assert!(d.observe(&key(KEY_Q, 1, 3, 0)));
}

#[test]
fn largest_stamps_do_not_overflow() {
    let mut d = QuitDetector::new();
    assert!(!d.observe(&key(KEY_Q, 1, u64::MAX, 0)));
    assert!(!d.observe(&key(KEY_Q, 1, u64::MAX, u32::MAX)));
    assert_eq!(d.last_press(), Timestamp::new(u64::MAX, u32::MAX));
}

#[test]
fn quit_press_is_told_from_other_events() {
    assert!(key(KEY_Q, 1, 0, 0).is_quit_press());
    assert!(!key(KEY_Q, 0, 0, 0).is_quit_press());
    assert!(!key(KEY_Q, 2, 0, 0).is_quit_press());
    assert!(!key(30, 1, 0, 0).is_quit_press());
}
