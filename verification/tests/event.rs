use evmon::event::{
    DeviceEvent, Outcome, ReadStatus, EV_KEY, KEY_Q, NO_DATA_BSD, NO_DATA_LINUX,
};
use evmon::time::Timestamp;
use nix::errno::Errno;

fn press() -> DeviceEvent {
    DeviceEvent {
        time: Timestamp::new(3, 14),
        event_type: EV_KEY,
        event_code: KEY_Q,
        type_label: "EV_KEY".to_string(),
        code_label: "KEY_Q".to_string(),
        value: 1,
    }
}

#[test]
fn quit_key_is_q_in_the_key_category() {
    assert_eq!(EV_KEY, 1);
    assert_eq!(KEY_Q, 16);
}

#[test]
fn delivered_event_is_an_event() {
    assert_eq!(Outcome::of_event(ReadStatus::Success, press()), Outcome::Event(press()));
    assert_eq!(Outcome::of_read(Ok((ReadStatus::Success, press()))), Outcome::Event(press()));
}

#[test]
fn sync_status_asks_for_resync() {
    assert_eq!(Outcome::of_event(ReadStatus::Sync, press()), Outcome::ResyncNeeded);
    assert_eq!(Outcome::of_read(Ok((ReadStatus::Sync, press()))), Outcome::ResyncNeeded);
}

#[test]
fn no_data_error_would_block() {
    assert_eq!(Outcome::of_failure(11, 11), Outcome::WouldBlock);
    assert_eq!(Outcome::of_failure(35, 35), Outcome::WouldBlock);
}

#[test]
fn other_errors_are_fatal() {
    assert_eq!(Outcome::of_failure(5, 11), Outcome::Fatal(5));
    assert_eq!(Outcome::of_failure(11, 35), Outcome::Fatal(11));
    assert_eq!(Outcome::of_failure(0, 11), Outcome::Fatal(0));
    assert_eq!(Outcome::of_failure(-11, 11), Outcome::Fatal(-11));
}

#[test]
fn platform_no_data_error_would_block() {
    assert_eq!(Outcome::of_read(Err(Errno::EAGAIN as i32)), Outcome::WouldBlock);
}

#[test]
fn platform_other_errors_are_fatal() {
    assert_eq!(Outcome::of_read(Err(Errno::EIO as i32)), Outcome::Fatal(Errno::EIO as i32));
    assert_eq!(Outcome::of_read(Err(Errno::ENODEV as i32)), Outcome::Fatal(Errno::ENODEV as i32));
    assert_eq!(Outcome::of_read(Err(0)), Outcome::Fatal(0));
}

#[test]
fn no_data_error_is_one_of_the_two_known() {
    assert_eq!(NO_DATA_LINUX, 11);
    assert_eq!(NO_DATA_BSD, 35);
    let no_data = Errno::EAGAIN as i32;
    assert!(no_data == NO_DATA_LINUX || no_data == NO_DATA_BSD);
}

#[test]
fn errors_other_than_no_data_are_fatal_on_every_platform() {
    for errno in [-35, -11, 0, 1, 5, 10, 12, 19, 34, 36, i32::MAX, i32::MIN] {
        assert_eq!(Outcome::of_read(Err(errno)), Outcome::Fatal(errno));
    }
}
