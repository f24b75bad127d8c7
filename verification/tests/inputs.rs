use kbd_backlight::access::{access_mode, requested_access, AccessFlags, AccessMode};
use kbd_backlight::clock::{Timestamp, CHECK_EVENTS_INTERVAL, IDLE_MAX_TIME};
use kbd_backlight::level::{parse_brightness, BRIGHTNESS_OFF};
use kbd_backlight::watch::{observer_action, Delivery, ObserverAction};

#[test]
fn reference_values() {
    assert_eq!(IDLE_MAX_TIME, 10000);
    assert_eq!(CHECK_EVENTS_INTERVAL, 100);
    assert_eq!(BRIGHTNESS_OFF, '0');
}

#[test]
fn elapsed_time_is_counted_in_whole_milliseconds() {
    let origin = Timestamp::from_nanos(0);
    assert_eq!(Timestamp::from_nanos(0).elapsed_millis(origin), Some(0));
    assert_eq!(Timestamp::from_nanos(999_999).elapsed_millis(origin), Some(0));
    assert_eq!(Timestamp::from_nanos(1_000_000).elapsed_millis(origin), Some(1));
    assert_eq!(Timestamp::from_nanos(1_999_999).elapsed_millis(origin), Some(1));
    let since = Timestamp::from_nanos(2_500_000);
    assert_eq!(Timestamp::from_nanos(12_499_999).elapsed_millis(since), Some(9));
    assert_eq!(Timestamp::from_nanos(12_500_000).elapsed_millis(since), Some(10));
    assert_eq!(since.elapsed_millis(since), Some(0));
}

#[test]
fn elapsed_time_is_undefined_for_a_clock_that_ran_backwards() {
    let since = Timestamp::from_nanos(2_500_000);
    assert_eq!(Timestamp::from_nanos(2_499_999).elapsed_millis(since), None);
    assert_eq!(Timestamp::from_nanos(0).elapsed_millis(since), None);
}

#[test]
fn timestamps_convert_between_units() {
    assert_eq!(Timestamp::from_millis(0), Timestamp::from_nanos(0));
    assert_eq!(Timestamp::from_millis(10001), Timestamp::from_nanos(10_001_000_000));
    assert_eq!(Timestamp::from_millis(3).as_nanos(), 3_000_000);
    assert_eq!(
        Timestamp::from_millis(u64::MAX).as_nanos(),
        18_446_744_073_709_551_615_000_000u128
    );
    assert_eq!(Timestamp::from_nanos(u128::MAX).as_nanos(), u128::MAX);
    assert_eq!(
        Timestamp::from_nanos(u128::MAX).elapsed_millis(Timestamp::from_nanos(0)),
        Some(u128::MAX / 1_000_000)
    );
}

#[test]
fn report_holds_its_first_character() {
    assert_eq!(parse_brightness("2\n"), Some('2'));
    assert_eq!(parse_brightness("0"), Some('0'));
    assert_eq!(parse_brightness("10\n"), Some('1'));
    assert_eq!(parse_brightness("\n"), Some('\n'));
    assert_eq!(parse_brightness("é1"), Some('é'));
}

#[test]
fn empty_report_holds_no_level() {
    assert_eq!(parse_brightness(""), None);
}

#[test]
fn only_a_sound_notification_is_read() {
    assert_eq!(
        observer_action(Delivery::Notification { has_path: true, operation_ok: true }),
        ObserverAction::ReadBrightness
    );
    assert_eq!(
        observer_action(Delivery::Notification { has_path: false, operation_ok: true }),
        ObserverAction::ReportBrokenEvent
    );
    assert_eq!(
        observer_action(Delivery::Notification { has_path: true, operation_ok: false }),
        ObserverAction::ReportBrokenEvent
    );
    assert_eq!(
        observer_action(Delivery::Notification { has_path: false, operation_ok: false }),
        ObserverAction::ReportBrokenEvent
    );
    assert_eq!(observer_action(Delivery::Failed), ObserverAction::ReportWatchError);
}

#[test]
fn access_mode_follows_the_flag_table() {
    let table = AccessFlags { read_only: 0, write_only: 1, read_write: 2 };
    assert_eq!(access_mode(0, table), AccessMode { read: false, write: false });
    assert_eq!(access_mode(1, table), AccessMode { read: false, write: true });
    assert_eq!(access_mode(2, table), AccessMode { read: true, write: true });
    assert_eq!(access_mode(2 | 0o4000, table), AccessMode { read: true, write: true });
    assert_eq!(access_mode(0o4000, table), AccessMode { read: false, write: false });

    let other = AccessFlags { read_only: 1, write_only: 2, read_write: 3 };
    assert_eq!(access_mode(1, other), AccessMode { read: true, write: true });
    assert_eq!(access_mode(4, other), AccessMode { read: false, write: false });
    assert_eq!(access_mode(-1, other), AccessMode { read: true, write: true });
}

#[test]
fn requested_access_uses_the_platform_flags() {
    let table = AccessFlags {
        read_only: libc::O_RDONLY,
        write_only: libc::O_WRONLY,
        read_write: libc::O_RDWR,
    };
    for flags in [
        0,
        libc::O_RDONLY,
        libc::O_WRONLY,
        libc::O_RDWR,
        libc::O_RDWR | libc::O_NONBLOCK,
        libc::O_WRONLY | libc::O_CLOEXEC,
        -1,
    ] {
        assert_eq!(requested_access(flags), access_mode(flags, table));
    }
    assert_eq!(requested_access(0), AccessMode { read: false, write: false });
    assert_eq!(requested_access(libc::O_RDWR), AccessMode { read: true, write: true });
}
