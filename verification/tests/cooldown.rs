use catnip::database::Member;
use catnip::stream_notify::cooldown_seconds;
use catnip::stream_notify::decide;
use catnip::stream_notify::Decision;
use catnip::stream_notify::DEFAULT_STREAM_NOTIFY_COOLDOWN;
use catnip::text::parse_i64;

#[test]
fn decide_at_cooldown_boundary_skips() {
    let member = Member { last_stream_notify_timestamp: 1000 };
    assert_eq!(decide(&member, 1100, 100), Decision::Skip);
}

#[test]
fn decide_past_cooldown_boundary_notifies() {
    let member = Member { last_stream_notify_timestamp: 1000 };
    assert_eq!(
        decide(&member, 1101, 100),
        Decision::Notify(Member { last_stream_notify_timestamp: 1101 })
    );
}

#[test]
fn decide_for_never_notified_member() {
    let member = Member::default();
    assert_eq!(member.last_stream_notify_timestamp, 0);
    assert_eq!(
        decide(&member, 7, 6),
        Decision::Notify(Member { last_stream_notify_timestamp: 7 })
    );
    assert_eq!(decide(&member, 6, 6), Decision::Skip);
}

#[test]
fn decide_handles_extreme_timestamps_without_panicking() {
    let member = Member { last_stream_notify_timestamp: i64::MIN };
    assert_eq!(
        decide(&member, i64::MAX, 0),
        Decision::Notify(Member { last_stream_notify_timestamp: i64::MAX })
    );
    let recent = Member { last_stream_notify_timestamp: i64::MAX };
    assert_eq!(decide(&recent, i64::MIN, 0), Decision::Skip);
}

#[test]
fn race_window_both_stale_reads_double_notify() {
    // Two handlers read the same stale member before either persists:
    // both decide to notify. This is the one documented double-notify
    // window.
    let stale = Member { last_stream_notify_timestamp: 0 };
    let first = decide(&stale, 1000, 100);
    let second = decide(&stale, 1001, 100);
    assert!(matches!(first, Decision::Notify(_)));
    assert!(matches!(second, Decision::Notify(_)));
}

#[test]
fn sequential_rounds_never_double_notify() {
    // The second handler reads after the first one persisted: within the
    // refreshed window it always skips.
    let stale = Member { last_stream_notify_timestamp: 0 };
    let first = decide(&stale, 1000, 100);
    let updated = match first {
        Decision::Notify(m) => m,
        Decision::Skip => panic!("first event must notify"),
    };
    assert_eq!(updated.last_stream_notify_timestamp, 1000);
    // Any second read at or before now + cooldown sees the new timestamp.
    assert_eq!(decide(&updated, 1100, 100), Decision::Skip);
    // Once a full window passed, notifying again is correct.
    assert!(matches!(decide(&updated, 1101, 100), Decision::Notify(_)));
}

#[test]
fn cooldown_default_when_unset() {
    assert_eq!(cooldown_seconds(None), 21600);
    assert_eq!(DEFAULT_STREAM_NOTIFY_COOLDOWN, 21600);
}

#[test]
fn cooldown_uses_well_formed_override() {
    assert_eq!(cooldown_seconds(Some("9000")), 9000);
    assert_eq!(cooldown_seconds(Some("+42")), 42);
    assert_eq!(cooldown_seconds(Some("-5")), -5);
    assert_eq!(cooldown_seconds(Some("0")), 0);
}

#[test]
fn cooldown_falls_back_on_malformed_override() {
    assert_eq!(cooldown_seconds(Some("")), 21600);
    assert_eq!(cooldown_seconds(Some("six hours")), 21600);
    assert_eq!(cooldown_seconds(Some("12h")), 21600);
    assert_eq!(cooldown_seconds(Some("+")), 21600);
    assert_eq!(cooldown_seconds(Some("-")), 21600);
    assert_eq!(cooldown_seconds(Some(" 5")), 21600);
}

#[test]
fn parse_i64_accepts_the_full_range() {
    assert_eq!(parse_i64("9223372036854775807"), Some(i64::MAX));
    assert_eq!(parse_i64("-9223372036854775808"), Some(i64::MIN));
    assert_eq!(parse_i64("00012"), Some(12));
    assert_eq!(parse_i64("-0"), Some(0));
}

#[test]
fn parse_i64_rejects_overflow_and_junk() {
    assert_eq!(parse_i64("9223372036854775808"), None);
    assert_eq!(parse_i64("-9223372036854775809"), None);
    assert_eq!(parse_i64("184467440737095516160"), None);
    assert_eq!(parse_i64("1.5"), None);
    assert_eq!(parse_i64("--3"), None);
}
