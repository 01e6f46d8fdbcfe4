use task_notify::duration::DurationVal;
use task_notify::duration::fmt_dur;
use task_notify::duration::millis;
use task_notify::duration::normalize;
use task_notify::duration::throughput;
use task_notify::text::capitalize;
use task_notify::text::dec_u64;

#[test]
fn rounding_half_up() {
    assert_eq!(normalize(DurationVal::new(1, 500_000_000)), DurationVal::new(2, 0));
    assert_eq!(normalize(DurationVal::new(1, 499_999_999)), DurationVal::new(1, 0));
    assert_eq!(normalize(DurationVal::new(0, 0)), DurationVal::new(0, 0));
}

#[test]
fn rounding_half_up_negative_goes_away_from_zero() {
    assert_eq!(normalize(DurationVal::new(-1, -500_000_000)), DurationVal::new(-2, 0));
    assert_eq!(normalize(DurationVal::new(-1, -499_999_999)), DurationVal::new(-1, 0));
    assert_eq!(normalize(DurationVal::new(0, -700_000_000)), DurationVal::new(-1, 0));
}

#[test]
fn rounding_falls_back_at_the_boundary() {
    let top = DurationVal::new(i64::MAX, 600_000_000);
    assert_eq!(normalize(top), top);
    let bottom = DurationVal::new(i64::MIN, -600_000_000);
    assert_eq!(normalize(bottom), bottom);
}

#[test]
fn compact_display() {
    assert_eq!(fmt_dur(DurationVal::new(222, 0)), "3m42s");
    assert_eq!(fmt_dur(DurationVal::new(180, 0)), "3m");
    assert_eq!(fmt_dur(DurationVal::new(10, 0)), "10s");
    assert_eq!(fmt_dur(DurationVal::new(0, 0)), "0s");
    assert_eq!(fmt_dur(DurationVal::new(3601, 0)), "1h1s");
    assert_eq!(fmt_dur(DurationVal::new(3723, 0)), "1h2m3s");
    assert_eq!(fmt_dur(DurationVal::new(-222, 0)), "-3m42s");
}

#[test]
fn milliseconds_of_duration() {
    assert_eq!(millis(DurationVal::new(1, 500_000_000)), 1500);
    assert_eq!(millis(DurationVal::new(10, 0)), 10_000);
    assert_eq!(millis(DurationVal::new(-1, -500_000_000)), -1500);
}

#[test]
fn throughput_two_decimals() {
    assert_eq!(throughput(50, 10_000).as_deref(), Some("5.00"));
    assert_eq!(throughput(1, 3_000).as_deref(), Some("0.33"));
    assert_eq!(throughput(2, 3_000).as_deref(), Some("0.67"));
    assert_eq!(throughput(1000, 1).as_deref(), Some("1000000.00"));
}

#[test]
fn throughput_omitted_without_positive_duration() {
    assert!(throughput(100, 0).is_none());
    assert!(throughput(100, -5).is_none());
}

#[test]
fn decimal_rendering() {
    assert_eq!(dec_u64(0), "0");
    assert_eq!(dec_u64(7), "7");
    assert_eq!(dec_u64(1_234_567_890), "1234567890");
    assert_eq!(dec_u64(u64::MAX), "18446744073709551615");
}

#[test]
fn capitalize_first_ascii_letter() {
    assert_eq!(capitalize("import"), "Import");
    assert_eq!(capitalize("Import"), "Import");
    assert_eq!(capitalize(""), "");
    assert_eq!(capitalize("7zip"), "7zip");
}
