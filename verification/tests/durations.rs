use sqa::duration::{format_duration, Duration, DurationInfo, DurationInfoInt};
use sqa::text::{push_decimal, push_padded_decimal, decimal_len};

#[test]
fn format_minutes_and_seconds() {
    assert_eq!(format_duration(Duration::new(75, 0), false), "01:15");
}

#[test]
fn format_with_millis() {
    assert_eq!(format_duration(Duration::new(75, 250_000_000), true), "01:15.250");
}

#[test]
fn format_with_hours() {
    assert_eq!(format_duration(Duration::new(3 * 3600 + 2 * 60 + 1, 0), false), "03:02:01");
    assert_eq!(format_duration(Duration::new(3600, 7_000_000), true), "01:00:00.007");
}

#[test]
fn format_zero() {
    assert_eq!(format_duration(Duration::zero(), true), "00:00.000");
    assert_eq!(format_duration(Duration::zero(), false), "00:00");
}

#[test]
fn format_many_hours() {
    assert_eq!(format_duration(Duration::new(100 * 3600, 0), false), "100:00:00");
}

#[test]
fn nanos_to_dur_splits() {
    let d = DurationInfo::nanos_to_dur(2_500_000_001);
    assert_eq!(d.as_secs(), 2);
    assert_eq!(d.subsec_nanos(), 500_000_001);
}

#[test]
fn duration_new_carries_nanos() {
    let d = Duration::new(1, 1_500_000_000);
    assert_eq!(d.as_secs(), 2);
    assert_eq!(d.subsec_nanos(), 500_000_000);
}

#[test]
fn duration_add_and_sub() {
    let a = Duration::new(1, 700_000_000);
    let b = Duration::new(0, 600_000_000);
    let s = a.add_dur(&b);
    assert_eq!((s.as_secs(), s.subsec_nanos()), (2, 300_000_000));
    let d = a.sub_dur(&b);
    assert_eq!((d.as_secs(), d.subsec_nanos()), (1, 100_000_000));
    assert!(b.lt(&a));
    assert!(!a.lt(&b));
}

#[test]
fn elapsed_rounds_half_up() {
    let di = DurationInfo { elapsed: Duration::new(4, 500_000_000), pos: true, est_duration: None };
    let (e, pos) = di.elapsed(true);
    assert_eq!((e.as_secs(), e.subsec_nanos()), (5, 0));
    assert!(pos);
    let di = DurationInfo { elapsed: Duration::new(4, 499_999_999), pos: false, est_duration: None };
    let (e, pos) = di.elapsed(true);
    assert_eq!((e.as_secs(), e.subsec_nanos()), (4, 0));
    assert!(!pos);
    let (e, _) = di.elapsed(false);
    assert_eq!((e.as_secs(), e.subsec_nanos()), (4, 499_999_999));
}

#[test]
fn elapsed_before_start_counts_down() {
    let v = DurationInfoInt { duration: Duration::new(9, 0), start_time: 5_000_000_000, est_duration: None };
    let (e, pos) = v.elapsed_at(2_000_000_000, false);
    assert!(!pos);
    assert_eq!((e.as_secs(), e.subsec_nanos()), (3, 0));
    let (e, pos) = v.elapsed_at(6_000_000_000, false);
    assert!(pos);
    assert_eq!(e.as_secs(), 9);
}

#[test]
fn from_int_at_reports() {
    let v = DurationInfoInt { duration: Duration::new(2, 0), start_time: 10, est_duration: Some(Duration::new(7, 0)) };
    let r = DurationInfo::from_int_at(v, 20);
    assert!(r.pos);
    assert_eq!(r.elapsed.as_secs(), 2);
    assert_eq!(r.est_duration.map(|d| d.as_secs()), Some(7));
}

#[test]
fn decimal_writing() {
    let mut s = String::new();
    push_decimal(&mut s, 0);
    push_decimal(&mut s, 1234);
    assert_eq!(s, "01234");
    let mut t = String::from("x");
    push_padded_decimal(&mut t, 7, 3);
    push_padded_decimal(&mut t, 12345, 2);
    assert_eq!(t, "x00712345");
    assert_eq!(decimal_len(0), 1);
    assert_eq!(decimal_len(99), 2);
    assert_eq!(decimal_len(100), 3);
}
