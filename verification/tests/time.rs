use net_client::TimeSpan;

fn span(secs: u64, nanos: u32) -> TimeSpan {
    TimeSpan::new(secs, nanos).expect("a proper fraction of a second")
}

#[test]
fn new_takes_nanos_below_one_second() {
    let t = span(3, 999_999_999);
    assert_eq!(t.as_secs(), 3);
    assert_eq!(t.subsec_nanos(), 999_999_999);
}

#[test]
fn new_refuses_a_whole_second_of_nanos() {
    assert!(TimeSpan::new(0, 1_000_000_000).is_none());
    assert!(TimeSpan::new(7, u32::MAX).is_none());
}

#[test]
fn zero_is_empty() {
    let z = TimeSpan::zero();
    assert!(z.is_zero());
    assert_eq!(z.as_secs(), 0);
    assert_eq!(z.subsec_nanos(), 0);
    assert_eq!(z.as_millis(), 0);
    assert!(!span(0, 1).is_zero());
    assert!(!span(1, 0).is_zero());
}

#[test]
fn as_millis_counts_whole_milliseconds() {
    assert_eq!(span(1, 500_000_000).as_millis(), 1500);
    assert_eq!(span(0, 999_999).as_millis(), 0);
    assert_eq!(span(0, 1_000_000).as_millis(), 1);
    assert_eq!(span(1_700_000_000, 123_456_789).as_millis(), 1_700_000_000_123);
}

#[test]
fn as_millis_of_the_longest_span_does_not_overflow() {
    let longest = span(u64::MAX, 999_999_999);
    assert_eq!(longest.as_millis(), 18_446_744_073_709_551_615_u128 * 1000 + 999);
}

#[test]
fn le_orders_by_length() {
    assert!(span(1, 0).le(&span(1, 0)));
    assert!(span(1, 999_999_999).le(&span(2, 0)));
    assert!(!span(2, 0).le(&span(1, 999_999_999)));
    assert!(span(5, 10).le(&span(5, 11)));
    assert!(!span(5, 11).le(&span(5, 10)));
}

#[test]
fn saturating_sub_without_borrow() {
    let d = span(10, 700).saturating_sub(&span(4, 200));
    assert_eq!(d, span(6, 500));
}

#[test]
fn saturating_sub_borrows_a_second() {
    let d = span(2, 100).saturating_sub(&span(1, 200));
    assert_eq!(d, span(0, 999_999_900));
}

#[test]
fn saturating_sub_stops_at_zero() {
    assert!(span(1, 0).saturating_sub(&span(1, 0)).is_zero());
    assert!(span(1, 0).saturating_sub(&span(1, 1)).is_zero());
    assert!(span(0, 5).saturating_sub(&span(9, 0)).is_zero());
}

#[test]
fn saturating_sub_of_the_extremes() {
    let longest = span(u64::MAX, 999_999_999);
    assert_eq!(longest.saturating_sub(&TimeSpan::zero()), longest);
    assert_eq!(longest.saturating_sub(&span(0, 1)), span(u64::MAX, 999_999_998));
}

#[test]
fn later_picks_the_later_instant() {
    assert_eq!(span(3, 0).later(&span(2, 999_999_999)), span(3, 0));
    assert_eq!(span(2, 5).later(&span(2, 6)), span(2, 6));
    assert_eq!(span(2, 5).later(&span(2, 5)), span(2, 5));
}
