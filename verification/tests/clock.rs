use guessing_game::clock::TimeSpan;

#[test]
fn a_span_needs_nanoseconds_below_a_second() {
    assert_eq!(TimeSpan::new(3, 999_999_999), Some(TimeSpan { secs: 3, nanos: 999_999_999 }));
    assert_eq!(TimeSpan::new(3, 1_000_000_000), None);
    assert_eq!(TimeSpan::new(0, u32::MAX), None);
    assert_eq!(TimeSpan::from_secs(10), TimeSpan { secs: 10, nanos: 0 });
}

#[test]
fn has_reached_compares_seconds_then_nanoseconds() {
    let limit = TimeSpan::from_secs(10);
    assert!(TimeSpan::from_secs(10).has_reached(&limit));
    assert!(TimeSpan::new(10, 1).unwrap().has_reached(&limit));
    assert!(TimeSpan::from_secs(11).has_reached(&limit));
    assert!(!TimeSpan::new(9, 999_999_999).unwrap().has_reached(&limit));
    assert!(!TimeSpan::from_secs(0).has_reached(&limit));
    let fine = TimeSpan::new(2, 500).unwrap();
    assert!(TimeSpan::new(2, 500).unwrap().has_reached(&fine));
    assert!(!TimeSpan::new(2, 499).unwrap().has_reached(&fine));
    assert!(TimeSpan::new(3, 0).unwrap().has_reached(&fine));
    assert!(TimeSpan::from_secs(0).has_reached(&TimeSpan::from_secs(0)));
}

#[test]
fn whole_seconds_drop_the_rest() {
    assert_eq!(TimeSpan::new(7, 999_999_999).unwrap().whole_seconds(), 7);
    assert_eq!(TimeSpan::from_secs(0).whole_seconds(), 0);
    assert_eq!(TimeSpan::from_secs(u64::MAX).whole_seconds(), u64::MAX);
}
