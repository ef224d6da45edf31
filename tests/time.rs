use simkernel::Time;

#[test]
pub fn test_display_time() {
    let t = Time::new(1, 1000);

    assert_eq!(t.format(None), "1.001000");
    assert_eq!(t.format(Some(0)), "1");
    assert_eq!(t.format(Some(3)), "1.001");
    assert_eq!(t.format(Some(6)), "1.001000");
}

#[test]
fn new_carries_whole_ticks() {
    assert_eq!(Time::new(1, 1_000_000), Time::new(2, 0));
    let t = Time::new(7, 3_500_000);
    assert_eq!(t.ticks, 10);
    assert_eq!(t.micro_ticks, 500_000);
    let u = Time::new(0, u32::MAX);
    assert_eq!(u.ticks, 4294);
    assert_eq!(u.micro_ticks, 967_295);
    assert!(u.micro_ticks < 1_000_000);
}

#[test]
fn new_wraps_tick_overflow() {
    let t = Time::new(u32::MAX, 1_000_001);
    assert_eq!(t.ticks, 0);
    assert_eq!(t.micro_ticks, 1);
}

#[test]
fn normalise_in_place() {
    let mut t = Time { ticks: 4, micro_ticks: 2_000_003 };
    t.normalise();
    assert_eq!(t, Time { ticks: 6, micro_ticks: 3 });
}

#[test]
fn default_is_zero() {
    assert_eq!(Time::default(), Time { ticks: 0, micro_ticks: 0 });
}

#[test]
fn adding_times_carries() {
    let a = Time::new(1, 600_000);
    let b = Time::new(2, 700_000);
    assert_eq!(a + b, Time::new(4, 300_000));
    assert_eq!(a.add_time(b), Time::new(4, 300_000));
}

#[test]
fn adding_ticks_keeps_sub_ticks() {
    let a = Time::new(1, 250);
    assert_eq!(a + 3, Time::new(4, 250));
    assert_eq!(a.add_ticks(3), Time::new(4, 250));
}

#[test]
fn times_order_by_ticks_then_sub_ticks() {
    assert!(Time::new(1, 999_999) < Time::new(2, 0));
    assert!(Time::new(2, 1) > Time::new(2, 0));
    assert!(Time::new(1, 5).is_before(&Time::new(1, 6)));
    assert!(!Time::new(1, 6).is_before(&Time::new(1, 6)));
}

#[test]
fn format_pads_and_truncates() {
    let t = Time::new(12, 45);
    assert_eq!(t.format(Some(6)), "12.000045");
    assert_eq!(t.format(Some(4)), "12.0000");
    assert_eq!(t.format(Some(9)), "12.000045");
    assert_eq!(Time::new(0, 987_654).format(Some(2)), "0.98");
    assert_eq!(Time::new(305, 0).format(Some(1)), "305.0");
    assert_eq!(Time::default().format(None), "0.000000");
}
