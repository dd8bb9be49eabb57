use tetris_core::timer::Timer;

#[test]
fn no_tick_before_interval() {
    let mut t = Timer::new(1_000_000);
    assert_eq!(t.interval(), 1_000_000);
    assert_eq!(t.accumulated(), 0);
    assert_eq!(t.advance(999_999), 0);
    assert_eq!(t.accumulated(), 999_999);
}

#[test]
fn tick_fires_exactly_at_interval() {
    let mut t = Timer::new(1_000_000);
    assert_eq!(t.advance(999_999), 0);
    assert_eq!(t.advance(1), 1);
    assert_eq!(t.accumulated(), 0);
}

#[test]
fn remainder_carries_over() {
    let mut t = Timer::new(10);
    assert_eq!(t.advance(25), 2);
    assert_eq!(t.accumulated(), 5);
    assert_eq!(t.advance(5), 1);
    assert_eq!(t.accumulated(), 0);
}

#[test]
fn one_frame_can_fire_many_ticks() {
    let mut t = Timer::new(10);
    assert_eq!(t.advance(35), 3);
    assert_eq!(t.accumulated(), 5);
}

#[test]
fn tick_total_matches_floor_formula() {
    // 100 frames of delta 3 against interval 7: floor(300 / 7) == 42 ticks,
    // with 300 % 7 == 6 left in the accumulator.
    let mut t = Timer::new(7);
    let mut total: u64 = 0;
    for _ in 0..100 {
        total += t.advance(3);
    }
    assert_eq!(total, 42);
    assert_eq!(t.accumulated(), 6);
}

#[test]
fn drift_stays_under_one_interval() {
    let mut t = Timer::new(16_667);
    for _ in 0..1000 {
        t.advance(10_007);
        assert!(t.accumulated() < 16_667);
    }
}
