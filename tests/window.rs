use rate_limiter::{Rate, RateLimitError, ReadyStep, TokenWindow};

#[test]
fn rate_keeps_its_parts() {
    let rate = Rate::new(5, 15_000);
    assert_eq!(rate.num(), 5);
    assert_eq!(rate.per(), 15_000);
}

#[test]
fn error_message() {
    let e = RateLimitError(());
    assert_eq!(e.message(), "Rate limited");
    assert_eq!(RateLimitError::default().message(), "Rate limited");
}

#[test]
fn new_window_is_full() {
    let w = TokenWindow::new(Rate::new(3, 1_000), 42);
    assert_eq!(w.tokens(), 3);
    assert_eq!(w.last_refresh(), 42);
    assert_eq!(w.get_rate(), Rate::new(3, 1_000));
}

#[test]
fn capacity_bound_within_one_window() {
    let mut w = TokenWindow::new(Rate::new(4, 10_000), 0);
    let mut admitted = 0;
    for t in [0u64, 100, 2_000, 5_000, 9_000, 9_999] {
        if w.try_admit(t).is_ok() {
            admitted += 1;
        }
    }
    assert_eq!(admitted, 4);
    assert_eq!(w.tokens(), 0);
    assert!(w.try_admit(9_999).is_err());
}

#[test]
fn window_rollover_five_per_fifteen_seconds() {
    let mut w = TokenWindow::new(Rate::new(5, 15_000), 0);
    for _ in 0..5 {
        assert!(w.try_admit(0).is_ok());
    }
    assert!(w.try_admit(0).is_err());
    w.refresh_tokens(15_000);
    assert_eq!(w.tokens(), 5);
    assert_eq!(w.last_refresh(), 15_000);
    assert!(w.try_admit(15_000).is_ok());
    assert_eq!(w.tokens(), 4);
}

#[test]
fn retry_after_period_is_admitted() {
    let mut w = TokenWindow::new(Rate::new(5, 15_000), 0);
    for _ in 0..5 {
        assert!(w.try_admit(0).is_ok());
    }
    assert!(w.try_admit(14_999).is_err());
    assert!(w.try_admit(15_000).is_ok());
    assert_eq!(w.tokens(), 4);
}

#[test]
fn phase_alignment_at_twenty_three_seconds() {
    let mut w = TokenWindow::new(Rate::new(2, 10_000), 0);
    assert!(w.try_admit(0).is_ok());
    w.refresh_tokens(23_000);
    assert_eq!(w.last_refresh(), 20_000);
    assert_eq!(w.tokens(), 2);
}

#[test]
fn phase_alignment_keeps_the_grid() {
    let mut w = TokenWindow::new(Rate::new(1, 7_000), 1_000);
    w.refresh_tokens(30_500);
    // 29_500 ms elapsed: four whole periods and 1_500 ms over.
    assert_eq!(w.last_refresh(), 29_000);
    assert_eq!((w.last_refresh() - 1_000) % 7_000, 0);
}

#[test]
fn no_refresh_before_a_whole_period() {
    let mut w = TokenWindow::new(Rate::new(2, 10_000), 5_000);
    assert!(w.try_admit(5_000).is_ok());
    w.refresh_tokens(14_999);
    assert_eq!(w.tokens(), 1);
    assert_eq!(w.last_refresh(), 5_000);
}

#[test]
fn clock_behind_window_start_changes_nothing() {
    let mut w = TokenWindow::new(Rate::new(2, 10_000), 50_000);
    assert!(w.try_admit(50_000).is_ok());
    w.refresh_tokens(0);
    assert_eq!(w.tokens(), 1);
    assert_eq!(w.last_refresh(), 50_000);
}

#[test]
fn largest_instant_does_not_overflow() {
    let mut w = TokenWindow::new(Rate::new(1, 1), 0);
    assert!(w.try_admit(0).is_ok());
    w.refresh_tokens(u64::MAX);
    assert_eq!(w.tokens(), 1);
    assert_eq!(w.last_refresh(), u64::MAX);
    let mut v = TokenWindow::new(Rate::new(1, u64::MAX), 0);
    v.refresh_tokens(u64::MAX);
    assert_eq!(v.last_refresh(), u64::MAX);
}

#[test]
fn more_callers_than_count_admits_exactly_count() {
    let mut w = TokenWindow::new(Rate::new(5, 15_000), 1_000);
    let outcomes: Vec<bool> = (0..12u64).map(|i| w.try_admit(1_000 + i * 100).is_ok()).collect();
    assert_eq!(outcomes.iter().filter(|ok| **ok).count(), 5);
    assert_eq!(&outcomes[..5], &[true; 5]);
    assert!(outcomes[5..].iter().all(|ok| !*ok));
}

#[test]
fn ready_step_with_permit_held_forwards() {
    let mut w = TokenWindow::new(Rate::new(1, 1_000), 0);
    assert!(w.try_admit(0).is_ok());
    assert_eq!(w.ready_step(true, 0).unwrap(), ReadyStep::Forward);
    assert_eq!(w.tokens(), 0);
}

#[test]
fn ready_step_without_permit() {
    let mut w = TokenWindow::new(Rate::new(1, 1_000), 0);
    assert_eq!(w.ready_step(false, 0).unwrap(), ReadyStep::Acquire);
    // The step leaves the token for the caller to take once it holds a permit.
    assert_eq!(w.tokens(), 1);
    w.take_token();
    assert!(w.ready_step(false, 500).is_err());
    assert_eq!(w.ready_step(false, 1_000).unwrap(), ReadyStep::Acquire);
    assert_eq!(w.tokens(), 1);
}
