use trade_feed::backoff::{Backoff, Retry, BACKOFF_CAP_SECS, BACKOFF_FLOOR_SECS};

#[test]
fn cold_start_delay_is_the_floor() {
    let backoff = Backoff::new();
    assert_eq!(backoff.delay_secs(), 1);
    assert_eq!(BACKOFF_FLOOR_SECS, 1);
    assert_eq!(BACKOFF_CAP_SECS, 60);
}

#[test]
fn idle_attempts_double_the_pause_up_to_the_cap() {
    let mut backoff = Backoff::new();
    let mut pauses = Vec::new();
    for _ in 0..9 {
        pauses.push(backoff.after_attempt(0).pause_secs);
    }
    assert_eq!(pauses, vec![1, 2, 4, 8, 16, 32, 60, 60, 60]);
    assert_eq!(backoff.delay_secs(), 60);
}

#[test]
fn idle_attempt_is_not_productive() {
    let mut backoff = Backoff::new();
    assert_eq!(backoff.after_attempt(0), Retry { pause_secs: 1, productive: false });
    assert_eq!(backoff.delay_secs(), 2);
}

#[test]
fn productive_attempt_resets_the_pause() {
    let mut backoff = Backoff::new();
    for _ in 0..4 {
        backoff.after_attempt(0);
    }
    assert_eq!(backoff.delay_secs(), 16);
    assert_eq!(backoff.after_attempt(3), Retry { pause_secs: 1, productive: true });
    assert_eq!(backoff.delay_secs(), 1);
    assert_eq!(backoff.after_attempt(0).pause_secs, 1);
    assert_eq!(backoff.after_attempt(0).pause_secs, 2);
}

#[test]
fn productive_attempt_resets_from_the_cap() {
    let mut backoff = Backoff::new();
    for _ in 0..20 {
        backoff.after_attempt(0);
    }
    assert_eq!(backoff.delay_secs(), 60);
    assert_eq!(backoff.after_attempt(1).pause_secs, 1);
    assert_eq!(backoff.delay_secs(), 1);
}

#[test]
fn productive_attempts_in_a_row_keep_the_floor() {
    let mut backoff = Backoff::new();
    for _ in 0..5 {
        assert_eq!(backoff.after_attempt(u64::MAX).pause_secs, 1);
        assert_eq!(backoff.delay_secs(), 1);
    }
}

#[test]
fn delay_stays_within_bounds() {
    let mut backoff = Backoff::new();
    let deliveries = [0u64, 0, 0, 5, 0, 0, 0, 0, 0, 0, 0, 0, 1, 0, 0, 0, 0, 0, 0, 0, 0];
    for &delivered in deliveries.iter() {
        let retry = backoff.after_attempt(delivered);
        assert!(retry.pause_secs >= 1 && retry.pause_secs <= 60);
        assert!(backoff.delay_secs() >= 1 && backoff.delay_secs() <= 60);
    }
}
