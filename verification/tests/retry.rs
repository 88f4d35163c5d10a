use tt2::retry::RetryPolicy;

#[test]
fn flat_policy_never_gives_up() {
    let p = RetryPolicy::fixed_one_second();
    assert_eq!(p.delay_ms(0), 1000);
    assert_eq!(p.delay_ms(1), 1000);
    assert_eq!(p.delay_ms(17), 1000);
    assert!(!p.gives_up(0));
    assert!(!p.gives_up(1_000_000));
}

#[test]
fn exponential_backoff_doubles_up_to_the_cap() {
    let p = RetryPolicy { base_delay_ms: 100, cap_delay_ms: 1000, max_attempts: None };
    assert_eq!(p.delay_ms(0), 100);
    assert_eq!(p.delay_ms(1), 200);
    assert_eq!(p.delay_ms(2), 400);
    assert_eq!(p.delay_ms(3), 800);
    assert_eq!(p.delay_ms(4), 1000);
    assert_eq!(p.delay_ms(5), 1000);
}

#[test]
fn base_above_cap_is_clamped() {
    let p = RetryPolicy { base_delay_ms: 5000, cap_delay_ms: 1000, max_attempts: None };
    assert_eq!(p.delay_ms(0), 1000);
    assert_eq!(p.delay_ms(3), 1000);
}

#[test]
fn configured_maximum_ends_the_episode() {
    let p = RetryPolicy { base_delay_ms: 100, cap_delay_ms: 1000, max_attempts: Some(5) };
    assert!(!p.gives_up(4));
    assert!(p.gives_up(5));
    assert!(p.gives_up(6));
}
