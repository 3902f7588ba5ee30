use polygon_mcp::retry::{DEFAULT_BASE_DELAY_MS, DEFAULT_MAX_DELAY_MS};
use polygon_mcp::RetryConfig;

#[test]
fn default_config_has_reasonable_values() {
    let config = RetryConfig::default();
    assert_eq!(config.base_delay_ms, 500);
    assert_eq!(config.max_delay_ms, 30_000);
    assert_eq!(config.max_retries, 3);
}

#[test]
fn delay_increases_exponentially() {
    let config = RetryConfig::new().with_base_delay(100);

    let delay1 = config.calculate_delay(1);
    let delay2 = config.calculate_delay(2);
    let delay3 = config.calculate_delay(3);

    assert!(delay1 < 200);
    assert!(delay2 > delay1);
    assert!(delay3 > delay2);
}

#[test]
fn delay_capped_at_max() {
    let config = RetryConfig::new().with_base_delay(1000).with_max_delay(5000);

    let delay = config.calculate_delay(10);
    assert!(delay <= 5000);
}

#[test]
fn retry_after_hint_is_respected() {
    let config = RetryConfig::new().with_base_delay(100);

    let hint = 10_000;
    let delay = config.calculate_delay_with_hint(1, Some(hint));

    assert!(delay >= hint);
}

#[test]
fn jitter_adds_variation() {
    let config = RetryConfig::new().with_base_delay(1000);

    let delays: Vec<u64> = (0..10).map(|_| config.calculate_delay(1)).collect();

    let all_same = delays.windows(2).all(|w| w[0] == w[1]);
    assert!(!all_same, "jitter should add variation to delays");
}

#[test]
fn defaults_match_constants() {
    let config = RetryConfig::new();
    assert_eq!(config.base_delay_ms, DEFAULT_BASE_DELAY_MS);
    assert_eq!(config.max_delay_ms, DEFAULT_MAX_DELAY_MS);
}

#[test]
fn backoff_without_jitter_doubles_then_caps() {
    let config = RetryConfig::new().with_base_delay(100).with_max_delay(1000);
    let delays: Vec<u64> = (1..=7).map(|n| config.delay_with_jitter(n, 0)).collect();
    assert_eq!(delays, vec![100, 200, 400, 800, 1000, 1000, 1000]);
    assert_eq!(config.capped_backoff(0), 100);
    assert_eq!(config.capped_backoff(u32::MAX), 1000);
}

#[test]
fn backoff_is_monotone_for_zero_jitter() {
    let config = RetryConfig::new().with_base_delay(7).with_max_delay(30_000);
    let mut last = 0;
    for n in 1..40 {
        let d = config.delay_with_jitter(n, 0);
        assert!(d >= last);
        assert!(d <= 30_000);
        last = d;
    }
}

#[test]
fn jitter_is_floored_and_capped() {
    let config = RetryConfig::new().with_base_delay(100).with_max_delay(150);
    assert_eq!(config.delay_with_jitter(1, -30), 70);
    assert_eq!(config.delay_with_jitter(1, -500), 0);
    assert_eq!(config.delay_with_jitter(1, 40), 140);
    assert_eq!(config.delay_with_jitter(1, 90), 150);
    assert_eq!(config.jitter_range(1), 30);
    assert_eq!(config.jitter_range(2), 45);
}

#[test]
fn jittered_delay_stays_within_thirty_percent() {
    let config = RetryConfig::new().with_base_delay(1000);
    for _ in 0..50 {
        let d = config.calculate_delay(1);
        assert!((700..=1300).contains(&d));
    }
}

#[test]
fn hint_is_a_floor_not_a_replacement() {
    let config = RetryConfig::new().with_base_delay(100);
    assert_eq!(config.delay_with_hint_and_jitter(1, Some(10_000), 0), 10_000);
    assert_eq!(config.delay_with_hint_and_jitter(3, Some(10), 0), 400);
    assert_eq!(config.delay_with_hint_and_jitter(3, None, 12), 412);
    let d = config.calculate_delay_with_hint(2, Some(50));
    assert!((140..=260).contains(&d));
}

#[test]
fn zero_base_delay_gives_zero() {
    let config = RetryConfig::new().with_base_delay(0);
    assert_eq!(config.calculate_delay(5), 0);
}
