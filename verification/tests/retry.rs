use checkout::retry::RetryPolicy;

#[test]
fn the_standard_policy_repeats_five_times_from_ten_milliseconds() {
    let policy = RetryPolicy::standard();
    assert_eq!(policy, RetryPolicy { max_retries: 5, first_delay_ms: 10 });
    let delays: Vec<u64> = (0..5).map(|retry| policy.delay_ms(retry)).collect();
    assert_eq!(delays, vec![10, 20, 40, 80, 160]);
}

#[test]
fn a_policy_allows_retries_up_to_its_limit() {
    let policy = RetryPolicy::standard();
    assert!(policy.allows_retry(0));
    assert!(policy.allows_retry(4));
    assert!(!policy.allows_retry(5));
    assert!(!policy.allows_retry(6));
    assert!(!RetryPolicy { max_retries: 0, first_delay_ms: 10 }.allows_retry(0));
}

#[test]
fn each_delay_is_twice_the_one_before() {
    let policy = RetryPolicy { max_retries: 70, first_delay_ms: 3 };
    assert_eq!(policy.delay_ms(0), 3);
    assert_eq!(policy.delay_ms(1), 6);
    assert_eq!(policy.delay_ms(10), 3072);
    assert_eq!(policy.delay_ms(62), 3 << 62);
}

#[test]
fn a_delay_that_cannot_be_expressed_is_the_longest_that_can() {
    let policy = RetryPolicy { max_retries: 100, first_delay_ms: 3 };
    assert_eq!(policy.delay_ms(63), u64::MAX);
    assert_eq!(policy.delay_ms(64), u64::MAX);
    assert_eq!(policy.delay_ms(u32::MAX), u64::MAX);
    let policy = RetryPolicy { max_retries: 100, first_delay_ms: 1 };
    assert_eq!(policy.delay_ms(63), 1 << 63);
    assert_eq!(policy.delay_ms(64), u64::MAX);
    let policy = RetryPolicy { max_retries: 1, first_delay_ms: u64::MAX };
    assert_eq!(policy.delay_ms(0), u64::MAX);
    assert_eq!(policy.delay_ms(1), u64::MAX);
}

#[test]
fn a_policy_without_delay_never_waits() {
    let policy = RetryPolicy { max_retries: 3, first_delay_ms: 0 };
    assert_eq!(policy.delay_ms(0), 0);
    assert_eq!(policy.delay_ms(2), 0);
    assert_eq!(policy.delay_ms(u32::MAX), 0);
}
