use aw_watcher_window::schedule::{bucket_id, merge_window_ms, RetryDecision, RetryPolicy};

#[test]
fn merge_window_is_poll_plus_one_second() {
    assert_eq!(merge_window_ms(5000), 6000);
}

#[test]
fn merge_window_exceeds_every_poll_interval() {
    for poll in [0u32, 1, 999, 1000, 5000, u32::MAX] {
        assert!(merge_window_ms(poll) > poll as u64);
    }
}

#[test]
fn retry_policy_proceeds_on_success() {
    let policy = RetryPolicy::new(1000);
    assert_eq!(policy.decide(true), RetryDecision::Proceed);
}

#[test]
fn retry_policy_backs_off_on_failure() {
    let policy = RetryPolicy::new(1000);
    assert_eq!(policy.decide(false), RetryDecision::RetryAfter(1000));
}

#[test]
fn bucket_id_joins_prefix_and_hostname() {
    assert_eq!(bucket_id("myhost"), "aw-watcher-window-rs_myhost");
}
