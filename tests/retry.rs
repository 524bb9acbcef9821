use avp_policy_sync::retry::{BackoffStrategy, DEFAULT_RETRY_TIMEOUT_SECONDS};

#[test]
fn default_deadline_is_ten_seconds() {
    assert_eq!(BackoffStrategy::default().time_limit_seconds, 10);
    assert_eq!(DEFAULT_RETRY_TIMEOUT_SECONDS, 10);
}

#[test]
fn configured_deadline_is_read_as_a_number() {
    assert_eq!(BackoffStrategy::from_setting(Some("30")).time_limit_seconds, 30);
    assert_eq!(BackoffStrategy::from_setting(Some("+7")).time_limit_seconds, 7);
    assert_eq!(BackoffStrategy::from_setting(Some("abc")).time_limit_seconds, 10);
    assert_eq!(BackoffStrategy::from_setting(Some("-5")).time_limit_seconds, 10);
    assert_eq!(BackoffStrategy::from_setting(Some("")).time_limit_seconds, 10);
    assert_eq!(BackoffStrategy::from_setting(None).time_limit_seconds, 10);
    assert_eq!(BackoffStrategy::new(3).time_limit_seconds, 3);
}

#[test]
fn deadline_setting_at_the_limits_of_u64() {
    assert_eq!(
        BackoffStrategy::from_setting(Some("18446744073709551615")).time_limit_seconds,
        u64::MAX
    );
    assert_eq!(
        BackoffStrategy::from_setting(Some("18446744073709551616")).time_limit_seconds,
        10
    );
    assert_eq!(BackoffStrategy::from_setting(Some("+")).time_limit_seconds, 10);
    assert_eq!(BackoffStrategy::from_setting(Some("12a")).time_limit_seconds, 10);
}
