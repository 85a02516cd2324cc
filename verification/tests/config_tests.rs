use door_monitor::config::{default_sms_intervals, Args, NotificationPolicy};
use std::time::Duration;

#[test]
fn test_sms_intervals() {
    let sms_intervals = default_sms_intervals();

    assert_eq!(Duration::from_secs(sms_intervals[0]), Duration::from_secs(300));
    assert_eq!(Duration::from_secs(sms_intervals[1]), Duration::from_secs(900));
    assert_eq!(Duration::from_secs(sms_intervals[2]), Duration::from_secs(1800));
    assert_eq!(Duration::from_secs(sms_intervals[3]), Duration::from_secs(3600));
    assert_eq!(sms_intervals.len(), 4);
}

#[test]
fn args_default_values() {
    let args = Args::default();
    assert!(args.api_url.is_none());
    assert_eq!(args.check_interval_seconds, 5);
    assert_eq!(args.open_too_long_seconds, 15);
    assert!(!args.sms_off);
    assert!(args.sms_api_username.is_none());
    assert!(args.sms_api_password.is_none());
    assert!(args.sms_from_phone_number.is_none());
    assert!(args.sms_to_phone_number.is_none());
    assert!(!args.no_sms_backoff);
    assert!(!args.telegram_off);
    assert!(args.telegram_token.is_none());
    assert!(args.telegram_conversation_id.is_none());
    assert!(!args.telegram_test);
    assert!(args.test_message.is_none());
    assert!(args.sms_backoff());
}

#[test]
fn args_sms_backoff_is_off_with_the_flag() {
    let args = Args { no_sms_backoff: true, ..Args::default() };
    assert!(!args.sms_backoff());
}

#[test]
fn policy_from_args_takes_threshold_and_mode() {
    let args = Args { open_too_long_seconds: 30, no_sms_backoff: true, ..Args::default() };
    let policy = NotificationPolicy::from_args(&args);
    assert_eq!(policy.warning_threshold, 30);
    assert!(!policy.sms_backoff);
    assert_eq!(policy.sms_intervals, vec![300, 900, 1800, 3600]);

    let policy = NotificationPolicy::from_args(&Args::default());
    assert_eq!(policy.warning_threshold, 15);
    assert!(policy.sms_backoff);
}

#[test]
fn interval_inside_the_list() {
    let policy = NotificationPolicy::from_args(&Args::default());
    assert_eq!(policy.interval_for(0), 300);
    assert_eq!(policy.interval_for(1), 900);
    assert_eq!(policy.interval_for(2), 1800);
    assert_eq!(policy.interval_for(3), 3600);
}

#[test]
fn interval_beyond_the_list_stays_at_the_last() {
    let policy = NotificationPolicy::from_args(&Args::default());
    assert_eq!(policy.interval_for(4), 3600);
    assert_eq!(policy.interval_for(5), 3600);
    assert_eq!(policy.interval_for(1000), 3600);
    assert_eq!(policy.interval_for(usize::MAX), 3600);

    let custom = NotificationPolicy {
        warning_threshold: 0,
        sms_backoff: true,
        sms_intervals: vec![10, 20],
    };
    assert_eq!(custom.interval_for(0), 10);
    assert_eq!(custom.interval_for(1), 20);
    assert_eq!(custom.interval_for(2), 20);
    assert_eq!(custom.interval_for(99), 20);
}

#[test]
fn interval_of_an_empty_list_is_one_hour() {
    let policy = NotificationPolicy {
        warning_threshold: 0,
        sms_backoff: true,
        sms_intervals: Vec::new(),
    };
    assert_eq!(policy.interval_for(0), 3600);
    assert_eq!(policy.interval_for(7), 3600);
}
