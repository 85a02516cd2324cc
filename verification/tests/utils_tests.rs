use door_monitor::utils::format_duration;
use std::time::Duration;

#[test]
fn test_format_duration_seconds() {
    let duration = Duration::from_secs(45);
    assert_eq!(format_duration(duration.as_secs()), "00:00:45");
}

#[test]
fn test_format_duration_minutes() {
    let duration = Duration::from_secs(5 * 60 + 30);
    assert_eq!(format_duration(duration.as_secs()), "00:05:30");
}

#[test]
fn test_format_duration_hours() {
    let duration = Duration::from_secs(2 * 3600 + 15 * 60 + 45);
    assert_eq!(format_duration(duration.as_secs()), "02:15:45");
}

#[test]
fn test_format_duration_days() {
    let duration = Duration::from_secs(2 * 86400 + 3 * 3600 + 20 * 60 + 15);
    assert_eq!(format_duration(duration.as_secs()), "2d 03:20:15");
}

#[test]
fn test_format_duration_one_day() {
    let duration = Duration::from_secs(86400); // Exactly 1 day
    assert_eq!(format_duration(duration.as_secs()), "1d 00:00:00");
}

#[test]
fn test_format_duration_zero() {
    let duration = Duration::from_secs(0);
    assert_eq!(format_duration(duration.as_secs()), "00:00:00");
}

#[test]
fn test_format_duration_large() {
    let duration = Duration::from_secs(365 * 86400 + 12 * 3600 + 30 * 60 + 45);
    assert_eq!(format_duration(duration.as_secs()), "365d 12:30:45");
}

#[test]
fn test_duration_formatting_integration() {
    // Test various duration formats that might be used in the application
    let test_cases: Vec<(u64, &str)> = vec![
        (0, "00:00:00"),
        (1, "00:00:01"),
        (60, "00:01:00"),
        (62, "00:01:02"),
        (3661, "01:01:01"),
        (86400, "1d 00:00:00"),
        (90061, "1d 01:01:01"),
        (90122, "1d 01:02:02"),
    ];

    for case in test_cases {
        let duration = Duration::from_secs(case.0);
        assert_eq!(format_duration(duration.as_secs()), case.1);
    }
}

#[test]
fn format_duration_ignores_fractions_of_a_second() {
    let duration = Duration::from_millis(59_999);
    assert_eq!(format_duration(duration.as_secs()), "00:00:59");
}

#[test]
fn format_duration_last_second_of_first_day() {
    assert_eq!(format_duration(86399), "23:59:59");
}

#[test]
fn format_duration_ten_days() {
    assert_eq!(format_duration(10 * 86400), "10d 00:00:00");
}

#[test]
fn format_duration_largest_input() {
    // 18446744073709551615 s = 213503982334601 d 7 h 0 min 15 s
    assert_eq!(format_duration(u64::MAX), "213503982334601d 07:00:15");
}

fn read_back(text: &str) -> u64 {
    let (days, clock) = match text.split_once("d ") {
        Some((days, clock)) => (days.parse::<u64>().unwrap(), clock),
        None => (0, text),
    };
    let fields: Vec<&str> = clock.split(':').collect();
    assert_eq!(fields.len(), 3);
    assert!(fields.iter().all(|f| f.len() == 2 && f.bytes().all(|b| b.is_ascii_digit())));
    let hours: u64 = fields[0].parse().unwrap();
    let minutes: u64 = fields[1].parse().unwrap();
    let seconds: u64 = fields[2].parse().unwrap();
    assert!(hours < 24 && minutes < 60 && seconds < 60);
    days * 86400 + hours * 3600 + minutes * 60 + seconds
}

#[test]
fn format_duration_reads_back_to_its_input() {
    let samples: Vec<u64> = vec![
        0, 1, 9, 10, 59, 60, 61, 599, 3599, 3600, 35999, 36000, 86399, 86400, 86401, 863999,
        864000, 8640000, 31_536_000, 123_456_789, u64::MAX,
    ];
    for secs in samples {
        assert_eq!(read_back(&format_duration(secs)), secs);
    }
}
