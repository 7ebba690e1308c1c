use std::time::Duration;

use aziot_edged::clock_time::is_valid_clock_time;
use aziot_edged::error::ErrorKind;
use aziot_edged::image_prune::{check_settings_and_populate, ImagePruneSettings};
use aziot_edged::time_span::TimeSpan;

fn span(d: Duration) -> TimeSpan {
    TimeSpan::new(d.as_secs(), d.subsec_nanos())
}

fn with_cleanup_time(t: &str) -> ImagePruneSettings {
    ImagePruneSettings::new(
        Some(span(Duration::MAX)),
        Some(span(Duration::MAX)),
        Some(t.to_string()),
        false,
    )
}

#[test]
fn test_validate_settings() {
    let mut settings = ImagePruneSettings::new(
        Some(span(Duration::MAX)),
        Some(span(Duration::MAX)),
        Some("12345".to_string()),
        false,
    );

    let mut result = check_settings_and_populate(&settings);
    assert!(result.is_err());

    settings = ImagePruneSettings::new(
        Some(span(Duration::MAX)),
        Some(span(Duration::MAX)),
        Some("abcde".to_string()),
        false,
    );
    result = check_settings_and_populate(&settings);
    assert!(result.is_err());

    settings = ImagePruneSettings::new(
        Some(span(Duration::MAX)),
        Some(span(Duration::MAX)),
        Some("26:30".to_string()),
        false,
    );
    result = check_settings_and_populate(&settings);
    assert!(result.is_err());

    settings = ImagePruneSettings::new(
        Some(span(Duration::MAX)),
        Some(span(Duration::MAX)),
        Some("16:61".to_string()),
        false,
    );
    result = check_settings_and_populate(&settings);
    assert!(result.is_err());

    settings = ImagePruneSettings::new(
        Some(span(Duration::MAX)),
        Some(span(Duration::MAX)),
        Some("23:333".to_string()),
        false,
    );
    result = check_settings_and_populate(&settings);
    assert!(result.is_err());

    settings = ImagePruneSettings::new(
        Some(span(Duration::MAX)),
        Some(span(Duration::MAX)),
        Some("2:033".to_string()),
        false,
    );
    result = check_settings_and_populate(&settings);
    assert!(result.is_err());

    settings = ImagePruneSettings::new(
        Some(span(Duration::MAX)),
        Some(span(Duration::MAX)),
        Some(":::00".to_string()),
        false,
    );
    result = check_settings_and_populate(&settings);
    assert!(result.is_err());
}

#[test]
fn recurrence_shorter_than_a_day_is_rejected() {
    let settings =
        ImagePruneSettings::new(Some(TimeSpan::from_secs(86_399)), None, None, true);
    let err = check_settings_and_populate(&settings).unwrap_err();
    assert_eq!(err.kind(), ErrorKind::InvalidSettings);
    assert_eq!(err.exit_code(), 78);

    let settings = ImagePruneSettings::new(
        Some(TimeSpan::new(86_399, 999_999_999)),
        None,
        None,
        true,
    );
    assert!(check_settings_and_populate(&settings).is_err());

    let settings = ImagePruneSettings::new(Some(TimeSpan::from_secs(0)), None, None, true);
    assert!(check_settings_and_populate(&settings).is_err());
}

#[test]
fn recurrence_of_exactly_a_day_is_accepted() {
    let settings =
        ImagePruneSettings::new(Some(TimeSpan::from_secs(86_400)), None, None, true);
    let populated = check_settings_and_populate(&settings).unwrap();
    assert_eq!(populated.cleanup_recurrence(), Some(TimeSpan::from_secs(86_400)));
}

#[test]
fn every_clock_time_of_the_day_is_accepted() {
    for hour in 0..24 {
        for minute in 0..60 {
            let t = format!("{:02}:{:02}", hour, minute);
            assert!(is_valid_clock_time(&t), "{}", t);
            let settings = ImagePruneSettings::new(None, None, Some(t.clone()), true);
            let populated = check_settings_and_populate(&settings).unwrap();
            assert_eq!(populated.cleanup_time(), Some(t));
        }
    }
}

#[test]
fn malformed_clock_times_are_rejected() {
    for t in [
        "26:30", "16:61", "23:333", "2:033", ":::00", "12345", "abcde", "24:00", "23:60", "2:03",
        " 2:03", "02: 3", "", "00:00 ", "0000", "٠٠:٠٠",
    ] {
        assert!(!is_valid_clock_time(t), "{}", t);
        let settings = ImagePruneSettings::new(None, None, Some(t.to_string()), true);
        let err = check_settings_and_populate(&settings).unwrap_err();
        assert_eq!(err.kind(), ErrorKind::InvalidSettings);
    }
}

#[test]
fn clock_time_range_is_enforced() {
    assert!(is_valid_clock_time("23:59"));
    assert!(is_valid_clock_time("00:00"));
    assert!(!is_valid_clock_time("24:00"));
    assert!(!is_valid_clock_time("99:99"));
    assert!(!is_valid_clock_time("12:75"));
}

#[test]
fn absent_values_take_their_defaults() {
    let settings = ImagePruneSettings::new(None, None, None, true);
    let populated = check_settings_and_populate(&settings).unwrap();
    assert_eq!(populated.cleanup_recurrence(), Some(TimeSpan::from_secs(86_400)));
    assert_eq!(populated.image_age_cleanup_threshold(), Some(TimeSpan::from_secs(604_800)));
    assert_eq!(populated.cleanup_time(), Some("00:00".to_string()));
    assert!(populated.is_enabled());

    let settings = ImagePruneSettings::new(None, None, None, false);
    let populated = check_settings_and_populate(&settings).unwrap();
    assert!(!populated.is_enabled());
}

#[test]
fn given_values_are_kept() {
    let settings = ImagePruneSettings::new(
        Some(span(Duration::MAX)),
        Some(TimeSpan::new(5, 7)),
        Some("13:45".to_string()),
        true,
    );
    let populated = check_settings_and_populate(&settings).unwrap();
    assert_eq!(populated.cleanup_recurrence(), Some(span(Duration::MAX)));
    assert_eq!(populated.image_age_cleanup_threshold(), Some(TimeSpan::new(5, 7)));
    assert_eq!(populated.cleanup_time(), Some("13:45".to_string()));
}
