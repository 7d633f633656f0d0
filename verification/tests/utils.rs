use tempus::progress::ProgressBarTheme;
use tempus::time::Span;
use tempus::utils::{completion_notification, format_simple_duration, theme_for_output};

#[test]
fn duration_in_words() {
    assert_eq!(format_simple_duration(Span::from_secs(0)), "0s");
    assert_eq!(format_simple_duration(Span::from_secs(45)), "45s");
    assert_eq!(format_simple_duration(Span::from_secs(59)), "59s");
    assert_eq!(format_simple_duration(Span::from_secs(60)), "1m 0s");
    assert_eq!(format_simple_duration(Span::from_secs(150)), "2m 30s");
    assert_eq!(format_simple_duration(Span::from_secs(3599)), "59m 59s");
    assert_eq!(format_simple_duration(Span::from_secs(3600)), "1h 0m 0s");
    assert_eq!(format_simple_duration(Span::from_secs(3725)), "1h 2m 5s");
    assert_eq!(format_simple_duration(Span::from_secs(360_000)), "100h 0m 0s");
}

#[test]
fn duration_in_words_leaves_off_the_part_of_a_second() {
    assert_eq!(format_simple_duration(Span::new(59, 999_999_999)), "59s");
    assert_eq!(format_simple_duration(Span::from_millis(999)), "0s");
}

#[test]
fn duration_in_words_of_the_longest_span() {
    assert_eq!(
        format_simple_duration(Span::new(u64::MAX, 999_999_999)),
        "5124095576030431h 0m 15s"
    );
}

#[test]
fn notification_names_the_countdown_and_its_length() {
    let n = completion_notification("Tea", Span::from_secs(180));
    assert_eq!(n.title, "Tea completed!");
    assert_eq!(n.body, "Duration: 3m 0s");
    let m = completion_notification("", Span::from_secs(5));
    assert_eq!(m.title, " completed!");
    assert_eq!(m.body, "Duration: 5s");
}

#[test]
fn output_without_colour_forces_the_plain_theme() {
    assert_eq!(theme_for_output(ProgressBarTheme::Rainbow, true), ProgressBarTheme::Rainbow);
    assert_eq!(theme_for_output(ProgressBarTheme::Rainbow, false), ProgressBarTheme::Plain);
    assert_eq!(theme_for_output(ProgressBarTheme::Plain, true), ProgressBarTheme::Plain);
}
