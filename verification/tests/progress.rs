use tempus::palette::{unstyled, Color, Segment};
use tempus::progress::{
    percent_text, ramp_glyph_at, render_bar, render_completion, render_header, InlineTimer,
    Progress, ProgressBarTheme, BAR_WIDTH, RAMP_LEN,
};
use tempus::themes::{spinner_color_for, spinner_glyph_at};
use tempus::time::Span;

fn ratio(num: u64, den: u64) -> Progress {
    Progress::ratio(num, den).unwrap()
}

fn steps(progress: &Progress, width: u16) -> Vec<u8> {
    (0..width).map(|i| progress.cell_step(width, i)).collect()
}

#[test]
fn ratio_must_lie_between_nought_and_one() {
    assert!(Progress::ratio(0, 1).is_some());
    assert!(Progress::ratio(1, 1).is_some());
    assert!(Progress::ratio(2, 1).is_none());
    assert!(Progress::ratio(0, 0).is_none());
    assert!(Progress::ratio(1, 0).is_none());
    let p = ratio(3, 7);
    assert_eq!(p.numerator(), 3);
    assert_eq!(p.denominator(), 7);
    assert!(!p.is_complete());
    assert!(ratio(7, 7).is_complete());
}

#[test]
fn progress_of_spans_stops_at_the_whole() {
    let p = Progress::new(Span::from_secs(30), Span::from_secs(20));
    assert_eq!(p.numerator(), 20_000_000_000);
    assert_eq!(p.denominator(), 20_000_000_000);
    assert!(p.is_complete());
    let q = Progress::new(Span::from_secs(5), Span::from_secs(20));
    assert_eq!(q.numerator(), 5_000_000_000);
}

#[test]
fn ramp_runs_from_blank_to_full() {
    assert_eq!(RAMP_LEN, 9);
    let glyphs: Vec<char> = (0..RAMP_LEN).map(ramp_glyph_at).collect();
    assert_eq!(glyphs, vec![' ', '▏', '▎', '▍', '▌', '▋', '▊', '▉', '█']);
}

#[test]
fn empty_cell_shows_the_first_glyph() {
    let nothing = ratio(0, 1);
    assert_eq!(steps(&nothing, 4), vec![0, 0, 0, 0]);
    assert_eq!(ramp_glyph_at(nothing.cell_step(4, 0)), ' ');
}

#[test]
fn cell_just_short_of_full_shows_the_glyph_before_the_full_block() {
    // 999 thousandths of one cell
    let p = ratio(999, 1000);
    assert_eq!(p.cell_step(1, 0), 7);
    assert_eq!(ramp_glyph_at(7), '▉');
    // seven eighths exactly
    assert_eq!(ratio(7, 8).cell_step(1, 0), 7);
    // a hair under seven eighths
    assert_eq!(ratio(874, 1000).cell_step(1, 0), 6);
    assert_eq!(ratio(1, 1).cell_step(1, 0), 8);
}

#[test]
fn glyph_follows_the_eighths_of_the_cell() {
    let want: Vec<u8> = vec![0, 1, 2, 3, 4, 5, 6, 7, 8];
    let got: Vec<u8> = (0..9u64).map(|k| ratio(k, 8).cell_step(1, 0)).collect();
    assert_eq!(got, want);
    assert_eq!(ratio(1, 16).cell_step(1, 0), 0);
    assert_eq!(ratio(3, 16).cell_step(1, 0), 1);
}

#[test]
fn fill_on_a_cell_boundary_has_no_partial_glyph() {
    assert_eq!(steps(&ratio(1, 2), 10), vec![8, 8, 8, 8, 8, 0, 0, 0, 0, 0]);
    assert_eq!(steps(&ratio(1, 4), 8), vec![8, 8, 0, 0, 0, 0, 0, 0]);
    assert_eq!(steps(&ratio(1, 1), 3), vec![8, 8, 8]);
}

#[test]
fn fill_inside_a_cell_has_one_partial_glyph() {
    assert_eq!(steps(&ratio(1, 3), 10), vec![8, 8, 8, 2, 0, 0, 0, 0, 0, 0]);
    assert_eq!(steps(&ratio(2, 3), 10), vec![8, 8, 8, 8, 8, 8, 5, 0, 0, 0]);
    assert_eq!(steps(&ratio(1, 2), 5), vec![8, 8, 4, 0, 0]);
}

#[test]
fn same_occupancy_gives_the_same_glyph() {
    assert_eq!(ratio(1, 3).cell_step(1, 0), ratio(1000, 3000).cell_step(1, 0));
    // a third of the fourth cell of ten, and a third of a single cell
    assert_eq!(ratio(1, 3).cell_step(10, 3), ratio(1, 3).cell_step(1, 0));
}

#[test]
fn percent_is_rounded_to_a_tenth() {
    assert_eq!(ratio(0, 1).percent_tenths(), 0);
    assert_eq!(ratio(1, 3).percent_tenths(), 333);
    assert_eq!(ratio(2, 3).percent_tenths(), 667);
    assert_eq!(ratio(1, 2000).percent_tenths(), 1);
    assert_eq!(ratio(1, 2001).percent_tenths(), 0);
    assert_eq!(ratio(1, 1).percent_tenths(), 1000);
    assert_eq!(percent_text(&ratio(0, 1)), "0.0%");
    assert_eq!(percent_text(&ratio(1, 3)), "33.3%");
    assert_eq!(percent_text(&ratio(1, 2)), "50.0%");
    assert_eq!(percent_text(&ratio(1, 1)), "100.0%");
}

#[test]
fn cells_are_rounded_to_the_nearest() {
    assert_eq!(ratio(1, 2).rounded_cells(5), 3);
    assert_eq!(ratio(1, 4).rounded_cells(10), 3);
    assert_eq!(ratio(1, 3).rounded_cells(10), 3);
    assert_eq!(ratio(2, 3).rounded_cells(10), 7);
    assert_eq!(ratio(0, 3).rounded_cells(10), 0);
    assert_eq!(ratio(1, 1).rounded_cells(u16::MAX), u16::MAX);
    assert_eq!(ratio(1, 1).rounded_cells(0), 0);
}

#[test]
fn header_names_start_name_and_time_left() {
    let line = render_header(
        ProgressBarTheme::Rainbow,
        "14:05:09",
        "Tea",
        Span::new(125, 900_000_000),
    );
    assert_eq!(unstyled(&line), "14:05:09 | Tea | 2m 5s remaining");
    assert_eq!(line.len(), 6);
    assert_eq!(
        line[0],
        Segment {
            text: "14:05:09".to_string(),
            fg: Color::BrightWhite,
            bg: Color::Unset,
            bold: false
        }
    );
    assert_eq!(
        line[2],
        Segment { text: "Tea".to_string(), fg: Color::BrightWhite, bg: Color::Unset, bold: true }
    );
    assert_eq!(line[1], Segment::plain(" | "));
    assert_eq!(line[4].text, "2m 5s");
    assert_eq!(line[5], Segment::plain(" remaining"));
}

#[test]
fn bar_line_in_plain() {
    let line = render_bar(
        ProgressBarTheme::Plain,
        &ratio(1, 2),
        40,
        0,
        false,
        "Tea",
        Span::from_secs(2),
    );
    assert_eq!(line.len(), 44);
    assert_eq!(
        unstyled(&line),
        format!("⠋ ┃{}{}┃ 50.0%", "█".repeat(20), " ".repeat(20))
    );
    assert!(line.iter().all(|s| s.fg == Color::Unset && s.bg == Color::Unset));
    assert!(line[43].bold);
    assert!(!line[42].bold);
}

#[test]
fn bar_line_with_more_asked_for() {
    let line = render_bar(
        ProgressBarTheme::Color,
        &ratio(1, 3),
        10,
        3,
        true,
        "Tea",
        Span::from_secs(125),
    );
    assert_eq!(unstyled(&line), "⠸ ┃███▎      ┃ 33.3% (2m 5s)Tea");
    assert_eq!(line.len(), 17);
    assert_eq!(line[0].fg, Color::Cyan);
    assert_eq!(line[2].fg, Color::Green);
    assert_eq!(line[5].fg, Color::BrightGreen);
    assert_eq!(line[6].fg, Color::Unset);
    assert_eq!(
        line[13],
        Segment { text: "33.3%".to_string(), fg: Color::Yellow, bg: Color::Unset, bold: true }
    );
    assert_eq!(line[14], Segment::plain(" "));
    assert_eq!(
        line[15],
        Segment {
            text: "(2m 5s)".to_string(),
            fg: Color::BrightWhite,
            bg: Color::Unset,
            bold: false
        }
    );
    assert_eq!(
        line[16],
        Segment { text: "Tea".to_string(), fg: Color::Unset, bg: Color::Unset, bold: true }
    );
}

#[test]
fn bar_of_no_width_has_no_cells() {
    let line = render_bar(
        ProgressBarTheme::Plain,
        &ratio(1, 2),
        0,
        0,
        false,
        "Tea",
        Span::from_secs(2),
    );
    assert_eq!(unstyled(&line), "⠋ ┃┃ 50.0%");
}

#[test]
fn completion_line_names_the_time_taken() {
    let line = render_completion(ProgressBarTheme::Gradient, "Tea", Span::new(180, 20_000_000));
    assert_eq!(unstyled(&line), "Tea completed! (took 3m 0s)");
    assert_eq!(
        line[0],
        Segment { text: "Tea".to_string(), fg: Color::BrightGreen, bg: Color::Unset, bold: true }
    );
    assert_eq!(line[1], Segment::plain(" completed! (took 3m 0s)"));
}

#[test]
fn update_interval_follows_the_duration() {
    let timer = |secs: u64| {
        InlineTimer::new(Span::from_secs(secs), "t", false, ProgressBarTheme::Plain, true, "")
    };
    assert_eq!(timer(1).update_interval(), Span::from_millis(20));
    assert_eq!(timer(60).update_interval(), Span::from_millis(20));
    assert_eq!(timer(61).update_interval(), Span::from_millis(100));
    assert_eq!(timer(3600).update_interval(), Span::from_millis(100));
    assert_eq!(timer(3601).update_interval(), Span::from_millis(1000));
}

#[test]
fn five_second_timer_draws_until_five_seconds_and_completes_once() {
    let duration = Span::from_secs(5);
    let mut timer = InlineTimer::new(duration, "Tea", false, ProgressBarTheme::Plain, true, "09:00:00");
    let tick = timer.update_interval();
    assert_eq!(tick, Span::from_millis(20));
    let mut elapsed = Span::from_nanos(0);
    let mut frames: u32 = 0;
    let mut last_bar = String::new();
    let mut completions: Vec<String> = Vec::new();
    let mut bells: u32 = 0;
    loop {
        match timer.step(elapsed) {
            Some(frame) => {
                frames += 1;
                assert_eq!(frame.bar.len(), BAR_WIDTH as usize + 4);
                assert!(frame.bar.iter().all(|s| s.fg == Color::Unset));
                last_bar = unstyled(&frame.bar);
            }
            None => {
                let done = timer.completion(elapsed, true, false);
                completions.push(unstyled(&done.line));
                if done.bell {
                    bells += 1;
                }
                assert_eq!(done.notification, None);
                break;
            }
        }
        elapsed = elapsed.saturating_add(tick);
    }
    assert_eq!(frames, 250);
    // the countdown ended at the first tick at or after five seconds
    assert_eq!(elapsed, Span::from_secs(5));
    assert!(Progress::new(elapsed, duration).is_complete());
    assert!(last_bar.ends_with("┃ 99.6%"));
    assert_eq!(completions, vec!["Tea completed! (took 5s)".to_string()]);
    assert_eq!(bells, 1);
    // nothing more is drawn afterwards
    assert!(timer.step(Span::from_secs(6)).is_none());
}

#[test]
fn timer_frame_in_the_middle() {
    let mut timer = InlineTimer::new(
        Span::from_secs(5),
        "Tea",
        true,
        ProgressBarTheme::Plain,
        true,
        "09:00:00",
    );
    let frame = timer.step(Span::from_millis(2500)).unwrap();
    assert_eq!(unstyled(&frame.header), "09:00:00 | Tea | 2s remaining");
    assert_eq!(
        unstyled(&frame.bar),
        format!("⠋ ┃{}{}┃ 50.0% (2s)Tea", "█".repeat(20), " ".repeat(20))
    );
    let next = timer.step(Span::from_millis(2520)).unwrap();
    assert!(unstyled(&next.bar).starts_with("⠙ ┃"));
}

#[test]
fn timer_without_colour_draws_plainly() {
    let mut timer = InlineTimer::new(
        Span::from_secs(10),
        "Tea",
        true,
        ProgressBarTheme::Rainbow,
        false,
        "09:00:00",
    );
    let frame = timer.step(Span::from_secs(5)).unwrap();
    assert!(frame.bar.iter().all(|s| s.fg == Color::Unset));
    assert!(frame.header.iter().all(|s| s.fg == Color::Unset));
    let done = timer.completion(Span::from_secs(10), false, true);
    assert_eq!(done.line[0].fg, Color::Unset);
    assert!(!done.bell);
}

#[test]
fn timer_with_colour_keeps_its_theme() {
    let mut timer = InlineTimer::new(
        Span::from_secs(10),
        "Tea",
        false,
        ProgressBarTheme::Rainbow,
        true,
        "09:00:00",
    );
    let frame = timer.step(Span::from_secs(5)).unwrap();
    assert_eq!(frame.bar[0].fg, Color::Red);
    assert_eq!(frame.bar[2].fg, Color::Red);
    assert_eq!(frame.header[0].fg, Color::BrightWhite);
}

#[test]
fn frames_repeat_after_sixty() {
    let mut timer = InlineTimer::new(
        Span::from_secs(100),
        "Tea",
        false,
        ProgressBarTheme::Rainbow,
        true,
        "09:00:00",
    );
    let at = Span::from_secs(50);
    let first = timer.step(at).unwrap();
    let mut k: u64 = 1;
    while k < 60 {
        let other = timer.step(at).unwrap();
        assert_eq!(other.bar[0].text, spinner_glyph_at(k).to_string());
        assert_eq!(other.bar[0].fg, spinner_color_for(ProgressBarTheme::Rainbow, k));
        assert_ne!(other.bar[0], first.bar[0]);
        k += 1;
    }
    let again = timer.step(at).unwrap();
    assert_eq!(again, first);
}

#[test]
fn pulse_frames_repeat_after_ten() {
    let mut timer = InlineTimer::new(
        Span::from_secs(100),
        "Tea",
        false,
        ProgressBarTheme::Pulse,
        true,
        "09:00:00",
    );
    let at = Span::from_secs(50);
    let first = timer.step(at).unwrap();
    let second = timer.step(at).unwrap();
    assert_ne!(first, second);
    let mut k = 2;
    while k < 10 {
        timer.step(at).unwrap();
        k += 1;
    }
    assert_eq!(timer.step(at).unwrap(), first);
    assert_eq!(timer.step(at).unwrap(), second);
}

#[test]
fn timer_width_can_be_set() {
    let mut timer = InlineTimer::new(
        Span::from_secs(10),
        "Tea",
        false,
        ProgressBarTheme::Plain,
        true,
        "09:00:00",
    );
    timer.set_width(4);
    let frame = timer.step(Span::from_secs(5)).unwrap();
    assert_eq!(unstyled(&frame.bar), "⠋ ┃██  ┃ 50.0%");
}

#[test]
fn completion_with_notification() {
    let timer = InlineTimer::new(
        Span::from_secs(180),
        "Tea",
        false,
        ProgressBarTheme::Gradient,
        true,
        "09:00:00",
    );
    let done = timer.completion(Span::new(180, 15_000_000), false, true);
    let n = done.notification.unwrap();
    assert_eq!(n.title, "Tea completed!");
    assert_eq!(n.body, "Duration: 3m 0s");
    assert!(!done.bell);
    assert_eq!(unstyled(&done.line), "Tea completed! (took 3m 0s)");
}
