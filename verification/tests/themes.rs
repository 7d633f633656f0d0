use std::str::FromStr;
use tempus::palette::{Color, Segment};
use tempus::progress::{Progress, ProgressBarTheme};
use tempus::themes::{
    accent_for, band_color_at, color_for, completion_color_for, header_color_for, panel_color_for,
    parse_theme, pulse_color_at, rainbow_color_at, spinner_color_for, spinner_glyph_at,
    theme_from_lowercase, ThemeParseError,
};

fn ratio(num: u64, den: u64) -> Progress {
    Progress::ratio(num, den).unwrap()
}

fn cell(c: char, fg: Color) -> Segment {
    Segment { text: c.to_string(), fg, bg: Color::Unset, bold: false }
}

#[test]
fn theme_names_are_read_in_any_case() {
    assert_eq!(parse_theme("rainbow"), ProgressBarTheme::Rainbow);
    assert_eq!(parse_theme("RAINBOW"), ProgressBarTheme::Rainbow);
    assert_eq!(parse_theme("Plain"), ProgressBarTheme::Plain);
    assert_eq!(parse_theme("pUlSe"), ProgressBarTheme::Pulse);
    assert_eq!(parse_theme("Gradient"), ProgressBarTheme::Gradient);
    assert_eq!(parse_theme("COLOR"), ProgressBarTheme::Color);
}

#[test]
fn unknown_theme_name_gives_the_gradient() {
    assert_eq!(parse_theme("neon"), ProgressBarTheme::Gradient);
    assert_eq!(parse_theme(""), ProgressBarTheme::Gradient);
    assert_eq!(parse_theme(" plain"), ProgressBarTheme::Gradient);
}

#[test]
fn from_str_refuses_an_unknown_name() {
    assert_eq!(ProgressBarTheme::from_str("Pulse"), Ok(ProgressBarTheme::Pulse));
    assert_eq!(ProgressBarTheme::from_str("neon"), Err(ThemeParseError));
    assert_eq!("color".parse::<ProgressBarTheme>(), Ok(ProgressBarTheme::Color));
    assert_eq!(ThemeParseError.message(), "invalid theme name");
}

#[test]
fn lookup_in_lower_case_takes_the_name_as_it_is() {
    assert_eq!(theme_from_lowercase("plain"), Ok(ProgressBarTheme::Plain));
    assert_eq!(theme_from_lowercase("Plain"), Err(ThemeParseError));
    assert_eq!(theme_from_lowercase("gradient"), Ok(ProgressBarTheme::Gradient));
    assert_eq!(theme_from_lowercase("rainbow"), Ok(ProgressBarTheme::Rainbow));
}

#[test]
fn plain_theme_has_no_colour() {
    let half = ratio(1, 2);
    assert_eq!(color_for(ProgressBarTheme::Plain, &half, 10, 0, 0), cell('█', Color::Unset));
    assert_eq!(color_for(ProgressBarTheme::Plain, &half, 10, 4, 3), cell('█', Color::Unset));
    assert_eq!(color_for(ProgressBarTheme::Plain, &half, 10, 5, 3), cell(' ', Color::Unset));
    assert_eq!(color_for(ProgressBarTheme::Plain, &half, 10, 9, 3), cell(' ', Color::Unset));
    assert_eq!(accent_for(ProgressBarTheme::Plain, &half), Color::Unset);
    assert_eq!(spinner_color_for(ProgressBarTheme::Plain, 7), Color::Unset);
    assert_eq!(header_color_for(ProgressBarTheme::Plain), Color::Unset);
    assert_eq!(completion_color_for(ProgressBarTheme::Plain), Color::Unset);
    assert_eq!(panel_color_for(ProgressBarTheme::Plain, &half), Color::White);
}

#[test]
fn cell_at_the_edge_shows_a_part() {
    let third = ratio(1, 3);
    // ten cells, a third of the way: three cells and a third of the fourth
    assert_eq!(color_for(ProgressBarTheme::Plain, &third, 10, 2, 0), cell('█', Color::Unset));
    assert_eq!(color_for(ProgressBarTheme::Plain, &third, 10, 3, 0), cell('▎', Color::Unset));
    assert_eq!(color_for(ProgressBarTheme::Plain, &third, 10, 4, 0), cell(' ', Color::Unset));
    assert_eq!(
        color_for(ProgressBarTheme::Rainbow, &third, 10, 3, 0),
        cell('▎', Color::BrightWhite)
    );
    assert_eq!(color_for(ProgressBarTheme::Pulse, &third, 10, 3, 0), cell('▎', Color::BrightBlue));
    assert_eq!(color_for(ProgressBarTheme::Color, &third, 10, 3, 0), cell('▎', Color::BrightGreen));
    assert_eq!(
        color_for(ProgressBarTheme::Gradient, &third, 10, 3, 0),
        cell('▎', Color::Gradient { num: 0, den: 1 })
    );
}

#[test]
fn rainbow_runs_across_the_bar() {
    let full = ratio(1, 1);
    let at = |i: u16| color_for(ProgressBarTheme::Rainbow, &full, 40, i, 0).fg;
    assert_eq!(at(0), Color::Red);
    assert_eq!(at(6), Color::Red);
    assert_eq!(at(7), Color::Yellow);
    assert_eq!(at(14), Color::Green);
    assert_eq!(at(20), Color::Cyan);
    assert_eq!(at(27), Color::Blue);
    assert_eq!(at(39), Color::Magenta);
    assert_eq!(rainbow_color_at(6), Color::Red);
    assert_eq!(rainbow_color_at(11), Color::Magenta);
}

#[test]
fn rainbow_does_not_depend_on_progress() {
    let a = color_for(ProgressBarTheme::Rainbow, &ratio(1, 2), 40, 10, 0);
    let b = color_for(ProgressBarTheme::Rainbow, &ratio(1, 1), 40, 10, 5);
    assert_eq!(a, b);
    assert_eq!(a, cell('█', Color::Yellow));
}

#[test]
fn color_theme_has_three_bands() {
    let full = ratio(1, 1);
    let at = |i: u16| color_for(ProgressBarTheme::Color, &full, 100, i, 0).fg;
    assert_eq!(at(0), Color::Green);
    assert_eq!(at(32), Color::Green);
    assert_eq!(at(33), Color::Yellow);
    assert_eq!(at(65), Color::Yellow);
    assert_eq!(at(66), Color::BrightRed);
    assert_eq!(at(99), Color::BrightRed);
    assert_eq!(band_color_at(1, 4, Color::Red), Color::Green);
    assert_eq!(band_color_at(33, 100, Color::Red), Color::Yellow);
    assert_eq!(band_color_at(66, 100, Color::Red), Color::Red);
}

#[test]
fn gradient_runs_along_the_filled_part() {
    let half = ratio(1, 2);
    assert_eq!(
        color_for(ProgressBarTheme::Gradient, &half, 10, 0, 0),
        cell('█', Color::Gradient { num: 0, den: 10 })
    );
    assert_eq!(
        color_for(ProgressBarTheme::Gradient, &half, 10, 3, 0),
        cell('█', Color::Gradient { num: 6, den: 10 })
    );
    assert_eq!(color_for(ProgressBarTheme::Gradient, &half, 10, 5, 0), cell(' ', Color::Unset));
}

#[test]
fn gradient_of_a_short_fill_counts_it_as_a_hundredth() {
    let small = ratio(1, 200);
    assert_eq!(
        color_for(ProgressBarTheme::Gradient, &small, 1000, 2, 0),
        cell('█', Color::Gradient { num: 200, den: 1000 })
    );
    assert_eq!(
        color_for(ProgressBarTheme::Gradient, &small, 1000, 4, 0),
        cell('█', Color::Gradient { num: 400, den: 1000 })
    );
    assert_eq!(color_for(ProgressBarTheme::Gradient, &small, 1000, 5, 0), cell(' ', Color::Unset));
}

#[test]
fn pulse_is_bright_in_the_middle_of_the_wave() {
    // frame 4: the wave starts at the left end of the bar
    assert_eq!(pulse_color_at(0, 40, 4), Color::Blue);
    assert_eq!(pulse_color_at(2, 40, 4), Color::Blue);
    assert_eq!(pulse_color_at(4, 40, 4), Color::Cyan);
    assert_eq!(pulse_color_at(9, 40, 4), Color::Cyan);
    assert_eq!(pulse_color_at(10, 40, 4), Color::BrightCyan);
    assert_eq!(pulse_color_at(20, 40, 4), Color::BrightCyan);
    assert_eq!(pulse_color_at(30, 40, 4), Color::BrightCyan);
    assert_eq!(pulse_color_at(31, 40, 4), Color::Cyan);
    assert_eq!(pulse_color_at(36, 40, 4), Color::Cyan);
    assert_eq!(pulse_color_at(37, 40, 4), Color::Blue);
}

#[test]
fn pulse_moves_a_fifth_with_every_frame() {
    // frame 0: the wave has moved on by a fifth
    assert_eq!(pulse_color_at(0, 40, 0), Color::Cyan);
    assert_eq!(pulse_color_at(10, 40, 0), Color::BrightCyan);
    assert_eq!(pulse_color_at(32, 40, 0), Color::Blue);
    assert_eq!(pulse_color_at(39, 40, 0), Color::Cyan);
    // five frames on the wave is where it was
    let mut i: u16 = 0;
    while i < 40 {
        assert_eq!(pulse_color_at(i, 40, 2), pulse_color_at(i, 40, 7));
        i += 1;
    }
    assert_eq!(
        color_for(ProgressBarTheme::Pulse, &ratio(1, 1), 40, 10, 0),
        cell('█', Color::BrightCyan)
    );
}

#[test]
fn accent_follows_the_progress() {
    assert_eq!(accent_for(ProgressBarTheme::Color, &ratio(1, 4)), Color::Green);
    assert_eq!(accent_for(ProgressBarTheme::Color, &ratio(1, 2)), Color::Yellow);
    assert_eq!(accent_for(ProgressBarTheme::Color, &ratio(3, 4)), Color::BrightRed);
    assert_eq!(
        accent_for(ProgressBarTheme::Gradient, &ratio(1, 4)),
        Color::Gradient { num: 1, den: 4 }
    );
    assert_eq!(accent_for(ProgressBarTheme::Rainbow, &ratio(1, 4)), Color::BrightWhite);
    assert_eq!(accent_for(ProgressBarTheme::Pulse, &ratio(1, 4)), Color::BrightCyan);
}

#[test]
fn spinner_has_ten_glyphs() {
    let glyphs: Vec<char> = (0..10).map(spinner_glyph_at).collect();
    assert_eq!(glyphs, vec!['⠋', '⠙', '⠹', '⠸', '⠼', '⠴', '⠦', '⠧', '⠇', '⠏']);
    assert_eq!(spinner_glyph_at(10), '⠋');
    assert_eq!(spinner_glyph_at(29), '⠏');
}

#[test]
fn spinner_colour_follows_the_theme() {
    assert_eq!(spinner_color_for(ProgressBarTheme::Rainbow, 0), Color::Red);
    assert_eq!(spinner_color_for(ProgressBarTheme::Rainbow, 1), Color::Red);
    assert_eq!(spinner_color_for(ProgressBarTheme::Rainbow, 2), Color::Yellow);
    assert_eq!(spinner_color_for(ProgressBarTheme::Rainbow, 11), Color::Magenta);
    assert_eq!(spinner_color_for(ProgressBarTheme::Rainbow, 12), Color::Red);
    assert_eq!(spinner_color_for(ProgressBarTheme::Pulse, 0), Color::Cyan);
    assert_eq!(spinner_color_for(ProgressBarTheme::Pulse, 1), Color::BrightCyan);
    assert_eq!(spinner_color_for(ProgressBarTheme::Gradient, 5), Color::Cyan);
    assert_eq!(spinner_color_for(ProgressBarTheme::Color, 5), Color::Cyan);
}

#[test]
fn accents_of_header_completion_and_panel() {
    assert_eq!(header_color_for(ProgressBarTheme::Gradient), Color::BrightWhite);
    assert_eq!(header_color_for(ProgressBarTheme::Pulse), Color::BrightWhite);
    assert_eq!(completion_color_for(ProgressBarTheme::Gradient), Color::BrightGreen);
    assert_eq!(completion_color_for(ProgressBarTheme::Rainbow), Color::BrightCyan);
    assert_eq!(completion_color_for(ProgressBarTheme::Pulse), Color::BrightCyan);
    assert_eq!(completion_color_for(ProgressBarTheme::Color), Color::BrightGreen);
    let p = ratio(3, 4);
    assert_eq!(panel_color_for(ProgressBarTheme::Color, &p), Color::Red);
    assert_eq!(panel_color_for(ProgressBarTheme::Color, &ratio(1, 2)), Color::Yellow);
    assert_eq!(panel_color_for(ProgressBarTheme::Color, &ratio(1, 10)), Color::Green);
    assert_eq!(panel_color_for(ProgressBarTheme::Rainbow, &p), Color::Cyan);
    assert_eq!(panel_color_for(ProgressBarTheme::Pulse, &p), Color::Cyan);
    assert_eq!(panel_color_for(ProgressBarTheme::Gradient, &p), Color::Gradient { num: 3, den: 4 });
}
