//! Theme names.

use vstd::prelude::*;
use crate::palette::{glyph, Color, Segment, SegmentModel};
use crate::progress::{cell_step, ramp_glyph, ramp_glyph_at, Progress, ProgressBarTheme, RAMP_LEN};
use crate::text::same_text;
use crate::time::MAX_NANOS;

verus! {

/// A name that belongs to no theme.
#[derive(Debug, Clone, Copy, PartialEq, Eq, Structural)]
pub struct ThemeParseError;

impl ThemeParseError {
    /// What went wrong, in words.
    pub fn message(&self) -> (message: String)
        ensures
            message@ == "invalid theme name"@,
    {
        "invalid theme name".to_owned()
    }
}

/// The text that `str::to_lowercase` gives for `text`.
pub uninterp spec fn lowercase(text: Seq<char>) -> Seq<char>;

/// `str::to_lowercase`: the lowercase equivalent of the text, by the
/// Unicode rules that the standard library follows. The result is known
/// only as [`lowercase`] of the text.
#[verifier::external_body]
fn to_lowercase(text: &str) -> (lower: String)
    ensures
        lower@ == lowercase(text@),
{
    text.to_lowercase()
}

/// The theme that a name in lower case stands for.
pub open spec fn theme_named(lower: Seq<char>) -> Option<ProgressBarTheme> {
    if lower == "rainbow"@ {
        Some(ProgressBarTheme::Rainbow)
    } else if lower == "plain"@ {
        Some(ProgressBarTheme::Plain)
    } else if lower == "pulse"@ {
        Some(ProgressBarTheme::Pulse)
    } else if lower == "gradient"@ {
        Some(ProgressBarTheme::Gradient)
    } else if lower == "color"@ {
        Some(ProgressBarTheme::Color)
    } else {
        None
    }
}

/// Looks up a theme by its name, which must be in lower case already.
pub fn theme_from_lowercase(lower: &str) -> (theme: Result<ProgressBarTheme, ThemeParseError>)
    ensures
        theme == match theme_named(lower@) {
            Some(t) => Ok::<ProgressBarTheme, ThemeParseError>(t),
            None => Err(ThemeParseError),
        },
{
    if same_text(lower, "rainbow") {
        Ok(ProgressBarTheme::Rainbow)
    } else if same_text(lower, "plain") {
        Ok(ProgressBarTheme::Plain)
    } else if same_text(lower, "pulse") {
        Ok(ProgressBarTheme::Pulse)
    } else if same_text(lower, "gradient") {
        Ok(ProgressBarTheme::Gradient)
    } else if same_text(lower, "color") {
        Ok(ProgressBarTheme::Color)
    } else {
        Err(ThemeParseError)
    }
}

impl std::str::FromStr for ProgressBarTheme {
    type Err = ThemeParseError;

    /// Looks up a theme by its name, in any mix of upper and lower case.
    fn from_str(s: &str) -> (theme: Result<ProgressBarTheme, ThemeParseError>)
        ensures
            theme == match theme_named(lowercase(s@)) {
                Some(t) => Ok::<ProgressBarTheme, ThemeParseError>(t),
                None => Err(ThemeParseError),
            },
    {
        let lower = to_lowercase(s);
        theme_from_lowercase(lower.as_str())
    }
}

/// The theme of that name, in any mix of upper and lower case, or
/// [`ProgressBarTheme::Gradient`] where the name belongs to none.
pub fn parse_theme(theme_name: &str) -> (theme: ProgressBarTheme)
    ensures
        theme == match theme_named(lowercase(theme_name@)) {
            Some(t) => t,
            None => ProgressBarTheme::Gradient,
        },
{
    let lower = to_lowercase(theme_name);
    match theme_from_lowercase(lower.as_str()) {
        Ok(theme) => theme,
        Err(_) => ProgressBarTheme::Gradient,
    }
}

/// The number of frames after which every animation repeats: the spinner
/// after ten, the rainbow on the spinner after twelve, the pulse after five.
pub const FRAME_CYCLE: u8 = 60;

/// The part of the wave, in a thousand millionth of its length, at which
/// the pulse turns bright, and the part from the end at which it fades
/// again: where the sine of the wave passes 0.7.
pub const PULSE_BRIGHT_EDGE: u128 = 246_816_689;

/// The part of the wave at which the pulse leaves its dim shade, and the
/// part from the end at which it returns to it: where the sine of the wave
/// passes 0.3.
pub const PULSE_DIM_EDGE: u128 = 96_986_685;

/// A thousand million, the scale of the pulse edges.
pub const PULSE_SCALE: u128 = 1_000_000_000;

/// The glyph of the spinner in a frame: ten glyphs, one step per frame.
pub open spec fn spinner_glyph(frame: nat) -> char {
    let step = frame % 10;
    if step == 0 {
        '\u{280B}'
    } else if step == 1 {
        '\u{2819}'
    } else if step == 2 {
        '\u{2839}'
    } else if step == 3 {
        '\u{2838}'
    } else if step == 4 {
        '\u{283C}'
    } else if step == 5 {
        '\u{2834}'
    } else if step == 6 {
        '\u{2826}'
    } else if step == 7 {
        '\u{2827}'
    } else if step == 8 {
        '\u{2807}'
    } else {
        '\u{280F}'
    }
}

/// The colours of the rainbow, in the order they take on the bar.
pub open spec fn rainbow_color(k: nat) -> Color {
    let step = k % 6;
    if step == 0 {
        Color::Red
    } else if step == 1 {
        Color::Yellow
    } else if step == 2 {
        Color::Green
    } else if step == 3 {
        Color::Cyan
    } else if step == 4 {
        Color::Blue
    } else {
        Color::Magenta
    }
}

/// Green below 33 hundredths of the way, yellow below 66, red from there.
pub open spec fn band_color(num: nat, den: nat, red: Color) -> Color {
    if 100 * num < 33 * den {
        Color::Green
    } else if 100 * num < 66 * den {
        Color::Yellow
    } else {
        red
    }
}

/// The phase of the pulse in a frame, in fifths of the wave: one fifth
/// further with every frame, starting over when the wave is through.
pub open spec fn pulse_phase(frame: nat) -> nat {
    (frame + 1) % 5
}

/// Where on the wave the cell at `index` stands in a frame, as a numerator
/// over `5 * width`: its place on the bar moved on by the phase, taken
/// within one wave.
pub open spec fn pulse_point(index: nat, width: nat, frame: nat) -> nat {
    (5 * index + pulse_phase(frame) * width) % (5 * width)
}

/// The shade of a cell that stands `point / whole` of the way through the
/// wave: bright in the middle, dim at both ends.
pub open spec fn pulse_shade(point: nat, whole: nat) -> Color {
    if PULSE_BRIGHT_EDGE * whole <= PULSE_SCALE * point && PULSE_SCALE * point <= (PULSE_SCALE
        - PULSE_BRIGHT_EDGE) * whole {
        Color::BrightCyan
    } else if PULSE_DIM_EDGE * whole <= PULSE_SCALE * point && PULSE_SCALE * point <= (
    PULSE_SCALE - PULSE_DIM_EDGE) * whole {
        Color::Cyan
    } else {
        Color::Blue
    }
}

/// The point on the gradient for the cell at `index`: its place on the
/// bar as a part of the filled extent, where an extent under a hundredth of
/// the bar counts as a hundredth.
pub open spec fn gradient_point(num: nat, den: nat, width: nat, index: nat) -> Color {
    if 100 * num >= den {
        Color::Gradient { num: (index * den) as u128, den: (width * num) as u128 }
    } else {
        Color::Gradient { num: (100 * index) as u128, den: width as u128 }
    }
}

/// The colour of a cell that is covered whole.
pub open spec fn fill_color(
    theme: ProgressBarTheme,
    num: nat,
    den: nat,
    width: nat,
    index: nat,
    frame: nat,
) -> Color {
    match theme {
        ProgressBarTheme::Plain => Color::Unset,
        ProgressBarTheme::Gradient => gradient_point(num, den, width, index),
        ProgressBarTheme::Rainbow => rainbow_color(index * 6 / width),
        ProgressBarTheme::Pulse => pulse_shade(pulse_point(index, width, frame), 5 * width),
        ProgressBarTheme::Color => band_color(index, width, Color::BrightRed),
    }
}

/// The colour of the one cell that the edge of the fill runs through.
pub open spec fn partial_color(theme: ProgressBarTheme) -> Color {
    match theme {
        ProgressBarTheme::Plain => Color::Unset,
        ProgressBarTheme::Gradient => Color::Gradient { num: 0, den: 1 },
        ProgressBarTheme::Rainbow => Color::BrightWhite,
        ProgressBarTheme::Pulse => Color::BrightBlue,
        ProgressBarTheme::Color => Color::BrightGreen,
    }
}

/// The cell at `index` of a bar of `width` cells at progress `num / den`:
/// the glyph for how much of the cell is covered, in the colour that the
/// theme gives a full cell, the cell at the edge, or none for a blank.
pub open spec fn bar_cell(
    theme: ProgressBarTheme,
    num: nat,
    den: nat,
    width: nat,
    index: nat,
    frame: nat,
) -> SegmentModel {
    let step = cell_step(num, den, width, index);
    let fg = if step == 0 {
        Color::Unset
    } else if step == RAMP_LEN - 1 {
        fill_color(theme, num, den, width, index, frame)
    } else {
        partial_color(theme)
    };
    glyph(ramp_glyph(step), fg, Color::Unset, false)
}

/// The colour that goes with the progress as a whole, for the percentage.
pub open spec fn accent(theme: ProgressBarTheme, num: nat, den: nat) -> Color {
    match theme {
        ProgressBarTheme::Plain => Color::Unset,
        ProgressBarTheme::Gradient => Color::Gradient { num: num as u128, den: den as u128 },
        ProgressBarTheme::Rainbow => Color::BrightWhite,
        ProgressBarTheme::Pulse => Color::BrightCyan,
        ProgressBarTheme::Color => band_color(num, den, Color::BrightRed),
    }
}

/// The colour of the spinner in a frame. The rainbow gives it each of its
/// six colours for two frames.
pub open spec fn spinner_color(theme: ProgressBarTheme, frame: nat) -> Color {
    match theme {
        ProgressBarTheme::Plain => Color::Unset,
        ProgressBarTheme::Gradient => Color::Cyan,
        ProgressBarTheme::Rainbow => rainbow_color(frame / 2),
        ProgressBarTheme::Pulse => if frame % 2 == 0 {
            Color::Cyan
        } else {
            Color::BrightCyan
        },
        ProgressBarTheme::Color => Color::Cyan,
    }
}

/// The colour of the header line and of the time that is left.
pub open spec fn header_color(theme: ProgressBarTheme) -> Color {
    match theme {
        ProgressBarTheme::Plain => Color::Unset,
        _ => Color::BrightWhite,
    }
}

/// The colour of the name once the countdown is over.
pub open spec fn completion_color(theme: ProgressBarTheme) -> Color {
    match theme {
        ProgressBarTheme::Plain => Color::Unset,
        ProgressBarTheme::Gradient => Color::BrightGreen,
        ProgressBarTheme::Rainbow => Color::BrightCyan,
        ProgressBarTheme::Pulse => Color::BrightCyan,
        ProgressBarTheme::Color => Color::BrightGreen,
    }
}

/// The colour of the panel and the bar in the full-screen view.
pub open spec fn panel_color(theme: ProgressBarTheme, num: nat, den: nat) -> Color {
    match theme {
        ProgressBarTheme::Plain => Color::White,
        ProgressBarTheme::Gradient => Color::Gradient { num: num as u128, den: den as u128 },
        ProgressBarTheme::Rainbow => Color::Cyan,
        ProgressBarTheme::Pulse => Color::Cyan,
        ProgressBarTheme::Color => band_color(num, den, Color::Red),
    }
}

/// The glyph of the spinner in a frame.
pub fn spinner_glyph_at(frame: u64) -> (c: char)
    ensures
        c == spinner_glyph(frame as nat),
{
    let step: u64 = frame % 10;
    if step == 0 {
        '\u{280B}'
    } else if step == 1 {
        '\u{2819}'
    } else if step == 2 {
        '\u{2839}'
    } else if step == 3 {
        '\u{2838}'
    } else if step == 4 {
        '\u{283C}'
    } else if step == 5 {
        '\u{2834}'
    } else if step == 6 {
        '\u{2826}'
    } else if step == 7 {
        '\u{2827}'
    } else if step == 8 {
        '\u{2807}'
    } else {
        '\u{280F}'
    }
}

/// The colour at a step of the rainbow.
pub fn rainbow_color_at(k: u64) -> (color: Color)
    ensures
        color == rainbow_color(k as nat),
{
    let step: u64 = k % 6;
    if step == 0 {
        Color::Red
    } else if step == 1 {
        Color::Yellow
    } else if step == 2 {
        Color::Green
    } else if step == 3 {
        Color::Cyan
    } else if step == 4 {
        Color::Blue
    } else {
        Color::Magenta
    }
}

/// Green, yellow or `red` for the point `num / den`, by the band it lies in.
pub fn band_color_at(num: u128, den: u128, red: Color) -> (color: Color)
    requires
        num <= MAX_NANOS,
        den <= MAX_NANOS,
    ensures
        color == band_color(num as nat, den as nat, red),
{
    if 100 * num < 33 * den {
        Color::Green
    } else if 100 * num < 66 * den {
        Color::Yellow
    } else {
        red
    }
}

/// The shade of the pulse for the cell at `index` of `width` in a frame.
pub fn pulse_color_at(index: u16, width: u16, frame: u64) -> (color: Color)
    requires
        index < width,
    ensures
        color == pulse_shade(pulse_point(index as nat, width as nat, frame as nat), 5 * width as nat),
{
    let phase: u128 = (frame as u128 + 1) % 5;
    let whole: u128 = 5 * width as u128;
    assert(phase * width <= 4 * 65535) by (nonlinear_arith)
        requires
            phase <= 4,
            width <= 65535,
    {
    }
    let point: u128 = (5 * index as u128 + phase * width as u128) % whole;
    let bright_end: u128 = PULSE_SCALE - PULSE_BRIGHT_EDGE;
    let dim_end: u128 = PULSE_SCALE - PULSE_DIM_EDGE;
    assert(bright_end * whole <= PULSE_SCALE * 327675 && dim_end * whole <= PULSE_SCALE * 327675)
        by (nonlinear_arith)
        requires
            bright_end <= PULSE_SCALE,
            dim_end <= PULSE_SCALE,
            whole <= 327675,
    {
    }
    if PULSE_BRIGHT_EDGE * whole <= PULSE_SCALE * point && PULSE_SCALE * point <= bright_end
        * whole {
        Color::BrightCyan
    } else if PULSE_DIM_EDGE * whole <= PULSE_SCALE * point && PULSE_SCALE * point <= dim_end
        * whole {
        Color::Cyan
    } else {
        Color::Blue
    }
}

/// The cell at `index` of a bar of `width` cells: its glyph and colours
/// for the theme, the progress and the frame.
pub fn color_for(
    theme: ProgressBarTheme,
    progress: &Progress,
    width: u16,
    index: u16,
    frame: u64,
) -> (cell: Segment)
    requires
        index < width,
    ensures
        cell@ == bar_cell(
            theme,
            progress.num(),
            progress.den(),
            width as nat,
            index as nat,
            frame as nat,
        ),
{
    let step: u8 = progress.cell_step(width, index);
    let fg: Color = if step == 0 {
        Color::Unset
    } else if step == RAMP_LEN - 1 {
        match theme {
            ProgressBarTheme::Plain => Color::Unset,
            ProgressBarTheme::Gradient => {
                let num: u128 = progress.numerator();
                let den: u128 = progress.denominator();
                if 100 * num >= den {
                    assert(index * den <= 65535 * MAX_NANOS) by (nonlinear_arith)
                        requires
                            index <= 65535,
                            den <= MAX_NANOS,
                    {
                    }
                    assert(width * num <= 65535 * MAX_NANOS) by (nonlinear_arith)
                        requires
                            width <= 65535,
                            num <= MAX_NANOS,
                    {
                    }
                    Color::Gradient { num: index as u128 * den, den: width as u128 * num }
                } else {
                    Color::Gradient { num: 100 * index as u128, den: width as u128 }
                }
            },
            ProgressBarTheme::Rainbow => {
                assert(index * 6 / (width as int) < 6) by (nonlinear_arith)
                    requires
                        0 <= index < width,
                {
                }
                rainbow_color_at((index as u64 * 6) / width as u64)
            },
            ProgressBarTheme::Pulse => pulse_color_at(index, width, frame),
            ProgressBarTheme::Color => band_color_at(index as u128, width as u128, Color::BrightRed),
        }
    } else {
        match theme {
            ProgressBarTheme::Plain => Color::Unset,
            ProgressBarTheme::Gradient => Color::Gradient { num: 0, den: 1 },
            ProgressBarTheme::Rainbow => Color::BrightWhite,
            ProgressBarTheme::Pulse => Color::BrightBlue,
            ProgressBarTheme::Color => Color::BrightGreen,
        }
    };
    Segment::glyph(ramp_glyph_at(step), fg, Color::Unset, false)
}

/// The colour that goes with the progress as a whole.
pub fn accent_for(theme: ProgressBarTheme, progress: &Progress) -> (color: Color)
    ensures
        color == accent(theme, progress.num(), progress.den()),
{
    match theme {
        ProgressBarTheme::Plain => Color::Unset,
        ProgressBarTheme::Gradient => Color::Gradient {
            num: progress.numerator(),
            den: progress.denominator(),
        },
        ProgressBarTheme::Rainbow => Color::BrightWhite,
        ProgressBarTheme::Pulse => Color::BrightCyan,
        ProgressBarTheme::Color => band_color_at(
            progress.numerator(),
            progress.denominator(),
            Color::BrightRed,
        ),
    }
}

/// The colour of the spinner in a frame.
pub fn spinner_color_for(theme: ProgressBarTheme, frame: u64) -> (color: Color)
    ensures
        color == spinner_color(theme, frame as nat),
{
    match theme {
        ProgressBarTheme::Plain => Color::Unset,
        ProgressBarTheme::Gradient => Color::Cyan,
        ProgressBarTheme::Rainbow => rainbow_color_at(frame / 2),
        ProgressBarTheme::Pulse => if frame % 2 == 0 {
            Color::Cyan
        } else {
            Color::BrightCyan
        },
        ProgressBarTheme::Color => Color::Cyan,
    }
}

/// The colour of the header line and of the time that is left.
pub fn header_color_for(theme: ProgressBarTheme) -> (color: Color)
    ensures
        color == header_color(theme),
{
    match theme {
        ProgressBarTheme::Plain => Color::Unset,
        _ => Color::BrightWhite,
    }
}

/// The colour of the name once the countdown is over.
pub fn completion_color_for(theme: ProgressBarTheme) -> (color: Color)
    ensures
        color == completion_color(theme),
{
    match theme {
        ProgressBarTheme::Plain => Color::Unset,
        ProgressBarTheme::Gradient => Color::BrightGreen,
        ProgressBarTheme::Rainbow => Color::BrightCyan,
        ProgressBarTheme::Pulse => Color::BrightCyan,
        ProgressBarTheme::Color => Color::BrightGreen,
    }
}

/// The colour of the panel and the bar in the full-screen view.
pub fn panel_color_for(theme: ProgressBarTheme, progress: &Progress) -> (color: Color)
    ensures
        color == panel_color(theme, progress.num(), progress.den()),
{
    match theme {
        ProgressBarTheme::Plain => Color::White,
        ProgressBarTheme::Gradient => Color::Gradient {
            num: progress.numerator(),
            den: progress.denominator(),
        },
        ProgressBarTheme::Rainbow => Color::Cyan,
        ProgressBarTheme::Pulse => Color::Cyan,
        ProgressBarTheme::Color => band_color_at(
            progress.numerator(),
            progress.denominator(),
            Color::Red,
        ),
    }
}

} // verus!
