//! From what was asked for to a countdown that can start: presets,
//! durations in words, and the choice of the mode.

use vstd::prelude::*;
use crate::progress::ProgressBarTheme;
use crate::text::{push_text, same_text};
use crate::themes::{lowercase, parse_theme, theme_named};
use crate::time::{Span, MAX_NANOS, NANOS_PER_SEC};

verus! {

/// What can be wrong with what was asked for.
#[derive(Debug, Clone, PartialEq, Eq)]
pub enum TempusError {
    /// The text is no duration, or it is a duration of no length.
    InvalidDuration(String),
    /// The moment to count down to is not ahead.
    PastDateTime,
}

impl TempusError {
    /// What went wrong, in words.
    pub fn message(&self) -> (message: String)
        ensures
            message@ == match *self {
                TempusError::InvalidDuration(text) => "Invalid duration format: "@ + text@,
                TempusError::PastDateTime => "Target date/time is in the past"@,
            },
    {
        let mut message = String::new();
        match self {
            TempusError::InvalidDuration(text) => {
                push_text(&mut message, "Invalid duration format: ");
                push_text(&mut message, text.as_str());
                assert(message@ =~= "Invalid duration format: "@ + text@);
            },
            TempusError::PastDateTime => {
                push_text(&mut message, "Target date/time is in the past");
                assert(message@ =~= "Target date/time is in the past"@);
            },
        }
        message
    }
}

/// The duration that a preset stands for, in words. A name that is no
/// preset stands for itself.
pub open spec fn preset_duration(preset: Seq<char>) -> Seq<char> {
    if preset == "pomodoro"@ {
        "25m"@
    } else if preset == "short-break"@ {
        "5m"@
    } else if preset == "long-break"@ {
        "15m"@
    } else if preset == "tea"@ {
        "3m"@
    } else if preset == "coffee"@ {
        "4m"@
    } else {
        preset
    }
}

/// The duration that a preset stands for, in words.
pub fn get_duration_from_preset(preset: &str) -> (duration: String)
    ensures
        duration@ == preset_duration(preset@),
{
    if same_text(preset, "pomodoro") {
        "25m".to_owned()
    } else if same_text(preset, "short-break") {
        "5m".to_owned()
    } else if same_text(preset, "long-break") {
        "15m".to_owned()
    } else if same_text(preset, "tea") {
        "3m".to_owned()
    } else if same_text(preset, "coffee") {
        "4m".to_owned()
    } else {
        preset.to_owned()
    }
}

/// The most digits that a duration in words may hold. With no more than
/// these the seconds of the duration stay far below the most that can be
/// counted.
pub const MAX_DURATION_DIGITS: usize = 11;

/// Whether a character is one of the ten digits.
pub open spec fn is_digit(c: char) -> bool {
    '0' <= c && c <= '9'
}

/// The number of digits in a text.
pub open spec fn digit_count(text: Seq<char>) -> nat
    decreases text.len(),
{
    if text.len() == 0 {
        0
    } else {
        digit_count(text.drop_last()) + if is_digit(text.last()) {
            1nat
        } else {
            0nat
        }
    }
}

/// Whether a text holds no more digits than a duration in words may hold.
pub fn within_duration_digits(text: &str) -> (within: bool)
    ensures
        within == (digit_count(text@) <= MAX_DURATION_DIGITS),
{
    let mut digits: usize = 0;
    assert(text@.take(0) =~= Seq::<char>::empty());
    for c in it: text.chars()
        invariant
            it.seq() == text@,
            digits <= MAX_DURATION_DIGITS + 1,
            digits <= MAX_DURATION_DIGITS ==> digits == digit_count(text@.take(it.index() as int)),
            digits > MAX_DURATION_DIGITS ==> digit_count(text@.take(it.index() as int))
                > MAX_DURATION_DIGITS,
    {
        assert(text@.take(it.index() + 1).drop_last() =~= text@.take(it.index() as int));
        if '0' <= c && c <= '9' && digits <= MAX_DURATION_DIGITS {
            digits = digits + 1;
        }
    }
    assert(text@.take(text@.len() as int) =~= text@);
    digits <= MAX_DURATION_DIGITS
}

/// `humantime::DurationError`: why a text is no duration.
#[verifier::external_type_specification]
#[verifier::external_body]
pub struct ExDurationError(humantime::DurationError);

/// What `humantime::parse_duration` makes of a text: the nanoseconds of
/// the duration, or nothing where it refuses the text.
pub uninterp spec fn parsed_duration(text: Seq<char>) -> Option<nat>;

/// `humantime::parse_duration`: reads a duration written as numbers with
/// units, such as `1h 30m` or `4.2s`. The result is known only as
/// [`parsed_duration`] of the text.
///
/// The parser adds up seconds in a `u64` with checked steps, but hands
/// the sum to `Duration::new`, which fails when the carry of a full
/// second of nanoseconds runs over. That takes a sum of `u64::MAX`
/// seconds. With the digits of the text limited, the sum stays below it:
/// the largest unit is the year of 31,557,600 seconds.
#[verifier::external_body]
fn parse_duration(text: &str) -> (parsed: Result<u128, humantime::DurationError>)
    requires
        digit_count(text@) <= MAX_DURATION_DIGITS,
    ensures
        parsed_duration(text@) == match parsed {
            Ok(nanos) => Some(nanos as nat),
            Err(_) => None::<nat>,
        },
{
    match humantime::parse_duration(text) {
        Ok(duration) => Ok(duration.as_nanos()),
        Err(error) => Err(error),
    }
}

/// What a duration in words comes to, given what the parser made of it:
/// the span, which must be longer than nothing, or the text as an error.
pub open spec fn checked_duration(text: Seq<char>, parsed: Option<nat>) -> Result<nat, Seq<char>> {
    match parsed {
        Some(nanos) => if 0 < nanos <= MAX_NANOS {
            Ok(nanos)
        } else {
            Err(text)
        },
        None => Err(text),
    }
}

/// Whether a result of this library stands for a result over plain values.
pub open spec fn duration_result(result: Result<Span, TempusError>, model: Result<nat, Seq<char>>)
    -> bool {
    match model {
        Ok(nanos) => result matches Ok(span) && span@ == nanos,
        Err(text) => result matches Err(TempusError::InvalidDuration(t)) && t@ == text,
    }
}

/// Turns what the parser made of a duration in words into a span. A
/// duration of no length is refused like a text that is no duration.
pub fn check_duration(text: &str, parsed: Option<u128>) -> (duration: Result<Span, TempusError>)
    ensures
        duration_result(
            duration,
            checked_duration(
                text@,
                match parsed {
                    Some(n) => Some(n as nat),
                    None => None,
                },
            ),
        ),
{
    match parsed {
        Some(nanos) => {
            if 0 < nanos && nanos <= MAX_NANOS {
                Ok(Span::from_nanos(nanos))
            } else {
                Err(TempusError::InvalidDuration(text.to_owned()))
            }
        },
        None => Err(TempusError::InvalidDuration(text.to_owned())),
    }
}

/// What a duration in words comes to: nothing for a text with too many
/// digits, else what the parser makes of it.
pub open spec fn duration_of(text: Seq<char>) -> Result<nat, Seq<char>> {
    if digit_count(text) <= MAX_DURATION_DIGITS {
        checked_duration(text, parsed_duration(text))
    } else {
        Err(text)
    }
}

/// Reads a duration in words, such as `25m` or `1h 30m`.
///
/// A text of more than eleven digits is refused unread, and so is a
/// duration of no length.
pub fn timer_duration(text: &str) -> (duration: Result<Span, TempusError>)
    ensures
        duration_result(duration, duration_of(text@)),
{
    if !within_duration_digits(text) {
        return Err(TempusError::InvalidDuration(text.to_owned()));
    }
    let parsed: Option<u128> = match parse_duration(text) {
        Ok(nanos) => Some(nanos),
        Err(_) => None,
    };
    check_duration(text, parsed)
}

/// The way a countdown is shown.
#[derive(Debug, Clone, Copy, PartialEq, Eq, Structural)]
pub enum Mode {
    /// One line that is drawn over and over.
    Inline,
    /// The full screen, with keys to steer the countdown.
    Focus,
    /// The full screen, with the time that is left in big digits.
    BigClock,
}

/// A countdown that is ready to start.
#[derive(Debug, Clone, Copy, PartialEq, Eq)]
pub struct TimerPlan {
    pub duration: Span,
    pub theme: ProgressBarTheme,
    pub mode: Mode,
}

/// The mode that the switches ask for. The big clock goes before the focus
/// session.
pub open spec fn chosen_mode(big: bool, focus: bool) -> Mode {
    if big {
        Mode::BigClock
    } else if focus {
        Mode::Focus
    } else {
        Mode::Inline
    }
}

/// The duration in words that a timer is asked for with: that of the
/// preset where one is named, else the one given, else none.
pub open spec fn requested_duration(preset: Option<Seq<char>>, duration: Option<Seq<char>>) -> Seq<
    char,
> {
    match preset {
        Some(p) => preset_duration(p),
        None => match duration {
            Some(d) => d,
            None => Seq::empty(),
        },
    }
}

/// The theme of a name, with the gradient for a name that belongs to none.
pub open spec fn chosen_theme(name: Seq<char>) -> ProgressBarTheme {
    match theme_named(lowercase(name)) {
        Some(t) => t,
        None => ProgressBarTheme::Gradient,
    }
}

/// Plans a timer from what was asked for: the duration of the preset, or
/// the duration given; the theme of that name; the mode of the switches.
pub fn plan_timer(
    preset: Option<&str>,
    duration: Option<&str>,
    theme: &str,
    big: bool,
    focus: bool,
) -> (plan: Result<TimerPlan, TempusError>)
    ensures
        match duration_of(
            requested_duration(
                match preset {
                    Some(p) => Some(p@),
                    None => None,
                },
                match duration {
                    Some(d) => Some(d@),
                    None => None,
                },
            ),
        ) {
            Ok(nanos) => plan matches Ok(p) && p.duration@ == nanos && p.theme == chosen_theme(
                theme@,
            ) && p.mode == chosen_mode(big, focus),
            Err(text) => plan matches Err(TempusError::InvalidDuration(t)) && t@ == text,
        },
{
    let text: String = match preset {
        Some(p) => get_duration_from_preset(p),
        None => match duration {
            Some(d) => d.to_owned(),
            None => String::new(),
        },
    };
    match timer_duration(text.as_str()) {
        Ok(span) => Ok(
            TimerPlan {
                duration: span,
                theme: parse_theme(theme),
                mode: if big {
                    Mode::BigClock
                } else if focus {
                    Mode::Focus
                } else {
                    Mode::Inline
                },
            },
        ),
        Err(error) => Err(error),
    }
}

/// A moment of the calendar as seconds since the epoch and the
/// nanoseconds past them, in nanoseconds since the epoch.
pub open spec fn moment(secs: int, subsec_nanos: int) -> int {
    secs * NANOS_PER_SEC + subsec_nanos
}

/// The moment that a time of day stands for: today's, or tomorrow's once
/// today's is not ahead.
pub fn next_occurrence(today: i64, tomorrow: i64, now: i64) -> (target: i64)
    ensures
        target == if today <= now { tomorrow } else { today },
{
    if today <= now {
        tomorrow
    } else {
        today
    }
}

/// The span from `now` to `target`, both given as seconds since the epoch
/// and nanoseconds past them. A target that is not ahead is refused.
pub fn countdown_duration(
    target_secs: i64,
    target_subsec_nanos: u32,
    now_secs: i64,
    now_subsec_nanos: u32,
) -> (duration: Result<Span, TempusError>)
    ensures
        ({
            let ahead = moment(target_secs as int, target_subsec_nanos as int) - moment(
                now_secs as int,
                now_subsec_nanos as int,
            );
            if ahead <= 0 {
                duration == Err::<Span, TempusError>(TempusError::PastDateTime)
            } else {
                duration matches Ok(span) && span@ == if ahead <= MAX_NANOS {
                    ahead
                } else {
                    MAX_NANOS as int
                }
            }
        }),
{
    let target: i128 = target_secs as i128 * 1_000_000_000 + target_subsec_nanos as i128;
    let now: i128 = now_secs as i128 * 1_000_000_000 + now_subsec_nanos as i128;
    if target <= now {
        Err(TempusError::PastDateTime)
    } else {
        Ok(Span::from_nanos((target - now) as u128))
    }
}

/// Plans a countdown to a moment of the calendar: the span until then, the
/// theme of that name, and the big clock or the one line.
pub fn plan_countdown(
    target_secs: i64,
    target_subsec_nanos: u32,
    now_secs: i64,
    now_subsec_nanos: u32,
    theme: &str,
    big: bool,
) -> (plan: Result<TimerPlan, TempusError>)
    ensures
        ({
            let ahead = moment(target_secs as int, target_subsec_nanos as int) - moment(
                now_secs as int,
                now_subsec_nanos as int,
            );
            if ahead <= 0 {
                plan == Err::<TimerPlan, TempusError>(TempusError::PastDateTime)
            } else {
                plan matches Ok(p) && p.theme == chosen_theme(theme@) && p.mode == chosen_mode(
                    big,
                    false,
                ) && p.duration@ == if ahead <= MAX_NANOS {
                    ahead
                } else {
                    MAX_NANOS as int
                }
            }
        }),
{
    match countdown_duration(target_secs, target_subsec_nanos, now_secs, now_subsec_nanos) {
        Ok(span) => Ok(
            TimerPlan {
                duration: span,
                theme: parse_theme(theme),
                mode: if big {
                    Mode::BigClock
                } else {
                    Mode::Inline
                },
            },
        ),
        Err(error) => Err(error),
    }
}

} // verus!
