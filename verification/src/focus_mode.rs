//! The full-screen modes: the big clock and the focus session.

use vstd::prelude::*;
use std::time::Instant;
use vstd::string::StrSliceExecFns;
use crate::clock::{ClockModel, ClockState};
use crate::palette::{glyph, line_model, push_segment, styled, Color, Segment, SegmentModel};
use crate::progress::{
    percent_label, percent_tenths, percent_text, rounded_cells, Progress, ProgressBarTheme,
};
use crate::text::{decimal, push_decimal, push_text, push_two_digits, two_digits};
use crate::themes::{panel_color, panel_color_for};
use crate::time::{Span, MAX_NANOS, NANOS_PER_SEC};
use crate::utils::{
    completion_notification, push_simple_duration, simple_duration_text, Notification,
};

verus! {

/// The number of rows that a big digit takes.
pub const BIG_ROWS: u8 = 5;

/// The place of a character among the big glyphs: the digits at their
/// value, and the colon, which also stands in for every other character,
/// after them.
pub open spec fn big_glyph_index(c: char) -> nat {
    if c == '0' {
        0
    } else if c == '1' {
        1
    } else if c == '2' {
        2
    } else if c == '3' {
        3
    } else if c == '4' {
        4
    } else if c == '5' {
        5
    } else if c == '6' {
        6
    } else if c == '7' {
        7
    } else if c == '8' {
        8
    } else if c == '9' {
        9
    } else {
        10
    }
}

/// One row of a big glyph, five cells wide.
pub open spec fn big_glyph_row(glyph: nat, row: nat) -> Seq<char> {
    if glyph == 0 {
        if row == 0 {
            " \u{2588}\u{2588}\u{2588} "@
        } else if row == 1 {
            "\u{2588}   \u{2588}"@
        } else if row == 2 {
            "\u{2588}   \u{2588}"@
        } else if row == 3 {
            "\u{2588}   \u{2588}"@
        } else {
            " \u{2588}\u{2588}\u{2588} "@
        }
    } else if glyph == 1 {
        if row == 0 {
            "  \u{2588}  "@
        } else if row == 1 {
            " \u{2588}\u{2588}  "@
        } else if row == 2 {
            "  \u{2588}  "@
        } else if row == 3 {
            "  \u{2588}  "@
        } else {
            " \u{2588}\u{2588}\u{2588} "@
        }
    } else if glyph == 2 {
        if row == 0 {
            " \u{2588}\u{2588}\u{2588} "@
        } else if row == 1 {
            "    \u{2588}"@
        } else if row == 2 {
            " \u{2588}\u{2588}\u{2588} "@
        } else if row == 3 {
            "\u{2588}    "@
        } else {
            "\u{2588}\u{2588}\u{2588}\u{2588}\u{2588}"@
        }
    } else if glyph == 3 {
        if row == 0 {
            "\u{2588}\u{2588}\u{2588}\u{2588} "@
        } else if row == 1 {
            "    \u{2588}"@
        } else if row == 2 {
            " \u{2588}\u{2588}\u{2588} "@
        } else if row == 3 {
            "    \u{2588}"@
        } else {
            "\u{2588}\u{2588}\u{2588}\u{2588} "@
        }
    } else if glyph == 4 {
        if row == 0 {
            "\u{2588}   \u{2588}"@
        } else if row == 1 {
            "\u{2588}   \u{2588}"@
        } else if row == 2 {
            "\u{2588}\u{2588}\u{2588}\u{2588}\u{2588}"@
        } else if row == 3 {
            "    \u{2588}"@
        } else {
            "    \u{2588}"@
        }
    } else if glyph == 5 {
        if row == 0 {
            "\u{2588}\u{2588}\u{2588}\u{2588}\u{2588}"@
        } else if row == 1 {
            "\u{2588}    "@
        } else if row == 2 {
            "\u{2588}\u{2588}\u{2588}\u{2588} "@
        } else if row == 3 {
            "    \u{2588}"@
        } else {
            "\u{2588}\u{2588}\u{2588}\u{2588} "@
        }
    } else if glyph == 6 {
        if row == 0 {
            " \u{2588}\u{2588}\u{2588} "@
        } else if row == 1 {
            "\u{2588}    "@
        } else if row == 2 {
            "\u{2588}\u{2588}\u{2588}\u{2588} "@
        } else if row == 3 {
            "\u{2588}   \u{2588}"@
        } else {
            " \u{2588}\u{2588}\u{2588} "@
        }
    } else if glyph == 7 {
        if row == 0 {
            "\u{2588}\u{2588}\u{2588}\u{2588}\u{2588}"@
        } else if row == 1 {
            "    \u{2588}"@
        } else if row == 2 {
            "   \u{2588} "@
        } else if row == 3 {
            "  \u{2588}  "@
        } else {
            "  \u{2588}  "@
        }
    } else if glyph == 8 {
        if row == 0 {
            " \u{2588}\u{2588}\u{2588} "@
        } else if row == 1 {
            "\u{2588}   \u{2588}"@
        } else if row == 2 {
            " \u{2588}\u{2588}\u{2588} "@
        } else if row == 3 {
            "\u{2588}   \u{2588}"@
        } else {
            " \u{2588}\u{2588}\u{2588} "@
        }
    } else if glyph == 9 {
        if row == 0 {
            " \u{2588}\u{2588}\u{2588} "@
        } else if row == 1 {
            "\u{2588}   \u{2588}"@
        } else if row == 2 {
            " \u{2588}\u{2588}\u{2588}\u{2588}"@
        } else if row == 3 {
            "    \u{2588}"@
        } else {
            " \u{2588}\u{2588}\u{2588} "@
        }
    } else {
        if row == 0 {
            "     "@
        } else if row == 1 {
            "  \u{2591}  "@
        } else if row == 2 {
            "     "@
        } else if row == 3 {
            "  \u{2591}  "@
        } else {
            "     "@
        }
    }
}

/// One row of a text in big glyphs: the rows of its glyphs side by side,
/// each followed by a blank.
pub open spec fn big_row(time: Seq<char>, row: nat) -> Seq<char>
    decreases time.len(),
{
    if time.len() == 0 {
        Seq::empty()
    } else {
        big_row(time.drop_last(), row) + big_glyph_row(big_glyph_index(time.last()), row) + " "@
    }
}

/// What the big clock shows for the time that is left: minutes and
/// seconds, and hours before them from one hour on.
pub open spec fn big_clock_label(remaining_secs: nat) -> Seq<char> {
    if remaining_secs >= 3600 {
        two_digits(remaining_secs / 3600) + ":"@ + two_digits((remaining_secs % 3600) / 60) + ":"@
            + two_digits(remaining_secs % 60)
    } else {
        two_digits((remaining_secs % 3600) / 60) + ":"@ + two_digits(remaining_secs % 60)
    }
}

/// The place of a character among the big glyphs.
pub fn big_glyph_index_of(c: char) -> (glyph: u8)
    ensures
        glyph == big_glyph_index(c),
        glyph <= 10,
{
    if c == '0' {
        0
    } else if c == '1' {
        1
    } else if c == '2' {
        2
    } else if c == '3' {
        3
    } else if c == '4' {
        4
    } else if c == '5' {
        5
    } else if c == '6' {
        6
    } else if c == '7' {
        7
    } else if c == '8' {
        8
    } else if c == '9' {
        9
    } else {
        10
    }
}

/// One row of a big glyph.
pub fn big_glyph_row_text(glyph: u8, row: u8) -> (text: &'static str)
    ensures
        text@ == big_glyph_row(glyph as nat, row as nat),
{
    if glyph == 0 {
        if row == 0 {
            " \u{2588}\u{2588}\u{2588} "
        } else if row == 1 {
            "\u{2588}   \u{2588}"
        } else if row == 2 {
            "\u{2588}   \u{2588}"
        } else if row == 3 {
            "\u{2588}   \u{2588}"
        } else {
            " \u{2588}\u{2588}\u{2588} "
        }
    } else if glyph == 1 {
        if row == 0 {
            "  \u{2588}  "
        } else if row == 1 {
            " \u{2588}\u{2588}  "
        } else if row == 2 {
            "  \u{2588}  "
        } else if row == 3 {
            "  \u{2588}  "
        } else {
            " \u{2588}\u{2588}\u{2588} "
        }
    } else if glyph == 2 {
        if row == 0 {
            " \u{2588}\u{2588}\u{2588} "
        } else if row == 1 {
            "    \u{2588}"
        } else if row == 2 {
            " \u{2588}\u{2588}\u{2588} "
        } else if row == 3 {
            "\u{2588}    "
        } else {
            "\u{2588}\u{2588}\u{2588}\u{2588}\u{2588}"
        }
    } else if glyph == 3 {
        if row == 0 {
            "\u{2588}\u{2588}\u{2588}\u{2588} "
        } else if row == 1 {
            "    \u{2588}"
        } else if row == 2 {
            " \u{2588}\u{2588}\u{2588} "
        } else if row == 3 {
            "    \u{2588}"
        } else {
            "\u{2588}\u{2588}\u{2588}\u{2588} "
        }
    } else if glyph == 4 {
        if row == 0 {
            "\u{2588}   \u{2588}"
        } else if row == 1 {
            "\u{2588}   \u{2588}"
        } else if row == 2 {
            "\u{2588}\u{2588}\u{2588}\u{2588}\u{2588}"
        } else if row == 3 {
            "    \u{2588}"
        } else {
            "    \u{2588}"
        }
    } else if glyph == 5 {
        if row == 0 {
            "\u{2588}\u{2588}\u{2588}\u{2588}\u{2588}"
        } else if row == 1 {
            "\u{2588}    "
        } else if row == 2 {
            "\u{2588}\u{2588}\u{2588}\u{2588} "
        } else if row == 3 {
            "    \u{2588}"
        } else {
            "\u{2588}\u{2588}\u{2588}\u{2588} "
        }
    } else if glyph == 6 {
        if row == 0 {
            " \u{2588}\u{2588}\u{2588} "
        } else if row == 1 {
            "\u{2588}    "
        } else if row == 2 {
            "\u{2588}\u{2588}\u{2588}\u{2588} "
        } else if row == 3 {
            "\u{2588}   \u{2588}"
        } else {
            " \u{2588}\u{2588}\u{2588} "
        }
    } else if glyph == 7 {
        if row == 0 {
            "\u{2588}\u{2588}\u{2588}\u{2588}\u{2588}"
        } else if row == 1 {
            "    \u{2588}"
        } else if row == 2 {
            "   \u{2588} "
        } else if row == 3 {
            "  \u{2588}  "
        } else {
            "  \u{2588}  "
        }
    } else if glyph == 8 {
        if row == 0 {
            " \u{2588}\u{2588}\u{2588} "
        } else if row == 1 {
            "\u{2588}   \u{2588}"
        } else if row == 2 {
            " \u{2588}\u{2588}\u{2588} "
        } else if row == 3 {
            "\u{2588}   \u{2588}"
        } else {
            " \u{2588}\u{2588}\u{2588} "
        }
    } else if glyph == 9 {
        if row == 0 {
            " \u{2588}\u{2588}\u{2588} "
        } else if row == 1 {
            "\u{2588}   \u{2588}"
        } else if row == 2 {
            " \u{2588}\u{2588}\u{2588}\u{2588}"
        } else if row == 3 {
            "    \u{2588}"
        } else {
            " \u{2588}\u{2588}\u{2588} "
        }
    } else {
        if row == 0 {
            "     "
        } else if row == 1 {
            "  \u{2591}  "
        } else if row == 2 {
            "     "
        } else if row == 3 {
            "  \u{2591}  "
        } else {
            "     "
        }
    }
}

/// One row of a text in big glyphs.
pub fn render_big_row(time: &str, row: u8) -> (line: String)
    ensures
        line@ == big_row(time@, row as nat),
{
    let mut line = String::new();
    assert(time@.take(0) =~= Seq::<char>::empty());
    for c in it: time.chars()
        invariant
            it.seq() == time@,
            line@ == big_row(time@.take(it.index() as int), row as nat),
    {
        assert(time@.take(it.index() + 1).drop_last() =~= time@.take(it.index() as int));
        push_text(&mut line, big_glyph_row_text(big_glyph_index_of(c), row));
        push_text(&mut line, " ");
    }
    assert(time@.take(time@.len() as int) =~= time@);
    line
}

/// A text in big glyphs: five lines, each the same row of every glyph.
/// A character that is no digit is drawn as the colon.
pub fn render_big_time(time: &str) -> (lines: Vec<String>)
    ensures
        lines.len() == BIG_ROWS,
        forall|row: int| 0 <= row < BIG_ROWS ==> (#[trigger] lines[row])@ == big_row(time@, row as nat),
{
    let mut lines: Vec<String> = Vec::new();
    let mut row: u8 = 0;
    while row < BIG_ROWS
        invariant
            row <= BIG_ROWS,
            lines.len() == row,
            forall|r: int| 0 <= r < row ==> (#[trigger] lines[r])@ == big_row(time@, r as nat),
        decreases BIG_ROWS - row,
    {
        lines.push(render_big_row(time, row));
        row = row + 1;
    }
    lines
}

/// What the big clock shows for the time that is left.
pub fn big_clock_text(remaining: Span) -> (label: String)
    ensures
        label@ == big_clock_label(remaining@ / (NANOS_PER_SEC as nat)),
{
    let secs: u64 = remaining.as_secs();
    let mut label = String::new();
    if secs >= 3600 {
        push_two_digits(&mut label, secs / 3600);
        push_text(&mut label, ":");
        push_two_digits(&mut label, (secs % 3600) / 60);
        push_text(&mut label, ":");
        push_two_digits(&mut label, secs % 60);
        assert(label@ =~= big_clock_label(secs as nat));
    } else {
        push_two_digits(&mut label, (secs % 3600) / 60);
        push_text(&mut label, ":");
        push_two_digits(&mut label, secs % 60);
        assert(label@ =~= big_clock_label(secs as nat));
    }
    label
}

/// `std::time::Instant`, a reading of the monotonic clock of the machine.
/// Nothing is known of what it holds.
#[verifier::external_type_specification]
#[verifier::external_body]
pub struct ExInstant(Instant);

/// `Instant::now`: the present reading of the monotonic clock. Nothing is
/// claimed of it.
#[verifier::external_body]
fn clock_origin() -> (origin: Instant) {
    Instant::now()
}

/// `Instant::elapsed`: the time since `origin` by the monotonic clock, in
/// nanoseconds. Nothing is claimed of it.
#[verifier::external_body]
fn clock_reading(origin: &Instant) -> (nanos: u128) {
    origin.elapsed().as_nanos()
}

/// What the keys of the focus session ask for.
#[derive(Debug, Clone, Copy, PartialEq, Eq, Structural)]
pub enum Command {
    /// Leave at once.
    Quit,
    /// Pause a running countdown, resume a paused one.
    TogglePause,
    /// Add a minute to the countdown.
    Extend,
    /// Take a minute off the countdown, if more than that is left of it.
    Shorten,
    /// Start over.
    Restart,
    /// Switch the alert on or off.
    ToggleAlert,
    /// Lower the threshold of the alert by ten seconds.
    LowerAlertThreshold,
    /// Raise the threshold of the alert by ten seconds.
    RaiseAlertThreshold,
}

/// What the loop around the session does after a step.
#[derive(Debug, Clone, Copy, PartialEq, Eq, Structural)]
pub enum Step {
    /// Draw the next frame and go on.
    Continue,
    /// The countdown has just ended: show the panel that says so, then
    /// wait for one more key.
    Complete,
    /// Leave.
    Exit,
}

/// Where a session stands.
#[derive(Debug, Clone, Copy, PartialEq, Eq, Structural)]
pub enum SessionState {
    Running,
    Paused,
    Completed,
}

/// The longest that the loop waits for a key before it draws again, in
/// milliseconds.
pub const TICK_MILLIS: u64 = 100;

/// The seconds by which one key extends or shortens the countdown.
pub const ADJUST_STEP_SECS: i64 = 60;

/// The seconds by which one key moves the threshold of the alert.
pub const ALERT_STEP_SECS: i64 = 10;

/// The threshold of the alert in a new session, in seconds.
pub const DEFAULT_ALERT_SECS: u64 = 60;

/// The command that a key stands for.
pub open spec fn command_named(key: char) -> Option<Command> {
    if key == 'q' {
        Some(Command::Quit)
    } else if key == 'p' {
        Some(Command::TogglePause)
    } else if key == '+' {
        Some(Command::Extend)
    } else if key == '-' {
        Some(Command::Shorten)
    } else if key == 'r' {
        Some(Command::Restart)
    } else if key == 'n' {
        Some(Command::ToggleAlert)
    } else if key == '<' {
        Some(Command::LowerAlertThreshold)
    } else if key == '>' {
        Some(Command::RaiseAlertThreshold)
    } else {
        None
    }
}

/// The command that a key stands for, if it stands for one.
pub fn command_for_key(key: char) -> (command: Option<Command>)
    ensures
        command == command_named(key),
{
    if key == 'q' {
        Some(Command::Quit)
    } else if key == 'p' {
        Some(Command::TogglePause)
    } else if key == '+' {
        Some(Command::Extend)
    } else if key == '-' {
        Some(Command::Shorten)
    } else if key == 'r' {
        Some(Command::Restart)
    } else if key == 'n' {
        Some(Command::ToggleAlert)
    } else if key == '<' {
        Some(Command::LowerAlertThreshold)
    } else if key == '>' {
        Some(Command::RaiseAlertThreshold)
    } else {
        None
    }
}

/// The alert that tells when little time is left.
pub struct AlertModel {
    /// Whether the alert is switched on.
    pub enabled: bool,
    /// The time left at or below which the alert fires, in nanoseconds.
    pub threshold: nat,
    /// Whether the alert has fired since it was last set.
    pub already_fired: bool,
}

/// The mathematical state of a focus session.
pub struct SessionModel {
    /// The name of the session. No operation changes it.
    pub name: Seq<char>,
    /// The theme the session is drawn with. No operation changes it.
    pub theme: ProgressBarTheme,
    pub clock: ClockModel,
    pub alert: AlertModel,
    /// Whether the countdown has ended. Nothing leads back from there.
    pub completed: bool,
}

impl SessionModel {
    /// The clock is well formed and the threshold of the alert is a span of
    /// a second at least.
    pub open spec fn wf(self) -> bool {
        &&& self.clock.wf()
        &&& NANOS_PER_SEC <= self.alert.threshold <= MAX_NANOS
    }

    /// A session that starts at `now`: running, the alert off and set to a
    /// minute.
    pub open spec fn initial(
        now: nat,
        duration: nat,
        name: Seq<char>,
        theme: ProgressBarTheme,
    ) -> SessionModel {
        SessionModel {
            name,
            theme,
            clock: ClockModel::start(now, duration),
            alert: AlertModel {
                enabled: false,
                threshold: (DEFAULT_ALERT_SECS * NANOS_PER_SEC) as nat,
                already_fired: false,
            },
            completed: false,
        }
    }

    pub open spec fn state(self) -> SessionState {
        if self.completed {
            SessionState::Completed
        } else if self.clock.paused() {
            SessionState::Paused
        } else {
            SessionState::Running
        }
    }

    /// Whether the alert is due at `now`: it is switched on, the countdown
    /// runs, and no more than the threshold is left.
    pub open spec fn alert_due(self, now: nat) -> bool {
        self.alert.enabled && !self.clock.paused() && self.clock.remaining(now)
            <= self.alert.threshold
    }

    /// Marks the alert as fired if it is due at `now`.
    pub open spec fn check_alert(self, now: nat) -> SessionModel {
        if self.alert_due(now) {
            SessionModel { alert: AlertModel { already_fired: true, ..self.alert }, ..self }
        } else {
            self
        }
    }

    /// Switches the alert on or off. It has then not fired.
    pub open spec fn toggle_alert(self) -> SessionModel {
        SessionModel {
            alert: AlertModel {
                enabled: !self.alert.enabled,
                threshold: self.alert.threshold,
                already_fired: false,
            },
            ..self
        }
    }

    /// The threshold after a change by `delta_secs` seconds: never under a
    /// second, never over the longest span.
    pub open spec fn moved_threshold(threshold: nat, delta_secs: int) -> nat {
        let moved = threshold + delta_secs * NANOS_PER_SEC;
        if moved < NANOS_PER_SEC {
            NANOS_PER_SEC as nat
        } else if moved > MAX_NANOS {
            MAX_NANOS as nat
        } else {
            moved as nat
        }
    }

    /// Moves the threshold of the alert by `delta_secs` seconds. The alert
    /// has then not fired.
    pub open spec fn adjust_alert_threshold(self, delta_secs: int) -> SessionModel {
        SessionModel {
            alert: AlertModel {
                enabled: self.alert.enabled,
                threshold: Self::moved_threshold(self.alert.threshold, delta_secs),
                already_fired: false,
            },
            ..self
        }
    }

    /// Starts the countdown over at `now`. The alert stays as it is.
    pub open spec fn restart(self, now: nat) -> SessionModel {
        SessionModel { clock: self.clock.restart(now), ..self }
    }

    /// What a command does to the session at `now`. Quitting changes
    /// nothing: it is the loop that leaves.
    pub open spec fn apply(self, command: Command, now: nat) -> SessionModel {
        match command {
            Command::Quit => self,
            Command::TogglePause => SessionModel { clock: self.clock.toggle_pause(now), ..self },
            Command::Extend => SessionModel {
                clock: self.clock.adjust_duration(ADJUST_STEP_SECS as int),
                ..self
            },
            Command::Shorten => SessionModel {
                clock: self.clock.adjust_duration(-ADJUST_STEP_SECS as int),
                ..self
            },
            Command::Restart => self.restart(now),
            Command::ToggleAlert => self.toggle_alert(),
            Command::LowerAlertThreshold => self.adjust_alert_threshold(-ALERT_STEP_SECS as int),
            Command::RaiseAlertThreshold => self.adjust_alert_threshold(ALERT_STEP_SECS as int),
        }
    }

    /// The session after one turn of the loop at `now`, before the loop is
    /// told what to do. A completed session stays as it is. Else the alert
    /// is checked, then the command of the key that came in, if one did, is
    /// carried out, and last the session becomes completed if the countdown
    /// runs and nothing is left of it.
    pub open spec fn step_state(self, event: Option<Command>, now: nat) -> SessionModel {
        if self.completed || event == Some(Command::Quit) {
            self
        } else {
            let checked = self.check_alert(now);
            let handled = match event {
                Some(command) => checked.apply(command, now),
                None => checked,
            };
            SessionModel { completed: handled.clock.finished(now), ..handled }
        }
    }

    /// What the loop does after one turn at `now`. A completed session
    /// leaves on the first key. A running or paused one leaves on the quit
    /// key, shows the end when the countdown has just ended, and goes on
    /// otherwise.
    pub open spec fn step_action(self, event: Option<Command>, now: nat) -> Step {
        if self.completed {
            if event is Some {
                Step::Exit
            } else {
                Step::Continue
            }
        } else if event == Some(Command::Quit) {
            Step::Exit
        } else if self.step_state(event, now).completed {
            Step::Complete
        } else {
            Step::Continue
        }
    }
}

/// A focus session: a countdown that can be paused, extended, shortened
/// and restarted while it runs, with an alert for its last stretch.
#[derive(Debug)]
pub struct FocusModeApp {
    origin: Instant,
    clock: ClockState,
    name: String,
    theme: ProgressBarTheme,
    notify_remaining: bool,
    notify_threshold: Span,
    notified: bool,
    completed: bool,
}

impl View for FocusModeApp {
    type V = SessionModel;

    /// Everything of the session but the clock of the machine that it
    /// reads, of which nothing is known.
    closed spec fn view(&self) -> SessionModel {
        SessionModel {
            name: self.name@,
            theme: self.theme,
            clock: self.clock@,
            alert: AlertModel {
                enabled: self.notify_remaining,
                threshold: self.notify_threshold@,
                already_fired: self.notified,
            },
            completed: self.completed,
        }
    }
}

/// A reading of the clock: a number of nanoseconds within the longest span.
pub open spec fn is_reading(now: nat) -> bool {
    now <= MAX_NANOS
}

impl FocusModeApp {
    #[verifier::type_invariant]
    pub closed spec fn wf(self) -> bool {
        self@.wf()
    }

    /// A session of `duration` that starts now.
    ///
    /// The clock of the session counts from this moment, so the session
    /// starts at the reading nought.
    pub fn new(duration: Span, name: &str, theme: ProgressBarTheme) -> (app: FocusModeApp)
        requires
            duration@ > 0,
        ensures
            app@ == SessionModel::initial(0, duration@, name@, theme),
            app@.wf(),
    {
        let origin = clock_origin();
        let clock = ClockState::start(Span::from_nanos(0), duration);
        FocusModeApp {
            origin,
            clock,
            name: name.to_owned(),
            theme,
            notify_remaining: false,
            notify_threshold: Span::from_secs(DEFAULT_ALERT_SECS),
            notified: false,
            completed: false,
        }
    }

    /// The present reading of the clock of the session: the time since the
    /// session was made.
    pub fn now(&self) -> (now: Span)
        ensures
            is_reading(now@),
    {
        let now = Span::from_nanos(clock_reading(&self.origin));
        let _ = now.as_nanos();
        now
    }

    /// Where the session stands.
    pub fn state(&self) -> (state: SessionState)
        ensures
            state == self@.state(),
    {
        if self.completed {
            SessionState::Completed
        } else if self.clock.paused() {
            SessionState::Paused
        } else {
            SessionState::Running
        }
    }

    /// Whether the countdown is paused.
    pub fn paused(&self) -> (paused: bool)
        ensures
            paused == self@.clock.paused(),
    {
        self.clock.paused()
    }

    /// The span the countdown runs for.
    pub fn duration(&self) -> (duration: Span)
        ensures
            duration@ == self@.clock.total,
    {
        self.clock.total_duration()
    }

    /// Whether the alert is switched on.
    pub fn alert_enabled(&self) -> (enabled: bool)
        ensures
            enabled == self@.alert.enabled,
    {
        self.notify_remaining
    }

    /// The time left at or below which the alert fires.
    pub fn alert_threshold(&self) -> (threshold: Span)
        ensures
            threshold@ == self@.alert.threshold,
    {
        self.notify_threshold
    }

    /// Whether the alert has fired since it was last set.
    pub fn alert_fired(&self) -> (fired: bool)
        ensures
            fired == self@.alert.already_fired,
    {
        self.notified
    }

    /// Time run so far at the reading `now`, pauses left out.
    pub fn elapsed_at(&self, now: Span) -> (elapsed: Span)
        ensures
            elapsed@ == self@.clock.elapsed(now@),
    {
        self.clock.elapsed(now)
    }

    /// Time still to run at the reading `now`.
    pub fn remaining_at(&self, now: Span) -> (remaining: Span)
        ensures
            remaining@ == self@.clock.remaining(now@),
    {
        self.clock.remaining(now)
    }

    /// How far the countdown has come at the reading `now`.
    pub fn progress_at(&self, now: Span) -> (progress: Progress)
        ensures
            progress.wf(),
            progress.num() == self@.clock.done(now@),
            progress.den() == self@.clock.total,
    {
        self.clock.progress(now)
    }

    /// Pauses or resumes the countdown at the reading `now`.
    pub fn toggle_pause_at(&mut self, now: Span)
        ensures
            final(self)@ == old(self)@.apply(Command::TogglePause, now@),
            final(self)@.wf(),
    {
        proof {
            use_type_invariant(&*self);
        }
        let mut clock: ClockState = self.clock;
        clock.toggle_pause(now);
        self.clock = clock;
    }

    /// Extends the countdown by `amount` seconds, or shortens it when the
    /// number is negative and more than that is left of the span.
    pub fn add_time(&mut self, amount: i64)
        ensures
            final(self)@ == (SessionModel {
                clock: old(self)@.clock.adjust_duration(amount as int),
                ..old(self)@
            }),
            final(self)@.wf(),
    {
        proof {
            use_type_invariant(&*self);
        }
        let mut clock: ClockState = self.clock;
        clock.adjust_duration(amount);
        self.clock = clock;
    }

    /// Starts the countdown over at the reading `now`.
    pub fn restart_at(&mut self, now: Span)
        ensures
            final(self)@ == old(self)@.restart(now@),
            final(self)@.wf(),
    {
        proof {
            use_type_invariant(&*self);
        }
        let mut clock: ClockState = self.clock;
        clock.restart(now);
        self.clock = clock;
    }

    /// Switches the alert on or off.
    pub fn toggle_notify_remaining(&mut self)
        ensures
            final(self)@ == old(self)@.toggle_alert(),
            final(self)@.wf(),
    {
        proof {
            use_type_invariant(&*self);
        }
        self.notify_remaining = !self.notify_remaining;
        self.notified = false;
    }

    /// Moves the threshold of the alert by `delta_secs` seconds, not under
    /// one second.
    pub fn adjust_notify_threshold(&mut self, delta_secs: i64)
        ensures
            final(self)@ == old(self)@.adjust_alert_threshold(delta_secs as int),
            final(self)@.wf(),
    {
        proof {
            use_type_invariant(&*self);
        }
        let threshold: u128 = self.notify_threshold.as_nanos();
        let moved: u128 = if delta_secs >= 0 {
            let change: u128 = delta_secs as u128 * NANOS_PER_SEC;
            if threshold + change > MAX_NANOS {
                MAX_NANOS
            } else {
                threshold + change
            }
        } else {
            let change: u128 = (-(delta_secs as i128)) as u128 * NANOS_PER_SEC;
            if threshold < change + NANOS_PER_SEC {
                NANOS_PER_SEC
            } else {
                threshold - change
            }
        };
        self.notify_threshold = Span::from_nanos(moved);
        self.notified = false;
    }

    /// Marks the alert as fired if it is due at the reading `now`, and
    /// tells whether it fired just now.
    pub fn check_alert(&mut self, now: Span) -> (fired_now: bool)
        ensures
            final(self)@ == old(self)@.check_alert(now@),
            final(self)@.wf(),
            fired_now == (old(self)@.alert_due(now@) && !old(self)@.alert.already_fired),
    {
        proof {
            use_type_invariant(&*self);
        }
        let due: bool = self.notify_remaining && !self.clock.paused() && self.clock.remaining(
            now,
        ).as_nanos() <= self.notify_threshold.as_nanos();
        let fired_now: bool = due && !self.notified;
        if due {
            self.notified = true;
        }
        fired_now
    }

    /// Carries out a command at the reading `now`.
    pub fn apply(&mut self, command: Command, now: Span)
        ensures
            final(self)@ == old(self)@.apply(command, now@),
            final(self)@.wf(),
    {
        proof {
            use_type_invariant(&*self);
        }
        match command {
            Command::Quit => {},
            Command::TogglePause => self.toggle_pause_at(now),
            Command::Extend => self.add_time(ADJUST_STEP_SECS),
            Command::Shorten => self.add_time(-ADJUST_STEP_SECS),
            Command::Restart => self.restart_at(now),
            Command::ToggleAlert => self.toggle_notify_remaining(),
            Command::LowerAlertThreshold => self.adjust_notify_threshold(-ALERT_STEP_SECS),
            Command::RaiseAlertThreshold => self.adjust_notify_threshold(ALERT_STEP_SECS),
        }
    }

    /// One turn of the loop at the reading `now`, with the command of the
    /// key that came in during the turn, if one did.
    pub fn step(&mut self, event: Option<Command>, now: Span) -> (action: Step)
        ensures
            final(self)@ == old(self)@.step_state(event, now@),
            action == old(self)@.step_action(event, now@),
            final(self)@.wf(),
    {
        proof {
            use_type_invariant(&*self);
        }
        if self.completed {
            return if event.is_some() {
                Step::Exit
            } else {
                Step::Continue
            };
        }
        match event {
            Some(Command::Quit) => {
                return Step::Exit;
            },
            _ => {},
        }
        let _ = self.check_alert(now);
        match event {
            Some(command) => self.apply(command, now),
            None => {},
        }
        if self.clock.finished(now) {
            self.completed = true;
            Step::Complete
        } else {
            Step::Continue
        }
    }

    /// Pauses or resumes the countdown now.
    pub fn toggle_pause(&mut self)
        ensures
            exists|now: nat| #[trigger]
                is_reading(now) && final(self)@ == old(self)@.apply(Command::TogglePause, now),
            final(self)@.wf(),
    {
        let now = self.now();
        self.toggle_pause_at(now);
    }

    /// Starts the countdown over now.
    pub fn restart(&mut self)
        ensures
            exists|now: nat| #[trigger] is_reading(now) && final(self)@ == old(self)@.restart(now),
            final(self)@.wf(),
    {
        let now = self.now();
        self.restart_at(now);
    }

    /// Time run so far, pauses left out.
    pub fn elapsed(&self) -> (elapsed: Span)
        ensures
            exists|now: nat| #[trigger] is_reading(now) && elapsed@ == self@.clock.elapsed(now),
    {
        let now = self.now();
        self.elapsed_at(now)
    }

    /// Time still to run.
    pub fn remaining(&self) -> (remaining: Span)
        ensures
            exists|now: nat| #[trigger] is_reading(now) && remaining@ == self@.clock.remaining(now),
    {
        let now = self.now();
        self.remaining_at(now)
    }

    /// How far the countdown has come.
    pub fn progress(&self) -> (progress: Progress)
        ensures
            progress.wf(),
            progress.den() == self@.clock.total,
            exists|now: nat| #[trigger] is_reading(now) && progress.num() == self@.clock.done(now),
    {
        let now = self.now();
        self.progress_at(now)
    }
}

/// The cell at `index` of the bar of the full-screen view. The bar fills
/// from the left in `color`. The percentage stands in the middle of it, in
/// black on the fill where the fill has reached it and in `color` on the
/// empty bar where it has not, so that it reads either way.
pub open spec fn focus_cell(color: Color, label: Seq<char>, filled: nat, width: nat, index: nat)
    -> SegmentModel {
    let start = if width >= label.len() {
        (width - label.len()) / 2
    } else {
        0
    };
    if start <= index < start + label.len() {
        if index < filled {
            glyph(label[index - start], Color::Black, color, true)
        } else {
            glyph(label[index - start], color, Color::Unset, true)
        }
    } else if index < filled {
        glyph(' ', Color::Unset, color, false)
    } else {
        glyph(' ', Color::Unset, Color::Unset, false)
    }
}

/// The bar of the full-screen view at progress `num / den`.
pub open spec fn focus_bar(color: Color, num: nat, den: nat, width: nat) -> Seq<SegmentModel> {
    Seq::new(
        width,
        |i: int|
            focus_cell(
                color,
                percent_label(percent_tenths(num, den)),
                rounded_cells(num, den, width),
                width,
                i as nat,
            ),
    )
}

/// The line under the bar: the time that is left, marked where the
/// countdown is paused, and the threshold of the alert where it is on.
pub open spec fn status_text(
    paused: bool,
    remaining_secs: nat,
    alert_enabled: bool,
    threshold_secs: nat,
) -> Seq<char> {
    (if paused {
        "PAUSED - "@
    } else {
        Seq::<char>::empty()
    }) + simple_duration_text(remaining_secs) + " remaining"@ + (if alert_enabled {
        " | notif: "@ + decimal(threshold_secs) + "s"@
    } else {
        Seq::<char>::empty()
    })
}

/// The keys of the focus session, as the view lists them.
pub open spec fn controls_text() -> Seq<char> {
    "p: pause | +: add 1m | -: subtract 1m | r: restart | n: notif | <: -10s notif | >: +10s notif | q/ESC: quit"@
}

/// The title of the panel.
pub open spec fn panel_title() -> Seq<char> {
    " \u{1F570}\u{FE0F} FOCUS MODE "@
}

impl SessionModel {
    /// The colour of the panel and the bar at `now`: red while the alert is
    /// due, else what the theme gives for the progress.
    pub open spec fn frame_color(self, now: nat) -> Color {
        if self.alert_due(now) {
            Color::Red
        } else {
            panel_color(self.theme, self.clock.done(now), self.clock.total)
        }
    }
}

/// What the full-screen view shows in one frame.
#[derive(Debug, Clone, PartialEq, Eq)]
pub struct FocusFrame {
    /// The colour of the border of the panel.
    pub border: Color,
    /// The title on the border.
    pub title: Segment,
    /// The name of the session, in the first slot.
    pub name: Segment,
    /// The bar, one segment for each cell, in the second slot.
    pub bar: Vec<Segment>,
    /// The time that is left, in the third slot.
    pub status: Segment,
    /// The keys, in the last slot.
    pub controls: Segment,
}

/// What the full-screen view owes once the countdown is over.
#[derive(Debug, Clone, PartialEq, Eq)]
pub struct CompletionPanel {
    /// The colour of the border of the panel.
    pub border: Color,
    /// The line that says the countdown is over.
    pub headline: Segment,
    /// The line that asks for a key.
    pub hint: Segment,
    /// Whether to ring the bell.
    pub bell: bool,
    /// The notification to send, if one was asked for.
    pub notification: Option<Notification>,
}

/// Draws the bar of the full-screen view.
pub fn render_focus_bar(color: Color, progress: &Progress, width: u16) -> (bar: Vec<Segment>)
    ensures
        line_model(bar@) == focus_bar(color, progress.num(), progress.den(), width as nat),
{
    let label: String = percent_text(progress);
    let len: usize = label.as_str().unicode_len();
    let filled: u16 = progress.rounded_cells(width);
    let start: usize = if width as usize >= len {
        (width as usize - len) / 2
    } else {
        0
    };
    let ghost cells = focus_bar(color, progress.num(), progress.den(), width as nat);
    let mut bar: Vec<Segment> = Vec::new();
    assert(line_model(bar@) =~= cells.take(0));
    let mut index: u16 = 0;
    while index < width
        invariant
            index <= width,
            len == label@.len(),
            label@ == percent_label(percent_tenths(progress.num(), progress.den())),
            filled == rounded_cells(progress.num(), progress.den(), width as nat),
            start == if width >= label@.len() {
                (width - label@.len()) / 2
            } else {
                0
            },
            cells == focus_bar(color, progress.num(), progress.den(), width as nat),
            line_model(bar@) == cells.take(index as int),
        decreases width - index,
    {
        let at: usize = index as usize;
        let cell: Segment = if start <= at && at - start < len {
            let c: char = label.as_str().get_char(at - start);
            if index < filled {
                Segment::glyph(c, Color::Black, color, true)
            } else {
                Segment::glyph(c, color, Color::Unset, true)
            }
        } else if index < filled {
            Segment::glyph(' ', Color::Unset, color, false)
        } else {
            Segment::glyph(' ', Color::Unset, Color::Unset, false)
        };
        assert(cell@ == cells[index as int]);
        assert(cells.take(index + 1) =~= cells.take(index as int).push(cells[index as int]));
        push_segment(&mut bar, cell);
        index = index + 1;
    }
    assert(cells.take(width as int) =~= cells);
    bar
}

/// Writes the line under the bar.
pub fn render_status(paused: bool, remaining: Span, alert_enabled: bool, threshold: Span) -> (text:
    String)
    ensures
        text@ == status_text(
            paused,
            remaining@ / (NANOS_PER_SEC as nat),
            alert_enabled,
            threshold@ / (NANOS_PER_SEC as nat),
        ),
{
    let mut text = String::new();
    if paused {
        push_text(&mut text, "PAUSED - ");
    }
    push_simple_duration(&mut text, remaining);
    push_text(&mut text, " remaining");
    if alert_enabled {
        push_text(&mut text, " | notif: ");
        push_decimal(&mut text, threshold.as_secs());
        push_text(&mut text, "s");
    }
    assert(text@ =~= status_text(
        paused,
        remaining@ / (NANOS_PER_SEC as nat),
        alert_enabled,
        threshold@ / (NANOS_PER_SEC as nat),
    ));
    text
}

impl FocusModeApp {
    /// The frame of the full-screen view at the reading `now`, for a bar
    /// of `width` cells.
    pub fn frame(&self, now: Span, width: u16) -> (frame: FocusFrame)
        ensures
            frame.border == self@.frame_color(now@),
            frame.title@ == styled(panel_title(), Color::White, true),
            frame.name@ == styled(self@.name, Color::White, true),
            line_model(frame.bar@) == focus_bar(
                self@.frame_color(now@),
                self@.clock.done(now@),
                self@.clock.total,
                width as nat,
            ),
            frame.status@ == styled(
                status_text(
                    self@.clock.paused(),
                    self@.clock.remaining(now@) / (NANOS_PER_SEC as nat),
                    self@.alert.enabled,
                    self@.alert.threshold / (NANOS_PER_SEC as nat),
                ),
                if self@.clock.paused() {
                    Color::Yellow
                } else {
                    Color::White
                },
                true,
            ),
            frame.controls@ == styled(controls_text(), Color::DarkGray, false),
    {
        let paused: bool = self.clock.paused();
        let remaining: Span = self.clock.remaining(now);
        let progress: Progress = self.clock.progress(now);
        let due: bool = self.notify_remaining && !paused && remaining.as_nanos()
            <= self.notify_threshold.as_nanos();
        let color: Color = if due {
            Color::Red
        } else {
            panel_color_for(self.theme, &progress)
        };
        let bar = render_focus_bar(color, &progress, width);
        let status = render_status(paused, remaining, self.notify_remaining, self.notify_threshold);
        FocusFrame {
            border: color,
            title: Segment::styled(" \u{1F570}\u{FE0F} FOCUS MODE ".to_owned(), Color::White, true),
            name: Segment::styled(self.name.clone(), Color::White, true),
            bar,
            status: Segment::styled(
                status,
                if paused {
                    Color::Yellow
                } else {
                    Color::White
                },
                true,
            ),
            controls: Segment::styled(
                "p: pause | +: add 1m | -: subtract 1m | r: restart | n: notif | <: -10s notif | >: +10s notif | q/ESC: quit".to_owned(),
                Color::DarkGray,
                false,
            ),
        }
    }

    /// What is owed once the countdown is over: the panel that says so,
    /// the bell if it is wanted, and the notification if one is wanted.
    pub fn completion(&self, bell: bool, notify: bool) -> (panel: CompletionPanel)
        ensures
            panel.border == Color::Green,
            panel.headline@ == styled(self@.name + " completed!"@, Color::Green, true),
            panel.hint@ == styled("Press any key to exit"@, Color::DarkGray, false),
            panel.bell == bell,
            panel.notification is Some <==> notify,
            panel.notification matches Some(n) ==> {
                &&& n.title@ == self@.name + " completed!"@
                &&& n.body@ == "Duration: "@ + simple_duration_text(
                    self@.clock.total / (NANOS_PER_SEC as nat),
                )
            },
    {
        let mut headline = String::new();
        push_text(&mut headline, self.name.as_str());
        push_text(&mut headline, " completed!");
        assert(headline@ =~= self@.name + " completed!"@);
        let notification = if notify {
            Some(completion_notification(self.name.as_str(), self.clock.total_duration()))
        } else {
            None
        };
        CompletionPanel {
            border: Color::Green,
            headline: Segment::styled(headline, Color::Green, true),
            hint: Segment::styled("Press any key to exit".to_owned(), Color::DarkGray, false),
            bell,
            notification,
        }
    }
}

/// The alert fires once for each setting. A turn of the loop marks it as
/// fired exactly when it is due or had fired before, and once it has fired
/// it stays so through every turn, whatever the time and the key, until a
/// key switches the alert or moves its threshold.
pub proof fn law_alert_fires_once(session: SessionModel, event: Option<Command>, now: nat)
    requires
        session.wf(),
    ensures
        session.check_alert(now).alert.already_fired == (session.alert.already_fired
            || session.alert_due(now)),
        session.alert.already_fired && event != Some(Command::ToggleAlert) && event != Some(
            Command::LowerAlertThreshold,
        ) && event != Some(Command::RaiseAlertThreshold) ==> {
            &&& session.step_state(event, now).alert == session.alert
        },
        !session.toggle_alert().alert.already_fired,
        forall|delta_secs: int| !(#[trigger] session.adjust_alert_threshold(delta_secs)).alert.already_fired,
{
}

/// The threshold of the alert never falls under one second, and every
/// command leaves a well-formed session well formed.
pub proof fn law_session_stays_well_formed(session: SessionModel, event: Option<Command>, now: nat)
    requires
        session.wf(),
        now <= MAX_NANOS,
    ensures
        session.step_state(event, now).wf(),
        session.step_state(event, now).alert.threshold >= NANOS_PER_SEC,
{
    crate::clock::law_operations_keep_clock_well_formed(session.clock, now, ADJUST_STEP_SECS as int);
    crate::clock::law_operations_keep_clock_well_formed(
        session.clock,
        now,
        -ADJUST_STEP_SECS as int,
    );
}

/// A session completes only from running, and only when nothing is left
/// of the countdown; once completed it never changes again.
pub proof fn law_completed_is_terminal(session: SessionModel, event: Option<Command>, now: nat)
    requires
        session.wf(),
    ensures
        session.completed ==> session.step_state(event, now) == session,
        !session.completed && session.step_state(event, now).completed ==> {
            &&& !session.step_state(event, now).clock.paused()
            &&& session.step_state(event, now).clock.remaining(now) == 0
        },
        session.step_action(event, now) == Step::Complete ==> !session.completed
            && session.step_state(event, now).state() == SessionState::Completed,
{
}

/// The clock of the big-clock view after one turn of its loop at `now`:
/// the pause key pauses or resumes, the restart key starts the countdown
/// over at `now`, and no other key does anything.
pub open spec fn big_clock_state(clock: ClockModel, event: Option<Command>, now: nat)
    -> ClockModel {
    match event {
        Some(Command::TogglePause) => clock.toggle_pause(now),
        Some(Command::Restart) => clock.restart(now),
        _ => clock,
    }
}

/// What the loop of the big-clock view does after one turn at `now`: it
/// leaves on the quit key, ends once the whole span has run, and goes on
/// otherwise.
pub open spec fn big_clock_action(clock: ClockModel, event: Option<Command>, now: nat) -> Step {
    if event == Some(Command::Quit) {
        Step::Exit
    } else if big_clock_state(clock, event, now).elapsed(now) >= big_clock_state(
        clock,
        event,
        now,
    ).total {
        Step::Complete
    } else {
        Step::Continue
    }
}

/// The title of the big-clock view.
pub open spec fn big_clock_title(name: Seq<char>) -> Seq<char> {
    " \u{23F2}\u{FE0F} "@ + name + " "@
}

/// What the big-clock view shows in one frame.
#[derive(Debug, Clone, PartialEq, Eq)]
pub struct BigClockFrame {
    /// The title on the border.
    pub title: Segment,
    /// The time that is left in big digits, row by row.
    pub lines: Vec<String>,
}

/// One turn of the loop of the big-clock view at the reading `now`, with
/// the command of the key that came in during the turn, if one did.
pub fn big_clock_step(clock: &mut ClockState, event: Option<Command>, now: Span) -> (action: Step)
    ensures
        final(clock)@ == if event == Some(Command::Quit) {
            old(clock)@
        } else {
            big_clock_state(old(clock)@, event, now@)
        },
        action == big_clock_action(old(clock)@, event, now@),
        final(clock)@.wf(),
{
    let _ = clock.total_duration();
    match event {
        Some(Command::Quit) => {
            return Step::Exit;
        },
        Some(Command::TogglePause) => {
            clock.toggle_pause(now);
        },
        Some(Command::Restart) => {
            clock.restart(now);
        },
        _ => {},
    }
    if clock.elapsed(now).as_nanos() >= clock.total_duration().as_nanos() {
        Step::Complete
    } else {
        Step::Continue
    }
}

/// The frame of the big-clock view at the reading `now`.
pub fn big_clock_frame(clock: &ClockState, name: &str, now: Span) -> (frame: BigClockFrame)
    ensures
        frame.title@ == styled(big_clock_title(name@), Color::White, true),
        frame.lines.len() == BIG_ROWS,
        forall|row: int|
            0 <= row < BIG_ROWS ==> (#[trigger] frame.lines[row])@ == big_row(
                big_clock_label(clock@.remaining(now@) / (NANOS_PER_SEC as nat)),
                row as nat,
            ),
{
    let mut title = String::new();
    push_text(&mut title, " \u{23F2}\u{FE0F} ");
    push_text(&mut title, name);
    push_text(&mut title, " ");
    assert(title@ =~= big_clock_title(name@));
    let label: String = big_clock_text(clock.remaining(now));
    let lines = render_big_time(label.as_str());
    BigClockFrame { title: Segment::styled(title, Color::White, true), lines }
}

/// The restart key of the big clock starts the countdown over: right after
/// it the clock runs, nothing has run, the whole span is left, and the
/// loop goes on.
pub proof fn law_big_clock_restart_starts_over(clock: ClockModel, now: nat)
    requires
        clock.wf(),
    ensures
        big_clock_state(clock, Some(Command::Restart), now) == clock.restart(now),
        !big_clock_state(clock, Some(Command::Restart), now).paused(),
        big_clock_state(clock, Some(Command::Restart), now).elapsed(now) == 0,
        big_clock_state(clock, Some(Command::Restart), now).remaining(now) == big_clock_state(
            clock,
            Some(Command::Restart),
            now,
        ).total,
        big_clock_action(clock, Some(Command::Restart), now) == Step::Continue,
{
}

} // verus!
