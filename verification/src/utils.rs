//! Small things that every mode of the timer needs.

use vstd::prelude::*;
use crate::progress::ProgressBarTheme;
use crate::text::{decimal, push_decimal, push_text};
use crate::time::{Span, NANOS_PER_SEC};

verus! {

/// A span of whole seconds in words: hours, minutes and seconds, without
/// the leading parts that are zero.
pub open spec fn simple_duration_text(total_secs: nat) -> Seq<char> {
    let hours = total_secs / 3600;
    let mins = (total_secs % 3600) / 60;
    let secs = total_secs % 60;
    if hours > 0 {
        decimal(hours) + "h "@ + decimal(mins) + "m "@ + decimal(secs) + "s"@
    } else if mins > 0 {
        decimal(mins) + "m "@ + decimal(secs) + "s"@
    } else {
        decimal(secs) + "s"@
    }
}

/// Appends a span in words, its part below one second left off.
pub fn push_simple_duration(out: &mut String, duration: Span)
    ensures
        final(out)@ == old(out)@ + simple_duration_text(duration@ / (NANOS_PER_SEC as nat)),
{
    let total_secs: u64 = duration.as_secs();
    let hours: u64 = total_secs / 3600;
    let mins: u64 = (total_secs % 3600) / 60;
    let secs: u64 = total_secs % 60;
    if hours > 0 {
        push_decimal(out, hours);
        push_text(out, "h ");
        push_decimal(out, mins);
        push_text(out, "m ");
        push_decimal(out, secs);
        push_text(out, "s");
        assert(out@ =~= old(out)@ + simple_duration_text(total_secs as nat));
    } else if mins > 0 {
        push_decimal(out, mins);
        push_text(out, "m ");
        push_decimal(out, secs);
        push_text(out, "s");
        assert(out@ =~= old(out)@ + simple_duration_text(total_secs as nat));
    } else {
        push_decimal(out, secs);
        push_text(out, "s");
        assert(out@ =~= old(out)@ + simple_duration_text(total_secs as nat));
    }
}

/// A span in words, such as `1h 5m 0s`, `2m 30s` or `45s`. The part below
/// one second is left off.
pub fn format_simple_duration(duration: Span) -> (text: String)
    ensures
        text@ == simple_duration_text(duration@ / (NANOS_PER_SEC as nat)),
{
    let mut text = String::new();
    push_simple_duration(&mut text, duration);
    assert(text@ =~= simple_duration_text(duration@ / (NANOS_PER_SEC as nat)));
    text
}

/// What a notification of the desktop carries.
#[derive(Debug, Clone, PartialEq, Eq)]
pub struct Notification {
    pub title: String,
    pub body: String,
}

/// The notification that tells of a countdown that is over: the name in
/// the title, the time it took in the body.
pub fn completion_notification(name: &str, duration: Span) -> (notification: Notification)
    ensures
        notification.title@ == name@ + " completed!"@,
        notification.body@ == "Duration: "@ + simple_duration_text(
            duration@ / (NANOS_PER_SEC as nat),
        ),
{
    let mut title = String::new();
    push_text(&mut title, name);
    push_text(&mut title, " completed!");
    assert(title@ =~= name@ + " completed!"@);
    let mut body = String::new();
    push_text(&mut body, "Duration: ");
    push_simple_duration(&mut body, duration);
    assert(body@ =~= "Duration: "@ + simple_duration_text(duration@ / (NANOS_PER_SEC as nat)));
    Notification { title, body }
}

/// The theme to draw with: the one asked for, or the plain one where the
/// output takes no colour.
pub fn theme_for_output(theme: ProgressBarTheme, use_color: bool) -> (chosen: ProgressBarTheme)
    ensures
        chosen == if use_color { theme } else { ProgressBarTheme::Plain },
{
    if use_color {
        theme
    } else {
        ProgressBarTheme::Plain
    }
}

} // verus!
