//! The pause-aware clock of a countdown.
//!
//! A clock never reads the time itself. Every operation takes `now`, a
//! reading of one monotonic time source, and the clock answers for that
//! reading. A reading that lies before the point the clock already stands at
//! counts as that point, so elapsed time is never negative and never runs
//! backwards through a pause.

use vstd::prelude::*;
use crate::progress::Progress;
use crate::time::{Span, MAX_NANOS, NANOS_PER_SEC};

verus! {

/// The mathematical state of a clock. All times are in nanoseconds.
pub struct ClockModel {
    /// The span the countdown runs for.
    pub total: nat,
    /// The span the countdown was created with, to which a restart returns.
    pub configured: nat,
    /// The reading at which the countdown started or last restarted.
    pub baseline: nat,
    /// The reading at which the running pause began, if the clock is paused.
    pub pause_started_at: Option<nat>,
    /// The length of all pauses that have ended since the baseline.
    pub accumulated_pause: nat,
}

impl ClockModel {
    /// The durations are positive, and the clock stands at or after the
    /// point where its elapsed time is zero.
    pub open spec fn wf(self) -> bool {
        &&& 0 < self.total <= MAX_NANOS
        &&& 0 < self.configured <= MAX_NANOS
        &&& self.zero_point() <= MAX_NANOS
        &&& self.pause_started_at matches Some(p) ==> self.zero_point() <= p <= MAX_NANOS
    }

    /// The reading at which elapsed time is zero: the baseline moved on by
    /// the pauses that have ended.
    pub open spec fn zero_point(self) -> nat {
        self.baseline + self.accumulated_pause
    }

    pub open spec fn paused(self) -> bool {
        self.pause_started_at is Some
    }

    /// A running clock that starts at `now`.
    pub open spec fn start(now: nat, duration: nat) -> ClockModel {
        ClockModel {
            total: duration,
            configured: duration,
            baseline: now,
            pause_started_at: None,
            accumulated_pause: 0,
        }
    }

    /// The point that time is measured up to: where the pause began if the
    /// clock is paused, else `now`.
    pub open spec fn reference(self, now: nat) -> nat {
        match self.pause_started_at {
            Some(p) => p,
            None => now,
        }
    }

    /// Time run so far, pauses left out.
    pub open spec fn elapsed(self, now: nat) -> nat {
        if self.reference(now) >= self.zero_point() {
            (self.reference(now) - self.zero_point()) as nat
        } else {
            0
        }
    }

    /// Time still to run; zero once the countdown is over.
    pub open spec fn remaining(self, now: nat) -> nat {
        if self.elapsed(now) >= self.total {
            0
        } else {
            (self.total - self.elapsed(now)) as nat
        }
    }

    /// The part of `total` that has run: the numerator of the progress
    /// ratio, whose denominator is `total`.
    pub open spec fn done(self, now: nat) -> nat {
        if self.elapsed(now) >= self.total {
            self.total
        } else {
            self.elapsed(now)
        }
    }

    /// Whether a running countdown has reached its end.
    pub open spec fn finished(self, now: nat) -> bool {
        !self.paused() && self.elapsed(now) >= self.total
    }

    /// Pauses a running clock at `now`, or resumes a paused one and books
    /// the pause that ends.
    pub open spec fn toggle_pause(self, now: nat) -> ClockModel {
        match self.pause_started_at {
            None => ClockModel {
                pause_started_at: Some(if now >= self.zero_point() { now } else { self.zero_point() }),
                ..self
            },
            Some(p) => ClockModel {
                pause_started_at: None,
                accumulated_pause: if now >= p {
                    (self.accumulated_pause + (now - p)) as nat
                } else {
                    self.accumulated_pause
                },
                ..self
            },
        }
    }

    /// Extends the countdown by `delta_secs` seconds, or shortens it when
    /// the number is negative. Shortening that would leave nothing is not
    /// done; extending stops at the longest span.
    pub open spec fn adjust_duration(self, delta_secs: int) -> ClockModel {
        if delta_secs > 0 {
            ClockModel {
                total: if self.total + delta_secs * NANOS_PER_SEC <= MAX_NANOS {
                    (self.total + delta_secs * NANOS_PER_SEC) as nat
                } else {
                    MAX_NANOS as nat
                },
                ..self
            }
        } else if self.total > -delta_secs * NANOS_PER_SEC {
            ClockModel { total: (self.total + delta_secs * NANOS_PER_SEC) as nat, ..self }
        } else {
            self
        }
    }

    /// Starts over at `now`: running, no pause on the books, and the span
    /// it was created with.
    pub open spec fn restart(self, now: nat) -> ClockModel {
        ClockModel {
            total: self.configured,
            configured: self.configured,
            baseline: now,
            pause_started_at: None,
            accumulated_pause: 0,
        }
    }
}

/// The clock of one countdown.
#[derive(Clone, Copy, Debug)]
pub struct ClockState {
    total_duration: Span,
    configured_duration: Span,
    baseline: Span,
    pause_started_at: Option<Span>,
    accumulated_pause: Span,
}

impl View for ClockState {
    type V = ClockModel;

    closed spec fn view(&self) -> ClockModel {
        ClockModel {
            total: self.total_duration@,
            configured: self.configured_duration@,
            baseline: self.baseline@,
            pause_started_at: match self.pause_started_at {
                Some(p) => Some(p@),
                None => None,
            },
            accumulated_pause: self.accumulated_pause@,
        }
    }
}

impl ClockState {
    #[verifier::type_invariant]
    pub closed spec fn wf(self) -> bool {
        self@.wf()
    }

    /// A running clock for a countdown of `duration` that starts at `now`.
    pub fn start(now: Span, duration: Span) -> (clock: ClockState)
        requires
            duration@ > 0,
        ensures
            clock@ == ClockModel::start(now@, duration@),
            clock@.wf(),
    {
        let _ = now.as_nanos();
        let _ = duration.as_nanos();
        ClockState {
            total_duration: duration,
            configured_duration: duration,
            baseline: now,
            pause_started_at: None,
            accumulated_pause: Span::from_nanos(0),
        }
    }

    /// The span the countdown runs for.
    pub fn total_duration(&self) -> (total: Span)
        ensures
            total@ == self@.total,
            self@.wf(),
    {
        proof {
            use_type_invariant(self);
        }
        self.total_duration
    }

    /// Whether the clock is paused.
    pub fn paused(&self) -> (paused: bool)
        ensures
            paused == self@.paused(),
    {
        self.pause_started_at.is_some()
    }

    /// Time run so far at the reading `now`, pauses left out.
    pub fn elapsed(&self, now: Span) -> (elapsed: Span)
        ensures
            elapsed@ == self@.elapsed(now@),
    {
        proof {
            use_type_invariant(self);
        }
        let zero: u128 = self.baseline.as_nanos() + self.accumulated_pause.as_nanos();
        let reference: u128 = match self.pause_started_at {
            Some(p) => p.as_nanos(),
            None => now.as_nanos(),
        };
        if reference >= zero {
            Span::from_nanos(reference - zero)
        } else {
            Span::from_nanos(0)
        }
    }

    /// Time still to run at the reading `now`.
    pub fn remaining(&self, now: Span) -> (remaining: Span)
        ensures
            remaining@ == self@.remaining(now@),
    {
        let elapsed = self.elapsed(now);
        self.total_duration.saturating_sub(elapsed)
    }

    /// How far the countdown has come at the reading `now`.
    pub fn progress(&self, now: Span) -> (progress: Progress)
        ensures
            progress.wf(),
            progress.num() == self@.done(now@),
            progress.den() == self@.total,
    {
        proof {
            use_type_invariant(self);
        }
        Progress::new(self.elapsed(now), self.total_duration)
    }

    /// Whether a running countdown has reached its end at the reading `now`.
    pub fn finished(&self, now: Span) -> (finished: bool)
        ensures
            finished == self@.finished(now@),
    {
        !self.paused() && self.elapsed(now).as_nanos() >= self.total_duration.as_nanos()
    }

    /// Pauses a running clock, or resumes a paused one.
    pub fn toggle_pause(&mut self, now: Span)
        ensures
            final(self)@ == old(self)@.toggle_pause(now@),
            final(self)@.wf(),
    {
        proof {
            use_type_invariant(&*self);
        }
        let at: u128 = now.as_nanos();
        match self.pause_started_at {
            None => {
                let zero: u128 = self.baseline.as_nanos() + self.accumulated_pause.as_nanos();
                let begin: u128 = if at >= zero { at } else { zero };
                self.pause_started_at = Some(Span::from_nanos(begin));
            },
            Some(p) => {
                let began: u128 = p.as_nanos();
                let booked: u128 = if at >= began {
                    self.accumulated_pause.as_nanos() + (at - began)
                } else {
                    self.accumulated_pause.as_nanos()
                };
                *self = ClockState {
                    total_duration: self.total_duration,
                    configured_duration: self.configured_duration,
                    baseline: self.baseline,
                    pause_started_at: None,
                    accumulated_pause: Span::from_nanos(booked),
                };
            },
        }
    }

    /// Extends the countdown by `delta_secs` seconds, or shortens it when
    /// the number is negative and more than that is left of the span.
    pub fn adjust_duration(&mut self, delta_secs: i64)
        ensures
            final(self)@ == old(self)@.adjust_duration(delta_secs as int),
            final(self)@.wf(),
    {
        proof {
            use_type_invariant(&*self);
        }
        let total: u128 = self.total_duration.as_nanos();
        if delta_secs > 0 {
            let change: u128 = delta_secs as u128 * NANOS_PER_SEC;
            self.total_duration = Span::from_nanos(total + change);
        } else {
            let change: u128 = (-(delta_secs as i128)) as u128 * NANOS_PER_SEC;
            if total > change {
                self.total_duration = Span::from_nanos(total - change);
            }
        }
    }

    /// Starts the countdown over at `now`, with the span it was created
    /// with.
    pub fn restart(&mut self, now: Span)
        ensures
            final(self)@ == old(self)@.restart(now@),
            final(self)@.wf(),
    {
        proof {
            use_type_invariant(&*self);
        }
        let _ = now.as_nanos();
        *self = ClockState {
            total_duration: self.configured_duration,
            configured_duration: self.configured_duration,
            baseline: now,
            pause_started_at: None,
            accumulated_pause: Span::from_nanos(0),
        };
    }
}

/// Every operation keeps a well-formed clock well formed, as long as the
/// readings it is given lie within the longest span.
pub proof fn law_operations_keep_clock_well_formed(clock: ClockModel, now: nat, delta_secs: int)
    requires
        clock.wf(),
        now <= MAX_NANOS,
    ensures
        clock.toggle_pause(now).wf(),
        clock.adjust_duration(delta_secs).wf(),
        clock.restart(now).wf(),
{
    assert(delta_secs <= 0 ==> delta_secs * NANOS_PER_SEC <= 0) by (nonlinear_arith);
}

/// Pauses are left out of elapsed time: after a countdown that started at
/// `start` has been paused from `pause1` to `resume1` and again from `pause2`
/// to `resume2`, its elapsed time at the second resume is the time since
/// the start less the length of the two pauses.
pub proof fn law_elapsed_leaves_pauses_out(
    start: nat,
    duration: nat,
    pause1: nat,
    resume1: nat,
    pause2: nat,
    resume2: nat,
)
    requires
        duration > 0,
        start <= pause1 <= resume1 <= pause2 <= resume2,
    ensures
        ClockModel::start(start, duration).toggle_pause(pause1).toggle_pause(resume1).toggle_pause(
            pause2,
        ).toggle_pause(resume2).elapsed(resume2) == (resume2 - start) - ((resume1 - pause1) + (
        resume2 - pause2)),
{
}

/// A pause freezes elapsed time, and a resume takes it up where it stood:
/// at any reading after the resume, elapsed time is what it was when the
/// pause began plus the time since the resume.
pub proof fn law_resume_takes_up_elapsed(clock: ClockModel, paused_at: nat, resumed_at: nat, later: nat)
    requires
        clock.wf(),
        !clock.paused(),
        clock.zero_point() <= paused_at <= resumed_at <= later,
    ensures
        clock.toggle_pause(paused_at).elapsed(later) == clock.elapsed(paused_at),
        clock.toggle_pause(paused_at).toggle_pause(resumed_at).elapsed(later) == clock.elapsed(
            paused_at,
        ) + (later - resumed_at),
{
}

/// Toggling twice gives back the state it began with, but for the pause
/// that was booked in between.
pub proof fn law_toggle_twice_only_books_pause(clock: ClockModel, first: nat, second: nat)
    requires
        clock.wf(),
        first <= second,
    ensures
        clock.toggle_pause(first).toggle_pause(second).total == clock.total,
        clock.toggle_pause(first).toggle_pause(second).configured == clock.configured,
        clock.toggle_pause(first).toggle_pause(second).baseline == clock.baseline,
        clock.toggle_pause(first).toggle_pause(second).paused() == clock.paused(),
        clock.toggle_pause(first).toggle_pause(second).accumulated_pause
            >= clock.accumulated_pause,
{
}

/// Progress, the ratio of `done` to `total`, lies between nought and one.
/// While the clock runs untouched it never falls as time goes on, and while
/// the clock is paused it stands still.
pub proof fn law_progress_is_monotonic(clock: ClockModel, earlier: nat, later: nat)
    requires
        clock.wf(),
        earlier <= later,
    ensures
        0 <= clock.done(earlier) <= clock.total,
        clock.done(earlier) <= clock.done(later),
        clock.paused() ==> clock.done(earlier) == clock.done(later),
        clock.remaining(earlier) == clock.total - clock.done(earlier),
{
}

/// Cutting a countdown by as many whole seconds as it has, or by more,
/// changes nothing.
///
/// A cut by exactly the whole seconds of a span that is not a whole number
/// of seconds long is left out: there something under a second remains, so
/// the cut is made.
pub proof fn law_cut_to_nothing_is_refused(clock: ClockModel, secs: nat)
    requires
        clock.wf(),
        secs >= clock.total / (NANOS_PER_SEC as nat),
        secs > 0 && secs == clock.total / (NANOS_PER_SEC as nat) ==> clock.total % (
        NANOS_PER_SEC as nat) == 0,
    ensures
        clock.adjust_duration(-(secs as int)) == clock,
{
    let whole = clock.total / (NANOS_PER_SEC as nat);
    if secs > 0 {
        assert(clock.total == whole * NANOS_PER_SEC + clock.total % (NANOS_PER_SEC as nat)) by {
            vstd::arithmetic::div_mod::lemma_fundamental_div_mod(
                clock.total as int,
                NANOS_PER_SEC as int,
            );
        }
        assert(clock.total <= secs * NANOS_PER_SEC) by (nonlinear_arith)
            requires
                clock.total == whole * NANOS_PER_SEC + clock.total % (NANOS_PER_SEC as nat),
                clock.total % (NANOS_PER_SEC as nat) < NANOS_PER_SEC,
                secs >= whole,
                secs == whole ==> clock.total % (NANOS_PER_SEC as nat) == 0,
        {
        }
        assert(-(-(secs as int)) * NANOS_PER_SEC == secs * NANOS_PER_SEC) by (nonlinear_arith);
    }
}

/// A cut that leaves something is made in full, and a positive countdown
/// stays positive whatever it is adjusted by.
pub proof fn law_adjustment_keeps_duration_positive(clock: ClockModel, delta_secs: int)
    requires
        clock.wf(),
    ensures
        clock.adjust_duration(delta_secs).total > 0,
        delta_secs >= 0 ==> clock.adjust_duration(delta_secs).total >= clock.total,
        delta_secs <= 0 ==> clock.adjust_duration(delta_secs).total <= clock.total,
{
    law_operations_keep_clock_well_formed(clock, 0, delta_secs);
    assert(delta_secs >= 0 ==> delta_secs * NANOS_PER_SEC >= 0) by (nonlinear_arith);
    assert(delta_secs <= 0 ==> delta_secs * NANOS_PER_SEC <= 0) by (nonlinear_arith);
}

/// Right after a restart nothing has run, the whole configured span is
/// left, and a second restart at the same reading changes nothing more.
pub proof fn law_restart_resets_progress(clock: ClockModel, now: nat)
    requires
        clock.wf(),
    ensures
        clock.restart(now).done(now) == 0,
        clock.restart(now).elapsed(now) == 0,
        clock.restart(now).remaining(now) == clock.configured,
        !clock.restart(now).paused(),
        clock.restart(now).restart(now) == clock.restart(now),
{
}

} // verus!
