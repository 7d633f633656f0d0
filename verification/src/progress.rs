//! The one-line progress display: themes, the fill bar and its frames.

use vstd::prelude::*;
use crate::palette::{glyph, line_model, plain, push_segment, styled, Color, Segment, SegmentModel};
use crate::text::{decimal, push_decimal, push_text};
use crate::themes::{
    accent, accent_for, bar_cell, color_for, completion_color, completion_color_for, header_color,
    header_color_for, spinner_color, spinner_color_for, spinner_glyph, spinner_glyph_at,
    FRAME_CYCLE,
};
use crate::time::{Span, MAX_NANOS, NANOS_PER_SEC};
use crate::utils::{
    completion_notification, push_simple_duration, simple_duration_text, theme_for_output,
    Notification,
};

verus! {

/// The visual style of a progress bar.
#[derive(Debug, Clone, Copy, PartialEq, Eq, Structural)]
pub enum ProgressBarTheme {
    /// Green through yellow to red, blended along the filled part of the bar.
    Gradient,
    /// Six colours across the bar, whatever the progress.
    Rainbow,
    /// No colour at all.
    Plain,
    /// Three shades of cyan that run along the bar from frame to frame.
    Pulse,
    /// Green, yellow and red in three fixed bands of the bar.
    Color,
}

/// How far a countdown has come: the ratio of what has run to the whole.
///
/// The ratio lies between nought and one, and the whole is never nothing.
#[derive(Debug, Clone, Copy, PartialEq, Eq)]
pub struct Progress {
    done: u128,
    total: u128,
}

impl Progress {
    #[verifier::type_invariant]
    pub closed spec fn wf(self) -> bool {
        self.done <= self.total && 0 < self.total <= MAX_NANOS
    }

    /// The numerator of the ratio.
    pub closed spec fn num(self) -> nat {
        self.done as nat
    }

    /// The denominator of the ratio.
    pub closed spec fn den(self) -> nat {
        self.total as nat
    }

    /// The progress of `done` out of `total`, which counts as complete when
    /// `done` is the longer span.
    pub fn new(done: Span, total: Span) -> (progress: Progress)
        requires
            total@ > 0,
        ensures
            progress.wf(),
            progress.num() == if done@ <= total@ { done@ } else { total@ },
            progress.den() == total@,
    {
        let d: u128 = done.as_nanos();
        let t: u128 = total.as_nanos();
        Progress { done: if d <= t { d } else { t }, total: t }
    }

    /// The progress `num / den`, if that is a ratio between nought and one.
    pub fn ratio(num: u64, den: u64) -> (progress: Option<Progress>)
        ensures
            progress is Some <==> 0 < den && num <= den,
            progress matches Some(p) ==> p.wf() && p.num() == num && p.den() == den,
    {
        if 0 < den && num <= den {
            Some(Progress { done: num as u128, total: den as u128 })
        } else {
            None
        }
    }

    /// The numerator of the ratio.
    pub fn numerator(&self) -> (num: u128)
        ensures
            num == self.num(),
            self.wf(),
            self.num() <= self.den(),
            0 < self.den() <= MAX_NANOS,
    {
        proof {
            use_type_invariant(self);
        }
        self.done
    }

    /// The denominator of the ratio.
    pub fn denominator(&self) -> (den: u128)
        ensures
            den == self.den(),
            self.wf(),
            self.num() <= self.den(),
            0 < self.den() <= MAX_NANOS,
    {
        proof {
            use_type_invariant(self);
        }
        self.total
    }

    /// Whether the countdown is over.
    pub fn is_complete(&self) -> (complete: bool)
        ensures
            complete == (self.num() == self.den()),
    {
        self.done == self.total
    }
}

/// The number of glyphs on the fill ramp, from the blank to the full block.
pub const RAMP_LEN: u8 = 9;

/// The glyph at a step of the fill ramp: the blank at step 0, the blocks of
/// one to seven eighths after it, and the full block at the last step.
pub open spec fn ramp_glyph(step: nat) -> char {
    if step == 0 {
        ' '
    } else if step == 1 {
        '\u{258F}'
    } else if step == 2 {
        '\u{258E}'
    } else if step == 3 {
        '\u{258D}'
    } else if step == 4 {
        '\u{258C}'
    } else if step == 5 {
        '\u{258B}'
    } else if step == 6 {
        '\u{258A}'
    } else if step == 7 {
        '\u{2589}'
    } else {
        '\u{2588}'
    }
}

/// The step of the ramp for a cell of which `fill` out of `whole` is
/// covered: the occupancy times the last step, which is the eighth, rounded
/// down.
pub open spec fn ramp_step(fill: nat, whole: nat) -> nat {
    fill * 8 / whole
}

/// How much of the cell at `index` in a bar of `width` cells the progress
/// `num / den` covers, in units of which `den` make one cell.
pub open spec fn cell_fill(num: nat, den: nat, width: nat, index: nat) -> nat {
    if num * width <= index * den {
        0
    } else if num * width >= (index + 1) * den {
        den
    } else {
        (num * width - index * den) as nat
    }
}

/// The step of the ramp that the cell at `index` shows.
pub open spec fn cell_step(num: nat, den: nat, width: nat, index: nat) -> nat {
    ramp_step(cell_fill(num, den, width, index), den)
}

/// The number of whole cells that the progress covers in a bar of `width`
/// cells, rounded to the nearest and upwards from the half.
pub open spec fn rounded_cells(num: nat, den: nat, width: nat) -> nat {
    (2 * num * width + den) / (2 * den)
}

/// The progress in tenths of a percent, rounded to the nearest and upwards
/// from the half.
pub open spec fn percent_tenths(num: nat, den: nat) -> nat {
    (2000 * num + den) / (2 * den)
}

/// The glyph at a step of the fill ramp.
pub fn ramp_glyph_at(step: u8) -> (c: char)
    requires
        step < RAMP_LEN,
    ensures
        c == ramp_glyph(step as nat),
{
    if step == 0 {
        ' '
    } else if step == 1 {
        '\u{258F}'
    } else if step == 2 {
        '\u{258E}'
    } else if step == 3 {
        '\u{258D}'
    } else if step == 4 {
        '\u{258C}'
    } else if step == 5 {
        '\u{258B}'
    } else if step == 6 {
        '\u{258A}'
    } else if step == 7 {
        '\u{2589}'
    } else {
        '\u{2588}'
    }
}

/// The step of the ramp never passes its last glyph, and only a cell that
/// is covered whole reaches it.
pub proof fn lemma_ramp_step_bounds(fill: nat, whole: nat)
    requires
        0 < whole,
        fill <= whole,
    ensures
        ramp_step(fill, whole) <= RAMP_LEN - 1,
        fill == whole <==> ramp_step(fill, whole) == RAMP_LEN - 1,
        fill == 0 ==> ramp_step(fill, whole) == 0,
{
    assert(fill * 8 / whole <= 8 && (fill == whole <==> fill * 8 / whole == 8) && (fill == 0
        ==> fill * 8 / whole == 0)) by (nonlinear_arith)
        requires
            0 < whole,
            fill <= whole,
    {
    }
}

impl Progress {
    /// The step of the fill ramp that the cell at `index` shows in a bar of
    /// `width` cells.
    pub fn cell_step(&self, width: u16, index: u16) -> (step: u8)
        ensures
            step == cell_step(self.num(), self.den(), width as nat, index as nat),
            step < RAMP_LEN,
    {
        let num: u128 = self.numerator();
        let den: u128 = self.denominator();
        assert(num * width <= MAX_NANOS * 65535) by (nonlinear_arith)
            requires
                num <= MAX_NANOS,
                width <= 65535,
        {
        }
        assert((index + 1) * den <= 65536 * MAX_NANOS) by (nonlinear_arith)
            requires
                den <= MAX_NANOS,
                index <= 65535,
        {
        }
        assert((index + 1) * den == index * den + den) by (nonlinear_arith);
        let covered: u128 = num * width as u128;
        let before: u128 = index as u128 * den;
        let after: u128 = before + den;
        proof {
            lemma_ramp_step_bounds(
                cell_fill(self.num(), self.den(), width as nat, index as nat),
                self.den(),
            );
        }
        if covered <= before {
            0
        } else if covered >= after {
            8
        } else {
            let part: u128 = covered - before;
            assert(part < den && den <= MAX_NANOS);
            assert(part * 8 <= 8 * MAX_NANOS);
            assert(part * 8 / (den as int) < 8) by (nonlinear_arith)
                requires
                    0 <= part < den,
            {
            }
            (part * 8 / den) as u8
        }
    }

    /// The number of cells that the progress covers in a bar of `width`
    /// cells, rounded to the nearest.
    pub fn rounded_cells(&self, width: u16) -> (cells: u16)
        ensures
            cells == rounded_cells(self.num(), self.den(), width as nat),
            cells <= width,
    {
        let num: u128 = self.numerator();
        let den: u128 = self.denominator();
        assert(2 * num * width <= 2 * MAX_NANOS * 65535) by (nonlinear_arith)
            requires
                num <= MAX_NANOS,
                width <= 65535,
        {
        }
        assert((2 * num * width + den) / (2 * den) <= width) by (nonlinear_arith)
            requires
                num <= den,
                0 < den,
                0 <= width,
        {
        }
        ((2 * num * width as u128 + den) / (2 * den)) as u16
    }

    /// The progress in tenths of a percent, rounded to the nearest.
    pub fn percent_tenths(&self) -> (tenths: u16)
        ensures
            tenths == percent_tenths(self.num(), self.den()),
            tenths <= 1000,
    {
        let num: u128 = self.numerator();
        let den: u128 = self.denominator();
        assert((2000 * num + den) / (2 * den) <= 1000) by (nonlinear_arith)
            requires
                num <= den,
                0 < den,
        {
        }
        ((2000 * num + den) / (2 * den)) as u16
    }
}

/// The number of cells of the bar, unless another is asked for.
pub const BAR_WIDTH: u16 = 40;

/// The label of the percentage, with one place after the point.
pub open spec fn percent_label(tenths: nat) -> Seq<char> {
    decimal(tenths / 10) + "."@ + decimal(tenths % 10) + "%"@
}

/// The percentage of a progress as a label.
pub fn percent_text(progress: &Progress) -> (label: String)
    ensures
        label@ == percent_label(percent_tenths(progress.num(), progress.den())),
{
    let tenths: u16 = progress.percent_tenths();
    let mut label = String::new();
    push_decimal(&mut label, (tenths / 10) as u64);
    push_text(&mut label, ".");
    push_decimal(&mut label, (tenths % 10) as u64);
    push_text(&mut label, "%");
    assert(label@ =~= percent_label(tenths as nat));
    label
}

/// The line above the bar: when the countdown began, its name, and the
/// time that is left.
pub open spec fn header_line(
    theme: ProgressBarTheme,
    start_label: Seq<char>,
    name: Seq<char>,
    remaining_secs: nat,
) -> Seq<SegmentModel> {
    seq![
        styled(start_label, header_color(theme), false),
        plain(" | "@),
        styled(name, header_color(theme), true),
        plain(" | "@),
        styled(simple_duration_text(remaining_secs), header_color(theme), false),
        plain(" remaining"@),
    ]
}

/// The cells of the bar, from the left.
pub open spec fn bar_cells(
    theme: ProgressBarTheme,
    num: nat,
    den: nat,
    width: nat,
    frame: nat,
) -> Seq<SegmentModel> {
    Seq::new(width, |i: int| bar_cell(theme, num, den, width, i as nat, frame))
}

/// What follows the percentage where more is asked for: the time that is
/// left, in brackets, and the name.
pub open spec fn verbose_suffix(
    theme: ProgressBarTheme,
    name: Seq<char>,
    remaining_secs: nat,
) -> Seq<SegmentModel> {
    seq![
        plain(" "@),
        styled("("@ + simple_duration_text(remaining_secs) + ")"@, header_color(theme), false),
        styled(name, Color::Unset, true),
    ]
}

/// The line of the bar: the spinner, the bar between its brackets, the
/// percentage, and the suffix where more is asked for.
pub open spec fn bar_line(
    theme: ProgressBarTheme,
    num: nat,
    den: nat,
    width: nat,
    frame: nat,
    verbose: bool,
    name: Seq<char>,
    remaining_secs: nat,
) -> Seq<SegmentModel> {
    seq![
        glyph(spinner_glyph(frame), spinner_color(theme, frame), Color::Unset, false),
        plain(" \u{2503}"@),
    ] + bar_cells(theme, num, den, width, frame) + seq![
        plain("\u{2503} "@),
        styled(percent_label(percent_tenths(num, den)), accent(theme, num, den), true),
    ] + if verbose {
        verbose_suffix(theme, name, remaining_secs)
    } else {
        Seq::<SegmentModel>::empty()
    }
}

/// The line that tells that the countdown is over, and how long it took.
pub open spec fn completion_line(
    theme: ProgressBarTheme,
    name: Seq<char>,
    elapsed_secs: nat,
) -> Seq<SegmentModel> {
    seq![
        styled(name, completion_color(theme), true),
        plain(" completed! (took "@ + simple_duration_text(elapsed_secs) + ")"@),
    ]
}

/// How long to wait between two frames: a second for a countdown of more
/// than an hour, a tenth of a second for one of more than a minute, a
/// fiftieth below that.
pub open spec fn update_interval(duration_secs: nat) -> nat {
    if duration_secs > 3600 {
        1_000_000_000
    } else if duration_secs > 60 {
        100_000_000
    } else {
        20_000_000
    }
}

/// Draws the line above the bar.
pub fn render_header(
    theme: ProgressBarTheme,
    start_label: &str,
    name: &str,
    remaining: Span,
) -> (line: Vec<Segment>)
    ensures
        line_model(line@) == header_line(
            theme,
            start_label@,
            name@,
            remaining@ / (NANOS_PER_SEC as nat),
        ),
{
    let color: Color = header_color_for(theme);
    let mut time = String::new();
    push_simple_duration(&mut time, remaining);
    assert(time@ =~= simple_duration_text(remaining@ / (NANOS_PER_SEC as nat)));
    let mut line: Vec<Segment> = Vec::new();
    assert(line_model(line@) =~= Seq::<SegmentModel>::empty());
    push_segment(&mut line, Segment::styled(start_label.to_owned(), color, false));
    push_segment(&mut line, Segment::plain(" | "));
    push_segment(&mut line, Segment::styled(name.to_owned(), color, true));
    push_segment(&mut line, Segment::plain(" | "));
    push_segment(&mut line, Segment::styled(time, color, false));
    push_segment(&mut line, Segment::plain(" remaining"));
    assert(line_model(line@) =~= header_line(
        theme,
        start_label@,
        name@,
        remaining@ / (NANOS_PER_SEC as nat),
    ));
    line
}

/// Draws the line of the bar.
pub fn render_bar(
    theme: ProgressBarTheme,
    progress: &Progress,
    width: u16,
    frame: u64,
    verbose: bool,
    name: &str,
    remaining: Span,
) -> (line: Vec<Segment>)
    ensures
        line_model(line@) == bar_line(
            theme,
            progress.num(),
            progress.den(),
            width as nat,
            frame as nat,
            verbose,
            name@,
            remaining@ / (NANOS_PER_SEC as nat),
        ),
{
    let ghost num = progress.num();
    let ghost den = progress.den();
    let ghost cells = bar_cells(theme, num, den, width as nat, frame as nat);
    let ghost head = seq![
        glyph(spinner_glyph(frame as nat), spinner_color(theme, frame as nat), Color::Unset, false),
        plain(" \u{2503}"@),
    ];
    let mut line: Vec<Segment> = Vec::new();
    assert(line_model(line@) =~= Seq::<SegmentModel>::empty());
    push_segment(
        &mut line,
        Segment::glyph(spinner_glyph_at(frame), spinner_color_for(theme, frame), Color::Unset, false),
    );
    push_segment(&mut line, Segment::plain(" \u{2503}"));
    assert(line_model(line@) =~= head + cells.take(0));
    let mut index: u16 = 0;
    while index < width
        invariant
            index <= width,
            num == progress.num(),
            den == progress.den(),
            cells == bar_cells(theme, num, den, width as nat, frame as nat),
            line_model(line@) == head + cells.take(index as int),
        decreases width - index,
    {
        let cell = color_for(theme, progress, width, index, frame);
        assert(cells.take(index + 1) =~= cells.take(index as int).push(cells[index as int]));
        push_segment(&mut line, cell);
        assert(line_model(line@) =~= head + cells.take(index + 1));
        index = index + 1;
    }
    assert(cells.take(width as int) =~= cells);
    push_segment(&mut line, Segment::plain("\u{2503} "));
    push_segment(
        &mut line,
        Segment::styled(percent_text(progress), accent_for(theme, progress), true),
    );
    let ghost tail = seq![
        plain("\u{2503} "@),
        styled(percent_label(percent_tenths(num, den)), accent(theme, num, den), true),
    ];
    assert(line_model(line@) =~= head + cells + tail);
    if verbose {
        let mut time = String::new();
        push_text(&mut time, "(");
        push_simple_duration(&mut time, remaining);
        push_text(&mut time, ")");
        assert(time@ =~= "("@ + simple_duration_text(remaining@ / (NANOS_PER_SEC as nat)) + ")"@);
        push_segment(&mut line, Segment::plain(" "));
        push_segment(&mut line, Segment::styled(time, header_color_for(theme), false));
        push_segment(&mut line, Segment::styled(name.to_owned(), Color::Unset, true));
        assert(line_model(line@) =~= head + cells + tail + verbose_suffix(
            theme,
            name@,
            remaining@ / (NANOS_PER_SEC as nat),
        ));
    } else {
        assert(line_model(line@) =~= head + cells + tail + Seq::<SegmentModel>::empty());
    }
    line
}

/// Draws the line that tells that the countdown is over.
pub fn render_completion(theme: ProgressBarTheme, name: &str, elapsed: Span) -> (line: Vec<
    Segment,
>)
    ensures
        line_model(line@) == completion_line(theme, name@, elapsed@ / (NANOS_PER_SEC as nat)),
{
    let mut took = String::new();
    push_text(&mut took, " completed! (took ");
    push_simple_duration(&mut took, elapsed);
    push_text(&mut took, ")");
    assert(took@ =~= " completed! (took "@ + simple_duration_text(
        elapsed@ / (NANOS_PER_SEC as nat),
    ) + ")"@);
    let mut line: Vec<Segment> = Vec::new();
    assert(line_model(line@) =~= Seq::<SegmentModel>::empty());
    push_segment(
        &mut line,
        Segment::styled(name.to_owned(), completion_color_for(theme), true),
    );
    push_segment(&mut line, Segment::styled(took, Color::Unset, false));
    assert(line_model(line@) =~= completion_line(
        theme,
        name@,
        elapsed@ / (NANOS_PER_SEC as nat),
    ));
    line
}

/// What one tick of the one-line display shows: the line above the bar and
/// the line of the bar.
#[derive(Debug, Clone, PartialEq, Eq)]
pub struct InlineFrame {
    pub header: Vec<Segment>,
    pub bar: Vec<Segment>,
}

/// What is owed once the countdown is over: the line to print, whether to
/// ring the bell, and the notification to send, if one was asked for.
#[derive(Debug, Clone, PartialEq, Eq)]
pub struct Completion {
    pub line: Vec<Segment>,
    pub bell: bool,
    pub notification: Option<Notification>,
}

/// The one-line display of a countdown that takes no input.
///
/// It keeps what was asked for and counts the frames; the time comes from
/// outside with every tick.
#[derive(Debug)]
pub struct InlineTimer {
    duration: Span,
    name: String,
    verbose: bool,
    theme: ProgressBarTheme,
    start_label: String,
    width: u16,
    frame: u8,
}

impl InlineTimer {
    #[verifier::type_invariant]
    pub closed spec fn wf(self) -> bool {
        self.duration@ > 0 && self.frame < FRAME_CYCLE
    }

    /// The span the countdown runs for, in nanoseconds.
    pub closed spec fn duration(self) -> nat {
        self.duration@
    }

    pub closed spec fn name(self) -> Seq<char> {
        self.name@
    }

    pub closed spec fn verbose(self) -> bool {
        self.verbose
    }

    pub closed spec fn theme(self) -> ProgressBarTheme {
        self.theme
    }

    /// The label of the time of day at which the countdown began.
    pub closed spec fn start_label(self) -> Seq<char> {
        self.start_label@
    }

    /// The number of cells of the bar.
    pub closed spec fn width(self) -> nat {
        self.width as nat
    }

    /// The number of the frame that is drawn next, within the cycle.
    pub closed spec fn frame(self) -> nat {
        self.frame as nat
    }

    /// The display for a countdown of `duration`, which draws with `theme`
    /// where the output takes colour and plainly where it does not.
    pub fn new(
        duration: Span,
        name: &str,
        verbose: bool,
        theme: ProgressBarTheme,
        use_color: bool,
        start_label: &str,
    ) -> (timer: InlineTimer)
        requires
            duration@ > 0,
        ensures
            timer.wf(),
            timer.duration() == duration@,
            timer.name() == name@,
            timer.verbose() == verbose,
            timer.theme() == if use_color { theme } else { ProgressBarTheme::Plain },
            timer.start_label() == start_label@,
            timer.width() == BAR_WIDTH,
            timer.frame() == 0,
    {
        InlineTimer {
            duration,
            name: name.to_owned(),
            verbose,
            theme: theme_for_output(theme, use_color),
            start_label: start_label.to_owned(),
            width: BAR_WIDTH,
            frame: 0,
        }
    }

    /// Changes the number of cells of the bar.
    pub fn set_width(&mut self, width: u16)
        ensures
            final(self).wf(),
            final(self).width() == width,
            final(self).duration() == old(self).duration(),
            final(self).name() == old(self).name(),
            final(self).verbose() == old(self).verbose(),
            final(self).theme() == old(self).theme(),
            final(self).start_label() == old(self).start_label(),
            final(self).frame() == old(self).frame(),
    {
        proof {
            use_type_invariant(&*self);
        }
        self.width = width;
    }

    /// How long to wait between two frames.
    pub fn update_interval(&self) -> (interval: Span)
        ensures
            interval@ == update_interval(self.duration() / (NANOS_PER_SEC as nat)),
    {
        let secs: u64 = self.duration.as_secs();
        if secs > 3600 {
            Span::from_millis(1000)
        } else if secs > 60 {
            Span::from_millis(100)
        } else {
            Span::from_millis(20)
        }
    }

    /// One tick. While the countdown runs, that is while `elapsed` is short
    /// of the duration, it draws the frame for that moment and counts it.
    /// Once the countdown is over it draws nothing and changes nothing.
    pub fn step(&mut self, elapsed: Span) -> (drawn: Option<InlineFrame>)
        ensures
            final(self).wf(),
            final(self).duration() == old(self).duration(),
            final(self).name() == old(self).name(),
            final(self).verbose() == old(self).verbose(),
            final(self).theme() == old(self).theme(),
            final(self).start_label() == old(self).start_label(),
            final(self).width() == old(self).width(),
            drawn is Some <==> elapsed@ < old(self).duration(),
            drawn is None ==> final(self).frame() == old(self).frame(),
            drawn matches Some(frame) ==> {
                &&& final(self).frame() == (old(self).frame() + 1) % (FRAME_CYCLE as nat)
                &&& line_model(frame.header@) == header_line(
                    old(self).theme(),
                    old(self).start_label(),
                    old(self).name(),
                    (old(self).duration() - elapsed@) as nat / (NANOS_PER_SEC as nat),
                )
                &&& line_model(frame.bar@) == bar_line(
                    old(self).theme(),
                    elapsed@,
                    old(self).duration(),
                    old(self).width(),
                    old(self).frame(),
                    old(self).verbose(),
                    old(self).name(),
                    (old(self).duration() - elapsed@) as nat / (NANOS_PER_SEC as nat),
                )
            },
    {
        proof {
            use_type_invariant(&*self);
        }
        if elapsed.as_nanos() >= self.duration.as_nanos() {
            return None;
        }
        let remaining: Span = self.duration.saturating_sub(elapsed);
        let progress: Progress = Progress::new(elapsed, self.duration);
        let header = render_header(
            self.theme,
            self.start_label.as_str(),
            self.name.as_str(),
            remaining,
        );
        let bar = render_bar(
            self.theme,
            &progress,
            self.width,
            self.frame as u64,
            self.verbose,
            self.name.as_str(),
            remaining,
        );
        self.frame = (self.frame + 1) % FRAME_CYCLE;
        Some(InlineFrame { header, bar })
    }

    /// What is owed once the countdown is over, after `total_elapsed`: the
    /// line that says so, the bell if it is wanted, and the notification if
    /// one is wanted.
    pub fn completion(&self, total_elapsed: Span, bell: bool, notify: bool) -> (completion:
        Completion)
        ensures
            completion.bell == bell,
            line_model(completion.line@) == completion_line(
                self.theme(),
                self.name(),
                total_elapsed@ / (NANOS_PER_SEC as nat),
            ),
            completion.notification is Some <==> notify,
            completion.notification matches Some(n) ==> {
                &&& n.title@ == self.name() + " completed!"@
                &&& n.body@ == "Duration: "@ + simple_duration_text(
                    total_elapsed@ / (NANOS_PER_SEC as nat),
                )
            },
    {
        let line = render_completion(self.theme, self.name.as_str(), total_elapsed);
        let notification = if notify {
            Some(completion_notification(self.name.as_str(), total_elapsed))
        } else {
            None
        };
        Completion { line, bell, notification }
    }
}

/// The glyph of a cell is a function of how much of the cell is covered
/// and of nothing else: two cells covered in the same ratio show the same
/// step of the ramp.
pub proof fn law_ramp_step_follows_occupancy(fill1: nat, whole1: nat, fill2: nat, whole2: nat)
    requires
        0 < whole1,
        0 < whole2,
        fill1 * whole2 == fill2 * whole1,
    ensures
        ramp_step(fill1, whole1) == ramp_step(fill2, whole2),
{
    let q1 = (fill1 * 8) as int / whole1 as int;
    let q2 = (fill2 * 8) as int / whole2 as int;
    assert(q1 * whole1 <= fill1 * 8 < (q1 + 1) * whole1) by (nonlinear_arith)
        requires
            0 < whole1,
            q1 == (fill1 * 8) as int / whole1 as int,
    {
    }
    assert(q2 * whole2 <= fill2 * 8 < (q2 + 1) * whole2) by (nonlinear_arith)
        requires
            0 < whole2,
            q2 == (fill2 * 8) as int / whole2 as int,
    {
    }
    assert(q1 == q2) by (nonlinear_arith)
        requires
            0 < whole1,
            0 < whole2,
            fill1 * whole2 == fill2 * whole1,
            q1 * whole1 <= fill1 * 8 < (q1 + 1) * whole1,
            q2 * whole2 <= fill2 * 8 < (q2 + 1) * whole2,
    {
        assert(q1 * whole1 * whole2 <= fill1 * 8 * whole2);
        assert(fill1 * 8 * whole2 < (q1 + 1) * whole1 * whole2);
        assert(q2 * whole2 * whole1 <= fill2 * 8 * whole1);
        assert(fill2 * 8 * whole1 < (q2 + 1) * whole2 * whole1);
        assert(fill1 * 8 * whole2 == fill2 * 8 * whole1);
        if q1 < q2 {
            assert((q1 + 1) * whole1 * whole2 <= q2 * whole2 * whole1);
        }
        if q2 < q1 {
            assert((q2 + 1) * whole2 * whole1 <= q1 * whole1 * whole2);
        }
    }
}

/// The ramp runs from the blank to the full block as a cell fills up. A
/// cell that is not covered at all shows the first glyph, the blank. A cell
/// that is covered in part never shows the full block, and shows the
/// glyph before it once seven eighths are covered. Only a cell that is
/// covered whole shows the full block. More cover never gives an earlier
/// glyph.
pub proof fn law_ramp_step_by_occupancy(fill: nat, more: nat, whole: nat)
    requires
        0 < whole,
        fill <= more <= whole,
    ensures
        fill == 0 ==> ramp_step(fill, whole) == 0,
        fill < whole ==> ramp_step(fill, whole) <= RAMP_LEN - 2,
        fill < whole && 8 * fill >= 7 * whole ==> ramp_step(fill, whole) == RAMP_LEN - 2,
        fill == whole ==> ramp_step(fill, whole) == RAMP_LEN - 1,
        ramp_step(fill, whole) <= ramp_step(more, whole),
{
    assert((fill == 0 ==> fill * 8 / whole == 0) && (fill < whole ==> fill * 8 / whole <= 7) && (
    fill < whole && 8 * fill >= 7 * whole ==> fill * 8 / whole == 7) && (fill == whole ==> fill * 8
        / whole == 8) && fill * 8 / whole <= more * 8 / whole) by (nonlinear_arith)
        requires
            0 < whole,
            fill <= more <= whole,
    {
    }
}

/// Where the fill ends exactly on the edge between two cells, no cell
/// shows a glyph of a part: every cell is blank or full.
pub proof fn law_exact_boundary_has_no_partial_glyph(
    num: nat,
    den: nat,
    width: nat,
    boundary: nat,
    index: nat,
)
    requires
        0 < den,
        num * width == boundary * den,
    ensures
        cell_step(num, den, width, index) == 0 || cell_step(num, den, width, index) == RAMP_LEN
            - 1,
        cell_step(num, den, width, index) == 0 <==> index >= boundary,
{
    if index >= boundary {
        assert(boundary * den <= index * den) by (nonlinear_arith)
            requires
                0 < den,
                boundary <= index,
        {
        }
        assert(cell_fill(num, den, width, index) == 0);
    } else {
        assert(boundary * den >= (index + 1) * den) by (nonlinear_arith)
            requires
                0 < den,
                boundary >= index + 1,
        {
        }
        assert(index * den < (index + 1) * den) by (nonlinear_arith)
            requires
                0 < den,
        {
        }
        assert(cell_fill(num, den, width, index) == den);
    }
    lemma_ramp_step_bounds(cell_fill(num, den, width, index), den);
}

/// The cells before the cell that the edge of the fill runs through are
/// full, and the cells after it are blank.
pub proof fn law_bar_fills_from_the_left(num: nat, den: nat, width: nat, index: nat)
    requires
        0 < den,
        num <= den,
    ensures
        index < num * width / den ==> cell_step(num, den, width, index) == RAMP_LEN - 1,
        index > num * width / den ==> cell_step(num, den, width, index) == 0,
        cell_step(num, den, width, index) <= RAMP_LEN - 1,
{
    let edge = num * width / den;
    assert(edge * den <= num * width < (edge + 1) * den) by (nonlinear_arith)
        requires
            0 < den,
            edge == num * width / den,
    {
    }
    assert(index < edge ==> (index + 1) * den <= edge * den) by (nonlinear_arith)
        requires
            0 < den,
    {
    }
    assert(index > edge ==> (edge + 1) * den <= index * den) by (nonlinear_arith)
        requires
            0 < den,
    {
    }
    assert((index + 1) * den == index * den + den) by (nonlinear_arith);
    lemma_ramp_step_bounds(cell_fill(num, den, width, index), den);
}

} // verus!
