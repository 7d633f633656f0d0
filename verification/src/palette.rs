//! Colours and the styled pieces of text that frames are made of.

use vstd::prelude::*;
use crate::text::push_text;

verus! {

/// A colour of the terminal's palette, or a point on the gradient.
#[derive(Debug, Clone, Copy, PartialEq, Eq, Structural)]
pub enum Color {
    /// Whatever the terminal uses by default.
    Unset,
    Black,
    Red,
    Green,
    Yellow,
    Blue,
    Magenta,
    Cyan,
    White,
    DarkGray,
    BrightRed,
    BrightGreen,
    BrightBlue,
    BrightCyan,
    BrightWhite,
    /// The colour `num / den` of the way along the gradient that runs from
    /// green through yellow to red.
    Gradient { num: u128, den: u128 },
}

/// What a [`Segment`] stands for: text in one style.
pub struct SegmentModel {
    pub text: Seq<char>,
    pub fg: Color,
    pub bg: Color,
    pub bold: bool,
}

/// A piece of text in one style.
#[derive(Debug, Clone, PartialEq, Eq)]
pub struct Segment {
    pub text: String,
    pub fg: Color,
    pub bg: Color,
    pub bold: bool,
}

impl View for Segment {
    type V = SegmentModel;

    open spec fn view(&self) -> SegmentModel {
        SegmentModel { text: self.text@, fg: self.fg, bg: self.bg, bold: self.bold }
    }
}

/// Text in no particular style.
pub open spec fn plain(text: Seq<char>) -> SegmentModel {
    SegmentModel { text, fg: Color::Unset, bg: Color::Unset, bold: false }
}

/// Text in a foreground colour, bold or not.
pub open spec fn styled(text: Seq<char>, fg: Color, bold: bool) -> SegmentModel {
    SegmentModel { text, fg, bg: Color::Unset, bold }
}

/// One character in a style of its own.
pub open spec fn glyph(c: char, fg: Color, bg: Color, bold: bool) -> SegmentModel {
    SegmentModel { text: seq![c], fg, bg, bold }
}

/// What a line of segments stands for.
pub open spec fn line_model(line: Seq<Segment>) -> Seq<SegmentModel> {
    line.map_values(|s: Segment| s@)
}

impl Segment {
    /// Text in no particular style.
    pub fn plain(text: &str) -> (segment: Segment)
        ensures
            segment@ == plain(text@),
    {
        Segment { text: text.to_owned(), fg: Color::Unset, bg: Color::Unset, bold: false }
    }

    /// Text in a foreground colour, bold or not.
    pub fn styled(text: String, fg: Color, bold: bool) -> (segment: Segment)
        ensures
            segment@ == styled(text@, fg, bold),
    {
        Segment { text, fg, bg: Color::Unset, bold }
    }

    /// One character in a style of its own.
    pub fn glyph(c: char, fg: Color, bg: Color, bold: bool) -> (segment: Segment)
        ensures
            segment@ == glyph(c, fg, bg, bold),
    {
        let mut text = String::new();
        text.push(c);
        assert(text@ =~= seq![c]);
        Segment { text, fg, bg, bold }
    }
}

/// Appends a segment to a line.
pub fn push_segment(line: &mut Vec<Segment>, segment: Segment)
    ensures
        line_model(final(line)@) == line_model(old(line)@).push(segment@),
{
    line.push(segment);
    assert(line_model(line@) =~= line_model(old(line)@).push(segment@));
}

/// The characters of a line, one segment after the other.
pub open spec fn line_text(line: Seq<SegmentModel>) -> Seq<char>
    decreases line.len(),
{
    if line.len() == 0 {
        Seq::empty()
    } else {
        line_text(line.drop_last()) + line.last().text
    }
}

/// The text of a line without its styles.
pub fn unstyled(line: &Vec<Segment>) -> (text: String)
    ensures
        text@ == line_text(line_model(line@)),
{
    let mut text = String::new();
    let mut i: usize = 0;
    assert(line_model(line@).take(0) =~= Seq::<SegmentModel>::empty());
    while i < line.len()
        invariant
            i <= line.len(),
            text@ == line_text(line_model(line@).take(i as int)),
        decreases line.len() - i,
    {
        assert(line_model(line@).take(i + 1).drop_last() =~= line_model(line@).take(i as int));
        push_text(&mut text, line[i].text.as_str());
        i = i + 1;
    }
    assert(line_model(line@).take(i as int) =~= line_model(line@));
    text
}

} // verus!
