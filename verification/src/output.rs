//! Lines of terminal output, as pieces of text with a tone each.
use vstd::prelude::*;

verus! {

/// How a piece of output is set off.
#[derive(Clone, Copy, Debug, PartialEq, Eq, Structural)]
pub enum Tone {
    Plain,
    /// Bold red.
    Failure,
    /// Green.
    Success,
    /// Bold cyan.
    Advice,
    Dimmed,
}

/// A piece of a line.
#[derive(Debug)]
pub struct Segment {
    pub tone: Tone,
    pub text: String,
}

/// What a [`Segment`] holds.
pub struct SegmentView {
    pub tone: Tone,
    pub text: Seq<char>,
}

impl View for Segment {
    type V = SegmentView;

    open spec fn view(&self) -> SegmentView {
        SegmentView { tone: self.tone, text: self.text@ }
    }
}

impl DeepView for Segment {
    type V = SegmentView;

    open spec fn deep_view(&self) -> SegmentView {
        self@
    }
}

/// The piece `text` in `tone`.
pub open spec fn piece(tone: Tone, text: Seq<char>) -> SegmentView {
    SegmentView { tone, text }
}

pub fn segment(tone: Tone, text: &str) -> (r: Segment)
    ensures
        r@ == piece(tone, text@),
{
    Segment { tone, text: text.to_owned() }
}

} // verus!
