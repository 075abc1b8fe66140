//! What a structural pattern binds when it matches: syntax nodes, held as
//! plain values.

use std::ops::Range;
use vstd::prelude::*;

verus! {

/// One syntax node bound by a capture slot of a structural pattern.
///
/// A capture keeps what the detectors read of the node and nothing of the
/// tree that it came from.
#[derive(Debug, PartialEq, Eq)]
pub struct Capture {
    /// The slot of the pattern that bound the node.
    pub index: u32,
    /// The node's kind, as its grammar names it.
    pub kind: String,
    /// The source text that the node covers; `None` where the node's bytes
    /// are not UTF-8.
    pub text: Option<String>,
    /// The bytes of the script that the node covers.
    pub span: Range<usize>,
    /// How many named children the node has.
    pub named_child_count: usize,
    /// The kind of the node's first named child, if it has one.
    pub first_named_child: Option<String>,
}

/// The mathematical value of a [`Capture`].
pub struct CaptureModel {
    pub index: u32,
    pub kind: Seq<char>,
    pub text: Option<Seq<char>>,
    pub span: Range<usize>,
    pub named_child_count: usize,
    pub first_named_child: Option<Seq<char>>,
}

impl View for Capture {
    type V = CaptureModel;

    open spec fn view(&self) -> CaptureModel {
        CaptureModel {
            index: self.index,
            kind: self.kind@,
            text: match self.text {
                Some(text) => Some(text@),
                None => None,
            },
            span: self.span,
            named_child_count: self.named_child_count,
            first_named_child: match self.first_named_child {
                Some(kind) => Some(kind@),
                None => None,
            },
        }
    }
}

impl DeepView for Capture {
    type V = CaptureModel;

    open spec fn deep_view(&self) -> CaptureModel {
        self@
    }
}

/// The captures of one match of a pattern, in the order in which the pattern
/// bound them.
pub type Captures = Seq<CaptureModel>;

/// The first capture of a match that a given slot bound.
pub open spec fn first_in_slot(captures: Captures, slot: u32) -> Option<CaptureModel>
    decreases captures.len(),
{
    if captures.len() == 0 {
        None
    } else if captures.first().index == slot {
        Some(captures.first())
    } else {
        first_in_slot(captures.drop_first(), slot)
    }
}

/// The first capture of a match that a slot bound, and `None` if it bound
/// nothing.
pub fn find_in_slot(captures: &Vec<Capture>, slot: u32) -> (found: Option<&Capture>)
    ensures
        match found {
            Some(capture) => first_in_slot(captures.deep_view(), slot) == Some(capture@),
            None => first_in_slot(captures.deep_view(), slot) is None,
        },
{
    let ghost all = captures.deep_view();
    let mut i: usize = 0;
    assert(all.skip(0) =~= all);
    while i < captures.len()
        invariant
            i <= captures.len(),
            all == captures.deep_view(),
            first_in_slot(all, slot) == first_in_slot(all.skip(i as int), slot),
        decreases captures.len() - i,
    {
        assert(all.skip(i as int).first() == captures[i as int]@);
        assert(all.skip(i as int).drop_first() =~= all.skip(i as int + 1));
        if captures[i].index == slot {
            return Some(&captures[i]);
        }
        i += 1;
    }
    assert(all.skip(i as int).len() == 0);
    None
}

} // verus!
