//! Which matches of the POSIX-like shell's patterns are reported, and where.

use crate::capture::{find_in_slot, first_in_slot, Capture, CaptureModel, Captures};
use crate::classify::is_static_echo;
use crate::detector::GitHubEnv;
use std::ops::Range;
use vstd::prelude::*;

verus! {

/// Where one match of the redirect pattern is reported: nowhere if it is
/// `echo` with literal arguments, else at the first capture of the span slot.
pub open spec fn redirect_span(captures: Captures, cmd: u32, args: u32, span: u32) -> Option<
    Range<usize>,
> {
    if is_static_echo(captures, cmd, args) {
        None
    } else {
        match first_in_slot(captures, span) {
            Some(whole) => Some(whole.span),
            None => None,
        }
    }
}

/// Where the matches of the redirect pattern are reported, in the order of
/// the matches.
pub open spec fn redirect_spans(matches: Seq<Captures>, cmd: u32, args: u32, span: u32) -> Seq<
    Range<usize>,
> {
    matches.filter_map(|captures: Captures| redirect_span(captures, cmd, args, span))
}

/// The byte ranges of the captures of one match that a slot bound, in order.
pub open spec fn slot_spans(captures: Captures, slot: u32) -> Seq<Range<usize>> {
    captures.filter_map(
        |capture: CaptureModel|
            if capture.index == slot {
                Some(capture.span)
            } else {
                None
            },
    )
}

/// Where the matches of the pipeline pattern are reported: every match at
/// every capture of its span slot, with no exemption.
pub open spec fn pipeline_spans(matches: Seq<Captures>, span: u32) -> Seq<Range<usize>> {
    matches.map_values(|captures: Captures| slot_spans(captures, span)).flatten()
}

impl GitHubEnv {
    /// Appends to `spans` where each match of the redirect pattern is
    /// reported.
    pub fn collect_redirect_spans(
        matches: &Vec<Vec<Capture>>,
        cmd: u32,
        args: u32,
        span: u32,
        spans: &mut Vec<Range<usize>>,
    )
        ensures
            final(spans)@ == old(spans)@ + redirect_spans(matches.deep_view(), cmd, args, span),
    {
        let ghost all = matches.deep_view();
        let ghost start = spans@;
        let mut i: usize = 0;
        assert(redirect_spans(all.take(0), cmd, args, span) =~= Seq::empty());
        while i < matches.len()
            invariant
                i <= matches.len(),
                all == matches.deep_view(),
                spans@ == start + redirect_spans(all.take(i as int), cmd, args, span),
            decreases matches.len() - i,
        {
            let captures = &matches[i];
            proof {
                all.lemma_filter_map_take_succ(
                    |captures: Captures| redirect_span(captures, cmd, args, span),
                    i as int,
                );
                assert(all[i as int] == captures.deep_view());
            }
            if !Self::bash_redirect_is_static_echo(captures, cmd, args) {
                match find_in_slot(captures, span) {
                    Some(whole) => {
                        spans.push(whole.span.start..whole.span.end);
                    },
                    None => {},
                }
            }
            i += 1;
        }
        assert(all.take(i as int) =~= all);
    }

    /// Appends to `spans` the byte ranges of the captures of one match that
    /// a slot bound.
    pub fn collect_slot_spans(captures: &Vec<Capture>, slot: u32, spans: &mut Vec<Range<usize>>)
        ensures
            final(spans)@ == old(spans)@ + slot_spans(captures.deep_view(), slot),
    {
        let ghost all = captures.deep_view();
        let ghost start = spans@;
        let mut i: usize = 0;
        assert(slot_spans(all.take(0), slot) =~= Seq::empty());
        while i < captures.len()
            invariant
                i <= captures.len(),
                all == captures.deep_view(),
                spans@ == start + slot_spans(all.take(i as int), slot),
            decreases captures.len() - i,
        {
            let capture = &captures[i];
            proof {
                all.lemma_filter_map_take_succ(
                    |capture: CaptureModel|
                        if capture.index == slot {
                            Some(capture.span)
                        } else {
                            None
                        },
                    i as int,
                );
                assert(all[i as int] == capture@);
            }
            if capture.index == slot {
                spans.push(capture.span.start..capture.span.end);
            }
            i += 1;
        }
        assert(all.take(i as int) =~= all);
    }

    /// Appends to `spans` where each match of the pipeline pattern is
    /// reported.
    pub fn collect_pipeline_spans(
        matches: &Vec<Vec<Capture>>,
        span: u32,
        spans: &mut Vec<Range<usize>>,
    )
        ensures
            final(spans)@ == old(spans)@ + pipeline_spans(matches.deep_view(), span),
    {
        let ghost all = matches.deep_view();
        let ghost start = spans@;
        let mut i: usize = 0;
        assert(all.take(0).map_values(|captures: Captures| slot_spans(captures, span))
            =~= Seq::empty());
        while i < matches.len()
            invariant
                i <= matches.len(),
                all == matches.deep_view(),
                spans@ == start + pipeline_spans(all.take(i as int), span),
            decreases matches.len() - i,
        {
            proof {
                let each = |captures: Captures| slot_spans(captures, span);
                let done = all.take(i as int);
                assert(all.take(i as int + 1) =~= done.push(all[i as int]));
                done.lemma_push_map_commute(each, all[i as int]);
                done.map_values(each).lemma_flatten_push(each(all[i as int]));
                assert(all[i as int] == matches[i as int].deep_view());
            }
            Self::collect_slot_spans(&matches[i], span, spans);
            i += 1;
        }
        assert(all.take(i as int) =~= all);
    }
}

/// What `filter_map` keeps of an element that its function maps to a value.
proof fn lemma_filter_map_keeps<A, B>(items: Seq<A>, f: spec_fn(A) -> Option<B>, i: int)
    requires
        0 <= i < items.len(),
        f(items[i]) is Some,
    ensures
        items.filter_map(f).contains(f(items[i])->Some_0),
    decreases items.len(),
{
    let kept = f(items[i])->Some_0;
    let rest = items.drop_last();
    if i == items.len() - 1 {
        let found = rest.filter_map(f) + seq![kept];
        assert(items.filter_map(f) == found);
        assert(found[found.len() - 1] == kept);
    } else {
        lemma_filter_map_keeps(rest, f, i);
        let before = rest.filter_map(f);
        let at = choose|at: int| 0 <= at < before.len() && before[at] == kept;
        assert(items.filter_map(f)[at] == kept);
    }
}

/// `filter_map` keeps nothing where its function maps every element to
/// `None`.
proof fn lemma_filter_map_drops<A, B>(items: Seq<A>, f: spec_fn(A) -> Option<B>)
    requires
        forall|i: int| 0 <= i < items.len() ==> f(#[trigger] items[i]) is None,
    ensures
        items.filter_map(f) =~= Seq::<B>::empty(),
    decreases items.len(),
{
    if items.len() > 0 {
        let rest = items.drop_last();
        assert(forall|i: int| 0 <= i < rest.len() ==> rest[i] == items[i]);
        lemma_filter_map_drops(rest, f);
    }
}

/// `flatten` keeps every element of every part.
proof fn lemma_flatten_keeps<A>(parts: Seq<Seq<A>>, i: int, j: int)
    requires
        0 <= i < parts.len(),
        0 <= j < parts[i].len(),
    ensures
        parts.flatten().contains(parts[i][j]),
    decreases parts.len(),
{
    let rest = parts.drop_first().flatten();
    let whole = parts.first() + rest;
    assert(parts.flatten() == whole);
    if i == 0 {
        assert(whole[j] == parts[i][j]);
    } else {
        lemma_flatten_keeps(parts.drop_first(), i - 1, j);
        let at = choose|at: int| 0 <= at < rest.len() && rest[at] == parts[i][j];
        assert(whole[parts.first().len() + at] == parts[i][j]);
    }
}

/// Where every match of the redirect pattern is `echo` with literal
/// arguments, none of them is reported.
pub proof fn lemma_exempt_matches_leave_no_span(
    matches: Seq<Captures>,
    cmd: u32,
    args: u32,
    span: u32,
)
    requires
        forall|i: int| 0 <= i < matches.len() ==> is_static_echo(#[trigger] matches[i], cmd, args),
    ensures
        redirect_spans(matches, cmd, args, span) =~= Seq::<Range<usize>>::empty(),
{
    lemma_filter_map_drops(
        matches,
        |captures: Captures| redirect_span(captures, cmd, args, span),
    );
}

/// A match of the redirect pattern that is not `echo` with literal arguments
/// is reported, at the node that its span slot bound.
pub proof fn lemma_other_match_is_reported(
    matches: Seq<Captures>,
    cmd: u32,
    args: u32,
    span: u32,
    i: int,
)
    requires
        0 <= i < matches.len(),
        !is_static_echo(matches[i], cmd, args),
        first_in_slot(matches[i], span) is Some,
    ensures
        redirect_spans(matches, cmd, args, span).contains(
            first_in_slot(matches[i], span)->Some_0.span,
        ),
{
    lemma_filter_map_keeps(
        matches,
        |captures: Captures| redirect_span(captures, cmd, args, span),
        i,
    );
}

/// Every match of the pipeline pattern is reported, at each node that its
/// span slot bound: for this pattern nothing is exempt.
pub proof fn lemma_pipeline_match_is_reported(matches: Seq<Captures>, span: u32, i: int, j: int)
    requires
        0 <= i < matches.len(),
        0 <= j < matches[i].len(),
        matches[i][j].index == span,
    ensures
        pipeline_spans(matches, span).contains(matches[i][j].span),
{
    let pick = |capture: CaptureModel|
        if capture.index == span {
            Some(capture.span)
        } else {
            None
        };
    lemma_filter_map_keeps(matches[i], pick, j);
    let parts = matches.map_values(|captures: Captures| slot_spans(captures, span));
    let part = slot_spans(matches[i], span);
    assert(parts[i] == part);
    let at = choose|at: int| 0 <= at < part.len() && part[at] == matches[i][j].span;
    lemma_flatten_keeps(parts, i, at);
}

} // verus!
