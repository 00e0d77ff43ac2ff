//! The change-event translator: for each document change that carries a
//! range, one derived cursor-position event at that range's start, in
//! the order of the input; changes without a range contribute nothing.

use vstd::prelude::*;
use crate::types::{ContentChange, ContentChangeView, CursorPositionEvent, CursorPositionEventView};

verus! {

/// Whether a change carries positional data.
pub open spec fn spec_has_range(c: ContentChangeView) -> bool {
    c.range is Some
}

/// The event derived from one change that carries a range.
pub open spec fn spec_event_of(uri: Seq<char>, c: ContentChangeView) -> CursorPositionEventView
    recommends
        spec_has_range(c),
{
    CursorPositionEventView { uri, position: c.range->0.start }
}

/// The translator's output: one event per change with a present range,
/// at that range's start, in input order.
pub open spec fn spec_translate(
    uri: Seq<char>,
    changes: Seq<ContentChangeView>,
) -> Seq<CursorPositionEventView>
    decreases changes.len(),
{
    if changes.len() == 0 {
        Seq::empty()
    } else {
        let rest = spec_translate(uri, changes.drop_last());
        if spec_has_range(changes.last()) {
            rest.push(spec_event_of(uri, changes.last()))
        } else {
            rest
        }
    }
}

/// Translates a batch of document changes into cursor-position events.
pub fn translate(uri: &str, changes: &Vec<ContentChange>) -> (out: Vec<CursorPositionEvent>)
    ensures
        out.deep_view() == spec_translate(uri@, changes.deep_view()),
{
    let mut out: Vec<CursorPositionEvent> = Vec::new();
    let mut i: usize = 0;
    proof {
        assert(out.deep_view() =~= spec_translate(uri@, changes.deep_view().take(0)));
    }
    while i < changes.len()
        invariant
            i <= changes.len(),
            out.deep_view() == spec_translate(uri@, changes.deep_view().take(i as int)),
        decreases changes.len() - i,
    {
        match &changes[i].range {
            Some(r) => {
                let event = CursorPositionEvent { uri: uri.to_owned(), position: r.start };
                out.push(event);
            },
            None => {},
        }
        proof {
            assert(changes.deep_view().take(i + 1).drop_last() =~= changes.deep_view().take(
                i as int,
            ));
            assert(changes.deep_view().take(i + 1).last() == changes[i as int].deep_view());
            assert(out.deep_view() =~= spec_translate(uri@, changes.deep_view().take(i + 1)));
        }
        i = i + 1;
    }
    proof {
        assert(changes.deep_view().take(changes.len() as int) =~= changes.deep_view());
    }
    out
}

/// The translator keeps exactly the changes that carry a range, in their
/// relative order: its output is the input filtered to those changes and
/// mapped to an event at each range's start. In particular the output's
/// length is the count of changes with a present range, and the `i`-th
/// output's position is the start of the `i`-th surviving change's range.
pub proof fn lemma_translate_shape(uri: Seq<char>, changes: Seq<ContentChangeView>)
    ensures
        spec_translate(uri, changes) == changes.filter(|c: ContentChangeView| spec_has_range(c))
            .map_values(|c: ContentChangeView| spec_event_of(uri, c)),
        spec_translate(uri, changes).len() == changes.filter(
            |c: ContentChangeView| spec_has_range(c),
        ).len(),
        forall|j: int|
            0 <= j < spec_translate(uri, changes).len() ==> spec_translate(uri, changes)[j]
                == spec_event_of(
                uri,
                changes.filter(|c: ContentChangeView| spec_has_range(c))[j],
            ),
    decreases changes.len(),
{
    let pred = |c: ContentChangeView| spec_has_range(c);
    let f = |c: ContentChangeView| spec_event_of(uri, c);
    if changes.len() == 0 {
        assert(spec_translate(uri, changes) =~= changes.filter(pred).map_values(f));
    } else {
        lemma_translate_shape(uri, changes.drop_last());
        reveal_with_fuel(Seq::filter, 2);
        assert(spec_translate(uri, changes) =~= changes.filter(pred).map_values(f));
    }
}

/// Translation is a pure function of its input: two translations of the
/// same URI and the same change sequence are identical, call for call.
pub proof fn lemma_translate_deterministic(
    uri: Seq<char>,
    changes: Seq<ContentChangeView>,
    first: Seq<CursorPositionEventView>,
    second: Seq<CursorPositionEventView>,
)
    requires
        first == spec_translate(uri, changes),
        second == spec_translate(uri, changes),
    ensures
        first == second,
{
}

/// A change without a range never produces an event: appending it to a
/// batch leaves the translation unchanged, and a batch of only such
/// changes translates to nothing.
pub proof fn lemma_absent_range_no_event(
    uri: Seq<char>,
    changes: Seq<ContentChangeView>,
    change: ContentChangeView,
)
    requires
        change.range is None,
    ensures
        spec_translate(uri, changes.push(change)) == spec_translate(uri, changes),
        (forall|j: int| 0 <= j < changes.len() ==> changes[j].range is None) ==> spec_translate(
            uri,
            changes,
        ).len() == 0,
    decreases changes.len(),
{
    assert(changes.push(change).drop_last() =~= changes);
    if changes.len() > 0 && (forall|j: int| 0 <= j < changes.len() ==> changes[j].range is None) {
        lemma_absent_range_no_event(uri, changes.drop_last(), changes.last());
        assert(changes.drop_last().push(changes.last()) =~= changes);
    }
}

} // verus!
