//! The notification dispatcher's plan: for one batch of document
//! changes, the exact ordered sequence of outbound messages — one log
//! message per change, each immediately followed by the derived
//! cursor-position event when the change carries a range.

use vstd::prelude::*;
use crate::text::{change_log_text, spec_change_log_text};
use crate::translate::{spec_event_of, spec_has_range, spec_translate};
use crate::types::{
    ContentChange, ContentChangeView, CursorPositionEvent, CursorPositionEventView, LogMessage,
    LogMessageView, OutboundMessage, OutboundMessageView, Severity,
};

verus! {

/// The messages contributed by one change: its log line, then its
/// derived event if its range is present.
pub open spec fn spec_change_messages(
    uri: Seq<char>,
    c: ContentChangeView,
) -> Seq<OutboundMessageView> {
    let log = OutboundMessageView::Log(
        LogMessageView { severity: Severity::Info, text: spec_change_log_text(uri, c.range) },
    );
    if spec_has_range(c) {
        seq![log, OutboundMessageView::CursorPosition(spec_event_of(uri, c))]
    } else {
        seq![log]
    }
}

/// The whole batch's outbound plan, change by change, in input order.
pub open spec fn spec_dispatch(
    uri: Seq<char>,
    changes: Seq<ContentChangeView>,
) -> Seq<OutboundMessageView>
    decreases changes.len(),
{
    if changes.len() == 0 {
        Seq::empty()
    } else {
        spec_dispatch(uri, changes.drop_last()) + spec_change_messages(uri, changes.last())
    }
}

/// The cursor-position events among a message sequence, in order.
pub open spec fn spec_cursor_events(
    msgs: Seq<OutboundMessageView>,
) -> Seq<CursorPositionEventView>
    decreases msgs.len(),
{
    if msgs.len() == 0 {
        Seq::empty()
    } else {
        let rest = spec_cursor_events(msgs.drop_last());
        match msgs.last() {
            OutboundMessageView::CursorPosition(e) => rest.push(e),
            OutboundMessageView::Log(_) => rest,
        }
    }
}

/// How many log messages a message sequence holds.
pub open spec fn spec_log_count(msgs: Seq<OutboundMessageView>) -> nat
    decreases msgs.len(),
{
    if msgs.len() == 0 {
        0
    } else {
        spec_log_count(msgs.drop_last()) + (if msgs.last() is Log {
            1nat
        } else {
            0nat
        })
    }
}

proof fn lemma_cursor_events_add(a: Seq<OutboundMessageView>, b: Seq<OutboundMessageView>)
    ensures
        spec_cursor_events(a + b) == spec_cursor_events(a) + spec_cursor_events(b),
        spec_log_count(a + b) == spec_log_count(a) + spec_log_count(b),
    decreases b.len(),
{
    if b.len() == 0 {
        assert(a + b =~= a);
        assert(spec_cursor_events(a) + spec_cursor_events(b) =~= spec_cursor_events(a));
    } else {
        lemma_cursor_events_add(a, b.drop_last());
        assert((a + b).drop_last() =~= a + b.drop_last());
        assert((a + b).last() == b.last());
        match b.last() {
            OutboundMessageView::CursorPosition(e) => {
                assert(spec_cursor_events(a) + spec_cursor_events(b) =~= (spec_cursor_events(a)
                    + spec_cursor_events(b.drop_last())).push(e));
            },
            OutboundMessageView::Log(_) => {},
        }
    }
}

/// The dispatcher preserves the translator's work and order: the
/// cursor-position events in the outbound plan are exactly the
/// translator's output, in the same relative order, and the plan holds
/// exactly one log message per processed change.
pub proof fn lemma_dispatch_order(uri: Seq<char>, changes: Seq<ContentChangeView>)
    ensures
        spec_cursor_events(spec_dispatch(uri, changes)) == spec_translate(uri, changes),
        spec_log_count(spec_dispatch(uri, changes)) == changes.len(),
    decreases changes.len(),
{
    if changes.len() > 0 {
        lemma_dispatch_order(uri, changes.drop_last());
        lemma_cursor_events_add(
            spec_dispatch(uri, changes.drop_last()),
            spec_change_messages(uri, changes.last()),
        );
        let tail = spec_change_messages(uri, changes.last());
        reveal_with_fuel(spec_cursor_events, 3);
        reveal_with_fuel(spec_log_count, 3);
        if spec_has_range(changes.last()) {
            assert(tail.drop_last() =~= seq![tail[0]]);
            assert(seq![tail[0]].drop_last() =~= Seq::<OutboundMessageView>::empty());
            assert(spec_cursor_events(tail) =~= seq![spec_event_of(uri, changes.last())]);
            assert(spec_cursor_events(spec_dispatch(uri, changes)) =~= spec_translate(
                uri,
                changes,
            ));
        } else {
            assert(tail.drop_last() =~= Seq::<OutboundMessageView>::empty());
            assert(spec_cursor_events(tail) =~= Seq::<CursorPositionEventView>::empty());
            assert(spec_cursor_events(spec_dispatch(uri, changes)) =~= spec_translate(
                uri,
                changes,
            ));
        }
    }
}

/// Builds the outbound plan for one `textDocument/didChange` batch.
pub fn dispatch_messages(uri: &str, changes: &Vec<ContentChange>) -> (out: Vec<OutboundMessage>)
    ensures
        out.deep_view() == spec_dispatch(uri@, changes.deep_view()),
{
    let mut out: Vec<OutboundMessage> = Vec::new();
    let mut i: usize = 0;
    proof {
        assert(out.deep_view() =~= spec_dispatch(uri@, changes.deep_view().take(0)));
    }
    while i < changes.len()
        invariant
            i <= changes.len(),
            out.deep_view() == spec_dispatch(uri@, changes.deep_view().take(i as int)),
        decreases changes.len() - i,
    {
        let text = change_log_text(uri, &changes[i].range);
        out.push(OutboundMessage::Log(LogMessage { severity: Severity::Info, text }));
        match &changes[i].range {
            Some(r) => {
                let event = CursorPositionEvent { uri: uri.to_owned(), position: r.start };
                out.push(OutboundMessage::CursorPosition(event));
            },
            None => {},
        }
        proof {
            assert(changes.deep_view().take(i + 1).drop_last() =~= changes.deep_view().take(
                i as int,
            ));
            assert(changes.deep_view().take(i + 1).last() == changes[i as int].deep_view());
            assert(out.deep_view() =~= spec_dispatch(uri@, changes.deep_view().take(i + 1)));
        }
        i = i + 1;
    }
    proof {
        assert(changes.deep_view().take(changes.len() as int) =~= changes.deep_view());
    }
    out
}

} // verus!
