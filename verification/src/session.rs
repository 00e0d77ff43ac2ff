//! The connection lifecycle state machine and capability negotiation:
//! one session per connection, moving from `Uninitialized` through
//! `Initialized` to `ShuttingDown`, accepting each protocol message only
//! in the states where it is valid and answering out-of-order messages
//! with a log instead of a crash.

use vstd::prelude::*;
use crate::dispatch::{spec_cursor_events, spec_dispatch, spec_log_count, dispatch_messages};
use crate::translate::spec_translate;
use crate::types::{
    ContentChange, ContentChangeView, InitializeResult, LogMessage, LogMessageView,
    OutboundMessage, OutboundMessageView, ServerCapabilities, Severity, TextDocumentSyncKind,
};

verus! {

/// Lifecycle of one client connection; each state is entered at most
/// once and `ShuttingDown` is terminal.
#[derive(Clone, Copy, Debug, PartialEq, Eq, Structural)]
pub enum SessionState {
    Uninitialized,
    Initialized,
    ShuttingDown,
}

/// The client's initialization parameters. This core treats them as
/// opaque: nothing here reads them.
#[derive(Clone, Debug, PartialEq, Eq)]
pub struct InitializeParams {
    pub process_id: Option<u32>,
    pub root_uri: Option<String>,
}

/// Mathematical view of `InitializeParams`.
pub struct InitializeParamsView {
    pub process_id: Option<u32>,
    pub root_uri: Option<Seq<char>>,
}

impl DeepView for InitializeParams {
    type V = InitializeParamsView;

    open spec fn deep_view(&self) -> InitializeParamsView {
        InitializeParamsView { process_id: self.process_id, root_uri: self.root_uri.deep_view() }
    }
}

/// The capabilities this server always advertises: full-document
/// synchronization, since the translator needs only the ranges the
/// client reports and no document buffer is kept.
pub open spec fn spec_negotiate() -> ServerCapabilities {
    ServerCapabilities { text_document_sync: TextDocumentSyncKind::Full }
}

/// Produces the server's capability advertisement. The request's
/// content is ignored, so the advertisement is the same on every call.
pub fn negotiate(params: &InitializeParams) -> (r: ServerCapabilities)
    ensures
        r == spec_negotiate(),
{
    ServerCapabilities { text_document_sync: TextDocumentSyncKind::Full }
}

/// Every capability set the negotiator returns declares full-document
/// synchronization, regardless of the request it answered, and any two
/// of its answers are identical.
pub proof fn lemma_negotiate_full(first: ServerCapabilities, second: ServerCapabilities)
    requires
        first == spec_negotiate(),
        second == spec_negotiate(),
    ensures
        first.text_document_sync is Full,
        first == second,
{
}

/// State after the `initialized` notification: it completes the
/// handshake from `Uninitialized` and is ignored elsewhere.
pub open spec fn spec_initialized_state(s: SessionState) -> SessionState {
    if s is Uninitialized {
        SessionState::Initialized
    } else {
        s
    }
}

/// Log emitted for the `initialized` notification: the greeting when it
/// completes the handshake, a protocol-violation note otherwise.
pub open spec fn spec_initialized_log(s: SessionState) -> LogMessageView {
    if s is Uninitialized {
        LogMessageView { severity: Severity::Info, text: "server initialized!"@ }
    } else {
        LogMessageView {
            severity: Severity::Warning,
            text: "protocol violation: initialized received out of order"@,
        }
    }
}

/// State after a `shutdown` request: it marks an initialized session as
/// ready for termination and is ignored elsewhere.
pub open spec fn spec_shutdown_state(s: SessionState) -> SessionState {
    if s is Initialized {
        SessionState::ShuttingDown
    } else {
        s
    }
}

/// Logs emitted for a `shutdown` request: none when it is in order, one
/// protocol-violation note otherwise.
pub open spec fn spec_shutdown_messages(s: SessionState) -> Seq<OutboundMessageView> {
    if s is Initialized {
        Seq::empty()
    } else {
        seq![
            OutboundMessageView::Log(
                LogMessageView {
                    severity: Severity::Warning,
                    text: "protocol violation: shutdown received out of order"@,
                },
            ),
        ]
    }
}

/// Outbound messages for a `textDocument/didChange` notification: the
/// full dispatch plan while initialized, a single protocol-violation
/// log in any other state.
pub open spec fn spec_did_change_messages(
    s: SessionState,
    uri: Seq<char>,
    changes: Seq<ContentChangeView>,
) -> Seq<OutboundMessageView> {
    if s is Initialized {
        spec_dispatch(uri, changes)
    } else {
        seq![
            OutboundMessageView::Log(
                LogMessageView {
                    severity: Severity::Warning,
                    text: "protocol violation: didChange received out of order"@,
                },
            ),
        ]
    }
}

/// A `didChange` received while the session is not initialized produces
/// no cursor-position event at all — only a single log message; while
/// initialized, its cursor-position events are exactly the translator's
/// output for the batch.
pub proof fn lemma_did_change_guarded(
    s: SessionState,
    uri: Seq<char>,
    changes: Seq<ContentChangeView>,
)
    ensures
        !(s is Initialized) ==> {
            &&& spec_cursor_events(spec_did_change_messages(s, uri, changes)).len() == 0
            &&& spec_log_count(spec_did_change_messages(s, uri, changes)) == 1
        },
        s is Initialized ==> spec_cursor_events(spec_did_change_messages(s, uri, changes))
            == spec_translate(uri, changes),
{
    if s is Initialized {
        crate::dispatch::lemma_dispatch_order(uri, changes);
    } else {
        let msgs = spec_did_change_messages(s, uri, changes);
        reveal_with_fuel(spec_cursor_events, 2);
        reveal_with_fuel(spec_log_count, 2);
        assert(msgs.drop_last() =~= Seq::<OutboundMessageView>::empty());
    }
}

/// One client connection's protocol state. The outbound channel itself
/// lives with the transport; the session only decides what to send.
#[derive(Clone, Copy, Debug, PartialEq, Eq, Structural)]
pub struct Session {
    pub state: SessionState,
}

impl Session {
    /// A fresh session for a newly accepted connection.
    pub fn new() -> (s: Session)
        ensures
            s.state is Uninitialized,
    {
        Session { state: SessionState::Uninitialized }
    }

    /// Answers an `initialize` request. It always succeeds, leaves the
    /// lifecycle state unchanged, and returns the fixed capability set.
    pub fn initialize(&mut self, params: &InitializeParams) -> (r: InitializeResult)
        ensures
            *final(self) == *old(self),
            r.capabilities == spec_negotiate(),
    {
        InitializeResult { capabilities: negotiate(params) }
    }

    /// Handles the `initialized` notification: completes the handshake
    /// from `Uninitialized`, logs the greeting; anywhere else the
    /// notification is a protocol violation, logged and ignored.
    pub fn initialized(&mut self) -> (out: Vec<OutboundMessage>)
        ensures
            final(self).state == spec_initialized_state(old(self).state),
            out.deep_view() =~= seq![
                OutboundMessageView::Log(spec_initialized_log(old(self).state)),
            ],
    {
        let log = match self.state {
            SessionState::Uninitialized => {
                self.state = SessionState::Initialized;
                LogMessage { severity: Severity::Info, text: String::from_str(
                    "server initialized!",
                ) }
            },
            _ => LogMessage { severity: Severity::Warning, text: String::from_str(
                "protocol violation: initialized received out of order",
            ) },
        };
        let mut out: Vec<OutboundMessage> = Vec::new();
        out.push(OutboundMessage::Log(log));
        out
    }

    /// Handles a `shutdown` request: it succeeds, and in an initialized
    /// session it marks the state ready for termination (the transport
    /// is closed by an external exit signal, never here); anywhere else
    /// it is a protocol violation, logged and ignored.
    pub fn shutdown(&mut self) -> (out: Vec<OutboundMessage>)
        ensures
            final(self).state == spec_shutdown_state(old(self).state),
            out.deep_view() =~= spec_shutdown_messages(old(self).state),
    {
        let mut out: Vec<OutboundMessage> = Vec::new();
        match self.state {
            SessionState::Initialized => {
                self.state = SessionState::ShuttingDown;
            },
            _ => {
                out.push(
                    OutboundMessage::Log(
                        LogMessage { severity: Severity::Warning, text: String::from_str(
                            "protocol violation: shutdown received out of order",
                        ) },
                    ),
                );
            },
        }
        out
    }

    /// Handles a `textDocument/didChange` notification: while
    /// initialized, returns the batch's full outbound plan (one log per
    /// change, each followed by the derived cursor-position event when
    /// the change carries a range); in any other state the notification
    /// is a protocol violation, logged and ignored, and the state never
    /// changes either way.
    pub fn did_change(&mut self, uri: &str, changes: &Vec<ContentChange>) -> (out: Vec<
        OutboundMessage,
    >)
        ensures
            *final(self) == *old(self),
            out.deep_view() =~= spec_did_change_messages(
                old(self).state,
                uri@,
                changes.deep_view(),
            ),
    {
        match self.state {
            SessionState::Initialized => dispatch_messages(uri, changes),
            _ => {
                let mut out: Vec<OutboundMessage> = Vec::new();
                out.push(
                    OutboundMessage::Log(
                        LogMessage { severity: Severity::Warning, text: String::from_str(
                            "protocol violation: didChange received out of order",
                        ) },
                    ),
                );
                out
            },
        }
    }
}

} // verus!
