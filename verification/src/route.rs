//! A single dispatch point over the finite set of supported protocol
//! methods: one tagged union of inbound messages, one function mapping
//! each to its handler, returning the reply (for requests) and the
//! ordered outbound messages in one step.

use vstd::prelude::*;
use crate::session::{
    InitializeParams, InitializeParamsView, Session, SessionState, spec_did_change_messages,
    spec_initialized_log, spec_initialized_state, spec_negotiate, spec_shutdown_messages,
    spec_shutdown_state,
};
use crate::types::{
    ContentChange, ContentChangeView, InitializeResult, OutboundMessage, OutboundMessageView,
};

verus! {

/// One inbound protocol message, by method.
#[derive(Clone, Debug, PartialEq, Eq)]
pub enum InboundMessage {
    Initialize(InitializeParams),
    Initialized,
    Shutdown,
    DidChange { uri: String, changes: Vec<ContentChange> },
}

/// Mathematical view of an `InboundMessage`.
pub enum InboundMessageView {
    Initialize(InitializeParamsView),
    Initialized,
    Shutdown,
    DidChange { uri: Seq<char>, changes: Seq<ContentChangeView> },
}

impl DeepView for InboundMessage {
    type V = InboundMessageView;

    open spec fn deep_view(&self) -> InboundMessageView {
        match self {
            InboundMessage::Initialize(p) => InboundMessageView::Initialize(p.deep_view()),
            InboundMessage::Initialized => InboundMessageView::Initialized,
            InboundMessage::Shutdown => InboundMessageView::Shutdown,
            InboundMessage::DidChange { uri, changes } => InboundMessageView::DidChange {
                uri: uri@,
                changes: changes.deep_view(),
            },
        }
    }
}

/// The reply owed for a request; notifications owe none.
#[derive(Clone, Copy, Debug, PartialEq, Eq, Structural)]
pub enum Reply {
    Initialize(InitializeResult),
    Shutdown,
}

/// The result of handling one inbound message: the reply, if the
/// message was a request, and the outbound notifications to send, in
/// order.
#[derive(Clone, Debug, PartialEq, Eq)]
pub struct Step {
    pub reply: Option<Reply>,
    pub outbound: Vec<OutboundMessage>,
}

/// The session state after one message.
pub open spec fn spec_next_state(s: SessionState, m: InboundMessageView) -> SessionState {
    match m {
        InboundMessageView::Initialize(_) => s,
        InboundMessageView::Initialized => spec_initialized_state(s),
        InboundMessageView::Shutdown => spec_shutdown_state(s),
        InboundMessageView::DidChange { .. } => s,
    }
}

/// The reply owed for one message: the fixed capability set for
/// `initialize`, success for `shutdown`, nothing for notifications.
pub open spec fn spec_reply(s: SessionState, m: InboundMessageView) -> Option<Reply> {
    match m {
        InboundMessageView::Initialize(_) => Some(
            Reply::Initialize(InitializeResult { capabilities: spec_negotiate() }),
        ),
        InboundMessageView::Initialized => None,
        InboundMessageView::Shutdown => Some(Reply::Shutdown),
        InboundMessageView::DidChange { .. } => None,
    }
}

/// The outbound notifications one message causes, in send order.
pub open spec fn spec_outbound(s: SessionState, m: InboundMessageView) -> Seq<
    OutboundMessageView,
> {
    match m {
        InboundMessageView::Initialize(_) => Seq::empty(),
        InboundMessageView::Initialized => seq![
            OutboundMessageView::Log(spec_initialized_log(s)),
        ],
        InboundMessageView::Shutdown => spec_shutdown_messages(s),
        InboundMessageView::DidChange { uri, changes } => spec_did_change_messages(
            s,
            uri,
            changes,
        ),
    }
}

/// How far along its lifecycle a session is.
pub open spec fn spec_state_rank(s: SessionState) -> nat {
    match s {
        SessionState::Uninitialized => 0,
        SessionState::Initialized => 1,
        SessionState::ShuttingDown => 2,
    }
}

/// The lifecycle only moves forward: no message ever returns a session
/// to an earlier state, and a session that is shutting down stays so.
pub proof fn lemma_state_forward(s: SessionState, m: InboundMessageView)
    ensures
        spec_state_rank(spec_next_state(s, m)) >= spec_state_rank(s),
        s is ShuttingDown ==> spec_next_state(s, m) is ShuttingDown,
{
}

impl Session {
    /// Routes one inbound message to its handler and returns, in one
    /// step, the reply it owes and the outbound messages it causes.
    pub fn handle_message(&mut self, msg: &InboundMessage) -> (step: Step)
        ensures
            final(self).state == spec_next_state(old(self).state, msg.deep_view()),
            step.reply == spec_reply(old(self).state, msg.deep_view()),
            step.outbound.deep_view() =~= spec_outbound(old(self).state, msg.deep_view()),
    {
        match msg {
            InboundMessage::Initialize(params) => {
                let result = self.initialize(params);
                Step { reply: Some(Reply::Initialize(result)), outbound: Vec::new() }
            },
            InboundMessage::Initialized => {
                let outbound = self.initialized();
                Step { reply: None, outbound }
            },
            InboundMessage::Shutdown => {
                let outbound = self.shutdown();
                Step { reply: Some(Reply::Shutdown), outbound }
            },
            InboundMessage::DidChange { uri, changes } => {
                let outbound = self.did_change(uri.as_str(), changes);
                Step { reply: None, outbound }
            },
        }
    }
}

} // verus!
