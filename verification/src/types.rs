//! Plain data types of the protocol core, and their mathematical views.

use vstd::prelude::*;

verus! {

/// A (line, character) point in a document, zero-based.
#[derive(Clone, Copy, Debug, PartialEq, Eq, Structural)]
pub struct Position {
    pub line: u32,
    pub character: u32,
}

/// A span between two positions, as reported by the client.
#[derive(Clone, Copy, Debug, PartialEq, Eq, Structural)]
pub struct Range {
    pub start: Position,
    pub end: Position,
}

/// One reported edit. An absent `range` means a full-document
/// replacement with no positional data; the replacement `text` is
/// carried through but never interpreted here.
#[derive(Clone, Debug, PartialEq, Eq)]
pub struct ContentChange {
    pub range: Option<Range>,
    pub text: String,
}

/// Mathematical view of a `ContentChange`.
pub struct ContentChangeView {
    pub range: Option<Range>,
    pub text: Seq<char>,
}

impl DeepView for ContentChange {
    type V = ContentChangeView;

    open spec fn deep_view(&self) -> ContentChangeView {
        ContentChangeView { range: self.range, text: self.text@ }
    }
}

/// Document synchronization mode advertised to the client.
#[derive(Clone, Copy, Debug, PartialEq, Eq, Structural)]
pub enum TextDocumentSyncKind {
    NoSync,
    Full,
    Incremental,
}

/// The server's capability advertisement; in this server the sync mode
/// is always full-document replacement.
#[derive(Clone, Copy, Debug, PartialEq, Eq, Structural)]
pub struct ServerCapabilities {
    pub text_document_sync: TextDocumentSyncKind,
}

/// Reply to the initialization handshake.
#[derive(Clone, Copy, Debug, PartialEq, Eq, Structural)]
pub struct InitializeResult {
    pub capabilities: ServerCapabilities,
}

/// Severity of an outbound log message.
#[derive(Clone, Copy, Debug, PartialEq, Eq, Structural)]
pub enum Severity {
    Error,
    Warning,
    Info,
    Log,
}

/// Observational log notification for the client; never affects state.
#[derive(Clone, Debug, PartialEq, Eq)]
pub struct LogMessage {
    pub severity: Severity,
    pub text: String,
}

/// Mathematical view of a `LogMessage`.
pub struct LogMessageView {
    pub severity: Severity,
    pub text: Seq<char>,
}

impl DeepView for LogMessage {
    type V = LogMessageView;

    open spec fn deep_view(&self) -> LogMessageView {
        LogMessageView { severity: self.severity, text: self.text@ }
    }
}

/// Derived notification: exists exactly for the changes that carried a
/// range, and its position is that range's start.
#[derive(Clone, Debug, PartialEq, Eq)]
pub struct CursorPositionEvent {
    pub uri: String,
    pub position: Position,
}

/// Mathematical view of a `CursorPositionEvent`.
pub struct CursorPositionEventView {
    pub uri: Seq<char>,
    pub position: Position,
}

impl DeepView for CursorPositionEvent {
    type V = CursorPositionEventView;

    open spec fn deep_view(&self) -> CursorPositionEventView {
        CursorPositionEventView { uri: self.uri@, position: self.position }
    }
}

/// One message to send back to the client, in order.
#[derive(Clone, Debug, PartialEq, Eq)]
pub enum OutboundMessage {
    Log(LogMessage),
    CursorPosition(CursorPositionEvent),
}

/// Mathematical view of an `OutboundMessage`.
pub enum OutboundMessageView {
    Log(LogMessageView),
    CursorPosition(CursorPositionEventView),
}

impl DeepView for OutboundMessage {
    type V = OutboundMessageView;

    open spec fn deep_view(&self) -> OutboundMessageView {
        match self {
            OutboundMessage::Log(m) => OutboundMessageView::Log(m.deep_view()),
            OutboundMessage::CursorPosition(e) => OutboundMessageView::CursorPosition(
                e.deep_view(),
            ),
        }
    }
}

} // verus!
