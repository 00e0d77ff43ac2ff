use lsp::route::{InboundMessage, Reply, Step};
use lsp::session::{InitializeParams, Session, SessionState, negotiate};
use lsp::text::{change_log_text, decimal_string, range_text};
use lsp::translate::translate;
use lsp::types::{
    ContentChange, CursorPositionEvent, OutboundMessage, Position, Range, Severity,
    TextDocumentSyncKind,
};

fn pos(line: u32, character: u32) -> Position {
    Position { line, character }
}

fn range(start: Position, end: Position) -> Range {
    Range { start, end }
}

fn change_with_range(start: Position, end: Position, text: &str) -> ContentChange {
    ContentChange { range: Some(range(start, end)), text: text.to_string() }
}

fn change_without_range(text: &str) -> ContentChange {
    ContentChange { range: None, text: text.to_string() }
}

fn params() -> InitializeParams {
    InitializeParams { process_id: Some(7), root_uri: Some("file:///root".to_string()) }
}

fn cursor_positions(out: &[OutboundMessage]) -> Vec<&CursorPositionEvent> {
    out.iter()
        .filter_map(|m| match m {
            OutboundMessage::CursorPosition(e) => Some(e),
            OutboundMessage::Log(_) => None,
        })
        .collect()
}

fn log_count(out: &[OutboundMessage]) -> usize {
    out.iter()
        .filter(|m| matches!(m, OutboundMessage::Log(_)))
        .count()
}

#[test]
fn capabilities_always_full() {
    let caps = negotiate(&params());
    assert_eq!(caps.text_document_sync, TextDocumentSyncKind::Full);
    let bare = negotiate(&InitializeParams { process_id: None, root_uri: None });
    assert_eq!(caps, bare);
}

#[test]
fn initialize_is_idempotent() {
    let mut session = Session::new();
    let first = session.initialize(&params());
    let second = session.initialize(&params());
    assert_eq!(first, second);
    assert_eq!(first.capabilities.text_document_sync, TextDocumentSyncKind::Full);
    assert_eq!(session.state, SessionState::Uninitialized);
}

#[test]
fn translate_keeps_order_and_count() {
    let changes = vec![
        change_with_range(pos(1, 2), pos(1, 5), "a"),
        change_without_range("b"),
        change_with_range(pos(9, 0), pos(10, 3), "c"),
        change_with_range(pos(0, 0), pos(0, 1), "d"),
    ];
    let out = translate("file:///doc.rs", &changes);
    assert_eq!(out.len(), 3);
    assert_eq!(out[0].position, pos(1, 2));
    assert_eq!(out[1].position, pos(9, 0));
    assert_eq!(out[2].position, pos(0, 0));
    assert!(out.iter().all(|e| e.uri == "file:///doc.rs"));
}

#[test]
fn translate_twice_identical() {
    let changes = vec![
        change_with_range(pos(3, 1), pos(3, 4), "x"),
        change_without_range("y"),
    ];
    let first = translate("file:///same.rs", &changes);
    let second = translate("file:///same.rs", &changes);
    assert_eq!(first, second);
}

#[test]
fn absent_range_yields_nothing() {
    let changes = vec![change_without_range("whole doc")];
    let out = translate("file:///doc.rs", &changes);
    assert!(out.is_empty());
}

#[test]
fn empty_batch_yields_nothing() {
    let out = translate("file:///doc.rs", &Vec::new());
    assert!(out.is_empty());
}

#[test]
fn all_ranges_absent_yields_nothing() {
    let changes = vec![
        change_without_range("a"),
        change_without_range("b"),
        change_without_range("c"),
    ];
    let out = translate("file:///doc.rs", &changes);
    assert!(out.is_empty());
}

#[test]
fn did_change_before_initialized_is_logged_and_ignored() {
    let mut session = Session::new();
    let changes = vec![change_with_range(pos(1, 1), pos(1, 2), "x")];
    let out = session.did_change("file:///doc.rs", &changes);
    assert_eq!(session.state, SessionState::Uninitialized);
    assert!(cursor_positions(&out).is_empty());
    assert_eq!(log_count(&out), 1);
    match &out[0] {
        OutboundMessage::Log(l) => assert_eq!(l.severity, Severity::Warning),
        other => panic!("expected a log message, got {:?}", other),
    }
}

#[test]
fn did_change_after_shutdown_is_logged_and_ignored() {
    let mut session = Session::new();
    session.initialize(&params());
    session.initialized();
    session.shutdown();
    assert_eq!(session.state, SessionState::ShuttingDown);
    let changes = vec![change_with_range(pos(1, 1), pos(1, 2), "x")];
    let out = session.did_change("file:///doc.rs", &changes);
    assert_eq!(session.state, SessionState::ShuttingDown);
    assert!(cursor_positions(&out).is_empty());
    assert_eq!(log_count(&out), 1);
}

#[test]
fn initialize_then_change_scenario() {
    let mut session = Session::new();

    let result = session.initialize(&params());
    assert_eq!(result.capabilities.text_document_sync, TextDocumentSyncKind::Full);

    let greeting = session.initialized();
    assert_eq!(session.state, SessionState::Initialized);
    assert_eq!(greeting.len(), 1);
    match &greeting[0] {
        OutboundMessage::Log(l) => {
            assert_eq!(l.severity, Severity::Info);
            assert_eq!(l.text, "server initialized!");
        },
        other => panic!("expected a log message, got {:?}", other),
    }

    let changes = vec![
        change_with_range(pos(2, 4), pos(2, 10), "x"),
        change_without_range("whole doc"),
    ];
    let out = session.did_change("file:///doc.rs", &changes);
    assert_eq!(log_count(&out), 2);
    let cursors = cursor_positions(&out);
    assert_eq!(cursors.len(), 1);
    assert_eq!(cursors[0].position, pos(2, 4));
    assert_eq!(cursors[0].uri, "file:///doc.rs");
    // the event follows its change's log immediately
    assert!(matches!(out[0], OutboundMessage::Log(_)));
    assert!(matches!(out[1], OutboundMessage::CursorPosition(_)));
    assert!(matches!(out[2], OutboundMessage::Log(_)));
    assert_eq!(out.len(), 3);
}

#[test]
fn shutdown_scenario() {
    let mut session = Session::new();
    session.initialize(&params());
    session.initialized();

    let out = session.shutdown();
    assert_eq!(session.state, SessionState::ShuttingDown);
    assert!(out.is_empty());

    let changes = vec![change_with_range(pos(5, 5), pos(5, 6), "x")];
    let ignored = session.did_change("file:///doc.rs", &changes);
    assert!(cursor_positions(&ignored).is_empty());
}

#[test]
fn initialized_out_of_order_is_logged() {
    let mut session = Session::new();
    session.initialized();
    assert_eq!(session.state, SessionState::Initialized);
    let out = session.initialized();
    assert_eq!(session.state, SessionState::Initialized);
    assert_eq!(out.len(), 1);
    match &out[0] {
        OutboundMessage::Log(l) => {
            assert_eq!(l.severity, Severity::Warning);
            assert_eq!(l.text, "protocol violation: initialized received out of order");
        },
        other => panic!("expected a log message, got {:?}", other),
    }
}

#[test]
fn shutdown_out_of_order_is_logged() {
    let mut session = Session::new();
    let out = session.shutdown();
    assert_eq!(session.state, SessionState::Uninitialized);
    assert_eq!(out.len(), 1);
    match &out[0] {
        OutboundMessage::Log(l) => {
            assert_eq!(l.severity, Severity::Warning);
            assert_eq!(l.text, "protocol violation: shutdown received out of order");
        },
        other => panic!("expected a log message, got {:?}", other),
    }
}

#[test]
fn handle_message_routes_every_method() {
    let mut session = Session::new();

    let step = session.handle_message(&InboundMessage::Initialize(params()));
    match step.reply {
        Some(Reply::Initialize(r)) => {
            assert_eq!(r.capabilities.text_document_sync, TextDocumentSyncKind::Full)
        },
        other => panic!("expected an initialize reply, got {:?}", other),
    }
    assert!(step.outbound.is_empty());

    let step = session.handle_message(&InboundMessage::Initialized);
    assert_eq!(step.reply, None);
    assert_eq!(step.outbound.len(), 1);
    assert_eq!(session.state, SessionState::Initialized);

    let changes = vec![change_with_range(pos(2, 4), pos(2, 10), "x")];
    let step: Step = session.handle_message(&InboundMessage::DidChange {
        uri: "file:///doc.rs".to_string(),
        changes,
    });
    assert_eq!(step.reply, None);
    assert_eq!(cursor_positions(&step.outbound).len(), 1);

    let step = session.handle_message(&InboundMessage::Shutdown);
    assert_eq!(step.reply, Some(Reply::Shutdown));
    assert!(step.outbound.is_empty());
    assert_eq!(session.state, SessionState::ShuttingDown);
}

#[test]
fn decimal_rendering_exact() {
    assert_eq!(decimal_string(0), "0");
    assert_eq!(decimal_string(7), "7");
    assert_eq!(decimal_string(10), "10");
    assert_eq!(decimal_string(42), "42");
    assert_eq!(decimal_string(305), "305");
    assert_eq!(decimal_string(u32::MAX), "4294967295");
}

#[test]
fn range_text_exact() {
    let r = range(pos(2, 4), pos(2, 10));
    assert_eq!(range_text(&Some(r)), "(2,4)-(2,10)");
    assert_eq!(range_text(&None), "None");
}

#[test]
fn change_log_text_exact() {
    let r = range(pos(2, 4), pos(2, 10));
    assert_eq!(
        change_log_text("file:///doc.rs", &Some(r)),
        "Change in file:///doc.rs: (2,4)-(2,10)"
    );
    assert_eq!(change_log_text("file:///doc.rs", &None), "Change in file:///doc.rs: None");
}
