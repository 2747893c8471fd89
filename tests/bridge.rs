use lapce_copilot::bridge::{
    classify_notification, classify_request, completion_items, select_method, CompletionMethod,
    HostNotification, HostRequest, InlineCompletionParams, InsertTextFormat, ProtocolBridge,
    TriggerKind,
};
use lapce_copilot::copilot::{Completion, GetCompletionsResult, Position, Range};

fn request(uri: &str, trigger_kind: TriggerKind) -> InlineCompletionParams {
    InlineCompletionParams {
        uri: uri.to_string(),
        position: Position { line: 4, character: 9 },
        trigger_kind,
    }
}

fn completion(uuid: &str, text: &str, display_text: &str) -> Completion {
    let at = Position { line: 4, character: 9 };
    Completion {
        uuid: uuid.to_string(),
        text: text.to_string(),
        range: Range { start: Position { line: 4, character: 0 }, end: at },
        display_text: display_text.to_string(),
        position: at,
        doc_version: 2,
    }
}

#[test]
fn unseen_document_is_requested_at_revision_zero() {
    let bridge = ProtocolBridge::new();
    let call = bridge
        .handle_inline_completion(request("file:///new.rs", TriggerKind::Automatic))
        .unwrap();
    assert_eq!(call.params.doc.version, 0);
    assert_eq!(call.params.doc.uri, "file:///new.rs");
}

#[test]
fn automatic_trigger_uses_primary_method() {
    let bridge = ProtocolBridge::new();
    let call = bridge
        .handle_inline_completion(request("file:///a.rs", TriggerKind::Automatic))
        .unwrap();
    assert_eq!(call.method, CompletionMethod::Primary);
    assert_eq!(call.method.name(), "getCompletions");
}

#[test]
fn invoked_trigger_uses_cycling_method() {
    let bridge = ProtocolBridge::new();
    let call = bridge
        .handle_inline_completion(request("file:///a.rs", TriggerKind::Invoked))
        .unwrap();
    assert_eq!(call.method, CompletionMethod::Cycling);
    assert_eq!(call.method.name(), "getCompletionsCycling");
}

#[test]
fn unsupported_trigger_yields_no_request() {
    let mut bridge = ProtocolBridge::new();
    bridge.handle_did_open_text_document("file:///a.rs".to_string(), 3);
    assert!(bridge
        .handle_inline_completion(request("file:///a.rs", TriggerKind::Unsupported))
        .is_none());
    assert_eq!(select_method(TriggerKind::Unsupported), None);
}

#[test]
fn request_carries_position_and_no_hints() {
    let bridge = ProtocolBridge::new();
    let call = bridge
        .handle_inline_completion(request("file:///a.rs", TriggerKind::Automatic))
        .unwrap();
    let doc = &call.params.doc;
    assert_eq!(doc.position, Position { line: 4, character: 9 });
    assert_eq!(doc.insert_spaces, None);
    assert_eq!(doc.tab_size, None);
    assert_eq!(doc.source, None);
    assert_eq!(doc.language_id, None);
    assert_eq!(doc.relative_path, None);
    assert!(doc.if_inserted.is_none());
    assert!(call.params.options.is_none());
}

#[test]
fn open_then_change_embeds_latest_revision() {
    let mut bridge = ProtocolBridge::new();
    bridge.handle_did_open_text_document("file:///main.rs".to_string(), 1);
    bridge.handle_did_change_text_document("file:///main.rs".to_string(), 2);
    let call = bridge
        .handle_inline_completion(request("file:///main.rs", TriggerKind::Automatic))
        .unwrap();
    assert_eq!(call.method, CompletionMethod::Primary);
    assert_eq!(call.params.doc.version, 2);
}

#[test]
fn revision_of_other_document_is_not_used() {
    let mut bridge = ProtocolBridge::new();
    bridge.handle_did_open_text_document("file:///a.rs".to_string(), 9);
    assert_eq!(bridge.revision_of("file:///a.rs"), 9);
    assert_eq!(bridge.revision_of("file:///b.rs"), 0);
}

#[test]
fn item_inserts_display_text_not_full_line() {
    let result = GetCompletionsResult {
        completions: vec![completion("u1", "let x = foo()", "foo()")],
    };
    let items = completion_items(&result);
    assert_eq!(items.len(), 1);
    assert_eq!(items[0].insert_text, "foo()");
    assert_ne!(items[0].insert_text, "let x = foo()");
    assert_eq!(items[0].insert_text_format, Some(InsertTextFormat::PlainText));
    assert_eq!(items[0].range, None);
    assert_eq!(items[0].filter_text, None);
}

#[test]
fn items_keep_agent_order() {
    let result = GetCompletionsResult {
        completions: vec![
            completion("u1", "a = 1", "1"),
            completion("u2", "a = 2", "2"),
            completion("u3", "a = 3", "3"),
        ],
    };
    let texts: Vec<String> = completion_items(&result).into_iter().map(|i| i.insert_text).collect();
    assert_eq!(texts, vec!["1".to_string(), "2".to_string(), "3".to_string()]);
}

#[test]
fn no_completions_give_no_items() {
    let result = GetCompletionsResult { completions: vec![] };
    assert!(completion_items(&result).is_empty());
}

#[test]
fn requests_are_classified_by_method() {
    assert_eq!(classify_request("initialize"), HostRequest::Initialize);
    assert_eq!(classify_request("textDocument/inlineCompletion"), HostRequest::InlineCompletion);
    assert_eq!(classify_request("textDocument/completion"), HostRequest::Other);
    assert_eq!(classify_request(""), HostRequest::Other);
}

#[test]
fn notifications_are_classified_by_method() {
    assert_eq!(classify_notification("textDocument/didOpen"), HostNotification::DidOpen);
    assert_eq!(classify_notification("textDocument/didChange"), HostNotification::DidChange);
    assert_eq!(classify_notification("textDocument/didClose"), HostNotification::Other);
}
