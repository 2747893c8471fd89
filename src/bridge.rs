//! Translation between the editor's inline-completion protocol and the agent's
//! completion requests.
use vstd::prelude::*;
use crate::copilot::{
    Completion, GetCompletions, GetCompletionsCycling, GetCompletionsDoc, GetCompletionsParams,
    GetCompletionsResult, Position, Range,
};
use crate::text::str_equal;
use crate::versions::VersionTable;

verus! {

/// What made the editor ask for an inline completion.
#[derive(Debug, Clone, Copy, PartialEq, Eq, Structural)]
pub enum TriggerKind {
    /// An explicit user gesture.
    Invoked,
    /// Typing.
    Automatic,
    /// Any kind this adapter does not serve.
    Unsupported,
}

/// The two agent methods that produce completions.
#[derive(Debug, Clone, Copy, PartialEq, Eq, Structural)]
pub enum CompletionMethod {
    /// `getCompletions`
    Primary,
    /// `getCompletionsCycling`: an alternative to a completion already shown.
    Cycling,
}

pub open spec fn spec_method_name(m: CompletionMethod) -> Seq<char> {
    match m {
        CompletionMethod::Primary => "getCompletions"@,
        CompletionMethod::Cycling => "getCompletionsCycling"@,
    }
}

impl CompletionMethod {
    /// The agent's name for the method.
    pub fn name(self) -> (r: &'static str)
        ensures
            r@ == spec_method_name(self),
    {
        match self {
            CompletionMethod::Primary => GetCompletions::METHOD,
            CompletionMethod::Cycling => GetCompletionsCycling::METHOD,
        }
    }
}

/// The method that serves a trigger kind, if any.
pub open spec fn method_for(kind: TriggerKind) -> Option<CompletionMethod> {
    match kind {
        TriggerKind::Automatic => Some(CompletionMethod::Primary),
        TriggerKind::Invoked => Some(CompletionMethod::Cycling),
        TriggerKind::Unsupported => None,
    }
}

pub fn select_method(kind: TriggerKind) -> (r: Option<CompletionMethod>)
    ensures
        r == method_for(kind),
{
    match kind {
        TriggerKind::Automatic => Some(CompletionMethod::Primary),
        TriggerKind::Invoked => Some(CompletionMethod::Cycling),
        TriggerKind::Unsupported => None,
    }
}

/// The revision sent for a document: the one last seen, or 0 for a document never seen.
pub open spec fn revision_or_zero(versions: Map<Seq<char>, i32>, uri: Seq<char>) -> i32 {
    if versions.contains_key(uri) {
        versions[uri]
    } else {
        0
    }
}

/// A document the table never saw is asked for at revision 0.
pub proof fn unseen_document_gets_revision_zero(versions: Map<Seq<char>, i32>, uri: Seq<char>)
    requires
        !versions.contains_key(uri),
    ensures
        revision_or_zero(versions, uri) == 0,
{
}

/// An automatic trigger asks for `getCompletions`, an invoked one for
/// `getCompletionsCycling`, and any other for nothing.
pub proof fn trigger_kind_selects_method()
    ensures
        method_for(TriggerKind::Automatic) == Some(CompletionMethod::Primary),
        method_for(TriggerKind::Invoked) == Some(CompletionMethod::Cycling),
        method_for(TriggerKind::Unsupported) is None,
{
}

/// The part of an inline-completion request that the translation reads.
#[derive(Debug)]
pub struct InlineCompletionParams {
    pub uri: String,
    pub position: Position,
    pub trigger_kind: TriggerKind,
}

/// A completion request ready to be sent to the agent.
#[derive(Debug)]
pub struct CompletionCall {
    pub method: CompletionMethod,
    pub params: GetCompletionsParams,
}

/// `call` asks `method` for completions at `position` of `uri` at `version`,
/// with no formatting hints or options.
pub open spec fn is_completion_call(
    call: CompletionCall,
    method: CompletionMethod,
    uri: Seq<char>,
    position: Position,
    version: i32,
) -> bool {
    &&& call.method == method
    &&& call.params.doc.uri@ == uri
    &&& call.params.doc.position == position
    &&& call.params.doc.version == version
    &&& call.params.doc.insert_spaces is None
    &&& call.params.doc.tab_size is None
    &&& call.params.doc.source is None
    &&& call.params.doc.language_id is None
    &&& call.params.doc.relative_path is None
    &&& call.params.doc.if_inserted is None
    &&& call.params.options is None
}

/// How an inserted text is to be read.
#[derive(Debug, Clone, Copy, PartialEq, Eq, Structural)]
pub enum InsertTextFormat {
    PlainText,
    Snippet,
}

/// One inline completion offered to the editor.
#[derive(Debug)]
pub struct InlineCompletionItem {
    pub insert_text: String,
    pub insert_text_format: Option<InsertTextFormat>,
    pub filter_text: Option<String>,
    pub range: Option<Range>,
}

/// `item` offers the text after the cursor of `completion`, as plain text.
pub open spec fn offers(item: InlineCompletionItem, completion: Completion) -> bool {
    &&& item.insert_text@ == completion.display_text@
    &&& item.insert_text_format == Some(InsertTextFormat::PlainText)
    &&& item.filter_text is None
    &&& item.range is None
}

/// Turns the agent's completions into inline-completion items, one for one and in
/// the agent's order; each inserts the completion's display text.
pub fn completion_items(result: &GetCompletionsResult) -> (r: Vec<InlineCompletionItem>)
    ensures
        r@.len() == result.completions@.len(),
        forall|i: int| 0 <= i < r@.len() ==> offers(#[trigger] r@[i], result.completions@[i]),
{
    let n = result.completions.len();
    let mut items: Vec<InlineCompletionItem> = Vec::new();
    let mut i: usize = 0;
    while i < n
        invariant
            n == result.completions@.len(),
            i <= n,
            items@.len() == i,
            forall|j: int| 0 <= j < i ==> offers(#[trigger] items@[j], result.completions@[j]),
        decreases n - i,
    {
        let text = result.completions[i].display_text.clone();
        items.push(
            InlineCompletionItem {
                insert_text: text,
                insert_text_format: Some(InsertTextFormat::PlainText),
                filter_text: None,
                range: None,
            },
        );
        i = i + 1;
    }
    items
}

/// The translation state of one session: the revisions of the open documents.
#[derive(Debug)]
pub struct ProtocolBridge {
    versions: VersionTable,
}

impl View for ProtocolBridge {
    type V = Map<Seq<char>, i32>;

    closed spec fn view(&self) -> Map<Seq<char>, i32> {
        self.versions@
    }
}

impl ProtocolBridge {
    pub fn new() -> (r: ProtocolBridge)
        ensures
            r@ == Map::<Seq<char>, i32>::empty(),
    {
        ProtocolBridge { versions: VersionTable::new() }
    }

    /// A document was opened at `version`.
    pub fn handle_did_open_text_document(&mut self, uri: String, version: i32)
        ensures
            final(self)@ == old(self)@.insert(uri@, version),
    {
        self.versions.record(uri, version);
    }

    /// A document changed; `version` is its new revision.
    pub fn handle_did_change_text_document(&mut self, uri: String, version: i32)
        ensures
            final(self)@ == old(self)@.insert(uri@, version),
    {
        self.versions.record(uri, version);
    }

    /// The revision to send for `uri`.
    pub fn revision_of(&self, uri: &str) -> (r: i32)
        ensures
            r == revision_or_zero(self@, uri@),
    {
        match self.versions.lookup(uri) {
            Some(v) => v,
            None => 0,
        }
    }

    /// The agent request that answers an inline-completion request, or `None`
    /// when the trigger kind is not served and no answer is to be sent.
    pub fn handle_inline_completion(&self, params: InlineCompletionParams) -> (r: Option<
        CompletionCall,
    >)
        ensures
            method_for(params.trigger_kind) is None ==> r is None,
            method_for(params.trigger_kind) matches Some(m) ==> r matches Some(call)
                && is_completion_call(
                call,
                m,
                params.uri@,
                params.position,
                revision_or_zero(self@, params.uri@),
            ),
    {
        let method = match select_method(params.trigger_kind) {
            Some(m) => m,
            None => return None,
        };
        let version = self.revision_of(params.uri.as_str());
        let doc = GetCompletionsDoc {
            position: params.position,
            uri: params.uri,
            version,
            insert_spaces: None,
            tab_size: None,
            source: None,
            language_id: None,
            relative_path: None,
            if_inserted: None,
        };
        Some(CompletionCall { method, params: GetCompletionsParams { doc, options: None } })
    }
}

/// Requests from the editor that the adapter answers.
#[derive(Debug, Clone, Copy, PartialEq, Eq, Structural)]
pub enum HostRequest {
    Initialize,
    InlineCompletion,
    Other,
}

pub open spec fn spec_request_kind(method: Seq<char>) -> HostRequest {
    if method == "initialize"@ {
        HostRequest::Initialize
    } else if method == "textDocument/inlineCompletion"@ {
        HostRequest::InlineCompletion
    } else {
        HostRequest::Other
    }
}

/// Which request a method name is; any other is ignored.
pub fn classify_request(method: &str) -> (r: HostRequest)
    ensures
        r == spec_request_kind(method@),
{
    if str_equal(method, "initialize") {
        HostRequest::Initialize
    } else if str_equal(method, "textDocument/inlineCompletion") {
        HostRequest::InlineCompletion
    } else {
        HostRequest::Other
    }
}

/// Notifications from the editor that the adapter acts on.
#[derive(Debug, Clone, Copy, PartialEq, Eq, Structural)]
pub enum HostNotification {
    DidOpen,
    DidChange,
    Other,
}

pub open spec fn spec_notification_kind(method: Seq<char>) -> HostNotification {
    if method == "textDocument/didOpen"@ {
        HostNotification::DidOpen
    } else if method == "textDocument/didChange"@ {
        HostNotification::DidChange
    } else {
        HostNotification::Other
    }
}

/// Which notification a method name is; any other is ignored.
pub fn classify_notification(method: &str) -> (r: HostNotification)
    ensures
        r == spec_notification_kind(method@),
{
    if str_equal(method, "textDocument/didOpen") {
        HostNotification::DidOpen
    } else if str_equal(method, "textDocument/didChange") {
        HostNotification::DidChange
    } else {
        HostNotification::Other
    }
}

} // verus!
