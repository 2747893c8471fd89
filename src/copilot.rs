//! Message vocabulary of the completion agent: method names, parameters and results.
use vstd::prelude::*;

verus! {

/// Declares `serde_json::Value`: option blocks that are handed to the agent as
/// they are, never looked into.
#[verifier::external_type_specification]
#[verifier::external_body]
pub struct ExJsonValue(serde_json::Value);

/// A zero-based line and character offset in a document.
#[derive(Debug, Clone, Copy, PartialEq, Eq, Structural)]
pub struct Position {
    pub line: u32,
    pub character: u32,
}

/// A span between two positions of a document.
#[derive(Debug, Clone, Copy, PartialEq, Eq, Structural)]
pub struct Range {
    pub start: Position,
    pub end: Position,
}

/// Authentication status reported by the agent.
#[derive(Debug, Clone, Copy, PartialEq, Eq, Structural)]
pub enum Status {
    OK,
    MaybeOk,
    NotSignedIn,
    NotAuthorized,
    FailedToGetToken,
    TokenInvalid,
}

impl Status {
    /// Whether the status counts as signed in; the ambiguous `MaybeOk` is accepted.
    pub open spec fn spec_is_ok(self) -> bool {
        self == Status::OK || self == Status::MaybeOk
    }

    pub fn is_ok(self) -> (r: bool)
        ensures
            r == self.spec_is_ok(),
    {
        self == Status::OK || self == Status::MaybeOk
    }
}

/// Tells the agent which editor and plugin it serves; answered by a status string.
#[derive(Debug)]
pub struct SetEditorInfo;

impl SetEditorInfo {
    pub const METHOD: &'static str = "setEditorInfo";
}

#[derive(Debug)]
pub struct SetEditorInfoParams {
    pub editor_info: EditorInfo,
    pub editor_plugin_info: EditorPluginInfo,
    pub editor_configuration: Option<EditorConfiguration>,
    pub network_proxy: Option<NetworkProxy>,
    pub auth_provider: Option<AuthProvider>,
    pub options: Option<serde_json::Value>,
}

#[derive(Debug)]
pub struct EditorInfo {
    pub name: String,
    pub version: String,
}

#[derive(Debug)]
pub struct EditorPluginInfo {
    pub name: String,
    pub version: String,
}

#[derive(Debug, Default)]
pub struct EditorConfiguration {
    pub show_editor_completions: Option<bool>,
    pub enable_auto_completions: Option<bool>,
    pub delay_completions: Option<bool>,
    pub filter_completions: Option<bool>,
    pub disabled_languages: Option<Vec<LanguageId>>,
}

#[derive(Debug, Default)]
pub struct LanguageId {
    pub language_ids: Vec<String>,
}

#[derive(Debug)]
pub struct NetworkProxy {
    pub host: String,
    pub port: u16,
    pub username: Option<String>,
    pub password: Option<String>,
    pub reject_unauthorized: Option<bool>,
}

#[derive(Debug)]
pub struct AuthProvider {
    pub url: Option<String>,
}

/// Asks the agent whether a user is signed in.
#[derive(Debug)]
pub struct CheckAuthStatus;

impl CheckAuthStatus {
    pub const METHOD: &'static str = "checkStatus";
}

#[derive(Debug)]
pub struct CheckAuthStatusParams {
    pub options: Option<CheckAuthStatusOptions>,
}

#[derive(Debug, Default)]
pub struct CheckAuthStatusOptions {
    pub local_checks_only: Option<bool>,
}

#[derive(Debug)]
pub struct CheckAuthStatusResult {
    pub status: Status,
    /// The signed-in account, if any.
    pub user: Option<String>,
}

/// Outcome of starting a sign-in.
#[derive(Debug, Clone, Copy, PartialEq, Eq, Structural)]
pub enum SignInStatus {
    AlreadySignedIn,
    PromptUserDeviceFlow,
}

/// Starts a device-flow sign-in: the user opens the verification URI and enters the user code.
#[derive(Debug)]
pub struct SignInInitiate;

impl SignInInitiate {
    pub const METHOD: &'static str = "signInInitiate";
}

#[derive(Debug)]
pub struct SignInInitiateParams {}

/// Answer to `signInInitiate`.
///
/// The device-flow fields are present for `PromptUserDeviceFlow`, `user` for
/// `AlreadySignedIn`. The two durations are in whole seconds.
#[derive(Debug)]
pub struct SignInInitiateResult {
    pub status: SignInStatus,
    pub user_code: Option<String>,
    pub verification_uri: Option<String>,
    pub expires_in: Option<u32>,
    pub interval: Option<u32>,
    pub user: Option<String>,
}

/// Waits until the user has finished the device flow.
#[derive(Debug)]
pub struct SignInConfirm;

impl SignInConfirm {
    pub const METHOD: &'static str = "signInConfirm";
}

#[derive(Debug)]
pub struct SignInConfirmParams {}

#[derive(Debug)]
pub struct SignInConfirmResult {
    /// A status name such as "OK".
    pub status: String,
    pub user: Option<String>,
}

/// Signs the current user out.
#[derive(Debug)]
pub struct SignOut;

impl SignOut {
    pub const METHOD: &'static str = "signOut";
}

#[derive(Debug)]
pub struct SignOutParams {}

#[derive(Debug)]
pub struct SignOutResult {
    /// A status name such as "NotSignedIn".
    pub status: String,
}

/// Asks for completions at a position.
#[derive(Debug)]
pub struct GetCompletions;

impl GetCompletions {
    pub const METHOD: &'static str = "getCompletions";
}

/// Asks for alternatives to a completion already offered at a position.
#[derive(Debug)]
pub struct GetCompletionsCycling;

impl GetCompletionsCycling {
    pub const METHOD: &'static str = "getCompletionsCycling";
}

#[derive(Debug)]
pub struct GetCompletionsParams {
    pub doc: GetCompletionsDoc,
    pub options: Option<serde_json::Value>,
}

#[derive(Debug)]
pub struct GetCompletionsDoc {
    pub position: Position,
    pub uri: String,
    pub version: i32,
    pub insert_spaces: Option<bool>,
    /// The size of tabs in the document.
    pub tab_size: Option<u16>,
    pub source: Option<String>,
    pub language_id: Option<String>,
    pub relative_path: Option<String>,
    pub if_inserted: Option<IfInserted>,
}

#[derive(Debug)]
pub struct IfInserted {
    pub text: String,
    pub end: Option<Position>,
}

#[derive(Debug)]
pub struct GetCompletionsResult {
    pub completions: Vec<Completion>,
}

/// One completion proposed by the agent.
#[derive(Debug)]
pub struct Completion {
    pub uuid: String,
    /// The full line of text.
    pub text: String,
    pub range: Range,
    /// The text after the cursor.
    pub display_text: String,
    pub position: Position,
    pub doc_version: u64,
}

/// Sent when a completion is shown.
#[derive(Debug)]
pub struct NotifyShown;

impl NotifyShown {
    pub const METHOD: &'static str = "notifyShown";
}

#[derive(Debug)]
pub struct NotifyShownParams {
    pub uuid: String,
    pub options: Option<serde_json::Value>,
}

/// Sent when a completion is accepted.
#[derive(Debug)]
pub struct NotifyAccepted;

impl NotifyAccepted {
    pub const METHOD: &'static str = "notifyAccepted";
}

#[derive(Debug)]
pub struct NotifyAcceptedParams {
    pub uuid: String,
    pub options: Option<serde_json::Value>,
}

/// Sent when a completion is rejected.
#[derive(Debug)]
pub struct NotifyRejected;

impl NotifyRejected {
    pub const METHOD: &'static str = "notifyRejected";
}

#[derive(Debug)]
pub struct NotifyRejectedParams {
    pub uuid: String,
    pub options: Option<serde_json::Value>,
}

/// Cancels a request in flight.
#[derive(Debug)]
pub struct Cancel;

impl Cancel {
    pub const METHOD: &'static str = "cancel";
}

#[derive(Debug)]
pub struct CancelParams {
    /// The id of the request to cancel.
    pub id: u64,
}

#[derive(Debug)]
pub struct CancelResult {}

} // verus!
