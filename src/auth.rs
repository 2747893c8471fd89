//! The sign-in state machine: check status, start a device-flow sign-in, confirm it.
use vstd::prelude::*;
use crate::copilot::{CheckAuthStatusResult, SignInConfirmResult, SignInInitiateResult, SignInStatus};
use crate::text::str_equal;

verus! {

/// What the adapter knows of the agent's sign-in.
#[derive(Debug)]
pub enum AuthSession {
    /// Not checked yet.
    Unknown,
    SignedIn { user: Option<String> },
    SignedOut,
    /// A device-flow sign-in was started and waits for the user.
    AwaitingUserDeviceCode {
        user_code: String,
        verification_uri: String,
        expires_in: Option<u32>,
        interval: Option<u32>,
    },
}

/// What the caller does next.
#[derive(Debug)]
pub enum AuthAction {
    /// Send `signInInitiate`.
    InitiateSignIn,
    /// Show `user_code` to the user, open `verification_uri`, then send `signInConfirm`.
    PromptUser { user_code: String, verification_uri: String },
    /// Signed in: send nothing more.
    Done,
    /// The agent reported a sign-in although the status check said otherwise:
    /// warn, then send nothing more.
    DoneAlreadySignedIn,
}

/// Why a sign-in failed.
#[derive(Debug)]
pub enum AuthError {
    /// A device flow was offered without a verification URI.
    MissingVerificationUri,
    /// A device flow was offered without a user code.
    MissingUserCode,
    /// The agent did not confirm the sign-in; `status` is what it answered.
    SignInRejected { status: String },
}

/// Whether the caller is to send the agent another request after `a`.
pub open spec fn sends_request(a: AuthAction) -> bool {
    a is InitiateSignIn || a is PromptUser
}

/// Session and action after a `checkStatus` answer.
pub open spec fn status_checked(result: CheckAuthStatusResult) -> (AuthSession, AuthAction) {
    if result.status.spec_is_ok() {
        (AuthSession::SignedIn { user: result.user }, AuthAction::Done)
    } else {
        (AuthSession::SignedOut, AuthAction::InitiateSignIn)
    }
}

/// Session and outcome after a `signInInitiate` answer.
pub open spec fn sign_in_initiated(result: SignInInitiateResult) -> (
    AuthSession,
    Result<AuthAction, AuthError>,
) {
    match result.status {
        SignInStatus::AlreadySignedIn => (
            AuthSession::SignedIn { user: result.user },
            Ok(AuthAction::DoneAlreadySignedIn),
        ),
        SignInStatus::PromptUserDeviceFlow => match (result.verification_uri, result.user_code) {
            (None, _) => (AuthSession::SignedOut, Err(AuthError::MissingVerificationUri)),
            (Some(_), None) => (AuthSession::SignedOut, Err(AuthError::MissingUserCode)),
            (Some(uri), Some(code)) => (
                AuthSession::AwaitingUserDeviceCode {
                    user_code: code,
                    verification_uri: uri,
                    expires_in: result.expires_in,
                    interval: result.interval,
                },
                Ok(AuthAction::PromptUser { user_code: code, verification_uri: uri }),
            ),
        },
    }
}

/// A status name that counts as signed in: that of `OK` or of `MaybeOk`.
pub open spec fn is_ok_status_name(s: Seq<char>) -> bool {
    s == "OK"@ || s == "MaybeOk"@
}

/// Session and outcome after a `signInConfirm` answer.
pub open spec fn sign_in_confirmed(result: SignInConfirmResult) -> (
    AuthSession,
    Result<AuthAction, AuthError>,
) {
    if is_ok_status_name(result.status@) {
        (AuthSession::SignedIn { user: result.user }, Ok(AuthAction::Done))
    } else {
        (AuthSession::SignedOut, Err(AuthError::SignInRejected { status: result.status }))
    }
}

/// An ok-like status, `OK` or `MaybeOk`, ends the flow: the caller sends the
/// agent nothing more.
pub proof fn ok_status_ends_sign_in(result: CheckAuthStatusResult)
    requires
        result.status.spec_is_ok(),
    ensures
        status_checked(result).1 is Done,
        !sends_request(status_checked(result).1),
        status_checked(result).0 is SignedIn,
{
}

/// A device flow offered without a verification URI is an error, and the user
/// is not prompted, so no confirmation is sent.
pub proof fn device_flow_without_uri_fails(result: SignInInitiateResult)
    requires
        result.status == SignInStatus::PromptUserDeviceFlow,
        result.verification_uri is None,
    ensures
        sign_in_initiated(result).1 matches Err(e) && e is MissingVerificationUri,
        sign_in_initiated(result).0 is SignedOut,
{
}

/// Whether a status name, as the agent writes it, counts as signed in.
pub fn status_name_is_ok(s: &str) -> (r: bool)
    ensures
        r == is_ok_status_name(s@),
{
    str_equal(s, "OK") || str_equal(s, "MaybeOk")
}

/// The sign-in flow of one session.
#[derive(Debug)]
pub struct AuthFlow {
    session: AuthSession,
}

impl View for AuthFlow {
    type V = AuthSession;

    closed spec fn view(&self) -> AuthSession {
        self.session
    }
}

impl AuthFlow {
    pub fn new() -> (r: AuthFlow)
        ensures
            r@ is Unknown,
    {
        AuthFlow { session: AuthSession::Unknown }
    }

    pub fn session(&self) -> (r: &AuthSession)
        ensures
            *r == self@,
    {
        &self.session
    }

    /// Takes the answer to `checkStatus`; an ok-like status ends the flow.
    pub fn on_status_checked(&mut self, result: CheckAuthStatusResult) -> (r: AuthAction)
        ensures
            (final(self)@, r) == status_checked(result),
    {
        if result.status.is_ok() {
            self.session = AuthSession::SignedIn { user: result.user };
            AuthAction::Done
        } else {
            self.session = AuthSession::SignedOut;
            AuthAction::InitiateSignIn
        }
    }

    /// Takes the answer to `signInInitiate`. A device flow without its
    /// verification URI or user code is an error.
    pub fn on_sign_in_initiated(&mut self, result: SignInInitiateResult) -> (r: Result<
        AuthAction,
        AuthError,
    >)
        ensures
            (final(self)@, r) == sign_in_initiated(result),
    {
        match result.status {
            SignInStatus::AlreadySignedIn => {
                self.session = AuthSession::SignedIn { user: result.user };
                Ok(AuthAction::DoneAlreadySignedIn)
            },
            SignInStatus::PromptUserDeviceFlow => {
                let verification_uri = match result.verification_uri {
                    Some(uri) => uri,
                    None => {
                        self.session = AuthSession::SignedOut;
                        return Err(AuthError::MissingVerificationUri);
                    },
                };
                let user_code = match result.user_code {
                    Some(code) => code,
                    None => {
                        self.session = AuthSession::SignedOut;
                        return Err(AuthError::MissingUserCode);
                    },
                };
                self.session = AuthSession::AwaitingUserDeviceCode {
                    user_code: user_code.clone(),
                    verification_uri: verification_uri.clone(),
                    expires_in: result.expires_in,
                    interval: result.interval,
                };
                Ok(AuthAction::PromptUser { user_code, verification_uri })
            },
        }
    }

    /// Takes the answer to `signInConfirm`; an ok-like status means signed in.
    pub fn on_sign_in_confirmed(&mut self, result: SignInConfirmResult) -> (r: Result<
        AuthAction,
        AuthError,
    >)
        ensures
            (final(self)@, r) == sign_in_confirmed(result),
    {
        if status_name_is_ok(result.status.as_str()) {
            self.session = AuthSession::SignedIn { user: result.user };
            Ok(AuthAction::Done)
        } else {
            self.session = AuthSession::SignedOut;
            Err(AuthError::SignInRejected { status: result.status })
        }
    }
}

} // verus!
