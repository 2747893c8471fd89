use lapce_copilot::auth::{status_name_is_ok, AuthAction, AuthError, AuthFlow, AuthSession};
use lapce_copilot::session::{editor_info_acknowledged, editor_info_params, open_command};
use lapce_copilot::copilot::{
    CheckAuthStatusResult, SignInConfirmResult, SignInInitiateResult, SignInStatus, Status,
};

fn device_flow(user_code: Option<&str>, verification_uri: Option<&str>) -> SignInInitiateResult {
    SignInInitiateResult {
        status: SignInStatus::PromptUserDeviceFlow,
        user_code: user_code.map(|s| s.to_string()),
        verification_uri: verification_uri.map(|s| s.to_string()),
        expires_in: Some(899),
        interval: Some(5),
        user: None,
    }
}

#[test]
fn status_ok_values() {
    assert!(Status::OK.is_ok());
    assert!(Status::MaybeOk.is_ok());
    assert!(!Status::NotSignedIn.is_ok());
    assert!(!Status::NotAuthorized.is_ok());
    assert!(!Status::FailedToGetToken.is_ok());
    assert!(!Status::TokenInvalid.is_ok());
}

#[test]
fn ok_status_short_circuits() {
    let mut flow = AuthFlow::new();
    let action = flow.on_status_checked(CheckAuthStatusResult {
        status: Status::OK,
        user: Some("octocat".to_string()),
    });
    assert!(matches!(action, AuthAction::Done));
    assert!(matches!(flow.session(), AuthSession::SignedIn { user: Some(u) } if u == "octocat"));
}

#[test]
fn maybe_ok_status_short_circuits() {
    let mut flow = AuthFlow::new();
    let action = flow.on_status_checked(CheckAuthStatusResult { status: Status::MaybeOk, user: None });
    assert!(matches!(action, AuthAction::Done));
}

#[test]
fn signed_out_status_starts_sign_in() {
    let mut flow = AuthFlow::new();
    assert!(matches!(flow.session(), AuthSession::Unknown));
    let action =
        flow.on_status_checked(CheckAuthStatusResult { status: Status::NotSignedIn, user: None });
    assert!(matches!(action, AuthAction::InitiateSignIn));
    assert!(matches!(flow.session(), AuthSession::SignedOut));
}

#[test]
fn missing_verification_uri_is_fatal() {
    let mut flow = AuthFlow::new();
    flow.on_status_checked(CheckAuthStatusResult { status: Status::NotSignedIn, user: None });
    let outcome = flow.on_sign_in_initiated(device_flow(Some("ABCD-1234"), None));
    assert!(matches!(outcome, Err(AuthError::MissingVerificationUri)));
    assert!(matches!(flow.session(), AuthSession::SignedOut));
}

#[test]
fn missing_user_code_is_fatal() {
    let mut flow = AuthFlow::new();
    let outcome =
        flow.on_sign_in_initiated(device_flow(None, Some("https://github.com/login/device")));
    assert!(matches!(outcome, Err(AuthError::MissingUserCode)));
}

#[test]
fn already_signed_in_ends_with_warning() {
    let mut flow = AuthFlow::new();
    let outcome = flow.on_sign_in_initiated(SignInInitiateResult {
        status: SignInStatus::AlreadySignedIn,
        user_code: None,
        verification_uri: None,
        expires_in: None,
        interval: None,
        user: Some("octocat".to_string()),
    });
    assert!(matches!(outcome, Ok(AuthAction::DoneAlreadySignedIn)));
    assert!(matches!(flow.session(), AuthSession::SignedIn { .. }));
}

#[test]
fn rejected_confirmation_is_an_error() {
    let mut flow = AuthFlow::new();
    flow.on_sign_in_initiated(device_flow(Some("ABCD-1234"), Some("https://github.com/login/device")))
        .unwrap();
    let outcome = flow.on_sign_in_confirmed(SignInConfirmResult {
        status: "NotAuthorized".to_string(),
        user: None,
    });
    assert!(matches!(outcome, Err(AuthError::SignInRejected { status }) if status == "NotAuthorized"));
    assert!(matches!(flow.session(), AuthSession::SignedOut));
}

#[test]
fn device_flow_end_to_end() {
    let handshake = editor_info_params("0.1.0".to_string());
    assert_eq!(handshake.editor_info.name, "Lapce");
    assert!(editor_info_acknowledged("OK"));

    let mut flow = AuthFlow::new();
    let action =
        flow.on_status_checked(CheckAuthStatusResult { status: Status::NotSignedIn, user: None });
    assert!(matches!(action, AuthAction::InitiateSignIn));

    let action = flow
        .on_sign_in_initiated(device_flow(Some("ABCD-1234"), Some("https://github.com/login/device")))
        .unwrap();
    match action {
        AuthAction::PromptUser { user_code, verification_uri } => {
            assert_eq!(user_code, "ABCD-1234");
            assert_eq!(verification_uri, "https://github.com/login/device");
            let browser = open_command("linux", &verification_uri).unwrap();
            assert_eq!(browser.program, "xdg-open");
            assert_eq!(browser.args, vec!["https://github.com/login/device".to_string()]);
        }
        other => panic!("expected a prompt, got {:?}", other),
    }
    match flow.session() {
        AuthSession::AwaitingUserDeviceCode { user_code, verification_uri, expires_in, interval } => {
            assert_eq!(user_code, "ABCD-1234");
            assert_eq!(verification_uri, "https://github.com/login/device");
            assert_eq!(*expires_in, Some(899));
            assert_eq!(*interval, Some(5));
        }
        other => panic!("expected to await the device code, got {:?}", other),
    }

    let action = flow
        .on_sign_in_confirmed(SignInConfirmResult {
            status: "OK".to_string(),
            user: Some("octocat".to_string()),
        })
        .unwrap();
    assert!(matches!(action, AuthAction::Done));
    assert!(matches!(flow.session(), AuthSession::SignedIn { user: Some(u) } if u == "octocat"));
}

#[test]
fn status_names() {
    assert!(status_name_is_ok("OK"));
    assert!(status_name_is_ok("MaybeOk"));
    assert!(!status_name_is_ok("ok"));
    assert!(!status_name_is_ok("NotSignedIn"));
    assert!(!status_name_is_ok(""));
}
