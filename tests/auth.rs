use spotic::auth::{
    authorization_code, callback_uri, callback_url, code_from_response, redirect_url,
    refreshed_tokens, request_target, resume_plan, scopes, AuthError, AuthFlow, FlowAction,
    FlowEvent, FlowPhase, ResumePlan, TokenSet, CALLBACK_SERVER_PORT,
};
use spotic::store::ClientCredentials;

fn tokens(refresh: Option<&str>, expires_at: Option<i64>) -> TokenSet {
    TokenSet {
        access_token: "access".to_string(),
        refresh_token: refresh.map(|s| s.to_string()),
        expires_at,
    }
}

#[test]
fn expired_tokens_with_refresh_are_refreshed_once() {
    let now = 1_700_000_000;
    match resume_plan(Some(tokens(Some("r"), Some(now - 60))), now) {
        ResumePlan::Refresh(t) => assert_eq!(t.refresh_token.as_deref(), Some("r")),
        _ => panic!("expected a refresh"),
    }
    let fresh = TokenSet {
        access_token: "new".to_string(),
        refresh_token: Some("r2".to_string()),
        expires_at: Some(now + 3600),
    };
    let held = refreshed_tokens(Some(fresh)).ok().unwrap();
    assert_eq!(held.access_token, "new");
    assert!(matches!(refreshed_tokens(None), Err(AuthError::Provider)));
}

#[test]
fn expired_tokens_without_refresh_reauthorize() {
    let now = 1_700_000_000;
    assert!(matches!(
        resume_plan(Some(tokens(None, Some(now - 1))), now),
        ResumePlan::Reauthorize
    ));
    assert!(matches!(resume_plan(None, now), ResumePlan::Reauthorize));
}

#[test]
fn valid_tokens_are_used() {
    let now = 1_700_000_000;
    assert!(matches!(
        resume_plan(Some(tokens(None, Some(now + 3600))), now),
        ResumePlan::Use(_)
    ));
    // within the ten-second margin counts as expired
    assert!(tokens(None, Some(now + 10)).is_expired(now));
    assert!(!tokens(None, Some(now + 11)).is_expired(now));
    assert!(tokens(None, None).is_expired(now));
    assert!(!tokens(None, Some(i64::MAX)).is_expired(i64::MAX - 11));
}

#[test]
fn callback_addresses() {
    assert_eq!(callback_uri(CALLBACK_SERVER_PORT), "http://localhost:8080/callback");
    assert_eq!(callback_url(0, "/x"), "http://localhost:0/x");
    assert_eq!(callback_url(65535, ""), "http://localhost:65535");
}

#[test]
fn required_scopes() {
    assert_eq!(
        scopes(),
        vec![
            "user-read-currently-playing".to_string(),
            "user-modify-playback-state".to_string(),
            "user-read-playback-state".to_string()
        ]
    );
}

#[test]
fn request_line_target() {
    let req = "GET /callback?code=ABC123&state=xyz HTTP/1.1\r\nHost: localhost:8080\r\n\r\n";
    assert_eq!(request_target(req), Some("/callback?code=ABC123&state=xyz".to_string()));
    assert_eq!(request_target("  GET   /a  "), Some("/a".to_string()));
    assert_eq!(request_target("GET\n/a"), None);
    assert_eq!(request_target(""), None);
}

#[test]
fn listener_request_to_url() {
    let req = b"GET /callback?code=ABC123&state=xyz HTTP/1.1\r\nHost: x\r\n\r\n";
    assert_eq!(
        redirect_url(req, 8080),
        Ok("http://localhost:8080/callback?code=ABC123&state=xyz".to_string())
    );
    assert_eq!(redirect_url(&[0xff, 0xfe], 8080), Err(AuthError::Listen));
    assert_eq!(redirect_url(b"GET", 8080), Err(AuthError::Listen));
}

fn client_with_state(state: &str) -> rspotify::AuthCodePkceSpotify {
    let oauth = rspotify::OAuth { state: state.to_string(), ..Default::default() };
    rspotify::AuthCodePkceSpotify::new(rspotify::Credentials::new_pkce("id"), oauth)
}

#[test]
fn code_is_taken_from_the_redirect() {
    let client = client_with_state("xyz");
    assert_eq!(
        authorization_code(&client, "http://localhost:8080/callback?code=ABC123&state=xyz"),
        Ok("ABC123".to_string())
    );
}

#[test]
fn redirect_without_code_is_invalid() {
    let client = client_with_state("xyz");
    assert_eq!(
        authorization_code(&client, "http://localhost:8080/callback?state=xyz"),
        Err(AuthError::InvalidCallback)
    );
    assert_eq!(code_from_response(None), Err(AuthError::InvalidCallback));
    assert_eq!(code_from_response(Some("c".to_string())), Ok("c".to_string()));
}

fn drive(flow: &mut AuthFlow, e: FlowEvent) -> FlowAction {
    assert!(flow.accepts_event(&e));
    flow.step(e)
}

#[test]
fn flow_with_listener_fallback() {
    let mut flow = AuthFlow::new();
    assert!(matches!(drive(&mut flow, FlowEvent::Begin), FlowAction::CollectIdentity));
    let id = ClientCredentials::new("client-1".to_string());
    assert!(matches!(
        drive(&mut flow, FlowEvent::IdentityCollected { identity: id }),
        FlowAction::PrepareStorage
    ));
    match drive(&mut flow, FlowEvent::Completed) {
        FlowAction::SaveIdentity { text } => assert_eq!(text, "{\"client_id\":\"client-1\"}"),
        _ => panic!("expected the identity to be saved"),
    }
    assert!(matches!(drive(&mut flow, FlowEvent::Completed), FlowAction::BuildAuthorizeUrl));
    match drive(&mut flow, FlowEvent::AuthorizeUrl { url: "https://auth/x".to_string() }) {
        FlowAction::OpenAndListen { url } => assert_eq!(url, "https://auth/x"),
        _ => panic!("expected to listen"),
    }
    assert!(matches!(drive(&mut flow, FlowEvent::ListenFailed), FlowAction::AskRedirectUrl));
    match drive(&mut flow, FlowEvent::Redirect { code: Ok("C".to_string()) }) {
        FlowAction::Exchange { code } => assert_eq!(code, "C"),
        _ => panic!("expected an exchange"),
    }
    assert!(matches!(drive(&mut flow, FlowEvent::Completed), FlowAction::SaveTokens));
    assert!(matches!(drive(&mut flow, FlowEvent::Completed), FlowAction::Finish));
    assert_eq!(flow.phase, FlowPhase::Ready);
}

#[test]
fn flow_failures_end_the_attempt() {
    let mut flow = AuthFlow::new();
    drive(&mut flow, FlowEvent::Begin);
    drive(
        &mut flow,
        FlowEvent::IdentityCollected { identity: ClientCredentials::new("c".to_string()) },
    );
    assert!(matches!(
        drive(&mut flow, FlowEvent::StepFailed(AuthError::Storage)),
        FlowAction::Fail(AuthError::Storage)
    ));
    assert_eq!(flow.phase, FlowPhase::Failed);
    assert!(!flow.accepts_event(&FlowEvent::Completed));
    assert!(!flow.accepts_event(&FlowEvent::ListenFailed));

    let mut flow = AuthFlow::new();
    drive(&mut flow, FlowEvent::Begin);
    drive(
        &mut flow,
        FlowEvent::IdentityCollected { identity: ClientCredentials::new("c".to_string()) },
    );
    drive(&mut flow, FlowEvent::Completed);
    drive(&mut flow, FlowEvent::Completed);
    drive(&mut flow, FlowEvent::AuthorizeUrl { url: "u".to_string() });
    assert!(matches!(
        drive(&mut flow, FlowEvent::Redirect { code: Err(AuthError::InvalidCallback) }),
        FlowAction::Fail(AuthError::InvalidCallback)
    ));
}
