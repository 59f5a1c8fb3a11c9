use pblm_launcher::authenticator::{
    authenticate, AuthError, AuthEvent, AuthFlow, AuthRequest, CLIENT_ID, GRANT_DEVICE_CODE,
    GRANT_REFRESH, POLL_DELAY_SECS, SCOPE,
};
use pblm_launcher::error::Failure;

fn finish_sign_in(flow: AuthFlow) {
    let (flow, request) = flow.step(AuthEvent::XboxToken { token: "xbox".to_string() });
    assert!(matches!(request, AuthRequest::XstsAuthorize { ref user_token } if user_token == "xbox"));
    let (flow, request) =
        flow.step(AuthEvent::XstsToken { token: "xsts".to_string(), user_hash: "uhs".to_string() });
    assert!(matches!(
        request,
        AuthRequest::MinecraftLogin { ref identity_token } if identity_token == "XBL3.0 x=uhs;xsts"
    ));
    let (flow, request) = flow.step(AuthEvent::MinecraftToken { access_token: "mc".to_string() });
    assert!(matches!(request, AuthRequest::FetchProfile { ref bearer } if bearer == "mc"));
    let (flow, request) =
        flow.step(AuthEvent::Profile { id: "id-1".to_string(), name: "Steve".to_string() });
    match request {
        AuthRequest::StoreProfile { profile } => {
            assert_eq!(profile.access_token, "mc");
            assert_eq!(profile.uuid, "id-1");
            assert_eq!(profile.username, "Steve");
        }
        _ => panic!("profile is not stored"),
    }
    let (flow, request) = flow.step(AuthEvent::Stored);
    match request {
        AuthRequest::Finish(Ok(profile)) => {
            assert_eq!(profile.access_token, "mc");
            assert_eq!(profile.uuid, "id-1");
            assert_eq!(profile.username, "Steve");
        }
        _ => panic!("sign-in did not finish"),
    }
    assert!(matches!(flow, AuthFlow::Over));
    let (_, request) = flow.step(AuthEvent::Stored);
    assert!(matches!(request, AuthRequest::Finish(Err(AuthError::Unexpected))));
}

#[test]
fn saved_token_is_refreshed() {
    let (flow, request) = authenticate(Some("refresh-1".to_string()));
    assert!(matches!(request, AuthRequest::Refresh { ref refresh_token } if refresh_token == "refresh-1"));
    let (flow, request) = flow.step(AuthEvent::Token { access_token: "ms".to_string() });
    assert!(matches!(request, AuthRequest::XboxLogin { ref rps_ticket } if rps_ticket == "d=ms"));
    finish_sign_in(flow);
}

#[test]
fn device_code_is_polled_until_authorised() {
    let (flow, request) = authenticate(None);
    assert!(matches!(request, AuthRequest::DeviceCode));
    let (mut flow, request) = flow.step(AuthEvent::DeviceCode { device_code: "dev-1".to_string() });
    assert!(matches!(
        request,
        AuthRequest::Poll { ref device_code, delay_secs: 3 } if device_code == "dev-1"
    ));
    for _ in 0..5 {
        let (next, request) = flow.step(AuthEvent::Pending);
        assert!(matches!(
            request,
            AuthRequest::Poll { ref device_code, delay_secs } if device_code == "dev-1" && delay_secs == POLL_DELAY_SECS
        ));
        flow = next;
    }
    let (flow, request) = flow.step(AuthEvent::Token { access_token: "ms-2".to_string() });
    assert!(matches!(request, AuthRequest::XboxLogin { ref rps_ticket } if rps_ticket == "d=ms-2"));
    finish_sign_in(flow);
}

#[test]
fn failed_exchange_ends_the_sign_in() {
    let (flow, _) = authenticate(None);
    let (flow, request) = flow.step(AuthEvent::Failed(Failure::Network));
    assert!(matches!(request, AuthRequest::Finish(Err(AuthError::Failed(Failure::Network)))));
    assert!(matches!(flow, AuthFlow::Over));
    let (flow, _) = authenticate(Some("r".to_string()));
    let (flow, _) = flow.step(AuthEvent::Token { access_token: "ms".to_string() });
    let (_, request) = flow.step(AuthEvent::Failed(Failure::Decode));
    assert!(matches!(request, AuthRequest::Finish(Err(AuthError::Failed(Failure::Decode)))));
}

#[test]
fn unexpected_event_ends_the_sign_in() {
    let (flow, _) = authenticate(None);
    let (flow, request) = flow.step(AuthEvent::Pending);
    assert!(matches!(request, AuthRequest::Finish(Err(AuthError::Unexpected))));
    assert!(matches!(flow, AuthFlow::Over));
    let (flow, _) = authenticate(Some("r".to_string()));
    let (_, request) = flow.step(AuthEvent::DeviceCode { device_code: "d".to_string() });
    assert!(matches!(request, AuthRequest::Finish(Err(AuthError::Unexpected))));
}

#[test]
fn sign_in_constants() {
    assert_eq!(CLIENT_ID, "c1e288f4-4793-4bfd-bb9e-e3ea3e14218e");
    assert_eq!(SCOPE, "XboxLive.signin offline_access");
    assert_eq!(GRANT_REFRESH, "refresh_token");
    assert_eq!(GRANT_DEVICE_CODE, "urn:ietf:params:oauth:grant-type:device_code");
    assert_eq!(POLL_DELAY_SECS, 3);
}
