//! The game session and the decisions of the sign-in sequence.
//!
//! Signing in is a chain of exchanges with identity services. Each exchange
//! is made by the caller; [`AuthFlow`] says which comes next and what goes
//! into it, and takes in what came back.

use vstd::prelude::*;
use vstd::string::*;
use crate::error::Failure;

verus! {

/// The application id under which the launcher signs in.
pub const CLIENT_ID: &'static str = "c1e288f4-4793-4bfd-bb9e-e3ea3e14218e";

/// What the launcher asks access to when it signs in.
pub const SCOPE: &'static str = "XboxLive.signin offline_access";

/// The grant type of a refresh.
pub const GRANT_REFRESH: &'static str = "refresh_token";

/// The grant type of a poll for a device code.
pub const GRANT_DEVICE_CODE: &'static str = "urn:ietf:params:oauth:grant-type:device_code";

/// The seconds between two polls for the user's authorisation.
pub const POLL_DELAY_SECS: u64 = 3;

/// The public profile of a signed-in player: what the launch needs.
#[derive(Debug)]
pub struct AuthResult {
    pub access_token: String,
    pub uuid: String,
    pub username: String,
}

/// The mathematical value of an [`AuthResult`].
pub struct ProfileView {
    pub access_token: Seq<char>,
    pub uuid: Seq<char>,
    pub username: Seq<char>,
}

impl View for AuthResult {
    type V = ProfileView;

    open spec fn view(&self) -> ProfileView {
        ProfileView {
            access_token: self.access_token@,
            uuid: self.uuid@,
            username: self.username@,
        }
    }
}

impl Clone for AuthResult {
    fn clone(&self) -> (copy: Self)
        ensures
            copy@ == self@,
    {
        AuthResult {
            access_token: self.access_token.clone(),
            uuid: self.uuid.clone(),
            username: self.username.clone(),
        }
    }
}

/// A finished sign-in.
#[derive(Debug)]
pub struct Authenticator {
    pub profile: AuthResult,
}

impl Authenticator {
    /// The sign-in that ended with `profile`.
    pub fn new(profile: AuthResult) -> (auth: Self)
        ensures
            auth.profile == profile,
    {
        Authenticator { profile }
    }
}

/// Why a sign-in ended without a session.
#[derive(Clone, Copy, Debug, PartialEq, Eq, Structural)]
pub enum AuthError {
    /// An exchange failed.
    Failed(Failure),
    /// Something was reported that the sign-in was not waiting for.
    Unexpected,
}

/// The exchange that the caller has to make next.
#[derive(Debug)]
pub enum AuthRequest {
    /// Trade the saved refresh token for a new token record, and store the
    /// record. Answered by `Token`.
    Refresh { refresh_token: String },
    /// Ask for a device code, and show the user what to do with it.
    /// Answered by `DeviceCode`.
    DeviceCode,
    /// Wait `delay_secs`, then ask whether the user has authorised
    /// `device_code`. Answered by `Pending` as long as the answer is not a
    /// success, and then by `Token`, after the record was stored.
    Poll { device_code: String, delay_secs: u64 },
    /// Sign in to the console network with this ticket. Answered by
    /// `XboxToken`.
    XboxLogin { rps_ticket: String },
    /// Trade the console token for one that the game's services take.
    /// Answered by `XstsToken`.
    XstsAuthorize { user_token: String },
    /// Sign in to the game's services with this identity token. Answered by
    /// `MinecraftToken`.
    MinecraftLogin { identity_token: String },
    /// Fetch the player's profile, authorised by this bearer token.
    /// Answered by `Profile`.
    FetchProfile { bearer: String },
    /// Store the public profile record. Answered by `Stored`.
    StoreProfile { profile: AuthResult },
    /// Nothing: the sign-in is over, with this result.
    Finish(Result<AuthResult, AuthError>),
}

/// The mathematical value of an [`AuthRequest`].
pub enum AuthRequestView {
    Refresh { refresh_token: Seq<char> },
    DeviceCode,
    Poll { device_code: Seq<char>, delay_secs: u64 },
    XboxLogin { rps_ticket: Seq<char> },
    XstsAuthorize { user_token: Seq<char> },
    MinecraftLogin { identity_token: Seq<char> },
    FetchProfile { bearer: Seq<char> },
    StoreProfile { profile: ProfileView },
    Finish(Result<ProfileView, AuthError>),
}

impl View for AuthRequest {
    type V = AuthRequestView;

    open spec fn view(&self) -> AuthRequestView {
        match self {
            AuthRequest::Refresh { refresh_token } => AuthRequestView::Refresh {
                refresh_token: refresh_token@,
            },
            AuthRequest::DeviceCode => AuthRequestView::DeviceCode,
            AuthRequest::Poll { device_code, delay_secs } => AuthRequestView::Poll {
                device_code: device_code@,
                delay_secs: *delay_secs,
            },
            AuthRequest::XboxLogin { rps_ticket } => AuthRequestView::XboxLogin {
                rps_ticket: rps_ticket@,
            },
            AuthRequest::XstsAuthorize { user_token } => AuthRequestView::XstsAuthorize {
                user_token: user_token@,
            },
            AuthRequest::MinecraftLogin { identity_token } => AuthRequestView::MinecraftLogin {
                identity_token: identity_token@,
            },
            AuthRequest::FetchProfile { bearer } => AuthRequestView::FetchProfile {
                bearer: bearer@,
            },
            AuthRequest::StoreProfile { profile } => AuthRequestView::StoreProfile {
                profile: profile@,
            },
            AuthRequest::Finish(result) => AuthRequestView::Finish(
                match result {
                    Ok(profile) => Ok(profile@),
                    Err(e) => Err(*e),
                },
            ),
        }
    }
}

/// What came back from an exchange.
#[derive(Debug)]
pub enum AuthEvent {
    /// The exchange failed.
    Failed(Failure),
    /// A device code was issued.
    DeviceCode { device_code: String },
    /// The user has not authorised the device code yet.
    Pending,
    /// A token record was granted and stored.
    Token { access_token: String },
    /// The console network signed the user in.
    XboxToken { token: String },
    /// The console token was traded in; `user_hash` names the user.
    XstsToken { token: String, user_hash: String },
    /// The game's services signed the user in.
    MinecraftToken { access_token: String },
    /// The player's profile.
    Profile { id: String, name: String },
    /// The profile record was stored.
    Stored,
}

/// The mathematical value of an [`AuthEvent`].
pub enum AuthEventView {
    Failed(Failure),
    DeviceCode { device_code: Seq<char> },
    Pending,
    Token { access_token: Seq<char> },
    XboxToken { token: Seq<char> },
    XstsToken { token: Seq<char>, user_hash: Seq<char> },
    MinecraftToken { access_token: Seq<char> },
    Profile { id: Seq<char>, name: Seq<char> },
    Stored,
}

impl View for AuthEvent {
    type V = AuthEventView;

    open spec fn view(&self) -> AuthEventView {
        match self {
            AuthEvent::Failed(failure) => AuthEventView::Failed(*failure),
            AuthEvent::DeviceCode { device_code } => AuthEventView::DeviceCode {
                device_code: device_code@,
            },
            AuthEvent::Pending => AuthEventView::Pending,
            AuthEvent::Token { access_token } => AuthEventView::Token {
                access_token: access_token@,
            },
            AuthEvent::XboxToken { token } => AuthEventView::XboxToken { token: token@ },
            AuthEvent::XstsToken { token, user_hash } => AuthEventView::XstsToken {
                token: token@,
                user_hash: user_hash@,
            },
            AuthEvent::MinecraftToken { access_token } => AuthEventView::MinecraftToken {
                access_token: access_token@,
            },
            AuthEvent::Profile { id, name } => AuthEventView::Profile { id: id@, name: name@ },
            AuthEvent::Stored => AuthEventView::Stored,
        }
    }
}

/// Where a sign-in stands: the exchange whose answer it waits for, with what
/// it has to remember.
pub enum AuthFlow {
    Refreshing,
    RequestingCode,
    Polling { device_code: String },
    SigningInXbox,
    Authorizing,
    SigningInMinecraft,
    FetchingProfile { access_token: String },
    StoringProfile { profile: AuthResult },
    Over,
}

/// The mathematical value of an [`AuthFlow`].
pub enum AuthFlowView {
    Refreshing,
    RequestingCode,
    Polling { device_code: Seq<char> },
    SigningInXbox,
    Authorizing,
    SigningInMinecraft,
    FetchingProfile { access_token: Seq<char> },
    StoringProfile { profile: ProfileView },
    Over,
}

impl View for AuthFlow {
    type V = AuthFlowView;

    open spec fn view(&self) -> AuthFlowView {
        match self {
            AuthFlow::Refreshing => AuthFlowView::Refreshing,
            AuthFlow::RequestingCode => AuthFlowView::RequestingCode,
            AuthFlow::Polling { device_code } => AuthFlowView::Polling {
                device_code: device_code@,
            },
            AuthFlow::SigningInXbox => AuthFlowView::SigningInXbox,
            AuthFlow::Authorizing => AuthFlowView::Authorizing,
            AuthFlow::SigningInMinecraft => AuthFlowView::SigningInMinecraft,
            AuthFlow::FetchingProfile { access_token } => AuthFlowView::FetchingProfile {
                access_token: access_token@,
            },
            AuthFlow::StoringProfile { profile } => AuthFlowView::StoringProfile {
                profile: profile@,
            },
            AuthFlow::Over => AuthFlowView::Over,
        }
    }
}

/// The ticket that signs a token of the user's account in to the console
/// network.
pub open spec fn rps_ticket(access_token: Seq<char>) -> Seq<char> {
    "d="@ + access_token
}

/// The identity token that the game's services take.
pub open spec fn identity_token(user_hash: Seq<char>, xsts_token: Seq<char>) -> Seq<char> {
    "XBL3.0 x="@ + user_hash + ";"@ + xsts_token
}

/// How a sign-in starts: with a refresh where a token was saved by an
/// earlier run, and with a request for a device code otherwise.
pub open spec fn auth_start(saved: Option<Seq<char>>) -> (AuthFlowView, AuthRequestView) {
    match saved {
        Some(refresh_token) => (
            AuthFlowView::Refreshing,
            AuthRequestView::Refresh { refresh_token },
        ),
        None => (AuthFlowView::RequestingCode, AuthRequestView::DeviceCode),
    }
}

/// The sign-in after `event`, and the exchange that comes next. A failed
/// exchange ends the sign-in with its failure; so does an event that the
/// sign-in was not waiting for, as unexpected. While the user has not
/// authorised the device code, the poll is repeated after the same delay.
pub open spec fn auth_step(flow: AuthFlowView, event: AuthEventView) -> (
    AuthFlowView,
    AuthRequestView,
) {
    let xbox = |access_token: Seq<char>|
        (
            AuthFlowView::SigningInXbox,
            AuthRequestView::XboxLogin { rps_ticket: rps_ticket(access_token) },
        );
    match (flow, event) {
        (AuthFlowView::Over, _) => (
            AuthFlowView::Over,
            AuthRequestView::Finish(Err(AuthError::Unexpected)),
        ),
        (_, AuthEventView::Failed(failure)) => (
            AuthFlowView::Over,
            AuthRequestView::Finish(Err(AuthError::Failed(failure))),
        ),
        (AuthFlowView::Refreshing, AuthEventView::Token { access_token }) => xbox(access_token),
        (AuthFlowView::RequestingCode, AuthEventView::DeviceCode { device_code }) => (
            AuthFlowView::Polling { device_code },
            AuthRequestView::Poll { device_code, delay_secs: POLL_DELAY_SECS },
        ),
        (AuthFlowView::Polling { device_code }, AuthEventView::Pending) => (
            AuthFlowView::Polling { device_code },
            AuthRequestView::Poll { device_code, delay_secs: POLL_DELAY_SECS },
        ),
        (AuthFlowView::Polling { device_code }, AuthEventView::Token { access_token }) => xbox(
            access_token,
        ),
        (AuthFlowView::SigningInXbox, AuthEventView::XboxToken { token }) => (
            AuthFlowView::Authorizing,
            AuthRequestView::XstsAuthorize { user_token: token },
        ),
        (AuthFlowView::Authorizing, AuthEventView::XstsToken { token, user_hash }) => (
            AuthFlowView::SigningInMinecraft,
            AuthRequestView::MinecraftLogin { identity_token: identity_token(user_hash, token) },
        ),
        (AuthFlowView::SigningInMinecraft, AuthEventView::MinecraftToken { access_token }) => (
            AuthFlowView::FetchingProfile { access_token },
            AuthRequestView::FetchProfile { bearer: access_token },
        ),
        (AuthFlowView::FetchingProfile { access_token }, AuthEventView::Profile { id, name }) => {
            let profile = ProfileView { access_token, uuid: id, username: name };
            (AuthFlowView::StoringProfile { profile }, AuthRequestView::StoreProfile { profile })
        },
        (AuthFlowView::StoringProfile { profile }, AuthEventView::Stored) => (
            AuthFlowView::Over,
            AuthRequestView::Finish(Ok(profile)),
        ),
        _ => (AuthFlowView::Over, AuthRequestView::Finish(Err(AuthError::Unexpected))),
    }
}

/// The request that signs `access_token` in to the console network.
fn xbox_login(access_token: String) -> (next: (AuthFlow, AuthRequest))
    ensures
        next.0@ == AuthFlowView::SigningInXbox,
        next.1@ == (AuthRequestView::XboxLogin { rps_ticket: rps_ticket(access_token@) }),
{
    let ticket = String::from_str("d=").concat(access_token.as_str());
    (AuthFlow::SigningInXbox, AuthRequest::XboxLogin { rps_ticket: ticket })
}

/// The end of a sign-in that got what it was not waiting for.
fn unexpected() -> (next: (AuthFlow, AuthRequest))
    ensures
        next.0@ == AuthFlowView::Over,
        next.1@ == AuthRequestView::Finish(Err(AuthError::Unexpected)),
{
    (AuthFlow::Over, AuthRequest::Finish(Err(AuthError::Unexpected)))
}

/// Starts a sign-in. `saved` is the refresh token that an earlier run
/// stored, if there is one.
pub fn authenticate(saved: Option<String>) -> (next: (AuthFlow, AuthRequest))
    ensures
        (next.0@, next.1@) == auth_start(
            match saved {
                Some(token) => Some(token@),
                None => None,
            },
        ),
{
    match saved {
        Some(refresh_token) => (AuthFlow::Refreshing, AuthRequest::Refresh { refresh_token }),
        None => (AuthFlow::RequestingCode, AuthRequest::DeviceCode),
    }
}

impl AuthFlow {
    /// Takes in what came back from the pending exchange and says which
    /// exchange comes next.
    pub fn step(self, event: AuthEvent) -> (next: (AuthFlow, AuthRequest))
        ensures
            (next.0@, next.1@) == auth_step(self@, event@),
    {
        match self {
            AuthFlow::Over => unexpected(),
            flow => match event {
                AuthEvent::Failed(failure) => (
                    AuthFlow::Over,
                    AuthRequest::Finish(Err(AuthError::Failed(failure))),
                ),
                event => match (flow, event) {
                    (AuthFlow::Refreshing, AuthEvent::Token { access_token }) => xbox_login(
                        access_token,
                    ),
                    (AuthFlow::RequestingCode, AuthEvent::DeviceCode { device_code }) => {
                        let again = device_code.clone();
                        (
                            AuthFlow::Polling { device_code },
                            AuthRequest::Poll { device_code: again, delay_secs: POLL_DELAY_SECS },
                        )
                    },
                    (AuthFlow::Polling { device_code }, AuthEvent::Pending) => {
                        let again = device_code.clone();
                        (
                            AuthFlow::Polling { device_code },
                            AuthRequest::Poll { device_code: again, delay_secs: POLL_DELAY_SECS },
                        )
                    },
                    (AuthFlow::Polling { device_code: _ }, AuthEvent::Token { access_token }) => {
                        xbox_login(access_token)
                    },
                    (AuthFlow::SigningInXbox, AuthEvent::XboxToken { token }) => (
                        AuthFlow::Authorizing,
                        AuthRequest::XstsAuthorize { user_token: token },
                    ),
                    (AuthFlow::Authorizing, AuthEvent::XstsToken { token, user_hash }) => {
                        let identity = String::from_str("XBL3.0 x=").concat(
                            user_hash.as_str(),
                        ).concat(";").concat(token.as_str());
                        (
                            AuthFlow::SigningInMinecraft,
                            AuthRequest::MinecraftLogin { identity_token: identity },
                        )
                    },
                    (AuthFlow::SigningInMinecraft, AuthEvent::MinecraftToken { access_token }) => {
                        let bearer = access_token.clone();
                        (
                            AuthFlow::FetchingProfile { access_token },
                            AuthRequest::FetchProfile { bearer },
                        )
                    },
                    (AuthFlow::FetchingProfile { access_token }, AuthEvent::Profile { id, name }) => {
                        let profile = AuthResult { access_token, uuid: id, username: name };
                        let record = profile.clone();
                        (
                            AuthFlow::StoringProfile { profile },
                            AuthRequest::StoreProfile { profile: record },
                        )
                    },
                    (AuthFlow::StoringProfile { profile }, AuthEvent::Stored) => (
                        AuthFlow::Over,
                        AuthRequest::Finish(Ok(profile)),
                    ),
                    _ => unexpected(),
                },
            },
        }
    }
}

} // verus!
