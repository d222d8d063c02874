//! Authentication: from the credentials of a request to the identity it runs under.
//!
//! Verifying a credential may need a remote service. [`AuthN::authenticate`]
//! either decides at once or names the check to run; the caller runs it and
//! hands its answer to [`AuthN::access_token_verified`] or
//! [`AuthN::openid_validated`], which finish the decision.

use vstd::prelude::*;
use vstd::string::*;
use chrono::TimeZone;
use crate::credentials::{Credentials, CredentialsView};
use crate::error::{AuthError, AuthErrorView, result_view};
use crate::user::{Identity, UserDetails, UserDetailsView, UserInformation};

verus! {

/// The earliest whole-second timestamp that a UTC date can hold
/// (the start of the year -262143).
pub const MIN_UTC_TIMESTAMP: i64 = -8334601228800;

/// The latest whole-second timestamp that a UTC date can hold
/// (the last second of the year 262142).
pub const MAX_UTC_TIMESTAMP: i64 = 8210266876799;

/// Whether a number of seconds since the epoch names a representable instant.
pub open spec fn representable_timestamp(secs: int) -> bool {
    MIN_UTC_TIMESTAMP <= secs <= MAX_UTC_TIMESTAMP
}

/// Relies on chrono's `Utc.timestamp_opt(secs, 0)` (with `earliest` and
/// `DateTime::timestamp`): it yields a single instant exactly when the date
/// lies between the years `MIN_YEAR = (i32::MIN >> 13) + 1 = -262143` and
/// `MAX_YEAR = (i32::MAX >> 13) - 1 = 262142` of chrono's `naive::date`, that
/// is, between [`MIN_UTC_TIMESTAMP`] and [`MAX_UTC_TIMESTAMP`], and that
/// instant converts back to the same number of seconds.
#[verifier::external_body]
fn utc_timestamp(secs: i64) -> (r: Option<i64>)
    ensures
        r.is_some() == representable_timestamp(secs as int),
        r.is_some() ==> r.unwrap() == secs,
{
    match chrono::Utc.timestamp_opt(secs, 0).earliest() {
        Some(instant) => Some(instant.timestamp()),
        None => None,
    }
}

/// The instant until which an authentication holds, in seconds since the epoch.
#[derive(Clone, Copy, Debug, PartialEq, Eq, Structural)]
pub struct AuthenticatedUntil(pub i64);

/// The text of the error for an `exp` claim that names no instant.
pub open spec fn unrepresentable_message() -> Seq<char> {
    "Unable to convert timestamp"@
}

/// Convert an `exp` claim to the instant it names.
pub fn to_expiration(exp: i64) -> (r: Result<AuthenticatedUntil, AuthError>)
    ensures
        representable_timestamp(exp as int) ==> r == Ok::<_, AuthError>(AuthenticatedUntil(exp)),
        !representable_timestamp(exp as int) ==> result_view(r) == Err::<AuthenticatedUntil, _>(
            AuthErrorView::Internal(unrepresentable_message()),
        ),
{
    match utc_timestamp(exp) {
        Some(secs) => Ok(AuthenticatedUntil(secs)),
        None => Err(AuthError::Internal(String::from_str("Unable to convert timestamp"))),
    }
}

impl View for AuthenticatedUntil {
    type V = AuthenticatedUntil;

    open spec fn view(&self) -> AuthenticatedUntil {
        *self
    }
}

/// A successful authentication.
#[derive(Clone, Debug)]
pub struct Authentication {
    /// Who the request runs as.
    pub identity: UserInformation,
    /// When the credential expires, where it carries an expiration.
    pub until: Option<AuthenticatedUntil>,
}

/// The mathematical value of an [`Authentication`].
pub struct AuthenticationView {
    pub identity: Identity,
    pub until: Option<AuthenticatedUntil>,
}

impl View for Authentication {
    type V = AuthenticationView;

    open spec fn view(&self) -> AuthenticationView {
        AuthenticationView { identity: self.identity@, until: self.until }
    }
}

/// The anonymous outcome, which carries no expiration.
pub open spec fn anonymous() -> AuthenticationView {
    AuthenticationView { identity: Identity::Anonymous, until: None }
}

/// A personal access token to verify.
#[derive(Clone, Debug)]
pub struct AccessTokenRequest {
    pub user_id: String,
    pub access_token: String,
}

/// What the personal access token service knows of a token.
#[derive(Clone, Debug)]
pub enum AccessTokenOutcome {
    Known(UserDetails),
    Unknown,
}

/// The mathematical value of an [`AccessTokenOutcome`].
pub enum AccessTokenOutcomeView {
    Known(UserDetailsView),
    Unknown,
}

impl View for AccessTokenOutcome {
    type V = AccessTokenOutcomeView;

    open spec fn view(&self) -> AccessTokenOutcomeView {
        match self {
            AccessTokenOutcome::Known(d) => AccessTokenOutcomeView::Known(d@),
            AccessTokenOutcome::Unknown => AccessTokenOutcomeView::Unknown,
        }
    }
}

/// The claims of an OpenID token that passed validation.
///
/// Each role list holds the entries of one claim array; an entry that is not
/// a string is `None`, and a missing array is empty.
#[derive(Clone, Debug)]
pub struct TokenClaims {
    /// The `sub` claim.
    pub subject: String,
    /// The `exp` claim, in seconds since the epoch.
    pub expiration: i64,
    /// `realm_access.roles`.
    pub realm_roles: Vec<Option<String>>,
    /// `resource_access.services.roles`.
    pub services_roles: Vec<Option<String>>,
    /// `resource_access.drogue.roles`.
    pub drogue_roles: Vec<Option<String>>,
}

/// The entries of a claim array that are strings, in order.
pub open spec fn string_entries(s: Seq<Option<Seq<char>>>) -> Seq<Seq<char>>
    decreases s.len(),
{
    if s.len() == 0 {
        Seq::empty()
    } else {
        let rest = string_entries(s.drop_last());
        match s.last() {
            Some(v) => rest.push(v),
            None => rest,
        }
    }
}

/// The user that validated claims describe: the subject, with the realm roles
/// followed by the roles of the `services` and `drogue` clients.
pub open spec fn claims_user(c: TokenClaims) -> UserDetailsView {
    UserDetailsView {
        user_id: c.subject@,
        roles: string_entries(c.realm_roles.deep_view()) + string_entries(
            c.services_roles.deep_view(),
        ) + string_entries(c.drogue_roles.deep_view()),
    }
}

/// Append the string entries of a claim array to `roles`.
fn push_string_entries(roles: &mut Vec<String>, entries: &Vec<Option<String>>)
    ensures
        final(roles).deep_view() == old(roles).deep_view() + string_entries(entries.deep_view()),
{
    let ghost start = roles.deep_view();
    let mut i: usize = 0;
    while i < entries.len()
        invariant
            0 <= i <= entries.len(),
            roles.deep_view() == start + string_entries(entries.deep_view().take(i as int)),
        decreases entries.len() - i,
    {
        let ghost before = roles.deep_view();
        match &entries[i] {
            Some(v) => {
                roles.push(v.clone());
                assert(roles.deep_view() =~= before.push(v@));
            },
            None => {},
        }
        assert(entries.deep_view().take(i + 1).drop_last() =~= entries.deep_view().take(i as int));
        i = i + 1;
    }
    assert(entries.deep_view().take(entries.len() as int) =~= entries.deep_view());
}

impl TokenClaims {
    /// The user that these claims describe.
    pub fn user_details(&self) -> (r: UserDetails)
        ensures
            r@ == claims_user(*self),
    {
        let mut roles: Vec<String> = Vec::new();
        push_string_entries(&mut roles, &self.realm_roles);
        push_string_entries(&mut roles, &self.services_roles);
        push_string_entries(&mut roles, &self.drogue_roles);
        proof {
            assert(Seq::<Seq<char>>::empty() + string_entries(self.realm_roles.deep_view())
                =~= string_entries(self.realm_roles.deep_view()));
        }
        UserDetails { user_id: self.subject.clone(), roles }
    }
}

/// How requests are authenticated.
#[derive(Clone, Copy, Debug, PartialEq, Eq, Structural)]
pub enum AuthN {
    /// Authentication is off: every request is anonymous.
    Disabled,
    /// Authentication is on, with the verifiers that are configured.
    Enabled {
        /// Whether an OpenID token validator is configured.
        openid: bool,
        /// Whether a personal access token service is configured.
        token: bool,
    },
}

/// The next step of authenticating a request.
#[derive(Debug)]
pub enum AuthStep {
    /// The outcome is decided.
    Done(Result<Authentication, AuthError>),
    /// Verify this personal access token, and pass the answer to
    /// [`AuthN::access_token_verified`].
    VerifyAccessToken(AccessTokenRequest),
    /// Validate this OpenID token, and pass its claims to
    /// [`AuthN::openid_validated`].
    ValidateOpenIdToken(String),
}

/// The mathematical value of an [`AuthStep`].
pub enum AuthStepView {
    Done(Result<AuthenticationView, AuthErrorView>),
    VerifyAccessToken { user_id: Seq<char>, access_token: Seq<char> },
    ValidateOpenIdToken(Seq<char>),
}

impl View for AuthStep {
    type V = AuthStepView;

    open spec fn view(&self) -> AuthStepView {
        match self {
            AuthStep::Done(r) => AuthStepView::Done(result_view(*r)),
            AuthStep::VerifyAccessToken(req) => AuthStepView::VerifyAccessToken {
                user_id: req.user_id@,
                access_token: req.access_token@,
            },
            AuthStep::ValidateOpenIdToken(t) => AuthStepView::ValidateOpenIdToken(t@),
        }
    }
}

/// The error text when no personal access token service is configured.
pub open spec fn access_token_disabled_message() -> Seq<char> {
    "Access token authentication disabled"@
}

/// The error text when an access token credential carries no token.
pub open spec fn missing_access_token_message() -> Seq<char> {
    "No access token provided."@
}

/// The error text when no OpenID validator is configured.
pub open spec fn openid_disabled_message() -> Seq<char> {
    "Open ID authentication disabled"@
}

/// Whether an access token credential lacks a usable token.
pub open spec fn token_missing(t: Option<Seq<char>>) -> bool {
    t is None || t.unwrap().len() == 0
}

/// The first step of authenticating a request with the given credentials.
pub open spec fn authn_step(a: AuthN, c: CredentialsView) -> AuthStepView {
    match a {
        AuthN::Disabled => AuthStepView::Done(Ok(anonymous())),
        AuthN::Enabled { openid, token } => match c {
            CredentialsView::AccessToken { username, access_token } => {
                if !token {
                    AuthStepView::Done(
                        Err(AuthErrorView::InvalidRequest(access_token_disabled_message())),
                    )
                } else if token_missing(access_token) {
                    AuthStepView::Done(
                        Err(AuthErrorView::InvalidRequest(missing_access_token_message())),
                    )
                } else {
                    AuthStepView::VerifyAccessToken {
                        user_id: username,
                        access_token: access_token.unwrap(),
                    }
                }
            },
            CredentialsView::OpenIDToken(t) => {
                if !openid {
                    AuthStepView::Done(Err(AuthErrorView::InvalidRequest(openid_disabled_message())))
                } else {
                    AuthStepView::ValidateOpenIdToken(t)
                }
            },
            CredentialsView::Anonymous => AuthStepView::Done(Ok(anonymous())),
        },
    }
}

/// The outcome of authentication once the access token service answered;
/// `Err` carries the text of a failure to reach the service.
pub open spec fn access_token_outcome(
    answer: Result<AccessTokenOutcomeView, Seq<char>>,
) -> Result<AuthenticationView, AuthErrorView> {
    match answer {
        Ok(AccessTokenOutcomeView::Known(d)) => Ok(
            AuthenticationView { identity: Identity::Authenticated(d), until: None },
        ),
        Ok(AccessTokenOutcomeView::Unknown) => Err(AuthErrorView::Forbidden),
        Err(m) => Err(AuthErrorView::Internal(m)),
    }
}

/// The outcome of authentication once the OpenID token was validated
/// (`Some` with its claims) or rejected (`None`).
pub open spec fn openid_outcome(claims: Option<TokenClaims>) -> Result<
    AuthenticationView,
    AuthErrorView,
> {
    match claims {
        None => Err(AuthErrorView::Forbidden),
        Some(c) => if representable_timestamp(c.expiration as int) {
            Ok(
                AuthenticationView {
                    identity: Identity::Authenticated(claims_user(c)),
                    until: Some(AuthenticatedUntil(c.expiration)),
                },
            )
        } else {
            Err(AuthErrorView::Internal(unrepresentable_message()))
        },
    }
}

impl AuthN {
    /// Authentication with the verifiers that are configured; with none at
    /// all, authentication is disabled.
    pub fn from_verifiers(openid: bool, token: bool) -> (r: AuthN)
        ensures
            r == (if openid || token {
                AuthN::Enabled { openid, token }
            } else {
                AuthN::Disabled
            }),
    {
        if openid || token {
            AuthN::Enabled { openid, token }
        } else {
            AuthN::Disabled
        }
    }

    /// Start authenticating a request that presents `credentials`.
    pub fn authenticate(&self, credentials: Credentials) -> (r: AuthStep)
        ensures
            r@ == authn_step(*self, credentials@),
            *self is Disabled ==> r@ == AuthStepView::Done(Ok(anonymous())),
            (credentials matches Credentials::AccessToken(c) && token_missing(
                c.access_token.deep_view(),
            ) && *self is Enabled) ==> r matches AuthStep::Done(Err(AuthError::InvalidRequest(_))),
    {
        match self {
            AuthN::Disabled => AuthStep::Done(
                Ok(Authentication { identity: UserInformation::Anonymous, until: None }),
            ),
            AuthN::Enabled { openid, token } => match credentials {
                Credentials::AccessToken(creds) => {
                    if !*token {
                        AuthStep::Done(
                            Err(
                                AuthError::InvalidRequest(
                                    String::from_str("Access token authentication disabled"),
                                ),
                            ),
                        )
                    } else {
                        match creds.access_token {
                            Some(access_token) => {
                                if access_token.as_str().is_empty() {
                                    AuthStep::Done(
                                        Err(
                                            AuthError::InvalidRequest(
                                                String::from_str("No access token provided."),
                                            ),
                                        ),
                                    )
                                } else {
                                    AuthStep::VerifyAccessToken(
                                        AccessTokenRequest { user_id: creds.username, access_token },
                                    )
                                }
                            },
                            None => AuthStep::Done(
                                Err(
                                    AuthError::InvalidRequest(
                                        String::from_str("No access token provided."),
                                    ),
                                ),
                            ),
                        }
                    }
                },
                Credentials::OpenIDToken(token) => {
                    if *openid {
                        AuthStep::ValidateOpenIdToken(token)
                    } else {
                        AuthStep::Done(
                            Err(
                                AuthError::InvalidRequest(
                                    String::from_str("Open ID authentication disabled"),
                                ),
                            ),
                        )
                    }
                },
                Credentials::Anonymous => AuthStep::Done(
                    Ok(Authentication { identity: UserInformation::Anonymous, until: None }),
                ),
            },
        }
    }

    /// Finish authentication with the answer of the access token service:
    /// `Err` carries the text of a failure to reach it.
    pub fn access_token_verified(answer: Result<AccessTokenOutcome, String>) -> (r: Result<
        Authentication,
        AuthError,
    >)
        ensures
            result_view(r) == access_token_outcome(
                match answer {
                    Ok(o) => Ok(o@),
                    Err(m) => Err(m@),
                },
            ),
            answer matches Ok(AccessTokenOutcome::Known(_)) ==> (r matches Ok(a)
                && a.identity is Authenticated && a.until is None),
            answer matches Ok(AccessTokenOutcome::Unknown) ==> r matches Err(AuthError::Forbidden),
    {
        match answer {
            Ok(AccessTokenOutcome::Known(details)) => Ok(
                Authentication { identity: UserInformation::Authenticated(details), until: None },
            ),
            Ok(AccessTokenOutcome::Unknown) => Err(AuthError::Forbidden),
            Err(message) => Err(AuthError::Internal(message)),
        }
    }

    /// Finish authentication with the claims of a validated OpenID token, or
    /// `None` where validation rejected it.
    pub fn openid_validated(claims: Option<TokenClaims>) -> (r: Result<Authentication, AuthError>)
        ensures
            result_view(r) == openid_outcome(claims),
            claims is None ==> r matches Err(AuthError::Forbidden),
            claims is Some && representable_timestamp(claims.unwrap().expiration as int) ==> (r matches Ok(
                a,
            ) && a.until == Some(AuthenticatedUntil(claims.unwrap().expiration))),
    {
        match claims {
            None => Err(AuthError::Forbidden),
            Some(c) => {
                let details = c.user_details();
                match to_expiration(c.expiration) {
                    Ok(until) => Ok(
                        Authentication {
                            identity: UserInformation::Authenticated(details),
                            until: Some(until),
                        },
                    ),
                    Err(e) => Err(e),
                }
            },
        }
    }
}

} // verus!
