//! Classifying the credentials that a request presents.

use vstd::prelude::*;
use vstd::string::*;
use crate::error::{AuthError, AuthErrorView, result_view};

verus! {

/// A user name with a personal access token.
#[derive(Clone, Debug)]
pub struct UsernameAndToken {
    pub username: String,
    pub access_token: Option<String>,
}

/// The credentials of a request.
#[derive(Clone, Debug)]
pub enum Credentials {
    /// An OpenID token.
    OpenIDToken(String),
    /// A user name and a personal access token.
    AccessToken(UsernameAndToken),
    /// No credentials at all.
    Anonymous,
}

/// The mathematical value of [`Credentials`].
pub enum CredentialsView {
    OpenIDToken(Seq<char>),
    AccessToken { username: Seq<char>, access_token: Option<Seq<char>> },
    Anonymous,
}

impl View for Credentials {
    type V = CredentialsView;

    open spec fn view(&self) -> CredentialsView {
        match self {
            Credentials::OpenIDToken(t) => CredentialsView::OpenIDToken(t@),
            Credentials::AccessToken(c) => CredentialsView::AccessToken {
                username: c.username@,
                access_token: c.access_token.deep_view(),
            },
            Credentials::Anonymous => CredentialsView::Anonymous,
        }
    }
}

/// The user name and password of a `Basic` authorization header.
#[derive(Clone, Debug)]
pub struct BasicCredentials {
    pub user_id: String,
    pub password: Option<String>,
}

/// The `username` and `api_key` query parameters.
#[derive(Clone, Debug)]
pub struct ApiKey {
    pub username: String,
    pub api_key: String,
}

/// What a request offers for authentication, one entry per source.
///
/// A source whose value is malformed is recorded as absent.
#[derive(Clone, Debug)]
pub struct CredentialSources {
    /// The `Authorization: Basic` header.
    pub basic: Option<BasicCredentials>,
    /// The `Authorization: Bearer` header.
    pub bearer: Option<String>,
    /// The `token` query parameter.
    pub token: Option<String>,
    /// The `username` and `api_key` query parameters.
    pub api_key: Option<ApiKey>,
}

/// The mathematical value of [`CredentialSources`].
pub struct CredentialSourcesView {
    pub basic: Option<(Seq<char>, Option<Seq<char>>)>,
    pub bearer: Option<Seq<char>>,
    pub token: Option<Seq<char>>,
    pub api_key: Option<(Seq<char>, Seq<char>)>,
}

impl View for CredentialSources {
    type V = CredentialSourcesView;

    open spec fn view(&self) -> CredentialSourcesView {
        CredentialSourcesView {
            basic: match self.basic {
                Some(b) => Some((b.user_id@, b.password.deep_view())),
                None => None,
            },
            bearer: self.bearer.deep_view(),
            token: self.token.deep_view(),
            api_key: match self.api_key {
                Some(k) => Some((k.username@, k.api_key@)),
                None => None,
            },
        }
    }
}

impl CredentialSourcesView {
    /// How many of the four sources are present.
    pub open spec fn present(self) -> nat {
        (if self.basic is Some { 1nat } else { 0nat }) + (if self.bearer is Some { 1nat } else { 0nat })
            + (if self.token is Some { 1nat } else { 0nat }) + (if self.api_key is Some { 1nat } else { 0nat })
    }
}

/// The error text for a request that offers more than one kind of credentials.
pub open spec fn ambiguous_credentials_message() -> Seq<char> {
    "More than one way of authentication provided"@
}

/// The credentials of a request: the one source present, or anonymous when
/// none is; more than one source present is an invalid request.
pub open spec fn classify(s: CredentialSourcesView) -> Result<CredentialsView, AuthErrorView> {
    if s.present() == 0 {
        Ok(CredentialsView::Anonymous)
    } else if s.present() > 1 {
        Err(AuthErrorView::InvalidRequest(ambiguous_credentials_message()))
    } else if let Some((user, password)) = s.basic {
        Ok(CredentialsView::AccessToken { username: user, access_token: password })
    } else if let Some(token) = s.bearer {
        Ok(CredentialsView::OpenIDToken(token))
    } else if let Some(token) = s.token {
        Ok(CredentialsView::OpenIDToken(token))
    } else {
        let (user, key) = s.api_key.unwrap();
        Ok(CredentialsView::AccessToken { username: user, access_token: Some(key) })
    }
}

impl Credentials {
    /// Classify what a request offers into exactly one kind of credentials.
    pub fn from_sources(sources: CredentialSources) -> (r: Result<Credentials, AuthError>)
        ensures
            result_view(r) == classify(sources@),
            sources@.present() == 0 ==> result_view(r) == Ok::<_, AuthErrorView>(
                CredentialsView::Anonymous,
            ),
            sources@.present() == 1 ==> r is Ok && !(r->Ok_0 is Anonymous),
            sources@.present() > 1 ==> r matches Err(AuthError::InvalidRequest(_)),
    {
        match (sources.basic, sources.bearer, sources.token, sources.api_key) {
            (Some(basic), None, None, None) => Ok(
                Credentials::AccessToken(
                    UsernameAndToken { username: basic.user_id, access_token: basic.password },
                ),
            ),
            (None, Some(bearer), None, None) => Ok(Credentials::OpenIDToken(bearer)),
            (None, None, Some(token), None) => Ok(Credentials::OpenIDToken(token)),
            (None, None, None, Some(key)) => Ok(
                Credentials::AccessToken(
                    UsernameAndToken { username: key.username, access_token: Some(key.api_key) },
                ),
            ),
            (None, None, None, None) => Ok(Credentials::Anonymous),
            _ => Err(
                AuthError::InvalidRequest(
                    String::from_str("More than one way of authentication provided"),
                ),
            ),
        }
    }
}

} // verus!
