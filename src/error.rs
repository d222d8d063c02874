//! Errors of the authentication and authorization pipeline.

use vstd::prelude::*;
use vstd::string::*;

verus! {

/// Why a request could not be authenticated or authorized.
#[derive(Clone, Debug)]
pub enum AuthError {
    /// The credentials were checked and rejected.
    Forbidden,
    /// The request is malformed, ambiguous, or lacks a required credential.
    InvalidRequest(String),
    /// A collaborator failed, or a value could not be represented.
    Internal(String),
    /// Access was denied, and reported as absence of the resource (type, id).
    NotFound(String, String),
}

/// The mathematical value of an [`AuthError`].
pub enum AuthErrorView {
    Forbidden,
    InvalidRequest(Seq<char>),
    Internal(Seq<char>),
    NotFound(Seq<char>, Seq<char>),
}

impl View for AuthError {
    type V = AuthErrorView;

    open spec fn view(&self) -> AuthErrorView {
        match self {
            AuthError::Forbidden => AuthErrorView::Forbidden,
            AuthError::InvalidRequest(m) => AuthErrorView::InvalidRequest(m@),
            AuthError::Internal(m) => AuthErrorView::Internal(m@),
            AuthError::NotFound(t, id) => AuthErrorView::NotFound(t@, id@),
        }
    }
}

/// The view of a result whose success and error values both have views.
pub open spec fn result_view<T: View, E: View>(r: Result<T, E>) -> Result<T::V, E::V> {
    match r {
        Ok(t) => Ok(t@),
        Err(e) => Err(e@),
    }
}

/// HTTP status code of each error category: a malformed request is answered
/// like rejected credentials.
pub open spec fn status_code_of(e: AuthErrorView) -> u16 {
    match e {
        AuthErrorView::Forbidden => 403,
        AuthErrorView::InvalidRequest(_) => 403,
        AuthErrorView::Internal(_) => 500,
        AuthErrorView::NotFound(_, _) => 404,
    }
}

/// The category name that an error response carries.
pub open spec fn error_kind_of(e: AuthErrorView) -> Seq<char> {
    match e {
        AuthErrorView::Forbidden => "Forbidden"@,
        AuthErrorView::InvalidRequest(_) => "Forbidden"@,
        AuthErrorView::Internal(_) => "Internal"@,
        AuthErrorView::NotFound(_, _) => "NotFound"@,
    }
}

/// The human-readable text of an error.
pub open spec fn message_of(e: AuthErrorView) -> Seq<char> {
    match e {
        AuthErrorView::Forbidden => "Forbidden"@,
        AuthErrorView::InvalidRequest(m) => "Invalid request: "@ + m,
        AuthErrorView::Internal(m) => "Internal: "@ + m,
        AuthErrorView::NotFound(t, id) => "Resource not found: "@ + t + " / "@ + id,
    }
}

impl AuthError {
    /// A copy of this error.
    pub fn duplicate(&self) -> (r: AuthError)
        ensures
            r@ == self@,
    {
        match self {
            AuthError::Forbidden => AuthError::Forbidden,
            AuthError::InvalidRequest(m) => AuthError::InvalidRequest(m.clone()),
            AuthError::Internal(m) => AuthError::Internal(m.clone()),
            AuthError::NotFound(t, id) => AuthError::NotFound(t.clone(), id.clone()),
        }
    }

    /// The HTTP status code with which this error is answered.
    pub fn status_code(&self) -> (r: u16)
        ensures
            r == status_code_of(self@),
    {
        match self {
            AuthError::Forbidden => 403,
            AuthError::InvalidRequest(_) => 403,
            AuthError::Internal(_) => 500,
            AuthError::NotFound(_, _) => 404,
        }
    }

    /// The category name reported to the client.
    pub fn error_kind(&self) -> (r: String)
        ensures
            r@ == error_kind_of(self@),
    {
        match self {
            AuthError::Forbidden => String::from_str("Forbidden"),
            AuthError::InvalidRequest(_) => String::from_str("Forbidden"),
            AuthError::Internal(_) => String::from_str("Internal"),
            AuthError::NotFound(_, _) => String::from_str("NotFound"),
        }
    }

    /// The human-readable text of this error.
    pub fn message(&self) -> (r: String)
        ensures
            r@ == message_of(self@),
    {
        match self {
            AuthError::Forbidden => String::from_str("Forbidden"),
            AuthError::InvalidRequest(m) => String::from_str("Invalid request: ").concat(m.as_str()),
            AuthError::Internal(m) => String::from_str("Internal: ").concat(m.as_str()),
            AuthError::NotFound(t, id) => {
                let r = String::from_str("Resource not found: ").concat(t.as_str());
                let r = r.concat(" / ");
                r.concat(id.as_str())
            },
        }
    }
}

} // verus!
