//! The identity that a request runs under.

use vstd::prelude::*;

verus! {

/// Details of an authenticated user.
#[derive(Clone, Debug)]
pub struct UserDetails {
    /// A unique user ID.
    pub user_id: String,
    /// Granted roles, in the order in which they were reported.
    pub roles: Vec<String>,
}

/// The mathematical value of [`UserDetails`].
pub struct UserDetailsView {
    pub user_id: Seq<char>,
    pub roles: Seq<Seq<char>>,
}

impl View for UserDetails {
    type V = UserDetailsView;

    open spec fn view(&self) -> UserDetailsView {
        UserDetailsView { user_id: self.user_id@, roles: self.roles.deep_view() }
    }
}

/// Information about the user of a request, who may be anonymous.
#[derive(Clone, Debug)]
pub enum UserInformation {
    Authenticated(UserDetails),
    Anonymous,
}

/// The mathematical value of [`UserInformation`].
pub enum Identity {
    Authenticated(UserDetailsView),
    Anonymous,
}

impl View for UserInformation {
    type V = Identity;

    open spec fn view(&self) -> Identity {
        match self {
            UserInformation::Authenticated(d) => Identity::Authenticated(d@),
            UserInformation::Anonymous => Identity::Anonymous,
        }
    }
}

impl Identity {
    /// The user ID, absent for an anonymous identity.
    pub open spec fn user_id(self) -> Option<Seq<char>> {
        match self {
            Identity::Authenticated(d) => Some(d.user_id),
            Identity::Anonymous => None,
        }
    }

    /// The granted roles, none for an anonymous identity.
    pub open spec fn roles(self) -> Seq<Seq<char>> {
        match self {
            Identity::Authenticated(d) => d.roles,
            Identity::Anonymous => Seq::empty(),
        }
    }
}

impl UserInformation {
    /// The user ID, if the user is authenticated.
    pub fn user_id(&self) -> (r: Option<&str>)
        ensures
            r.is_some() == (self@ is Authenticated),
            r.is_some() ==> Some(r.unwrap()@) == self@.user_id(),
    {
        match self {
            UserInformation::Authenticated(details) => Some(details.user_id.as_str()),
            UserInformation::Anonymous => None,
        }
    }

    /// The granted roles; an anonymous user has none.
    pub fn roles(&self) -> (r: Vec<String>)
        ensures
            r.deep_view() == self@.roles(),
    {
        match self {
            UserInformation::Authenticated(details) => details.roles.clone(),
            UserInformation::Anonymous => Vec::new(),
        }
    }
}

} // verus!
