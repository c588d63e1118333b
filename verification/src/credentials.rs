//! The credential store: what every request to the service needs.

use vstd::prelude::*;
use vstd::string::StringExecFns;

verus! {

/// Endpoint of the production service, used when no other is given.
pub const PRODUCTION_API: &'static str = "https://api.stytch.com";

/// Credential storage and link management.
///
/// A store is immutable once built. Nothing is checked at construction:
/// malformed credentials only show when the service rejects a request.
#[derive(Debug, PartialEq, Eq, Clone)]
pub struct Stytch {
    /// Project identifier, sent as the basic-auth user name.
    pub project_id: String,
    /// Shared secret, sent as the basic-auth password.
    pub secret: String,
    /// Link that the service redirects to after a login.
    pub link_login: String,
    /// Link that the service redirects to after a signup.
    pub link_signup: String,
    /// Endpoint of the service: the prefix of every request URL.
    pub api: String,
}

/// Mathematical model of a credential store: each field as its text.
pub struct StytchView {
    pub project_id: Seq<char>,
    pub secret: Seq<char>,
    pub link_login: Seq<char>,
    pub link_signup: Seq<char>,
    pub api: Seq<char>,
}

impl View for Stytch {
    type V = StytchView;

    open spec fn view(&self) -> StytchView {
        StytchView {
            project_id: self.project_id@,
            secret: self.secret@,
            link_login: self.link_login@,
            link_signup: self.link_signup@,
            api: self.api@,
        }
    }
}

impl Stytch {
    /// Creates a credential store for the production service.
    pub fn new(project_id: &str, secret: &str, link_login: &str, link_signup: &str) -> (store: Self)
        ensures
            store@ == (StytchView {
                project_id: project_id@,
                secret: secret@,
                link_login: link_login@,
                link_signup: link_signup@,
                api: PRODUCTION_API@,
            }),
    {
        Self::new_url(project_id, secret, link_login, link_signup, PRODUCTION_API)
    }

    /// Creates a credential store for the service at `api`, for staging or tests.
    pub fn new_url(
        project_id: &str,
        secret: &str,
        link_login: &str,
        link_signup: &str,
        api: &str,
    ) -> (store: Self)
        ensures
            store@ == (StytchView {
                project_id: project_id@,
                secret: secret@,
                link_login: link_login@,
                link_signup: link_signup@,
                api: api@,
            }),
    {
        Self {
            project_id: String::from_str(project_id),
            secret: String::from_str(secret),
            link_login: String::from_str(link_login),
            link_signup: String::from_str(link_signup),
            api: String::from_str(api),
        }
    }
}

} // verus!
