//! One round trip with the service, as the decisions that the client makes.
//!
//! An exchange starts as a pending request. The caller sends the request and
//! reports the status that came back, or the transport's failure. A status
//! other than success ends the exchange with an error; success leaves an
//! accepted answer, whose body the caller then reads and decodes. Each state
//! is consumed by the step that leaves it, so one exchange sends one request.

use crate::credentials::Stytch;
use crate::error::Error;
use crate::request::{
    authenticate_request, create_request, login_or_create_request, Body, HttpRequest,
    HttpRequestView, AUTHENTICATE_PATH, LOGIN_OR_CREATE_PATH, USERS_PATH,
};
use crate::user::{User, UserAuth, UserAuthView, UserId, UserView};
use reqwest::Error as TransportError;
use vstd::prelude::*;
use vstd::string::StringExecFns;

verus! {

/// The one status with which the service reports success.
pub const SUCCESS: u16 = 200;

/// A request for a user that awaits the service's answer.
#[derive(Debug)]
pub struct PendingUser {
    request: HttpRequest,
    auth: UserAuth,
}

/// Mathematical model of [`PendingUser`]: the request to send, and the
/// identity that the user will have.
pub struct PendingUserView {
    pub request: HttpRequestView,
    pub auth: UserAuthView,
}

impl View for PendingUser {
    type V = PendingUserView;

    closed spec fn view(&self) -> PendingUserView {
        PendingUserView { request: self.request@, auth: self.auth@ }
    }
}

/// An answer to a request for a user that bore the success status, and whose
/// body awaits decoding.
#[derive(Debug)]
pub struct AcceptedUser {
    auth: UserAuth,
}

impl View for AcceptedUser {
    type V = UserAuthView;

    /// The identity that the user will have.
    closed spec fn view(&self) -> UserAuthView {
        self.auth@
    }
}

/// A request to redeem a token that awaits the service's answer.
#[derive(Debug)]
pub struct PendingAuth {
    request: HttpRequest,
}

impl View for PendingAuth {
    type V = HttpRequestView;

    /// The request to send.
    closed spec fn view(&self) -> HttpRequestView {
        self.request@
    }
}

/// An answer to a request to redeem a token that bore the success status, and
/// whose body awaits decoding.
#[derive(Debug)]
pub struct AcceptedAuth {
    /// Keeps the state from being built anywhere but in [`PendingAuth::answered`].
    sealed: (),
}

impl Stytch {
    /// Starts the "login or create" flow for `email`.
    ///
    /// The request carries the email and both redirect links, and is signed
    /// with the project identifier and the secret. The user that the exchange
    /// ends with is identified by the email that was submitted.
    pub fn login_or_create(&self, email: &str) -> (pending: PendingUser)
        ensures
            pending@ == (PendingUserView {
                request: login_or_create_request(self@, email@),
                auth: UserAuthView::Email { email: email@ },
            }),
    {
        let body = Body::LoginOrCreate {
            email: String::from_str(email),
            login_magic_link_url: self.link_login.clone(),
            signup_magic_link_url: self.link_signup.clone(),
        };
        PendingUser {
            request: HttpRequest::post(self, LOGIN_OR_CREATE_PATH, body),
            auth: UserAuth::new_email(email),
        }
    }
}

impl User {
    /// Starts the creation of a user with the identity `auth`.
    ///
    /// The request carries the identity as it was given, and the user that
    /// the exchange ends with has that identity.
    pub fn create(stytch: &Stytch, auth: UserAuth) -> (pending: PendingUser)
        ensures
            pending@ == (PendingUserView {
                request: create_request(stytch@, auth@),
                auth: auth@,
            }),
    {
        let body = Body::CreateUser { auth: auth.clone() };
        PendingUser { request: HttpRequest::post(stytch, USERS_PATH, body), auth }
    }

    /// Starts the redemption of `token`.
    ///
    /// The request carries the token as it was given, and nothing else.
    pub fn auth(stytch: &Stytch, token: &str) -> (pending: PendingAuth)
        ensures
            pending@ == authenticate_request(stytch@, token@),
    {
        let body = Body::Authenticate { token: String::from_str(token) };
        PendingAuth { request: HttpRequest::post(stytch, AUTHENTICATE_PATH, body) }
    }
}

impl PendingUser {
    /// The request to send.
    pub fn request(&self) -> (request: &HttpRequest)
        ensures
            request@ == self@.request,
    {
        &self.request
    }

    /// Takes what sending the request gave: the status of the answer, or the
    /// transport's failure.
    ///
    /// The success status leaves an accepted answer for the same identity.
    /// Any other status ends the exchange with [`Error::LoginOrCreate`] and
    /// that status, whatever the body holds. A failure ends it with
    /// [`Error::Request`] and the cause.
    pub fn answered(self, head: Result<u16, TransportError>) -> (next: Result<AcceptedUser, Error>)
        ensures
            match head {
                Ok(status) => if status == SUCCESS {
                    next matches Ok(accepted) && accepted@ == self@.auth
                } else {
                    next matches Err(error) && error == Error::LoginOrCreate(status)
                },
                Err(cause) => next matches Err(error) && error == Error::Request(cause),
            },
    {
        match head {
            Ok(status) => {
                if status == SUCCESS {
                    Ok(AcceptedUser { auth: self.auth })
                } else {
                    Err(Error::LoginOrCreate(status))
                }
            },
            Err(cause) => Err(Error::Request(cause)),
        }
    }
}

impl AcceptedUser {
    /// Takes what reading and decoding the body gave: the user's identifier,
    /// or the transport's failure.
    ///
    /// An identifier ends the exchange with the user that bears it, with no
    /// token and with the identity that the request was made for. A failure
    /// ends it with [`Error::Request`] and the cause.
    pub fn decoded(self, body: Result<UserId, TransportError>) -> (outcome: Result<User, Error>)
        ensures
            match body {
                Ok(id) => outcome matches Ok(user) && user@ == (UserView {
                    id: id@,
                    token: None,
                    auth: self@,
                }),
                Err(cause) => outcome matches Err(error) && error == Error::Request(cause),
            },
    {
        match body {
            Ok(id) => Ok(User { id, token: None, auth: self.auth }),
            Err(cause) => Err(Error::Request(cause)),
        }
    }
}

impl PendingAuth {
    /// The request to send.
    pub fn request(&self) -> (request: &HttpRequest)
        ensures
            request@ == self@,
    {
        &self.request
    }

    /// Takes what sending the request gave: the status of the answer, or the
    /// transport's failure.
    ///
    /// The success status leaves an accepted answer. Any other status ends
    /// the exchange with [`Error::Auth`] and that status, whatever the body
    /// holds. A failure ends it with [`Error::Request`] and the cause.
    pub fn answered(self, head: Result<u16, TransportError>) -> (next: Result<AcceptedAuth, Error>)
        ensures
            match head {
                Ok(status) => if status == SUCCESS {
                    next is Ok
                } else {
                    next matches Err(error) && error == Error::Auth(status)
                },
                Err(cause) => next matches Err(error) && error == Error::Request(cause),
            },
    {
        match head {
            Ok(status) => {
                if status == SUCCESS {
                    Ok(AcceptedAuth { sealed: () })
                } else {
                    Err(Error::Auth(status))
                }
            },
            Err(cause) => Err(Error::Request(cause)),
        }
    }
}

impl AcceptedAuth {
    /// Takes what reading and decoding the body gave: the identifier of the
    /// user that the token belongs to, or the transport's failure.
    ///
    /// An identifier ends the exchange with that identifier, as it came. A
    /// failure ends it with [`Error::Request`] and the cause.
    pub fn decoded(self, body: Result<UserId, TransportError>) -> (outcome: Result<UserId, Error>)
        ensures
            match body {
                Ok(id) => outcome matches Ok(user_id) && user_id == id,
                Err(cause) => outcome matches Err(error) && error == Error::Request(cause),
            },
    {
        match body {
            Ok(id) => Ok(id),
            Err(cause) => Err(Error::Request(cause)),
        }
    }
}

} // verus!
