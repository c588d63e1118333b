//! The requests that the flow sends, as plain data for a transport to carry.

use crate::credentials::{Stytch, StytchView};
use crate::user::{Token, UserAuth, UserAuthView};
use vstd::prelude::*;
use vstd::string::StringExecFns;

verus! {

/// Path, below the endpoint, that logs a user in by email or creates one.
pub const LOGIN_OR_CREATE_PATH: &'static str = "/v1/magic_links/email/login_or_create";

/// Path, below the endpoint, that redeems a token.
pub const AUTHENTICATE_PATH: &'static str = "/v1/magic_links/authenticate";

/// Path, below the endpoint, that creates a user from an identity.
pub const USERS_PATH: &'static str = "/users";

/// The HTTP method of a request. The service is only ever posted to.
#[derive(Debug, PartialEq, Eq, Clone, Copy)]
pub enum Method {
    Post,
}

/// What a request carries in its body, to be sent as one JSON object. The
/// fields bear the names that the service expects.
#[derive(Debug, PartialEq, Eq, Clone)]
pub enum Body {
    /// Asks to log in the owner of `email`, or to create that user.
    LoginOrCreate { email: String, login_magic_link_url: String, signup_magic_link_url: String },
    /// Asks to redeem `token`.
    Authenticate { token: Token },
    /// Asks to create a user with the identity `auth`.
    CreateUser { auth: UserAuth },
}

/// Mathematical model of [`Body`]: each field as its text.
pub enum BodyView {
    LoginOrCreate {
        email: Seq<char>,
        login_magic_link_url: Seq<char>,
        signup_magic_link_url: Seq<char>,
    },
    Authenticate { token: Seq<char> },
    CreateUser { auth: UserAuthView },
}

impl View for Body {
    type V = BodyView;

    open spec fn view(&self) -> BodyView {
        match self {
            Body::LoginOrCreate { email, login_magic_link_url, signup_magic_link_url } => {
                BodyView::LoginOrCreate {
                    email: email@,
                    login_magic_link_url: login_magic_link_url@,
                    signup_magic_link_url: signup_magic_link_url@,
                }
            },
            Body::Authenticate { token } => BodyView::Authenticate { token: token@ },
            Body::CreateUser { auth } => BodyView::CreateUser { auth: auth@ },
        }
    }
}

/// One request to the service: where it goes, the basic-auth pair that signs
/// it, and what it carries.
#[derive(Debug, PartialEq, Eq, Clone)]
pub struct HttpRequest {
    pub method: Method,
    pub url: String,
    /// Basic-auth user name.
    pub username: String,
    /// Basic-auth password.
    pub password: String,
    pub body: Body,
}

/// Mathematical model of [`HttpRequest`].
pub struct HttpRequestView {
    pub method: Method,
    pub url: Seq<char>,
    pub username: Seq<char>,
    pub password: Seq<char>,
    pub body: BodyView,
}

impl View for HttpRequest {
    type V = HttpRequestView;

    open spec fn view(&self) -> HttpRequestView {
        HttpRequestView {
            method: self.method,
            url: self.url@,
            username: self.username@,
            password: self.password@,
            body: self.body@,
        }
    }
}

/// The request that posts `body` to `path` below the endpoint of `store`,
/// signed with the project identifier and the secret.
pub open spec fn post_to(store: StytchView, path: Seq<char>, body: BodyView) -> HttpRequestView {
    HttpRequestView {
        method: Method::Post,
        url: store.api + path,
        username: store.project_id,
        password: store.secret,
        body,
    }
}

/// The request that logs in the owner of `email`, or creates that user: it
/// carries the email and both redirect links of `store`.
pub open spec fn login_or_create_request(store: StytchView, email: Seq<char>) -> HttpRequestView {
    post_to(
        store,
        LOGIN_OR_CREATE_PATH@,
        BodyView::LoginOrCreate {
            email,
            login_magic_link_url: store.link_login,
            signup_magic_link_url: store.link_signup,
        },
    )
}

/// The request that creates a user with the identity `auth`.
pub open spec fn create_request(store: StytchView, auth: UserAuthView) -> HttpRequestView {
    post_to(store, USERS_PATH@, BodyView::CreateUser { auth })
}

/// The request that redeems `token`: it carries the token and nothing else.
pub open spec fn authenticate_request(store: StytchView, token: Seq<char>) -> HttpRequestView {
    post_to(store, AUTHENTICATE_PATH@, BodyView::Authenticate { token })
}

/// A token reaches the request that redeems it unchanged: the body holds the
/// token that was given, character for character, and nothing else.
pub proof fn lemma_token_carried_unchanged(store: StytchView, token: Seq<char>)
    ensures
        authenticate_request(store, token).body == (BodyView::Authenticate { token }),
{
}

/// The identity that a user is to be created with reaches the request whole:
/// where it names both an email and a phone, the body holds both.
pub proof fn lemma_identity_carried_unchanged(store: StytchView, auth: UserAuthView)
    ensures
        create_request(store, auth).body == (BodyView::CreateUser { auth }),
{
}

/// Every request is signed with the project identifier and the secret of the
/// store it was built from, and goes to a URL that is the store's endpoint
/// followed by the operation's path.
pub proof fn lemma_requests_signed_by_store(
    store: StytchView,
    email: Seq<char>,
    auth: UserAuthView,
    token: Seq<char>,
)
    ensures
        login_or_create_request(store, email).url == store.api + LOGIN_OR_CREATE_PATH@,
        create_request(store, auth).url == store.api + USERS_PATH@,
        authenticate_request(store, token).url == store.api + AUTHENTICATE_PATH@,
        login_or_create_request(store, email).username == store.project_id,
        login_or_create_request(store, email).password == store.secret,
        create_request(store, auth).username == store.project_id,
        create_request(store, auth).password == store.secret,
        authenticate_request(store, token).username == store.project_id,
        authenticate_request(store, token).password == store.secret,
{
}

impl HttpRequest {
    /// Builds the request that posts `body` to `path` below the endpoint of
    /// `store`.
    pub fn post(store: &Stytch, path: &str, body: Body) -> (request: Self)
        ensures
            request@ == post_to(store@, path@, body@),
    {
        HttpRequest {
            method: Method::Post,
            url: store.api.clone().concat(path),
            username: store.project_id.clone(),
            password: store.secret.clone(),
            body,
        }
    }
}

} // verus!
