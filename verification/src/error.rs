//! The ways in which an exchange with the service fails.

use reqwest::Error as TransportError;
use vstd::prelude::*;
use vstd::std_specs::convert::FromSpecImpl;
use vstd::string::{to_string_from_display_ensures, StringExecFns};

verus! {

/// `reqwest::Error`, the transport's own error. It is carried through as it
/// came: nothing is claimed of what it holds.
#[verifier::external_type_specification]
#[verifier::external_body]
pub struct ExTransportError(TransportError);

/// Errors which arise from the usage of this library. The three kinds exclude
/// each other.
#[derive(Debug)]
pub enum Error {
    /// The request could not be sent, or the answer could not be read or
    /// decoded. Holds the transport's cause.
    Request(TransportError),
    /// The service answered a request to log in or create a user with
    /// another status than success. Holds that status.
    LoginOrCreate(u16),
    /// The service answered a request to redeem a token with another status
    /// than success. Holds that status.
    Auth(u16),
}

/// Crate-wide dissemination of results for ease of use.
pub type Result<T> = std::result::Result<T, Error>;

/// What [`Error::message`] puts before the transport's own words.
pub const REQUEST_PREFIX: &'static str = "Request error, ";

/// What [`Error::message`] says of a rejected login or creation.
pub const LOGIN_OR_CREATE_MESSAGE: &'static str =
    "Couldn't login or create because of a bad response";

/// What [`Error::message`] says of a rejected token.
pub const AUTH_MESSAGE: &'static str = "Couldn't authorise because of a bad response";

impl From<TransportError> for Error {
    fn from(cause: TransportError) -> (error: Self) {
        Error::Request(cause)
    }
}

impl FromSpecImpl<TransportError> for Error {
    open spec fn obeys_from_spec() -> bool {
        true
    }

    open spec fn from_spec(cause: TransportError) -> Self {
        Error::Request(cause)
    }
}

impl Error {
    /// The text that describes this error to a reader.
    ///
    /// For a transport failure it is [`REQUEST_PREFIX`] followed by the
    /// cause's own display text; for the other two kinds it is fixed.
    pub fn message(&self) -> (text: String)
        ensures
            match self {
                Error::Request(cause) => exists|detail: String|
                    to_string_from_display_ensures::<TransportError>(cause, detail) && text@
                        == REQUEST_PREFIX@ + detail@,
                Error::LoginOrCreate(_) => text@ == LOGIN_OR_CREATE_MESSAGE@,
                Error::Auth(_) => text@ == AUTH_MESSAGE@,
            },
    {
        match self {
            Error::Request(cause) => {
                let detail = cause.to_string();
                String::from_str(REQUEST_PREFIX).concat(detail.as_str())
            },
            Error::LoginOrCreate(_) => String::from_str(LOGIN_OR_CREATE_MESSAGE),
            Error::Auth(_) => String::from_str(AUTH_MESSAGE),
        }
    }
}

} // verus!
