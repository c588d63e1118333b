//! Client-side binding for a passwordless ("magic link") sign-in service.
//!
//! The crate holds the credential store, the requests the flow sends, and the
//! rules by which an answer from the service becomes a user or an error. It
//! performs no I/O: a caller sends each request with a transport of its own
//! and hands what came back to the exchange that asked.

pub mod credentials;
pub mod error;
pub mod exchange;
pub mod request;
pub mod user;

pub use credentials::{Stytch, StytchView, PRODUCTION_API};
pub use error::{Error, Result};
pub use exchange::{AcceptedAuth, AcceptedUser, PendingAuth, PendingUser, PendingUserView, SUCCESS};
pub use request::{Body, BodyView, HttpRequest, HttpRequestView, Method};
pub use user::{Token, User, UserAuth, UserAuthView, UserId, UserView};
