//! Users of the service and the ways in which they are identified.

use vstd::prelude::*;
use vstd::string::StringExecFns;

verus! {

/// Identifier that the service assigns to a user. Stable across calls.
pub type UserId = String;

/// Opaque string that proves a user followed a magic link. The client never
/// interprets it: it is carried as it came.
pub type Token = String;

/// Authentication details for a user, defining what is allowed.
#[derive(Debug, PartialEq, Eq)]
pub enum UserAuth {
    Email { email: String },
    Phone { phone: String },
    Both { email: String, phone: String },
}

/// Mathematical model of [`UserAuth`]: each field as its text.
pub enum UserAuthView {
    Email { email: Seq<char> },
    Phone { phone: Seq<char> },
    Both { email: Seq<char>, phone: Seq<char> },
}

impl View for UserAuth {
    type V = UserAuthView;

    open spec fn view(&self) -> UserAuthView {
        match self {
            UserAuth::Email { email } => UserAuthView::Email { email: email@ },
            UserAuth::Phone { phone } => UserAuthView::Phone { phone: phone@ },
            UserAuth::Both { email, phone } => UserAuthView::Both { email: email@, phone: phone@ },
        }
    }
}

impl Clone for UserAuth {
    fn clone(&self) -> (copy: Self)
        ensures
            copy == *self,
    {
        match self {
            UserAuth::Email { email } => UserAuth::Email { email: email.clone() },
            UserAuth::Phone { phone } => UserAuth::Phone { phone: phone.clone() },
            UserAuth::Both { email, phone } => UserAuth::Both {
                email: email.clone(),
                phone: phone.clone(),
            },
        }
    }
}

impl UserAuth {
    /// Creates new auth details for email-only.
    pub fn new_email(email: &str) -> (auth: Self)
        ensures
            auth@ == (UserAuthView::Email { email: email@ }),
    {
        Self::Email { email: String::from_str(email) }
    }

    /// Creates new auth details for phone-only.
    pub fn new_phone(phone: &str) -> (auth: Self)
        ensures
            auth@ == (UserAuthView::Phone { phone: phone@ }),
    {
        Self::Phone { phone: String::from_str(phone) }
    }

    /// Creates new auth details for both kinds.
    pub fn new_both(email: &str, phone: &str) -> (auth: Self)
        ensures
            auth@ == (UserAuthView::Both { email: email@, phone: phone@ }),
    {
        Self::Both { email: String::from_str(email), phone: String::from_str(phone) }
    }
}

/// Representation of a user.
#[derive(Debug, PartialEq, Eq, Clone)]
pub struct User {
    /// The user's identifier.
    pub id: UserId,
    /// Current token created for the user, if known.
    pub token: Option<Token>,
    /// Authentication details for the user.
    pub auth: UserAuth,
}

/// Mathematical model of [`User`].
pub struct UserView {
    pub id: Seq<char>,
    pub token: Option<Seq<char>>,
    pub auth: UserAuthView,
}

impl View for User {
    type V = UserView;

    open spec fn view(&self) -> UserView {
        UserView {
            id: self.id@,
            token: match self.token {
                Some(token) => Some(token@),
                None => None,
            },
            auth: self.auth@,
        }
    }
}

} // verus!
