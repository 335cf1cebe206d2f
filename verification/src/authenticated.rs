//! Request authentication: credentials from a request are checked
//! against the configured users. A username is looked up exactly; the
//! password comparison ignores surrounding whitespace. When a username
//! is configured twice, the later entry governs.
use vstd::prelude::*;
use crate::secrets_config::{User, Users};
use crate::text::{trim_str, trimmed};

verus! {

/// Proof that a request carried valid credentials; holds the username.
#[derive(Debug)]
pub struct Authenticated {
    pub username: String,
}

/// Why authentication was refused.
#[derive(Debug)]
pub enum AuthError {
    FailedToAuthorize,
    FailedToGetConfig,
}

impl AuthError {
    /// The message reported for this refusal.
    pub open spec fn spec_message(&self) -> Seq<char> {
        match self {
            AuthError::FailedToAuthorize => "something went wrong"@,
            AuthError::FailedToGetConfig => "server config issue"@,
        }
    }

    /// Renders the refusal.
    pub fn message(&self) -> (r: String)
        ensures
            r@ == self.spec_message(),
    {
        match self {
            AuthError::FailedToAuthorize => "something went wrong".to_owned(),
            AuthError::FailedToGetConfig => "server config issue".to_owned(),
        }
    }
}

/// The username and password offered by a request.
#[derive(Debug)]
pub struct BasicCredentials {
    pub username: String,
    pub password: String,
}

/// The password configured for `username`, later entries winning; none
/// when the username is not configured.
pub open spec fn spec_lookup_password(rows: Seq<User>, username: Seq<char>) -> Option<Seq<char>>
    decreases rows.len(),
{
    if rows.len() == 0 {
        Option::None
    } else if rows.last().username@ == username {
        Option::Some(rows.last().password@)
    } else {
        spec_lookup_password(rows.drop_last(), username)
    }
}

/// Checks offered credentials against the configured users.
pub struct Authenticator {
    users: Vec<User>,
}

impl Authenticator {
    /// The configured users, in configuration order.
    pub closed spec fn user_rows(&self) -> Seq<User> {
        self.users@
    }

    /// Whether these credentials are accepted: the username must be
    /// configured and its password must match up to surrounding
    /// whitespace.
    pub open spec fn spec_is_authenticated(&self, auth: BasicCredentials) -> bool {
        match spec_lookup_password(self.user_rows(), auth.username@) {
            Option::Some(pw) => trimmed(pw) == trimmed(auth.password@),
            Option::None => false,
        }
    }

    /// Builds an authenticator over the configured users.
    pub fn new(users: Users) -> (r: Result<Self, AuthError>)
        ensures
            r matches Ok(a) && a.user_rows() == users.users@,
    {
        Ok(Authenticator { users: users.users })
    }

    /// Checks the offered credentials.
    pub fn is_authenticated(&self, auth: &BasicCredentials) -> (r: bool)
        ensures
            r == self.spec_is_authenticated(*auth),
    {
        let mut i: usize = self.users.len();
        proof {
            assert(self.user_rows().take(i as int) =~= self.user_rows());
        }
        while i > 0
            invariant
                0 <= i <= self.user_rows().len(),
                spec_lookup_password(self.user_rows(), auth.username@) == spec_lookup_password(
                    self.user_rows().take(i as int),
                    auth.username@,
                ),
            decreases i,
        {
            i = i - 1;
            proof {
                let t = i as int;
                assert(self.user_rows().take(t + 1).drop_last() =~= self.user_rows().take(t));
                assert(self.user_rows().take(t + 1).last() == self.user_rows()[t]);
            }
            if self.users[i].username == auth.username {
                return Self::compare_str(&self.users[i].password, &auth.password);
            }
        }
        proof {
            assert(self.user_rows().take(0) =~= Seq::<User>::empty());
        }
        false
    }

    /// Whether two strings agree once surrounding whitespace is ignored.
    pub fn compare_str(a: &String, b: &String) -> (r: bool)
        ensures
            r == (trimmed(a@) == trimmed(b@)),
    {
        let x = trim_str(a.as_str()).to_owned();
        let y = trim_str(b.as_str()).to_owned();
        x == y
    }
}

} // verus!
