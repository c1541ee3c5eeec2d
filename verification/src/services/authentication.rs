//! Registration of users and checking of their credentials.
use vstd::prelude::*;
use vstd::string::*;

use crate::controller::Reply;
use crate::services::passwords::{argon2_accepts, verify_password};
use crate::services::users::{user_created_with, User};

verus! {

/// Why a registration was refused.
#[derive(Clone, Copy, Debug, PartialEq, Eq, Structural)]
pub enum UserRegistrationError {
    EmailAlreadyTaken,
}

impl UserRegistrationError {
    pub open spec fn spec_to_string(self) -> Seq<char> {
        match self {
            UserRegistrationError::EmailAlreadyTaken => "This email is already taken"@,
        }
    }

    /// The message shown for the error.
    pub fn to_string(&self) -> (s: String)
        ensures
            s@ == self.spec_to_string(),
    {
        match self {
            UserRegistrationError::EmailAlreadyTaken => "This email is already taken".to_owned(),
        }
    }

    /// The reply for the error: 409 Conflict with the message as body.
    pub fn into_reply(self) -> (r: Reply)
        ensures
            r.status == 409,
            r.body@ == self.spec_to_string(),
            r.location is None,
    {
        Reply { status: 409, body: self.to_string(), location: None }
    }
}

/// The user that credentials identify: the user found for the e-mail, when
/// there is one and the stored hash accepts the password.
pub open spec fn spec_authenticated(user: Option<User>, password: Seq<u8>) -> Option<User> {
    match user {
        Some(u) => if argon2_accepts(password, u.hashed_password@) {
            Some(u)
        } else {
            None
        },
        None => None,
    }
}

/// The authentication service: the database the users are stored in.
#[derive(Clone, Debug)]
pub struct AuthenticationService<Pool> {
    db_pool: Pool,
}

impl<Pool> AuthenticationService<Pool> {
    pub closed spec fn spec_db_pool(&self) -> Pool {
        self.db_pool
    }

    pub fn new(db_pool: Pool) -> (s: Self)
        ensures
            s.spec_db_pool() == db_pool,
    {
        AuthenticationService { db_pool }
    }

    /// The database the users live in.
    pub fn db_pool(&self) -> (p: &Pool)
        ensures
            *p == self.spec_db_pool(),
    {
        &self.db_pool
    }

    /// Checks `password` against the user found for the e-mail of a login:
    /// that user when its stored hash accepts the password, `None` when no
    /// user was found or the password is wrong.
    pub fn check_credentials(user: Option<User>, password: &[u8]) -> (r: Option<User>)
        ensures
            r == spec_authenticated(user, password@),
    {
        match user {
            Some(u) => {
                if verify_password(password, u.hashed_password.as_str()) {
                    Some(u)
                } else {
                    None
                }
            },
            None => None,
        }
    }

    /// The user to store for a registration, given whether a user with that
    /// e-mail already exists: refused with `EmailAlreadyTaken` when it does;
    /// otherwise a new user with the given name, e-mail and password, or
    /// `Err(None)` when the password cannot be hashed (only a password of
    /// more than `0xFFFFFFFF` bytes).
    pub fn prepare_registration(
        email_taken: bool,
        name: String,
        email: &str,
        password: &str,
    ) -> (r: Result<User, Option<UserRegistrationError>>)
        ensures
            email_taken ==> r == Err::<User, Option<UserRegistrationError>>(
                Some(UserRegistrationError::EmailAlreadyTaken),
            ),
            !email_taken ==> (r is Ok || r == Err::<User, Option<UserRegistrationError>>(None)),
            !email_taken && password.spec_bytes().len() <= 0xFFFF_FFFF ==> r is Ok,
            r matches Ok(u) ==> user_created_with(u, name@, email@, password.spec_bytes()),
    {
        if email_taken {
            return Err(Some(UserRegistrationError::EmailAlreadyTaken));
        }
        match User::new(name, email.to_owned(), password) {
            Ok(user) => Ok(user),
            Err(_) => Err(None),
        }
    }
}

/// A user created with a password is authenticated by that password.
pub proof fn lemma_created_user_authenticates(
    user: User,
    name: Seq<char>,
    email: Seq<char>,
    password: Seq<u8>,
)
    requires
        user_created_with(user, name, email, password),
    ensures
        spec_authenticated(Some(user), password) == Some(user),
{
}

} // verus!
