//! The user a request is made by, if any.
use vstd::prelude::*;

use crate::services::users::User;

verus! {

/// The user whose e-mail the request's session holds, or `None` for an
/// anonymous request (no session e-mail, or no user with that e-mail).
#[derive(Clone, Debug)]
pub struct AuthenticatedUser(pub Option<User>);

impl AuthenticatedUser {
    /// The user a request is made by, given the e-mail its session holds and
    /// the user looked up for it: anonymous without an e-mail; otherwise the
    /// user found, or the lookup's failure.
    pub fn from_session_lookup<E>(
        session_email: Option<String>,
        lookup: Result<Option<User>, E>,
    ) -> (r: Result<AuthenticatedUser, E>)
        ensures
            session_email is None ==> (r matches Ok(a) && a.0 is None),
            session_email is Some ==> match lookup {
                Ok(found) => (r matches Ok(a) && a.0 == found),
                Err(e) => r == Err::<AuthenticatedUser, E>(e),
            },
    {
        match session_email {
            None => Ok(AuthenticatedUser(None)),
            Some(_) => match lookup {
                Ok(found) => Ok(AuthenticatedUser(found)),
                Err(e) => Err(e),
            },
        }
    }
}

} // verus!
