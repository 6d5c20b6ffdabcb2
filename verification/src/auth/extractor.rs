//! The authenticated principal that handlers take as a parameter.

use crate::auth::models::Claims;
use vstd::prelude::*;

verus! {

/// The claims of the caller, as the authentication layer validated them.
pub struct AuthenticatedUser(pub Claims);

impl AuthenticatedUser {
    /// The principal of a request: the claims that the authentication layer
    /// left with it, if it left any.
    pub fn from_claims(claims: Option<&Claims>) -> (user: Option<AuthenticatedUser>)
        ensures
            user == (match claims {
                Some(c) => Some(AuthenticatedUser(*c)),
                None => None,
            }),
    {
        match claims {
            Some(c) => Some(AuthenticatedUser(c.clone())),
            None => None,
        }
    }
}

} // verus!
