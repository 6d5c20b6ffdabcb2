//! What a bearer token conveys, and the bodies of the sign-in requests.

use vstd::prelude::*;

verus! {

/// The claims of a validated token.
#[derive(Debug)]
pub struct Claims {
    /// User id, a UUID in text form.
    pub sub: String,
    pub name: String,
    pub role: String,
    /// Expiry, in seconds since the Unix epoch.
    pub exp: usize,
}

pub struct ClaimsView {
    pub sub: Seq<char>,
    pub name: Seq<char>,
    pub role: Seq<char>,
    pub exp: nat,
}

impl View for Claims {
    type V = ClaimsView;

    open spec fn view(&self) -> ClaimsView {
        ClaimsView { sub: self.sub@, name: self.name@, role: self.role@, exp: self.exp as nat }
    }
}

impl Clone for Claims {
    fn clone(&self) -> (c: Claims)
        ensures
            c == *self,
    {
        Claims {
            sub: self.sub.clone(),
            name: self.name.clone(),
            role: self.role.clone(),
            exp: self.exp,
        }
    }
}

#[derive(Debug)]
pub struct RegisterRequest {
    pub name: String,
    pub email: String,
    pub password: String,
}

#[derive(Debug)]
pub struct LoginRequest {
    pub email: String,
    pub password: String,
}

#[derive(Debug)]
pub struct LoginResponse {
    pub token: String,
}

} // verus!
