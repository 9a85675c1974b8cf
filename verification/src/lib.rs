pub mod auth;
pub mod dtos;
pub mod error;
pub mod token;

use vstd::prelude::*;

verus! {

/// The process-wide configuration every request shares: the secret the token
/// codec signs and verifies with. Established at startup and read-only from
/// then on.
#[derive(Debug, Clone)]
pub struct AppState {
    pub jwt_secret: Vec<u8>,
}

impl AppState {
    pub fn new(jwt_secret: Vec<u8>) -> (r: Self)
        ensures
            r.jwt_secret == jwt_secret,
    {
        AppState { jwt_secret }
    }
}

} // verus!
