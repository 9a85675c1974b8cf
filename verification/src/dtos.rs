//! The data shapes the surrounding HTTP layer exchanges with its callers.
//! The authentication core only defines them; registration and login
//! handling, and any field validation beyond what is written here, belong to
//! the outer layer.

use vstd::prelude::*;

verus! {

/// What a caller submits to register an account.
#[derive(Debug, Default, Clone)]
pub struct RegisterUserDto {
    pub name: String,
    pub email: String,
    pub password: String,
    pub confirm_password: String,
}

/// What a caller submits to log in.
#[derive(Debug, Default, Clone)]
pub struct LoginUserDto {
    pub email: String,
    pub password: String,
}

/// Paging parameters of a listing request.
pub struct RequestQueryDto {
    pub page: Option<i64>,
    pub limit: Option<i64>,
}

/// The bound the listing page size must stay within.
pub open spec fn spec_query_valid(page: Option<i64>, limit: Option<i64>) -> bool {
    &&& (page matches Some(p) ==> p >= 1)
    &&& (limit matches Some(l) ==> 1 <= l <= 50)
}

impl RequestQueryDto {
    /// Whether the paging parameters are in range: a page, when given, is at
    /// least 1, and a limit, when given, is between 1 and 50.
    pub fn is_valid(&self) -> (ok: bool)
        ensures
            ok == spec_query_valid(self.page, self.limit),
    {
        let page_ok = match self.page {
            Some(p) => p >= 1,
            None => true,
        };
        let limit_ok = match self.limit {
            Some(l) => 1 <= l && l <= 50,
            None => true,
        };
        page_ok && limit_ok
    }
}

/// The body a successful login is answered with.
#[derive(Debug, Clone)]
pub struct UserLoginResponseDto {
    pub status: String,
    pub token: String,
}

} // verus!
