//! Failure taxonomy of the authentication layer and its HTTP-facing error
//! values: every rejection a request can meet, the message shown for it, and
//! the status code it travels with.

use vstd::prelude::*;

verus! {

/// The kinds of failure the authentication and authorization pipeline can
/// report to a caller.
#[derive(Clone, Copy, Debug, PartialEq, Eq, Structural)]
pub enum ErrorMessage {
    InvalidToken,
    ServerError,
    UserNoLongerExist,
    TokenNotProvided,
    PermissionDenied,
}

/// The user-visible message for each failure kind.
pub open spec fn spec_message(m: ErrorMessage) -> Seq<char> {
    match m {
        ErrorMessage::ServerError => "Server Error. Please try again later"@,
        ErrorMessage::UserNoLongerExist => "User belonging to this token no longer exists"@,
        ErrorMessage::InvalidToken => "Authentication token is invalid or expired"@,
        ErrorMessage::TokenNotProvided => "You are not logged in, please provide token"@,
        ErrorMessage::PermissionDenied => "You are not allowed to perform this action"@,
    }
}

/// The HTTP status code each failure kind is reported with: authentication
/// failures are 401, an authorization failure is 403, a store failure is 500.
pub open spec fn spec_status(m: ErrorMessage) -> u16 {
    match m {
        ErrorMessage::ServerError => 500u16,
        ErrorMessage::UserNoLongerExist => 401u16,
        ErrorMessage::InvalidToken => 401u16,
        ErrorMessage::TokenNotProvided => 401u16,
        ErrorMessage::PermissionDenied => 403u16,
    }
}

impl ErrorMessage {
    /// The user-visible message for this failure kind.
    pub fn to_str(&self) -> (s: String)
        ensures
            s@ == spec_message(*self),
    {
        match self {
            ErrorMessage::ServerError => "Server Error. Please try again later".to_owned(),
            ErrorMessage::UserNoLongerExist => "User belonging to this token no longer exists".to_owned(),
            ErrorMessage::InvalidToken => "Authentication token is invalid or expired".to_owned(),
            ErrorMessage::TokenNotProvided => "You are not logged in, please provide token".to_owned(),
            ErrorMessage::PermissionDenied => "You are not allowed to perform this action".to_owned(),
        }
    }

    /// The HTTP status code this failure kind is reported with.
    pub fn status_code(&self) -> (s: u16)
        ensures
            s == spec_status(*self),
    {
        match self {
            ErrorMessage::ServerError => 500,
            ErrorMessage::UserNoLongerExist => 401,
            ErrorMessage::InvalidToken => 401,
            ErrorMessage::TokenNotProvided => 401,
            ErrorMessage::PermissionDenied => 403,
        }
    }
}

/// The JSON body sent when a request is rejected.
pub struct ErrorResponse {
    pub status: String,
    pub message: String,
}

/// A response body whose status label is a fixed word ("fail" or "error").
pub struct Response {
    pub status: &'static str,
    pub message: String,
}

/// An error carrying the HTTP status it should be reported with.
#[derive(Debug, Clone)]
pub struct HttpError {
    pub message: String,
    pub status: u16,
}

impl HttpError {
    pub fn new(message: String, status: u16) -> (r: Self)
        ensures
            r.message == message,
            r.status == status,
    {
        HttpError { message, status }
    }

    pub fn server_error(message: String) -> (r: Self)
        ensures
            r.message == message,
            r.status == 500,
    {
        HttpError { message, status: 500 }
    }

    pub fn bad_request(message: String) -> (r: Self)
        ensures
            r.message == message,
            r.status == 400,
    {
        HttpError { message, status: 400 }
    }

    pub fn unique_constraint_violation(message: String) -> (r: Self)
        ensures
            r.message == message,
            r.status == 409,
    {
        HttpError { message, status: 409 }
    }

    pub fn unauthorized(message: String) -> (r: Self)
        ensures
            r.message == message,
            r.status == 401,
    {
        HttpError { message, status: 401 }
    }

    /// The error a rejected request is short-circuited with: the status code
    /// and message fixed by the failure kind.
    pub fn from_error_message(kind: ErrorMessage) -> (r: Self)
        ensures
            r.status == spec_status(kind),
            r.message@ == spec_message(kind),
    {
        HttpError { message: kind.to_str(), status: kind.status_code() }
    }

    /// The pieces of the HTTP response this error turns into: the status code
    /// sent on the wire and the labelled body. Client errors keep their status
    /// and are labelled "fail"; anything else is reported as a 500 labelled
    /// "error".
    pub fn response_parts(self) -> (r: (u16, Response))
        ensures
            (self.status == 400 || self.status == 401 || self.status == 403 || self.status == 409)
                ==> (r.0 == self.status && r.1.status@ == "fail"@),
            !(self.status == 400 || self.status == 401 || self.status == 403 || self.status == 409)
                ==> (r.0 == 500 && r.1.status@ == "error"@),
            r.1.message == self.message,
    {
        if self.status == 400 || self.status == 401 || self.status == 403 || self.status == 409 {
            (self.status, Response { status: "fail", message: self.message })
        } else {
            (500, Response { status: "error", message: self.message })
        }
    }

    /// The JSON body a rejected request is answered with.
    pub fn rejection_body(kind: ErrorMessage) -> (r: ErrorResponse)
        ensures
            r.status@ == "fail"@,
            r.message@ == spec_message(kind),
    {
        ErrorResponse { status: "fail".to_owned(), message: kind.to_str() }
    }
}

} // verus!
