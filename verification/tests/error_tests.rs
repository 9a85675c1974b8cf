use auth_core::dtos::RequestQueryDto;
use auth_core::error::{ErrorMessage, HttpError};
use auth_core::AppState;

#[test]
fn messages_follow_the_taxonomy() {
    assert_eq!(
        ErrorMessage::TokenNotProvided.to_str(),
        "You are not logged in, please provide token"
    );
    assert_eq!(
        ErrorMessage::InvalidToken.to_str(),
        "Authentication token is invalid or expired"
    );
    assert_eq!(
        ErrorMessage::UserNoLongerExist.to_str(),
        "User belonging to this token no longer exists"
    );
    assert_eq!(
        ErrorMessage::PermissionDenied.to_str(),
        "You are not allowed to perform this action"
    );
    assert_eq!(
        ErrorMessage::ServerError.to_str(),
        "Server Error. Please try again later"
    );
}

#[test]
fn status_codes_follow_the_taxonomy() {
    assert_eq!(ErrorMessage::TokenNotProvided.status_code(), 401);
    assert_eq!(ErrorMessage::InvalidToken.status_code(), 401);
    assert_eq!(ErrorMessage::UserNoLongerExist.status_code(), 401);
    assert_eq!(ErrorMessage::PermissionDenied.status_code(), 403);
    assert_eq!(ErrorMessage::ServerError.status_code(), 500);
}

#[test]
fn constructors_set_their_status() {
    let e = HttpError::new("m".to_string(), 418);
    assert_eq!((e.message.as_str(), e.status), ("m", 418));
    assert_eq!(HttpError::server_error("s".to_string()).status, 500);
    assert_eq!(HttpError::bad_request("b".to_string()).status, 400);
    assert_eq!(HttpError::unique_constraint_violation("u".to_string()).status, 409);
    assert_eq!(HttpError::unauthorized("a".to_string()).status, 401);
}

#[test]
fn from_error_message_carries_status_and_message() {
    let e = HttpError::from_error_message(ErrorMessage::PermissionDenied);
    assert_eq!(e.status, 403);
    assert_eq!(e.message, "You are not allowed to perform this action");

    let e = HttpError::from_error_message(ErrorMessage::ServerError);
    assert_eq!(e.status, 500);
    assert_eq!(e.message, "Server Error. Please try again later");
}

#[test]
fn response_parts_label_client_and_server_errors() {
    let (status, body) = HttpError::bad_request("nope".to_string()).response_parts();
    assert_eq!((status, body.status, body.message.as_str()), (400, "fail", "nope"));

    let (status, body) = HttpError::unauthorized("who".to_string()).response_parts();
    assert_eq!((status, body.status), (401, "fail"));

    let (status, body) = HttpError::new("halt".to_string(), 403).response_parts();
    assert_eq!((status, body.status), (403, "fail"));

    let (status, body) = HttpError::unique_constraint_violation("dup".to_string()).response_parts();
    assert_eq!((status, body.status), (409, "fail"));

    let (status, body) = HttpError::server_error("boom".to_string()).response_parts();
    assert_eq!((status, body.status), (500, "error"));

    // An unmapped status is reported as a server error.
    let (status, body) = HttpError::new("odd".to_string(), 418).response_parts();
    assert_eq!((status, body.status), (500, "error"));
}

#[test]
fn rejection_body_is_labelled_fail() {
    let body = HttpError::rejection_body(ErrorMessage::TokenNotProvided);
    assert_eq!(body.status, "fail");
    assert_eq!(body.message, "You are not logged in, please provide token");
}

#[test]
fn paging_bounds() {
    let q = RequestQueryDto { page: None, limit: None };
    assert!(q.is_valid());
    let q = RequestQueryDto { page: Some(1), limit: Some(1) };
    assert!(q.is_valid());
    let q = RequestQueryDto { page: Some(3), limit: Some(50) };
    assert!(q.is_valid());
    let q = RequestQueryDto { page: Some(0), limit: Some(10) };
    assert!(!q.is_valid());
    let q = RequestQueryDto { page: Some(2), limit: Some(0) };
    assert!(!q.is_valid());
    let q = RequestQueryDto { page: Some(2), limit: Some(51) };
    assert!(!q.is_valid());
}

#[test]
fn app_state_keeps_its_secret() {
    let state = AppState::new(b"process-secret".to_vec());
    assert_eq!(state.jwt_secret, b"process-secret".to_vec());
}
