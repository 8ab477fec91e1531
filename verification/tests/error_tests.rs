use grease::error::GreaseError;

#[test]
fn errors_map_to_http_statuses() {
    assert_eq!(GreaseError::DbError("connection refused".to_owned()).status_code(), 500);
    assert_eq!(GreaseError::GetLocalTimeError("no offset".to_owned()).status_code(), 500);
    assert_eq!(GreaseError::DbUrlNotProvided.status_code(), 500);
    assert_eq!(GreaseError::GqlError("unknown field".to_owned()).status_code(), 400);
    assert_eq!(GreaseError::InvalidTokenHeader("not ASCII".to_owned()).status_code(), 400);
    assert_eq!(GreaseError::BadRequest("no".to_owned()).status_code(), 400);
    assert_eq!(GreaseError::ServerError("broken".to_owned()).status_code(), 500);
    assert_eq!(GreaseError::Unauthorized.status_code(), 401);
    assert_eq!(GreaseError::Forbidden(Some("edit-links".to_owned())).status_code(), 403);
}
