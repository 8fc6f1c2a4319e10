use roomlog::api::{CustomError, JoinSessionErrorData};
use roomlog::error::{CommonError, InMemoryRepositoryError, RepositoryError};

#[test]
fn error_codes_name_each_kind() {
    assert_eq!(CustomError::SessionCreationError.error_code(), "SESSION_CREATION_ERROR");
    assert_eq!(CustomError::SessionCreationError2.error_code(), "SESSION_CREATION_ERROR2");
    assert_eq!(CustomError::LogicError.error_code(), "LOGIC_ERROR");
    let join_error = CustomError::SessionJoinError(JoinSessionErrorData {
        detail: "User not found".to_string(),
    });
    assert_eq!(join_error.error_code(), "SESSION_JOIN_ERROR");
    let actix_error = CustomError::ActixWebError("Some Actix error".to_string());
    assert_eq!(actix_error.error_code(), "ACTIX_WEB_ERROR");
}

#[test]
fn error_details_accompany_the_kinds_that_carry_one() {
    assert_eq!(CustomError::SessionCreationError.error_detail(), None);
    assert_eq!(CustomError::SessionCreationError2.error_detail(), None);
    assert_eq!(CustomError::LogicError.error_detail(), None);
    let join_error = CustomError::SessionJoinError(JoinSessionErrorData {
        detail: "Internal server error".to_string(),
    });
    assert_eq!(join_error.error_detail(), Some("Internal server error".to_string()));
    let actix_error = CustomError::ActixWebError("Network failure".to_string());
    assert_eq!(actix_error.error_detail(), Some("Network failure".to_string()));
}

#[test]
fn join_error_data_renders_its_detail() {
    let data = JoinSessionErrorData { detail: "Internal server error".to_string() };
    assert_eq!(data.message(), "Detail: Internal server error");
}

#[test]
fn repository_error_round_trip() {
    let wrapped = InMemoryRepositoryError::from("Room with id 7 not found".to_string());
    let inner: RepositoryError = wrapped.into_inner();
    assert_eq!(inner.message, "Room with id 7 not found");
}

#[test]
fn storage_error_maps_to_generic_domain_error() {
    let storage = RepositoryError { message: "disk on fire".to_string() };
    match CommonError::from(storage) {
        CommonError::Repository { message } => assert_eq!(message, "disk on fire"),
        other => panic!("expected the generic storage error, got {:?}", other),
    }
}
