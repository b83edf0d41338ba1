use inventory_service::error::{ApiError, RepoError, ServiceError, StorageFailure};

#[test]
fn test_from_repo_error() {
    let repo_error = RepoError::NotFound("Not found".to_string());
    let service_error = ServiceError::from(repo_error);
    match service_error {
        ServiceError::NotFound(err) => assert_eq!(err, "Not found"),
        _ => panic!("Expected NotFound"),
    }
    let repo_error = RepoError::InvalidUuid("Invalid uuid".to_string());
    let service_error = ServiceError::from(repo_error);
    match service_error {
        ServiceError::InvalidUuid(err) => assert_eq!(err, "Invalid uuid"),
        _ => panic!("Expected InvalidUuid"),
    }
    let repo_error = RepoError::Other("Other error".to_string());
    let service_error = ServiceError::from(repo_error);
    match service_error {
        ServiceError::UnexpectedError(err) => assert_eq!(err, "Other error"),
        _ => panic!("Expected UnexpectedError"),
    }
    let repo_error = RepoError::UniqueViolation("Unique violation".to_string());
    let service_error = ServiceError::from(repo_error);
    match service_error {
        ServiceError::UniqueViolation(err) => assert_eq!(err, "Unique violation"),
        _ => panic!("Expected UniqueViolation"),
    }
}

#[test]
fn storage_failures_map_to_repo_errors() {
    assert_eq!(
        RepoError::from(StorageFailure::RowNotFound("no rows".to_string())),
        RepoError::NotFound("no rows".to_string())
    );
    assert_eq!(
        RepoError::from(StorageFailure::UniqueViolation("dup".to_string())),
        RepoError::UniqueViolation("dup".to_string())
    );
    assert_eq!(
        RepoError::from(StorageFailure::Other("boom".to_string())),
        RepoError::Other("boom".to_string())
    );
}

#[test]
fn error_mapping_table_is_total() {
    let table = vec![
        (StorageFailure::RowNotFound("a".to_string()), 404u16),
        (StorageFailure::UniqueViolation("b".to_string()), 409u16),
        (StorageFailure::Other("c".to_string()), 500u16),
    ];
    for (failure, status) in table {
        let service_error = ServiceError::from(RepoError::from(failure));
        assert_eq!(service_error.status_code(), status);
    }
    let repo_table = vec![
        (RepoError::NotFound("x".to_string()), 404u16),
        (RepoError::InvalidUuid("x".to_string()), 400u16),
        (RepoError::Other("x".to_string()), 500u16),
        (RepoError::UniqueViolation("x".to_string()), 409u16),
    ];
    for (repo_error, status) in repo_table {
        assert_eq!(ServiceError::from(repo_error).status_code(), status);
    }
    assert_eq!(ServiceError::InputValidationError("x".to_string()).status_code(), 400);
}

#[test]
fn api_error_carries_status_and_message() {
    let e = ServiceError::UniqueViolation("duplicate email".to_string());
    assert_eq!(
        e.to_api_error(),
        ApiError { status_code: 409, message: "duplicate email".to_string() }
    );
    assert_eq!(e.message(), "duplicate email");
}

#[test]
fn duplicate_email_is_conflict() {
    // The second create with the same email is rejected by the uniqueness
    // constraint of storage.
    let failure = StorageFailure::UniqueViolation(
        "duplicate key value violates unique constraint \"persons_email_key\"".to_string(),
    );
    let service_error = ServiceError::from(RepoError::from(failure));
    assert!(matches!(service_error, ServiceError::UniqueViolation(_)));
    assert_eq!(service_error.status_code(), 409);
}
