use supply_domain::error::CustomError;

#[test]
fn test_custom_error() {
    let error = CustomError::Error("some error".to_string());
    assert_eq!(error.to_string(), "some error");
}

#[test]
fn test_custom_api_error() {
    let error = CustomError::ApiError("ApiError".to_string());
    assert_eq!(error.to_string(), "ApiError: ApiError");
}

#[test]
fn test_custom_repository_error() {
    let error = CustomError::RepositoryError("RepositoryError".to_string());
    assert_eq!(error.to_string(), "RepositoryError: RepositoryError");
}
