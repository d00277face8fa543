use plexus_core::plexus::error_codes::{ErrorCategory, ErrorCode};

const ALL: [ErrorCode; 18] = [
    ErrorCode::ParseError,
    ErrorCode::InvalidRequest,
    ErrorCode::MethodNotFound,
    ErrorCode::InvalidParams,
    ErrorCode::InternalError,
    ErrorCode::ValidationError,
    ErrorCode::NotFound,
    ErrorCode::AlreadyExists,
    ErrorCode::Unauthorized,
    ErrorCode::Forbidden,
    ErrorCode::Conflict,
    ErrorCode::Timeout,
    ErrorCode::Unsupported,
    ErrorCode::RateLimited,
    ErrorCode::ActivationNotFound,
    ErrorCode::HandleInvalid,
    ErrorCode::HandleNotSupported,
    ErrorCode::StateError,
];

#[test]
fn test_error_code_to_i32() {
    assert_eq!(ErrorCode::InvalidParams.to_i32(), -32602);
    assert_eq!(ErrorCode::MethodNotFound.to_i32(), -32601);
    assert_eq!(ErrorCode::NotFound.to_i32(), -32002);
    assert_eq!(ErrorCode::ValidationError.to_i32(), -32001);
}

#[test]
fn test_error_code_category() {
    assert_eq!(ErrorCode::InvalidParams.category(), ErrorCategory::Validation);
    assert_eq!(ErrorCode::NotFound.category(), ErrorCategory::NotFound);
    assert_eq!(ErrorCode::Timeout.category(), ErrorCategory::Timeout);
    assert_eq!(ErrorCode::Unauthorized.category(), ErrorCategory::Authentication);
}

#[test]
fn test_error_code_recoverable() {
    assert!(ErrorCode::Timeout.is_recoverable());
    assert!(ErrorCode::RateLimited.is_recoverable());
    assert!(!ErrorCode::NotFound.is_recoverable());
    assert!(!ErrorCode::ValidationError.is_recoverable());
}

#[test]
fn error_code_numbers_are_distinct() {
    for (i, a) in ALL.iter().enumerate() {
        for (j, b) in ALL.iter().enumerate() {
            if i != j {
                assert_ne!(a.to_i32(), b.to_i32());
            }
        }
    }
}

#[test]
fn error_code_remaining_numbers_and_categories() {
    assert_eq!(ErrorCode::ParseError.to_i32(), -32700);
    assert_eq!(ErrorCode::StateError.to_i32(), -32013);
    assert_eq!(ErrorCode::StateError.category(), ErrorCategory::Conflict);
    assert_eq!(ErrorCode::HandleNotSupported.category(), ErrorCategory::Unsupported);
    assert_eq!(ErrorCode::Forbidden.category(), ErrorCategory::Authorization);
    assert_eq!(ErrorCode::RateLimited.category(), ErrorCategory::RateLimit);
    assert_eq!(ErrorCode::ParseError.category(), ErrorCategory::Internal);
    assert_eq!(ErrorCode::HandleInvalid.category(), ErrorCategory::Internal);
}

#[test]
fn recoverable_codes_are_timeouts_rate_limits_and_conflicts() {
    for c in ALL.iter() {
        if c.is_recoverable() {
            assert!(matches!(
                c.category(),
                ErrorCategory::Timeout | ErrorCategory::RateLimit | ErrorCategory::Conflict
            ));
        }
    }
    assert!(ErrorCode::Conflict.is_recoverable());
    assert!(!ErrorCode::AlreadyExists.is_recoverable());
}
