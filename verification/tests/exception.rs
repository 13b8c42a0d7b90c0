use std::collections::HashSet;

use usgs_api::{ApiException, ErrorCode};

#[test]
fn exception_displays_code_and_message() {
    let exception = ApiException {
        code: ErrorCode::NotFound,
        message: "x".to_string(),
    };
    assert_eq!(exception.to_string(), "NOT_FOUND: x");
}

#[test]
fn exception_with_other_displays_the_placeholder() {
    let exception = ApiException {
        code: ErrorCode::Other,
        message: "something new".to_string(),
    };
    assert_eq!(exception.to_string(), "Undocumented error code: something new");
}

#[test]
fn exception_with_empty_message() {
    let exception = ApiException {
        code: ErrorCode::RateLimit,
        message: String::new(),
    };
    assert_eq!(exception.to_string(), "RATE_LIMIT: ");
}

#[test]
fn exception_message_is_not_escaped() {
    let exception = ApiException {
        code: ErrorCode::Search,
        message: "a: b\nc ü".to_string(),
    };
    assert_eq!(exception.to_string(), "SEARCH_ERROR: a: b\nc ü");
}

#[test]
fn description_is_the_message() {
    let exception = ApiException {
        code: ErrorCode::OrderInvalid,
        message: "no such order".to_string(),
    };
    assert_eq!(exception.description(), "no such order");
}

#[test]
fn exceptions_compare_by_value() {
    let exception = ApiException {
        code: ErrorCode::Export,
        message: "failed".to_string(),
    };
    assert_eq!(exception.clone(), exception);
    assert_ne!(
        exception,
        ApiException {
            code: ErrorCode::Export,
            message: "Failed".to_string(),
        }
    );
    assert_ne!(
        exception,
        ApiException {
            code: ErrorCode::Download,
            message: "failed".to_string(),
        }
    );
}

#[test]
fn exceptions_hash_by_value() {
    let mut seen: HashSet<ApiException> = HashSet::new();
    assert!(seen.insert(ApiException {
        code: ErrorCode::Server,
        message: "down".to_string(),
    }));
    assert!(!seen.insert(ApiException {
        code: ErrorCode::Server,
        message: "down".to_string(),
    }));
    assert!(seen.insert(ApiException {
        code: ErrorCode::Server,
        message: "up".to_string(),
    }));
    assert_eq!(seen.len(), 2);
}
