use usgs_api::{
    conclude, ApiException, ErrorCode, LoginRawResponse, LoginResult, UsgsError, NO_MESSAGE,
};

fn envelope(
    error_code: Option<&str>,
    error_message: Option<&str>,
    data: &str,
    request_id: u64,
    session_id: u64,
) -> LoginRawResponse {
    LoginRawResponse {
        error_code: error_code.map(ErrorCode::from_wire_token),
        error_message: error_message.map(String::from),
        data: data.to_string(),
        request_id,
        session_id,
    }
}

#[test]
fn error_code_with_message_is_a_failure() {
    let outcome = envelope(Some("NOT_FOUND"), Some("missing dataset"), "", 1, 2).dispatch();
    assert_eq!(
        outcome,
        Err(ApiException {
            code: ErrorCode::NotFound,
            message: "missing dataset".to_string(),
        })
    );
}

#[test]
fn error_code_without_message_gets_the_fallback() {
    let outcome = envelope(Some("RATE_LIMIT"), None, "", 1, 2).dispatch();
    assert_eq!(
        outcome,
        Err(ApiException {
            code: ErrorCode::RateLimit,
            message: "No message provided by API".to_string(),
        })
    );
}

#[test]
fn fallback_message_text() {
    assert_eq!(NO_MESSAGE, "No message provided by API");
}

#[test]
fn no_error_code_is_a_success() {
    let outcome = envelope(None, None, "tok123", 10, 20).dispatch();
    assert_eq!(
        outcome,
        Ok(LoginResult {
            token: "tok123".to_string(),
            request_id: 10,
            session_id: 20,
        })
    );
}

#[test]
fn unknown_error_code_is_a_failure_with_other() {
    let outcome = envelope(Some("FUTURE_CODE_X"), Some("something new"), "", 3, 4).dispatch();
    assert_eq!(
        outcome,
        Err(ApiException {
            code: ErrorCode::Other,
            message: "something new".to_string(),
        })
    );
}

#[test]
fn payload_is_ignored_on_failure() {
    let plain = envelope(Some("SERVER_ERROR"), Some("down"), "", 0, 0).dispatch();
    let loaded = envelope(Some("SERVER_ERROR"), Some("down"), "tok123", 10, 20).dispatch();
    assert_eq!(plain, loaded);
    assert_eq!(
        loaded,
        Err(ApiException {
            code: ErrorCode::Server,
            message: "down".to_string(),
        })
    );
}

#[test]
fn message_is_ignored_on_success() {
    let outcome = envelope(None, Some("stray message"), "tok", 7, 8).dispatch();
    assert_eq!(
        outcome,
        Ok(LoginResult {
            token: "tok".to_string(),
            request_id: 7,
            session_id: 8,
        })
    );
}

#[test]
fn empty_message_is_kept() {
    let outcome = envelope(Some("UNKNOWN"), Some(""), "", 1, 1).dispatch();
    assert_eq!(
        outcome,
        Err(ApiException {
            code: ErrorCode::Unknown,
            message: String::new(),
        })
    );
}

#[test]
fn largest_identifiers_pass_through() {
    let outcome = envelope(None, None, "", u64::MAX, u64::MAX).dispatch();
    assert_eq!(
        outcome,
        Ok(LoginResult {
            token: String::new(),
            request_id: u64::MAX,
            session_id: u64::MAX,
        })
    );
}

#[test]
fn concluded_success() {
    let outcome = conclude(Ok(envelope(None, None, "tok123", 10, 20)));
    match outcome {
        Ok(result) => assert_eq!(
            result,
            LoginResult {
                token: "tok123".to_string(),
                request_id: 10,
                session_id: 20,
            }
        ),
        Err(error) => panic!("unexpected failure: {:?}", error),
    }
}

#[test]
fn concluded_failure_of_the_service() {
    let outcome = conclude(Ok(envelope(Some("AUTH_INVALID"), Some("bad login"), "", 1, 2)));
    match outcome {
        Err(UsgsError::ApiException(exception)) => assert_eq!(
            exception,
            ApiException {
                code: ErrorCode::AuthorizationInvalid,
                message: "bad login".to_string(),
            }
        ),
        other => panic!("unexpected outcome: {:?}", other),
    }
}

#[test]
fn concluded_failure_of_the_exchange() {
    let failure = reqwest::Client::new()
        .get("not an address")
        .build()
        .expect_err("the address has no scheme");
    assert!(failure.is_builder());
    let text = failure.to_string();
    match conclude(Err(failure)) {
        Err(UsgsError::Http(carried)) => {
            assert!(carried.is_builder());
            assert_eq!(carried.to_string(), text);
        }
        other => panic!("unexpected outcome: {:?}", other),
    }
}

#[test]
fn errors_convert_from_their_causes() {
    let exception = ApiException {
        code: ErrorCode::Download,
        message: "not yours".to_string(),
    };
    match UsgsError::from(exception.clone()) {
        UsgsError::ApiException(inner) => assert_eq!(inner, exception),
        other => panic!("unexpected error: {:?}", other),
    }
    let failure = reqwest::Client::new()
        .get("not an address")
        .build()
        .expect_err("the address has no scheme");
    assert!(matches!(UsgsError::from(failure), UsgsError::Http(_)));
}
