use usgs_api::text::str_eq;
use usgs_api::{
    ApiVersion, LoginParameters, LoginRawResponse, LoginResult, UserContext, Usgs, API_URL,
};

#[test]
fn it_works() {
    let result: i32 = 2 + 2;
    assert_eq!(result, 4);
}

#[test]
fn address_ends_in_the_version() {
    assert_eq!(
        Usgs::new(ApiVersion::Development).url(),
        "https://m2m.cr.usgs.gov/api/api/json/development"
    );
    assert_eq!(
        Usgs::new(ApiVersion::Experimental).url(),
        "https://m2m.cr.usgs.gov/api/api/json/experimental"
    );
    assert_eq!(
        Usgs::new(ApiVersion::Stable).url(),
        "https://m2m.cr.usgs.gov/api/api/json/stable"
    );
}

#[test]
fn base_address() {
    assert_eq!(API_URL, "https://m2m.cr.usgs.gov/api/api/json/");
}

#[test]
fn version_segments() {
    assert_eq!(ApiVersion::Development.path_segment(), "development");
    assert_eq!(ApiVersion::Experimental.path_segment(), "experimental");
    assert_eq!(ApiVersion::Stable.path_segment(), "stable");
}

#[test]
fn version_converts_into_a_string() {
    let segment: &'static str = ApiVersion::Stable.into();
    assert_eq!(segment, "stable");
    assert_eq!(<&'static str>::from(ApiVersion::Development), "development");
}

#[test]
fn versions_are_ordered_as_declared() {
    assert!(ApiVersion::Development < ApiVersion::Experimental);
    assert!(ApiVersion::Experimental < ApiVersion::Stable);
}

#[test]
fn default_parameters_are_empty() {
    let parameters = LoginParameters::default();
    assert_eq!(parameters.username, "");
    assert_eq!(parameters.password, "");
    assert_eq!(parameters.user_context, None);
}

#[test]
fn parameters_with_credentials() {
    let parameters = LoginParameters {
        username: "alice",
        password: "secret",
        ..Default::default()
    };
    assert_eq!(parameters.username, "alice");
    assert_eq!(parameters.password, "secret");
    assert_eq!(parameters.user_context, None);
    assert_eq!(parameters.clone(), parameters);
}

#[test]
fn user_context_keeps_its_parts() {
    let context = UserContext::new("contact-7", "192.0.2.1");
    assert_eq!(context.contact_id(), "contact-7");
    assert_eq!(context.ip_address(), "192.0.2.1");
    assert_eq!(context.clone(), context);
    let parameters = LoginParameters {
        username: "alice",
        password: "secret",
        user_context: Some(context.clone()),
    };
    assert_eq!(parameters.clone().user_context, Some(context));
}

#[test]
fn default_response_and_result() {
    assert_eq!(
        LoginRawResponse::default(),
        LoginRawResponse {
            error_code: None,
            error_message: None,
            data: String::new(),
            request_id: 0,
            session_id: 0,
        }
    );
    assert_eq!(
        LoginResult::default(),
        LoginResult {
            token: String::new(),
            request_id: 0,
            session_id: 0,
        }
    );
}

#[test]
fn clones_are_equal() {
    let response = LoginRawResponse {
        error_code: None,
        error_message: Some("note".to_string()),
        data: "tok".to_string(),
        request_id: 5,
        session_id: 6,
    };
    assert_eq!(response.clone(), response);
    let result = LoginResult {
        token: "tok".to_string(),
        request_id: 5,
        session_id: 6,
    };
    assert_eq!(result.clone(), result);
}

#[test]
fn strings_compare_by_their_characters() {
    assert!(str_eq("", ""));
    assert!(str_eq("NOT_FOUND", "NOT_FOUND"));
    assert!(!str_eq("NOT_FOUND", "NOT_FOUNd"));
    assert!(!str_eq("NOT_FOUND", "NOT_FOUN"));
    assert!(!str_eq("NOT_FOUN", "NOT_FOUND"));
    assert!(!str_eq("", " "));
    assert!(str_eq("grüße", "grüße"));
    assert!(!str_eq("grüße", "grusse"));
}
