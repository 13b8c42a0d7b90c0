//! What a call can fail with: a failure that the service reported, or a
//! failure of the exchange itself.

use vstd::prelude::*;
use vstd::string::*;

use crate::error_code::ErrorCode;

verus! {

/// A failure that the service reported: its category and what the service
/// said about it.
#[derive(Debug, Eq, Hash)]
pub struct ApiException {
    pub code: ErrorCode,
    pub message: String,
}

/// An [`ApiException`], its message taken as a sequence of characters.
pub struct ApiExceptionView {
    pub code: ErrorCode,
    pub message: Seq<char>,
}

impl ApiExceptionView {
    /// The display form: the string of the code, a colon and a blank, then
    /// the message.
    pub open spec fn display(self) -> Seq<char> {
        self.code.wire_token()@ + ": "@ + self.message
    }
}

impl View for ApiException {
    type V = ApiExceptionView;

    open spec fn view(&self) -> ApiExceptionView {
        ApiExceptionView { code: self.code, message: self.message@ }
    }
}

impl PartialEq for ApiException {
    fn eq(&self, other: &ApiException) -> (equal: bool) {
        self.code == other.code && self.message == other.message
    }
}

impl vstd::std_specs::cmp::PartialEqSpecImpl for ApiException {
    open spec fn obeys_eq_spec() -> bool {
        true
    }

    open spec fn eq_spec(&self, other: &ApiException) -> bool {
        self@ == other@
    }
}

impl Clone for ApiException {
    fn clone(&self) -> (copy: ApiException)
        ensures
            copy == *self,
    {
        ApiException { code: self.code, message: self.message.clone() }
    }
}

impl ApiException {
    /// The display form of this failure.
    pub fn to_string(&self) -> (text: String)
        ensures
            text@ == self@.display(),
    {
        let mut text = self.code.to_string();
        text.append(": ");
        text.append(self.message.as_str());
        text
    }

    /// What the service said about the failure.
    pub fn description(&self) -> (message: &str)
        ensures
            message@ == self@.message,
    {
        self.message.as_str()
    }
}

/// `reqwest::Error`: what the HTTP client reports when the exchange itself
/// fails. Nothing is claimed of its contents; a value of it is carried
/// through as it came.
#[verifier::external_type_specification]
#[verifier::external_body]
pub struct ExTransportError(reqwest::Error);

/// Why a call failed.
#[derive(Debug)]
pub enum UsgsError {
    /// The service understood the request and reported a failure.
    ApiException(ApiException),
    /// The exchange itself failed: no usable response came back.
    Http(reqwest::Error),
}

impl From<ApiException> for UsgsError {
    fn from(exception: ApiException) -> (error: UsgsError) {
        UsgsError::ApiException(exception)
    }
}

impl vstd::std_specs::convert::FromSpecImpl<ApiException> for UsgsError {
    open spec fn obeys_from_spec() -> bool {
        true
    }

    open spec fn from_spec(exception: ApiException) -> UsgsError {
        UsgsError::ApiException(exception)
    }
}

impl From<reqwest::Error> for UsgsError {
    fn from(failure: reqwest::Error) -> (error: UsgsError) {
        UsgsError::Http(failure)
    }
}

impl vstd::std_specs::convert::FromSpecImpl<reqwest::Error> for UsgsError {
    open spec fn obeys_from_spec() -> bool {
        true
    }

    open spec fn from_spec(failure: reqwest::Error) -> UsgsError {
        UsgsError::Http(failure)
    }
}

} // verus!
