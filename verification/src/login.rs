//! The login call: what is sent, what comes back, and the rule that tells
//! a granted session from a reported failure.

use vstd::prelude::*;
use vstd::string::*;

use crate::data_types::{UserContext, UserContextView};
use crate::error_code::ErrorCode;
use crate::errors::{ApiException, ApiExceptionView, UsgsError};

verus! {

/// Message of a failure that the service reported without one.
pub const NO_MESSAGE: &'static str = "No message provided by API";

/// What the login call is sent.
#[derive(Debug, Hash, PartialEq, Eq)]
pub struct LoginParameters<'a> {
    pub username: &'a str,
    pub password: &'a str,
    pub user_context: Option<UserContext<'a>>,
}

/// [`LoginParameters`], its strings taken as sequences of characters.
pub struct LoginParametersView {
    pub username: Seq<char>,
    pub password: Seq<char>,
    pub user_context: Option<UserContextView>,
}

impl<'a> View for LoginParameters<'a> {
    type V = LoginParametersView;

    open spec fn view(&self) -> LoginParametersView {
        LoginParametersView {
            username: self.username@,
            password: self.password@,
            user_context: match self.user_context {
                Some(context) => Some(context@),
                None => None,
            },
        }
    }
}

impl<'a> Clone for LoginParameters<'a> {
    fn clone(&self) -> (copy: LoginParameters<'a>)
        ensures
            copy == *self,
    {
        LoginParameters {
            username: self.username,
            password: self.password,
            user_context: match &self.user_context {
                Some(context) => Some(context.clone()),
                None => None,
            },
        }
    }
}

impl<'a> Default for LoginParameters<'a> {
    /// Empty credentials and no user context.
    fn default() -> (parameters: LoginParameters<'a>)
        ensures
            parameters@ == (LoginParametersView {
                username: ""@,
                password: ""@,
                user_context: None,
            }),
    {
        LoginParameters { username: "", password: "", user_context: None }
    }
}

/// The response envelope as decoded from the wire.
#[derive(Debug, Hash, PartialEq, Eq)]
pub struct LoginRawResponse {
    pub error_code: Option<ErrorCode>,
    pub error_message: Option<String>,
    pub data: String,
    pub request_id: u64,
    pub session_id: u64,
}

/// A [`LoginRawResponse`], its strings taken as sequences of characters.
pub struct LoginRawResponseView {
    pub error_code: Option<ErrorCode>,
    pub error_message: Option<Seq<char>>,
    pub data: Seq<char>,
    pub request_id: u64,
    pub session_id: u64,
}

impl View for LoginRawResponse {
    type V = LoginRawResponseView;

    open spec fn view(&self) -> LoginRawResponseView {
        LoginRawResponseView {
            error_code: self.error_code,
            error_message: match self.error_message {
                Some(message) => Some(message@),
                None => None,
            },
            data: self.data@,
            request_id: self.request_id,
            session_id: self.session_id,
        }
    }
}

impl Clone for LoginRawResponse {
    fn clone(&self) -> (copy: LoginRawResponse)
        ensures
            copy == *self,
    {
        LoginRawResponse {
            error_code: self.error_code,
            error_message: match &self.error_message {
                Some(message) => Some(message.clone()),
                None => None,
            },
            data: self.data.clone(),
            request_id: self.request_id,
            session_id: self.session_id,
        }
    }
}

impl Default for LoginRawResponse {
    /// A success with an empty payload and both identifiers zero.
    fn default() -> (response: LoginRawResponse)
        ensures
            response@ == (LoginRawResponseView {
                error_code: None,
                error_message: None,
                data: ""@,
                request_id: 0,
                session_id: 0,
            }),
    {
        LoginRawResponse {
            error_code: None,
            error_message: None,
            data: "".to_owned(),
            request_id: 0,
            session_id: 0,
        }
    }
}

/// What a successful login gives: the session token and the identifiers of
/// the exchange.
#[derive(Debug, Hash, Eq)]
pub struct LoginResult {
    pub token: String,
    pub request_id: u64,
    pub session_id: u64,
}

/// A [`LoginResult`], its token taken as a sequence of characters.
pub struct LoginResultView {
    pub token: Seq<char>,
    pub request_id: u64,
    pub session_id: u64,
}

impl View for LoginResult {
    type V = LoginResultView;

    open spec fn view(&self) -> LoginResultView {
        LoginResultView {
            token: self.token@,
            request_id: self.request_id,
            session_id: self.session_id,
        }
    }
}

impl PartialEq for LoginResult {
    fn eq(&self, other: &LoginResult) -> (equal: bool) {
        self.token == other.token && self.request_id == other.request_id && self.session_id
            == other.session_id
    }
}

impl vstd::std_specs::cmp::PartialEqSpecImpl for LoginResult {
    open spec fn obeys_eq_spec() -> bool {
        true
    }

    open spec fn eq_spec(&self, other: &LoginResult) -> bool {
        self@ == other@
    }
}

impl Clone for LoginResult {
    fn clone(&self) -> (copy: LoginResult)
        ensures
            copy == *self,
    {
        LoginResult {
            token: self.token.clone(),
            request_id: self.request_id,
            session_id: self.session_id,
        }
    }
}

impl Default for LoginResult {
    /// An empty token and both identifiers zero.
    fn default() -> (result: LoginResult)
        ensures
            result@ == (LoginResultView { token: ""@, request_id: 0, session_id: 0 }),
    {
        LoginResult { token: "".to_owned(), request_id: 0, session_id: 0 }
    }
}

impl LoginRawResponseView {
    /// What the envelope means. An error code, and nothing else, makes it a
    /// failure: the failure carries that code with the message sent, or with
    /// [`NO_MESSAGE`] where none was sent, and the payload is not looked at.
    /// Without an error code the payload and the two identifiers are the
    /// result, and a message is not looked at.
    pub open spec fn dispatch(self) -> Result<LoginResultView, ApiExceptionView> {
        match self.error_code {
            Some(code) => Err(
                ApiExceptionView {
                    code,
                    message: match self.error_message {
                        Some(message) => message,
                        None => NO_MESSAGE@,
                    },
                },
            ),
            None => Ok(
                LoginResultView {
                    token: self.data,
                    request_id: self.request_id,
                    session_id: self.session_id,
                },
            ),
        }
    }
}

impl LoginRawResponse {
    /// Tells a granted session from a reported failure, as
    /// [`LoginRawResponseView::dispatch`] says.
    pub fn dispatch(self) -> (outcome: Result<LoginResult, ApiException>)
        ensures
            outcome is Err <==> self.error_code is Some,
            match self@.dispatch() {
                Ok(result) => outcome matches Ok(granted) && granted@ == result,
                Err(exception) => outcome matches Err(reported) && reported@ == exception,
            },
    {
        match self.error_code {
            Some(code) => match self.error_message {
                Some(message) => Err(ApiException { code, message }),
                None => Err(ApiException { code, message: NO_MESSAGE.to_owned() }),
            },
            None => Ok(
                LoginResult {
                    token: self.data,
                    request_id: self.request_id,
                    session_id: self.session_id,
                },
            ),
        }
    }
}

/// What a call reports once the exchange is over. A failed exchange is
/// handed on as it is and never turned into a failure of the service; a
/// decoded envelope is dispatched.
pub fn conclude(exchange: Result<LoginRawResponse, reqwest::Error>) -> (outcome: Result<
    LoginResult,
    UsgsError,
>)
    ensures
        match exchange {
            Ok(response) => match response@.dispatch() {
                Ok(result) => outcome matches Ok(granted) && granted@ == result,
                Err(exception) => outcome matches Err(UsgsError::ApiException(reported))
                    && reported@ == exception,
            },
            Err(failure) => outcome matches Err(UsgsError::Http(carried)) && carried == failure,
        },
{
    match exchange {
        Ok(response) => match response.dispatch() {
            Ok(granted) => Ok(granted),
            Err(reported) => Err(UsgsError::ApiException(reported)),
        },
        Err(failure) => Err(UsgsError::Http(failure)),
    }
}

} // verus!
