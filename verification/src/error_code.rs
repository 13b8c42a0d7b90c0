//! The error codes that the service reports, and the strings that stand for
//! them on the wire.
//!
//! Every code but [`ErrorCode::Other`] is documented by the service and has
//! one wire token of its own. `Other` gathers whatever else the service may
//! send; it has no wire token, only a placeholder for display.

use vstd::prelude::*;
use vstd::string::*;

use crate::text::str_eq;

verus! {

/// Category of a failure reported by the service.
#[derive(Debug, Clone, Copy, PartialEq, Eq, Hash, Structural)]
pub enum ErrorCode {
    // General
    /// This endpoint is not available to the requested version
    EndpointUnavailable,
    /// An unknown error occurred
    Unknown,
    /// JSON payload could not be parsed as valid JSON
    InputFormat,
    /// Invalid parameters used
    InputParameterInvalid,
    /// Invalid input used
    InputInvalid,
    /// Couldn't find the input
    NotFound,
    /// API not configured to handle the request
    Server,
    /// Unknown version used
    VersionUnknown,
    // Authentication
    /// User credential verification failed
    AuthorizationInvalid,
    /// User account does not have access to the requested endpoint
    Unauthorized,
    /// Invalid API key
    AuthorizationKeyInvalid,
    // Rate limit
    /// User attempted to run multiple requests at a time
    RateLimit,
    /// User has reached download-related rate limits
    RateLimitUserDownloadLimit,
    // Download
    /// Download does not belong to the user
    Download,
    // Export
    /// Unable to create metadata export
    Export,
    // Inventory
    /// The dataset does not support the request; details are in the message
    Dataset,
    /// Dataset is not available to the user; details are in the message
    DatasetUnauthorized,
    /// Dataset is not available to the user; details are in the message
    DatasetAuthorization,
    /// Invalid dataset used
    DatasetInvalid,
    /// Unable to clear dataset customization
    DatasetCustomClear,
    /// Unable to get dataset customization
    DatasetCustomizationGet,
    /// Unable to get dataset customizations
    DatasetCustomizationsGet,
    /// Unable to create or update dataset customization
    DatasetCustomizationSet,
    /// Unable to create or update dataset customizations
    DatasetCustomizationsSet,
    // Search
    /// Unable to create search records or to auto-execute the search request
    SearchCreate,
    /// Unable to execute search request
    Search,
    /// Unable to execute search request
    SearchExecute,
    /// Search failed
    SearchFailed,
    /// Unable to turn results into the response format
    SearchResult,
    /// Search has not been completed
    SearchUnavailable,
    /// Unable to update the search; details are in the message
    SearchUpdate,
    // Orders
    /// An order related error occurred; details are in the message
    Order,
    /// Order does not belong to the user
    OrderAuthorization,
    /// Invalid order given
    OrderInvalid,
    /// Unable to restore order units; details are in the message
    RestoreOrder,
    // Subscription
    /// Subscription creation failed
    Subscription,
    /// The code received is not documented
    Other,
}

impl ErrorCode {
    /// Whether the service documents this code, that is, whether it is
    /// anything but the catch-all.
    pub open spec fn is_documented(self) -> bool {
        self != ErrorCode::Other
    }

    /// The string that stands for this code: its wire token, or for `Other`
    /// the display placeholder.
    pub open spec fn wire_token(self) -> &'static str {
        match self {
            ErrorCode::EndpointUnavailable => "ENDPOINT_UNAVAILABLE",
            ErrorCode::Unknown => "UNKNOWN",
            ErrorCode::InputFormat => "INPUT_FORMAT",
            ErrorCode::InputParameterInvalid => "INPUT_PARAMETER_INVALID",
            ErrorCode::InputInvalid => "INPUT_INVALID",
            ErrorCode::NotFound => "NOT_FOUND",
            ErrorCode::Server => "SERVER_ERROR",
            ErrorCode::VersionUnknown => "VERSION_UNKNOWN",
            ErrorCode::AuthorizationInvalid => "AUTH_INVALID",
            ErrorCode::Unauthorized => "AUTH_UNAUTHORIZED",
            ErrorCode::AuthorizationKeyInvalid => "AUTH_KEY_INVALID",
            ErrorCode::RateLimit => "RATE_LIMIT",
            ErrorCode::RateLimitUserDownloadLimit => "RATE_LIMIT_USER_DL",
            ErrorCode::Download => "DOWNLOAD_ERROR",
            ErrorCode::Export => "EXPORT_ERROR",
            ErrorCode::Dataset => "DATASET_ERROR",
            ErrorCode::DatasetUnauthorized => "DATASET_UNAUTHORIZED",
            ErrorCode::DatasetAuthorization => "DATASET_AUTH",
            ErrorCode::DatasetInvalid => "DATASET_INVALID",
            ErrorCode::DatasetCustomClear => "DATASET_CUSTOM_CLEAR_ERROR",
            ErrorCode::DatasetCustomizationGet => "DATASET_CUSTOM_GET_ERROR",
            ErrorCode::DatasetCustomizationsGet => "DATASET_CUSTOMS_GET_ERROR",
            ErrorCode::DatasetCustomizationSet => "DATASET_CUSTOM_SET_ERROR",
            ErrorCode::DatasetCustomizationsSet => "DATASET_CUSTOMS_SET_ERROR",
            ErrorCode::SearchCreate => "SEARCH_CREATE_ERROR",
            ErrorCode::Search => "SEARCH_ERROR",
            ErrorCode::SearchExecute => "SEARCH_EXECUTE_ERROR",
            ErrorCode::SearchFailed => "SEARCH_FAILED",
            ErrorCode::SearchResult => "SEARCH_RESULT_ERROR",
            ErrorCode::SearchUnavailable => "SEARCH_UNAVAILABLE",
            ErrorCode::SearchUpdate => "SEARCH_UPDATE_ERROR",
            ErrorCode::Order => "ORDER_ERROR",
            ErrorCode::OrderAuthorization => "ORDER_AUTH",
            ErrorCode::OrderInvalid => "ORDER_INVALID",
            ErrorCode::RestoreOrder => "RESTORE_ORDER_ERROR",
            ErrorCode::Subscription => "SUBSCRIPTION_ERROR",
            ErrorCode::Other => "Undocumented error code",
        }
    }

    /// Whether `token` is the wire token of some documented code.
    pub open spec fn is_wire_token(token: Seq<char>) -> bool {
        exists|code: ErrorCode| code.is_documented() && #[trigger] code.wire_token()@ == token
    }

    /// The code that `token` stands for: the documented code with that wire
    /// token, and `Other` where there is none.
    pub open spec fn of_wire_token(token: Seq<char>) -> ErrorCode {
        if Self::is_wire_token(token) {
            choose|code: ErrorCode| code.is_documented() && #[trigger] code.wire_token()@ == token
        } else {
            ErrorCode::Other
        }
    }

    /// The string that stands for this code: its wire token, or for `Other`
    /// the display placeholder, which is no wire token.
    pub fn to_wire_token(&self) -> (token: &'static str)
        ensures
            token == self.wire_token(),
            token@ == self.wire_token()@,
    {
        match self {
            ErrorCode::EndpointUnavailable => "ENDPOINT_UNAVAILABLE",
            ErrorCode::Unknown => "UNKNOWN",
            ErrorCode::InputFormat => "INPUT_FORMAT",
            ErrorCode::InputParameterInvalid => "INPUT_PARAMETER_INVALID",
            ErrorCode::InputInvalid => "INPUT_INVALID",
            ErrorCode::NotFound => "NOT_FOUND",
            ErrorCode::Server => "SERVER_ERROR",
            ErrorCode::VersionUnknown => "VERSION_UNKNOWN",
            ErrorCode::AuthorizationInvalid => "AUTH_INVALID",
            ErrorCode::Unauthorized => "AUTH_UNAUTHORIZED",
            ErrorCode::AuthorizationKeyInvalid => "AUTH_KEY_INVALID",
            ErrorCode::RateLimit => "RATE_LIMIT",
            ErrorCode::RateLimitUserDownloadLimit => "RATE_LIMIT_USER_DL",
            ErrorCode::Download => "DOWNLOAD_ERROR",
            ErrorCode::Export => "EXPORT_ERROR",
            ErrorCode::Dataset => "DATASET_ERROR",
            ErrorCode::DatasetUnauthorized => "DATASET_UNAUTHORIZED",
            ErrorCode::DatasetAuthorization => "DATASET_AUTH",
            ErrorCode::DatasetInvalid => "DATASET_INVALID",
            ErrorCode::DatasetCustomClear => "DATASET_CUSTOM_CLEAR_ERROR",
            ErrorCode::DatasetCustomizationGet => "DATASET_CUSTOM_GET_ERROR",
            ErrorCode::DatasetCustomizationsGet => "DATASET_CUSTOMS_GET_ERROR",
            ErrorCode::DatasetCustomizationSet => "DATASET_CUSTOM_SET_ERROR",
            ErrorCode::DatasetCustomizationsSet => "DATASET_CUSTOMS_SET_ERROR",
            ErrorCode::SearchCreate => "SEARCH_CREATE_ERROR",
            ErrorCode::Search => "SEARCH_ERROR",
            ErrorCode::SearchExecute => "SEARCH_EXECUTE_ERROR",
            ErrorCode::SearchFailed => "SEARCH_FAILED",
            ErrorCode::SearchResult => "SEARCH_RESULT_ERROR",
            ErrorCode::SearchUnavailable => "SEARCH_UNAVAILABLE",
            ErrorCode::SearchUpdate => "SEARCH_UPDATE_ERROR",
            ErrorCode::Order => "ORDER_ERROR",
            ErrorCode::OrderAuthorization => "ORDER_AUTH",
            ErrorCode::OrderInvalid => "ORDER_INVALID",
            ErrorCode::RestoreOrder => "RESTORE_ORDER_ERROR",
            ErrorCode::Subscription => "SUBSCRIPTION_ERROR",
            ErrorCode::Other => "Undocumented error code",
        }
    }

    /// Whether `token` is, character for character, the string that stands
    /// for this code.
    fn is_spelled(self, token: &str) -> (hit: bool)
        ensures
            hit == (self.wire_token()@ == token@),
    {
        str_eq(token, self.to_wire_token())
    }

    /// The code that `token` stands for. The match is exact: no trimming and
    /// no folding of case. A token that no documented code has, the empty
    /// string among them, gives `Other`.
    pub fn from_wire_token(token: &str) -> (code: ErrorCode)
        ensures
            code == Self::of_wire_token(token@),
            code.is_documented() <==> Self::is_wire_token(token@),
            code.is_documented() ==> code.wire_token()@ == token@,
    {
        proof {
            lemma_of_wire_token(token@);
        }
        if ErrorCode::EndpointUnavailable.is_spelled(token) {
            return ErrorCode::EndpointUnavailable;
        }
        if ErrorCode::Unknown.is_spelled(token) {
            return ErrorCode::Unknown;
        }
        if ErrorCode::InputFormat.is_spelled(token) {
            return ErrorCode::InputFormat;
        }
        if ErrorCode::InputParameterInvalid.is_spelled(token) {
            return ErrorCode::InputParameterInvalid;
        }
        if ErrorCode::InputInvalid.is_spelled(token) {
            return ErrorCode::InputInvalid;
        }
        if ErrorCode::NotFound.is_spelled(token) {
            return ErrorCode::NotFound;
        }
        if ErrorCode::Server.is_spelled(token) {
            return ErrorCode::Server;
        }
        if ErrorCode::VersionUnknown.is_spelled(token) {
            return ErrorCode::VersionUnknown;
        }
        if ErrorCode::AuthorizationInvalid.is_spelled(token) {
            return ErrorCode::AuthorizationInvalid;
        }
        if ErrorCode::Unauthorized.is_spelled(token) {
            return ErrorCode::Unauthorized;
        }
        if ErrorCode::AuthorizationKeyInvalid.is_spelled(token) {
            return ErrorCode::AuthorizationKeyInvalid;
        }
        if ErrorCode::RateLimit.is_spelled(token) {
            return ErrorCode::RateLimit;
        }
        if ErrorCode::RateLimitUserDownloadLimit.is_spelled(token) {
            return ErrorCode::RateLimitUserDownloadLimit;
        }
        if ErrorCode::Download.is_spelled(token) {
            return ErrorCode::Download;
        }
        if ErrorCode::Export.is_spelled(token) {
            return ErrorCode::Export;
        }
        if ErrorCode::Dataset.is_spelled(token) {
            return ErrorCode::Dataset;
        }
        if ErrorCode::DatasetUnauthorized.is_spelled(token) {
            return ErrorCode::DatasetUnauthorized;
        }
        if ErrorCode::DatasetAuthorization.is_spelled(token) {
            return ErrorCode::DatasetAuthorization;
        }
        if ErrorCode::DatasetInvalid.is_spelled(token) {
            return ErrorCode::DatasetInvalid;
        }
        if ErrorCode::DatasetCustomClear.is_spelled(token) {
            return ErrorCode::DatasetCustomClear;
        }
        if ErrorCode::DatasetCustomizationGet.is_spelled(token) {
            return ErrorCode::DatasetCustomizationGet;
        }
        if ErrorCode::DatasetCustomizationsGet.is_spelled(token) {
            return ErrorCode::DatasetCustomizationsGet;
        }
        if ErrorCode::DatasetCustomizationSet.is_spelled(token) {
            return ErrorCode::DatasetCustomizationSet;
        }
        if ErrorCode::DatasetCustomizationsSet.is_spelled(token) {
            return ErrorCode::DatasetCustomizationsSet;
        }
        if ErrorCode::SearchCreate.is_spelled(token) {
            return ErrorCode::SearchCreate;
        }
        if ErrorCode::Search.is_spelled(token) {
            return ErrorCode::Search;
        }
        if ErrorCode::SearchExecute.is_spelled(token) {
            return ErrorCode::SearchExecute;
        }
        if ErrorCode::SearchFailed.is_spelled(token) {
            return ErrorCode::SearchFailed;
        }
        if ErrorCode::SearchResult.is_spelled(token) {
            return ErrorCode::SearchResult;
        }
        if ErrorCode::SearchUnavailable.is_spelled(token) {
            return ErrorCode::SearchUnavailable;
        }
        if ErrorCode::SearchUpdate.is_spelled(token) {
            return ErrorCode::SearchUpdate;
        }
        if ErrorCode::Order.is_spelled(token) {
            return ErrorCode::Order;
        }
        if ErrorCode::OrderAuthorization.is_spelled(token) {
            return ErrorCode::OrderAuthorization;
        }
        if ErrorCode::OrderInvalid.is_spelled(token) {
            return ErrorCode::OrderInvalid;
        }
        if ErrorCode::RestoreOrder.is_spelled(token) {
            return ErrorCode::RestoreOrder;
        }
        if ErrorCode::Subscription.is_spelled(token) {
            return ErrorCode::Subscription;
        }
        ErrorCode::Other
    }

    /// The display form of this code: the string that stands for it.
    pub fn to_string(&self) -> (text: String)
        ensures
            text@ == self.wire_token()@,
    {
        self.to_wire_token().to_owned()
    }
}

impl<'a> From<&'a str> for ErrorCode {
    fn from(code: &'a str) -> (decoded: ErrorCode) {
        ErrorCode::from_wire_token(code)
    }
}

impl<'a> vstd::std_specs::convert::FromSpecImpl<&'a str> for ErrorCode {
    open spec fn obeys_from_spec() -> bool {
        true
    }

    open spec fn from_spec(code: &'a str) -> ErrorCode {
        ErrorCode::of_wire_token(code@)
    }
}

impl<'a> From<&'a ErrorCode> for &'static str {
    fn from(code: &'a ErrorCode) -> (token: &'static str) {
        code.to_wire_token()
    }
}

impl<'a> vstd::std_specs::convert::FromSpecImpl<&'a ErrorCode> for &'static str {
    open spec fn obeys_from_spec() -> bool {
        true
    }

    open spec fn from_spec(code: &'a ErrorCode) -> &'static str {
        code.wire_token()
    }
}

/// Whether `c` may occur in a wire token: an upper-case letter of ASCII or
/// the underscore.
pub open spec fn is_wire_char(c: char) -> bool {
    ('A' <= c && c <= 'Z') || c == '_'
}

/// Two codes with the same string are the same code: no two documented
/// codes share a wire token, and the placeholder of `Other` is none of them.
pub proof fn lemma_tokens_are_distinct(a: ErrorCode, b: ErrorCode)
    requires
        a.wire_token()@ == b.wire_token()@,
    ensures
        a == b,
{
    lemma_token_table();
}

/// A string stands for the one documented code whose wire token it is, and
/// for `Other` where it is the wire token of none.
pub proof fn lemma_of_wire_token(token: Seq<char>)
    ensures
        forall|code: ErrorCode|
            code.is_documented() && #[trigger] code.wire_token()@ == token
                ==> ErrorCode::of_wire_token(token) == code,
        ErrorCode::of_wire_token(token).is_documented() <==> ErrorCode::is_wire_token(token),
        ErrorCode::of_wire_token(token).is_documented() ==> ErrorCode::of_wire_token(
            token,
        ).wire_token()@ == token,
{
    assert forall|code: ErrorCode|
        code.is_documented() && #[trigger] code.wire_token()@ == token
        implies ErrorCode::of_wire_token(token) == code by {
        lemma_tokens_are_distinct(ErrorCode::of_wire_token(token), code);
    }
}

/// Round trip from a code: the wire token of a documented code stands for
/// that code.
pub proof fn lemma_round_trip(code: ErrorCode)
    requires
        code.is_documented(),
    ensures
        ErrorCode::is_wire_token(code.wire_token()@),
        ErrorCode::of_wire_token(code.wire_token()@) == code,
{
    lemma_of_wire_token(code.wire_token()@);
}

/// Round trip from a token: the code that a wire token stands for is
/// documented, and writing it gives the token back.
pub proof fn lemma_token_round_trip(token: Seq<char>)
    requires
        ErrorCode::is_wire_token(token),
    ensures
        ErrorCode::of_wire_token(token).is_documented(),
        ErrorCode::of_wire_token(token).wire_token()@ == token,
{
}

/// A string that is the wire token of no documented code stands for `Other`.
pub proof fn lemma_unlisted_is_other(token: Seq<char>)
    requires
        forall|code: ErrorCode| code.is_documented() ==> #[trigger] code.wire_token()@ != token,
    ensures
        ErrorCode::of_wire_token(token) == ErrorCode::Other,
{
}

/// A wire token is not empty and holds upper-case letters and underscores
/// only.
pub proof fn lemma_wire_alphabet(code: ErrorCode)
    requires
        code.is_documented(),
    ensures
        code.wire_token()@.len() > 0,
        forall|i: int|
            0 <= i < code.wire_token()@.len() ==> is_wire_char(#[trigger] code.wire_token()@[i]),
{
    lemma_token_table();
}

/// The empty string, and any string with a character that is neither an
/// upper-case letter nor the underscore (a lower-case letter, a blank),
/// stands for `Other`.
pub proof fn lemma_off_alphabet_is_other(token: Seq<char>)
    requires
        token.len() == 0 || exists|i: int|
            0 <= i < token.len() && !is_wire_char(#[trigger] token[i]),
    ensures
        !ErrorCode::is_wire_token(token),
        ErrorCode::of_wire_token(token) == ErrorCode::Other,
{
    lemma_token_table();
}

/// The placeholder that `Other` is displayed as is no wire token: read as
/// one, it stands for `Other` again.
pub proof fn lemma_placeholder_is_no_wire_token()
    ensures
        !ErrorCode::is_wire_token(ErrorCode::Other.wire_token()@),
        ErrorCode::of_wire_token(ErrorCode::Other.wire_token()@) == ErrorCode::Other,
{
    lemma_token_table();
}

/// What the strings of the table hold, read off character by character.
proof fn lemma_token_table()
    ensures
        forall|a: ErrorCode, b: ErrorCode|
            #![trigger a.wire_token(), b.wire_token()]
            a.wire_token()@ == b.wire_token()@ ==> a == b,
        forall|code: ErrorCode| (#[trigger] code.wire_token())@.len() > 0,
        forall|code: ErrorCode, i: int|
            code.is_documented() && 0 <= i < code.wire_token()@.len() ==> is_wire_char(
                #[trigger] code.wire_token()@[i],
            ),
{
    reveal_strlit("ENDPOINT_UNAVAILABLE");
    reveal_strlit("UNKNOWN");
    reveal_strlit("INPUT_FORMAT");
    reveal_strlit("INPUT_PARAMETER_INVALID");
    reveal_strlit("INPUT_INVALID");
    reveal_strlit("NOT_FOUND");
    reveal_strlit("SERVER_ERROR");
    reveal_strlit("VERSION_UNKNOWN");
    reveal_strlit("AUTH_INVALID");
    reveal_strlit("AUTH_UNAUTHORIZED");
    reveal_strlit("AUTH_KEY_INVALID");
    reveal_strlit("RATE_LIMIT");
    reveal_strlit("RATE_LIMIT_USER_DL");
    reveal_strlit("DOWNLOAD_ERROR");
    reveal_strlit("EXPORT_ERROR");
    reveal_strlit("DATASET_ERROR");
    reveal_strlit("DATASET_UNAUTHORIZED");
    reveal_strlit("DATASET_AUTH");
    reveal_strlit("DATASET_INVALID");
    reveal_strlit("DATASET_CUSTOM_CLEAR_ERROR");
    reveal_strlit("DATASET_CUSTOM_GET_ERROR");
    reveal_strlit("DATASET_CUSTOMS_GET_ERROR");
    reveal_strlit("DATASET_CUSTOM_SET_ERROR");
    reveal_strlit("DATASET_CUSTOMS_SET_ERROR");
    reveal_strlit("SEARCH_CREATE_ERROR");
    reveal_strlit("SEARCH_ERROR");
    reveal_strlit("SEARCH_EXECUTE_ERROR");
    reveal_strlit("SEARCH_FAILED");
    reveal_strlit("SEARCH_RESULT_ERROR");
    reveal_strlit("SEARCH_UNAVAILABLE");
    reveal_strlit("SEARCH_UPDATE_ERROR");
    reveal_strlit("ORDER_ERROR");
    reveal_strlit("ORDER_AUTH");
    reveal_strlit("ORDER_INVALID");
    reveal_strlit("RESTORE_ORDER_ERROR");
    reveal_strlit("SUBSCRIPTION_ERROR");
    reveal_strlit("Undocumented error code");
    assert forall|a: ErrorCode, b: ErrorCode|
        #![trigger a.wire_token(), b.wire_token()]
        a.wire_token()@ == b.wire_token()@ implies a == b by {
        let s = a.wire_token()@;
        let t = b.wire_token()@;
        // The length and the characters at these four places tell any two
        // of the strings apart.
        assert(s.len() == t.len());
        assert(s[2] == t[2] && s[7] == t[7] && s[15] == t[15] && s[16] == t[16]);
    }
}

} // verus!
