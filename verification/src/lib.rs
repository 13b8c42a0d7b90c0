//! Typed client binding for the USGS machine-to-machine API: the login call,
//! the taxonomy of error codes the service reports, and the rule that tells
//! a successful response from a failed one.

pub mod client;
pub mod data_types;
pub mod endpoint;
pub mod error_code;
pub mod errors;
pub mod login;
pub mod text;

pub use client::{ApiVersion, Usgs, API_URL};
pub use data_types::UserContext;
pub use endpoint::Endpoint;
pub use error_code::ErrorCode;
pub use errors::{ApiException, UsgsError};
pub use login::{conclude, LoginParameters, LoginRawResponse, LoginResult, NO_MESSAGE};
