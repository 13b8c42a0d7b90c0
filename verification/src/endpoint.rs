//! The shape of an endpoint of the service.

use vstd::prelude::*;

verus! {

/// One endpoint: where it lives below the versioned base address, what it
/// is sent, what comes back on the wire and what the caller gets.
pub trait Endpoint {
    const PATH: &'static str;

    type Parameters;

    type RawResponse;

    type Result;
}

} // verus!
