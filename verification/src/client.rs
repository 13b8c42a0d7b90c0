//! Where the service lives: the base address and the version segment joined
//! to it.

use vstd::prelude::*;
use vstd::string::*;

verus! {

/// Base address of the JSON API; a version segment follows it.
pub const API_URL: &'static str = "https://m2m.cr.usgs.gov/api/api/json/";

/// Release channel of the remote API.
#[derive(Debug, Clone, Copy, Hash, PartialEq, Eq, PartialOrd, Ord, Structural)]
pub enum ApiVersion {
    Development,
    Experimental,
    Stable,
}

impl ApiVersion {
    /// The path segment that selects this version.
    pub open spec fn segment(self) -> &'static str {
        match self {
            ApiVersion::Development => "development",
            ApiVersion::Experimental => "experimental",
            ApiVersion::Stable => "stable",
        }
    }

    /// The path segment that selects this version.
    pub fn path_segment(self) -> (segment: &'static str)
        ensures
            segment == self.segment(),
            segment@ == self.segment()@,
    {
        match self {
            ApiVersion::Development => "development",
            ApiVersion::Experimental => "experimental",
            ApiVersion::Stable => "stable",
        }
    }
}

impl From<ApiVersion> for &'static str {
    fn from(version: ApiVersion) -> (segment: &'static str) {
        version.path_segment()
    }
}

impl vstd::std_specs::convert::FromSpecImpl<ApiVersion> for &'static str {
    open spec fn obeys_from_spec() -> bool {
        true
    }

    open spec fn from_spec(version: ApiVersion) -> &'static str {
        version.segment()
    }
}

/// Handle on one version of the API.
pub struct Usgs {
    url: String,
}

impl View for Usgs {
    type V = Seq<char>;

    /// The address that requests are sent to.
    closed spec fn view(&self) -> Seq<char> {
        self.url@
    }
}

impl Usgs {
    /// A handle whose address is the base address followed by the segment of
    /// `version`.
    pub fn new(version: ApiVersion) -> (usgs: Usgs)
        ensures
            usgs@ == API_URL@ + version.segment()@,
    {
        let version_string: &'static str = version.path_segment();
        Usgs { url: String::from_str(API_URL).concat(version_string) }
    }

    /// The address that requests are sent to.
    pub fn url(&self) -> (url: &str)
        ensures
            url@ == self@,
    {
        self.url.as_str()
    }
}

} // verus!
