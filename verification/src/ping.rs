//! The ping widget: it has no fields and one action, a GET of the server's
//! version and status record.

use vstd::prelude::*;
use vstd::string::StringExecFns;

use crate::request::{Method, OutboundRequest};

verus! {

/// The decoded payload of the version/status endpoint.
#[derive(Debug, Clone, PartialEq)]
pub struct VersionInfo {
    pub status: String,
    pub desktop_latest_version: String,
    pub desktop_min_version: String,
    pub android_latest_version: String,
    pub android_min_version: String,
    pub ios_latest_version: String,
    pub ios_min_version: String,
}

/// The URL the ping widget calls.
pub open spec fn ping_url() -> Seq<char> {
    "http://localhost:8065/api/v4/system/ping"@
}

/// The ping widget's one outbound request: a GET with no body.
pub fn ping_request() -> (r: OutboundRequest)
    ensures
        r.method is Get,
        r.url@ == ping_url(),
        r.body_view() is None,
{
    OutboundRequest {
        method: Method::Get,
        url: String::from_str("http://localhost:8065/api/v4/system/ping"),
        body: Option::None,
    }
}

} // verus!
