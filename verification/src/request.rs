//! The outbound request a component hands to its transport.

use vstd::prelude::*;

use crate::state::opt_str_view;

verus! {

/// The HTTP method of an outbound request.
#[derive(Debug, Clone, Copy, PartialEq, Eq, Structural)]
pub enum Method {
    Get,
    Post,
}

/// One outbound request, exactly as the transport collaborator receives it:
/// a method, a URL and, when the endpoint takes one, the JSON body to send.
#[derive(Debug, Clone, PartialEq)]
pub struct OutboundRequest {
    pub method: Method,
    pub url: String,
    pub body: Option<String>,
}

impl OutboundRequest {
    /// The body as a character sequence, if the request carries one.
    pub open spec fn body_view(&self) -> Option<Seq<char>> {
        opt_str_view(self.body)
    }
}

} // verus!
