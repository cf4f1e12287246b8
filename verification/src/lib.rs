//! A verified request router for an edge-compute service.
//!
//! An inbound request is reduced to plain values (method, path, headers),
//! its `Host` header is overwritten with a fixed value, and a single
//! routing decision is made from the method and path: reject the method,
//! answer with a fixed synthetic response, forward to a named backend,
//! or report that the page was not found.

use vstd::prelude::*;

mod demo;
mod request;
mod router;
mod text;

pub use demo::{
    DemoDecision, DemoModel, demo_decision_of, demo_handle, demo_sets_header, format_user_agent,
    version_or_zero,
};
pub use request::{Header, Request, header_value, without_name};
pub use router::{
    DecisionModel, RouteDecision, decision_of, decision_response, handle,
    lemma_other_prefix_forwarded, lemma_unallowed_method_rejected, route,
};

verus! {

/// The request methods the router distinguishes. Every method other than
/// `HEAD`, `GET` and `POST` routes the same way, so they share one variant.
#[derive(Clone, Copy, Debug, PartialEq, Eq, Structural)]
pub enum Method {
    Head,
    Get,
    Post,
    Other,
}

/// Whether the router accepts the method at all.
pub open spec fn method_allowed(m: Method) -> bool {
    m == Method::Head || m == Method::Get || m == Method::Post
}

impl Method {
    /// The allow-list check used before any path is inspected.
    pub fn is_allowed(&self) -> (r: bool)
        ensures
            r == method_allowed(*self),
    {
        match self {
            Method::Head => true,
            Method::Get => true,
            Method::Post => true,
            Method::Other => false,
        }
    }
}

} // verus!
