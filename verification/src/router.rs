//! The routing decision: a pure function of method and path, applied once
//! per request after the fixed `Host` override, with the fixed response
//! texts for the synthetic outcomes.

use vstd::prelude::*;

use crate::{Method, method_allowed};
use crate::request::{Request, header_value, without_name};
use crate::text::{is_prefix, str_eq, str_starts_with};

verus! {

/// What the router decided for one request: reject the method outright,
/// answer with a synthetic response, forward to a named backend, or report
/// that no page matches.
pub enum RouteDecision {
    Reject(u16),
    Synthetic(u16, String),
    Forward(String),
    NotFound,
}

/// The mathematical shape of a decision, with every string as its
/// character sequence.
pub enum DecisionModel {
    Reject(u16),
    Synthetic(u16, Seq<char>),
    Forward(Seq<char>),
    NotFound,
}

impl View for RouteDecision {
    type V = DecisionModel;

    open spec fn view(&self) -> DecisionModel {
        match self {
            RouteDecision::Reject(status) => DecisionModel::Reject(*status),
            RouteDecision::Synthetic(status, body) => DecisionModel::Synthetic(*status, body@),
            RouteDecision::Forward(backend) => DecisionModel::Forward(backend@),
            RouteDecision::NotFound => DecisionModel::NotFound,
        }
    }
}

/// The routing rules, ordered, first match wins: disallowed methods are
/// rejected with 405; `GET /` greets; `GET /backend` forwards to the first
/// backend; `GET` under `/other/` forwards to the second; everything else
/// is not found.
pub open spec fn decision_of(m: Method, path: Seq<char>) -> DecisionModel {
    if !method_allowed(m) {
        DecisionModel::Reject(405)
    } else if m == Method::Get && path == "/"@ {
        DecisionModel::Synthetic(200, "Welcome to Fastly Compute@Edge!"@)
    } else if m == Method::Get && path == "/backend"@ {
        DecisionModel::Forward("backend_name"@)
    } else if m == Method::Get && is_prefix(path, "/other/"@) {
        DecisionModel::Forward("other_backend_name"@)
    } else {
        DecisionModel::NotFound
    }
}

/// Decide a request from its method and path alone.
pub fn route(method: Method, path: &str) -> (d: RouteDecision)
    ensures
        d@ == decision_of(method, path@),
{
    if !method.is_allowed() {
        return RouteDecision::Reject(405);
    }
    if method == Method::Get && str_eq(path, "/") {
        RouteDecision::Synthetic(200, "Welcome to Fastly Compute@Edge!".to_owned())
    } else if method == Method::Get && str_eq(path, "/backend") {
        RouteDecision::Forward("backend_name".to_owned())
    } else if method == Method::Get && str_starts_with(path, "/other/") {
        RouteDecision::Forward("other_backend_name".to_owned())
    } else {
        RouteDecision::NotFound
    }
}

/// Handle one request: overwrite its `Host` header with the fixed value —
/// before the method check, so also for requests about to be rejected —
/// then decide it. The decision depends on method and path alone.
pub fn handle(req: &mut Request) -> (d: RouteDecision)
    ensures
        d@ == decision_of(old(req).method, old(req).path@),
        final(req).method == old(req).method,
        final(req).path@ == old(req).path@,
        final(req).headers@.len() == without_name(old(req).headers@, "Host"@).len() + 1,
        final(req).headers@.drop_last() == without_name(old(req).headers@, "Host"@),
        final(req).headers@.last().name@ == "Host"@,
        final(req).headers@.last().value@ == "example.com"@,
        header_value(final(req).headers@, "Host"@) == Some("example.com"@),
{
    req.set_header("Host", "example.com");
    route(req.method, req.path.as_str())
}

/// The response a decision stands for, where it stands for one: the fixed
/// rejection text for `Reject`, the carried status and body for
/// `Synthetic`, the fixed not-found page for `NotFound`. A `Forward`
/// decision yields no local response.
pub fn decision_response(d: &RouteDecision) -> (r: Option<(u16, String)>)
    ensures
        match d@ {
            DecisionModel::Reject(status) => r matches Some(p) && p.0 == status && p.1@
                == "This method is not allowed"@,
            DecisionModel::Synthetic(status, body) => r matches Some(p) && p.0 == status && p.1@
                == body,
            DecisionModel::Forward(_) => r is None,
            DecisionModel::NotFound => r matches Some(p) && p.0 == 404 && p.1@
                == "The page you requested could not be found"@,
        },
{
    match d {
        RouteDecision::Reject(status) => Some((*status, "This method is not allowed".to_owned())),
        RouteDecision::Synthetic(status, body) => Some((*status, body.clone())),
        RouteDecision::Forward(_) => None,
        RouteDecision::NotFound => Some(
            (404, "The page you requested could not be found".to_owned()),
        ),
    }
}

/// Law: a method outside the allowed set is rejected with status 405,
/// whatever the path.
pub proof fn lemma_unallowed_method_rejected(m: Method, path: Seq<char>)
    requires
        !method_allowed(m),
    ensures
        decision_of(m, path) == DecisionModel::Reject(405),
{
}

/// Law: every `GET` whose path begins with `/other/` — the bare prefix
/// included — is forwarded to the second backend.
pub proof fn lemma_other_prefix_forwarded(path: Seq<char>)
    requires
        is_prefix(path, "/other/"@),
    ensures
        decision_of(Method::Get, path) == DecisionModel::Forward("other_backend_name"@),
{
    reveal_strlit("/");
    reveal_strlit("/backend");
    reveal_strlit("/other/");
    assert(path[1] == "/other/"@[1]);
    assert(path.len() >= 7);
    assert(path != "/"@);
    assert(path != "/backend"@);
}

} // verus!
