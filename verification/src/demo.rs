//! A second, demonstration router: fixed bodies, header echoes, a
//! user-agent formatter, host-provided geo data, and a deliberate
//! abrupt-termination path for test harnesses. Its decision is a pure
//! function of the method, the path, whether a proxy header is present,
//! and whether a client address is known.

use vstd::prelude::*;
use vstd::string::StringExecFns;

use crate::Method;
use crate::request::{Request, header_value, without_name};
use crate::text::{is_prefix, str_eq, str_starts_with};

verus! {

/// What the demonstration router decided: forward to a named backend,
/// answer with a synthetic response, hand the user-agent or geo work to
/// the host, terminate abruptly on demand, or report no page.
pub enum DemoDecision {
    Forward(String),
    Synthetic(u16, String),
    UserAgent,
    Geo,
    Abort,
    NotFound,
}

/// The mathematical shape of a demonstration decision.
pub enum DemoModel {
    Forward(Seq<char>),
    Synthetic(u16, Seq<char>),
    UserAgent,
    Geo,
    Abort,
    NotFound,
}

impl View for DemoDecision {
    type V = DemoModel;

    open spec fn view(&self) -> DemoModel {
        match self {
            DemoDecision::Forward(backend) => DemoModel::Forward(backend@),
            DemoDecision::Synthetic(status, body) => DemoModel::Synthetic(*status, body@),
            DemoDecision::UserAgent => DemoModel::UserAgent,
            DemoDecision::Geo => DemoModel::Geo,
            DemoDecision::Abort => DemoModel::Abort,
            DemoDecision::NotFound => DemoModel::NotFound,
        }
    }
}

/// The demonstration rules, ordered, first match wins. A request carrying
/// the proxy header is forwarded before anything else is looked at; every
/// remaining rule asks for `GET`.
pub open spec fn demo_decision_of(m: Method, path: Seq<char>, proxied: bool, has_ip: bool) -> DemoModel {
    if proxied {
        DemoModel::Forward("httpbin"@)
    } else if m == Method::Get && path == "/simple-response"@ {
        DemoModel::Synthetic(200, "Hello, world!"@)
    } else if m == Method::Get && path == "/no-body"@ {
        DemoModel::Synthetic(204, ""@)
    } else if m == Method::Get && path == "/user-agent"@ {
        DemoModel::UserAgent
    } else if m == Method::Get && path == "/append-header"@ {
        DemoModel::Forward("backend"@)
    } else if m == Method::Get && path == "/append-body"@ {
        DemoModel::Synthetic(200, "original\nappended"@)
    } else if m == Method::Get && is_prefix(path, "/proxy"@) {
        DemoModel::Forward("backend"@)
    } else if m == Method::Get && path == "/panic!"@ {
        DemoModel::Abort
    } else if m == Method::Get && path == "/geo"@ && !has_ip {
        DemoModel::Synthetic(500, ""@)
    } else if m == Method::Get && path == "/geo"@ {
        DemoModel::Geo
    } else if m == Method::Get && is_prefix(path, "/testdata"@) {
        DemoModel::Forward("backend"@)
    } else {
        DemoModel::NotFound
    }
}

/// Whether handling the request tags it with the test header before
/// forwarding.
pub open spec fn demo_sets_header(m: Method, path: Seq<char>, proxied: bool) -> bool {
    !proxied && m == Method::Get && path == "/append-header"@
}

/// Decide one request for the demonstration router. The request is
/// untouched, except that the header-echo page tags it with
/// `test-header: test-value` before it is forwarded.
pub fn demo_handle(req: &mut Request, has_client_ip: bool) -> (d: DemoDecision)
    ensures
        final(req).method == old(req).method,
        final(req).path@ == old(req).path@,
        d@ == demo_decision_of(
            old(req).method,
            old(req).path@,
            header_value(old(req).headers@, "httpbin-proxy"@) is Some,
            has_client_ip,
        ),
        demo_sets_header(
            old(req).method,
            old(req).path@,
            header_value(old(req).headers@, "httpbin-proxy"@) is Some,
        ) ==> final(req).headers@.drop_last() == without_name(old(req).headers@, "test-header"@),
        demo_sets_header(
            old(req).method,
            old(req).path@,
            header_value(old(req).headers@, "httpbin-proxy"@) is Some,
        ) ==> final(req).headers@.last().name@ == "test-header"@
            && final(req).headers@.last().value@ == "test-value"@,
        demo_sets_header(
            old(req).method,
            old(req).path@,
            header_value(old(req).headers@, "httpbin-proxy"@) is Some,
        ) ==> header_value(final(req).headers@, "test-header"@) == Some("test-value"@),
        !demo_sets_header(
            old(req).method,
            old(req).path@,
            header_value(old(req).headers@, "httpbin-proxy"@) is Some,
        ) ==> final(req).headers@ == old(req).headers@,
{
    proof {
        reveal_strlit("/simple-response");
        reveal_strlit("/no-body");
        reveal_strlit("/user-agent");
        reveal_strlit("/append-header");
    }
    if req.get_header("httpbin-proxy").is_some() {
        return DemoDecision::Forward("httpbin".to_owned());
    }
    let tags_request = req.method == Method::Get && str_eq(req.path.as_str(), "/append-header");
    proof {
        assert(tags_request == demo_sets_header(
            old(req).method,
            old(req).path@,
            header_value(old(req).headers@, "httpbin-proxy"@) is Some,
        ));
    }
    if tags_request {
        req.set_header("test-header", "test-value");
    }
    if req.method == Method::Get && str_eq(req.path.as_str(), "/simple-response") {
        DemoDecision::Synthetic(200, "Hello, world!".to_owned())
    } else if req.method == Method::Get && str_eq(req.path.as_str(), "/no-body") {
        DemoDecision::Synthetic(204, "".to_owned())
    } else if req.method == Method::Get && str_eq(req.path.as_str(), "/user-agent") {
        DemoDecision::UserAgent
    } else if tags_request {
        DemoDecision::Forward("backend".to_owned())
    } else if req.method == Method::Get && str_eq(req.path.as_str(), "/append-body") {
        DemoDecision::Synthetic(200, "original\nappended".to_owned())
    } else if req.method == Method::Get && str_starts_with(req.path.as_str(), "/proxy") {
        DemoDecision::Forward("backend".to_owned())
    } else if req.method == Method::Get && str_eq(req.path.as_str(), "/panic!") {
        DemoDecision::Abort
    } else if req.method == Method::Get && str_eq(req.path.as_str(), "/geo") {
        if !has_client_ip {
            DemoDecision::Synthetic(500, "".to_owned())
        } else {
            DemoDecision::Geo
        }
    } else if req.method == Method::Get && str_starts_with(req.path.as_str(), "/testdata") {
        DemoDecision::Forward("backend".to_owned())
    } else {
        DemoDecision::NotFound
    }
}

/// The version sequence `v`, or `"0"` where none was reported.
pub open spec fn version_or_zero(v: Option<String>) -> Seq<char> {
    match v {
        Some(s) => s@,
        None => "0"@,
    }
}

/// The one-line summary of a parsed user agent: the family, a space, and
/// the three version parts joined by dots, each part `"0"` when missing.
/// `None` — the parse failed — yields the fixed error text.
pub fn format_user_agent(parsed: Option<(String, Option<String>, Option<String>, Option<String>)>) -> (r:
    String)
    ensures
        match parsed {
            None => r@ == "error"@,
            Some(p) => r@ == p.0@ + " "@ + version_or_zero(p.1) + "."@ + version_or_zero(p.2)
                + "."@ + version_or_zero(p.3),
        },
{
    match parsed {
        None => "error".to_owned(),
        Some((family, major, minor, patch)) => {
            let mut line = family;
            line.append(" ");
            let major_text: &str = match &major {
                Some(v) => v.as_str(),
                None => "0",
            };
            line.append(major_text);
            line.append(".");
            let minor_text: &str = match &minor {
                Some(v) => v.as_str(),
                None => "0",
            };
            line.append(minor_text);
            line.append(".");
            let patch_text: &str = match &patch {
                Some(v) => v.as_str(),
                None => "0",
            };
            line.append(patch_text);
            line
        },
    }
}

} // verus!
