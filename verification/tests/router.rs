use edge_router::{
    Header, Method, Request, RouteDecision, decision_response, handle, route,
};

fn request(method: Method, path: &str, headers: Vec<(&str, &str)>) -> Request {
    Request {
        method,
        path: path.to_string(),
        headers: headers
            .into_iter()
            .map(|(name, value)| Header { name: name.to_string(), value: value.to_string() })
            .collect(),
    }
}

#[test]
fn unallowed_method_is_rejected_on_any_path() {
    for path in ["/", "/backend", "/other/x", "/anything", ""] {
        let d = route(Method::Other, path);
        assert!(matches!(d, RouteDecision::Reject(405)));
        let (status, body) = decision_response(&d).unwrap();
        assert_eq!(status, 405);
        assert_eq!(body, "This method is not allowed");
    }
}

#[test]
fn get_root_greets() {
    let d = route(Method::Get, "/");
    match &d {
        RouteDecision::Synthetic(status, body) => {
            assert_eq!(*status, 200);
            assert_eq!(body, "Welcome to Fastly Compute@Edge!");
        }
        other => panic!("unexpected decision: {:?}", decision_response(other)),
    }
    let (status, body) = decision_response(&d).unwrap();
    assert_eq!(status, 200);
    assert_eq!(body, "Welcome to Fastly Compute@Edge!");
}

#[test]
fn get_backend_forwards_to_first_backend() {
    let d = route(Method::Get, "/backend");
    assert!(matches!(&d, RouteDecision::Forward(backend) if backend == "backend_name"));
    assert!(decision_response(&d).is_none());
}

#[test]
fn get_under_other_forwards_to_second_backend() {
    for path in ["/other/anything", "/other/", "/other/a/b/c"] {
        let d = route(Method::Get, path);
        assert!(
            matches!(&d, RouteDecision::Forward(backend) if backend == "other_backend_name"),
            "path {path} was not forwarded",
        );
    }
}

#[test]
fn bare_other_is_not_found() {
    let d = route(Method::Get, "/other");
    assert!(matches!(d, RouteDecision::NotFound));
}

#[test]
fn post_unknown_is_not_found_with_fixed_page() {
    let d = route(Method::Post, "/unknown");
    assert!(matches!(d, RouteDecision::NotFound));
    let (status, body) = decision_response(&d).unwrap();
    assert_eq!(status, 404);
    assert_eq!(body, "The page you requested could not be found");
}

#[test]
fn allowed_methods_other_than_get_fall_through() {
    assert!(matches!(route(Method::Head, "/"), RouteDecision::NotFound));
    assert!(matches!(route(Method::Post, "/"), RouteDecision::NotFound));
    assert!(matches!(route(Method::Head, "/backend"), RouteDecision::NotFound));
    assert!(matches!(route(Method::Post, "/other/x"), RouteDecision::NotFound));
}

fn host_values(req: &Request) -> Vec<&str> {
    req.headers
        .iter()
        .filter(|h| h.name.eq_ignore_ascii_case("host"))
        .map(|h| h.value.as_str())
        .collect::<Vec<_>>()
}

#[test]
fn handle_overwrites_host_for_a_routed_request() {
    let mut req = request(
        Method::Get,
        "/backend",
        vec![("Host", "upstream.test"), ("Accept", "*/*"), ("HOST", "second.test")],
    );
    let d = handle(&mut req);
    assert!(matches!(&d, RouteDecision::Forward(backend) if backend == "backend_name"));
    assert_eq!(host_values(&req), ["example.com"]);
    assert_eq!(req.headers[0].name, "Accept");
    assert_eq!(req.headers[0].value, "*/*");
    assert_eq!(req.headers.len(), 2);
    assert_eq!(req.headers[1].name, "Host");
}

#[test]
fn handle_overwrites_host_even_when_rejecting() {
    let mut req = request(Method::Other, "/anywhere", vec![("host", "upstream.test")]);
    let d = handle(&mut req);
    assert!(matches!(d, RouteDecision::Reject(405)));
    assert_eq!(host_values(&req), ["example.com"]);
    assert_eq!(req.headers.len(), 1);
}

#[test]
fn handle_adds_host_when_none_was_sent() {
    let mut req = request(Method::Get, "/", vec![]);
    let d = handle(&mut req);
    assert!(matches!(d, RouteDecision::Synthetic(200, _)));
    assert_eq!(host_values(&req), ["example.com"]);
}

#[test]
fn set_header_replaces_case_insensitively_and_keeps_order() {
    let mut req = request(
        Method::Get,
        "/",
        vec![("a", "1"), ("KEY", "2"), ("b", "3"), ("key", "4")],
    );
    req.set_header("Key", "new");
    let names: Vec<&str> = req.headers.iter().map(|h| h.name.as_str()).collect();
    let values: Vec<&str> = req.headers.iter().map(|h| h.value.as_str()).collect();
    assert_eq!(names, ["a", "b", "Key"]);
    assert_eq!(values, ["1", "3", "new"]);
}

#[test]
fn get_header_is_case_insensitive_and_takes_the_first() {
    let req = request(Method::Get, "/", vec![("X-One", "first"), ("x-one", "second")]);
    assert_eq!(req.get_header("X-ONE").unwrap().as_str(), "first");
    assert!(req.get_header("x-two").is_none());
}
