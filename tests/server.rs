use uctf::server::{after_bind, respond, root_response, root_route, Method, Request, ServerConfig, Startup, PORT};

fn request(method: Method, path: &str) -> Request {
    Request { method, path: path.to_string() }
}

#[test]
fn fixed_config_is_loopback_3000() {
    let c = ServerConfig::fixed();
    assert_eq!(c.address, [127, 0, 0, 1]);
    assert_eq!(c.port, 3000);
    assert_eq!(PORT, 3000);
}

#[test]
fn root_route_is_get_slash() {
    let r = root_route();
    assert_eq!(r.method, Method::Get);
    assert_eq!(r.path, "/");
}

#[test]
fn root_response_is_ok_greeting() {
    let r = root_response();
    assert_eq!(r.status, 200);
    assert_eq!(r.body, "Hello friend from Axum.");
}

#[test]
fn get_root_answers_greeting_every_time() {
    for _ in 0..100 {
        let r = respond(&request(Method::Get, "/")).expect("GET / is routed");
        assert_eq!(r.status, 200);
        assert_eq!(r.body, "Hello friend from Axum.");
    }
}

#[test]
fn get_root_body_bytes_exact() {
    let r = respond(&request(Method::Get, "/")).unwrap();
    assert_eq!(r.body.as_bytes(), b"Hello friend from Axum.");
    assert!(!r.body.ends_with('\n'));
}

#[test]
fn other_paths_are_unmatched() {
    for p in ["", "/x", "//", "/index.html", "x", "/ ", " /", "\\"] {
        assert!(respond(&request(Method::Get, p)).is_none(), "path {:?}", p);
    }
}

#[test]
fn other_methods_on_root_are_unmatched() {
    for m in [
        Method::Head,
        Method::Post,
        Method::Put,
        Method::Delete,
        Method::Patch,
        Method::Options,
        Method::Connect,
        Method::Trace,
        Method::Other,
    ] {
        assert!(respond(&request(m, "/")).is_none(), "method {:?}", m);
    }
}

#[test]
fn route_matches_only_exact_request() {
    let r = root_route();
    assert!(r.matches(&request(Method::Get, "/")));
    assert!(!r.matches(&request(Method::Post, "/")));
    assert!(!r.matches(&request(Method::Get, "/a")));
    assert!(!r.matches(&request(Method::Get, "")));
}

#[test]
fn successful_bind_serves() {
    assert_eq!(after_bind(true), Startup::Serve);
}

#[test]
fn failed_bind_terminates() {
    assert_eq!(after_bind(false), Startup::Terminate);
}
