use multiproxy::config::{Config, ConfigError, ProxyConfig, TomlConfig};
use multiproxy::message::{
    BackendResponse, ClientResponse, Destination, Header, HttpVersion, InboundRequest, Method,
};
use multiproxy::proxy::{
    complete, error_response, is_tls, relay, select_transport, Action, DispatchError, Proxy,
    ProxyError, ProxyService, Transport,
};
use multiproxy::routes::RouteTable;
use multiproxy::target::BackendTarget;

fn toml_config(routes: &[(&str, &str)]) -> TomlConfig {
    TomlConfig {
        proxy: ProxyConfig { address: "127.0.0.1:8080".to_string() },
        routes: routes.iter().map(|(p, u)| (p.to_string(), u.to_string())).collect(),
    }
}

fn scenario_proxy() -> Proxy {
    let config = Config::parse_uris(toml_config(&[
        ("/api", "http://localhost:9001"),
        ("/secure", "https://localhost:9443"),
    ]))
    .unwrap();
    Proxy::new(config)
}

fn get(path: &str) -> InboundRequest<Vec<u8>> {
    InboundRequest {
        method: Method::Get,
        path: path.to_string(),
        query: None,
        version: HttpVersion::Http11,
        headers: vec![],
        body: vec![],
    }
}

fn target(scheme: Option<&str>, authority: Option<&str>, path: &str) -> BackendTarget {
    BackendTarget {
        scheme: scheme.map(|s| s.to_string()),
        authority: authority.map(|s| s.to_string()),
        path: path.to_string(),
        query: None,
    }
}

fn header(name: &str, value: &[u8]) -> Header {
    Header { name: name.to_string(), value: value.to_vec() }
}

fn backend(status: u16, headers: Vec<Header>, body: &str) -> BackendResponse<Vec<u8>> {
    BackendResponse { status, headers, body: body.as_bytes().to_vec() }
}

fn expect_response(action: Action<Vec<u8>>) -> ClientResponse<Vec<u8>> {
    match action {
        Action::Respond(resp) => resp,
        Action::Dispatch { .. } => panic!("expected an immediate response"),
    }
}

fn expect_dispatch(action: Action<Vec<u8>>) -> (multiproxy::message::OutboundRequest<Vec<u8>>, Transport) {
    match action {
        Action::Dispatch { request, transport } => (request, transport),
        Action::Respond(resp) => panic!("expected a dispatch, got status {}", resp.status),
    }
}

#[test]
fn scenario_unknown_api_and_unreachable_secure() {
    let proxy = scenario_proxy();
    let service = proxy.service();

    let resp = expect_response(service.route(get("/unknown")));
    assert_eq!(resp.status, 404);
    assert!(resp.body.is_none());

    let (request, transport) = expect_dispatch(service.route(get("/api")));
    assert_eq!(transport, Transport::Plain);
    assert_eq!(request.destination.to_uri_string(), "http://localhost:9001/api");
    let resp = complete(Ok(backend(200, vec![], "ok")));
    assert_eq!(resp.status, 200);
    assert_eq!(resp.body, Some(b"ok".to_vec()));

    let (request, transport) = expect_dispatch(service.route(get("/secure")));
    assert_eq!(transport, Transport::Tls);
    assert_eq!(request.destination.to_uri_string(), "https://localhost:9443/secure");
    let resp = complete::<Vec<u8>>(Err(DispatchError::Unreachable));
    assert_eq!(resp.status, 502);
    assert!(resp.body.is_none());
}

#[test]
fn unrouted_paths_are_not_found() {
    let proxy = scenario_proxy();
    let service = proxy.service();
    for path in ["/", "/ap", "/api/", "/API", "/api/v1", "/secure/x", ""] {
        let resp = expect_response(service.route(get(path)));
        assert_eq!(resp.status, 404, "path {:?}", path);
        assert!(resp.headers.is_empty());
        assert!(resp.body.is_none());
    }
}

#[test]
fn empty_table_answers_everything_not_found() {
    let table = RouteTable::new();
    let service = ProxyService::new(&table);
    let resp = expect_response(service.route(get("/api")));
    assert_eq!(resp.status, 404);
}

#[test]
fn forwarded_request_keeps_method_version_headers_and_body() {
    let mut table = RouteTable::new();
    table.insert("/upload".to_string(), target(Some("http"), Some("backend:8000"), "/"));
    let service = ProxyService::new(&table);
    let req = InboundRequest {
        method: Method::Post,
        path: "/upload".to_string(),
        query: Some("id=7".to_string()),
        version: HttpVersion::Http10,
        headers: vec![header("content-type", b"text/plain"), header("x-raw", &[0xff, 0x00, 0x41])],
        body: b"payload bytes".to_vec(),
    };
    let (request, transport) = expect_dispatch(service.route(req));
    assert_eq!(transport, Transport::Plain);
    assert!(matches!(request.method, Method::Post));
    assert_eq!(request.version, HttpVersion::Http10);
    assert_eq!(request.headers.len(), 2);
    assert_eq!(request.headers[0].name, "content-type");
    assert_eq!(request.headers[0].value, b"text/plain".to_vec());
    assert_eq!(request.headers[1].name, "x-raw");
    assert_eq!(request.headers[1].value, vec![0xff, 0x00, 0x41]);
    assert_eq!(request.body, b"payload bytes".to_vec());
    assert_eq!(request.destination.to_uri_string(), "http://backend:8000/upload?id=7");
}

#[test]
fn target_path_replaces_request_path() {
    let config = Config::parse_uris(toml_config(&[("/a", "http://localhost:9001/base?x=1")])).unwrap();
    let proxy = Proxy::new(config);
    let service = proxy.service();
    let mut req = get("/a");
    req.query = Some("dropped=1".to_string());
    req.method = Method::Other("PURGE".to_string());
    let (request, _) = expect_dispatch(service.route(req));
    assert_eq!(request.destination.scheme, "http");
    assert_eq!(request.destination.authority, "localhost:9001");
    assert_eq!(request.destination.path, "/base");
    assert_eq!(request.destination.query, Some("x=1".to_string()));
    assert!(matches!(request.method, Method::Other(ref m) if m == "PURGE"));
}

#[test]
fn parsed_target_components() {
    let config = Config::parse_uris(toml_config(&[("/a", "https://example.org:8443/p/q?k=v")])).unwrap();
    let t = config.routes.resolve(&"/a".to_string()).unwrap();
    assert_eq!(t.scheme, Some("https".to_string()));
    assert_eq!(t.authority, Some("example.org:8443".to_string()));
    assert_eq!(t.path, "/p/q");
    assert_eq!(t.query, Some("k=v".to_string()));
    assert!(config.routes.resolve(&"/b".to_string()).is_none());
}

#[test]
fn transport_follows_scheme() {
    assert!(is_tls(&target(Some("https"), Some("h"), "/")));
    assert!(!is_tls(&target(Some("http"), Some("h"), "/")));
    assert!(!is_tls(&target(Some("ws"), Some("h"), "/")));
    assert!(!is_tls(&target(None, Some("h"), "/")));
    assert_eq!(select_transport(&target(Some("https"), Some("a"), "/x")), Transport::Tls);
    assert_eq!(select_transport(&target(Some("https"), Some("b"), "/")), Transport::Tls);
    assert_eq!(select_transport(&target(Some("http"), Some("a"), "/x")), Transport::Plain);
}

#[test]
fn route_without_authority_is_bad_gateway() {
    let mut table = RouteTable::new();
    table.insert("/x".to_string(), target(Some("http"), None, "/"));
    table.insert("/y".to_string(), target(None, Some("h:1"), "/"));
    let service = ProxyService::new(&table);
    for path in ["/x", "/y"] {
        let resp = expect_response(service.route(get(path)));
        assert_eq!(resp.status, 502);
        assert!(resp.body.is_none());
    }
}

#[test]
fn backend_response_is_relayed_verbatim() {
    let resp = relay(backend(201, vec![header("location", b"/items/9"), header("x-a", b"1")], "made"));
    assert_eq!(resp.status, 201);
    assert_eq!(resp.headers.len(), 2);
    assert_eq!(resp.headers[0].name, "location");
    assert_eq!(resp.headers[0].value, b"/items/9".to_vec());
    assert_eq!(resp.headers[1].name, "x-a");
    assert_eq!(resp.body, Some(b"made".to_vec()));

    let resp = complete(Ok(backend(503, vec![header("retry-after", b"5")], "")));
    assert_eq!(resp.status, 503);
    assert_eq!(resp.headers[0].value, b"5".to_vec());
}

#[test]
fn dispatch_failures_map_to_gateway_statuses() {
    let cases = [
        (DispatchError::Unreachable, 502),
        (DispatchError::Timeout, 504),
        (DispatchError::BadUpstream, 502),
        (DispatchError::TlsFailure, 502),
    ];
    for (e, status) in cases {
        let resp = complete::<Vec<u8>>(Err(e));
        assert_eq!(resp.status, status);
        assert!(resp.headers.is_empty());
        assert!(resp.body.is_none());
    }
}

#[test]
fn proxy_error_statuses() {
    assert_eq!(ProxyError::RouteNotFound.status(), 404);
    assert_eq!(ProxyError::Transform.status(), 502);
    assert_eq!(ProxyError::Dispatch(DispatchError::Timeout).status(), 504);
    assert_eq!(ProxyError::Dispatch(DispatchError::Unreachable).status(), 502);
    let resp: ClientResponse<Vec<u8>> = error_response(ProxyError::Transform);
    assert_eq!(resp.status, 502);
}

#[test]
fn failure_classification() {
    assert_eq!(DispatchError::classify(Transport::Plain, true, true, true), DispatchError::Timeout);
    assert_eq!(DispatchError::classify(Transport::Tls, false, true, false), DispatchError::TlsFailure);
    assert_eq!(DispatchError::classify(Transport::Tls, false, true, true), DispatchError::Unreachable);
    assert_eq!(DispatchError::classify(Transport::Plain, false, true, false), DispatchError::Unreachable);
    assert_eq!(DispatchError::classify(Transport::Plain, false, false, false), DispatchError::BadUpstream);
}

#[test]
fn invalid_urls_are_skipped() {
    assert!(!Config::is_valid(&"not a url".to_string()));
    assert!(Config::is_valid(&"http://localhost:9001".to_string()));
    let config = Config::parse_uris(toml_config(&[
        ("/bad", "not a url"),
        ("/good", "http://localhost:9001"),
    ]))
    .unwrap();
    assert!(config.routes.resolve(&"/bad".to_string()).is_none());
    assert!(config.routes.resolve(&"/good".to_string()).is_some());
    assert_eq!(config.proxy.address, "127.0.0.1:8080");
}

#[test]
fn url_without_authority_refuses_config() {
    let r = Config::parse_uris(toml_config(&[
        ("/ok", "http://localhost:9001"),
        ("/file", "file:///etc/hosts"),
    ]));
    match r {
        Err(ConfigError::InvalidUri { path, uri }) => {
            assert_eq!(path, "/file");
            assert_eq!(uri, "file:///etc/hosts");
        }
        Ok(_) => panic!("expected the configuration to be refused"),
    }
}

#[test]
fn later_entry_replaces_earlier() {
    let config = Config::parse_uris(toml_config(&[
        ("/a", "http://one:1"),
        ("/a", "http://two:2"),
    ]))
    .unwrap();
    let t = config.routes.resolve(&"/a".to_string()).unwrap();
    assert_eq!(t.authority, Some("two:2".to_string()));
}

#[test]
fn destination_text() {
    let d = Destination {
        scheme: "https".to_string(),
        authority: "h:1".to_string(),
        path: "/p".to_string(),
        query: Some("a=b".to_string()),
    };
    assert_eq!(d.to_uri_string(), "https://h:1/p?a=b");
    let d = Destination { query: None, ..d };
    assert_eq!(d.to_uri_string(), "https://h:1/p");
}

#[test]
fn independent_requests_do_not_interfere() {
    let proxy = scenario_proxy();
    let first = proxy.service();
    let second = proxy.service();
    let (slow, _) = expect_dispatch(first.route(get("/secure")));
    let (fast, _) = expect_dispatch(second.route(get("/api")));
    let fast_resp = complete(Ok(backend(200, vec![], "ok")));
    assert_eq!(fast_resp.status, 200);
    let slow_resp = complete::<Vec<u8>>(Err(DispatchError::Timeout));
    assert_eq!(slow_resp.status, 504);
    assert_eq!(slow.destination.authority, "localhost:9443");
    assert_eq!(fast.destination.authority, "localhost:9001");
}
