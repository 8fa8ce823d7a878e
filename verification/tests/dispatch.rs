use endpoint_core::credential::ApiKey;
use endpoint_core::manager::{DispatchOutcome, EndpointManager, DEFAULT_RATE_LIMIT};
use endpoint_core::response::CustomResponse;
use endpoint_core::routes::{AccessPolicy, Endpoint};

fn route(path: &str, method: &str, access: AccessPolicy, handler: u64) -> Endpoint<u64> {
    Endpoint {
        path: path.to_string(),
        method: method.to_string(),
        access,
        handler,
    }
}

fn credential(key: &str, count: u32, limited: bool, start: u64) -> ApiKey {
    ApiKey {
        key: key.to_string(),
        user: None,
        limited,
        request_count: count,
        last_request_time: start,
    }
}

#[test]
fn new_manager_defaults() {
    let m = EndpointManager::<u64>::new();
    assert_eq!(m.endpoints.len(), 0);
    assert_eq!(m.api_keys.len(), 0);
    assert!(!m.config.encrypt);
    assert!(!m.config.api_enabled);
    assert_eq!(m.config.rate_limit, DEFAULT_RATE_LIMIT);
    assert_eq!(m.config.rate_limit, 1000);
    assert_eq!(m.config.page_404, "404.html");
}

#[test]
fn lookup_is_order_stable() {
    let mut m = EndpointManager::new();
    m.register_endpoint(route("/x", "GET", AccessPolicy::Unrestricted, 1));
    m.register_endpoint(route("/x", "GET", AccessPolicy::Unrestricted, 2));
    let e = m.get_endpoint("/x", "GET").unwrap();
    assert_eq!(e.handler, 1);
    match m.dispatch_at("/x", "GET", None, 0) {
        DispatchOutcome::Invoke(i) => assert_eq!(i, 0),
        _ => panic!("expected the first registration to be invoked"),
    }
}

#[test]
fn lookup_distinguishes_path_and_method() {
    let mut m = EndpointManager::new();
    m.register_endpoint(route("/a", "GET", AccessPolicy::Unrestricted, 1));
    m.register_endpoint(route("/b", "GET", AccessPolicy::Unrestricted, 2));
    m.register_endpoint(route("/a", "POST", AccessPolicy::Unrestricted, 3));
    assert_eq!(m.get_endpoint("/a", "GET").unwrap().handler, 1);
    assert_eq!(m.get_endpoint("/b", "GET").unwrap().handler, 2);
    assert_eq!(m.get_endpoint("/a", "POST").unwrap().handler, 3);
    assert!(m.get_endpoint("/b", "POST").is_none());
}

#[test]
fn unregistered_pair_returns_404() {
    let mut m = EndpointManager::<u64>::new();
    m.register_endpoint(route("/x", "GET", AccessPolicy::Unrestricted, 1));
    match m.dispatch_at("/x", "POST", None, 0) {
        DispatchOutcome::NotFound(resp) => {
            assert_eq!(resp.status, 404);
            assert_eq!(resp.message, "Endpoint not found");
            assert!(resp.data.is_none());
        },
        _ => panic!("expected NotFound"),
    }
}

#[test]
fn disabled_feature_never_denies() {
    let mut m = EndpointManager::<u64>::new();
    m.register_endpoint(route("/gated", "GET", AccessPolicy::RateLimited, 1));
    m.config.api_enabled = false;
    m.config.rate_limit = 0;
    assert!(m.insert_key(credential("c", 99, true, 0)));
    assert!(matches!(
        m.dispatch_at("/gated", "GET", Some("c"), 0),
        DispatchOutcome::Invoke(0)
    ));
    assert!(matches!(
        m.dispatch_at("/gated", "GET", None, 0),
        DispatchOutcome::Invoke(0)
    ));
    assert_eq!(m.api_keys[0].request_count, 99);
    assert!(m.api_keys[0].limited);
}

#[test]
fn gated_route_enforces_limit_and_is_not_a_404() {
    let mut m = EndpointManager::<u64>::new();
    m.register_endpoint(route("/gated", "GET", AccessPolicy::RateLimited, 1));
    m.config.api_enabled = true;
    m.config.rate_limit = 2;
    assert!(m.insert_key(credential("c", 0, false, 0)));
    assert!(matches!(
        m.dispatch_at("/gated", "GET", Some("c"), 1),
        DispatchOutcome::Invoke(0)
    ));
    assert!(matches!(
        m.dispatch_at("/gated", "GET", Some("c"), 1),
        DispatchOutcome::Invoke(0)
    ));
    match m.dispatch_at("/gated", "GET", Some("c"), 1) {
        DispatchOutcome::RateLimited(resp) => {
            assert_eq!(resp.status, 429);
            assert_eq!(resp.message, "Rate limit exceeded");
            assert!(resp.data.is_none());
        },
        _ => panic!("expected RateLimited, not a 404 or an invocation"),
    }
    assert!(m.api_keys[0].limited);
    assert_eq!(m.api_keys[0].request_count, 2);
    assert!(matches!(
        m.dispatch_at("/gated", "GET", Some("c"), 62),
        DispatchOutcome::Invoke(0)
    ));
    assert_eq!(m.api_keys[0].request_count, 1);
    assert!(!m.api_keys[0].limited);
}

#[test]
fn missing_or_unknown_credential_fails_closed() {
    let mut m = EndpointManager::<u64>::new();
    m.register_endpoint(route("/gated", "GET", AccessPolicy::RateLimited, 1));
    m.config.api_enabled = true;
    match m.dispatch_at("/gated", "GET", None, 0) {
        DispatchOutcome::RateLimited(resp) => assert_eq!(resp.status, 429),
        _ => panic!("expected RateLimited for a missing credential"),
    }
    match m.dispatch_at("/gated", "GET", Some("ghost"), 0) {
        DispatchOutcome::RateLimited(resp) => assert_eq!(resp.status, 429),
        _ => panic!("expected RateLimited for an unknown credential"),
    }
}

#[test]
fn issue_registers_fresh_credentials() {
    let mut m = EndpointManager::<u64>::new();
    let k1 = m.issue().unwrap();
    let k2 = m.issue().unwrap();
    assert_ne!(k1, k2);
    assert_eq!(m.api_keys.len(), 2);
    assert_eq!(m.api_keys[0].key, k1);
    assert_eq!(m.api_keys[1].key, k2);
    assert_eq!(m.api_keys[0].request_count, 0);
    m.register_endpoint(route("/gated", "GET", AccessPolicy::RateLimited, 1));
    m.config.api_enabled = true;
    assert!(matches!(
        m.dispatch_at("/gated", "GET", Some(k1.as_str()), 0),
        DispatchOutcome::Invoke(0)
    ));
    assert_eq!(m.api_keys[0].request_count, 1);
    assert_eq!(m.api_keys[1].request_count, 0);
}

#[test]
fn duplicate_key_is_rejected() {
    let mut m = EndpointManager::<u64>::new();
    assert!(m.insert_key(credential("same", 0, false, 0)));
    assert!(!m.insert_key(credential("same", 5, false, 9)));
    assert_eq!(m.api_keys.len(), 1);
    assert_eq!(m.api_keys[0].request_count, 0);
}

#[test]
fn keyed_evaluation_touches_only_the_matching_credential() {
    let mut m = EndpointManager::<u64>::new();
    m.config.rate_limit = 1;
    assert!(m.insert_key(credential("a", 0, false, 0)));
    assert!(m.insert_key(credential("b", 0, false, 0)));
    assert_eq!(m.can_request_key_at("a", 1), Some(true));
    assert_eq!(m.can_request_key_at("a", 1), Some(false));
    assert_eq!(m.can_request_key_at("missing", 1), None);
    assert_eq!(m.api_keys[0].request_count, 1);
    assert!(m.api_keys[0].limited);
    assert_eq!(m.api_keys[1].request_count, 0);
    assert!(!m.api_keys[1].limited);
}

#[test]
fn wall_clock_dispatch_resolves_routes() {
    let mut m = EndpointManager::<u64>::new();
    m.register_endpoint(route("/x", "GET", AccessPolicy::Unrestricted, 1));
    assert!(matches!(
        m.dispatch("/x", "GET", None),
        DispatchOutcome::Invoke(0)
    ));
    assert!(matches!(
        m.dispatch("/y", "GET", None),
        DispatchOutcome::NotFound(_)
    ));
}

#[test]
fn response_constructors() {
    let payload = serde_json::Value::String("Hello, World!".to_string());
    let r = CustomResponse::new(200, "Success".to_string(), Some(payload));
    assert_eq!(r.status, 200);
    assert_eq!(r.message, "Success");
    assert!(r.data.is_some());

    let nf = CustomResponse::not_found();
    assert_eq!(nf.status, 404);
    assert_eq!(nf.message, "Endpoint not found");
    assert!(nf.data.is_none());

    let rl = CustomResponse::rate_limited();
    assert_eq!(rl.status, 429);
    assert_eq!(rl.message, "Rate limit exceeded");
    assert!(rl.data.is_none());
}
