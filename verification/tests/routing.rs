use infra_ccu_info::dispatch;
use infra_ccu_info::metrics_init;
use infra_ccu_info::AppState;
use infra_ccu_info::Config;

fn state(ccu: i64, env: &str) -> AppState {
    let config = Config { ccu, env: env.to_string() };
    let metric = metrics_init(&config).unwrap();
    AppState { config, metric }
}

#[test]
fn get_requests_reach_the_handlers() {
    let mut st = state(42, "staging");
    let health = dispatch(&mut st, "GET", "/healthchecker");
    assert_eq!(health.status, 200);
    assert_eq!(health.body, "{\"status\":\"success\",\"message\":\"staging\"}");
    let metrics = dispatch(&mut st, "GET", "/metrics");
    assert_eq!(metrics.status, 200);
    assert!(metrics.body.contains("infra_ccu_setup{environment=\"staging\"} 42\n"));
}

#[test]
fn post_to_a_known_path_is_method_not_allowed() {
    let mut st = state(42, "staging");
    let reply = dispatch(&mut st, "POST", "/healthchecker");
    assert_eq!(reply.status, 405);
    assert_eq!(reply.body, "");
    // The service is intact: the next request is answered normally.
    let after = dispatch(&mut st, "GET", "/healthchecker");
    assert_eq!(after.status, 200);
}

#[test]
fn other_methods_on_metrics_are_method_not_allowed() {
    let mut st = state(42, "staging");
    for method in ["POST", "PUT", "DELETE", "PATCH"] {
        let reply = dispatch(&mut st, method, "/metrics");
        assert_eq!(reply.status, 405);
        assert_eq!(reply.body, "");
    }
}

#[test]
fn unknown_paths_are_not_found() {
    let mut st = state(42, "staging");
    for path in ["/", "/health", "/metrics/", "/healthchecker/extra"] {
        let reply = dispatch(&mut st, "GET", path);
        assert_eq!(reply.status, 404, "path {path}");
        assert_eq!(reply.body, "");
    }
}
