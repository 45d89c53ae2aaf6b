use infra_ccu_info::health_checker_handler;
use infra_ccu_info::metrics_handler;
use infra_ccu_info::metrics_init;
use infra_ccu_info::AppState;
use infra_ccu_info::Config;

fn state(ccu: i64, env: &str) -> AppState {
    let config = Config { ccu, env: env.to_string() };
    let metric = match metrics_init(&config) {
        Ok(m) => m,
        Err(e) => panic!("{}", e.message()),
    };
    AppState { config, metric }
}

#[test]
fn health_reports_the_environment() {
    let st = state(42, "staging");
    let reply = health_checker_handler(&st);
    assert_eq!(reply.status, 200);
    assert_eq!(reply.body, "{\"status\":\"success\",\"message\":\"staging\"}");
}

#[test]
fn health_is_stable_across_calls_and_configs() {
    let st = state(7, "production");
    let first = health_checker_handler(&st);
    let second = health_checker_handler(&st);
    assert_eq!(first.status, 200);
    assert_eq!(first.body, second.body);
    assert_eq!(first.body, "{\"status\":\"success\",\"message\":\"production\"}");
}

#[test]
fn health_escapes_the_environment_name() {
    let st = state(1, "st\"age\\one\ntwo");
    let reply = health_checker_handler(&st);
    assert_eq!(
        reply.body,
        "{\"status\":\"success\",\"message\":\"st\\\"age\\\\one\\ntwo\"}"
    );
}

#[test]
fn health_escapes_control_characters() {
    let st = state(1, "a\u{1}b\tc");
    let reply = health_checker_handler(&st);
    assert_eq!(reply.body, "{\"status\":\"success\",\"message\":\"a\\u0001b\\tc\"}");
}

#[test]
fn metrics_exposes_the_configured_gauge() {
    let mut st = state(42, "staging");
    let body = metrics_handler(&mut st);
    assert_eq!(
        body,
        "# HELP infra_ccu_setup The environment setup based on ccu template\n\
         # TYPE infra_ccu_setup gauge\n\
         infra_ccu_setup{environment=\"staging\"} 42\n"
    );
}

#[test]
fn the_first_scrape_already_sees_the_value() {
    // Nothing else has run before this scrape; the handler stores the value
    // itself, so the gauge does not sit at its initial zero.
    let mut st = state(655, "qa");
    let body = metrics_handler(&mut st);
    assert!(body.contains("infra_ccu_setup{environment=\"qa\"} 655\n"));
}

#[test]
fn repeated_scrapes_agree() {
    let mut st = state(21, "dev");
    let first = metrics_handler(&mut st);
    let second = metrics_handler(&mut st);
    let third = metrics_handler(&mut st);
    assert_eq!(first, second);
    assert_eq!(second, third);
    assert!(third.contains("infra_ccu_setup{environment=\"dev\"} 21\n"));
}

#[test]
fn metrics_handles_negative_and_zero_values() {
    let mut st = state(-3, "edge");
    let body = metrics_handler(&mut st);
    assert!(body.contains("infra_ccu_setup{environment=\"edge\"} -3\n"));
    let mut zero = state(0, "edge");
    let body0 = metrics_handler(&mut zero);
    assert!(body0.contains("infra_ccu_setup{environment=\"edge\"} 0\n"));
}

#[test]
fn metrics_escapes_the_label_value() {
    let mut st = state(5, "a\\b\nc\"d");
    let body = metrics_handler(&mut st);
    assert!(body.contains("infra_ccu_setup{environment=\"a\\\\b\\nc\\\"d\"} 5\n"));
}

#[test]
fn initialization_succeeds_for_any_environment_name() {
    let config = Config { ccu: 9, env: String::new() };
    assert!(metrics_init(&config).is_ok());
}
