use homebridge_exporter::config::{Commands, Config};
use homebridge_exporter::handler::{
    accessories_listed, restart_requested, restart_sent, token_ready, Action, ReplyBody, Request,
};
use homebridge_exporter::hub::{
    accessories_url, bearer_header, is_success_status, login_url, restart_url,
};

fn failure(a: Action) -> Option<(u16, String)> {
    match a {
        Action::Respond(r) => match r.body {
            ReplyBody::Error(e) => Some((r.status, e)),
            ReplyBody::Done => None,
        },
        _ => None,
    }
}

#[test]
fn unauthorized_restart_is_refused_before_any_call() {
    assert_eq!(
        failure(restart_requested(false)),
        Some((401, String::from("Unauthorized request, please provide a valid token.")))
    );
    assert!(matches!(restart_requested(true), Action::FetchToken));
}

#[test]
fn token_failure_is_a_server_error() {
    let e = String::from("Error while fetching token. Error code: 401 Unauthorized");
    assert_eq!(failure(token_ready(Request::Metrics, Err(e.clone()))), Some((500, e.clone())));
    assert_eq!(failure(token_ready(Request::Restart, Err(e.clone()))), Some((500, e)));
}

#[test]
fn token_leads_to_the_request_call() {
    match token_ready(Request::Metrics, Ok(String::from("abc"))) {
        Action::ListAccessories(t) => assert_eq!(t, "abc"),
        _ => panic!("a scrape lists accessories next"),
    }
    match token_ready(Request::Restart, Ok(String::from("abc"))) {
        Action::SendRestart(t) => assert_eq!(t, "abc"),
        _ => panic!("a restart is sent next"),
    }
}

#[test]
fn listing_failure_serves_no_registry() {
    let e = String::from("Error while fetching accessories. Error code: 500");
    assert_eq!(failure(accessories_listed(Err(e.clone()))), Some((500, e)));
    match accessories_listed(Ok(vec![])) {
        Action::Publish(reg) => assert!(reg.families.is_empty()),
        _ => panic!("a listing is published"),
    }
}

#[test]
fn restart_outcome_is_reported() {
    match restart_sent(Ok(true)) {
        Action::Respond(r) => {
            assert_eq!(r.status, 200);
            assert!(matches!(r.body, ReplyBody::Done));
        }
        _ => panic!("a reply ends the restart"),
    }
    let e = String::from("connection refused");
    assert_eq!(failure(restart_sent(Err(e.clone()))), Some((500, e)));
}

#[test]
fn hub_endpoints() {
    assert_eq!(login_url("http://localhost:8581"), "http://localhost:8581/api/auth/login");
    assert_eq!(accessories_url("http://hub"), "http://hub/api/accessories");
    assert_eq!(restart_url("http://hub"), "http://hub/api/server/restart");
    assert_eq!(bearer_header("abc"), "Bearer abc");
}

#[test]
fn success_statuses_are_2xx() {
    assert!(is_success_status(200));
    assert!(is_success_status(204));
    assert!(is_success_status(299));
    assert!(!is_success_status(199));
    assert!(!is_success_status(300));
    assert!(!is_success_status(401));
}

fn config(prefix: Option<String>, debug: bool) -> Config {
    Config {
        username: String::from("admin"),
        password: String::from("secret"),
        uri: String::from("http://localhost:8581"),
        keyfile: String::from("authorization-keys.yml"),
        port: 9123,
        prefix,
        debug,
        worker_threads: None,
        blocking_threads: Some(4),
        cpu_threads: None,
    }
}

#[test]
fn config_defaults() {
    let c = config(None, false);
    assert_eq!(c.metrics_prefix(), "homebridge");
    assert_eq!(c.log_level(), "info");
    assert_eq!(c.worker_thread_count(), 2);
    assert_eq!(c.blocking_thread_count(), 4);
    let d = config(Some(String::from("home")), true);
    assert_eq!(d.metrics_prefix(), "home");
    assert_eq!(d.log_level(), "debug");
    assert!(Commands::Exit == Commands::Exit);
}
