use svc_template::config::ServiceConfig;
use svc_template::hello::{
    get_hello_handler, get_hello_name_handler, post_hello_handler, HelloRequest,
};
use svc_template::response::{Response, ResponseErrorKind};
use svc_template::Service;

fn default_state() -> svc_template::service_state::ServiceState {
    Service::new(ServiceConfig::default()).state()
}

fn message_of(r: Result<Response, svc_template::response::ResponseError>) -> String {
    match r {
        Ok(resp) => match resp.message_text() {
            Some(m) => m.clone(),
            None => panic!("expected a text response"),
        },
        Err(_) => panic!("expected a successful response"),
    }
}

#[test]
fn test_get_hello() {
    let state = default_state();
    let body = message_of(get_hello_handler(&state));
    assert_eq!(body, "Hello, World!");
}

#[test]
fn test_get_hello_with_name() {
    let state = default_state();
    let body = message_of(get_hello_name_handler(&state, "Matt"));
    assert_eq!(body, "Hello, Matt!");
}

#[test]
fn test_get_hello_with_name_failure() {
    let state = default_state();
    let r = get_hello_name_handler(&state, "a");
    let err = match r {
        Err(e) => e,
        Ok(_) => panic!("a one-character name must be rejected"),
    };
    assert_eq!(err.status_code(), 400);
    assert_eq!(err.error_tag(), "validation_error");
    let ResponseErrorKind::Validation(f) = err.kind();
    assert_eq!(f.field, "name");
    assert_eq!(f.actual, 1);
}

#[test]
fn test_post_hello() {
    let state = default_state();
    let payload = HelloRequest { name: "Matt".to_string() };
    let body = message_of(post_hello_handler(&state, payload));
    assert_eq!(body, "Hello, Matt!");
}

#[test]
fn test_post_hello_failure() {
    let state = default_state();
    let payload = HelloRequest { name: "".to_string() };
    let r = post_hello_handler(&state, payload);
    let err = match r {
        Err(e) => e,
        Ok(_) => panic!("an empty name must be rejected"),
    };
    assert_eq!(err.error_tag(), "validation_error");
    let ResponseErrorKind::Validation(f) = err.kind();
    assert_eq!(f.field, "name");
    assert_eq!(f.min, 2);
    assert_eq!(f.max, 50);
    assert_eq!(f.actual, 0);
}

#[test]
fn hello_handler_matches_get_hello_handler() {
    let state = default_state();
    let a = message_of(svc_template::hello::hello_handler(&state));
    let b = message_of(get_hello_handler(&state));
    assert_eq!(a, b);
}

#[test]
fn greet_builds_the_message() {
    assert_eq!(svc_template::hello::greet("World"), "Hello, World!");
    assert_eq!(svc_template::hello::greet("Matt"), "Hello, Matt!");
}

#[test]
fn name_bounds_are_inclusive() {
    let state = default_state();
    assert!(get_hello_name_handler(&state, "ab").is_ok());
    let fifty = "n".repeat(50);
    assert!(get_hello_name_handler(&state, &fifty).is_ok());
    let fifty_one = "n".repeat(51);
    assert!(get_hello_name_handler(&state, &fifty_one).is_err());
}

#[test]
fn configured_name_appears_in_the_greeting() {
    let state = Service::new(ServiceConfig::from_raw(Some("Crew".to_string()))).state();
    let body = message_of(get_hello_handler(&state));
    assert_eq!(body, "Hello, Crew!");
}

#[test]
fn json_responses_carry_no_message_text() {
    let resp = Response::Json(serde_json::Value::Null);
    assert!(resp.message_text().is_none());
}

#[test]
fn validate_reports_the_count() {
    let req = HelloRequest { name: "x".to_string() };
    let f = req.validate().unwrap_err();
    assert_eq!(f.actual, 1);
    let req = HelloRequest { name: "ab".to_string() };
    assert!(req.validate().is_ok());
}
