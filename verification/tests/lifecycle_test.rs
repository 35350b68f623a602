use svc_template::config::ServiceConfig;
use svc_template::health::check;
use svc_template::hello::get_hello_handler;
use svc_template::lifecycle::{
    exit_code, readiness_step, resolve_join, stop_signal_description, AwaitError, JoinEvent,
    LifecycleController, ListenerHandle, ProbeStep, ShutdownSendError, StopSignal, TaskPhase,
    TransportError,
};
use svc_template::Service;

#[test]
fn health_reports_healthy() {
    let h = check();
    assert!(h.healthy);
}

#[test]
fn default_service_answers_health_and_greets() {
    let service = Service::new(ServiceConfig::default());
    let state = service.state();
    assert!(check().healthy);
    let r = get_hello_handler(&state);
    let resp = r.unwrap_or_else(|_| panic!("greeting must succeed"));
    assert_eq!(resp.message_text().unwrap().as_str(), "Hello, World!");
}

#[test]
fn greeting_then_clean_shutdown() {
    let service = Service::new(ServiceConfig::default());
    let state = service.state();
    let mut c = LifecycleController::start(ListenerHandle { port: 8080 });
    c.accept_connection();
    let r = get_hello_handler(&state);
    let resp = r.unwrap_or_else(|_| panic!("greeting must succeed"));
    assert_eq!(resp.message_text().unwrap().as_str(), "Hello, World!");
    c.complete_request();
    assert_eq!(c.request_shutdown(), Ok(()));
    c.observe_shutdown();
    assert_eq!(c.phase, TaskPhase::Stopped);
    assert!(resolve_join(JoinEvent::Completed(Ok(()))).is_ok());
}

#[test]
fn clean_shutdown_resolves() {
    let mut c = LifecycleController::start(ListenerHandle { port: 8080 });
    assert_eq!(c.phase, TaskPhase::Accepting);
    assert_eq!(c.request_shutdown(), Ok(()));
    c.observe_shutdown();
    assert_eq!(c.phase, TaskPhase::Stopped);
    let r = resolve_join(JoinEvent::Completed(Ok(())));
    assert!(r.is_ok());
    assert_eq!(exit_code(&r), 0);
}

#[test]
fn in_flight_request_finishes_before_stop() {
    let mut c = LifecycleController::start(ListenerHandle { port: 8080 });
    c.accept_connection();
    assert_eq!(c.in_flight, 1);
    assert_eq!(c.request_shutdown(), Ok(()));
    c.observe_shutdown();
    assert_eq!(c.phase, TaskPhase::Draining);
    assert_eq!(c.in_flight, 1);
    c.complete_request();
    assert_eq!(c.in_flight, 0);
    assert_eq!(c.phase, TaskPhase::Stopped);
    assert!(resolve_join(JoinEvent::Completed(Ok(()))).is_ok());
}

#[test]
fn second_shutdown_request_is_a_recoverable_error() {
    let mut c = LifecycleController::start(ListenerHandle { port: 8080 });
    assert_eq!(c.request_shutdown(), Ok(()));
    assert_eq!(c.request_shutdown(), Ok(()));
    c.observe_shutdown();
    assert_eq!(c.phase, TaskPhase::Stopped);
    assert_eq!(c.request_shutdown(), Err(ShutdownSendError::ChannelClosed));
    assert_eq!(c.phase, TaskPhase::Stopped);
}

#[test]
fn stopped_task_never_accepts_again() {
    let mut c = LifecycleController::start(ListenerHandle { port: 8080 });
    let _ = c.request_shutdown();
    c.observe_shutdown();
    assert_eq!(c.phase, TaskPhase::Stopped);
    let _ = c.request_shutdown();
    assert_eq!(c.phase, TaskPhase::Stopped);
}

#[test]
fn transport_failure_is_propagated() {
    let mut c = LifecycleController::start(ListenerHandle { port: 8080 });
    c.fail_transport();
    assert_eq!(c.phase, TaskPhase::Stopped);
    let e = TransportError { message: "connection reset".to_string() };
    let r = resolve_join(JoinEvent::Completed(Err(e)));
    match &r {
        Err(AwaitError::Task(t)) => assert_eq!(t.message, "connection reset"),
        _ => panic!("a transport failure must be propagated"),
    }
    assert_eq!(exit_code(&r), 1);
}

#[test]
fn join_timeout_is_an_error_exit() {
    let r = resolve_join(JoinEvent::TimedOut);
    assert!(matches!(r, Err(AwaitError::TimedOut)));
    assert_eq!(exit_code(&r), 1);
}

#[test]
fn readiness_poll_decides_in_order() {
    assert_eq!(readiness_step(0, 5000, true), ProbeStep::Ready);
    assert_eq!(readiness_step(0, 5000, false), ProbeStep::Retry);
    assert_eq!(readiness_step(5000, 5000, true), ProbeStep::Expired);
    assert_eq!(readiness_step(6000, 5000, false), ProbeStep::Expired);
}

#[test]
fn stop_signals_are_described() {
    assert_eq!(
        stop_signal_description(&StopSignal::Terminate),
        "Termination signal received, shutting down service."
    );
    assert_eq!(
        stop_signal_description(&StopSignal::Interrupt),
        "Ctrl-C signal received, shutting down service."
    );
}
