use novacl_core::server::commands::{
    capture_report, status_report, stop_after_wait, stop_report, CaptureWait,
};
use novacl_core::server::lifecycle::{get_server_status, Capture, ServerManager};
use novacl_core::server::params::QueryParams;
use novacl_core::server::session::{
    BindRequest, CaptureHandle, CapturePolicy, LifecycleError, Phase, RenderContext, StopPlan,
};

fn running(port: u16, policy: CapturePolicy) -> ServerManager {
    let mut manager = ServerManager::new();
    assert_eq!(manager.request_start(port, policy, None), Ok(BindRequest { port }));
    assert_eq!(manager.bind_finished(Ok(())), Ok(CaptureHandle { port, policy }));
    manager
}

fn code(value: &str) -> QueryParams {
    QueryParams::from_pairs(vec![("code".to_string(), value.to_string())])
}

#[test]
fn new_manager_is_stopped() {
    let manager = ServerManager::new();
    assert_eq!(manager.phase(), Phase::Stopped);
    assert_eq!(manager.status(), None);
    assert_eq!(get_server_status(&manager), None);
    assert_eq!(manager.render_context(), None);
}

#[test]
fn start_goes_through_starting() {
    let mut manager = ServerManager::new();
    let policy = CapturePolicy::TerminateOnFirstCode;
    assert_eq!(manager.request_start(4000, policy, None), Ok(BindRequest { port: 4000 }));
    assert_eq!(manager.phase(), Phase::Starting);
    assert_eq!(manager.status(), None);
    assert_eq!(manager.bind_finished(Ok(())), Ok(CaptureHandle { port: 4000, policy }));
    assert_eq!(manager.phase(), Phase::Running);
    assert_eq!(manager.status(), Some(4000));
    assert_eq!(get_server_status(&manager), Some(4000));
}

#[test]
fn only_one_start_succeeds() {
    let mut manager = ServerManager::new();
    let policy = CapturePolicy::PersistUntilExplicitStop;
    let mut accepted = 0;
    for port in [5000u16, 5001, 5000, 5002] {
        match manager.request_start(port, policy, None) {
            Ok(bind) => {
                accepted += 1;
                assert_eq!(bind, BindRequest { port: 5000 });
            }
            Err(error) => assert_eq!(error, LifecycleError::AlreadyRunning),
        }
    }
    assert_eq!(accepted, 1);
    assert_eq!(manager.bind_finished(Ok(())).map(|handle| handle.port), Ok(5000));
    assert_eq!(
        manager.request_start(6000, policy, None),
        Err(LifecycleError::AlreadyRunning)
    );
    assert_eq!(manager.status(), Some(5000));
    assert_eq!(manager.request_stop(), Ok(StopPlan { send_signal: true }));
    assert_eq!(
        manager.request_start(6000, policy, None),
        Err(LifecycleError::AlreadyRunning)
    );
    assert_eq!(manager.status(), Some(5000));
}

#[test]
fn failed_bind_returns_to_stopped() {
    let mut manager = ServerManager::new();
    let policy = CapturePolicy::TerminateOnFirstCode;
    assert!(manager.request_start(80, policy, None).is_ok());
    assert_eq!(
        manager.bind_finished(Err("address in use".to_string())),
        Err(LifecycleError::BindError("address in use".to_string()))
    );
    assert_eq!(manager.phase(), Phase::Stopped);
    assert_eq!(manager.request_start(8080, policy, None), Ok(BindRequest { port: 8080 }));
}

#[test]
fn bind_report_out_of_turn_changes_nothing() {
    let mut manager = ServerManager::new();
    assert_eq!(manager.bind_finished(Ok(())), Err(LifecycleError::NotRunning));
    assert_eq!(manager.phase(), Phase::Stopped);
    let mut manager = running(7000, CapturePolicy::PersistUntilExplicitStop);
    assert_eq!(
        manager.bind_finished(Err("late".to_string())),
        Err(LifecycleError::AlreadyRunning)
    );
    assert_eq!(manager.status(), Some(7000));
}

#[test]
fn stop_twice_succeeds_then_not_running() {
    let mut manager = running(8765, CapturePolicy::PersistUntilExplicitStop);
    assert_eq!(manager.request_stop(), Ok(StopPlan { send_signal: true }));
    assert_eq!(manager.phase(), Phase::Stopping);
    assert_eq!(manager.loop_finished(Ok(())), Ok(()));
    assert_eq!(manager.phase(), Phase::Stopped);
    assert_eq!(manager.request_stop(), Err(LifecycleError::NotRunning));
    assert_eq!(manager.loop_finished(Ok(())), Err(LifecycleError::NotRunning));
    assert_eq!(manager.phase(), Phase::Stopped);
}

#[test]
fn stop_without_session_is_not_running() {
    let mut manager = ServerManager::new();
    assert_eq!(manager.request_stop(), Err(LifecycleError::NotRunning));
    assert!(manager
        .request_start(1234, CapturePolicy::TerminateOnFirstCode, None)
        .is_ok());
    assert_eq!(manager.request_stop(), Err(LifecycleError::NotRunning));
    assert_eq!(manager.loop_finished(Ok(())), Err(LifecycleError::NotRunning));
    assert_eq!(manager.phase(), Phase::Starting);
}

#[test]
fn stop_while_draining_sends_no_second_signal() {
    let mut manager = running(8765, CapturePolicy::PersistUntilExplicitStop);
    assert!(manager.on_close());
    assert_eq!(manager.request_stop(), Ok(StopPlan { send_signal: false }));
    assert_eq!(manager.loop_finished(Ok(())), Ok(()));
}

#[test]
fn failed_loop_is_a_shutdown_error_and_clears_the_slot() {
    let mut manager = running(8765, CapturePolicy::PersistUntilExplicitStop);
    assert!(manager.request_stop().is_ok());
    assert_eq!(
        manager.loop_finished(Err("panicked".to_string())),
        Err(LifecycleError::ShutdownError("panicked".to_string()))
    );
    assert_eq!(manager.phase(), Phase::Stopped);
    assert_eq!(
        manager.request_start(8765, CapturePolicy::PersistUntilExplicitStop, None),
        Ok(BindRequest { port: 8765 })
    );
}

#[test]
fn loop_that_ends_on_its_own_clears_the_slot() {
    let mut manager = running(8765, CapturePolicy::PersistUntilExplicitStop);
    assert_eq!(
        manager.loop_finished(Err("accept failed".to_string())),
        Err(LifecycleError::ShutdownError("accept failed".to_string()))
    );
    assert_eq!(manager.status(), None);
}

#[test]
fn start_after_stop_on_same_port_succeeds() {
    let policy = CapturePolicy::TerminateOnFirstCode;
    let mut manager = running(8765, policy);
    assert!(manager.request_stop().is_ok());
    assert_eq!(manager.loop_finished(Ok(())), Ok(()));
    assert_eq!(manager.request_start(8765, policy, None), Ok(BindRequest { port: 8765 }));
    assert_eq!(manager.bind_finished(Ok(())), Ok(CaptureHandle { port: 8765, policy }));
    assert_eq!(manager.status(), Some(8765));
}

#[test]
fn callback_effects_by_policy() {
    let mut one_shot = running(1, CapturePolicy::TerminateOnFirstCode);
    let effects = one_shot.on_callback(code("A"));
    assert!(matches!(effects.capture, Capture::Deliver(_)));
    assert!(effects.signal_shutdown);
    let effects = one_shot.on_callback(code("B"));
    assert!(matches!(effects.capture, Capture::Nothing));
    assert!(!effects.signal_shutdown);
    let mut persistent = running(2, CapturePolicy::PersistUntilExplicitStop);
    let effects = persistent.on_callback(code("A"));
    assert!(matches!(effects.capture, Capture::Emit(_)));
    assert!(!effects.signal_shutdown);
    let effects = persistent.on_callback(QueryParams::new());
    assert!(matches!(effects.capture, Capture::Nothing));
    assert_eq!(persistent.phase(), Phase::Running);
}

#[test]
fn callback_before_bind_captures_nothing() {
    let mut manager = ServerManager::new();
    assert!(manager
        .request_start(1, CapturePolicy::TerminateOnFirstCode, None)
        .is_ok());
    let effects = manager.on_callback(code("A"));
    assert!(matches!(effects.capture, Capture::Nothing));
    assert!(!effects.signal_shutdown);
    assert_eq!(manager.phase(), Phase::Starting);
    assert!(!manager.on_close());
    assert_eq!(manager.phase(), Phase::Starting);
}

#[test]
fn render_context_is_kept() {
    let mut manager = ServerManager::new();
    let context = RenderContext { language: "zh-CN".to_string() };
    assert!(manager
        .request_start(1, CapturePolicy::PersistUntilExplicitStop, Some(context.clone()))
        .is_ok());
    assert_eq!(manager.render_context(), Some(&context));
    assert!(manager.bind_finished(Ok(())).is_ok());
    assert!(manager.on_close());
    assert_eq!(manager.render_context(), Some(&context));
}

#[test]
fn lifecycle_messages() {
    assert_eq!(LifecycleError::AlreadyRunning.message(), "Server is already running");
    assert_eq!(LifecycleError::NotRunning.message(), "Server is not running");
    assert_eq!(
        LifecycleError::BindError("port in use".to_string()).message(),
        "Failed to bind port: port in use"
    );
    assert_eq!(
        LifecycleError::ShutdownError("boom".to_string()).message(),
        "Server task failed: boom"
    );
}

#[test]
fn reports_to_the_host() {
    let wait = CaptureWait::Received(code("ABC"));
    assert!(!stop_after_wait(&wait));
    let report = capture_report(wait).unwrap();
    assert_eq!(report.status, "ok");
    assert_eq!(report.message, Some("Authorization code received"));
    assert_eq!(report.port, None);
    assert_eq!(report.params.unwrap().get("code"), Some("ABC"));
    let wait = CaptureWait::Abandoned("channel closed".to_string());
    assert!(stop_after_wait(&wait));
    assert_eq!(
        capture_report(wait).unwrap_err(),
        "Failed to receive authorization code: channel closed"
    );
    let stopped = stop_report();
    assert_eq!(stopped.status, "ok");
    assert_eq!(stopped.message, Some("Server stopped"));
    let running = status_report(Some(8765));
    assert_eq!(running.status, "running");
    assert_eq!(running.port, Some(8765));
    assert_eq!(running.message, None);
    let idle = status_report(None);
    assert_eq!(idle.status, "stopped");
    assert_eq!(idle.port, None);
}
