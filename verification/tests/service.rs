use nfc_bridge::config::{AppArgs, Config};
use nfc_bridge::service::{
    handle_control, log_location, run_mode, status_report, Control, ControlResponse, LogLocation,
    RunMode, ServicePhase, StatusReport, LOG_DIR_NAME, LOG_FILE_NAME, SERVICE_NAME,
};

fn args(console: bool) -> AppArgs {
    AppArgs {
        console,
        config: None,
        port: None,
        poll_interval_ms: None,
        cooldown_ms: None,
        bind_addr: None,
    }
}

#[test]
fn console_or_service() {
    assert_eq!(run_mode(&args(true), true), RunMode::Console);
    assert_eq!(run_mode(&args(true), false), RunMode::Console);
    assert_eq!(run_mode(&args(false), false), RunMode::Console);
    assert_eq!(run_mode(&args(false), true), RunMode::Service);
}

#[test]
fn log_directory() {
    let mut config = Config::load_default_locations(None).unwrap();
    assert!(matches!(log_location(&config), LogLocation::NextToExecutable));
    config.log_dir = "C:\\logs".to_string();
    assert!(matches!(log_location(&config), LogLocation::Directory(dir) if dir == "C:\\logs"));
    assert_eq!(SERVICE_NAME, "NfcBridge");
    assert_eq!(LOG_DIR_NAME, "logs");
    assert_eq!(LOG_FILE_NAME, "nfc-bridge.log");
}

#[test]
fn control_requests() {
    let stop = ControlResponse { shut_down: true, handled: true };
    assert_eq!(handle_control(Control::Stop), stop);
    assert_eq!(handle_control(Control::Shutdown), stop);
    assert_eq!(
        handle_control(Control::Interrogate),
        ControlResponse { shut_down: false, handled: true }
    );
    assert_eq!(
        handle_control(Control::Other),
        ControlResponse { shut_down: false, handled: false }
    );
}

#[test]
fn status_reports() {
    let starting = status_report(ServicePhase::Starting);
    assert_eq!(
        starting,
        StatusReport {
            accepts_stop: false,
            accepts_shutdown: false,
            exit_code: 0,
            wait_hint_secs: 10,
        }
    );
    let running = status_report(ServicePhase::Running);
    assert!(running.accepts_stop && running.accepts_shutdown);
    assert_eq!(running.exit_code, 0);
    assert_eq!(running.wait_hint_secs, 0);
    let stopped = status_report(ServicePhase::Stopped { success: true });
    assert!(!stopped.accepts_stop && !stopped.accepts_shutdown);
    assert_eq!(stopped.exit_code, 0);
    assert_eq!(status_report(ServicePhase::Stopped { success: false }).exit_code, 1);
}
