//! Decisions of the program as a whole and of its Windows service.
use vstd::prelude::*;
use vstd::string::*;

use crate::config::{AppArgs, Config};

verus! {

/// The name the service is registered under.
pub const SERVICE_NAME: &'static str = "NfcBridge";

/// The file that the service logs to.
pub const LOG_FILE_NAME: &'static str = "nfc-bridge.log";

/// The directory next to the executable that the service logs to by default.
pub const LOG_DIR_NAME: &'static str = "logs";

/// How the program runs.
#[derive(Debug, Clone, Copy, PartialEq, Eq, Structural)]
pub enum RunMode {
    Console,
    Service,
}

/// How the program runs with the given arguments: as a service by default, in console mode
/// if asked to or if there are no Windows services.
pub fn run_mode(args: &AppArgs, windows: bool) -> (mode: RunMode)
    ensures
        mode == if args.console || !windows {
            RunMode::Console
        } else {
            RunMode::Service
        },
{
    if args.console || !windows {
        RunMode::Console
    } else {
        RunMode::Service
    }
}

/// Where the service logs to.
#[derive(Debug)]
pub enum LogLocation {
    /// The configured directory.
    Directory(String),
    /// The default directory next to the executable.
    NextToExecutable,
}

/// Where the service logs to: the configured directory, unless none is configured.
pub fn log_location(config: &Config) -> (location: LogLocation)
    ensures
        match location {
            LogLocation::Directory(dir) => config.log_dir@.len() > 0 && dir@ == config.log_dir@,
            LogLocation::NextToExecutable => config.log_dir@.len() == 0,
        },
{
    if config.log_dir.as_str().is_empty() {
        LogLocation::NextToExecutable
    } else {
        LogLocation::Directory(config.log_dir.clone())
    }
}

/// A request of the Windows Service Control Manager.
#[derive(Debug, Clone, Copy, PartialEq, Eq, Structural)]
pub enum Control {
    Stop,
    Shutdown,
    Interrogate,
    Other,
}

/// What the service does about a request: whether it begins to shut down, and whether it
/// reports the request as handled.
#[derive(Debug, Clone, Copy, PartialEq, Eq, Structural)]
pub struct ControlResponse {
    pub shut_down: bool,
    pub handled: bool,
}

/// What the service does about a request of the Service Control Manager.
pub fn handle_control(control: Control) -> (response: ControlResponse)
    ensures
        response.shut_down <==> control == Control::Stop || control == Control::Shutdown,
        response.handled <==> control != Control::Other,
{
    match control {
        Control::Stop | Control::Shutdown => ControlResponse { shut_down: true, handled: true },
        Control::Interrogate => ControlResponse { shut_down: false, handled: true },
        Control::Other => ControlResponse { shut_down: false, handled: false },
    }
}

/// Where the service is in its life.
#[derive(Debug, Clone, Copy, PartialEq, Eq, Structural)]
pub enum ServicePhase {
    Starting,
    Running,
    /// The bridge has ended, successfully or not.
    Stopped { success: bool },
}

/// What the service reports about itself to the Service Control Manager.
#[derive(Debug, Clone, Copy, PartialEq, Eq, Structural)]
pub struct StatusReport {
    /// Whether stop requests are accepted.
    pub accepts_stop: bool,
    /// Whether shutdown requests are accepted.
    pub accepts_shutdown: bool,
    pub exit_code: u32,
    pub wait_hint_secs: u64,
}

/// What the service reports in each phase: requests are accepted while it runs, ten seconds
/// are asked for while it starts, and the exit code tells whether the bridge failed.
pub open spec fn status_of(phase: ServicePhase) -> StatusReport {
    StatusReport {
        accepts_stop: phase == ServicePhase::Running,
        accepts_shutdown: phase == ServicePhase::Running,
        exit_code: if phase == (ServicePhase::Stopped { success: false }) {
            1
        } else {
            0
        },
        wait_hint_secs: if phase == ServicePhase::Starting {
            10
        } else {
            0
        },
    }
}

/// What the service reports about itself in the given phase.
pub fn status_report(phase: ServicePhase) -> (report: StatusReport)
    ensures
        report == status_of(phase),
{
    match phase {
        ServicePhase::Starting => StatusReport {
            accepts_stop: false,
            accepts_shutdown: false,
            exit_code: 0,
            wait_hint_secs: 10,
        },
        ServicePhase::Running => StatusReport {
            accepts_stop: true,
            accepts_shutdown: true,
            exit_code: 0,
            wait_hint_secs: 0,
        },
        ServicePhase::Stopped { success } => StatusReport {
            accepts_stop: false,
            accepts_shutdown: false,
            exit_code: if success {
                0
            } else {
                1
            },
            wait_hint_secs: 0,
        },
    }
}

/// The service accepts requests exactly while it runs, asks for time exactly while it starts,
/// and reports failure exactly if it has stopped without success.
pub proof fn law_status_follows_phase(phase: ServicePhase)
    ensures
        status_of(phase).accepts_stop <==> phase is Running,
        status_of(phase).accepts_shutdown <==> phase is Running,
        status_of(phase).wait_hint_secs == 10 <==> phase is Starting,
        phase !is Starting ==> status_of(phase).wait_hint_secs == 0,
        status_of(phase).exit_code == 1 <==> phase == (ServicePhase::Stopped { success: false }),
        status_of(phase).exit_code <= 1,
{
}

} // verus!
