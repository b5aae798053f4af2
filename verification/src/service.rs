//! Platform service registration: the command line that manages it, the service's
//! identity and launch arguments, the order in which its lifecycle is reported, and how a
//! "not launched by the service manager" failure is recognised.
//!
//! Only Windows has a self-registration API; on every other platform the management
//! commands explain where the packaged systemd unit and launchd daemon live instead.

use vstd::prelude::*;

verus! {

/// A service-management subcommand.
#[derive(Debug, Clone, Copy, PartialEq, Eq, Structural)]
pub enum ServiceCommand {
    /// Register the server as a service (does not start it).
    Install,
    /// Stop (if running) and remove the registered service.
    Uninstall,
    /// Start the registered service.
    Start,
    /// Request the running service to stop.
    Stop,
    /// Report the registered service's state.
    Status,
}

/// The server's command line: an optional subcommand and an optional config file path.
#[derive(Debug, Clone, PartialEq, Eq)]
pub struct Cli {
    pub command: Option<ServiceCommand>,
    pub config: Option<String>,
}

/// The name registered with the service manager.
pub const SERVICE_NAME: &'static str = "BhtuneServer";

/// The human-readable service name.
pub const SERVICE_DISPLAY_NAME: &'static str = "BHTune Server";

/// The service's description.
pub const SERVICE_DESCRIPTION: &'static str = "Serves BHTune's HTTP API and embedded web GUI for MRFT PID auto-tuning. https://github.com/bytehound-labs/bhtune";

/// How the server is registered with the service manager.
#[derive(Debug, Clone, PartialEq, Eq)]
pub struct ServiceDefinition {
    pub name: String,
    pub display_name: String,
    pub description: String,
    pub executable_path: String,
    pub launch_arguments: Vec<String>,
}

/// The views of a sequence of strings.
pub open spec fn strings_view(v: Seq<String>) -> Seq<Seq<char>> {
    v.map_values(|s: String| s@)
}

/// The arguments the service is launched with: `--config <path>` when a config path was
/// given, nothing otherwise.
pub open spec fn launch_arguments_spec(config: Option<Seq<char>>) -> Seq<Seq<char>> {
    match config {
        Some(path) => seq!["--config"@, path],
        None => Seq::empty(),
    }
}

/// Re-serialises the flags given to `install` into the arguments the service manager
/// launches the executable with.
pub fn service_launch_arguments(cli: &Cli) -> (r: Vec<String>)
    ensures
        strings_view(r@) == launch_arguments_spec(
            match cli.config {
                Some(c) => Some(c@),
                None => None,
            },
        ),
{
    let mut args: Vec<String> = Vec::new();
    if let Some(config) = &cli.config {
        args.push(String::from_str("--config"));
        args.push(config.clone());
    }
    proof {
        assert(strings_view(args@) =~= launch_arguments_spec(
            match cli.config {
                Some(c) => Some(c@),
                None => None,
            },
        ));
    }
    args
}

/// Pairs the executable's path with the service's identity and launch arguments.
pub fn build_service_definition(executable_path: String, cli: &Cli) -> (r: ServiceDefinition)
    ensures
        r.name@ == SERVICE_NAME@,
        r.display_name@ == SERVICE_DISPLAY_NAME@,
        r.description@ == SERVICE_DESCRIPTION@,
        r.executable_path == executable_path,
        strings_view(r.launch_arguments@) == launch_arguments_spec(
            match cli.config {
                Some(c) => Some(c@),
                None => None,
            },
        ),
{
    ServiceDefinition {
        name: String::from_str(SERVICE_NAME),
        display_name: String::from_str(SERVICE_DISPLAY_NAME),
        description: String::from_str(SERVICE_DESCRIPTION),
        executable_path,
        launch_arguments: service_launch_arguments(cli),
    }
}

/// The states reported to the service manager, in order.
#[derive(Debug, Clone, Copy, PartialEq, Eq, Structural)]
pub enum ServiceLifecycle {
    /// Configuration, logging and the database are still being set up.
    StartPending,
    /// The listener is bound and serving.
    Running,
    /// A stop was requested; in-flight requests are draining.
    StopPending,
    /// The server has fully drained.
    Stopped,
}

/// The position of a lifecycle state in the reporting order.
pub open spec fn lifecycle_rank(s: ServiceLifecycle) -> int {
    match s {
        ServiceLifecycle::StartPending => 0,
        ServiceLifecycle::Running => 1,
        ServiceLifecycle::StopPending => 2,
        ServiceLifecycle::Stopped => 3,
    }
}

impl ServiceLifecycle {
    /// The state that follows this one, or `None` after `Stopped`.
    pub fn next(self) -> (r: Option<ServiceLifecycle>)
        ensures
            match r {
                Some(n) => lifecycle_rank(n) == lifecycle_rank(self) + 1,
                None => self == ServiceLifecycle::Stopped,
            },
    {
        match self {
            ServiceLifecycle::StartPending => Some(ServiceLifecycle::Running),
            ServiceLifecycle::Running => Some(ServiceLifecycle::StopPending),
            ServiceLifecycle::StopPending => Some(ServiceLifecycle::Stopped),
            ServiceLifecycle::Stopped => None,
        }
    }
}

/// What the service manager is told in each lifecycle state: whether stop and shutdown
/// requests are accepted (only while running), and how long to wait, in seconds, before
/// considering the service hung (0 for no hint). Stopping is given enough time for in-flight
/// requests and an active run's cancellation to finish.
pub open spec fn status_report_spec(state: ServiceLifecycle) -> (bool, u64) {
    match state {
        ServiceLifecycle::StartPending => (false, 10),
        ServiceLifecycle::Running => (true, 0),
        ServiceLifecycle::StopPending => (false, 40),
        ServiceLifecycle::Stopped => (false, 0),
    }
}

/// What to report to the service manager in `state`.
pub fn status_report(state: ServiceLifecycle) -> (r: (bool, u64))
    ensures
        r == status_report_spec(state),
{
    match state {
        ServiceLifecycle::StartPending => (false, 10),
        ServiceLifecycle::Running => (true, 0),
        ServiceLifecycle::StopPending => (false, 40),
        ServiceLifecycle::Stopped => (false, 0),
    }
}

/// A control request from the service manager.
#[derive(Debug, Clone, Copy, PartialEq, Eq, Structural)]
pub enum ServiceControlRequest {
    Interrogate,
    Stop,
    Shutdown,
    Other,
}

/// How a control request is answered: `(handled, begin_shutdown)`. Every service must
/// answer an interrogation; stop and shutdown begin the graceful shutdown; anything else is
/// not handled.
pub fn control_response(request: ServiceControlRequest) -> (r: (bool, bool))
    ensures
        r.0 == (request != ServiceControlRequest::Other),
        r.1 == (request == ServiceControlRequest::Stop || request == ServiceControlRequest::Shutdown),
{
    match request {
        ServiceControlRequest::Interrogate => (true, false),
        ServiceControlRequest::Stop => (true, true),
        ServiceControlRequest::Shutdown => (true, true),
        ServiceControlRequest::Other => (false, false),
    }
}

/// The raw OS error the service dispatcher reports when the process was launched
/// interactively rather than by the service manager.
pub const ERROR_FAILED_SERVICE_CONTROLLER_CONNECT: i32 = 1063;

/// Whether `code` means "not started by the service manager", so the server should run in
/// the foreground instead.
pub fn is_scm_launch_error_code(code: Option<i32>) -> (r: bool)
    ensures
        r == (code == Some(ERROR_FAILED_SERVICE_CONTROLLER_CONNECT)),
{
    match code {
        Some(c) => c == ERROR_FAILED_SERVICE_CONTROLLER_CONNECT,
        None => false,
    }
}

/// Why a service-management command failed.
#[derive(Debug, Clone, PartialEq, Eq)]
pub struct ServiceError {
    pub message: String,
}

impl ServiceError {
    /// The human-readable explanation.
    pub fn message(&self) -> (r: String)
        ensures
            r@ == self.message@,
    {
        self.message.clone()
    }
}

/// The text preceding the action's name in [`platform_message`].
pub const PLATFORM_MESSAGE_HEAD: &'static str = "`bhtune-server ";

/// The text following the action's name in [`platform_message`].
pub const PLATFORM_MESSAGE_TAIL: &'static str = "` manages a Windows service and only works on Windows.\nOn Linux, install the provided systemd unit instead:\n  packaging/systemd/bhtune-server.service\nOn macOS, install the provided launchd daemon instead:\n  packaging/launchd/com.bytehound-labs.bhtune-server.plist\nSee docs/getting-started/installation.md#run-as-a-background-service for the exact steps.";

/// The explanation given for `action` on a platform without a service manager API.
pub open spec fn platform_message(action: Seq<char>) -> Seq<char> {
    PLATFORM_MESSAGE_HEAD@ + action + PLATFORM_MESSAGE_TAIL@
}

fn platform_service_error(action: &str) -> (r: ServiceError)
    ensures
        r.message@ == platform_message(action@),
{
    let mut message = String::from_str(PLATFORM_MESSAGE_HEAD);
    message.append(action);
    message.append(PLATFORM_MESSAGE_TAIL);
    ServiceError { message }
}

/// Registers the service. This platform has no service manager API, so it explains where
/// the packaged unit files are instead.
pub fn install(cli: &Cli) -> (r: Result<(), ServiceError>)
    ensures
        r matches Err(e) && e.message@ == platform_message("install"@),
{
    Err(platform_service_error("install"))
}

/// Removes the service; on this platform, explains where the packaged unit files are.
pub fn uninstall() -> (r: Result<(), ServiceError>)
    ensures
        r matches Err(e) && e.message@ == platform_message("uninstall"@),
{
    Err(platform_service_error("uninstall"))
}

/// Starts the service; on this platform, explains where the packaged unit files are.
pub fn start() -> (r: Result<(), ServiceError>)
    ensures
        r matches Err(e) && e.message@ == platform_message("start"@),
{
    Err(platform_service_error("start"))
}

/// Stops the service; on this platform, explains where the packaged unit files are.
pub fn stop() -> (r: Result<(), ServiceError>)
    ensures
        r matches Err(e) && e.message@ == platform_message("stop"@),
{
    Err(platform_service_error("stop"))
}

/// Reports the service's state; on this platform, explains where the packaged unit files
/// are.
pub fn status() -> (r: Result<(), ServiceError>)
    ensures
        r matches Err(e) && e.message@ == platform_message("status"@),
{
    Err(platform_service_error("status"))
}

/// The name of a subcommand as typed on the command line.
pub open spec fn command_name(command: ServiceCommand) -> Seq<char> {
    match command {
        ServiceCommand::Install => "install"@,
        ServiceCommand::Uninstall => "uninstall"@,
        ServiceCommand::Start => "start"@,
        ServiceCommand::Stop => "stop"@,
        ServiceCommand::Status => "status"@,
    }
}

/// Runs one service-management subcommand.
pub fn dispatch_service_command(command: ServiceCommand, cli: &Cli) -> (r: Result<
    (),
    ServiceError,
>)
    ensures
        r matches Err(e) && e.message@ == platform_message(command_name(command)),
{
    match command {
        ServiceCommand::Install => install(cli),
        ServiceCommand::Uninstall => uninstall(),
        ServiceCommand::Start => start(),
        ServiceCommand::Stop => stop(),
        ServiceCommand::Status => status(),
    }
}

/// Law: the lifecycle is reported as one fixed chain `StartPending`, `Running`,
/// `StopPending`, `Stopped`: each state but the last has exactly one successor, one rank
/// later, and `Stopped` has none.
pub proof fn law_lifecycle_is_a_chain(a: ServiceLifecycle, b: ServiceLifecycle)
    ensures
        lifecycle_rank(a) == lifecycle_rank(b) ==> a == b,
        0 <= lifecycle_rank(a) <= 3,
        lifecycle_rank(a) == 3 <==> a == ServiceLifecycle::Stopped,
{
}

/// Law: the service manager is told that stop and shutdown requests are accepted exactly
/// while the server runs, and a stopping server is given more time than shutdown waits for
/// an active run to finish cancelling.
pub proof fn law_stop_hint_covers_run_cancellation(state: ServiceLifecycle)
    ensures
        status_report_spec(state).0 <==> state == ServiceLifecycle::Running,
        status_report_spec(ServiceLifecycle::StopPending).1
            > crate::run::SHUTDOWN_RUN_CANCEL_TIMEOUT_SECS,
{
}

} // verus!
