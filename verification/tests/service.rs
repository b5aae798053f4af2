use bhtune_server::run::{RETENTION_SWEEP_INTERVAL_SECS, SHUTDOWN_RUN_CANCEL_TIMEOUT_SECS};
use bhtune_server::service::{
    build_service_definition, dispatch_service_command, install, is_scm_launch_error_code, service_launch_arguments,
    start, status, stop, uninstall, Cli, ServiceCommand, ServiceLifecycle, SERVICE_DESCRIPTION,
    SERVICE_DISPLAY_NAME, SERVICE_NAME,
};
use bhtune_server::service::{control_response, status_report, ServiceControlRequest};
use std::time::Duration;

fn cli_with(config: Option<&str>) -> Cli {
    Cli {
        command: None,
        config: config.map(|path| path.to_string()),
    }
}

#[test]
fn service_launch_arguments_empty_when_no_config_flag_set() {
    let cli = cli_with(None);
    assert_eq!(service_launch_arguments(&cli), Vec::<String>::new());
}

#[test]
fn service_launch_arguments_includes_the_config_flag_when_set() {
    let cli = cli_with(Some("/etc/bhtune/bhtune.toml"));
    assert_eq!(
        service_launch_arguments(&cli),
        vec!["--config".to_string(), "/etc/bhtune/bhtune.toml".to_string()]
    );
}

#[test]
fn build_service_definition_carries_identity_and_arguments() {
    let cli = cli_with(Some("C:\\ProgramData\\bhtune\\bhtune.toml"));
    let definition = build_service_definition("C:\\bhtune-server.exe".to_string(), &cli);
    assert_eq!(definition.name, SERVICE_NAME);
    assert_eq!(definition.display_name, SERVICE_DISPLAY_NAME);
    assert_eq!(definition.description, SERVICE_DESCRIPTION);
    assert_eq!(definition.executable_path, "C:\\bhtune-server.exe");
    assert_eq!(
        definition.launch_arguments,
        vec!["--config".to_string(), "C:\\ProgramData\\bhtune\\bhtune.toml".to_string()]
    );
}

#[test]
fn build_service_definition_with_no_flags_has_no_launch_arguments() {
    let cli = cli_with(None);
    let definition = build_service_definition("/usr/bin/bhtune-server".to_string(), &cli);
    assert_eq!(definition.launch_arguments, Vec::<String>::new());
}

#[test]
fn service_lifecycle_sequence_order() {
    assert_eq!(ServiceLifecycle::StartPending.next(), Some(ServiceLifecycle::Running));
    assert_eq!(ServiceLifecycle::Running.next(), Some(ServiceLifecycle::StopPending));
    assert_eq!(ServiceLifecycle::StopPending.next(), Some(ServiceLifecycle::Stopped));
}

#[test]
fn service_lifecycle_stopped_is_terminal() {
    assert_eq!(ServiceLifecycle::Stopped.next(), None);
}

#[test]
fn is_scm_launch_error_code_matches_expected_code() {
    assert!(is_scm_launch_error_code(Some(1063)));
}

#[test]
fn is_scm_launch_error_code_rejects_other_codes() {
    assert!(!is_scm_launch_error_code(Some(5)));
    assert!(!is_scm_launch_error_code(None));
}

#[test]
fn non_windows_stubs_name_the_action_and_point_at_packaging() {
    for (action, result) in [
        ("install", install(&cli_with(None))),
        ("uninstall", uninstall()),
        ("start", start()),
        ("stop", stop()),
        ("status", status()),
    ] {
        let message = result.unwrap_err().message();
        assert!(
            message.contains(&format!("bhtune-server {action}")),
            "message for {action} should name the action verbatim: {message}"
        );
        assert!(message.contains("packaging/systemd/bhtune-server.service"));
        assert!(message.contains("packaging/launchd/"));
    }
}

#[test]
fn dispatches_each_service_command_to_the_non_windows_stub() {
    let cli = Cli {
        command: None,
        config: None,
    };
    for (command, action) in [
        (ServiceCommand::Install, "install"),
        (ServiceCommand::Uninstall, "uninstall"),
        (ServiceCommand::Start, "start"),
        (ServiceCommand::Stop, "stop"),
        (ServiceCommand::Status, "status"),
    ] {
        let error = dispatch_service_command(command, &cli).unwrap_err();
        assert!(
            error.message().contains(action),
            "stub error should identify {action}: {}",
            error.message()
        );
    }
}

#[test]
fn shutdown_and_retention_intervals_match_the_documented_policy() {
    assert_eq!(Duration::from_secs(SHUTDOWN_RUN_CANCEL_TIMEOUT_SECS), Duration::from_secs(35));
    assert_eq!(Duration::from_secs(RETENTION_SWEEP_INTERVAL_SECS), Duration::from_secs(24 * 60 * 60));
}

#[test]
fn the_exact_platform_message_names_the_command_and_both_packages() {
    let message = stop().unwrap_err().message();
    assert!(message.starts_with("`bhtune-server stop` manages a Windows service and only works on Windows.\n"));
    assert!(message.contains("packaging/launchd/com.bytehound-labs.bhtune-server.plist"));
    assert!(message.ends_with("docs/getting-started/installation.md#run-as-a-background-service for the exact steps."));
}

#[test]
fn service_manager_reports_and_control_answers() {
    assert_eq!(status_report(ServiceLifecycle::StartPending), (false, 10));
    assert_eq!(status_report(ServiceLifecycle::Running), (true, 0));
    assert_eq!(status_report(ServiceLifecycle::StopPending), (false, 40));
    assert_eq!(status_report(ServiceLifecycle::Stopped), (false, 0));
    assert!(status_report(ServiceLifecycle::StopPending).1 > SHUTDOWN_RUN_CANCEL_TIMEOUT_SECS);
    assert_eq!(control_response(ServiceControlRequest::Interrogate), (true, false));
    assert_eq!(control_response(ServiceControlRequest::Stop), (true, true));
    assert_eq!(control_response(ServiceControlRequest::Shutdown), (true, true));
    assert_eq!(control_response(ServiceControlRequest::Other), (false, false));
}
