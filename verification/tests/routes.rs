use bhtune_server::error::ApiError;
use bhtune_server::policy::{DemoPolicy, ServerMode};
use bhtune_server::routes::capabilities::{
    capability_drivers, mode_capabilities, security_capabilities, CapabilityActions, DemoQuotas, DemoRestrictions,
};
use bhtune_server::routes::config::{
    check_retention_days, map_store_error, requested_tuning, response_from_store_with_retention, tuning_source_label,
    ConfigStoreSnapshot, ConfigTuningTomlValues, ConfigTuningValues, TuningConfigSource, TuningSources,
    UpdateTuningRequest,
};
use bhtune_server::routes::demo_admission::{
    api_not_found, check_demo_fields, demo_limit_error, demo_run_page, ensure_demo, ensure_global_run_capacity,
    ensure_session_run_allowance, first_disallowed_field, is_allowed_demo_field, owner_id, prepare_error,
    prepare_failure, visitor_pool_in_use, DemoLimit,
};
use bhtune_server::routes::history::{
    ensure_deletable, export_content_type, export_disposition, export_extension, export_format, no_run, no_samples,
    pid_constant_tags, run_page, RunExportFormat, RunExportQuery,
};
use bhtune_server::routes::opc::{
    browse_description, browse_path, connect_description, opc_call_result, read_description, required_tag,
    OpcCallOutcome,
};
use bhtune_server::routes::runs::{
    connect_failure, default_op_or_restore_timeout_secs, default_poll_interval_ms, default_timeout_secs,
    ensure_no_exclusive_operation, normalized_notes, require_positive, require_writable_run, reservation_conflict,
    revert_write_index, unscheduled_run_reason, vanished_run, write_result_index, RecordedWrite, ResponseLevel,
    RunWriteFacts, TuneDriver, WriteKind,
};
use bhtune_server::routes::templates::{builtin_positions, no_template, template_exists, TemplateOrigin};
use bhtune_server::routes::demo_start::{DemoStart, StartDecision, StartEvent, StartStage};
use bhtune_server::active_run::RunRegistry;
use bhtune_server::state::{AcceptedStartWindows, DemoQuotaExceeded};

fn policy() -> DemoPolicy {
    DemoPolicy {
        max_active_runs_global: 4,
        max_active_runs_per_visitor: 1,
        max_runs_per_session: 20,
        accepted_starts_per_token: 3,
        accepted_starts_per_client_ip: 6,
        accepted_start_window_secs: 3600,
        retained_runs_per_visitor: 10,
        max_tune_run_rows_global: 1000,
        max_json_body_bytes: 16384,
        max_sse_per_visitor: 2,
        max_sse_global: 32,
        sse_lifetime_secs: 900,
        ordinary_request_concurrency: 64,
        ordinary_request_timeout_secs: 10,
        session_ttl_secs: 86400,
        run_timeout_secs: 600,
        poll_interval_ms: 500,
        cleanup_interval_secs: 300,
    }
}

fn message(error: ApiError) -> (u16, String, Option<u64>) {
    let parts = error.into_response_parts();
    (parts.status, parts.body.error, parts.retry_after_secs)
}

fn strings(values: &[&str]) -> Vec<String> {
    values.iter().map(|v| v.to_string()).collect()
}

#[test]
fn demo_helpers_map_full_mode_and_capacity_errors() {
    assert_eq!(message(ensure_demo(ServerMode::Full).unwrap_err()), (404, "demo mode is not enabled".to_string(), None));
    assert!(ensure_demo(ServerMode::Demo).is_ok());
    let policy = policy();
    assert_eq!(
        message(demo_limit_error(DemoLimit::OrdinaryRequests, policy)),
        (503, "demo request capacity is temporarily exhausted".to_string(), Some(10))
    );
    let outer = anyhow::Error::msg("outer").context("demo tune run row limit reached");
    assert_eq!(
        message(prepare_failure(outer, policy)),
        (503, "demo history capacity is temporarily exhausted".to_string(), Some(300))
    );
    assert!(matches!(prepare_failure(anyhow::Error::msg("ordinary failure"), policy), ApiError::Internal(_)));
    let inner = anyhow::Error::msg("demo tune run row limit reached").context("while preparing");
    assert!(matches!(prepare_failure(inner, policy), ApiError::GlobalCapacity { .. }));
}

#[test]
fn every_demo_limit_has_its_status_message_and_wait() {
    let policy = policy();
    let cases = [
        (DemoLimit::OrdinaryRequests, 503, "demo request capacity is temporarily exhausted", 10),
        (DemoLimit::GlobalRuns, 503, "demo run capacity is temporarily exhausted", 600),
        (DemoLimit::VisitorRuns, 429, "a demo tune is already active for this visitor", 600),
        (DemoLimit::GlobalStreams, 503, "demo SSE capacity is temporarily exhausted", 900),
        (DemoLimit::VisitorStreams, 429, "demo SSE connection limit exceeded for this visitor", 900),
        (DemoLimit::Unscheduled, 503, "demo run could not be scheduled; retry shortly", 600),
        (DemoLimit::HistoryRows, 503, "demo history capacity is temporarily exhausted", 300),
        (DemoLimit::SessionRuns, 429, "maximum demo runs for this session has been reached", 3600),
    ];
    for (limit, status, text, wait) in cases {
        assert_eq!(message(demo_limit_error(limit, policy)), (status, text.to_string(), Some(wait)));
    }
}

#[test]
fn prepare_error_looks_through_every_cause() {
    let policy = policy();
    let causes = strings(&["outer", "storage said: demo tune run row limit reached (42)"]);
    assert!(matches!(prepare_error(anyhow::Error::msg("x"), &causes, policy), ApiError::GlobalCapacity { .. }));
    let causes = strings(&["outer", "demo tune run row limit"]);
    assert!(matches!(prepare_error(anyhow::Error::msg("x"), &causes, policy), ApiError::Internal(_)));
    assert!(matches!(prepare_error(anyhow::Error::msg("x"), &Vec::new(), policy), ApiError::Internal(_)));
}

#[test]
fn demo_history_and_session_caps() {
    let policy = policy();
    assert!(ensure_global_run_capacity(999, policy).is_ok());
    assert_eq!(
        message(ensure_global_run_capacity(1000, policy).unwrap_err()),
        (503, "demo history capacity is temporarily exhausted".to_string(), Some(300))
    );
    assert!(ensure_session_run_allowance(19, policy).is_ok());
    assert_eq!(
        message(ensure_session_run_allowance(20, policy).unwrap_err()),
        (429, "maximum demo runs for this session has been reached".to_string(), Some(3600))
    );
}

#[test]
fn demo_owner_and_pagination_rules() {
    assert_eq!(owner_id(Some(5), 12).unwrap(), 5);
    assert_eq!(message(owner_id(None, 12).unwrap_err()), (404, "no demo run with id 12".to_string(), None));
    assert_eq!(message(owner_id(None, -3).unwrap_err()).1, "no demo run with id -3");
    let policy = policy();
    assert_eq!(demo_run_page(None, None, policy).unwrap(), (11, 0));
    assert_eq!(demo_run_page(Some(5), Some(2), policy).unwrap(), (5, 2));
    assert_eq!(demo_run_page(Some(500), None, policy).unwrap(), (11, 0));
    assert_eq!(
        message(demo_run_page(Some(0), None, policy).unwrap_err()),
        (400, "demo run pagination requires limit >= 1 and offset >= 0".to_string(), None)
    );
    assert!(demo_run_page(None, Some(-1), policy).is_err());
    assert_eq!(message(api_not_found()), (404, "API route is not available in Demo mode".to_string(), None));
}

#[test]
fn malformed_and_non_demo_start_requests_are_rejected_before_defaults() {
    assert_eq!(
        message(check_demo_fields(None).unwrap_err()).1,
        "demo run request body must be a JSON object"
    );
    let keys = strings(&["tagname", "relay_amp", "driver", "tag_overrides", "notes"]);
    assert_eq!(first_disallowed_field(&keys), Some(3));
    assert_eq!(
        message(check_demo_fields(Some(&keys)).unwrap_err()),
        (400, "demo requests may not set 'tag_overrides'".to_string(), None)
    );
    let allowed = strings(&[
        "tagname", "template", "process_type", "controller_type", "relay_amp", "cycles_skip", "cycles_count",
        "noise_protection_secs", "driver", "sim_gain", "sim_tau", "sim_dead_time", "sim_noise", "sim_seed",
        "sim_initial_pv", "sim_initial_mv", "pv_range_high", "pv_range_low", "mv_range_high", "mv_range_low",
        "direction",
    ]);
    assert!(check_demo_fields(Some(&allowed)).is_ok());
    for field in ["yes", "write_pid", "server", "bridge_host", "poll_interval_ms", "timeout_secs", "mrft_delay"] {
        assert!(!is_allowed_demo_field(field), "{field}");
    }
}

#[test]
fn idle_visitor_pools_are_dropped() {
    assert!(visitor_pool_in_use(true, 1, 1));
    assert!(visitor_pool_in_use(false, 0, 1));
    assert!(!visitor_pool_in_use(false, 1, 1));
}

#[test]
fn demo_and_full_capabilities() {
    let demo = CapabilityActions::for_mode(ServerMode::Demo);
    assert!(demo.start_simulator_tune && !demo.start_opcda_tune && !demo.write_pid && demo.delete_run);
    let full = CapabilityActions::for_mode(ServerMode::Full);
    assert!(full.start_opcda_tune && full.write_pid && full.manage_config);
    assert_eq!(capability_drivers(ServerMode::Demo), strings(&["simulator"]));
    assert_eq!(capability_drivers(ServerMode::Full), strings(&["opcda", "simulator"]));

    let policy = policy();
    let security = security_capabilities(ServerMode::Demo, Some("https://demo.test".to_string()), true, policy);
    assert_eq!(security.allowed_origin, "https://demo.test");
    assert!(security.exact_origin_required_for_mutations && security.https_required);
    assert_eq!(security.forwarded_client_ip_header.as_deref(), Some("X-BHTune-Client-IP"));
    let cookie = security.cookie.unwrap();
    assert_eq!(cookie.name, "__Host-bhtune_demo_session");
    assert_eq!((cookie.path.as_str(), cookie.max_age_secs, cookie.same_site.as_str()), ("/", 86400, "Strict"));
    assert!(cookie.http_only && cookie.secure);

    let full_security = security_capabilities(ServerMode::Full, None, false, policy);
    assert_eq!(full_security.allowed_origin, "");
    assert!(full_security.cookie.is_none());
    assert!(full_security.forwarded_client_ip_header.is_none());
    assert!(!full_security.exact_origin_required_for_mutations);

    let caps = mode_capabilities(ServerMode::Demo, policy, None, false);
    assert!(caps.demo);
    assert_eq!(caps.restrictions, Some(DemoRestrictions::demo()));
    assert_eq!(caps.quotas.unwrap().retained_runs_per_visitor, 10);
    assert_eq!(caps.quotas, Some(DemoQuotas::from(policy)));
    let full_caps = mode_capabilities(ServerMode::Full, policy, None, false);
    assert!(!full_caps.demo && full_caps.restrictions.is_none() && full_caps.quotas.is_none());
    let restrictions = DemoRestrictions::demo();
    assert!(restrictions.simulator_only && !restrictions.notes_allowed && !restrictions.post_run_pid_write_allowed);
}

#[test]
fn full_capabilities_preserve_the_complete_action_surface() {
    let caps = mode_capabilities(ServerMode::Full, policy(), None, false);
    assert!(!caps.demo);
    assert_eq!(caps.drivers, strings(&["opcda", "simulator"]));
    assert!(caps.actions.start_opcda_tune);
    assert!(caps.actions.write_pid);
    assert!(caps.actions.manage_config);
    assert!(caps.restrictions.is_none());
    assert!(caps.quotas.is_none());
    assert!(caps.security.cookie.is_none());
    assert!(!caps.security.exact_origin_required_for_mutations);
}

fn snapshot(retention_days: Option<u32>) -> ConfigStoreSnapshot {
    ConfigStoreSnapshot {
        revision: "revision".to_string(),
        config_path: String::new(),
        allow_uncertain_quality: true,
        toml_allow_uncertain_quality: None,
        retention_days,
        toml_tuning: ConfigTuningTomlValues {
            mrft_delay_secs: None,
            poll_interval_ms: None,
            timeout_secs: None,
            op_timeout_secs: None,
            restore_timeout_secs: None,
        },
        tuning_sources: TuningSources {
            mrft_delay_secs: TuningConfigSource::BuiltInDefault,
            poll_interval_ms: TuningConfigSource::BuiltInDefault,
            timeout_secs: TuningConfigSource::BuiltInDefault,
            op_timeout_secs: TuningConfigSource::BuiltInDefault,
            restore_timeout_secs: TuningConfigSource::BuiltInDefault,
        },
    }
}

fn default_tuning() -> ConfigTuningValues {
    ConfigTuningValues {
        mrft_delay_secs: 0,
        poll_interval_ms: 800,
        timeout_secs: 3600,
        op_timeout_secs: 30,
        restore_timeout_secs: 30,
    }
}

#[test]
fn response_reports_environment_retention_and_unresolved_path() {
    let response = response_from_store_with_retention(snapshot(Some(30)), None, Some(90), Some(90), default_tuning());
    assert_eq!(response.config_path, "");
    assert_eq!(response.source.retention_days, "environment");
    assert_eq!(response.effective.retention_days, Some(90));
    assert_eq!(response.effective.tuning.mrft_delay_secs, 0);
    assert_eq!(response.source.tuning.op_timeout_secs, "default");
    assert_eq!(response.toml.retention_days, Some(30));
    assert_eq!(response.revision, "revision");
}

#[test]
fn response_sources_fall_back_from_file_to_default() {
    let mut store = snapshot(Some(30));
    store.toml_allow_uncertain_quality = Some(false);
    store.tuning_sources.poll_interval_ms = TuningConfigSource::Toml;
    let response = response_from_store_with_retention(store, Some("backup.toml".to_string()), None, Some(30), default_tuning());
    assert_eq!(response.source.retention_days, "config_file");
    assert_eq!(response.source.allow_uncertain_quality, "config_file");
    assert_eq!(response.source.tuning.poll_interval_ms, "config_file");
    assert_eq!(response.source.tuning.timeout_secs, "default");
    assert_eq!(response.backup_path.as_deref(), Some("backup.toml"));
    let response = response_from_store_with_retention(snapshot(None), None, None, None, default_tuning());
    assert_eq!(response.source.retention_days, "default");
    assert_eq!(response.source.allow_uncertain_quality, "default");
    assert_eq!(tuning_source_label(TuningConfigSource::Toml), "config_file");
}

#[test]
fn map_store_error_maps_non_conflicts_to_internal_errors() {
    assert!(matches!(map_store_error(None, "path not resolved".to_string()), ApiError::Internal(_)));
    let error = map_store_error(Some("stale".to_string()), "stale".to_string());
    assert!(matches!(error, ApiError::Conflict(message) if message == "stale"));
}

#[test]
fn put_rejects_zero_retention_days_and_keeps_or_replaces_tuning() {
    assert_eq!(
        message(check_retention_days(Some(0)).unwrap_err()),
        (400, "retention_days must be at least 1 or null".to_string(), None)
    );
    assert!(check_retention_days(None).is_ok());
    assert!(check_retention_days(Some(1)).is_ok());
    let stored = ConfigTuningTomlValues {
        mrft_delay_secs: Some(5),
        poll_interval_ms: Some(900),
        timeout_secs: None,
        op_timeout_secs: None,
        restore_timeout_secs: Some(40),
    };
    assert_eq!(requested_tuning(None, stored), stored);
    let request = UpdateTuningRequest {
        mrft_delay_secs: None,
        poll_interval_ms: Some(1000),
        timeout_secs: None,
        op_timeout_secs: None,
        restore_timeout_secs: None,
    };
    let replaced = requested_tuning(Some(request), stored);
    assert_eq!(replaced.poll_interval_ms, Some(1000));
    assert_eq!(replaced.mrft_delay_secs, None);
    assert_eq!(replaced.restore_timeout_secs, None);
}

#[test]
fn history_pages_exports_and_refusals() {
    assert_eq!(run_page(None, None), (50, 0));
    assert_eq!(run_page(Some(5), Some(10)), (5, 10));
    assert!(pid_constant_tags(Some("P".into()), Some("I".into()), None).is_none());
    let tags = pid_constant_tags(Some("P".into()), Some("I".into()), Some("D".into())).unwrap();
    assert_eq!((tags.proportional.as_str(), tags.integral.as_str(), tags.derivative.as_str()), ("P", "I", "D"));
    assert_eq!(export_format(RunExportQuery { format: None }), RunExportFormat::Csv);
    assert_eq!(export_format(RunExportQuery { format: Some(RunExportFormat::Json) }), RunExportFormat::Json);
    assert_eq!(export_content_type(RunExportFormat::Csv), "text/csv");
    assert_eq!(export_content_type(RunExportFormat::Json), "application/json");
    assert_eq!(export_extension(RunExportFormat::Json), "json");
    assert_eq!(export_disposition("run-", 7, RunExportFormat::Csv), "attachment; filename=\"run-7.csv\"");
    assert_eq!(export_disposition("demo-run-", 12, RunExportFormat::Json), "attachment; filename=\"demo-run-12.json\"");
    assert_eq!(message(no_run(9)), (404, "no run with id 9".to_string(), None));
    assert_eq!(
        message(no_samples(9, false)).1,
        "run 9 has no recorded samples (unknown run id, or it never started)"
    );
    assert_eq!(message(no_samples(9, true)).1, "demo run 9 has no samples");
    assert!(ensure_deletable(9, false, false).is_ok());
    assert_eq!(
        message(ensure_deletable(9, true, false).unwrap_err()),
        (409, "run 9 has not finished yet; cancel it before deleting".to_string(), None)
    );
    assert_eq!(message(ensure_deletable(9, true, true).unwrap_err()).1, "cancel the demo run before deleting it");
}

#[test]
fn opc_routes_refuse_blank_tags_and_explain_failed_calls() {
    assert_eq!(message(required_tag(None).unwrap_err()), (400, "a tag is required".to_string(), None));
    assert!(required_tag(Some("  \t".to_string())).is_err());
    assert_eq!(required_tag(Some(" Unit1.LIC101.PV ".to_string())).unwrap(), " Unit1.LIC101.PV ");
    assert_eq!(browse_path(None), "");
    assert_eq!(browse_path(Some("Unit1".to_string())).as_str(), "Unit1");
    assert_eq!(opc_call_result("list OPC DA servers", OpcCallOutcome::Done(3)).unwrap(), 3);
    assert_eq!(
        message(opc_call_result::<u8>("list OPC DA servers", OpcCallOutcome::Failed("refused".to_string())).unwrap_err()),
        (400, "list OPC DA servers: refused".to_string(), None)
    );
    assert_eq!(
        message(opc_call_result::<u8>("read 'X'", OpcCallOutcome::TimedOut).unwrap_err()).1,
        "read 'X': no response within 30s"
    );
    assert_eq!(connect_description("Srv", "host:1"), "connect to OPC server 'Srv' via bridge 'host:1'");
    assert_eq!(browse_description(""), "browse ''");
    assert_eq!(read_description("T"), "read 'T'");
}

fn writable() -> RunWriteFacts {
    RunWriteFacts {
        id: 4,
        running: false,
        driver: TuneDriver::Opcda,
        has_proportional_tag: true,
        has_integral_tag: true,
        has_derivative_tag: true,
        has_opc_server: true,
        has_bridge_host: true,
    }
}

#[test]
fn runs_defaults_and_request_checks() {
    assert_eq!(default_poll_interval_ms(), 800);
    assert_eq!(default_timeout_secs(), 3600);
    assert_eq!(default_op_or_restore_timeout_secs(), 30);
    assert!(require_positive("timeout_secs", 1).is_ok());
    assert_eq!(
        message(require_positive("timeout_secs", 0).unwrap_err()),
        (400, "'timeout_secs' must be at least 1, got 0".to_string(), None)
    );
    assert_eq!(normalized_notes("  keep this  ".to_string()).as_deref(), Some("keep this"));
    assert_eq!(normalized_notes(" \n\t ".to_string()), None);
    assert_eq!(normalized_notes(String::new()), None);
}

#[test]
fn post_run_writes_need_a_finished_opcda_run_with_tags_and_connection() {
    assert!(require_writable_run(writable()).is_ok());
    let running = RunWriteFacts { running: true, ..writable() };
    assert_eq!(
        message(require_writable_run(running).unwrap_err()).1,
        "run 4 is still running; wait for it to finish before writing or reverting PID constants"
    );
    let simulated = RunWriteFacts { driver: TuneDriver::Simulator, ..writable() };
    assert_eq!(
        message(require_writable_run(simulated).unwrap_err()).1,
        "run 4 used the Simulator driver, which has no live loop to write PID constants to"
    );
    let untagged = RunWriteFacts { has_integral_tag: false, ..writable() };
    assert_eq!(
        message(require_writable_run(untagged).unwrap_err()).1,
        "run 4's snapshotted tags have no PID constant tags configured"
    );
    let unrecorded = RunWriteFacts { has_bridge_host: false, ..writable() };
    assert_eq!(
        message(require_writable_run(unrecorded).unwrap_err()).1,
        "run 4 has no recorded OPC server/bridge host; refusing to guess which connection to use"
    );
}

#[test]
fn write_and_revert_targets() {
    let levels = vec![ResponseLevel::Sluggish, ResponseLevel::Moderate, ResponseLevel::Moderate];
    assert_eq!(write_result_index(4, &levels, ResponseLevel::Moderate).unwrap(), 1);
    assert_eq!(
        message(write_result_index(4, &levels, ResponseLevel::Aggressive).unwrap_err()).1,
        "run 4 has no calculated Aggressive result to write"
    );
    let write = |level, has_previous| RecordedWrite { kind: WriteKind::Write, response_level: level, has_previous };
    let revert = RecordedWrite { kind: WriteKind::Revert, response_level: ResponseLevel::Sluggish, has_previous: true };
    let writes = vec![write(ResponseLevel::Sluggish, true), write(ResponseLevel::Moderate, true), revert];
    assert_eq!(revert_write_index(4, &writes).unwrap(), 1);
    let missing = vec![write(ResponseLevel::Sluggish, true), write(ResponseLevel::Aggressive, false), revert];
    assert_eq!(
        message(revert_write_index(4, &missing).unwrap_err()).1,
        "run 4's Aggressive PID write-back never recorded pre-write values; nothing to revert to"
    );
    assert_eq!(
        message(revert_write_index(4, &vec![revert]).unwrap_err()).1,
        "run 4 has no recorded PID write-back to revert"
    );
}

#[test]
fn live_loop_conflicts() {
    assert!(ensure_no_exclusive_operation(None).is_ok());
    assert_eq!(
        message(ensure_no_exclusive_operation(Some(3)).unwrap_err()),
        (
            409,
            "run 3 has an exclusive PID write/revert in progress; wait for it to finish before starting another tune"
                .to_string(),
            None
        )
    );
    assert_eq!(
        unscheduled_run_reason(3),
        "run 3 has an exclusive PID write/revert in progress; no tune task was started"
    );
    assert_eq!(
        message(reservation_conflict(8)).1,
        "run 8 or another PID write/revert is active; try again once it finishes"
    );
    assert_eq!(
        message(connect_failure("Srv", "gw", "refused")).1,
        "failed to connect to OPC server 'Srv' via bridge 'gw': refused"
    );
    assert!(matches!(vanished_run(3), ApiError::Internal(_)));
}

#[test]
fn templates_catalogue_rules() {
    let origins = vec![TemplateOrigin::User, TemplateOrigin::Builtin, TemplateOrigin::Catalog, TemplateOrigin::Builtin];
    assert_eq!(builtin_positions(&origins), vec![1, 3]);
    assert_eq!(message(no_template("X", false)), (404, "no template named 'X'".to_string(), None));
    assert_eq!(message(no_template("X", true)).1, "no built-in template named 'X'");
    assert_eq!(message(template_exists("X")), (409, "a template named 'X' already exists".to_string(), None));
}

#[test]
fn demo_start_withdraws_its_reservation_only_once_reserved() {
    let policy = policy();

    let mut start = DemoStart::new();
    match start.advance(StartEvent::Denied, policy) {
        StartDecision::Refuse { error, release } => {
            assert!(!release);
            assert_eq!(message(error), (503, "demo run capacity is temporarily exhausted".to_string(), Some(600)));
        }
        other => panic!("unexpected {other:?}"),
    }
    assert_eq!(start.stage, StartStage::Refused);

    let mut start = DemoStart::new();
    assert!(matches!(start.advance(StartEvent::Granted, policy), StartDecision::Proceed));
    match start.advance(StartEvent::Denied, policy) {
        StartDecision::Refuse { error, release } => {
            assert!(!release);
            assert_eq!(message(error).0, 429);
        }
        other => panic!("unexpected {other:?}"),
    }

    let mut start = DemoStart::new();
    start.advance(StartEvent::Granted, policy);
    start.advance(StartEvent::Granted, policy);
    match start.advance(StartEvent::QuotaExceeded(DemoQuotaExceeded { retry_after_secs: 9 }), policy) {
        StartDecision::Refuse { error, release } => {
            assert!(!release);
            assert_eq!(message(error).2, Some(9));
        }
        other => panic!("unexpected {other:?}"),
    }

    let mut start = DemoStart::new();
    start.advance(StartEvent::Granted, policy);
    start.advance(StartEvent::Granted, policy);
    start.advance(StartEvent::Granted, policy);
    assert!(start.holds_accepted_start);
    assert_eq!(start.stage, StartStage::Preparation);
    match start.advance(StartEvent::Failed(ApiError::BadRequest("bad".to_string())), policy) {
        StartDecision::Refuse { error, release } => {
            assert!(release);
            assert_eq!(message(error).1, "bad");
        }
        other => panic!("unexpected {other:?}"),
    }
    assert!(!start.holds_accepted_start);

    let mut start = DemoStart::new();
    for _ in 0..4 {
        assert!(matches!(start.advance(StartEvent::Granted, policy), StartDecision::Proceed));
    }
    assert_eq!(start.stage, StartStage::Scheduling);
    match start.advance(StartEvent::Denied, policy) {
        StartDecision::Refuse { error, release } => {
            assert!(release);
            assert_eq!(message(error).1, "demo run could not be scheduled; retry shortly");
        }
        other => panic!("unexpected {other:?}"),
    }

    let mut start = DemoStart::new();
    for _ in 0..4 {
        start.advance(StartEvent::Granted, policy);
    }
    assert!(matches!(start.advance(StartEvent::Granted, policy), StartDecision::Started));
    assert_eq!(start.stage, StartStage::Started);
    assert!(start.holds_accepted_start);
}

const NOW_MS: i64 = 1_700_000_000_000;

fn refusal(decision: StartDecision) -> (ApiError, bool) {
    match decision {
        StartDecision::Refuse { error, release } => (error, release),
        other => panic!("expected a refusal, got {other:?}"),
    }
}

#[test]
fn demo_mode_replaces_unavailable_full_api_routes_with_404() {
    let (status, text, _) = message(api_not_found());
    assert_eq!(status, 404);
    assert!(text.contains("Demo mode"));
}

#[test]
fn forbidden_fields_are_rejected_by_presence_before_database_io() {
    let keys = strings(&["tagname", "template", "process_type", "controller_type", "notes"]);
    let (status, text, _) = message(check_demo_fields(Some(&keys)).unwrap_err());
    assert_eq!(status, 400);
    assert!(text.contains("'notes'"));
}

#[test]
fn unpersisted_history_is_empty_and_pagination_is_validated_and_capped() {
    let policy = DemoPolicy { retained_runs_per_visitor: 1, max_active_runs_per_visitor: 1, ..policy() };
    assert_eq!(message(demo_run_page(Some(0), None, policy).unwrap_err()).0, 400);
    assert_eq!(message(demo_run_page(None, Some(-1), policy).unwrap_err()).0, 400);
    assert_eq!(demo_run_page(Some(50), None, policy).unwrap(), (2, 0));
}

#[test]
fn start_rejects_global_visitor_and_accepted_start_quota_exhaustion() {
    let policy = policy();
    let mut global = DemoStart::new();
    let (error, release) = refusal(global.advance(StartEvent::Denied, policy));
    assert_eq!(message(error).0, 503);
    assert!(!release);

    let mut visitor = DemoStart::new();
    visitor.advance(StartEvent::Granted, policy);
    let (error, release) = refusal(visitor.advance(StartEvent::Denied, policy));
    assert_eq!(message(error).0, 429);
    assert!(!release);

    let policy = DemoPolicy { accepted_starts_per_token: 1, ..policy };
    let mut windows = AcceptedStartWindows::new();
    windows.reserve_accepted_start("token", "127.0.0.1", NOW_MS, policy).unwrap();
    let quota = windows.reserve_accepted_start("token", "127.0.0.1", NOW_MS, policy).unwrap_err();
    let mut start = DemoStart::new();
    start.advance(StartEvent::Granted, policy);
    start.advance(StartEvent::Granted, policy);
    let (error, release) = refusal(start.advance(StartEvent::QuotaExceeded(quota), policy));
    assert_eq!(message(error).0, 429);
    assert!(!release);
}

#[test]
fn preparation_failure_releases_accepted_start_quota() {
    let policy = DemoPolicy { accepted_starts_per_token: 1, ..policy() };
    let mut windows = AcceptedStartWindows::new();
    let mut start = DemoStart::new();
    start.advance(StartEvent::Granted, policy);
    start.advance(StartEvent::Granted, policy);
    let accepted = windows.reserve_accepted_start("token", "127.0.0.1", NOW_MS, policy).unwrap();
    start.advance(StartEvent::Granted, policy);
    let failure = prepare_failure(anyhow::Error::msg("pool timed out while waiting for an open connection"), policy);
    let (error, release) = refusal(start.advance(StartEvent::Failed(failure), policy));
    assert_eq!(message(error).0, 500);
    assert!(release);
    windows.release_accepted_start(accepted);
    assert!(windows.reserve_accepted_start("token", "127.0.0.1", NOW_MS, policy).is_ok());
}

#[test]
fn scheduling_conflict_discards_the_prepared_run() {
    let policy = policy();
    let mut registry = RunRegistry::new();
    registry.reserve(999).unwrap();
    let mut start = DemoStart::new();
    for _ in 0..4 {
        start.advance(StartEvent::Granted, policy);
    }
    assert!(registry.start(1).is_err());
    let (error, release) = refusal(start.advance(StartEvent::Denied, policy));
    assert_eq!(message(error).0, 503);
    assert!(release);
    registry.release(999);
}

#[test]
fn prepare_failure_reads_the_whole_anyhow_chain() {
    let policy = policy();
    let middle = anyhow::Error::msg("sqlite: constraint failed")
        .context("storage said: demo tune run row limit reached (1000 rows)")
        .context("preparing the demo run");
    assert_eq!(
        message(prepare_failure(middle, policy)),
        (503, "demo history capacity is temporarily exhausted".to_string(), Some(300))
    );
    let near_miss = anyhow::Error::msg("demo tune run row limit").context("preparing the demo run");
    match prepare_failure(near_miss, policy) {
        ApiError::Internal(error) => {
            let chain: Vec<String> = error.chain().map(|cause| cause.to_string()).collect();
            assert_eq!(chain, ["preparing the demo run", "demo tune run row limit"]);
        }
        other => panic!("unexpected {other:?}"),
    }
}

#[test]
fn internal_errors_carry_their_description_for_the_log() {
    match bhtune_server::error::internal_error("database is locked".to_string()) {
        ApiError::Internal(error) => {
            let chain: Vec<String> = error.chain().map(|cause| cause.to_string()).collect();
            assert_eq!(chain, ["database is locked"]);
        }
        other => panic!("unexpected {other:?}"),
    }
    match bhtune_server::routes::runs::vanished_run(7) {
        ApiError::Internal(error) => {
            assert_eq!(error.to_string(), "run 7 vanished while its write/revert was being processed");
            assert_eq!(error.chain().count(), 1);
        }
        other => panic!("unexpected {other:?}"),
    }
    match map_store_error(None, "config file could not be written".to_string()) {
        ApiError::Internal(error) => assert_eq!(error.to_string(), "config file could not be written"),
        other => panic!("unexpected {other:?}"),
    }
    assert_eq!(message(bhtune_server::error::internal_error("secret".to_string())).1, "internal server error");
}
