//! What the server tells its web client it may do: the actions each mode offers, the Demo's
//! restrictions and quotas, and the security rules a client has to follow.

use vstd::prelude::*;

use crate::policy::{DemoPolicy, ServerMode};
use crate::routes::demo::FORWARDED_CLIENT_IP_HEADER;
use crate::routes::session::DEMO_COOKIE_NAME;

verus! {

/// Which actions the client may offer.
#[derive(Debug, Clone, Copy, PartialEq, Eq, Structural)]
pub struct CapabilityActions {
    pub start_simulator_tune: bool,
    pub start_opcda_tune: bool,
    pub cancel_run: bool,
    pub stream_run: bool,
    pub list_history: bool,
    pub export_run: bool,
    pub delete_run: bool,
    pub edit_notes: bool,
    pub write_pid: bool,
    pub revert_pid: bool,
    pub manage_templates: bool,
    pub manage_config: bool,
    pub browse_opc: bool,
}

/// The actions of `mode`: every action in the full API; in the Demo only simulated tunes and
/// what a visitor does with their own runs (cancel, stream, list, export, delete).
pub open spec fn actions_of(mode: ServerMode) -> CapabilityActions {
    let full = mode == ServerMode::Full;
    CapabilityActions {
        start_simulator_tune: true,
        start_opcda_tune: full,
        cancel_run: true,
        stream_run: true,
        list_history: true,
        export_run: true,
        delete_run: true,
        edit_notes: full,
        write_pid: full,
        revert_pid: full,
        manage_templates: full,
        manage_config: full,
        browse_opc: full,
    }
}

impl CapabilityActions {
    /// The actions of `mode`.
    pub fn for_mode(mode: ServerMode) -> (r: Self)
        ensures
            r == actions_of(mode),
    {
        let demo = mode == ServerMode::Demo;
        CapabilityActions {
            start_simulator_tune: true,
            start_opcda_tune: !demo,
            cancel_run: true,
            stream_run: true,
            list_history: true,
            export_run: true,
            delete_run: true,
            edit_notes: !demo,
            write_pid: !demo,
            revert_pid: !demo,
            manage_templates: !demo,
            manage_config: !demo,
            browse_opc: !demo,
        }
    }
}

/// An inclusive range of whole numbers.
#[derive(Debug, Clone, Copy, PartialEq, Eq, Structural)]
pub struct IntegerBounds {
    pub min: u64,
    pub max: u64,
}

/// The rules every Demo tune request is held to.
#[derive(Debug, Clone, Copy, PartialEq, Eq, Structural)]
pub struct DemoRestrictions {
    pub simulator_only: bool,
    pub built_in_templates_only: bool,
    pub fixed_tag_name: bool,
    pub direction_must_match_process_gain: bool,
    pub custom_tag_mappings_allowed: bool,
    pub notes_allowed: bool,
    pub automatic_pid_write_allowed: bool,
    pub post_run_pid_write_allowed: bool,
}

/// The Demo's restrictions: simulator only, built-in templates, the fixed tag label, a
/// direction that matches the process gain; no custom tags, notes or PID writes.
pub open spec fn demo_restrictions() -> DemoRestrictions {
    DemoRestrictions {
        simulator_only: true,
        built_in_templates_only: true,
        fixed_tag_name: true,
        direction_must_match_process_gain: true,
        custom_tag_mappings_allowed: false,
        notes_allowed: false,
        automatic_pid_write_allowed: false,
        post_run_pid_write_allowed: false,
    }
}

impl DemoRestrictions {
    /// The Demo's restrictions.
    pub fn demo() -> (r: Self)
        ensures
            r == demo_restrictions(),
    {
        DemoRestrictions {
            simulator_only: true,
            built_in_templates_only: true,
            fixed_tag_name: true,
            direction_must_match_process_gain: true,
            custom_tag_mappings_allowed: false,
            notes_allowed: false,
            automatic_pid_write_allowed: false,
            post_run_pid_write_allowed: false,
        }
    }
}

/// The Demo's published quotas: the limits of its policy that a client can plan around.
#[derive(Debug, Clone, Copy, PartialEq, Eq)]
pub struct DemoQuotas {
    pub max_active_runs_global: u32,
    pub max_active_runs_per_visitor: u32,
    pub max_runs_per_session: u32,
    pub accepted_starts_per_token: u32,
    pub accepted_starts_per_client_ip: u32,
    pub accepted_start_window_secs: u64,
    pub retained_runs_per_visitor: u32,
    pub max_tune_run_rows_global: u32,
    pub max_json_body_bytes: u64,
    pub max_sse_per_visitor: u32,
    pub max_sse_global: u32,
    pub sse_lifetime_secs: u64,
    pub ordinary_request_concurrency: u32,
    pub ordinary_request_timeout_secs: u64,
}

/// The quotas `policy` publishes: each the policy's own limit of the same name.
pub open spec fn quotas_of(policy: DemoPolicy) -> DemoQuotas {
    DemoQuotas {
        max_active_runs_global: policy.max_active_runs_global,
        max_active_runs_per_visitor: policy.max_active_runs_per_visitor,
        max_runs_per_session: policy.max_runs_per_session,
        accepted_starts_per_token: policy.accepted_starts_per_token,
        accepted_starts_per_client_ip: policy.accepted_starts_per_client_ip,
        accepted_start_window_secs: policy.accepted_start_window_secs,
        retained_runs_per_visitor: policy.retained_runs_per_visitor,
        max_tune_run_rows_global: policy.max_tune_run_rows_global,
        max_json_body_bytes: policy.max_json_body_bytes,
        max_sse_per_visitor: policy.max_sse_per_visitor,
        max_sse_global: policy.max_sse_global,
        sse_lifetime_secs: policy.sse_lifetime_secs,
        ordinary_request_concurrency: policy.ordinary_request_concurrency,
        ordinary_request_timeout_secs: policy.ordinary_request_timeout_secs,
    }
}

impl From<DemoPolicy> for DemoQuotas {
    fn from(policy: DemoPolicy) -> (r: DemoQuotas) {
        DemoQuotas {
            max_active_runs_global: policy.max_active_runs_global,
            max_active_runs_per_visitor: policy.max_active_runs_per_visitor,
            max_runs_per_session: policy.max_runs_per_session,
            accepted_starts_per_token: policy.accepted_starts_per_token,
            accepted_starts_per_client_ip: policy.accepted_starts_per_client_ip,
            accepted_start_window_secs: policy.accepted_start_window_secs,
            retained_runs_per_visitor: policy.retained_runs_per_visitor,
            max_tune_run_rows_global: policy.max_tune_run_rows_global,
            max_json_body_bytes: policy.max_json_body_bytes,
            max_sse_per_visitor: policy.max_sse_per_visitor,
            max_sse_global: policy.max_sse_global,
            sse_lifetime_secs: policy.sse_lifetime_secs,
            ordinary_request_concurrency: policy.ordinary_request_concurrency,
            ordinary_request_timeout_secs: policy.ordinary_request_timeout_secs,
        }
    }
}

impl vstd::std_specs::convert::FromSpecImpl<DemoPolicy> for DemoQuotas {
    open spec fn obeys_from_spec() -> bool {
        true
    }

    open spec fn from_spec(policy: DemoPolicy) -> DemoQuotas {
        quotas_of(policy)
    }
}

/// The Demo session cookie's attributes.
#[derive(Debug, Clone, PartialEq, Eq)]
pub struct CookieCapabilities {
    pub name: String,
    pub path: String,
    pub max_age_secs: u64,
    pub http_only: bool,
    pub secure: bool,
    pub same_site: String,
}

/// The security rules a client has to follow.
#[derive(Debug, Clone, PartialEq, Eq)]
pub struct SecurityCapabilities {
    /// The exact origin mutating requests must come from; empty when none is configured.
    pub allowed_origin: String,
    pub exact_origin_required_for_mutations: bool,
    pub https_required: bool,
    pub loopback_http_allowed: bool,
    pub trusted_proxy_configured: bool,
    /// The header a trusted proxy passes the client address in, when one is configured.
    pub forwarded_client_ip_header: Option<String>,
    /// The session cookie, in the Demo.
    pub cookie: Option<CookieCapabilities>,
}

/// Whether `r` states the security rules of `mode`, with `allowed_origin` as the configured
/// origin (empty when none is).
pub open spec fn security_rules(
    r: SecurityCapabilities,
    mode: ServerMode,
    allowed_origin: Seq<char>,
    trusted_proxy_configured: bool,
    policy: DemoPolicy,
) -> bool {
    &&& r.allowed_origin@ == allowed_origin
    &&& r.exact_origin_required_for_mutations == (mode == ServerMode::Demo)
    &&& r.https_required == (mode == ServerMode::Demo)
    &&& r.loopback_http_allowed == (mode == ServerMode::Demo)
    &&& r.trusted_proxy_configured == trusted_proxy_configured
    &&& match r.forwarded_client_ip_header {
        Some(h) => trusted_proxy_configured && h@ == FORWARDED_CLIENT_IP_HEADER@,
        None => !trusted_proxy_configured,
    }
    &&& match r.cookie {
        Some(c) => {
            &&& mode == ServerMode::Demo
            &&& c.name@ == DEMO_COOKIE_NAME@
            &&& c.path@ == "/"@
            &&& c.max_age_secs == policy.session_ttl_secs
            &&& c.http_only && c.secure
            &&& c.same_site@ == "Strict"@
        },
        None => mode == ServerMode::Full,
    }
}

/// The security rules of `mode`: the Demo requires the exact allowed origin for mutations and
/// HTTPS (loopback HTTP excepted), and hands out a host-only, script-proof, same-site,
/// secure session cookie that lives for the session lifetime; with a trusted proxy, the
/// forwarded client address header is named.
pub fn security_capabilities(
    mode: ServerMode,
    allowed_origin: Option<String>,
    trusted_proxy_configured: bool,
    policy: DemoPolicy,
) -> (r: SecurityCapabilities)
    ensures
        security_rules(
            r,
            mode,
            match allowed_origin {
                Some(o) => o@,
                None => Seq::<char>::empty(),
            },
            trusted_proxy_configured,
            policy,
        ),
{
    let demo = mode == ServerMode::Demo;
    let origin = match allowed_origin {
        Some(o) => o,
        None => String::new(),
    };
    let header = if trusted_proxy_configured {
        Some(String::from_str(FORWARDED_CLIENT_IP_HEADER))
    } else {
        None
    };
    let cookie = if demo {
        Some(
            CookieCapabilities {
                name: String::from_str(DEMO_COOKIE_NAME),
                path: String::from_str("/"),
                max_age_secs: policy.session_ttl_secs,
                http_only: true,
                secure: true,
                same_site: String::from_str("Strict"),
            },
        )
    } else {
        None
    };
    SecurityCapabilities {
        allowed_origin: origin,
        exact_origin_required_for_mutations: demo,
        https_required: demo,
        loopback_http_allowed: demo,
        trusted_proxy_configured,
        forwarded_client_ip_header: header,
        cookie,
    }
}

/// The driver identifiers a mode's tune-start surface accepts: only the simulator in the
/// Demo; the OPC DA driver and the simulator in the full API.
pub open spec fn mode_drivers(mode: ServerMode) -> Seq<Seq<char>> {
    match mode {
        ServerMode::Demo => seq!["simulator"@],
        ServerMode::Full => seq!["opcda"@, "simulator"@],
    }
}

/// The driver identifiers `mode` accepts.
pub fn capability_drivers(mode: ServerMode) -> (r: Vec<String>)
    ensures
        r@.map_values(|d: String| d@) == mode_drivers(mode),
{
    let mut r = Vec::new();
    if mode == ServerMode::Full {
        r.push(String::from_str("opcda"));
    }
    r.push(String::from_str("simulator"));
    proof {
        assert(r@.map_values(|d: String| d@) =~= mode_drivers(mode));
    }
    r
}

/// Everything the capabilities answer states that does not concern the simulator's
/// parameters.
#[derive(Debug, Clone, PartialEq, Eq)]
pub struct ModeCapabilities {
    pub drivers: Vec<String>,
    pub actions: CapabilityActions,
    pub demo: bool,
    pub restrictions: Option<DemoRestrictions>,
    pub quotas: Option<DemoQuotas>,
    pub security: SecurityCapabilities,
}

/// The capabilities of `mode`: its drivers, actions and security rules, and in the Demo its
/// restrictions and the quotas of `policy`.
pub fn mode_capabilities(
    mode: ServerMode,
    policy: DemoPolicy,
    allowed_origin: Option<String>,
    trusted_proxy_configured: bool,
) -> (r: ModeCapabilities)
    ensures
        r.drivers@.map_values(|d: String| d@) == mode_drivers(mode),
        r.demo == (mode == ServerMode::Demo),
        r.actions == actions_of(mode),
        r.restrictions == if mode == ServerMode::Demo {
            Some(demo_restrictions())
        } else {
            None
        },
        r.quotas == if mode == ServerMode::Demo {
            Some(quotas_of(policy))
        } else {
            None
        },
        security_rules(
            r.security,
            mode,
            match allowed_origin {
                Some(o) => o@,
                None => Seq::<char>::empty(),
            },
            trusted_proxy_configured,
            policy,
        ),
{
    let demo = mode == ServerMode::Demo;
    let restrictions = if demo {
        Some(DemoRestrictions::demo())
    } else {
        None
    };
    let quotas = if demo {
        Some(DemoQuotas::from(policy))
    } else {
        None
    };
    ModeCapabilities {
        drivers: capability_drivers(mode),
        actions: CapabilityActions::for_mode(mode),
        demo,
        restrictions,
        quotas,
        security: security_capabilities(mode, allowed_origin, trusted_proxy_configured, policy),
    }
}

/// Law: the Demo offers a strict subset of the full API's actions: every action it allows the
/// full API allows too, and it withholds every live-plant and configuration action.
pub proof fn law_demo_actions_are_a_subset()
    ensures
        ({
            let d = actions_of(ServerMode::Demo);
            let f = actions_of(ServerMode::Full);
            &&& d.start_simulator_tune ==> f.start_simulator_tune
            &&& d.start_opcda_tune ==> f.start_opcda_tune
            &&& d.cancel_run ==> f.cancel_run
            &&& d.stream_run ==> f.stream_run
            &&& d.list_history ==> f.list_history
            &&& d.export_run ==> f.export_run
            &&& d.delete_run ==> f.delete_run
            &&& d.edit_notes ==> f.edit_notes
            &&& d.write_pid ==> f.write_pid
            &&& d.revert_pid ==> f.revert_pid
            &&& d.manage_templates ==> f.manage_templates
            &&& d.manage_config ==> f.manage_config
            &&& d.browse_opc ==> f.browse_opc
            &&& !d.start_opcda_tune && !d.write_pid && !d.revert_pid && !d.manage_config
            &&& d != f
        }),
{
}

/// Law: every quota the Demo publishes is the policy's own limit of the same name, so a
/// client plans around exactly the limits the server enforces.
pub proof fn law_published_quotas_are_the_policy_limits(policy: DemoPolicy)
    ensures
        ({
            let q = quotas_of(policy);
            &&& q.max_active_runs_global == policy.max_active_runs_global
            &&& q.max_active_runs_per_visitor == policy.max_active_runs_per_visitor
            &&& q.max_runs_per_session == policy.max_runs_per_session
            &&& q.accepted_starts_per_token == policy.accepted_starts_per_token
            &&& q.accepted_starts_per_client_ip == policy.accepted_starts_per_client_ip
            &&& q.accepted_start_window_secs == policy.accepted_start_window_secs
            &&& q.retained_runs_per_visitor == policy.retained_runs_per_visitor
            &&& q.max_tune_run_rows_global == policy.max_tune_run_rows_global
            &&& q.max_json_body_bytes == policy.max_json_body_bytes
            &&& q.max_sse_per_visitor == policy.max_sse_per_visitor
            &&& q.max_sse_global == policy.max_sse_global
            &&& q.sse_lifetime_secs == policy.sse_lifetime_secs
            &&& q.ordinary_request_concurrency == policy.ordinary_request_concurrency
            &&& q.ordinary_request_timeout_secs == policy.ordinary_request_timeout_secs
        }),
{
}

} // verus!
