//! The global configuration as the API shows and edits it: the values stored in the TOML
//! file, the effective values, and where each effective value comes from.

use vstd::prelude::*;

use crate::error::{internal_error, ApiError};

verus! {

/// The effective tune settings.
#[derive(Debug, Clone, Copy, PartialEq, Eq, Structural)]
pub struct ConfigTuningValues {
    pub mrft_delay_secs: u32,
    pub poll_interval_ms: u64,
    pub timeout_secs: u64,
    pub op_timeout_secs: u64,
    pub restore_timeout_secs: u64,
}

/// The effective global configuration.
#[derive(Debug, Clone, Copy, PartialEq, Eq)]
pub struct ConfigValues {
    pub allow_uncertain_quality: bool,
    pub retention_days: Option<u32>,
    pub tuning: ConfigTuningValues,
}

/// Where each effective tune setting comes from.
#[derive(Debug, Clone, PartialEq, Eq)]
pub struct ConfigTuningSources {
    pub mrft_delay_secs: String,
    pub poll_interval_ms: String,
    pub timeout_secs: String,
    pub op_timeout_secs: String,
    pub restore_timeout_secs: String,
}

/// Where each effective value comes from: `"environment"`, `"config_file"` or `"default"`.
#[derive(Debug, Clone, PartialEq, Eq)]
pub struct ConfigSources {
    pub allow_uncertain_quality: String,
    pub retention_days: String,
    pub tuning: ConfigTuningSources,
}

/// The tune settings the TOML file sets; `None` where it sets none.
#[derive(Debug, Clone, Copy, PartialEq, Eq)]
pub struct ConfigTuningTomlValues {
    pub mrft_delay_secs: Option<u32>,
    pub poll_interval_ms: Option<u64>,
    pub timeout_secs: Option<u64>,
    pub op_timeout_secs: Option<u64>,
    pub restore_timeout_secs: Option<u64>,
}

/// The values the TOML file sets.
#[derive(Debug, Clone, Copy, PartialEq, Eq)]
pub struct ConfigTomlValues {
    pub allow_uncertain_quality: Option<bool>,
    pub retention_days: Option<u32>,
    pub tuning: ConfigTuningTomlValues,
}

/// The answer of `GET /api/config` and `PUT /api/config`.
#[derive(Debug, Clone, PartialEq, Eq)]
pub struct ConfigResponse {
    pub revision: String,
    pub config_path: String,
    pub toml: ConfigTomlValues,
    pub effective: ConfigValues,
    pub source: ConfigSources,
    pub backup_path: Option<String>,
}

/// The body of `PUT /api/config`.
#[derive(Debug, Clone, PartialEq, Eq)]
pub struct UpdateConfigRequest {
    pub revision: String,
    pub allow_uncertain_quality: bool,
    pub retention_days: Option<u32>,
    /// `None` keeps the stored tune settings; a value replaces all of them, its `None` fields
    /// removing theirs.
    pub tuning: Option<UpdateTuningRequest>,
}

/// The tune settings of a `PUT /api/config` body.
#[derive(Debug, Clone, Copy, PartialEq, Eq)]
pub struct UpdateTuningRequest {
    pub mrft_delay_secs: Option<u32>,
    pub poll_interval_ms: Option<u64>,
    pub timeout_secs: Option<u64>,
    pub op_timeout_secs: Option<u64>,
    pub restore_timeout_secs: Option<u64>,
}

/// The settings an update request stores: each of its fields as it stands.
pub open spec fn stored_settings(request: UpdateTuningRequest) -> ConfigTuningTomlValues {
    ConfigTuningTomlValues {
        mrft_delay_secs: request.mrft_delay_secs,
        poll_interval_ms: request.poll_interval_ms,
        timeout_secs: request.timeout_secs,
        op_timeout_secs: request.op_timeout_secs,
        restore_timeout_secs: request.restore_timeout_secs,
    }
}

impl From<UpdateTuningRequest> for ConfigTuningTomlValues {
    fn from(request: UpdateTuningRequest) -> (r: ConfigTuningTomlValues) {
        ConfigTuningTomlValues {
            mrft_delay_secs: request.mrft_delay_secs,
            poll_interval_ms: request.poll_interval_ms,
            timeout_secs: request.timeout_secs,
            op_timeout_secs: request.op_timeout_secs,
            restore_timeout_secs: request.restore_timeout_secs,
        }
    }
}

impl vstd::std_specs::convert::FromSpecImpl<UpdateTuningRequest> for ConfigTuningTomlValues {
    open spec fn obeys_from_spec() -> bool {
        true
    }

    open spec fn from_spec(request: UpdateTuningRequest) -> ConfigTuningTomlValues {
        stored_settings(request)
    }
}

/// Where a tune setting's effective value comes from.
#[derive(Debug, Clone, Copy, PartialEq, Eq, Structural)]
pub enum TuningConfigSource {
    Toml,
    BuiltInDefault,
}

/// The label of a tune setting's source.
pub open spec fn tuning_source_text(source: TuningConfigSource) -> Seq<char> {
    match source {
        TuningConfigSource::Toml => "config_file"@,
        TuningConfigSource::BuiltInDefault => "default"@,
    }
}

/// The label of `source`.
pub fn tuning_source_label(source: TuningConfigSource) -> (r: String)
    ensures
        r@ == tuning_source_text(source),
{
    match source {
        TuningConfigSource::Toml => String::from_str("config_file"),
        TuningConfigSource::BuiltInDefault => String::from_str("default"),
    }
}

/// The source of each tune setting.
#[derive(Debug, Clone, Copy, PartialEq, Eq, Structural)]
pub struct TuningSources {
    pub mrft_delay_secs: TuningConfigSource,
    pub poll_interval_ms: TuningConfigSource,
    pub timeout_secs: TuningConfigSource,
    pub op_timeout_secs: TuningConfigSource,
    pub restore_timeout_secs: TuningConfigSource,
}

/// The loaded configuration store, as far as the API shows it.
#[derive(Debug, Clone, PartialEq, Eq)]
pub struct ConfigStoreSnapshot {
    pub revision: String,
    /// The file's path, empty when there is none.
    pub config_path: String,
    /// The effective quality policy.
    pub allow_uncertain_quality: bool,
    /// The quality policy the file sets.
    pub toml_allow_uncertain_quality: Option<bool>,
    /// The retention the file sets.
    pub retention_days: Option<u32>,
    pub toml_tuning: ConfigTuningTomlValues,
    pub tuning_sources: TuningSources,
}

/// The source label of the quality policy: the file's when it sets one.
pub open spec fn quality_source_text(toml: Option<bool>) -> Seq<char> {
    if toml is Some {
        "config_file"@
    } else {
        "default"@
    }
}

/// The source label of the retention period: the environment overrides the file, which
/// overrides the built-in default.
pub open spec fn retention_source_text(env_retention: Option<u32>, toml: Option<u32>) -> Seq<char> {
    if env_retention is Some {
        "environment"@
    } else if toml is Some {
        "config_file"@
    } else {
        "default"@
    }
}

/// The configuration answer for `store`: its revision, path and file values as stored; the
/// effective retention and tune settings as resolved (`effective_retention`,
/// `effective_tuning`); each effective value's source; and the backup written by a save,
/// if any. `env_retention` is the retention the environment sets.
pub fn response_from_store_with_retention(
    store: ConfigStoreSnapshot,
    backup_path: Option<String>,
    env_retention: Option<u32>,
    effective_retention: Option<u32>,
    effective_tuning: ConfigTuningValues,
) -> (r: ConfigResponse)
    ensures
        r.revision@ == store.revision@,
        r.config_path@ == store.config_path@,
        r.backup_path == backup_path,
        r.toml == (ConfigTomlValues {
            allow_uncertain_quality: store.toml_allow_uncertain_quality,
            retention_days: store.retention_days,
            tuning: store.toml_tuning,
        }),
        r.effective == (ConfigValues {
            allow_uncertain_quality: store.allow_uncertain_quality,
            retention_days: effective_retention,
            tuning: effective_tuning,
        }),
        r.source.allow_uncertain_quality@ == quality_source_text(store.toml_allow_uncertain_quality),
        r.source.retention_days@ == retention_source_text(env_retention, store.retention_days),
        r.source.tuning.mrft_delay_secs@ == tuning_source_text(store.tuning_sources.mrft_delay_secs),
        r.source.tuning.poll_interval_ms@ == tuning_source_text(store.tuning_sources.poll_interval_ms),
        r.source.tuning.timeout_secs@ == tuning_source_text(store.tuning_sources.timeout_secs),
        r.source.tuning.op_timeout_secs@ == tuning_source_text(store.tuning_sources.op_timeout_secs),
        r.source.tuning.restore_timeout_secs@ == tuning_source_text(
            store.tuning_sources.restore_timeout_secs,
        ),
{
    let quality = if store.toml_allow_uncertain_quality.is_some() {
        String::from_str("config_file")
    } else {
        String::from_str("default")
    };
    let retention = if env_retention.is_some() {
        String::from_str("environment")
    } else if store.retention_days.is_some() {
        String::from_str("config_file")
    } else {
        String::from_str("default")
    };
    let sources = ConfigSources {
        allow_uncertain_quality: quality,
        retention_days: retention,
        tuning: ConfigTuningSources {
            mrft_delay_secs: tuning_source_label(store.tuning_sources.mrft_delay_secs),
            poll_interval_ms: tuning_source_label(store.tuning_sources.poll_interval_ms),
            timeout_secs: tuning_source_label(store.tuning_sources.timeout_secs),
            op_timeout_secs: tuning_source_label(store.tuning_sources.op_timeout_secs),
            restore_timeout_secs: tuning_source_label(store.tuning_sources.restore_timeout_secs),
        },
    };
    ConfigResponse {
        revision: store.revision,
        config_path: store.config_path,
        toml: ConfigTomlValues {
            allow_uncertain_quality: store.toml_allow_uncertain_quality,
            retention_days: store.retention_days,
            tuning: store.toml_tuning,
        },
        effective: ConfigValues {
            allow_uncertain_quality: store.allow_uncertain_quality,
            retention_days: effective_retention,
            tuning: effective_tuning,
        },
        source: sources,
        backup_path,
    }
}

/// The first check of a configuration save: a retention of zero days is refused (retention
/// is off only when absent).
pub fn check_retention_days(retention_days: Option<u32>) -> (r: Result<(), ApiError>)
    ensures
        retention_days == Some(0u32) <==> r is Err,
        r matches Err(e) ==> e matches ApiError::BadRequest(m) && m@
            == "retention_days must be at least 1 or null"@,
{
    match retention_days {
        Some(0) => Err(
            ApiError::BadRequest(String::from_str("retention_days must be at least 1 or null")),
        ),
        _ => Ok(()),
    }
}

/// The tune settings a save stores: the request's, which replace all stored ones, or the
/// stored ones when the request leaves them out.
pub fn requested_tuning(request: Option<UpdateTuningRequest>, stored: ConfigTuningTomlValues) -> (r:
    ConfigTuningTomlValues)
    ensures
        r == match request {
            Some(t) => stored_settings(t),
            None => stored,
        },
        request matches Some(t) ==> {
            &&& r.mrft_delay_secs == t.mrft_delay_secs
            &&& r.poll_interval_ms == t.poll_interval_ms
            &&& r.timeout_secs == t.timeout_secs
            &&& r.op_timeout_secs == t.op_timeout_secs
            &&& r.restore_timeout_secs == t.restore_timeout_secs
        },
{
    match request {
        Some(t) => ConfigTuningTomlValues::from(t),
        None => stored,
    }
}

/// How a failed save is answered: a stale revision or a file changed on disk (`conflict`,
/// with its message) is a 409 carrying that message; anything else is an internal error
/// described by `description`.
pub fn map_store_error(conflict: Option<String>, description: String) -> (r: ApiError)
    ensures
        match conflict {
            Some(m) => r == ApiError::Conflict(m),
            None => r matches ApiError::Internal(e) && crate::error::error_chain(e) == seq![
                description@,
            ],
        },
{
    match conflict {
        Some(message) => ApiError::Conflict(message),
        None => internal_error(description),
    }
}

/// Law: saving a tuning block stores each setting under its own name, exactly as requested,
/// and a save without a tuning block keeps what was stored.
pub proof fn law_saved_tuning_keeps_each_setting(
    request: Option<UpdateTuningRequest>,
    stored: ConfigTuningTomlValues,
)
    ensures
        ({
            let saved = match request {
                Some(t) => stored_settings(t),
                None => stored,
            };
            match request {
                Some(t) => {
                    &&& saved.mrft_delay_secs == t.mrft_delay_secs
                    &&& saved.poll_interval_ms == t.poll_interval_ms
                    &&& saved.timeout_secs == t.timeout_secs
                    &&& saved.op_timeout_secs == t.op_timeout_secs
                    &&& saved.restore_timeout_secs == t.restore_timeout_secs
                },
                None => saved == stored,
            }
        }),
{
}

} // verus!
