//! The run-history answers: which page of runs a listing returns, a run's PID constant tags,
//! the form an export is downloaded in, and the refusals of the history routes.

use vstd::prelude::*;

use crate::error::ApiError;
use crate::text::{signed_decimal, text_with_int};

verus! {

/// The page size of a run listing that asks for none.
pub const DEFAULT_PAGE_LIMIT: i64 = 50;

/// The page of a run listing, as `(limit, offset)`: the requested limit or
/// [`DEFAULT_PAGE_LIMIT`], from the requested offset or 0.
pub fn run_page(limit: Option<i64>, offset: Option<i64>) -> (r: (i64, i64))
    ensures
        r.0 == match limit {
            Some(l) => l,
            None => DEFAULT_PAGE_LIMIT,
        },
        r.1 == match offset {
            Some(o) => o,
            None => 0,
        },
{
    let l = match limit {
        Some(l) => l,
        None => DEFAULT_PAGE_LIMIT,
    };
    let o = match offset {
        Some(o) => o,
        None => 0,
    };
    (l, o)
}

/// A run's PID constant tag names.
#[derive(Debug, Clone, PartialEq, Eq)]
pub struct PidConstantTagsResponse {
    pub proportional: String,
    pub integral: String,
    pub derivative: String,
}

/// A run's PID constant tags, present exactly when all three were configured: that presence
/// is what tells a client a post-run write or revert can be offered.
pub fn pid_constant_tags(
    proportional: Option<String>,
    integral: Option<String>,
    derivative: Option<String>,
) -> (r: Option<PidConstantTagsResponse>)
    ensures
        r is Some <==> proportional is Some && integral is Some && derivative is Some,
        r matches Some(tags) ==> Some(tags.proportional) == proportional && Some(tags.integral)
            == integral && Some(tags.derivative) == derivative,
{
    match (proportional, integral, derivative) {
        (Some(p), Some(i), Some(d)) => Some(
            PidConstantTagsResponse { proportional: p, integral: i, derivative: d },
        ),
        _ => None,
    }
}

/// The form a run's samples are exported in.
#[derive(Debug, Clone, Copy, PartialEq, Eq, Structural)]
pub enum RunExportFormat {
    Csv,
    Json,
}

/// The query of an export request.
#[derive(Debug, Clone, Copy, PartialEq, Eq, Structural)]
pub struct RunExportQuery {
    /// CSV when absent.
    pub format: Option<RunExportFormat>,
}

/// The form an export is made in: the requested one, CSV by default.
pub fn export_format(query: RunExportQuery) -> (r: RunExportFormat)
    ensures
        r == match query.format {
            Some(f) => f,
            None => RunExportFormat::Csv,
        },
{
    match query.format {
        Some(f) => f,
        None => RunExportFormat::Csv,
    }
}

/// The media type of an export.
pub open spec fn export_media_type(format: RunExportFormat) -> Seq<char> {
    match format {
        RunExportFormat::Csv => "text/csv"@,
        RunExportFormat::Json => "application/json"@,
    }
}

/// The file extension of an export.
pub open spec fn export_extension_text(format: RunExportFormat) -> Seq<char> {
    match format {
        RunExportFormat::Csv => "csv"@,
        RunExportFormat::Json => "json"@,
    }
}

/// The `Content-Type` of an export in `format`.
pub fn export_content_type(format: RunExportFormat) -> (r: &'static str)
    ensures
        r@ == export_media_type(format),
{
    match format {
        RunExportFormat::Csv => "text/csv",
        RunExportFormat::Json => "application/json",
    }
}

/// The file extension of an export in `format`.
pub fn export_extension(format: RunExportFormat) -> (r: &'static str)
    ensures
        r@ == export_extension_text(format),
{
    match format {
        RunExportFormat::Csv => "csv",
        RunExportFormat::Json => "json",
    }
}

/// The `Content-Disposition` of an export of run `run_id`, downloaded as a file named by
/// `prefix`, the run id and the format's extension.
pub open spec fn attachment_text(prefix: Seq<char>, run_id: i64, format: RunExportFormat) -> Seq<
    char,
> {
    "attachment; filename=\""@ + prefix + signed_decimal(run_id as int) + "."@
        + export_extension_text(format) + "\""@
}

/// The `Content-Disposition` of an export: `run-<id>.<ext>` in the full API, and
/// `demo-run-<id>.<ext>` in the Demo, as `prefix` says.
pub fn export_disposition(prefix: &str, run_id: i64, format: RunExportFormat) -> (r: String)
    ensures
        r@ == attachment_text(prefix@, run_id, format),
{
    let mut r = String::from_str("attachment; filename=\"");
    r.append(prefix);
    let id = text_with_int("", run_id, ".");
    r.append(id.as_str());
    r.append(export_extension(format));
    r.append("\"");
    proof {
        reveal_strlit("");
        assert(r@ =~= attachment_text(prefix@, run_id, format));
    }
    r
}

/// The text of a 404 for run `run_id` of the full API.
pub open spec fn no_run_message(run_id: i64) -> Seq<char> {
    "no run with id "@ + signed_decimal(run_id as int)
}

/// The 404 for run `run_id`.
pub fn no_run(run_id: i64) -> (r: ApiError)
    ensures
        r matches ApiError::NotFound(m) && m@ == no_run_message(run_id),
{
    let message = text_with_int("no run with id ", run_id, "");
    proof {
        reveal_strlit("");
        assert(message@ =~= no_run_message(run_id));
    }
    ApiError::NotFound(message)
}

/// The 404 for exporting run `run_id`, which has no samples; `demo` says which surface asks.
pub fn no_samples(run_id: i64, demo: bool) -> (r: ApiError)
    ensures
        r matches ApiError::NotFound(m) && m@ == if demo {
            "demo run "@ + signed_decimal(run_id as int) + " has no samples"@
        } else {
            "run "@ + signed_decimal(run_id as int)
                + " has no recorded samples (unknown run id, or it never started)"@
        },
{
    if demo {
        ApiError::NotFound(text_with_int("demo run ", run_id, " has no samples"))
    } else {
        ApiError::NotFound(
            text_with_int(
                "run ",
                run_id,
                " has no recorded samples (unknown run id, or it never started)",
            ),
        )
    }
}

/// A run may be deleted only once it has finished; deleting one still running is refused
/// with a 409 (asking to cancel it first), worded for the surface `demo` names.
pub fn ensure_deletable(run_id: i64, running: bool, demo: bool) -> (r: Result<(), ApiError>)
    ensures
        running <==> r is Err,
        r matches Err(e) ==> e matches ApiError::Conflict(m) && m@ == if demo {
            "cancel the demo run before deleting it"@
        } else {
            "run "@ + signed_decimal(run_id as int)
                + " has not finished yet; cancel it before deleting"@
        },
{
    if !running {
        Ok(())
    } else if demo {
        Err(ApiError::Conflict(String::from_str("cancel the demo run before deleting it")))
    } else {
        Err(
            ApiError::Conflict(
                text_with_int("run ", run_id, " has not finished yet; cancel it before deleting"),
            ),
        )
    }
}

} // verus!
