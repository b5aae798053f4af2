//! The decisions of the run-starting and post-run routes: request defaults and checks, note
//! normalisation, which runs may have PID constants written or reverted and to what, and the
//! refusals when the live loop is reserved.

use vstd::prelude::*;

use crate::error::{internal_error, ApiError};
use crate::text::{chars_of, decimal, signed_decimal, text_with_int, trim, trim_bounds};

verus! {

/// The default driver poll interval, in milliseconds.
pub fn default_poll_interval_ms() -> (r: u64)
    ensures
        r == 800,
{
    800
}

/// The default cap on a run's total duration, in seconds.
pub fn default_timeout_secs() -> (r: u64)
    ensures
        r == 3600,
{
    3600
}

/// The default cap on a single driver operation, and on restoring the loop after a run, in
/// seconds.
pub fn default_op_or_restore_timeout_secs() -> (r: u64)
    ensures
        r == 30,
{
    30
}

/// The text refusing `field` for being below 1.
pub open spec fn not_positive_message(field: Seq<char>, value: u64) -> Seq<char> {
    "'"@ + field + "' must be at least 1, got "@ + decimal(value as nat)
}

/// A duration or interval field must be at least 1.
pub fn require_positive(field: &str, value: u64) -> (r: Result<(), ApiError>)
    ensures
        value >= 1 <==> r is Ok,
        r matches Err(e) ==> e matches ApiError::BadRequest(m) && m@ == not_positive_message(
            field@,
            value,
        ),
{
    if value >= 1 {
        Ok(())
    } else {
        let mut m = String::from_str("'");
        m.append(field);
        m.append("' must be at least 1, got ");
        crate::text::push_decimal(&mut m, value);
        Err(ApiError::BadRequest(m))
    }
}

/// The body of `PUT /api/runs/{id}/notes`.
#[derive(Debug, Clone, PartialEq, Eq)]
pub struct UpdateNotesRequest {
    /// Blank or white-space-only text clears the notes.
    pub notes: String,
}

/// The notes stored for `notes`: trimmed, and none when nothing is left.
pub open spec fn normalized_notes_spec(notes: Seq<char>) -> Option<Seq<char>> {
    if trim(notes).len() == 0 {
        None
    } else {
        Some(trim(notes))
    }
}

/// The notes stored for `notes`.
pub fn normalized_notes(notes: String) -> (r: Option<String>)
    ensures
        crate::text::opt_view(r) == normalized_notes_spec(notes@),
{
    let chars = chars_of(notes.as_str());
    let (lo, hi) = trim_bounds(chars.as_slice(), 0, chars.len());
    proof {
        assert(chars@.subrange(0, chars@.len() as int) =~= notes@);
    }
    if lo == hi {
        None
    } else {
        let trimmed = notes.as_str().substring_char(lo, hi).to_owned();
        proof {
            assert(trimmed@ =~= chars@.subrange(lo as int, hi as int));
        }
        Some(trimmed)
    }
}

/// The driver a run used.
#[derive(Debug, Clone, Copy, PartialEq, Eq, Structural)]
pub enum TuneDriver {
    Opcda,
    Simulator,
    Replay,
}

/// A driver's name as it is reported in messages.
pub open spec fn driver_name(driver: TuneDriver) -> Seq<char> {
    match driver {
        TuneDriver::Opcda => "Opcda"@,
        TuneDriver::Simulator => "Simulator"@,
        TuneDriver::Replay => "Replay"@,
    }
}

fn driver_label(driver: TuneDriver) -> (r: &'static str)
    ensures
        r@ == driver_name(driver),
{
    match driver {
        TuneDriver::Opcda => "Opcda",
        TuneDriver::Simulator => "Simulator",
        TuneDriver::Replay => "Replay",
    }
}

/// One of a run's three calculated candidate PID sets.
#[derive(Debug, Clone, Copy, PartialEq, Eq, Structural)]
pub enum ResponseLevel {
    Sluggish,
    Moderate,
    Aggressive,
}

/// A response level's name as it is reported in messages.
pub open spec fn level_name(level: ResponseLevel) -> Seq<char> {
    match level {
        ResponseLevel::Sluggish => "Sluggish"@,
        ResponseLevel::Moderate => "Moderate"@,
        ResponseLevel::Aggressive => "Aggressive"@,
    }
}

fn level_label(level: ResponseLevel) -> (r: &'static str)
    ensures
        r@ == level_name(level),
{
    match level {
        ResponseLevel::Sluggish => "Sluggish",
        ResponseLevel::Moderate => "Moderate",
        ResponseLevel::Aggressive => "Aggressive",
    }
}

/// What a post-run write or revert needs to know of a run.
#[derive(Debug, Clone, Copy, PartialEq, Eq, Structural)]
pub struct RunWriteFacts {
    pub id: i64,
    /// Whether the run is still running its own test.
    pub running: bool,
    pub driver: TuneDriver,
    pub has_proportional_tag: bool,
    pub has_integral_tag: bool,
    pub has_derivative_tag: bool,
    /// Whether the run recorded the OPC server it connected to.
    pub has_opc_server: bool,
    /// Whether the run recorded the bridge host it connected through.
    pub has_bridge_host: bool,
}

/// Why a run may not have PID constants written or reverted, checked in this order: it is
/// still running; it did not use the OPC DA driver; it has no PID constant tags; it recorded
/// no connection. `None` when it is eligible.
pub open spec fn write_refusal(run: RunWriteFacts) -> Option<Seq<char>> {
    let id = signed_decimal(run.id as int);
    if run.running {
        Some(
            "run "@ + id
                + " is still running; wait for it to finish before writing or reverting PID constants"@,
        )
    } else if run.driver != TuneDriver::Opcda {
        Some(
            "run "@ + id + " used the "@ + driver_name(run.driver)
                + " driver, which has no live loop to write PID constants to"@,
        )
    } else if !(run.has_proportional_tag && run.has_integral_tag && run.has_derivative_tag) {
        Some("run "@ + id + "'s snapshotted tags have no PID constant tags configured"@)
    } else if !(run.has_opc_server && run.has_bridge_host) {
        Some(
            "run "@ + id
                + " has no recorded OPC server/bridge host; refusing to guess which connection to use"@,
        )
    } else {
        None
    }
}

/// A post-run write or revert is allowed only for a finished OPC DA run with all three PID
/// constant tags and its recorded connection; otherwise it is refused with a 400 saying why.
pub fn require_writable_run(run: RunWriteFacts) -> (r: Result<(), ApiError>)
    ensures
        match write_refusal(run) {
            None => r is Ok,
            Some(text) => r matches Err(ApiError::BadRequest(m)) && m@ == text,
        },
{
    if run.running {
        return Err(
            ApiError::BadRequest(
                text_with_int(
                    "run ",
                    run.id,
                    " is still running; wait for it to finish before writing or reverting PID constants",
                ),
            ),
        );
    }
    if run.driver != TuneDriver::Opcda {
        let mut m = text_with_int("run ", run.id, " used the ");
        m.append(driver_label(run.driver));
        m.append(" driver, which has no live loop to write PID constants to");
        return Err(ApiError::BadRequest(m));
    }
    if !(run.has_proportional_tag && run.has_integral_tag && run.has_derivative_tag) {
        return Err(
            ApiError::BadRequest(
                text_with_int("run ", run.id, "'s snapshotted tags have no PID constant tags configured"),
            ),
        );
    }
    if !(run.has_opc_server && run.has_bridge_host) {
        return Err(
            ApiError::BadRequest(
                text_with_int(
                    "run ",
                    run.id,
                    " has no recorded OPC server/bridge host; refusing to guess which connection to use",
                ),
            ),
        );
    }
    Ok(())
}

/// The calculated result a write uses: the first of the run's `levels` (one per calculated
/// result, in order) that is the requested level; a 400 when the run has none.
pub fn write_result_index(run_id: i64, levels: &Vec<ResponseLevel>, requested: ResponseLevel) -> (r:
    Result<usize, ApiError>)
    ensures
        match r {
            Ok(i) => i < levels@.len() && levels@[i as int] == requested && forall|j: int|
                0 <= j < i ==> levels@[j] != requested,
            Err(e) => {
                &&& forall|j: int| 0 <= j < levels@.len() ==> levels@[j] != requested
                &&& e matches ApiError::BadRequest(m)
                &&& m@ == "run "@ + signed_decimal(run_id as int) + " has no calculated "@
                    + level_name(requested) + " result to write"@
            },
        },
{
    let mut i: usize = 0;
    while i < levels.len()
        invariant
            i <= levels@.len(),
            forall|j: int| 0 <= j < i ==> levels@[j] != requested,
        decreases levels@.len() - i,
    {
        if levels[i] == requested {
            return Ok(i);
        }
        i = i + 1;
    }
    let mut m = text_with_int("run ", run_id, " has no calculated ");
    m.append(level_label(requested));
    m.append(" result to write");
    Err(ApiError::BadRequest(m))
}

/// Whether a recorded write-back was a write or a revert.
#[derive(Debug, Clone, Copy, PartialEq, Eq, Structural)]
pub enum WriteKind {
    Write,
    Revert,
}

/// What a revert needs to know of one recorded write-back.
#[derive(Debug, Clone, Copy, PartialEq, Eq, Structural)]
pub struct RecordedWrite {
    pub kind: WriteKind,
    pub response_level: ResponseLevel,
    /// Whether the constants read before the write were recorded.
    pub has_previous: bool,
}

/// Whether `writes[i]` is the run's last write (not revert).
pub open spec fn is_last_write(writes: Seq<RecordedWrite>, i: int) -> bool {
    &&& 0 <= i < writes.len()
    &&& writes[i].kind == WriteKind::Write
    &&& forall|j: int| i < j < writes.len() ==> (#[trigger] writes[j]).kind != WriteKind::Write
}

/// The recorded write-back a revert restores: the run's last write, whether or not it
/// succeeded, whose pre-write constants must have been recorded. A 400 when the run has no
/// write, or when its last write recorded nothing to revert to.
pub fn revert_write_index(run_id: i64, writes: &Vec<RecordedWrite>) -> (r: Result<usize, ApiError>)
    ensures
        match r {
            Ok(i) => is_last_write(writes@, i as int) && writes@[i as int].has_previous,
            Err(e) => e matches ApiError::BadRequest(m) && if forall|j: int|
                0 <= j < writes@.len() ==> (#[trigger] writes@[j]).kind != WriteKind::Write {
                m@ == "run "@ + signed_decimal(run_id as int)
                    + " has no recorded PID write-back to revert"@
            } else {
                exists|i: int|
                    #![trigger writes@[i]]
                    is_last_write(writes@, i) && !writes@[i].has_previous && m@ == "run "@
                        + signed_decimal(run_id as int) + "'s "@ + level_name(
                        writes@[i].response_level,
                    ) + " PID write-back never recorded pre-write values; nothing to revert to"@
            },
        },
{
    let mut k: usize = writes.len();
    while k > 0
        invariant
            k <= writes@.len(),
            forall|j: int| k <= j < writes@.len() ==> (#[trigger] writes@[j]).kind != WriteKind::Write,
        decreases k,
    {
        let w = writes[k - 1];
        if w.kind == WriteKind::Write {
            if w.has_previous {
                return Ok(k - 1);
            }
            let mut m = text_with_int("run ", run_id, "'s ");
            m.append(level_label(w.response_level));
            m.append(" PID write-back never recorded pre-write values; nothing to revert to");
            proof {
                let i = k - 1;
                assert(is_last_write(writes@, i as int));
                assert(writes@[i as int].kind == WriteKind::Write);
            }
            return Err(ApiError::BadRequest(m));
        }
        k = k - 1;
    }
    Err(ApiError::BadRequest(text_with_int("run ", run_id, " has no recorded PID write-back to revert")))
}

/// A new tune is refused while a post-run write or revert holds the live loop (`exclusive`,
/// with that run's id).
pub fn ensure_no_exclusive_operation(exclusive: Option<i64>) -> (r: Result<(), ApiError>)
    ensures
        exclusive is None <==> r is Ok,
        r matches Err(e) ==> e matches ApiError::Conflict(m) && m@ == "run "@ + signed_decimal(
            exclusive->0 as int,
        )
            + " has an exclusive PID write/revert in progress; wait for it to finish before starting another tune"@,
{
    match exclusive {
        None => Ok(()),
        Some(id) => Err(
            ApiError::Conflict(
                text_with_int(
                    "run ",
                    id,
                    " has an exclusive PID write/revert in progress; wait for it to finish before starting another tune",
                ),
            ),
        ),
    }
}

/// The failure recorded on a prepared run that could not be scheduled because run `existing`
/// took the live loop in the meantime; the same text answers the request with a 409.
pub fn unscheduled_run_reason(existing: i64) -> (r: String)
    ensures
        r@ == "run "@ + signed_decimal(existing as int)
            + " has an exclusive PID write/revert in progress; no tune task was started"@,
{
    text_with_int(
        "run ",
        existing,
        " has an exclusive PID write/revert in progress; no tune task was started",
    )
}

/// The 409 refusing a post-run write or revert while run `existing` (a tune, or another write
/// or revert) holds the live loop.
pub fn reservation_conflict(existing: i64) -> (r: ApiError)
    ensures
        r matches ApiError::Conflict(m) && m@ == "run "@ + signed_decimal(existing as int)
            + " or another PID write/revert is active; try again once it finishes"@,
{
    ApiError::Conflict(
        text_with_int(
            "run ",
            existing,
            " or another PID write/revert is active; try again once it finishes",
        ),
    )
}

/// The 400 for a post-run write or revert whose connection to the run's recorded `server`
/// through `bridge` failed with `error`.
pub fn connect_failure(server: &str, bridge: &str, error: &str) -> (r: ApiError)
    ensures
        r matches ApiError::BadRequest(m) && m@ == "failed to connect to OPC server '"@ + server@
            + "' via bridge '"@ + bridge@ + "': "@ + error@,
{
    let mut m = String::from_str("failed to connect to OPC server '");
    m.append(server);
    m.append("' via bridge '");
    m.append(bridge);
    m.append("': ");
    m.append(error);
    ApiError::BadRequest(m)
}

/// The internal error for run `run_id`, which vanished while its write or revert ran.
pub fn vanished_run(run_id: i64) -> (r: ApiError)
    ensures
        r matches ApiError::Internal(e) && crate::error::error_chain(e) == seq![
            "run "@ + signed_decimal(run_id as int)
                + " vanished while its write/revert was being processed"@,
        ],
{
    internal_error(text_with_int("run ", run_id, " vanished while its write/revert was being processed"))
}

/// Law: a run that may be written may also be reverted, and the other way round: both go by
/// the same eligibility, and an eligible run is a finished OPC DA run with its tags and its
/// recorded connection.
pub proof fn law_write_eligibility(run: RunWriteFacts)
    ensures
        write_refusal(run) is None <==> {
            &&& !run.running
            &&& run.driver == TuneDriver::Opcda
            &&& run.has_proportional_tag && run.has_integral_tag && run.has_derivative_tag
            &&& run.has_opc_server && run.has_bridge_host
        },
{
}

} // verus!
