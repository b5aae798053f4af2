//! The request-level rules of the restricted Demo API: which surface answers at all, which
//! request fields a visitor may set, how far a visitor may page, and how every exhausted
//! Demo limit is answered.

use vstd::prelude::*;

use crate::error::{error_chain, ApiError};
use crate::policy::{DemoPolicy, ServerMode};
use crate::routes::capabilities::IntegerBounds;
use crate::routes::runs::TuneDriver;
use crate::text::{
    contains_text, decimal, push_decimal, signed_decimal, str_contains, str_eq, text_around,
    text_with_int,
};

verus! {

/// The 404 answering any Demo request while the server runs the full API.
pub open spec fn demo_disabled_message() -> Seq<char> {
    "demo mode is not enabled"@
}

/// The Demo API answers only in Demo mode; elsewhere it does not exist.
pub fn ensure_demo(mode: ServerMode) -> (r: Result<(), ApiError>)
    ensures
        mode == ServerMode::Demo <==> r is Ok,
        r matches Err(e) ==> e matches ApiError::NotFound(m) && m@ == demo_disabled_message(),
{
    match mode {
        ServerMode::Demo => Ok(()),
        ServerMode::Full => Err(ApiError::NotFound(String::from_str("demo mode is not enabled"))),
    }
}

/// The 404 answering any API path the Demo surface does not offer.
pub fn api_not_found() -> (r: ApiError)
    ensures
        r matches ApiError::NotFound(m) && m@ == "API route is not available in Demo mode"@,
{
    ApiError::NotFound(String::from_str("API route is not available in Demo mode"))
}

/// The text of a 404 for a Demo run the visitor does not own (or that does not exist): the two
/// are deliberately indistinguishable.
pub open spec fn no_demo_run_message(run_id: i64) -> Seq<char> {
    "no demo run with id "@ + signed_decimal(run_id as int)
}

/// The 404 for Demo run `run_id`.
pub fn no_demo_run(run_id: i64) -> (r: ApiError)
    ensures
        r matches ApiError::NotFound(m) && m@ == no_demo_run_message(run_id),
{
    let message = text_with_int("no demo run with id ", run_id, "");
    proof {
        reveal_strlit("");
        assert(message@ =~= no_demo_run_message(run_id));
    }
    ApiError::NotFound(message)
}

/// The owner a Demo run must belong to: the visitor's persisted session, if there is one. A
/// visitor without a session owns nothing, so every run id is answered with a 404.
pub fn owner_id(session_id: Option<i64>, run_id: i64) -> (r: Result<i64, ApiError>)
    ensures
        match session_id {
            Some(id) => r == Ok::<i64, ApiError>(id),
            None => r matches Err(ApiError::NotFound(m)) && m@ == no_demo_run_message(run_id),
        },
{
    match session_id {
        Some(id) => Ok(id),
        None => Err(no_demo_run(run_id)),
    }
}

/// The largest page of runs a visitor may ask for: everything they can own at once.
pub open spec fn max_demo_page(policy: DemoPolicy) -> int {
    policy.retained_runs_per_visitor + policy.max_active_runs_per_visitor
}

/// The page a Demo run listing returns, as `(limit, offset)`: the requested limit capped at
/// [`max_demo_page`] (the cap itself when none was asked for), from the requested offset (0
/// when none). A negative offset or a limit below 1 is refused.
pub fn demo_run_page(limit: Option<i64>, offset: Option<i64>, policy: DemoPolicy) -> (r: Result<
    (i64, i64),
    ApiError,
>)
    requires
        max_demo_page(policy) <= u32::MAX,
    ensures
        (offset matches Some(o) && o < 0) || (limit matches Some(l) && l < 1) <==> r is Err,
        r matches Err(e) ==> e matches ApiError::BadRequest(m) && m@
            == "demo run pagination requires limit >= 1 and offset >= 0"@,
        r matches Ok((l, o)) ==> {
            &&& l == match limit {
                Some(requested) => if requested < max_demo_page(policy) {
                    requested as int
                } else {
                    max_demo_page(policy)
                },
                None => max_demo_page(policy),
            }
            &&& o == match offset {
                Some(requested) => requested as int,
                None => 0,
            }
        },
{
    let bad_offset = match offset {
        Some(o) => o < 0,
        None => false,
    };
    let bad_limit = match limit {
        Some(l) => l < 1,
        None => false,
    };
    if bad_offset || bad_limit {
        return Err(
            ApiError::BadRequest(
                String::from_str("demo run pagination requires limit >= 1 and offset >= 0"),
            ),
        );
    }
    let max_page: i64 = (policy.retained_runs_per_visitor + policy.max_active_runs_per_visitor) as i64;
    let l = match limit {
        Some(requested) => if requested < max_page {
            requested
        } else {
            max_page
        },
        None => max_page,
    };
    let o = match offset {
        Some(requested) => requested,
        None => 0,
    };
    Ok((l, o))
}

/// The fields a Demo start request may carry. Everything else (driver connections, tag
/// overrides, notes, write-back) is refused before anything else happens.
pub open spec fn allowed_demo_field(field: Seq<char>) -> bool {
    ||| field == "tagname"@
    ||| field == "template"@
    ||| field == "process_type"@
    ||| field == "controller_type"@
    ||| field == "relay_amp"@
    ||| field == "cycles_skip"@
    ||| field == "cycles_count"@
    ||| field == "noise_protection_secs"@
    ||| field == "driver"@
    ||| field == "sim_gain"@
    ||| field == "sim_tau"@
    ||| field == "sim_dead_time"@
    ||| field == "sim_noise"@
    ||| field == "sim_seed"@
    ||| field == "sim_initial_pv"@
    ||| field == "sim_initial_mv"@
    ||| field == "pv_range_high"@
    ||| field == "pv_range_low"@
    ||| field == "mv_range_high"@
    ||| field == "mv_range_low"@
    ||| field == "direction"@
}

/// Whether a Demo start request may carry `field`.
pub fn is_allowed_demo_field(field: &str) -> (r: bool)
    ensures
        r == allowed_demo_field(field@),
{
    str_eq(field, "tagname") || str_eq(field, "template") || str_eq(field, "process_type")
        || str_eq(field, "controller_type") || str_eq(field, "relay_amp") || str_eq(
        field,
        "cycles_skip",
    ) || str_eq(field, "cycles_count") || str_eq(field, "noise_protection_secs") || str_eq(
        field,
        "driver",
    ) || str_eq(field, "sim_gain") || str_eq(field, "sim_tau") || str_eq(field, "sim_dead_time")
        || str_eq(field, "sim_noise") || str_eq(field, "sim_seed") || str_eq(
        field,
        "sim_initial_pv",
    ) || str_eq(field, "sim_initial_mv") || str_eq(field, "pv_range_high") || str_eq(
        field,
        "pv_range_low",
    ) || str_eq(field, "mv_range_high") || str_eq(field, "mv_range_low") || str_eq(
        field,
        "direction",
    )
}

/// The text refusing a Demo start request that sets `field`.
pub open spec fn forbidden_field_message(field: Seq<char>) -> Seq<char> {
    "demo requests may not set '"@ + field + "'"@
}

/// Whether `keys[i]` is the first key that is not an allowed field.
pub open spec fn is_first_disallowed(keys: Seq<String>, i: int) -> bool {
    &&& 0 <= i < keys.len()
    &&& !allowed_demo_field(keys[i]@)
    &&& forall|j: int| 0 <= j < i ==> allowed_demo_field(#[trigger] keys[j]@)
}

/// Whether `e` is the 400 refusing a request that sets `field`.
pub open spec fn refuses_field(e: ApiError, field: Seq<char>) -> bool {
    e matches ApiError::BadRequest(m) && m@ == forbidden_field_message(field)
}

/// The first check of a Demo start request's raw JSON body, made before any permit is taken or
/// any storage is touched: `fields` holds the body's keys, in order, or is `None` when the body
/// is not a JSON object. Refused with a 400 when it is not an object, or naming the first key
/// that is not an allowed field.
pub fn check_demo_fields(fields: Option<&Vec<String>>) -> (r: Result<(), ApiError>)
    ensures
        match fields {
            None => r matches Err(ApiError::BadRequest(m)) && m@
                == "demo run request body must be a JSON object"@,
            Some(keys) => {
                &&& (forall|i: int| 0 <= i < keys@.len() ==> allowed_demo_field(
                    #[trigger] keys@[i]@,
                )) <==> r is Ok
                &&& r matches Err(e) ==> exists|i: int|
                    is_first_disallowed(keys@, i) && #[trigger] refuses_field(e, keys@[i]@)
            },
        },
{
    match fields {
        None => Err(
            ApiError::BadRequest(String::from_str("demo run request body must be a JSON object")),
        ),
        Some(keys) => match first_disallowed_field(keys) {
            None => Ok(()),
            Some(i) => {
                let message = text_around("demo requests may not set '", keys[i].as_str(), "'");
                proof {
                    assert(refuses_field(ApiError::BadRequest(message), keys@[i as int]@));
                }
                Err(ApiError::BadRequest(message))
            },
        },
    }
}

/// The index of the first of `keys` that is not an allowed Demo field, if any.
pub fn first_disallowed_field(keys: &Vec<String>) -> (r: Option<usize>)
    ensures
        r is None <==> forall|i: int| 0 <= i < keys@.len() ==> allowed_demo_field(#[trigger] keys@[i]@),
        r matches Some(i) ==> is_first_disallowed(keys@, i as int),
{
    let mut i: usize = 0;
    while i < keys.len()
        invariant
            i <= keys@.len(),
            forall|j: int| 0 <= j < i ==> allowed_demo_field(#[trigger] keys@[j]@),
        decreases keys@.len() - i,
    {
        if !is_allowed_demo_field(keys[i].as_str()) {
            return Some(i);
        }
        i = i + 1;
    }
    None
}

/// The fixed tag label every Demo run uses.
pub const DEMO_TAG_NAME: &'static str = "Simulator demo";

/// The first refusal a Demo start request meets among the checks of what it tunes, in order:
/// a driver other than the simulator; a template that is not built in; a tag label other than
/// [`DEMO_TAG_NAME`]; a controller type the process type does not allow.
pub open spec fn demo_target_refusal(
    driver: TuneDriver,
    builtin_template: bool,
    tagname: Seq<char>,
    controller_allowed: bool,
) -> Option<Seq<char>> {
    if driver != TuneDriver::Simulator {
        Some("demo mode only supports the simulator driver"@)
    } else if !builtin_template {
        Some("demo mode only supports built-in DCS/PLC templates"@)
    } else if tagname != DEMO_TAG_NAME@ {
        Some("demo requests must use the fixed tag label '"@ + DEMO_TAG_NAME@ + "'"@)
    } else if !controller_allowed {
        Some("the selected controller type is not valid for the selected process type"@)
    } else {
        None
    }
}

/// Checks what a Demo start request tunes: `builtin_template` says whether its template is one
/// of the built-in ones, `controller_allowed` whether its controller type suits its process
/// type. Refused with a 400 naming the first rule broken.
pub fn check_demo_target(
    driver: TuneDriver,
    builtin_template: bool,
    tagname: &str,
    controller_allowed: bool,
) -> (r: Result<(), ApiError>)
    ensures
        match demo_target_refusal(driver, builtin_template, tagname@, controller_allowed) {
            None => r is Ok,
            Some(text) => r matches Err(ApiError::BadRequest(m)) && m@ == text,
        },
        r is Ok <==> (driver == TuneDriver::Simulator && builtin_template && tagname@
            == DEMO_TAG_NAME@ && controller_allowed),
{
    if driver != TuneDriver::Simulator {
        return Err(
            ApiError::BadRequest(String::from_str("demo mode only supports the simulator driver")),
        );
    }
    if !builtin_template {
        return Err(
            ApiError::BadRequest(
                String::from_str("demo mode only supports built-in DCS/PLC templates"),
            ),
        );
    }
    if !str_eq(tagname, DEMO_TAG_NAME) {
        return Err(
            ApiError::BadRequest(
                text_around("demo requests must use the fixed tag label '", DEMO_TAG_NAME, "'"),
            ),
        );
    }
    if !controller_allowed {
        return Err(
            ApiError::BadRequest(
                String::from_str(
                    "the selected controller type is not valid for the selected process type",
                ),
            ),
        );
    }
    Ok(())
}

/// Law: a Demo start passes the target checks exactly when it uses the simulator driver, a
/// built-in template, the fixed tag label and a controller type its process type allows; any
/// other start is refused with a 400.
pub proof fn law_demo_target_admits_exactly_valid_starts(
    driver: TuneDriver,
    builtin_template: bool,
    tagname: Seq<char>,
    controller_allowed: bool,
)
    ensures
        demo_target_refusal(driver, builtin_template, tagname, controller_allowed) is None <==> (
        driver == TuneDriver::Simulator && builtin_template && tagname == DEMO_TAG_NAME@
            && controller_allowed),
{
}

/// The bounds of a Demo start request's whole-number fields.
#[derive(Debug, Clone, Copy, PartialEq, Eq, Structural)]
pub struct DemoCountLimits {
    pub sim_seed_max: u64,
    pub cycles_skip: IntegerBounds,
    pub cycles_count: IntegerBounds,
    pub noise_protection_secs: IntegerBounds,
}

/// Whether a required whole-number field is present and within `bounds`.
pub open spec fn within(value: Option<u32>, bounds: IntegerBounds) -> bool {
    value matches Some(v) && bounds.min <= v <= bounds.max
}

/// The text refusing `field` for lying outside `bounds`.
pub open spec fn out_of_bounds_text(field: Seq<char>, bounds: IntegerBounds) -> Seq<char> {
    "demo field '"@ + field + "' must be between "@ + decimal(bounds.min as nat) + " and "@
        + decimal(bounds.max as nat)
}

/// The first refusal among a Demo start request's whole-number fields, in order: a simulator
/// seed above its maximum; then, each required and within its bounds, the cycles to skip, the
/// cycles to count, and the noise-protection time.
pub open spec fn demo_count_refusal(
    sim_seed: u64,
    cycles_skip: Option<u32>,
    cycles_count: Option<u32>,
    noise_protection_secs: Option<u32>,
    limits: DemoCountLimits,
) -> Option<Seq<char>> {
    if sim_seed > limits.sim_seed_max {
        Some("demo field 'sim_seed' exceeds the supported maximum"@)
    } else if !within(cycles_skip, limits.cycles_skip) {
        Some(out_of_bounds_text("cycles_skip"@, limits.cycles_skip))
    } else if !within(cycles_count, limits.cycles_count) {
        Some(out_of_bounds_text("cycles_count"@, limits.cycles_count))
    } else if !within(noise_protection_secs, limits.noise_protection_secs) {
        Some(out_of_bounds_text("noise_protection_secs"@, limits.noise_protection_secs))
    } else {
        None
    }
}

fn check_within(field: &str, value: Option<u32>, bounds: IntegerBounds) -> (r: Result<(), ApiError>)
    ensures
        within(value, bounds) <==> r is Ok,
        r matches Err(e) ==> e matches ApiError::BadRequest(m) && m@ == out_of_bounds_text(
            field@,
            bounds,
        ),
{
    let ok = match value {
        Some(v) => bounds.min <= v as u64 && v as u64 <= bounds.max,
        None => false,
    };
    if ok {
        Ok(())
    } else {
        let mut m = text_around("demo field '", field, "' must be between ");
        push_decimal(&mut m, bounds.min);
        m.append(" and ");
        push_decimal(&mut m, bounds.max);
        Err(ApiError::BadRequest(m))
    }
}

/// Checks a Demo start request's whole-number fields against `limits`, refusing with a 400
/// that names the first field out of bounds.
pub fn check_demo_counts(
    sim_seed: u64,
    cycles_skip: Option<u32>,
    cycles_count: Option<u32>,
    noise_protection_secs: Option<u32>,
    limits: DemoCountLimits,
) -> (r: Result<(), ApiError>)
    ensures
        match demo_count_refusal(sim_seed, cycles_skip, cycles_count, noise_protection_secs, limits) {
            None => r is Ok,
            Some(text) => r matches Err(ApiError::BadRequest(m)) && m@ == text,
        },
{
    if sim_seed > limits.sim_seed_max {
        return Err(
            ApiError::BadRequest(
                String::from_str("demo field 'sim_seed' exceeds the supported maximum"),
            ),
        );
    }
    check_within("cycles_skip", cycles_skip, limits.cycles_skip)?;
    check_within("cycles_count", cycles_count, limits.cycles_count)?;
    check_within("noise_protection_secs", noise_protection_secs, limits.noise_protection_secs)
}

/// Every Demo limit a request can run into.
#[derive(Debug, Clone, Copy, PartialEq, Eq, Structural)]
pub enum DemoLimit {
    /// All ordinary-request permits are taken.
    OrdinaryRequests,
    /// All global run permits are taken.
    GlobalRuns,
    /// The visitor already has as many active runs as allowed.
    VisitorRuns,
    /// All global event-stream permits are taken.
    GlobalStreams,
    /// The visitor already has as many event streams as allowed.
    VisitorStreams,
    /// The run could not be handed to the run registry.
    Unscheduled,
    /// The stored Demo history is at its global row cap.
    HistoryRows,
    /// The visitor's session has started as many runs as it may.
    SessionRuns,
}

/// How each exhausted limit is answered: a 429 when the visitor alone is over a limit, a 503
/// when the whole Demo is, each with the message and the `Retry-After` wait below.
pub open spec fn demo_limit_answer(limit: DemoLimit, policy: DemoPolicy) -> (bool, Seq<char>, u64) {
    match limit {
        DemoLimit::OrdinaryRequests => (
            false,
            "demo request capacity is temporarily exhausted"@,
            policy.ordinary_request_timeout_secs,
        ),
        DemoLimit::GlobalRuns => (
            false,
            "demo run capacity is temporarily exhausted"@,
            policy.run_timeout_secs,
        ),
        DemoLimit::VisitorRuns => (
            true,
            "a demo tune is already active for this visitor"@,
            policy.run_timeout_secs,
        ),
        DemoLimit::GlobalStreams => (
            false,
            "demo SSE capacity is temporarily exhausted"@,
            policy.sse_lifetime_secs,
        ),
        DemoLimit::VisitorStreams => (
            true,
            "demo SSE connection limit exceeded for this visitor"@,
            policy.sse_lifetime_secs,
        ),
        DemoLimit::Unscheduled => (
            false,
            "demo run could not be scheduled; retry shortly"@,
            policy.run_timeout_secs,
        ),
        DemoLimit::HistoryRows => (
            false,
            "demo history capacity is temporarily exhausted"@,
            policy.cleanup_interval_secs,
        ),
        DemoLimit::SessionRuns => (
            true,
            "maximum demo runs for this session has been reached"@,
            policy.accepted_start_window_secs,
        ),
    }
}

/// Whether `e` is the answer [`demo_limit_answer`] gives for `limit`.
pub open spec fn answers_limit(e: ApiError, limit: DemoLimit, policy: DemoPolicy) -> bool {
    let (per_visitor, message, wait) = demo_limit_answer(limit, policy);
    if per_visitor {
        e matches ApiError::TooManyRequests { message: m, retry_after_secs }
            && m@ == message && retry_after_secs == wait
    } else {
        e matches ApiError::GlobalCapacity { message: m, retry_after_secs }
            && m@ == message && retry_after_secs == wait
    }
}

/// The error answering an exhausted `limit`.
pub fn demo_limit_error(limit: DemoLimit, policy: DemoPolicy) -> (r: ApiError)
    ensures
        answers_limit(r, limit, policy),
{
    match limit {
        DemoLimit::OrdinaryRequests => ApiError::GlobalCapacity {
            message: String::from_str("demo request capacity is temporarily exhausted"),
            retry_after_secs: policy.ordinary_request_timeout_secs,
        },
        DemoLimit::GlobalRuns => ApiError::GlobalCapacity {
            message: String::from_str("demo run capacity is temporarily exhausted"),
            retry_after_secs: policy.run_timeout_secs,
        },
        DemoLimit::VisitorRuns => ApiError::TooManyRequests {
            message: String::from_str("a demo tune is already active for this visitor"),
            retry_after_secs: policy.run_timeout_secs,
        },
        DemoLimit::GlobalStreams => ApiError::GlobalCapacity {
            message: String::from_str("demo SSE capacity is temporarily exhausted"),
            retry_after_secs: policy.sse_lifetime_secs,
        },
        DemoLimit::VisitorStreams => ApiError::TooManyRequests {
            message: String::from_str("demo SSE connection limit exceeded for this visitor"),
            retry_after_secs: policy.sse_lifetime_secs,
        },
        DemoLimit::Unscheduled => ApiError::GlobalCapacity {
            message: String::from_str("demo run could not be scheduled; retry shortly"),
            retry_after_secs: policy.run_timeout_secs,
        },
        DemoLimit::HistoryRows => ApiError::GlobalCapacity {
            message: String::from_str("demo history capacity is temporarily exhausted"),
            retry_after_secs: policy.cleanup_interval_secs,
        },
        DemoLimit::SessionRuns => ApiError::TooManyRequests {
            message: String::from_str("maximum demo runs for this session has been reached"),
            retry_after_secs: policy.accepted_start_window_secs,
        },
    }
}

/// A new Demo run is refused while the stored Demo history already holds `current` rows, at or
/// over the policy's global cap.
pub fn ensure_global_run_capacity(current: i64, policy: DemoPolicy) -> (r: Result<(), ApiError>)
    ensures
        current < policy.max_tune_run_rows_global <==> r is Ok,
        r matches Err(e) ==> answers_limit(e, DemoLimit::HistoryRows, policy),
{
    if current >= policy.max_tune_run_rows_global as i64 {
        Err(demo_limit_error(DemoLimit::HistoryRows, policy))
    } else {
        Ok(())
    }
}

/// A visitor's session may start at most the policy's number of runs; `accepted_runs` is how
/// many it already has.
pub fn ensure_session_run_allowance(accepted_runs: i64, policy: DemoPolicy) -> (r: Result<
    (),
    ApiError,
>)
    ensures
        accepted_runs < policy.max_runs_per_session <==> r is Ok,
        r matches Err(e) ==> answers_limit(e, DemoLimit::SessionRuns, policy),
{
    if accepted_runs >= policy.max_runs_per_session as i64 {
        Err(demo_limit_error(DemoLimit::SessionRuns, policy))
    } else {
        Ok(())
    }
}

/// The phrase by which the run store reports that the global Demo history cap was hit while a
/// run was being prepared.
pub open spec fn row_limit_phrase() -> Seq<char> {
    "demo tune run row limit reached"@
}

/// How a failure to prepare a Demo run is answered, given the messages of its chain of causes:
/// as the history cap when any cause reports the row limit, else as an internal error carrying
/// the failure itself.
pub fn prepare_error(error: anyhow::Error, causes: &Vec<String>, policy: DemoPolicy) -> (r: ApiError)
    ensures
        (exists|i: int| 0 <= i < causes@.len() && contains_text(#[trigger] causes@[i]@, row_limit_phrase()))
            ==> answers_limit(r, DemoLimit::HistoryRows, policy),
        !(exists|i: int| 0 <= i < causes@.len() && contains_text(#[trigger] causes@[i]@, row_limit_phrase()))
            ==> r == ApiError::Internal(error),
{
    let mut i: usize = 0;
    while i < causes.len()
        invariant
            i <= causes@.len(),
            forall|j: int| 0 <= j < i ==> !contains_text(#[trigger] causes@[j]@, row_limit_phrase()),
        decreases causes@.len() - i,
    {
        proof {
            reveal_strlit("demo tune run row limit reached");
        }
        if str_contains(causes[i].as_str(), "demo tune run row limit reached") {
            return demo_limit_error(DemoLimit::HistoryRows, policy);
        }
        i = i + 1;
    }
    ApiError::Internal(error)
}

/// The messages of `error` and of each of its causes, outermost first, by `anyhow`'s
/// `Error::chain` and each cause's `Display`. Trusted: the result is [`error_chain`] of the
/// error.
#[verifier::external_body]
fn error_chain_messages(error: &anyhow::Error) -> (r: Vec<String>)
    ensures
        r@.map_values(|s: String| s@) == error_chain(*error),
{
    error.chain().map(|cause| cause.to_string()).collect()
}

/// Whether any message in the chain of `error` reports the history row limit.
pub open spec fn chain_reports_row_limit(error: anyhow::Error) -> bool {
    exists|i: int|
        0 <= i < error_chain(error).len() && contains_text(
            #[trigger] error_chain(error)[i],
            row_limit_phrase(),
        )
}

/// How a failure to prepare a Demo run is answered: as the history cap when any message in its
/// chain of causes reports the row limit, else as an internal error carrying the failure itself.
pub fn prepare_failure(error: anyhow::Error, policy: DemoPolicy) -> (r: ApiError)
    ensures
        chain_reports_row_limit(error) ==> answers_limit(r, DemoLimit::HistoryRows, policy),
        !chain_reports_row_limit(error) ==> r == ApiError::Internal(error),
{
    let causes = error_chain_messages(&error);
    proof {
        let chain = error_chain(error);
        assert forall|i: int| 0 <= i < causes@.len() implies #[trigger] causes@[i]@ == chain[i] by {
            assert(causes@.map_values(|s: String| s@)[i] == causes@[i]@);
        }
        if chain_reports_row_limit(error) {
            let i = choose|i: int|
                0 <= i < chain.len() && contains_text(#[trigger] chain[i], row_limit_phrase());
            assert(causes@[i]@ == chain[i]);
        }
        if exists|i: int|
            0 <= i < causes@.len() && contains_text(#[trigger] causes@[i]@, row_limit_phrase()) {
            let i = choose|i: int|
                0 <= i < causes@.len() && contains_text(#[trigger] causes@[i]@, row_limit_phrase());
            assert(causes@[i]@ == chain[i]);
        }
    }
    prepare_error(error, &causes, policy)
}

/// Whether a visitor's per-visitor permit pool is still in use and must be kept: someone
/// besides the pool table holds it, or fewer than its `limit` permits are free. An idle pool
/// is dropped, so visitors that never return leave nothing behind.
pub fn visitor_pool_in_use(other_holders: bool, available_permits: usize, limit: u32) -> (r: bool)
    ensures
        r == (other_holders || available_permits < limit),
{
    other_holders || available_permits < limit as usize
}

/// Law: every exhausted Demo limit is answered with a 429 or a 503 that tells the client how
/// long to wait, and that wait is one of the policy's own durations.
pub proof fn law_demo_limits_carry_retry_after(limit: DemoLimit, policy: DemoPolicy, e: ApiError)
    requires
        answers_limit(e, limit, policy),
    ensures
        crate::error::error_response(e).status == 429 || crate::error::error_response(e).status
            == 503,
        crate::error::error_response(e).retry_after_secs == Some(demo_limit_answer(limit, policy).2),
        (crate::error::error_response(e).status == 429) == demo_limit_answer(limit, policy).0,
{
}

} // verus!
