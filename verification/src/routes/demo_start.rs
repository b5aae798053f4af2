//! The admission of a Demo tune start, stage by stage: the global and per-visitor run
//! permits, the accepted-start reservation, the run's preparation and its scheduling. Each
//! stage's outside work is done by the caller, who hands in what it gave; [`DemoStart`]
//! decides whether to go on, and on a refusal which error answers it and whether the
//! accepted start reserved on the way must be withdrawn.

use vstd::prelude::*;

use crate::error::{quota_error, ApiError};
use crate::policy::DemoPolicy;
use crate::routes::demo_admission::{answers_limit, demo_limit_error, DemoLimit};
use crate::state::DemoQuotaExceeded;

verus! {

/// The stages of a Demo start, in order, and its two ends.
#[derive(Debug, Clone, Copy, PartialEq, Eq, Structural)]
pub enum StartStage {
    /// Take one of the global run permits.
    GlobalRunPermit,
    /// Take one of the visitor's run permits.
    VisitorRunPermit,
    /// Reserve an accepted start against the visitor's and the client address's quotas.
    AcceptedStart,
    /// Check the history caps and prepare the run.
    Preparation,
    /// Hand the prepared run to the run registry.
    Scheduling,
    /// The run was scheduled.
    Started,
    /// The start was refused.
    Refused,
}

/// The position of a stage in the order.
pub open spec fn stage_rank(stage: StartStage) -> int {
    match stage {
        StartStage::GlobalRunPermit => 0,
        StartStage::VisitorRunPermit => 1,
        StartStage::AcceptedStart => 2,
        StartStage::Preparation => 3,
        StartStage::Scheduling => 4,
        StartStage::Started => 5,
        StartStage::Refused => 6,
    }
}

/// A Demo start in progress.
#[derive(Debug, Clone, Copy, PartialEq, Eq, Structural)]
pub struct DemoStart {
    pub stage: StartStage,
    /// Whether an accepted start is reserved for this start.
    pub holds_accepted_start: bool,
}

/// A start holds an accepted start exactly from its reservation on, until it is refused.
pub open spec fn start_wf(s: DemoStart) -> bool {
    s.holds_accepted_start <==> (s.stage == StartStage::Preparation || s.stage
        == StartStage::Scheduling || s.stage == StartStage::Started)
}

/// What the outside work of a stage gave.
#[derive(Debug)]
pub enum StartEvent {
    /// The permit was taken, the reservation made, the run prepared or scheduled.
    Granted,
    /// No permit was free, or the run could not be scheduled.
    Denied,
    /// The accepted-start quota is exhausted.
    QuotaExceeded(DemoQuotaExceeded),
    /// The preparation failed with this error.
    Failed(ApiError),
}

/// Whether `event` can come out of `stage`'s work.
pub open spec fn event_fits(stage: StartStage, event: StartEvent) -> bool {
    match event {
        StartEvent::Granted => true,
        StartEvent::Denied => stage != StartStage::AcceptedStart && stage != StartStage::Preparation,
        StartEvent::QuotaExceeded(_) => stage == StartStage::AcceptedStart,
        StartEvent::Failed(_) => stage == StartStage::Preparation,
    }
}

/// What to do after a stage.
#[derive(Debug)]
pub enum StartDecision {
    /// Go on with the next stage.
    Proceed,
    /// Answer with `error`; when `release` is set, withdraw the reserved accepted start (and,
    /// after a failed scheduling, discard the prepared run).
    Refuse { error: ApiError, release: bool },
    /// The run is scheduled; its accepted start stays counted until it leaves its window.
    Started,
}

/// The stage after `stage` when its work was granted.
pub open spec fn next_stage(stage: StartStage) -> StartStage {
    match stage {
        StartStage::GlobalRunPermit => StartStage::VisitorRunPermit,
        StartStage::VisitorRunPermit => StartStage::AcceptedStart,
        StartStage::AcceptedStart => StartStage::Preparation,
        StartStage::Preparation => StartStage::Scheduling,
        _ => StartStage::Started,
    }
}

/// The limit a denied stage answers with.
pub open spec fn denied_limit(stage: StartStage) -> DemoLimit {
    match stage {
        StartStage::GlobalRunPermit => DemoLimit::GlobalRuns,
        StartStage::VisitorRunPermit => DemoLimit::VisitorRuns,
        _ => DemoLimit::Unscheduled,
    }
}

/// One step: a granted stage moves to the next one (a granted scheduling starts the run); a
/// denied permit or scheduling is refused with its limit; an exhausted quota with the quota
/// error; a failed preparation with its own error. A refusal withdraws the accepted start
/// exactly when one is held.
pub open spec fn advanced(
    s: DemoStart,
    event: StartEvent,
    policy: DemoPolicy,
    next: DemoStart,
    decision: StartDecision,
) -> bool {
    match event {
        StartEvent::Granted => {
            &&& next.stage == next_stage(s.stage)
            &&& next.holds_accepted_start == (s.holds_accepted_start || s.stage
                == StartStage::AcceptedStart)
            &&& if s.stage == StartStage::Scheduling {
                decision is Started
            } else {
                decision is Proceed
            }
        },
        _ => {
            &&& next == DemoStart { stage: StartStage::Refused, holds_accepted_start: false }
            &&& decision matches StartDecision::Refuse { error, release } && release
                == s.holds_accepted_start && match event {
                StartEvent::QuotaExceeded(q) => error matches ApiError::TooManyRequests {
                    message,
                    retry_after_secs,
                } && retry_after_secs == q.retry_after_secs && message@
                    == "demo accepted-start quota exceeded; wait before starting another tune"@,
                StartEvent::Failed(e) => error == e,
                _ => answers_limit(error, denied_limit(s.stage), policy),
            }
        },
    }
}

impl DemoStart {
    /// A start about to take its global run permit.
    pub fn new() -> (r: Self)
        ensures
            r.stage == StartStage::GlobalRunPermit,
            start_wf(r),
    {
        DemoStart { stage: StartStage::GlobalRunPermit, holds_accepted_start: false }
    }

    /// Takes in what the current stage's work gave.
    pub fn advance(&mut self, event: StartEvent, policy: DemoPolicy) -> (r: StartDecision)
        requires
            start_wf(*old(self)),
            old(self).stage != StartStage::Started && old(self).stage != StartStage::Refused,
            event_fits(old(self).stage, event),
        ensures
            start_wf(*final(self)),
            advanced(*old(self), event, policy, *final(self), r),
    {
        let release = self.holds_accepted_start;
        match event {
            StartEvent::Granted => {
                let (stage, started) = match self.stage {
                    StartStage::GlobalRunPermit => (StartStage::VisitorRunPermit, false),
                    StartStage::VisitorRunPermit => (StartStage::AcceptedStart, false),
                    StartStage::AcceptedStart => (StartStage::Preparation, false),
                    StartStage::Preparation => (StartStage::Scheduling, false),
                    _ => (StartStage::Started, true),
                };
                if self.stage == StartStage::AcceptedStart {
                    self.holds_accepted_start = true;
                }
                self.stage = stage;
                if started {
                    StartDecision::Started
                } else {
                    StartDecision::Proceed
                }
            },
            StartEvent::Denied => {
                let limit = match self.stage {
                    StartStage::GlobalRunPermit => DemoLimit::GlobalRuns,
                    StartStage::VisitorRunPermit => DemoLimit::VisitorRuns,
                    _ => DemoLimit::Unscheduled,
                };
                self.stage = StartStage::Refused;
                self.holds_accepted_start = false;
                StartDecision::Refuse { error: demo_limit_error(limit, policy), release }
            },
            StartEvent::QuotaExceeded(q) => {
                self.stage = StartStage::Refused;
                self.holds_accepted_start = false;
                StartDecision::Refuse { error: quota_error(q), release }
            },
            StartEvent::Failed(e) => {
                self.stage = StartStage::Refused;
                self.holds_accepted_start = false;
                StartDecision::Refuse { error: e, release }
            },
        }
    }
}

/// Law: a Demo start never leaks an accepted start. Every step keeps the invariant that one
/// is held exactly from the reservation on; a refusal withdraws it exactly when one was
/// held, so a start refused before its reservation withdraws nothing and one refused after
/// it always withdraws it; and a run is only ever started after its reservation.
pub proof fn law_refusal_releases_exactly_the_reservation(
    s: DemoStart,
    event: StartEvent,
    policy: DemoPolicy,
    next: DemoStart,
    decision: StartDecision,
)
    requires
        start_wf(s),
        s.stage != StartStage::Started && s.stage != StartStage::Refused,
        advanced(s, event, policy, next, decision),
    ensures
        start_wf(next),
        decision matches StartDecision::Refuse { release, .. } ==> (release <==> stage_rank(s.stage)
            >= 3),
        decision is Started ==> next.holds_accepted_start && s.stage == StartStage::Scheduling,
        stage_rank(next.stage) > stage_rank(s.stage),
{
}

} // verus!
