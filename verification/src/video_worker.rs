//! The worker of the durable video queue.
//!
//! The worker knows no provider: it claims a job, reads its kept input, has an
//! adapter execute it, and settles what came of it. An input that is missing or
//! cannot be read makes the job unknown and keeps the user's hold; it is never
//! tried again on another account.

use crate::core_types::{CoreJob, JobView, VideoAdapterOutcome, VideoOutcomeView};
use crate::json::{Json, JsonView};
use crate::text;
use vstd::prelude::*;

verus! {

/// What a run of the worker came to.
#[derive(Debug, PartialEq, Eq)]
pub enum VideoWorkerStep {
    /// Nothing was queued.
    Idle,
    /// The upstream took the job.
    Accepted { job_id: String, upstream_request_ref: String },
    /// The job is done with.
    Settled { job_id: String, state: &'static str },
    /// What became of the job is unknown.
    Unknown { job_id: String, reason: String },
}

/// The model of a [`VideoWorkerStep`].
pub enum StepView {
    Idle,
    Accepted { job_id: Seq<char>, upstream_request_ref: Seq<char> },
    Settled { job_id: Seq<char>, state: Seq<char> },
    Unknown { job_id: Seq<char>, reason: Seq<char> },
}

impl View for VideoWorkerStep {
    type V = StepView;

    open spec fn view(&self) -> StepView {
        match self {
            VideoWorkerStep::Idle => StepView::Idle,
            VideoWorkerStep::Accepted { job_id, upstream_request_ref } => StepView::Accepted {
                job_id: job_id@,
                upstream_request_ref: upstream_request_ref@,
            },
            VideoWorkerStep::Settled { job_id, state } => StepView::Settled {
                job_id: job_id@,
                state: state@,
            },
            VideoWorkerStep::Unknown { job_id, reason } => StepView::Unknown {
                job_id: job_id@,
                reason: reason@,
            },
        }
    }
}

/// The reference by which the upstream knows a job, where the outcome has one.
pub open spec fn request_ref(outcome: VideoOutcomeView) -> Option<Seq<char>> {
    match outcome {
        VideoOutcomeView::Accepted { upstream_request_ref } => Some(upstream_request_ref),
        VideoOutcomeView::Succeeded { upstream_request_ref, .. } => upstream_request_ref,
        VideoOutcomeView::Canceled { upstream_request_ref } => upstream_request_ref,
        VideoOutcomeView::TransportUnknown { upstream_request_ref, .. } => upstream_request_ref,
        VideoOutcomeView::Rejected { .. } => None,
    }
}

/// The reference by which the upstream knows a job, where the outcome has one.
pub fn outcome_request_ref(outcome: &VideoAdapterOutcome) -> (r: Option<String>)
    ensures
        text::opt_view(r) == request_ref(outcome@),
{
    match outcome {
        VideoAdapterOutcome::Accepted { upstream_request_ref } => Some(
            upstream_request_ref.clone(),
        ),
        VideoAdapterOutcome::Succeeded { upstream_request_ref, .. } => text::dup_opt(
            upstream_request_ref,
        ),
        VideoAdapterOutcome::Canceled { upstream_request_ref } => text::dup_opt(
            upstream_request_ref,
        ),
        VideoAdapterOutcome::TransportUnknown { upstream_request_ref, .. } => text::dup_opt(
            upstream_request_ref,
        ),
        VideoAdapterOutcome::Rejected { .. } => None,
    }
}

/// The job ended for certain: the kept input is not needed again.
pub open spec fn is_confirmed(outcome: VideoOutcomeView) -> bool {
    outcome is Succeeded || outcome is Canceled || outcome matches VideoOutcomeView::Rejected {
        accepted: false,
        ..
    }
}

/// The job ended for certain: the kept input is not needed again.
pub fn releases_payload(outcome: &VideoAdapterOutcome) -> (r: bool)
    ensures
        r == is_confirmed(outcome@),
{
    match outcome {
        VideoAdapterOutcome::Succeeded { .. } => true,
        VideoAdapterOutcome::Canceled { .. } => true,
        VideoAdapterOutcome::Rejected { accepted, .. } => !*accepted,
        _ => false,
    }
}

/// The state in which an outcome leaves a job.
pub open spec fn end_state(outcome: VideoOutcomeView) -> Seq<char> {
    match outcome {
        VideoOutcomeView::Succeeded { .. } => "succeeded"@,
        VideoOutcomeView::Canceled { .. } => "canceled"@,
        VideoOutcomeView::Rejected { accepted, .. } => if accepted {
            "unknown"@
        } else {
            "failed"@
        },
        _ => "unknown"@,
    }
}

/// The state in which an outcome leaves a job.
pub fn terminal_state(outcome: &VideoAdapterOutcome) -> (r: &'static str)
    ensures
        r@ == end_state(outcome@),
{
    match outcome {
        VideoAdapterOutcome::Succeeded { .. } => "succeeded",
        VideoAdapterOutcome::Canceled { .. } => "canceled",
        VideoAdapterOutcome::Rejected { accepted, .. } => if *accepted {
            "unknown"
        } else {
            "failed"
        },
        _ => "unknown",
    }
}

/// What an outcome is worth: where the job's heartbeat failed in the meantime,
/// only the upstream's reference is.
pub open spec fn trusted_outcome(
    outcome: VideoOutcomeView,
    heartbeat_failed: bool,
) -> VideoOutcomeView {
    if heartbeat_failed {
        VideoOutcomeView::TransportUnknown {
            reason: "video_heartbeat_failed"@,
            upstream_request_ref: request_ref(outcome),
        }
    } else {
        outcome
    }
}

/// What an outcome is worth.
pub fn trust_outcome(outcome: VideoAdapterOutcome, heartbeat_failed: bool) -> (r:
    VideoAdapterOutcome)
    ensures
        r@ == trusted_outcome(outcome@, heartbeat_failed),
{
    if heartbeat_failed {
        VideoAdapterOutcome::TransportUnknown {
            reason: "video_heartbeat_failed".to_owned(),
            upstream_request_ref: outcome_request_ref(&outcome),
        }
    } else {
        outcome
    }
}

/// What a run waits for.
#[derive(Debug)]
pub enum QueueStage {
    Starting,
    Claiming,
    Owning,
    Reading,
    Submitting,
    /// The reference by which the upstream knows the job.
    Accepting(String),
    Settling(VideoAdapterOutcome),
    Over,
}

/// The model of a [`QueueStage`].
pub enum QueueStageView {
    Starting,
    Claiming,
    Owning,
    Reading,
    Submitting,
    Accepting(Seq<char>),
    Settling(VideoOutcomeView),
    Over,
}

impl View for QueueStage {
    type V = QueueStageView;

    open spec fn view(&self) -> QueueStageView {
        match self {
            QueueStage::Starting => QueueStageView::Starting,
            QueueStage::Claiming => QueueStageView::Claiming,
            QueueStage::Owning => QueueStageView::Owning,
            QueueStage::Reading => QueueStageView::Reading,
            QueueStage::Submitting => QueueStageView::Submitting,
            QueueStage::Accepting(reference) => QueueStageView::Accepting(reference@),
            QueueStage::Settling(outcome) => QueueStageView::Settling(outcome@),
            QueueStage::Over => QueueStageView::Over,
        }
    }
}

/// A run of the worker: the job it claimed, if any, under which lease.
#[derive(Debug)]
pub struct QueueRun {
    pub stage: QueueStage,
    pub job_id: String,
    pub user_id: String,
    pub request_id: String,
    pub model: String,
    pub input_hash: Vec<u8>,
    pub lease_id: String,
}

/// The model of a [`QueueRun`].
pub struct RunView {
    pub stage: QueueStageView,
    pub job_id: Seq<char>,
    pub user_id: Seq<char>,
    pub request_id: Seq<char>,
    pub model: Seq<char>,
    pub input_hash: Seq<u8>,
    pub lease_id: Seq<char>,
}

impl View for QueueRun {
    type V = RunView;

    open spec fn view(&self) -> RunView {
        RunView {
            stage: self.stage@,
            job_id: self.job_id@,
            user_id: self.user_id@,
            request_id: self.request_id@,
            model: self.model@,
            input_hash: self.input_hash@,
            lease_id: self.lease_id@,
        }
    }
}

/// What came of the last action.
#[derive(Debug)]
pub enum QueueEvent {
    /// Core and an adapter are there, or what is missing.
    Ready(Result<(), String>),
    /// A job and its lease, none, or an error.
    Claimed(Result<Option<(CoreJob, String)>, String>),
    /// Whether the owner of the job is known.
    Owner(Result<bool, String>),
    /// The kept input.
    Payload(Result<Option<Json>, String>),
    /// What became of the job, and whether its heartbeat failed.
    Submitted(VideoAdapterOutcome, bool),
    /// The acceptance was recorded, or the job settled.
    Done(Result<(), String>),
}

/// The model of a [`QueueEvent`].
pub enum QueueEventView {
    Ready(Option<Seq<char>>),
    Claimed(Result<Option<(JobView, Seq<char>)>, Seq<char>>),
    Owner(Result<bool, Seq<char>>),
    Payload(Result<Option<JsonView>, Seq<char>>),
    Submitted(VideoOutcomeView, bool),
    Done(Option<Seq<char>>),
}

/// The error of an outcome without a value.
pub open spec fn failure_of(r: Result<(), String>) -> Option<Seq<char>> {
    match r {
        Ok(_) => None,
        Err(error) => Some(error@),
    }
}

impl View for QueueEvent {
    type V = QueueEventView;

    open spec fn view(&self) -> QueueEventView {
        match self {
            QueueEvent::Ready(ready) => QueueEventView::Ready(failure_of(*ready)),
            QueueEvent::Claimed(claim) => QueueEventView::Claimed(
                match claim {
                    Ok(Some((job, lease))) => Ok(Some((job@, lease@))),
                    Ok(None) => Ok(None),
                    Err(error) => Err(error@),
                },
            ),
            QueueEvent::Owner(owner) => QueueEventView::Owner(
                match owner {
                    Ok(known) => Ok(*known),
                    Err(error) => Err(error@),
                },
            ),
            QueueEvent::Payload(payload) => QueueEventView::Payload(
                crate::video_payload::opened_view(*payload),
            ),
            QueueEvent::Submitted(outcome, heartbeat_failed) => QueueEventView::Submitted(
                outcome@,
                *heartbeat_failed,
            ),
            QueueEvent::Done(done) => QueueEventView::Done(failure_of(*done)),
        }
    }
}

/// What is to be done next.
#[derive(Debug)]
pub enum QueueAction {
    /// Claim the next job for this worker.
    Claim(String),
    /// Find the owner of the job.
    FindOwner(String),
    /// Read the kept input of the job: its name, its owner and its digest.
    ReadPayload(String, String, Vec<u8>),
    /// Have the adapter execute the job while its heartbeat goes on: its name,
    /// its request, its model and its input.
    Submit(String, String, String, Json),
    /// Record that the upstream took the job.
    RecordAcceptance(String, String),
    /// Settle the job's lease with this outcome.
    Settle(String, String, VideoAdapterOutcome),
    /// The run is over; remove the kept input of the job where it is named.
    Finish(VideoWorkerStep, Option<String>),
    /// The run failed.
    Fail(String),
}

/// The model of a [`QueueAction`].
pub enum QueueActionView {
    Claim(Seq<char>),
    FindOwner(Seq<char>),
    ReadPayload(Seq<char>, Seq<char>, Seq<u8>),
    Submit(Seq<char>, Seq<char>, Seq<char>, JsonView),
    RecordAcceptance(Seq<char>, Seq<char>),
    Settle(Seq<char>, Seq<char>, VideoOutcomeView),
    Finish(StepView, Option<Seq<char>>),
    Fail(Seq<char>),
}

impl View for QueueAction {
    type V = QueueActionView;

    open spec fn view(&self) -> QueueActionView {
        match self {
            QueueAction::Claim(worker) => QueueActionView::Claim(worker@),
            QueueAction::FindOwner(job) => QueueActionView::FindOwner(job@),
            QueueAction::ReadPayload(job, user, hash) => QueueActionView::ReadPayload(
                job@,
                user@,
                hash@,
            ),
            QueueAction::Submit(job, request, model, body) => QueueActionView::Submit(
                job@,
                request@,
                model@,
                body@,
            ),
            QueueAction::RecordAcceptance(job, reference) => QueueActionView::RecordAcceptance(
                job@,
                reference@,
            ),
            QueueAction::Settle(job, lease, outcome) => QueueActionView::Settle(
                job@,
                lease@,
                outcome@,
            ),
            QueueAction::Finish(step, released) => QueueActionView::Finish(
                step@,
                text::opt_view(*released),
            ),
            QueueAction::Fail(error) => QueueActionView::Fail(error@),
        }
    }
}

/// The run waits for the outcome of an action.
pub open spec fn waits(r: RunView, stage: QueueStageView, action: QueueActionView) -> (
    RunView,
    QueueActionView,
) {
    (RunView { stage, ..r }, action)
}

/// The run failed.
pub open spec fn fails(r: RunView, error: Seq<char>) -> (RunView, QueueActionView) {
    waits(r, QueueStageView::Over, QueueActionView::Fail(error))
}

/// The job is settled.
pub open spec fn settles(r: RunView, outcome: VideoOutcomeView) -> (RunView, QueueActionView) {
    waits(
        r,
        QueueStageView::Settling(outcome),
        QueueActionView::Settle(r.job_id, r.lease_id, outcome),
    )
}

/// What became of the job is unknown for a reason of the worker's own.
pub open spec fn unknown_because(reason: Seq<char>) -> VideoOutcomeView {
    VideoOutcomeView::TransportUnknown { reason, upstream_request_ref: None }
}

/// What a settled job came to.
pub open spec fn settled_step(job_id: Seq<char>, outcome: VideoOutcomeView) -> StepView {
    match outcome {
        VideoOutcomeView::TransportUnknown { reason, .. } => StepView::Unknown { job_id, reason },
        _ => StepView::Settled { job_id, state: end_state(outcome) },
    }
}

/// The event can follow the action that the run waits for.
pub open spec fn expected(stage: QueueStageView, event: QueueEventView) -> bool {
    match stage {
        QueueStageView::Starting => event is Ready,
        QueueStageView::Claiming => event is Claimed,
        QueueStageView::Owning => event is Owner,
        QueueStageView::Reading => event is Payload,
        QueueStageView::Submitting => event is Submitted,
        QueueStageView::Accepting(_) => event is Done,
        QueueStageView::Settling(_) => event is Done,
        QueueStageView::Over => false,
    }
}

/// The next step of a run of the worker of that name.
pub open spec fn queue_step(worker: Seq<char>, r: RunView, event: QueueEventView) -> (
    RunView,
    QueueActionView,
) {
    match event {
        QueueEventView::Ready(failure) => match failure {
            Some(error) => fails(r, error),
            None => waits(r, QueueStageView::Claiming, QueueActionView::Claim(worker)),
        },
        QueueEventView::Claimed(claim) => match claim {
            Err(error) => fails(r, error),
            Ok(None) => waits(
                r,
                QueueStageView::Over,
                QueueActionView::Finish(StepView::Idle, None),
            ),
            Ok(Some((job, lease))) => (
                RunView {
                    stage: QueueStageView::Owning,
                    job_id: job.id,
                    user_id: job.user_id,
                    request_id: job.request_id,
                    model: job.model,
                    input_hash: job.input_hash,
                    lease_id: lease,
                },
                QueueActionView::FindOwner(job.id),
            ),
        },
        QueueEventView::Owner(owner) => match owner {
            Err(error) => fails(r, error),
            Ok(known) => if known {
                waits(
                    r,
                    QueueStageView::Reading,
                    QueueActionView::ReadPayload(r.job_id, r.user_id, r.input_hash),
                )
            } else {
                fails(r, "video worker could not resolve job owner"@)
            },
        },
        QueueEventView::Payload(payload) => match payload {
            Err(_) => settles(r, unknown_because("video_payload_read_failed"@)),
            Ok(None) => settles(r, unknown_because("video_payload_missing"@)),
            Ok(Some(body)) => waits(
                r,
                QueueStageView::Submitting,
                QueueActionView::Submit(r.job_id, r.request_id, r.model, body),
            ),
        },
        QueueEventView::Submitted(outcome, heartbeat_failed) => {
            let outcome = trusted_outcome(outcome, heartbeat_failed);
            match outcome {
                VideoOutcomeView::Accepted { upstream_request_ref } => waits(
                    r,
                    QueueStageView::Accepting(upstream_request_ref),
                    QueueActionView::RecordAcceptance(r.job_id, upstream_request_ref),
                ),
                _ => settles(r, outcome),
            }
        },
        QueueEventView::Done(failure) => match failure {
            Some(error) => fails(r, error),
            None => match r.stage {
                QueueStageView::Accepting(reference) => waits(
                    r,
                    QueueStageView::Over,
                    QueueActionView::Finish(
                        StepView::Accepted { job_id: r.job_id, upstream_request_ref: reference },
                        None,
                    ),
                ),
                _ => {
                    let outcome = r.stage->Settling_0;
                    waits(
                        r,
                        QueueStageView::Over,
                        QueueActionView::Finish(
                            settled_step(r.job_id, outcome),
                            if is_confirmed(outcome) {
                                Some(r.job_id)
                            } else {
                                None
                            },
                        ),
                    )
                },
            },
        },
    }
}

fn wait(run: QueueRun, stage: QueueStage, action: QueueAction) -> (r: (QueueRun, QueueAction))
    ensures
        (r.0@, r.1@) == waits(run@, stage@, action@),
{
    let mut run = run;
    run.stage = stage;
    (run, action)
}

fn fail(run: QueueRun, error: String) -> (r: (QueueRun, QueueAction))
    ensures
        (r.0@, r.1@) == fails(run@, error@),
{
    wait(run, QueueStage::Over, QueueAction::Fail(error))
}

fn settle(run: QueueRun, outcome: VideoAdapterOutcome) -> (r: (QueueRun, QueueAction))
    ensures
        (r.0@, r.1@) == settles(run@, outcome@),
{
    let action = QueueAction::Settle(run.job_id.clone(), run.lease_id.clone(), outcome.dup());
    wait(run, QueueStage::Settling(outcome), action)
}

fn settle_unknown(run: QueueRun, reason: &str) -> (r: (QueueRun, QueueAction))
    ensures
        (r.0@, r.1@) == settles(run@, unknown_because(reason@)),
{
    settle(
        run,
        VideoAdapterOutcome::TransportUnknown {
            reason: reason.to_owned(),
            upstream_request_ref: None,
        },
    )
}

fn finish(run: QueueRun) -> (r: (QueueRun, QueueAction))
    requires
        run@.stage is Accepting || run@.stage is Settling,
    ensures
        (r.0@, r.1@) == queue_step(Seq::empty(), run@, QueueEventView::Done(None)),
{
    let mut run = run;
    let mut stage = QueueStage::Over;
    std::mem::swap(&mut stage, &mut run.stage);
    let job_id = run.job_id.clone();
    match stage {
        QueueStage::Accepting(reference) => (
            run,
            QueueAction::Finish(
                VideoWorkerStep::Accepted { job_id, upstream_request_ref: reference },
                None,
            ),
        ),
        QueueStage::Settling(outcome) => {
            let released = if releases_payload(&outcome) {
                Some(job_id.clone())
            } else {
                None
            };
            let state = terminal_state(&outcome);
            let step = match outcome {
                VideoAdapterOutcome::TransportUnknown { reason, .. } => VideoWorkerStep::Unknown {
                    job_id,
                    reason,
                },
                _ => VideoWorkerStep::Settled { job_id, state },
            };
            (run, QueueAction::Finish(step, released))
        },
        _ => {
            assert(false);
            (run, QueueAction::Finish(VideoWorkerStep::Idle, None))
        },
    }
}

/// A worker of the queue.
#[derive(Debug)]
pub struct VideoQueueWorker {
    pub worker_id: String,
}

/// A run before its first step.
pub open spec fn idle_run() -> RunView {
    RunView {
        stage: QueueStageView::Starting,
        job_id: Seq::empty(),
        user_id: Seq::empty(),
        request_id: Seq::empty(),
        model: Seq::empty(),
        input_hash: Seq::empty(),
        lease_id: Seq::empty(),
    }
}

impl VideoQueueWorker {
    /// The worker of that name.
    pub fn new(worker_id: &str) -> (r: VideoQueueWorker)
        ensures
            r.worker_id@ == worker_id@,
    {
        VideoQueueWorker { worker_id: worker_id.to_owned() }
    }

    /// A run before its first step: it executes at most one job.
    pub fn start(&self) -> (r: QueueRun)
        ensures
            r@ == idle_run(),
    {
        let r = QueueRun {
            stage: QueueStage::Starting,
            job_id: String::new(),
            user_id: String::new(),
            request_id: String::new(),
            model: String::new(),
            input_hash: Vec::new(),
            lease_id: String::new(),
        };
        assert(r@.job_id =~= Seq::empty());
        assert(r@.input_hash =~= Seq::empty());
        r
    }

    /// The next step of a run.
    pub fn run_once(&self, run: QueueRun, event: QueueEvent) -> (r: (QueueRun, QueueAction))
        requires
            expected(run@.stage, event@),
        ensures
            (r.0@, r.1@) == queue_step(self.worker_id@, run@, event@),
    {
        match event {
            QueueEvent::Ready(ready) => match ready {
                Err(error) => fail(run, error),
                Ok(_) => wait(
                    run,
                    QueueStage::Claiming,
                    QueueAction::Claim(self.worker_id.clone()),
                ),
            },
            QueueEvent::Claimed(claim) => match claim {
                Err(error) => fail(run, error),
                Ok(None) => wait(
                    run,
                    QueueStage::Over,
                    QueueAction::Finish(VideoWorkerStep::Idle, None),
                ),
                Ok(Some((job, lease))) => {
                    let action = QueueAction::FindOwner(job.id.clone());
                    (
                        QueueRun {
                            stage: QueueStage::Owning,
                            job_id: job.id,
                            user_id: job.user_id,
                            request_id: job.request_id,
                            model: job.model,
                            input_hash: job.input_hash,
                            lease_id: lease,
                        },
                        action,
                    )
                },
            },
            QueueEvent::Owner(owner) => match owner {
                Err(error) => fail(run, error),
                Ok(known) => if known {
                    let action = QueueAction::ReadPayload(
                        run.job_id.clone(),
                        run.user_id.clone(),
                        run.input_hash.clone(),
                    );
                    wait(run, QueueStage::Reading, action)
                } else {
                    fail(run, "video worker could not resolve job owner".to_owned())
                },
            },
            QueueEvent::Payload(payload) => match payload {
                Err(_) => settle_unknown(run, "video_payload_read_failed"),
                Ok(None) => settle_unknown(run, "video_payload_missing"),
                Ok(Some(body)) => {
                    let action = QueueAction::Submit(
                        run.job_id.clone(),
                        run.request_id.clone(),
                        run.model.clone(),
                        body,
                    );
                    wait(run, QueueStage::Submitting, action)
                },
            },
            QueueEvent::Submitted(outcome, heartbeat_failed) => {
                let outcome = trust_outcome(outcome, heartbeat_failed);
                match outcome {
                    VideoAdapterOutcome::Accepted { upstream_request_ref } => {
                        let action = QueueAction::RecordAcceptance(
                            run.job_id.clone(),
                            upstream_request_ref.clone(),
                        );
                        wait(run, QueueStage::Accepting(upstream_request_ref), action)
                    },
                    other => settle(run, other),
                }
            },
            QueueEvent::Done(done) => match done {
                Err(error) => fail(run, error),
                Ok(_) => finish(run),
            },
        }
    }
}

/// A kept input is released exactly where the job ended for certain, and only
/// after the job was settled.
pub proof fn law_an_input_is_released_after_a_certain_end_alone(
    worker: Seq<char>,
    r: RunView,
    event: QueueEventView,
)
    requires
        expected(r.stage, event),
    ensures
        (queue_step(worker, r, event).1 matches QueueActionView::Finish(_, Some(_))) == (event
            == QueueEventView::Done(None) && (r.stage matches QueueStageView::Settling(outcome)
            && is_confirmed(outcome))),
{
}

/// Where the heartbeat of a job failed, its outcome is unknown whatever the
/// adapter said; no input is released, and no success is reported.
pub proof fn law_a_failed_heartbeat_is_never_a_success(outcome: VideoOutcomeView, job_id: Seq<char>)
    ensures
        ({
            let trusted = trusted_outcome(outcome, true);
            &&& trusted is TransportUnknown
            &&& !is_confirmed(trusted)
            &&& settled_step(job_id, trusted) is Unknown
            &&& request_ref(trusted) == request_ref(outcome)
        }),
{
}

/// A job without its input is never handed to an adapter: it is unknown, and
/// its input, if any, stays.
pub proof fn law_a_job_without_its_input_is_unknown(
    worker: Seq<char>,
    r: RunView,
    payload: Result<Option<JsonView>, Seq<char>>,
)
    requires
        payload is Err || payload == Ok::<Option<JsonView>, Seq<char>>(None),
    ensures
        queue_step(worker, r, QueueEventView::Payload(payload)).1 matches QueueActionView::Settle(
            _,
            _,
            outcome,
        ) && outcome is TransportUnknown && !is_confirmed(outcome),
{
}

} // verus!
