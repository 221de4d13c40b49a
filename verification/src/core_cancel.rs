//! The cancellation of a video job that Core rules.
//!
//! A client's request only records what it wants; the hold on its quota is
//! released only after the adapter has confirmed the cancellation.

use crate::access;
use crate::core_routes;
use crate::core_types::{
    self, CancelView, CoreError, CoreErrorView, CoreLeaseError, CoreMode, JobState, LeaseErrorView,
    Principal, PrincipalView, VideoAdapterOutcome, VideoCancelOutcome, VideoOutcomeView,
};
use crate::core_video::{self, BundleView, Form, FormView, VideoBundle};
use crate::reply::{self, Reply, ReplyView};
use crate::text;
use crate::video::{self, StateView, VideoState};
use vstd::prelude::*;

verus! {

/// What a cancellation waits for.
#[derive(Debug)]
pub enum CancelStage {
    Scoping,
    Requesting,
    Leasing,
    /// The lease, and the reference by which the upstream knows the job.
    Canceling(String, Option<String>),
    /// Whether the adapter confirmed the cancellation.
    Settling(bool),
    Loading(Form),
    Over,
}

/// The model of a [`CancelStage`].
pub enum CancelStageView {
    Scoping,
    Requesting,
    Leasing,
    Canceling(Seq<char>, Option<Seq<char>>),
    Settling(bool),
    Loading(FormView),
    Over,
}

impl View for CancelStage {
    type V = CancelStageView;

    open spec fn view(&self) -> CancelStageView {
        match self {
            CancelStage::Scoping => CancelStageView::Scoping,
            CancelStage::Requesting => CancelStageView::Requesting,
            CancelStage::Leasing => CancelStageView::Leasing,
            CancelStage::Canceling(lease, reference) => CancelStageView::Canceling(
                lease@,
                text::opt_view(*reference),
            ),
            CancelStage::Settling(confirmed) => CancelStageView::Settling(*confirmed),
            CancelStage::Loading(form) => CancelStageView::Loading(form@),
            CancelStage::Over => CancelStageView::Over,
        }
    }
}

/// What came of the attempt to cancel a job at its adapter.
#[derive(Debug)]
pub enum CancelTry {
    /// There is no executor.
    NoExecutor,
    /// The executor does not know the lease.
    NoGrant,
    /// The task that asked the adapter broke down.
    TaskBroke,
    Outcome(VideoCancelOutcome),
}

/// The model of a [`CancelTry`].
pub enum TryView {
    NoExecutor,
    NoGrant,
    TaskBroke,
    Outcome(CancelView),
}

impl View for CancelTry {
    type V = TryView;

    open spec fn view(&self) -> TryView {
        match self {
            CancelTry::NoExecutor => TryView::NoExecutor,
            CancelTry::NoGrant => TryView::NoGrant,
            CancelTry::TaskBroke => TryView::TaskBroke,
            CancelTry::Outcome(outcome) => TryView::Outcome(outcome@),
        }
    }
}

/// What came of the last action.
#[derive(Debug)]
pub enum CancelEvent {
    /// Whether the caller has the scope.
    Scoped(bool),
    /// The state of the job after the request was recorded.
    Requested(Result<JobState, CoreLeaseError>),
    /// The lease of the job and its upstream reference, or none.
    Leased(Result<Option<(String, Option<String>)>, CoreLeaseError>),
    Tried(CancelTry),
    Settled(Result<(), CoreLeaseError>),
    Loaded(Result<Option<VideoBundle>, CoreError>),
}

/// The model of a [`CancelEvent`].
pub enum CancelEventView {
    Scoped(bool),
    Requested(Result<JobState, LeaseErrorView>),
    Leased(Result<Option<(Seq<char>, Option<Seq<char>>)>, LeaseErrorView>),
    Tried(TryView),
    Settled(Option<LeaseErrorView>),
    Loaded(Result<Option<BundleView>, CoreErrorView>),
}

impl View for CancelEvent {
    type V = CancelEventView;

    open spec fn view(&self) -> CancelEventView {
        match self {
            CancelEvent::Scoped(granted) => CancelEventView::Scoped(*granted),
            CancelEvent::Requested(requested) => CancelEventView::Requested(
                match requested {
                    Ok(state) => Ok(*state),
                    Err(error) => Err(error@),
                },
            ),
            CancelEvent::Leased(leased) => CancelEventView::Leased(
                match leased {
                    Ok(Some((lease, reference))) => Ok(Some((lease@, text::opt_view(*reference)))),
                    Ok(None) => Ok(None),
                    Err(error) => Err(error@),
                },
            ),
            CancelEvent::Tried(outcome) => CancelEventView::Tried(outcome@),
            CancelEvent::Settled(settled) => CancelEventView::Settled(
                core_video::lease_failure(*settled),
            ),
            CancelEvent::Loaded(found) => CancelEventView::Loaded(core_video::found_view(*found)),
        }
    }
}

/// What is to be done next.
#[derive(Debug)]
pub enum CancelAction {
    CheckScope(&'static str),
    /// Record the request to cancel the job.
    Request(String),
    /// Find the lease of the job.
    FindLease(String),
    /// Have the adapter cancel what runs under this lease.
    Cancel(String),
    /// Settle the job's lease with this outcome.
    Settle(String, String, VideoAdapterOutcome),
    /// Look the job up for the answer.
    Load(String),
    /// Answer the client.
    Answer(Reply),
}

/// The model of a [`CancelAction`].
pub enum CancelActionView {
    CheckScope(Seq<char>),
    Request(Seq<char>),
    FindLease(Seq<char>),
    Cancel(Seq<char>),
    Settle(Seq<char>, Seq<char>, VideoOutcomeView),
    Load(Seq<char>),
    Answer(ReplyView),
}

impl View for CancelAction {
    type V = CancelActionView;

    open spec fn view(&self) -> CancelActionView {
        match self {
            CancelAction::CheckScope(scope) => CancelActionView::CheckScope(scope@),
            CancelAction::Request(job) => CancelActionView::Request(job@),
            CancelAction::FindLease(job) => CancelActionView::FindLease(job@),
            CancelAction::Cancel(lease) => CancelActionView::Cancel(lease@),
            CancelAction::Settle(job, lease, outcome) => CancelActionView::Settle(
                job@,
                lease@,
                outcome@,
            ),
            CancelAction::Load(job) => CancelActionView::Load(job@),
            CancelAction::Answer(reply) => CancelActionView::Answer(reply@),
        }
    }
}

/// The cancellation of a job.
#[derive(Debug)]
pub struct Cancellation {
    pub stage: CancelStage,
    pub task_id: String,
}

/// The model of a [`Cancellation`].
pub struct CancellationView {
    pub stage: CancelStageView,
    pub task_id: Seq<char>,
}

impl View for Cancellation {
    type V = CancellationView;

    open spec fn view(&self) -> CancellationView {
        CancellationView { stage: self.stage@, task_id: self.task_id@ }
    }
}

/// A step: the cancellation and the permits after it, and what is to be done
/// next.
pub struct CancelStepView {
    pub cancellation: CancellationView,
    pub state: StateView,
    pub action: CancelActionView,
}

/// The cancellation waits for the outcome of an action.
pub open spec fn waits(
    c: CancellationView,
    s: StateView,
    stage: CancelStageView,
    action: CancelActionView,
) -> CancelStepView {
    CancelStepView { cancellation: CancellationView { stage, ..c }, state: s, action }
}

/// The cancellation is answered.
pub open spec fn answers(c: CancellationView, s: StateView, reply: ReplyView) -> CancelStepView {
    waits(c, s, CancelStageView::Over, CancelActionView::Answer(reply))
}

/// The job is looked up for the answer.
pub open spec fn loads(c: CancellationView, s: StateView, status: u16) -> CancelStepView {
    waits(
        c,
        s,
        CancelStageView::Loading(
            FormView { request_id: None, status, wrapped: false, replay: false },
        ),
        CancelActionView::Load(c.task_id),
    )
}

/// The first step of a cancellation.
pub open spec fn cancel_opened(
    core: Option<CoreMode>,
    principal: Option<PrincipalView>,
    task_id: Seq<char>,
) -> (CancellationView, CancelActionView) {
    let c = CancellationView { stage: CancelStageView::Over, task_id };
    if !access::enforcing(core) {
        (c, CancelActionView::Answer(core_routes::not_enabled_reply()))
    } else if principal is None {
        (c, CancelActionView::Answer(core_routes::unauthorized_reply()))
    } else {
        (
            CancellationView { stage: CancelStageView::Scoping, task_id },
            CancelActionView::CheckScope("videos:cancel"@),
        )
    }
}

/// What the lease is settled with after the attempt to cancel: only a confirmed
/// cancellation is one.
pub open spec fn cancel_outcome(outcome: TryView, reference: Option<Seq<char>>) -> VideoOutcomeView {
    match outcome {
        TryView::NoExecutor => VideoOutcomeView::TransportUnknown {
            reason: "cancel_adapter_unavailable"@,
            upstream_request_ref: reference,
        },
        TryView::NoGrant => VideoOutcomeView::TransportUnknown {
            reason: "cancel_lease_binding_missing"@,
            upstream_request_ref: reference,
        },
        TryView::TaskBroke => VideoOutcomeView::TransportUnknown {
            reason: "cancel_adapter_task_join_failed"@,
            upstream_request_ref: reference,
        },
        TryView::Outcome(CancelView::Confirmed { upstream_request_ref }) =>
            VideoOutcomeView::Canceled { upstream_request_ref },
        TryView::Outcome(CancelView::Unsupported) => VideoOutcomeView::TransportUnknown {
            reason: "cancel_unsupported"@,
            upstream_request_ref: reference,
        },
        TryView::Outcome(CancelView::Unknown { reason, upstream_request_ref }) =>
            VideoOutcomeView::TransportUnknown { reason, upstream_request_ref },
    }
}

/// A job in that state is left as it is.
pub open spec fn past_canceling(state: JobState) -> bool {
    state == JobState::Canceled || state == JobState::Succeeded || state == JobState::Failed
        || state == JobState::Unknown
}

/// The event can follow the action that the cancellation waits for.
pub open spec fn expected(stage: CancelStageView, event: CancelEventView) -> bool {
    match stage {
        CancelStageView::Scoping => event is Scoped,
        CancelStageView::Requesting => event is Requested,
        CancelStageView::Leasing => event is Leased,
        CancelStageView::Canceling(_, _) => event is Tried,
        CancelStageView::Settling(_) => event is Settled,
        CancelStageView::Loading(_) => event is Loaded,
        CancelStageView::Over => false,
    }
}

/// The next step of a cancellation.
pub open spec fn cancel_step(c: CancellationView, s: StateView, event: CancelEventView) -> CancelStepView {
    match event {
        CancelEventView::Scoped(granted) => if granted {
            waits(c, s, CancelStageView::Requesting, CancelActionView::Request(c.task_id))
        } else {
            answers(c, s, core_routes::scope_reply("videos:cancel"@))
        },
        CancelEventView::Requested(requested) => match requested {
            Err(LeaseErrorView::Core(CoreErrorView::RequestNotFound(_))) => answers(
                c,
                s,
                core_video::no_task(),
            ),
            Err(error) => answers(c, s, core_routes::lease_error_reply(error)),
            Ok(state) => if past_canceling(state) {
                loads(c, s, 200)
            } else {
                waits(c, s, CancelStageView::Leasing, CancelActionView::FindLease(c.task_id))
            },
        },
        CancelEventView::Leased(leased) => match leased {
            Err(error) => answers(c, s, core_routes::lease_error_reply(error)),
            Ok(None) => loads(c, s, 202),
            Ok(Some((lease, reference))) => waits(
                c,
                s,
                CancelStageView::Canceling(lease, reference),
                CancelActionView::Cancel(lease),
            ),
        },
        CancelEventView::Tried(outcome) => {
            let lease = c.stage->Canceling_0;
            let outcome = cancel_outcome(outcome, c.stage->Canceling_1);
            waits(
                c,
                s,
                CancelStageView::Settling(outcome is Canceled),
                CancelActionView::Settle(c.task_id, lease, outcome),
            )
        },
        CancelEventView::Settled(failure) => match failure {
            Some(error) => answers(c, s, core_routes::lease_error_reply(error)),
            None => loads(
                c,
                if c.stage->Settling_0 {
                    video::release_spec(s, c.task_id)
                } else {
                    s
                },
                202,
            ),
        },
        CancelEventView::Loaded(found) => answers(
            c,
            s,
            core_video::job_reply(found, c.stage->Loading_0),
        ),
    }
}

/// The first step of a cancellation.
pub fn open_cancellation(
    core: Option<CoreMode>,
    principal: &Option<Principal>,
    task_id: &str,
) -> (r: (Cancellation, CancelAction))
    ensures
        (r.0@, r.1@) == cancel_opened(core, core_types::opt_principal(*principal), task_id@),
{
    let task_id = task_id.to_owned();
    if !access::core_enforcing(core) {
        return (
            Cancellation { stage: CancelStage::Over, task_id },
            CancelAction::Answer(core_routes::scheduler_endpoint_not_enabled_response()),
        );
    }
    if principal.is_none() {
        return (
            Cancellation { stage: CancelStage::Over, task_id },
            CancelAction::Answer(
                reply::openai_error(401, "unauthorized", "Core Principal required"),
            ),
        );
    }
    (
        Cancellation { stage: CancelStage::Scoping, task_id },
        CancelAction::CheckScope("videos:cancel"),
    )
}

fn wait(c: Cancellation, stage: CancelStage, action: CancelAction) -> (r: (
    Cancellation,
    CancelAction,
))
    ensures
        r.0@ == (CancellationView { stage: stage@, ..c@ }),
        r.1@ == action@,
{
    let mut c = c;
    c.stage = stage;
    (c, action)
}

fn answer(c: Cancellation, reply: Reply) -> (r: (Cancellation, CancelAction))
    ensures
        r.0@ == (CancellationView { stage: CancelStageView::Over, ..c@ }),
        r.1@ == CancelActionView::Answer(reply@),
{
    wait(c, CancelStage::Over, CancelAction::Answer(reply))
}

fn load(c: Cancellation, status: u16) -> (r: (Cancellation, CancelAction))
    ensures
        r.0@ == (CancellationView {
            stage: CancelStageView::Loading(
                FormView { request_id: None, status, wrapped: false, replay: false },
            ),
            ..c@
        }),
        r.1@ == CancelActionView::Load(c@.task_id),
{
    let action = CancelAction::Load(c.task_id.clone());
    let form = Form { request_id: None, status, wrapped: false, replay: false };
    wait(c, CancelStage::Loading(form), action)
}

fn settlement(outcome: CancelTry, reference: Option<String>) -> (r: VideoAdapterOutcome)
    ensures
        r@ == cancel_outcome(outcome@, text::opt_view(reference)),
{
    match outcome {
        CancelTry::NoExecutor => VideoAdapterOutcome::TransportUnknown {
            reason: "cancel_adapter_unavailable".to_owned(),
            upstream_request_ref: reference,
        },
        CancelTry::NoGrant => VideoAdapterOutcome::TransportUnknown {
            reason: "cancel_lease_binding_missing".to_owned(),
            upstream_request_ref: reference,
        },
        CancelTry::TaskBroke => VideoAdapterOutcome::TransportUnknown {
            reason: "cancel_adapter_task_join_failed".to_owned(),
            upstream_request_ref: reference,
        },
        CancelTry::Outcome(outcome) => match outcome {
            VideoCancelOutcome::Confirmed { upstream_request_ref } =>
                VideoAdapterOutcome::Canceled { upstream_request_ref },
            VideoCancelOutcome::Unsupported => VideoAdapterOutcome::TransportUnknown {
                reason: "cancel_unsupported".to_owned(),
                upstream_request_ref: reference,
            },
            VideoCancelOutcome::Unknown { reason, upstream_request_ref } =>
                VideoAdapterOutcome::TransportUnknown { reason, upstream_request_ref },
        },
    }
}

fn not_found(error: &CoreLeaseError) -> (r: bool)
    ensures
        r == (error@ matches LeaseErrorView::Core(CoreErrorView::RequestNotFound(_))),
{
    match error {
        CoreLeaseError::Core(CoreError::RequestNotFound(_)) => true,
        _ => false,
    }
}

/// The next step of a cancellation.
pub fn video_cancel(c: Cancellation, state: &mut VideoState, event: CancelEvent) -> (r: (
    Cancellation,
    CancelAction,
))
    requires
        expected(c@.stage, event@),
    ensures
        (CancelStepView { cancellation: r.0@, state: final(state)@, action: r.1@ })
            == cancel_step(c@, old(state)@, event@),
{
    let mut c = c;
    match event {
        CancelEvent::Scoped(granted) => if granted {
            let action = CancelAction::Request(c.task_id.clone());
            wait(c, CancelStage::Requesting, action)
        } else {
            answer(c, core_routes::core_scope_error("videos:cancel"))
        },
        CancelEvent::Requested(requested) => match requested {
            Err(error) => if not_found(&error) {
                answer(c, core_video::task_not_found())
            } else {
                answer(c, core_routes::core_lease_error_response(&error))
            },
            Ok(found) => if found == JobState::Canceled || found == JobState::Succeeded || found
                == JobState::Failed || found == JobState::Unknown {
                load(c, 200)
            } else {
                let action = CancelAction::FindLease(c.task_id.clone());
                wait(c, CancelStage::Leasing, action)
            },
        },
        CancelEvent::Leased(leased) => match leased {
            Err(error) => answer(c, core_routes::core_lease_error_response(&error)),
            Ok(None) => load(c, 202),
            Ok(Some((lease, reference))) => {
                let action = CancelAction::Cancel(lease.clone());
                wait(c, CancelStage::Canceling(lease, reference), action)
            },
        },
        CancelEvent::Tried(outcome) => {
            let mut stage = CancelStage::Over;
            std::mem::swap(&mut stage, &mut c.stage);
            match stage {
                CancelStage::Canceling(lease, reference) => {
                    let outcome = settlement(outcome, reference);
                    let confirmed = match &outcome {
                        VideoAdapterOutcome::Canceled { .. } => true,
                        _ => false,
                    };
                    let action = CancelAction::Settle(c.task_id.clone(), lease, outcome);
                    wait(c, CancelStage::Settling(confirmed), action)
                },
                _ => {
                    assert(false);
                    answer(c, core_video::task_not_found())
                },
            }
        },
        CancelEvent::Settled(settled) => match settled {
            Err(error) => answer(c, core_routes::core_lease_error_response(&error)),
            Ok(_) => {
                let confirmed = match &c.stage {
                    CancelStage::Settling(confirmed) => *confirmed,
                    _ => false,
                };
                if confirmed {
                    video::release_job_permit(state, c.task_id.as_str());
                }
                load(c, 202)
            },
        },
        CancelEvent::Loaded(found) => {
            let mut stage = CancelStage::Over;
            std::mem::swap(&mut stage, &mut c.stage);
            match stage {
                CancelStage::Loading(form) => answer(
                    c,
                    core_video::core_video_response(found, &form),
                ),
                _ => {
                    assert(false);
                    answer(c, core_video::task_not_found())
                },
            }
        },
    }
}

/// A permit is given back only after a confirmed cancellation was settled.
pub proof fn law_only_a_confirmed_cancellation_releases(
    c: CancellationView,
    s: StateView,
    event: CancelEventView,
)
    requires
        expected(c.stage, event),
        cancel_step(c, s, event).state != s,
    ensures
        c.stage == CancelStageView::Settling(true),
        event == CancelEventView::Settled(None),
{
}

/// A cancellation that the adapter did not confirm is never settled as one.
pub proof fn law_an_unconfirmed_cancellation_is_unknown(
    outcome: TryView,
    reference: Option<Seq<char>>,
)
    ensures
        cancel_outcome(outcome, reference) is Canceled == (outcome matches TryView::Outcome(
            CancelView::Confirmed { .. },
        )),
        !(cancel_outcome(outcome, reference) is Canceled) ==> cancel_outcome(
            outcome,
            reference,
        ) is TransportUnknown,
{
}

} // verus!
