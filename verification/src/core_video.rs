//! Video jobs that Core rules: how a client sees them, how they are submitted,
//! and how they are canceled.

use crate::access::MAX_BODY_BYTES;
use crate::core_routes;
use crate::core_types::{
    self, CoreError, CoreErrorView, CoreJob, CoreLeaseError, JobState,
    JobView, LeaseErrorView, Principal, PrincipalView, VideoAdapterOutcome,
    VideoOutcomeView,
};
use crate::json::{Json, JsonView};
use crate::outside;
use crate::reply::{self, LimitError, LimitView, Protocol, Reply, ReplyView};
use crate::text;
use crate::text_request;
use crate::video::{self, Permit, StateView, VideoState};
use crate::video_request;
use crate::video_store;
use crate::video_worker;
use vstd::prelude::*;

verus! {

/// The state of a job as a client sees it.
pub open spec fn status_of(state: JobState) -> Seq<char> {
    match state {
        JobState::Created => "created"@,
        JobState::Queued => "queued"@,
        JobState::Running => "running"@,
        JobState::CancelRequested => "cancel_requested"@,
        JobState::Canceled => "canceled"@,
        JobState::Succeeded => "completed"@,
        JobState::Failed => "failed"@,
        JobState::Unknown => "unknown"@,
    }
}

/// The state of a job as a client sees it.
pub fn core_video_status(state: JobState) -> (r: &'static str)
    ensures
        r@ == status_of(state),
{
    match state {
        JobState::Created => "created",
        JobState::Queued => "queued",
        JobState::Running => "running",
        JobState::CancelRequested => "cancel_requested",
        JobState::Canceled => "canceled",
        JobState::Succeeded => "completed",
        JobState::Failed => "failed",
        JobState::Unknown => "unknown",
    }
}

/// Whole seconds of a time in milliseconds, rounded towards zero.
pub open spec fn seconds(ms: i64) -> i64 {
    if ms >= 0 {
        (ms / 1000) as i64
    } else {
        (-((-ms) / 1000)) as i64
    }
}

/// Whole seconds of a time in milliseconds, rounded towards zero.
pub fn whole_seconds(ms: i64) -> (r: i64)
    ensures
        r == seconds(ms),
{
    if ms >= 0 {
        ((ms as u64) / 1000) as i64
    } else {
        let magnitude: u64 = (-(ms as i128)) as u64;
        -((magnitude / 1000) as i64)
    }
}

/// A job with the number of its last attempt, and what is known of its copy:
/// whether there is one, and the base of the addresses that clients are given.
#[derive(Debug)]
pub struct VideoBundle {
    pub job: CoreJob,
    pub attempt: Option<i64>,
    pub copied: bool,
    pub base: Option<String>,
}

/// The model of a [`VideoBundle`].
pub struct BundleView {
    pub job: JobView,
    pub attempt: Option<i64>,
    pub copied: bool,
    pub base: Option<Seq<char>>,
}

impl View for VideoBundle {
    type V = BundleView;

    open spec fn view(&self) -> BundleView {
        BundleView {
            job: self.job@,
            attempt: self.attempt,
            copied: self.copied,
            base: text::opt_view(self.base),
        }
    }
}

/// The reference of a job's own copy.
pub open spec fn own_copy(id: Seq<char>) -> Seq<char> {
    "video-store:"@ + id
}

/// The object with one member more, where there is a value for it.
pub open spec fn and_maybe(document: JsonView, key: Seq<char>, value: Option<JsonView>) -> JsonView {
    match value {
        Some(value) => document.member(key, value),
        None => document,
    }
}

/// The object with one member more, where there is a value for it.
pub fn with_maybe(document: Json, key: &str, value: Option<Json>) -> (r: Json)
    ensures
        r@ == and_maybe(document@, key@, crate::json::opt_model(value)),
{
    match value {
        Some(value) => document.member(key, value),
        None => document,
    }
}

/// Where a client finds the copy of a job, if it has one of its own.
pub open spec fn copy_address(b: BundleView) -> Option<Seq<char>> {
    if b.job.artifact_ref == Some(own_copy(b.job.id)) && b.copied {
        video_store::content_address(b.job.id, b.base)
    } else {
        None
    }
}

/// A job as a client sees it.
pub open spec fn projection(b: BundleView) -> JsonView {
    let head = JsonView::object().member("id"@, JsonView::Text(b.job.id)).member(
        "object"@,
        JsonView::Text("video"@),
    ).member("model"@, JsonView::Text(b.job.model)).member(
        "status"@,
        JsonView::Text(status_of(b.job.state)),
    ).member("created_at"@, reply::signed_json(seconds(b.job.created_at_ms))).member(
        "updated_at"@,
        reply::signed_json(seconds(b.job.updated_at_ms)),
    );
    let tried = and_maybe(
        head,
        "attempt"@,
        match b.attempt {
            Some(n) => Some(reply::signed_json(n)),
            None => None,
        },
    );
    let failed = and_maybe(
        tried,
        "error"@,
        match b.job.error_code {
            Some(code) => Some(JsonView::object().member("code"@, JsonView::Text(code))),
            None => None,
        },
    );
    let open = if b.job.reconcile_required {
        failed.member("reconcile_required"@, JsonView::Bool(true))
    } else {
        failed
    };
    and_maybe(
        open,
        "content_url"@,
        match copy_address(b) {
            Some(url) => Some(JsonView::Text(url)),
            None => None,
        },
    )
}

/// A job as a client sees it.
pub fn core_video_projection(b: &VideoBundle) -> (r: Json)
    ensures
        r@ == projection(b@),
{
    let head = Json::object().member("id", Json::text(b.job.id.as_str())).member(
        "object",
        Json::text("video"),
    ).member("model", Json::text(b.job.model.as_str())).member(
        "status",
        Json::text(core_video_status(b.job.state)),
    ).member("created_at", reply::signed_number(whole_seconds(b.job.created_at_ms))).member(
        "updated_at",
        reply::signed_number(whole_seconds(b.job.updated_at_ms)),
    );
    let attempt = match b.attempt {
        Some(n) => Some(reply::signed_number(n)),
        None => None,
    };
    let error = match &b.job.error_code {
        Some(code) => Some(Json::object().member("code", Json::text(code.as_str()))),
        None => None,
    };
    let mut document = with_maybe(with_maybe(head, "attempt", attempt), "error", error);
    if b.job.reconcile_required {
        document = document.member("reconcile_required", Json::Bool(true));
    }
    let own = match &b.job.artifact_ref {
        Some(reference) => text::same(
            reference.as_str(),
            text::join2("video-store:", b.job.id.as_str()).as_str(),
        ),
        None => false,
    };
    let url = if own && b.copied {
        let base = match &b.base {
            Some(base) => Some(base.as_str()),
            None => None,
        };
        match video_store::content_url(b.job.id.as_str(), base) {
            Ok(url) => Some(Json::Text(url)),
            Err(_) => None,
        }
    } else {
        None
    };
    with_maybe(document, "content_url", url)
}

/// The answer where there is no such task for the caller.
pub open spec fn no_task() -> ReplyView {
    reply::openai(404, "task_not_found"@, "video task not found"@)
}

/// The answer where there is no such task for the caller.
pub fn task_not_found() -> (r: Reply)
    ensures
        r@ == no_task(),
{
    reply::openai_error(404, "task_not_found", "video task not found")
}

/// How an answer with a job looks: its request, its status, and whether it is
/// wrapped and marked as a replay.
#[derive(Debug)]
pub struct Form {
    pub request_id: Option<String>,
    pub status: u16,
    pub wrapped: bool,
    pub replay: bool,
}

/// The model of a [`Form`].
pub struct FormView {
    pub request_id: Option<Seq<char>>,
    pub status: u16,
    pub wrapped: bool,
    pub replay: bool,
}

impl View for Form {
    type V = FormView;

    open spec fn view(&self) -> FormView {
        FormView {
            request_id: text::opt_view(self.request_id),
            status: self.status,
            wrapped: self.wrapped,
            replay: self.replay,
        }
    }
}

/// The model of a looked up job.
pub open spec fn found_view(found: Result<Option<VideoBundle>, CoreError>) -> Result<
    Option<BundleView>,
    CoreErrorView,
> {
    match found {
        Ok(Some(bundle)) => Ok(Some(bundle@)),
        Ok(None) => Ok(None),
        Err(error) => Err(error@),
    }
}

/// The answer with a job.
pub open spec fn job_reply(
    found: Result<Option<BundleView>, CoreErrorView>,
    form: FormView,
) -> ReplyView {
    match found {
        Err(error) => core_routes::error_reply(error),
        Ok(None) => no_task(),
        Ok(Some(bundle)) => {
            let task = projection(bundle);
            let answer = reply::json_answer(
                form.status,
                if form.wrapped {
                    JsonView::object().member("task"@, task).member(
                        "idempotent_replay"@,
                        JsonView::Bool(form.replay),
                    )
                } else {
                    task
                },
            );
            match form.request_id {
                Some(id) => core_routes::named(answer, id),
                None => answer,
            }
        },
    }
}

/// The answer with a job.
pub fn core_video_response(found: Result<Option<VideoBundle>, CoreError>, form: &Form) -> (r: Reply)
    ensures
        r@ == job_reply(found_view(found), form@),
{
    match found {
        Err(error) => core_routes::core_error_response(&error),
        Ok(None) => task_not_found(),
        Ok(Some(bundle)) => {
            let task = core_video_projection(&bundle);
            let body = if form.wrapped {
                Json::object().member("task", task).member(
                    "idempotent_replay",
                    Json::Bool(form.replay),
                )
            } else {
                task
            };
            let answer = Reply::json(form.status, body);
            match &form.request_id {
                Some(id) => core_routes::with_core_request_id(answer, id.as_str()),
                None => answer,
            }
        },
    }
}

/// A job in that state holds no permit any more.
pub open spec fn ended(state: Option<JobState>) -> bool {
    state == Some(JobState::Succeeded) || state == Some(JobState::Failed) || state == Some(
        JobState::Canceled,
    )
}

/// The permits after a job was found in that state.
pub open spec fn permits_after(s: StateView, job_id: Seq<char>, state: Option<JobState>) -> StateView {
    if ended(state) {
        video::release_spec(s, job_id)
    } else {
        s
    }
}

/// Gives the permit of a job back, where the job ended.
pub fn release_core_video_permit_if_terminal(
    state: &mut VideoState,
    job_id: &str,
    found: Option<JobState>,
)
    ensures
        final(state)@ == permits_after(old(state)@, job_id@, found),
{
    let over = match found {
        Some(found) => found == JobState::Succeeded || found == JobState::Failed || found
            == JobState::Canceled,
        None => false,
    };
    if over {
        video::release_job_permit(state, job_id);
    }
}

/// What a submission waits for.
#[derive(Debug)]
pub enum SubmitStage {
    Scoping,
    FindingExecutor,
    Guarding,
    Permitting,
    Keeping,
    Enqueuing,
    Claiming,
    Submitting,
    /// The reference by which the upstream knows the job.
    Recording(String),
    Settling(VideoAdapterOutcome),
    /// The answer once the job was looked up.
    Failing(Reply),
    Loading(Form),
    Over,
}

/// The model of a [`SubmitStage`].
pub enum SubmitStageView {
    Scoping,
    FindingExecutor,
    Guarding,
    Permitting,
    Keeping,
    Enqueuing,
    Claiming,
    Submitting,
    Recording(Seq<char>),
    Settling(VideoOutcomeView),
    Failing(ReplyView),
    Loading(FormView),
    Over,
}

impl View for SubmitStage {
    type V = SubmitStageView;

    open spec fn view(&self) -> SubmitStageView {
        match self {
            SubmitStage::Scoping => SubmitStageView::Scoping,
            SubmitStage::FindingExecutor => SubmitStageView::FindingExecutor,
            SubmitStage::Guarding => SubmitStageView::Guarding,
            SubmitStage::Permitting => SubmitStageView::Permitting,
            SubmitStage::Keeping => SubmitStageView::Keeping,
            SubmitStage::Enqueuing => SubmitStageView::Enqueuing,
            SubmitStage::Claiming => SubmitStageView::Claiming,
            SubmitStage::Submitting => SubmitStageView::Submitting,
            SubmitStage::Recording(reference) => SubmitStageView::Recording(reference@),
            SubmitStage::Settling(outcome) => SubmitStageView::Settling(outcome@),
            SubmitStage::Failing(reply) => SubmitStageView::Failing(reply@),
            SubmitStage::Loading(form) => SubmitStageView::Loading(form@),
            SubmitStage::Over => SubmitStageView::Over,
        }
    }
}

/// The submission of a video.
#[derive(Debug)]
pub struct Submission {
    pub stage: SubmitStage,
    pub principal: Principal,
    /// The header `Idempotency-Key`, without the white space around it.
    pub idempotency_key: Option<String>,
    pub allow_http: bool,
    pub model: String,
    pub body: Json,
    pub job_id: String,
    pub request_id: String,
    pub lease_id: String,
}

/// The model of a [`Submission`].
pub struct SubmissionView {
    pub stage: SubmitStageView,
    pub principal: PrincipalView,
    pub idempotency_key: Option<Seq<char>>,
    pub allow_http: bool,
    pub model: Seq<char>,
    pub body: JsonView,
    pub job_id: Seq<char>,
    pub request_id: Seq<char>,
    pub lease_id: Seq<char>,
}

impl View for Submission {
    type V = SubmissionView;

    open spec fn view(&self) -> SubmissionView {
        SubmissionView {
            stage: self.stage@,
            principal: self.principal@,
            idempotency_key: text::opt_view(self.idempotency_key),
            allow_http: self.allow_http,
            model: self.model@,
            body: self.body@,
            job_id: self.job_id@,
            request_id: self.request_id@,
            lease_id: self.lease_id@,
        }
    }
}

/// What Core made of a submission: the job and the request of it.
#[derive(Debug)]
pub enum Enqueued {
    /// The job came before.
    Replay(String, String),
    Created(String, String),
}

/// The model of an [`Enqueued`].
pub enum EnqueuedView {
    Replay(Seq<char>, Seq<char>),
    Created(Seq<char>, Seq<char>),
}

impl View for Enqueued {
    type V = EnqueuedView;

    open spec fn view(&self) -> EnqueuedView {
        match self {
            Enqueued::Replay(job, request) => EnqueuedView::Replay(job@, request@),
            Enqueued::Created(job, request) => EnqueuedView::Created(job@, request@),
        }
    }
}

/// What came of the last action.
#[derive(Debug)]
pub enum SubmitEvent {
    /// Whether the caller has the scope; the size of the body, and the body.
    Scoped(bool, usize, Result<Json, String>),
    /// There is an executor, or not.
    Executor(Result<(), CoreLeaseError>),
    /// A permit was taken, or not.
    Guarded(Result<(), LimitError>),
    /// A slot among the video jobs was taken, or not; the time in milliseconds
    /// and a random number.
    Permitted(Result<(), LimitError>, i64, u64),
    /// The input was kept, or not.
    Kept(Result<(), String>),
    Enqueued(Result<Enqueued, CoreLeaseError>),
    /// The lease of the job, or none.
    Claimed(Result<Option<String>, CoreLeaseError>),
    /// What became of the job, unless the adapter's task broke down; whether
    /// the job's heartbeat failed.
    Submitted(Option<VideoAdapterOutcome>, bool),
    /// The acceptance was recorded, or the job settled.
    Done(Result<(), CoreLeaseError>),
    /// The state of the job, where it could be read.
    Looked(Option<JobState>),
    Loaded(Result<Option<VideoBundle>, CoreError>),
}

/// The model of a [`SubmitEvent`].
pub enum SubmitEventView {
    Scoped(bool, usize, Result<JsonView, Seq<char>>),
    Executor(Option<LeaseErrorView>),
    Guarded(Option<LimitView>),
    Permitted(Option<LimitView>, i64, u64),
    Kept(Option<Seq<char>>),
    Enqueued(Result<EnqueuedView, LeaseErrorView>),
    Claimed(Result<Option<Seq<char>>, LeaseErrorView>),
    Submitted(Option<VideoOutcomeView>, bool),
    Done(Option<LeaseErrorView>),
    Looked(Option<JobState>),
    Loaded(Result<Option<BundleView>, CoreErrorView>),
}

/// The error of an action at Core.
pub open spec fn lease_failure(r: Result<(), CoreLeaseError>) -> Option<LeaseErrorView> {
    match r {
        Ok(_) => None,
        Err(error) => Some(error@),
    }
}

/// The limit that was run into.
pub open spec fn limit_failure(r: Result<(), LimitError>) -> Option<LimitView> {
    match r {
        Ok(_) => None,
        Err(error) => Some(error@),
    }
}

impl View for SubmitEvent {
    type V = SubmitEventView;

    open spec fn view(&self) -> SubmitEventView {
        match self {
            SubmitEvent::Scoped(granted, size, parsed) => SubmitEventView::Scoped(
                *granted,
                *size,
                outside::result_model(*parsed),
            ),
            SubmitEvent::Executor(found) => SubmitEventView::Executor(lease_failure(*found)),
            SubmitEvent::Guarded(permit) => SubmitEventView::Guarded(limit_failure(*permit)),
            SubmitEvent::Permitted(permit, now_ms, n) => SubmitEventView::Permitted(
                limit_failure(*permit),
                *now_ms,
                *n,
            ),
            SubmitEvent::Kept(kept) => SubmitEventView::Kept(video_worker::failure_of(*kept)),
            SubmitEvent::Enqueued(enqueued) => SubmitEventView::Enqueued(
                match enqueued {
                    Ok(enqueued) => Ok(enqueued@),
                    Err(error) => Err(error@),
                },
            ),
            SubmitEvent::Claimed(claimed) => SubmitEventView::Claimed(
                match claimed {
                    Ok(lease) => Ok(text::opt_view(*lease)),
                    Err(error) => Err(error@),
                },
            ),
            SubmitEvent::Submitted(outcome, heartbeat_failed) => SubmitEventView::Submitted(
                match outcome {
                    Some(outcome) => Some(outcome@),
                    None => None,
                },
                *heartbeat_failed,
            ),
            SubmitEvent::Done(done) => SubmitEventView::Done(lease_failure(*done)),
            SubmitEvent::Looked(state) => SubmitEventView::Looked(*state),
            SubmitEvent::Loaded(found) => SubmitEventView::Loaded(found_view(*found)),
        }
    }
}

/// What is to be done next.
#[derive(Debug)]
pub enum SubmitAction {
    /// Find out whether the caller has the scope.
    CheckScope(&'static str),
    FindExecutor,
    /// Take a permit for the caller.
    Guard,
    /// Take a slot among the video jobs of the caller.
    Permit,
    /// Keep the input: the job, its owner and the input.
    Keep(String, String, Json),
    /// Have Core queue the job: the key of the request, the input and the job.
    Enqueue(String, Json, String),
    /// Claim the job for this worker.
    Claim(&'static str, String),
    /// Have the adapter execute the job while its heartbeat goes on: the job,
    /// its request, its model and its input.
    Submit(String, String, String, Json),
    /// Record that the upstream took the job.
    RecordAcceptance(String, String),
    /// Settle the lease with this outcome.
    Settle(String, String, VideoAdapterOutcome),
    /// Settle the lease with this outcome, whatever comes of it; then read the
    /// state of the job.
    SettleAndLook(String, String, VideoAdapterOutcome),
    /// Read the state of the job.
    Look(String),
    /// Look the job up for the answer.
    Load(String),
    /// Answer the client.
    Answer(Reply),
}

/// The model of a [`SubmitAction`].
pub enum SubmitActionView {
    CheckScope(Seq<char>),
    FindExecutor,
    Guard,
    Permit,
    Keep(Seq<char>, Seq<char>, JsonView),
    Enqueue(Seq<char>, JsonView, Seq<char>),
    Claim(Seq<char>, Seq<char>),
    Submit(Seq<char>, Seq<char>, Seq<char>, JsonView),
    RecordAcceptance(Seq<char>, Seq<char>),
    Settle(Seq<char>, Seq<char>, VideoOutcomeView),
    SettleAndLook(Seq<char>, Seq<char>, VideoOutcomeView),
    Look(Seq<char>),
    Load(Seq<char>),
    Answer(ReplyView),
}

impl View for SubmitAction {
    type V = SubmitActionView;

    open spec fn view(&self) -> SubmitActionView {
        match self {
            SubmitAction::CheckScope(scope) => SubmitActionView::CheckScope(scope@),
            SubmitAction::FindExecutor => SubmitActionView::FindExecutor,
            SubmitAction::Guard => SubmitActionView::Guard,
            SubmitAction::Permit => SubmitActionView::Permit,
            SubmitAction::Keep(job, user, body) => SubmitActionView::Keep(job@, user@, body@),
            SubmitAction::Enqueue(key, body, job) => SubmitActionView::Enqueue(key@, body@, job@),
            SubmitAction::Claim(worker, job) => SubmitActionView::Claim(worker@, job@),
            SubmitAction::Submit(job, request, model, body) => SubmitActionView::Submit(
                job@,
                request@,
                model@,
                body@,
            ),
            SubmitAction::RecordAcceptance(job, reference) => SubmitActionView::RecordAcceptance(
                job@,
                reference@,
            ),
            SubmitAction::Settle(job, lease, outcome) => SubmitActionView::Settle(
                job@,
                lease@,
                outcome@,
            ),
            SubmitAction::SettleAndLook(job, lease, outcome) => SubmitActionView::SettleAndLook(
                job@,
                lease@,
                outcome@,
            ),
            SubmitAction::Look(job) => SubmitActionView::Look(job@),
            SubmitAction::Load(job) => SubmitActionView::Load(job@),
            SubmitAction::Answer(reply) => SubmitActionView::Answer(reply@),
        }
    }
}

/// A step: the submission and the permits after it, the job whose kept input is
/// removed, if any, and what is to be done next.
pub struct SubmitStepView {
    pub submission: SubmissionView,
    pub state: StateView,
    pub removed: Option<Seq<char>>,
    pub action: SubmitActionView,
}

/// The submission waits for the outcome of an action.
pub open spec fn waits(
    v: SubmissionView,
    s: StateView,
    stage: SubmitStageView,
    action: SubmitActionView,
) -> SubmitStepView {
    SubmitStepView {
        submission: SubmissionView { stage, ..v },
        state: s,
        removed: None,
        action,
    }
}

/// The submission is answered.
pub open spec fn answers(v: SubmissionView, s: StateView, reply: ReplyView) -> SubmitStepView {
    waits(v, s, SubmitStageView::Over, SubmitActionView::Answer(reply))
}

/// The input that was kept for a job is removed.
pub open spec fn removes(step: SubmitStepView, job_id: Seq<char>) -> SubmitStepView {
    SubmitStepView { removed: Some(job_id), ..step }
}

/// The job is looked up for the answer.
pub open spec fn loads(
    v: SubmissionView,
    s: StateView,
    job_id: Seq<char>,
    request_id: Seq<char>,
    replay: bool,
) -> SubmitStepView {
    waits(
        v,
        s,
        SubmitStageView::Loading(
            FormView { request_id: Some(request_id), status: 202, wrapped: true, replay },
        ),
        SubmitActionView::Load(job_id),
    )
}

/// The name of a job.
pub open spec fn job_name(now_ms: i64, n: u64) -> Seq<char> {
    "video-"@ + reply::signed_text(now_ms) + "-"@ + text::decimal(n as nat)
}

/// The body of a submission was read.
pub open spec fn submission_read(
    v: SubmissionView,
    s: StateView,
    size: usize,
    parsed: Result<JsonView, Seq<char>>,
) -> SubmitStepView {
    if size > MAX_BODY_BYTES {
        answers(v, s, text_request::too_large(Protocol::OpenAi))
    } else {
        match parsed {
            Err(error) => answers(v, s, text_request::not_json(Protocol::OpenAi, error)),
            Ok(body) => match video_request::accepted(body, v.allow_http) {
                Err(error) => answers(v, s, text_request::invalid(Protocol::OpenAi, error)),
                Ok((model, _)) => if v.idempotency_key is None {
                    answers(
                        v,
                        s,
                        reply::openai(
                            400,
                            "idempotency_key_required"@,
                            "Idempotency-Key is required in Core enforce mode"@,
                        ),
                    )
                } else {
                    waits(
                        SubmissionView { model, body, ..v },
                        s,
                        SubmitStageView::FindingExecutor,
                        SubmitActionView::FindExecutor,
                    )
                },
            },
        }
    }
}

/// What became of the job at the adapter, as far as it can be trusted.
pub open spec fn adapter_outcome(
    outcome: Option<VideoOutcomeView>,
    heartbeat_failed: bool,
) -> VideoOutcomeView {
    video_worker::trusted_outcome(
        match outcome {
            Some(outcome) => outcome,
            None => video_worker::unknown_because("adapter_task_join_failed"@),
        },
        heartbeat_failed,
    )
}

/// The job was settled with an outcome.
pub open spec fn settled(v: SubmissionView, s: StateView, outcome: VideoOutcomeView) -> SubmitStepView {
    let confirmed = video_worker::is_confirmed(outcome);
    let after = if confirmed {
        video::release_spec(s, v.job_id)
    } else {
        s
    };
    let step = match outcome {
        VideoOutcomeView::Rejected { status, code, accepted: false } => answers(
            v,
            after,
            core_routes::named(
                reply::openai(reply::status_or(status, 502), "upstream_error"@, code),
                v.request_id,
            ),
        ),
        _ => loads(v, after, v.job_id, v.request_id, false),
    };
    if confirmed {
        removes(step, v.job_id)
    } else {
        step
    }
}

/// The event can follow the action that the submission waits for.
pub open spec fn expected(stage: SubmitStageView, event: SubmitEventView) -> bool {
    match stage {
        SubmitStageView::Scoping => event is Scoped,
        SubmitStageView::FindingExecutor => event is Executor,
        SubmitStageView::Guarding => event is Guarded,
        SubmitStageView::Permitting => event is Permitted,
        SubmitStageView::Keeping => event is Kept,
        SubmitStageView::Enqueuing => event is Enqueued,
        SubmitStageView::Claiming => event is Claimed,
        SubmitStageView::Submitting => event is Submitted,
        SubmitStageView::Recording(_) => event is Done,
        SubmitStageView::Settling(_) => event is Done,
        SubmitStageView::Failing(_) => event is Looked,
        SubmitStageView::Loading(_) => event is Loaded,
        SubmitStageView::Over => false,
    }
}

/// The next step of a submission. Nothing is written before there is an
/// executor; the input is kept before the job is queued.
pub open spec fn submit_step(v: SubmissionView, s: StateView, event: SubmitEventView) -> SubmitStepView {
    match event {
        SubmitEventView::Scoped(granted, size, parsed) => if granted {
            submission_read(v, s, size, parsed)
        } else {
            answers(v, s, core_routes::scope_reply("videos:submit"@))
        },
        SubmitEventView::Executor(failure) => match failure {
            Some(error) => answers(v, s, core_routes::lease_error_reply(error)),
            None => waits(v, s, SubmitStageView::Guarding, SubmitActionView::Guard),
        },
        SubmitEventView::Guarded(failure) => match failure {
            Some(error) => answers(v, s, reply::limit_reply(error)),
            None => waits(v, s, SubmitStageView::Permitting, SubmitActionView::Permit),
        },
        SubmitEventView::Permitted(failure, now_ms, n) => match failure {
            Some(error) => answers(v, s, reply::limit_reply(error)),
            None => {
                let job_id = job_name(now_ms, n);
                waits(
                    SubmissionView { job_id, ..v },
                    s,
                    SubmitStageView::Keeping,
                    SubmitActionView::Keep(job_id, v.principal.user_id, v.body),
                )
            },
        },
        SubmitEventView::Kept(failure) => match failure {
            Some(error) => answers(
                v,
                s,
                reply::openai(503, "video_payload_unavailable"@, error),
            ),
            None => waits(
                v,
                s,
                SubmitStageView::Enqueuing,
                SubmitActionView::Enqueue(
                    match v.idempotency_key {
                        Some(key) => key,
                        None => Seq::empty(),
                    },
                    v.body,
                    v.job_id,
                ),
            ),
        },
        SubmitEventView::Enqueued(enqueued) => match enqueued {
            Err(error) => removes(
                answers(v, s, core_routes::lease_error_reply(error)),
                v.job_id,
            ),
            Ok(EnqueuedView::Replay(job, request)) => removes(
                loads(v, s, job, request, true),
                v.job_id,
            ),
            Ok(EnqueuedView::Created(job, request)) => if s.holds_permit(job) {
                answers(
                    v,
                    s,
                    reply::openai(
                        409,
                        "video_limit_state_conflict"@,
                        "video job permit already exists"@,
                    ),
                )
            } else {
                waits(
                    SubmissionView { job_id: job, request_id: request, ..v },
                    video::retain_spec(s, job, v.principal.key_id),
                    SubmitStageView::Claiming,
                    SubmitActionView::Claim("http-video-worker"@, job),
                )
            },
        },
        SubmitEventView::Claimed(claimed) => match claimed {
            Err(error) => answers(v, s, core_routes::lease_error_reply(error)),
            Ok(None) => loads(v, s, v.job_id, v.request_id, false),
            Ok(Some(lease)) => waits(
                SubmissionView { lease_id: lease, ..v },
                s,
                SubmitStageView::Submitting,
                SubmitActionView::Submit(v.job_id, v.request_id, v.model, v.body),
            ),
        },
        SubmitEventView::Submitted(outcome, heartbeat_failed) => {
            let outcome = adapter_outcome(outcome, heartbeat_failed);
            match outcome {
                VideoOutcomeView::Accepted { upstream_request_ref } => waits(
                    v,
                    s,
                    SubmitStageView::Recording(upstream_request_ref),
                    SubmitActionView::RecordAcceptance(v.job_id, upstream_request_ref),
                ),
                _ => waits(
                    v,
                    s,
                    SubmitStageView::Settling(outcome),
                    SubmitActionView::Settle(v.job_id, v.lease_id, outcome),
                ),
            }
        },
        SubmitEventView::Done(failure) => match v.stage {
            SubmitStageView::Recording(reference) => match failure {
                None => loads(v, s, v.job_id, v.request_id, false),
                Some(error) => waits(
                    v,
                    s,
                    SubmitStageView::Failing(core_routes::lease_error_reply(error)),
                    SubmitActionView::SettleAndLook(
                        v.job_id,
                        v.lease_id,
                        VideoOutcomeView::TransportUnknown {
                            reason: "acceptance_persistence_failed"@,
                            upstream_request_ref: Some(reference),
                        },
                    ),
                ),
            },
            _ => match failure {
                None => settled(v, s, v.stage->Settling_0),
                Some(error) => waits(
                    v,
                    s,
                    SubmitStageView::Failing(core_routes::lease_error_reply(error)),
                    SubmitActionView::Look(v.job_id),
                ),
            },
        },
        SubmitEventView::Looked(found) => answers(
            v,
            permits_after(s, v.job_id, found),
            v.stage->Failing_0,
        ),
        SubmitEventView::Loaded(found) => answers(v, s, job_reply(found, v.stage->Loading_0)),
    }
}

/// A submission before its first step.
pub open spec fn opened(
    principal: PrincipalView,
    idempotency_key: Option<Seq<char>>,
    allow_http: bool,
) -> SubmissionView {
    SubmissionView {
        stage: SubmitStageView::Scoping,
        principal,
        idempotency_key: crate::access::header_value(idempotency_key),
        allow_http,
        model: Seq::empty(),
        body: JsonView::Null,
        job_id: Seq::empty(),
        request_id: Seq::empty(),
        lease_id: Seq::empty(),
    }
}

/// A submission before its first step: its caller must have the scope
/// `videos:submit`.
pub fn open_submission(
    principal: Principal,
    idempotency_key: &Option<String>,
    allow_http: bool,
) -> (r: (Submission, SubmitAction))
    ensures
        r.0@ == opened(principal@, text::opt_view(*idempotency_key), allow_http),
        r.1@ == SubmitActionView::CheckScope("videos:submit"@),
{
    let r = Submission {
        stage: SubmitStage::Scoping,
        principal,
        idempotency_key: crate::access::read_header(idempotency_key),
        allow_http,
        model: String::new(),
        body: Json::Null,
        job_id: String::new(),
        request_id: String::new(),
        lease_id: String::new(),
    };
    assert(r@.model =~= Seq::empty());
    (r, SubmitAction::CheckScope("videos:submit"))
}

/// The model of a step.
pub open spec fn step_view(
    r: (Submission, Option<String>, SubmitAction),
    s: StateView,
) -> SubmitStepView {
    SubmitStepView {
        submission: r.0@,
        state: s,
        removed: text::opt_view(r.1),
        action: r.2@,
    }
}

fn wait(v: Submission, stage: SubmitStage, action: SubmitAction) -> (r: (
    Submission,
    Option<String>,
    SubmitAction,
))
    ensures
        r.0@ == (SubmissionView { stage: stage@, ..v@ }),
        r.1 is None,
        r.2@ == action@,
{
    let mut v = v;
    v.stage = stage;
    (v, None, action)
}

fn answer(v: Submission, reply: Reply) -> (r: (Submission, Option<String>, SubmitAction))
    ensures
        r.0@ == (SubmissionView { stage: SubmitStageView::Over, ..v@ }),
        r.1 is None,
        r.2@ == SubmitActionView::Answer(reply@),
{
    wait(v, SubmitStage::Over, SubmitAction::Answer(reply))
}

fn load(v: Submission, job_id: String, request_id: String, replay: bool) -> (r: (
    Submission,
    Option<String>,
    SubmitAction,
))
    ensures
        r.0@ == (SubmissionView {
            stage: SubmitStageView::Loading(
                FormView {
                    request_id: Some(request_id@),
                    status: 202,
                    wrapped: true,
                    replay,
                },
            ),
            ..v@
        }),
        r.1 is None,
        r.2@ == SubmitActionView::Load(job_id@),
{
    wait(
        v,
        SubmitStage::Loading(
            Form { request_id: Some(request_id), status: 202, wrapped: true, replay },
        ),
        SubmitAction::Load(job_id),
    )
}

fn read_submission(v: Submission, size: usize, parsed: Result<Json, String>) -> (r: (
    Submission,
    Option<String>,
    SubmitAction,
))
    ensures
        forall|s: StateView| #[trigger]
            step_view(r, s) == submission_read(v@, s, size, outside::result_model(parsed)),
{
    if size > MAX_BODY_BYTES {
        return answer(v, text_request::body_too_large(Protocol::OpenAi));
    }
    match parsed {
        Err(error) => answer(v, text_request::no_document(Protocol::OpenAi, error.as_str())),
        Ok(body) => match video_request::validate_request(&body, v.allow_http) {
            Err(error) => answer(
                v,
                text_request::invalid_request(Protocol::OpenAi, error.as_str()),
            ),
            Ok((model, _)) => {
                if v.idempotency_key.is_none() {
                    return answer(
                        v,
                        reply::openai_error(
                            400,
                            "idempotency_key_required",
                            "Idempotency-Key is required in Core enforce mode",
                        ),
                    );
                }
                let mut v = v;
                v.model = model;
                v.body = body;
                wait(v, SubmitStage::FindingExecutor, SubmitAction::FindExecutor)
            },
        },
    }
}

fn enqueue(v: Submission, state: &mut VideoState, enqueued: Result<Enqueued, CoreLeaseError>) -> (r:
    (Submission, Option<String>, SubmitAction))
    requires
        v@.stage is Enqueuing,
    ensures
        step_view(r, final(state)@) == submit_step(
            v@,
            old(state)@,
            SubmitEventView::Enqueued(
                match enqueued {
                    Ok(enqueued) => Ok(enqueued@),
                    Err(error) => Err(error@),
                },
            ),
        ),
{
    let kept = v.job_id.clone();
    match enqueued {
        Err(error) => {
            let (v, _, action) = answer(v, core_routes::core_lease_error_response(&error));
            (v, Some(kept), action)
        },
        Ok(Enqueued::Replay(job, request)) => {
            let (v, _, action) = load(v, job, request, true);
            (v, Some(kept), action)
        },
        Ok(Enqueued::Created(job, request)) => {
            let permit = Permit { key_id: v.principal.key_id.clone() };
            if !video::retain_job_permit(state, job.as_str(), permit) {
                return answer(
                    v,
                    reply::openai_error(
                        409,
                        "video_limit_state_conflict",
                        "video job permit already exists",
                    ),
                );
            }
            let mut v = v;
            v.job_id = job.clone();
            v.request_id = request;
            wait(v, SubmitStage::Claiming, SubmitAction::Claim("http-video-worker", job))
        },
    }
}

fn settle(v: Submission, state: &mut VideoState, outcome: VideoAdapterOutcome) -> (r: (
    Submission,
    Option<String>,
    SubmitAction,
))
    ensures
        step_view(r, final(state)@) == settled(v@, old(state)@, outcome@),
{
    let confirmed = video_worker::releases_payload(&outcome);
    if confirmed {
        video::release_job_permit(state, v.job_id.as_str());
    }
    let removed = if confirmed {
        Some(v.job_id.clone())
    } else {
        None
    };
    let refusal = match &outcome {
        VideoAdapterOutcome::Rejected { status, code, accepted } => if !*accepted {
            let reply = reply::openai_error(
                reply::valid_status(*status, 502),
                "upstream_error",
                code.as_str(),
            );
            Some(core_routes::with_core_request_id(reply, v.request_id.as_str()))
        } else {
            None
        },
        _ => None,
    };
    match refusal {
        Some(reply) => {
            let (v, _, action) = answer(v, reply);
            (v, removed, action)
        },
        None => {
            let job = v.job_id.clone();
            let request = v.request_id.clone();
            let (v, _, action) = load(v, job, request, false);
            (v, removed, action)
        },
    }
}

fn after_core(v: Submission, state: &mut VideoState, done: Result<(), CoreLeaseError>) -> (r: (
    Submission,
    Option<String>,
    SubmitAction,
))
    requires
        v@.stage is Recording || v@.stage is Settling,
    ensures
        step_view(r, final(state)@) == submit_step(
            v@,
            old(state)@,
            SubmitEventView::Done(lease_failure(done)),
        ),
{
    let mut v = v;
    let mut stage = SubmitStage::Over;
    std::mem::swap(&mut stage, &mut v.stage);
    match stage {
        SubmitStage::Recording(reference) => match done {
            Ok(_) => {
                let job = v.job_id.clone();
                let request = v.request_id.clone();
                load(v, job, request, false)
            },
            Err(error) => {
                let reply = core_routes::core_lease_error_response(&error);
                let action = SubmitAction::SettleAndLook(
                    v.job_id.clone(),
                    v.lease_id.clone(),
                    VideoAdapterOutcome::TransportUnknown {
                        reason: "acceptance_persistence_failed".to_owned(),
                        upstream_request_ref: Some(reference),
                    },
                );
                wait(v, SubmitStage::Failing(reply), action)
            },
        },
        SubmitStage::Settling(outcome) => match done {
            Ok(_) => settle(v, state, outcome),
            Err(error) => {
                let reply = core_routes::core_lease_error_response(&error);
                let action = SubmitAction::Look(v.job_id.clone());
                wait(v, SubmitStage::Failing(reply), action)
            },
        },
        _ => {
            assert(false);
            answer(v, task_not_found())
        },
    }
}

fn close(v: Submission, state: &mut VideoState, event: SubmitEvent) -> (r: (
    Submission,
    Option<String>,
    SubmitAction,
))
    requires
        expected(v@.stage, event@),
        event@ is Looked || event@ is Loaded,
    ensures
        step_view(r, final(state)@) == submit_step(v@, old(state)@, event@),
{
    let mut v = v;
    let mut stage = SubmitStage::Over;
    std::mem::swap(&mut stage, &mut v.stage);
    match (stage, event) {
        (SubmitStage::Failing(reply), SubmitEvent::Looked(found)) => {
            release_core_video_permit_if_terminal(state, v.job_id.as_str(), found);
            answer(v, reply)
        },
        (SubmitStage::Loading(form), SubmitEvent::Loaded(found)) => answer(
            v,
            core_video_response(found, &form),
        ),
        _ => {
            assert(false);
            answer(v, task_not_found())
        },
    }
}

/// The step of a submission with this body, once it is known whether its caller
/// has the scope.
pub fn submission_scoped(
    v: Submission,
    state: &mut VideoState,
    granted: bool,
    body: &Vec<u8>,
) -> (r: (Submission, Option<String>, SubmitAction))
    requires
        v@.stage is Scoping,
    ensures
        step_view(r, final(state)@) == submit_step(
            v@,
            old(state)@,
            SubmitEventView::Scoped(
                granted,
                body@.len() as usize,
                outside::json_of_bytes(body@),
            ),
        ),
{
    let parsed = outside::parse_bytes(body);
    core_videos_generations(v, state, SubmitEvent::Scoped(granted, body.len(), parsed))
}

/// The next step of a submission.
pub fn core_videos_generations(v: Submission, state: &mut VideoState, event: SubmitEvent) -> (r: (
    Submission,
    Option<String>,
    SubmitAction,
))
    requires
        expected(v@.stage, event@),
    ensures
        step_view(r, final(state)@) == submit_step(v@, old(state)@, event@),
{
    match event {
        SubmitEvent::Scoped(granted, size, parsed) => if granted {
            read_submission(v, size, parsed)
        } else {
            answer(v, core_routes::core_scope_error("videos:submit"))
        },
        SubmitEvent::Executor(found) => match found {
            Err(error) => answer(v, core_routes::core_lease_error_response(&error)),
            Ok(_) => wait(v, SubmitStage::Guarding, SubmitAction::Guard),
        },
        SubmitEvent::Guarded(permit) => match permit {
            Err(error) => answer(v, reply::limit_error_response(&error)),
            Ok(_) => wait(v, SubmitStage::Permitting, SubmitAction::Permit),
        },
        SubmitEvent::Permitted(permit, now_ms, n) => match permit {
            Err(error) => answer(v, reply::limit_error_response(&error)),
            Ok(_) => {
                let mut v = v;
                let mut job_id = text::join3("video-", reply::signed_decimal(now_ms).as_str(), "-");
                job_id.push_str(text::decimal_text(n).as_str());
                v.job_id = job_id.clone();
                let action = SubmitAction::Keep(
                    job_id,
                    v.principal.user_id.clone(),
                    v.body.dup(),
                );
                wait(v, SubmitStage::Keeping, action)
            },
        },
        SubmitEvent::Kept(kept) => match kept {
            Err(error) => answer(
                v,
                reply::openai_error(503, "video_payload_unavailable", error.as_str()),
            ),
            Ok(_) => {
                let key = match &v.idempotency_key {
                    Some(key) => key.clone(),
                    None => {
                        let none = String::new();
                        assert(none@ =~= Seq::empty());
                        none
                    },
                };
                let action = SubmitAction::Enqueue(key, v.body.dup(), v.job_id.clone());
                wait(v, SubmitStage::Enqueuing, action)
            },
        },
        SubmitEvent::Enqueued(enqueued) => enqueue(v, state, enqueued),
        SubmitEvent::Claimed(claimed) => match claimed {
            Err(error) => answer(v, core_routes::core_lease_error_response(&error)),
            Ok(None) => {
                let job = v.job_id.clone();
                let request = v.request_id.clone();
                load(v, job, request, false)
            },
            Ok(Some(lease)) => {
                let mut v = v;
                v.lease_id = lease;
                let action = SubmitAction::Submit(
                    v.job_id.clone(),
                    v.request_id.clone(),
                    v.model.clone(),
                    v.body.dup(),
                );
                wait(v, SubmitStage::Submitting, action)
            },
        },
        SubmitEvent::Submitted(outcome, heartbeat_failed) => {
            let outcome = match outcome {
                Some(outcome) => outcome,
                None => VideoAdapterOutcome::TransportUnknown {
                    reason: "adapter_task_join_failed".to_owned(),
                    upstream_request_ref: None,
                },
            };
            match video_worker::trust_outcome(outcome, heartbeat_failed) {
                VideoAdapterOutcome::Accepted { upstream_request_ref } => {
                    let action = SubmitAction::RecordAcceptance(
                        v.job_id.clone(),
                        upstream_request_ref.clone(),
                    );
                    wait(v, SubmitStage::Recording(upstream_request_ref), action)
                },
                other => {
                    let action = SubmitAction::Settle(
                        v.job_id.clone(),
                        v.lease_id.clone(),
                        other.dup(),
                    );
                    wait(v, SubmitStage::Settling(other), action)
                },
            }
        },
        SubmitEvent::Done(result) => after_core(v, state, result),
        SubmitEvent::Looked(found) => close(v, state, SubmitEvent::Looked(found)),
        SubmitEvent::Loaded(found) => close(v, state, SubmitEvent::Loaded(found)),
    }
}

/// Without an executor nothing is written: no input is kept, no job is queued
/// and no permit is held.
pub proof fn law_without_an_executor_nothing_is_written(
    v: SubmissionView,
    s: StateView,
    error: LeaseErrorView,
)
    ensures
        ({
            let step = submit_step(v, s, SubmitEventView::Executor(Some(error)));
            &&& step.action == SubmitActionView::Answer(core_routes::lease_error_reply(error))
            &&& step.state == s
            &&& step.removed is None
        }),
{
}

/// A job is queued only after its input was kept, and an input whose job was
/// not queued is removed.
pub proof fn law_an_input_is_kept_before_its_job_is_queued(
    v: SubmissionView,
    s: StateView,
    event: SubmitEventView,
)
    requires
        expected(v.stage, event),
    ensures
        submit_step(v, s, event).action is Enqueue ==> event == SubmitEventView::Kept(None),
        event matches SubmitEventView::Enqueued(enqueued) && !(enqueued matches Ok(
            EnqueuedView::Created(_, _),
        )) ==> submit_step(v, s, event).removed == Some(v.job_id),
{
}

/// A permit is given back only where the job ended for certain, or was found
/// ended; an unknown outcome keeps the permit and the kept input.
pub proof fn law_an_unknown_outcome_keeps_the_hold(
    v: SubmissionView,
    s: StateView,
    outcome: VideoOutcomeView,
)
    requires
        v.stage == SubmitStageView::Settling(outcome),
        !video_worker::is_confirmed(outcome),
    ensures
        ({
            let step = submit_step(v, s, SubmitEventView::Done(None));
            &&& step.state == s
            &&& step.removed is None
            &&& step.action == SubmitActionView::Load(v.job_id)
        }),
{
}

/// A submission that came before starts no second job: the permits stay, and
/// the answer is that of the first job.
pub proof fn law_a_replay_starts_no_second_job(
    v: SubmissionView,
    s: StateView,
    job: Seq<char>,
    request: Seq<char>,
)
    ensures
        ({
            let step = submit_step(
                v,
                s,
                SubmitEventView::Enqueued(Ok(EnqueuedView::Replay(job, request))),
            );
            &&& step.state == s
            &&& step.removed == Some(v.job_id)
            &&& step.action == SubmitActionView::Load(job)
        }),
{
}

} // verus!
