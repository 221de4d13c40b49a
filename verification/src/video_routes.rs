//! The video endpoints of the gateway's own task index.

use crate::access::{self, Caller, CallerView, Capability, KeyLimits, MAX_BODY_BYTES};
use crate::core_routes;
use crate::core_types::{CoreError, CoreErrorView, CoreMode};
use crate::core_video::{self, BundleView, VideoBundle};
use crate::json::{Json, JsonView};
use crate::outside;
use crate::reply::{self, LimitError, LimitView, Protocol, Reply, ReplyView};
use crate::table::{self, Table};
use crate::text;
use crate::text_request;
use crate::video::{
    self, BillingStatus, CreateView, IdempotentCreateResult, Permit, ReceiptView, StateView,
    TaskView, VideoBillingReceipt, VideoState, VideoTask,
};
use crate::video_native::{self, NativeWorker, WorkerAction, WorkerActionView, WorkerView};
use crate::video_request;
use crate::video_store::{self, PathView, StoragePath};
use vstd::prelude::*;

verus! {

/// The name of a receipt's state.
pub open spec fn billing_name(status: BillingStatus) -> Seq<char> {
    match status {
        BillingStatus::Absent => "absent"@,
        BillingStatus::Unverified => "unverified"@,
        BillingStatus::Verified => "verified"@,
    }
}

/// A receipt as a client sees it.
pub open spec fn receipt_document(r: ReceiptView) -> JsonView {
    JsonView::object().member("status"@, JsonView::Text(billing_name(r.status))).member(
        "actual_credits"@,
        crate::json::opt_text_json(r.actual_credits),
    ).member("unit"@, crate::json::opt_text_json(r.unit)).member(
        "source"@,
        crate::json::opt_text_json(r.source),
    ).member("task_ref"@, crate::json::opt_text_json(r.task_ref)).member(
        "observed_at_ms"@,
        JsonView::Number(crate::json::number(r.observed_at_ms)),
    )
}

fn receipt_json(r: &VideoBillingReceipt) -> (j: Json)
    ensures
        j@ == receipt_document(r@),
{
    let status = match r.status {
        BillingStatus::Absent => "absent",
        BillingStatus::Unverified => "unverified",
        BillingStatus::Verified => "verified",
    };
    Json::object().member("status", Json::text(status)).member(
        "actual_credits",
        Json::text_or_null(&r.actual_credits),
    ).member("unit", Json::text_or_null(&r.unit)).member(
        "source",
        Json::text_or_null(&r.source),
    ).member("task_ref", Json::text_or_null(&r.task_ref)).member(
        "observed_at_ms",
        Json::unsigned(r.observed_at_ms),
    )
}

/// The text as a document, where there is one.
pub open spec fn maybe_text(s: Option<Seq<char>>) -> Option<JsonView> {
    match s {
        Some(s) => Some(JsonView::Text(s)),
        None => None,
    }
}

fn text_maybe(s: &Option<String>) -> (r: Option<Json>)
    ensures
        crate::json::opt_model(r) == maybe_text(text::opt_view(*s)),
{
    match s {
        Some(s) => Some(Json::Text(s.clone())),
        None => None,
    }
}

/// A task as a client sees it. Neither its owner nor its replay key is in it.
pub open spec fn task_document(t: TaskView) -> JsonView {
    let head = JsonView::object().member("id"@, JsonView::Text(t.id)).member(
        "object"@,
        JsonView::Text(t.object),
    ).member("model"@, JsonView::Text(t.model)).member(
        "status"@,
        JsonView::Text(t.status),
    ).member("prompt"@, JsonView::Text(t.prompt)).member(
        "created_at"@,
        JsonView::Number(crate::json::number(t.created_at)),
    ).member("updated_at"@, JsonView::Number(crate::json::number(t.updated_at)));
    let a = core_video::and_maybe(head, "error"@, maybe_text(t.error)).member(
        "transport"@,
        JsonView::Text(t.transport),
    );
    let b = core_video::and_maybe(a, "video_url"@, maybe_text(t.video_url));
    let c = core_video::and_maybe(b, "resource_uri"@, maybe_text(t.resource_uri));
    let d = core_video::and_maybe(
        c,
        "video_duration"@,
        match t.video_duration {
            Some(n) => Some(JsonView::Number(n)),
            None => None,
        },
    );
    let e = core_video::and_maybe(d, "content_url"@, maybe_text(t.content_url));
    core_video::and_maybe(e, "artifact_error"@, maybe_text(t.artifact_error)).member(
        "billing"@,
        receipt_document(t.billing),
    )
}

/// A task as a client sees it.
pub fn task_json(t: &VideoTask) -> (r: Json)
    ensures
        r@ == task_document(t@),
{
    let head = Json::object().member("id", Json::text(t.id.as_str())).member(
        "object",
        Json::text(t.object.as_str()),
    ).member("model", Json::text(t.model.as_str())).member(
        "status",
        Json::text(t.status.as_str()),
    ).member("prompt", Json::text(t.prompt.as_str())).member(
        "created_at",
        Json::unsigned(t.created_at),
    ).member("updated_at", Json::unsigned(t.updated_at));
    let a = core_video::with_maybe(head, "error", text_maybe(&t.error)).member(
        "transport",
        Json::text(t.transport.as_str()),
    );
    let b = core_video::with_maybe(a, "video_url", text_maybe(&t.video_url));
    let c = core_video::with_maybe(b, "resource_uri", text_maybe(&t.resource_uri));
    let duration = match &t.video_duration {
        Some(n) => Some(Json::Number(n.clone())),
        None => None,
    };
    let d = core_video::with_maybe(c, "video_duration", duration);
    let e = core_video::with_maybe(d, "content_url", text_maybe(&t.content_url));
    core_video::with_maybe(e, "artifact_error", text_maybe(&t.artifact_error)).member(
        "billing",
        receipt_json(&t.billing),
    )
}

/// The answer to a submission.
pub open spec fn submitted_reply(task: TaskView, key_id: Seq<char>, replay: bool) -> ReplyView {
    let body = JsonView::object().member("task"@, task_document(task)).member(
        "request_key"@,
        JsonView::Text(key_id),
    );
    reply::json_answer(
        202,
        if replay {
            body.member("idempotent_replay"@, JsonView::Bool(true))
        } else {
            body
        },
    )
}

fn submitted(task: &VideoTask, key_id: &str, replay: bool) -> (r: Reply)
    ensures
        r@ == submitted_reply(task@, key_id@, replay),
{
    let body = Json::object().member("task", task_json(task)).member(
        "request_key",
        Json::text(key_id),
    );
    if replay {
        Reply::json(202, body.member("idempotent_replay", Json::Bool(true)))
    } else {
        Reply::json(202, body)
    }
}

/// What a submission comes with besides its body.
#[derive(Debug)]
pub struct VideoInput {
    pub caller: Caller,
    pub core: Option<CoreMode>,
    /// The header `Idempotency-Key`.
    pub idempotency_key: Option<String>,
    /// The header `X-Request-Id`.
    pub request_id: Option<String>,
    /// References without encryption are allowed.
    pub allow_http: bool,
}

/// The model of a [`VideoInput`].
pub struct VideoInputView {
    pub caller: CallerView,
    pub core: Option<CoreMode>,
    pub idempotency_key: Option<Seq<char>>,
    pub request_id: Option<Seq<char>>,
    pub allow_http: bool,
}

impl View for VideoInput {
    type V = VideoInputView;

    open spec fn view(&self) -> VideoInputView {
        VideoInputView {
            caller: self.caller@,
            core: self.core,
            idempotency_key: text::opt_view(self.idempotency_key),
            request_id: text::opt_view(self.request_id),
            allow_http: self.allow_http,
        }
    }
}

/// The key by which a submission is known again: its own key, else the name of
/// its request.
pub open spec fn submission_key(input: VideoInputView) -> Option<Seq<char>> {
    access::header_value(
        match input.idempotency_key {
            Some(key) => Some(key),
            None => input.request_id,
        },
    )
}

/// The replay key of a submission, within the key of its caller.
pub open spec fn replay_key(input: VideoInputView) -> Option<Seq<char>> {
    match submission_key(input) {
        Some(key) => Some(video::scoped_key(input.caller.name(), key)),
        None => None,
    }
}

/// The replay key of a submission, within the key of its caller.
pub fn scoped_submission_key(input: &VideoInput) -> (r: Option<String>)
    ensures
        text::opt_view(r) == replay_key(input@),
{
    let header = if input.idempotency_key.is_some() {
        access::read_header(&input.idempotency_key)
    } else {
        access::read_header(&input.request_id)
    };
    match header {
        Some(key) => Some(
            video::scoped_idempotency_key(input.caller.name().as_str(), key.as_str()),
        ),
        None => None,
    }
}

/// What a submission waits for.
#[derive(Clone, Copy, Debug, PartialEq, Eq, Structural)]
pub enum VideoStage {
    Limiting,
    Permitting,
    Picking,
    Over,
}

/// The submission of a video to the gateway's own worker.
#[derive(Debug)]
pub struct VideoSubmission {
    pub stage: VideoStage,
    pub key_id: String,
    pub limits: KeyLimits,
    pub model: String,
    pub prompt: String,
    pub replay_key: Option<String>,
}

/// The model of a [`VideoSubmission`].
pub struct VideoSubmissionView {
    pub stage: VideoStage,
    pub key_id: Seq<char>,
    pub limits: KeyLimits,
    pub model: Seq<char>,
    pub prompt: Seq<char>,
    pub replay_key: Option<Seq<char>>,
}

impl View for VideoSubmission {
    type V = VideoSubmissionView;

    open spec fn view(&self) -> VideoSubmissionView {
        VideoSubmissionView {
            stage: self.stage,
            key_id: self.key_id@,
            limits: self.limits,
            model: self.model@,
            prompt: self.prompt@,
            replay_key: text::opt_view(self.replay_key),
        }
    }
}

/// What came of the last action.
#[derive(Debug)]
pub enum VideoEvent {
    /// A permit was taken, or not.
    Guarded(Result<(), LimitError>),
    /// An account with credits for work, or none; the time in milliseconds.
    Picked(Option<String>, u64),
}

/// The model of a [`VideoEvent`].
pub enum VideoEventView {
    Guarded(Option<LimitView>),
    Picked(Option<Seq<char>>, u64),
}

impl View for VideoEvent {
    type V = VideoEventView;

    open spec fn view(&self) -> VideoEventView {
        match self {
            VideoEvent::Guarded(permit) => VideoEventView::Guarded(
                core_video::limit_failure(*permit),
            ),
            VideoEvent::Picked(uid, now_ms) => VideoEventView::Picked(
                text::opt_view(*uid),
                *now_ms,
            ),
        }
    }
}

/// A line of the request log.
#[derive(Debug)]
pub struct RequestNote {
    pub provider: &'static str,
    pub method: &'static str,
    pub path: &'static str,
    pub model: String,
    pub stream: bool,
    pub status: u16,
    pub account: &'static str,
    pub duration_ms: u64,
    pub remark: &'static str,
}

/// The model of a [`RequestNote`].
pub struct NoteView {
    pub provider: Seq<char>,
    pub method: Seq<char>,
    pub path: Seq<char>,
    pub model: Seq<char>,
    pub stream: bool,
    pub status: u16,
    pub account: Seq<char>,
    pub duration_ms: u64,
    pub remark: Seq<char>,
}

impl View for RequestNote {
    type V = NoteView;

    open spec fn view(&self) -> NoteView {
        NoteView {
            provider: self.provider@,
            method: self.method@,
            path: self.path@,
            model: self.model@,
            stream: self.stream,
            status: self.status,
            account: self.account@,
            duration_ms: self.duration_ms,
            remark: self.remark@,
        }
    }
}

/// What is logged of a submission whose task was queued.
pub open spec fn queued(model: Seq<char>) -> NoteView {
    NoteView {
        provider: "trae"@,
        method: "POST"@,
        path: "/v1/videos/generations"@,
        model,
        stream: false,
        status: 202,
        account: "queued"@,
        duration_ms: 0,
        remark: "Seedance native SSE task queued"@,
    }
}

/// What is logged of a submission whose task was queued.
pub fn queued_note(model: &str) -> (r: RequestNote)
    ensures
        r@ == queued(model@),
{
    RequestNote {
        provider: "trae",
        method: "POST",
        path: "/v1/videos/generations",
        model: model.to_owned(),
        stream: false,
        status: 202,
        account: "queued",
        duration_ms: 0,
        remark: "Seedance native SSE task queued",
    }
}

/// What is to be done next.
#[derive(Debug)]
pub enum VideoAction {
    /// Hand the submission to Core.
    Core,
    /// Take a permit for a submission of that many bytes.
    Limit(KeyLimits, usize),
    /// Take a slot among the video jobs of the key.
    Permit(KeyLimits),
    /// Pick an account with credits for work.
    Pick,
    /// Run the worker of the task, log the submission, and answer.
    Start(NativeWorker, WorkerAction, RequestNote, Reply),
    Answer(Reply),
}

/// The model of a [`VideoAction`].
pub enum VideoActionView {
    Core,
    Limit(KeyLimits, usize),
    Permit(KeyLimits),
    Pick,
    Start(WorkerView, WorkerActionView, NoteView, ReplyView),
    Answer(ReplyView),
}

impl View for VideoAction {
    type V = VideoActionView;

    open spec fn view(&self) -> VideoActionView {
        match self {
            VideoAction::Core => VideoActionView::Core,
            VideoAction::Limit(limits, size) => VideoActionView::Limit(*limits, *size),
            VideoAction::Permit(limits) => VideoActionView::Permit(*limits),
            VideoAction::Pick => VideoActionView::Pick,
            VideoAction::Start(worker, action, note, reply) => VideoActionView::Start(
                worker@,
                action@,
                note@,
                reply@,
            ),
            VideoAction::Answer(reply) => VideoActionView::Answer(reply@),
        }
    }
}

/// A step: the submission after it, whether it is counted, and what is to be
/// done next.
pub struct VideoStepView {
    pub submission: VideoSubmissionView,
    pub counted: bool,
    pub action: VideoActionView,
}

/// A submission of which nothing is known yet.
pub open spec fn blank(input: VideoInputView) -> VideoSubmissionView {
    VideoSubmissionView {
        stage: VideoStage::Over,
        key_id: input.caller.name(),
        limits: access::no_limits(),
        model: Seq::empty(),
        prompt: Seq::empty(),
        replay_key: None,
    }
}

/// The submission is answered.
pub open spec fn answered(
    input: VideoInputView,
    counted: bool,
    reply: ReplyView,
) -> VideoStepView {
    VideoStepView { submission: blank(input), counted, action: VideoActionView::Answer(reply) }
}

/// The first step of a submission; `scoped` is its replay key.
pub open spec fn video_opened(
    s: StateView,
    input: VideoInputView,
    size: usize,
    parsed: Result<JsonView, Seq<char>>,
    scoped: Option<Seq<char>>,
) -> VideoStepView {
    if access::enforcing(input.core) {
        if input.caller.principal is None {
            answered(input, false, core_routes::unauthorized_reply())
        } else {
            VideoStepView {
                submission: blank(input),
                counted: false,
                action: VideoActionView::Core,
            }
        }
    } else {
        match access::admission(input.caller.name(), input.caller.policy, Capability::Video) {
            Err(refusal) => answered(input, false, refusal),
            Ok(limits) => if size > MAX_BODY_BYTES {
                answered(input, true, text_request::too_large(Protocol::OpenAi))
            } else {
                match parsed {
                    Err(error) => answered(
                        input,
                        true,
                        text_request::not_json(Protocol::OpenAi, error),
                    ),
                    Ok(body) => match video_request::accepted(body, input.allow_http) {
                        Err(error) => answered(
                            input,
                            true,
                            text_request::invalid(Protocol::OpenAi, error),
                        ),
                        Ok((model, prompt)) => {
                            let earlier = match scoped {
                                Some(key) => video::replayed(s, key),
                                None => None,
                            };
                            match earlier {
                                Some(task) => answered(
                                    input,
                                    true,
                                    submitted_reply(task, input.caller.name(), true),
                                ),
                                None => VideoStepView {
                                    submission: VideoSubmissionView {
                                        stage: VideoStage::Limiting,
                                        key_id: input.caller.name(),
                                        limits,
                                        model,
                                        prompt,
                                        replay_key: scoped,
                                    },
                                    counted: true,
                                    action: VideoActionView::Limit(limits, size),
                                },
                            }
                        },
                    },
                }
            },
        }
    }
}

/// The event can follow the action that the submission waits for.
pub open spec fn expected(stage: VideoStage, event: VideoEventView) -> bool {
    match stage {
        VideoStage::Limiting => event is Guarded,
        VideoStage::Permitting => event is Guarded,
        VideoStage::Picking => event is Picked,
        VideoStage::Over => false,
    }
}

/// The submission waits for the outcome of an action.
pub open spec fn waits(
    v: VideoSubmissionView,
    s: StateView,
    stage: VideoStage,
    action: VideoActionView,
) -> (VideoSubmissionView, StateView, VideoActionView) {
    (VideoSubmissionView { stage, ..v }, s, action)
}

/// The next step of a submission: a task is created, or found again, only once
/// the permits and an account are there.
pub open spec fn video_step(v: VideoSubmissionView, s: StateView, event: VideoEventView) -> (
    VideoSubmissionView,
    StateView,
    VideoActionView,
) {
    match event {
        VideoEventView::Guarded(failure) => match failure {
            Some(error) => waits(
                v,
                s,
                VideoStage::Over,
                VideoActionView::Answer(reply::limit_reply(error)),
            ),
            None => if v.stage == VideoStage::Limiting {
                waits(v, s, VideoStage::Permitting, VideoActionView::Permit(v.limits))
            } else {
                waits(v, s, VideoStage::Picking, VideoActionView::Pick)
            },
        },
        VideoEventView::Picked(uid, now_ms) => match uid {
            None => waits(
                v,
                s,
                VideoStage::Over,
                VideoActionView::Answer(
                    reply::openai(
                        503,
                        "no_work_credits"@,
                        "没有可用的 Trae Work 账号，或通用积分与 Work 积分均不可用"@,
                    ),
                ),
            ),
            Some(uid) => {
                let (after, made) = video::create_or_replay(
                    s,
                    v.model,
                    v.prompt,
                    v.key_id,
                    v.replay_key,
                    now_ms,
                );
                match made {
                    CreateView::Existing(task) => waits(
                        v,
                        after,
                        VideoStage::Over,
                        VideoActionView::Answer(submitted_reply(task, v.key_id, true)),
                    ),
                    CreateView::Created(task) => {
                        let started = video_native::worker_started(
                            after,
                            task.id,
                            uid,
                            v.key_id,
                            (now_ms / 1000) as u64,
                        );
                        waits(
                            v,
                            started.state,
                            VideoStage::Over,
                            VideoActionView::Start(
                                started.worker,
                                started.action,
                                queued(v.model),
                                submitted_reply(task, v.key_id, false),
                            ),
                        )
                    },
                }
            },
        },
    }
}

/// The model of a first step.
pub open spec fn step_view(r: (VideoSubmission, bool, VideoAction)) -> VideoStepView {
    VideoStepView { submission: r.0@, counted: r.1, action: r.2@ }
}

fn empty(input: &VideoInput) -> (r: VideoSubmission)
    ensures
        r@ == blank(input@),
{
    let r = VideoSubmission {
        stage: VideoStage::Over,
        key_id: input.caller.name(),
        limits: KeyLimits::default(),
        model: String::new(),
        prompt: String::new(),
        replay_key: None,
    };
    assert(r@.model =~= Seq::empty());
    assert(r@.prompt =~= Seq::empty());
    r
}

fn answer(input: &VideoInput, counted: bool, reply: Reply) -> (r: (
    VideoSubmission,
    bool,
    VideoAction,
))
    ensures
        step_view(r) == answered(input@, counted, reply@),
{
    (empty(input), counted, VideoAction::Answer(reply))
}

/// The first step of a submission whose body was read as `parsed` and whose
/// replay key is `scoped`.
pub fn open_video(
    state: &VideoState,
    input: &VideoInput,
    size: usize,
    parsed: Result<Json, String>,
    scoped: Option<String>,
) -> (r: (VideoSubmission, bool, VideoAction))
    ensures
        step_view(r) == video_opened(
            state@,
            input@,
            size,
            outside::result_model(parsed),
            text::opt_view(scoped),
        ),
{
    if access::core_enforcing(input.core) {
        if input.caller.principal.is_none() {
            return answer(
                input,
                false,
                reply::openai_error(401, "unauthorized", "Core Principal required"),
            );
        }
        return (empty(input), false, VideoAction::Core);
    }
    let key_id = input.caller.name();
    let limits = match access::require_legacy_capability(
        key_id.as_str(),
        &input.caller.policy,
        Capability::Video,
    ) {
        Ok(limits) => limits,
        Err(refusal) => {
            return answer(input, false, refusal);
        },
    };
    if size > MAX_BODY_BYTES {
        return answer(input, true, text_request::body_too_large(Protocol::OpenAi));
    }
    let body = match parsed {
        Ok(body) => body,
        Err(error) => {
            return answer(
                input,
                true,
                text_request::no_document(Protocol::OpenAi, error.as_str()),
            );
        },
    };
    let (model, prompt) = match video_request::validate_request(&body, input.allow_http) {
        Ok(accepted) => accepted,
        Err(error) => {
            return answer(
                input,
                true,
                text_request::invalid_request(Protocol::OpenAi, error.as_str()),
            );
        },
    };
    if let Some(key) = &scoped {
        if let Some(task) = video::find_idempotent(state, key.as_str()) {
            return answer(input, true, submitted(&task, key_id.as_str(), true));
        }
    }
    (
        VideoSubmission {
            stage: VideoStage::Limiting,
            key_id,
            limits,
            model,
            prompt,
            replay_key: scoped,
        },
        true,
        VideoAction::Limit(limits, size),
    )
}

/// The first step of a submission.
pub fn videos_generations_with_attribution(
    state: &VideoState,
    input: &VideoInput,
    body: &Vec<u8>,
) -> (r: (VideoSubmission, bool, VideoAction))
    ensures
        step_view(r) == video_opened(
            state@,
            input@,
            body@.len() as usize,
            outside::json_of_bytes(body@),
            replay_key(input@),
        ),
{
    let scoped = scoped_submission_key(input);
    open_video(state, input, body.len(), outside::parse_bytes(body), scoped)
}

/// The next step of a submission.
pub fn submit_video(v: VideoSubmission, state: &mut VideoState, event: VideoEvent) -> (r: (
    VideoSubmission,
    VideoAction,
))
    requires
        expected(v@.stage, event@),
    ensures
        (r.0@, final(state)@, r.1@) == video_step(v@, old(state)@, event@),
{
    let mut v = v;
    match event {
        VideoEvent::Guarded(permit) => match permit {
            Err(error) => {
                v.stage = VideoStage::Over;
                (v, VideoAction::Answer(reply::limit_error_response(&error)))
            },
            Ok(_) => {
                if v.stage == VideoStage::Limiting {
                    v.stage = VideoStage::Permitting;
                    let limits = v.limits;
                    (v, VideoAction::Permit(limits))
                } else {
                    v.stage = VideoStage::Picking;
                    (v, VideoAction::Pick)
                }
            },
        },
        VideoEvent::Picked(uid, now_ms) => {
            v.stage = VideoStage::Over;
            match uid {
                None => (
                    v,
                    VideoAction::Answer(
                        reply::openai_error(
                            503,
                            "no_work_credits",
                            "没有可用的 Trae Work 账号，或通用积分与 Work 积分均不可用",
                        ),
                    ),
                ),
                Some(uid) => {
                    let key = match &v.replay_key {
                        Some(key) => Some(key.as_str()),
                        None => None,
                    };
                    let made = video::create_pending_with_idempotency(
                        state,
                        v.model.clone(),
                        v.prompt.clone(),
                        v.key_id.as_str(),
                        key,
                        now_ms,
                    );
                    match made {
                        IdempotentCreateResult::Existing(task) => {
                            let reply = submitted(&task, v.key_id.as_str(), true);
                            (v, VideoAction::Answer(reply))
                        },
                        IdempotentCreateResult::Created(task) => {
                            let reply = submitted(&task, v.key_id.as_str(), false);
                            let permit = Permit { key_id: v.key_id.clone() };
                            let (worker, action) = video_native::start_native_task(
                                state,
                                task.id,
                                uid,
                                permit,
                                now_ms / 1000,
                            );
                            let note = queued_note(v.model.as_str());
                            (v, VideoAction::Start(worker, action, note, reply))
                        },
                    }
                },
            }
        },
    }
}

/// By which right a video is read.
#[derive(Debug)]
pub enum ReadGate {
    /// By Core, where the caller has the scope `videos:read`.
    Core,
    /// By the policy of the key, under these limits.
    Legacy(KeyLimits),
    Refused(Reply),
}

/// The model of a [`ReadGate`].
pub enum ReadGateView {
    Core,
    Legacy(KeyLimits),
    Refused(ReplyView),
}

impl View for ReadGate {
    type V = ReadGateView;

    open spec fn view(&self) -> ReadGateView {
        match self {
            ReadGate::Core => ReadGateView::Core,
            ReadGate::Legacy(limits) => ReadGateView::Legacy(*limits),
            ReadGate::Refused(reply) => ReadGateView::Refused(reply@),
        }
    }
}

/// By which right a video is read.
pub open spec fn read_gate(caller: CallerView, core: Option<CoreMode>) -> ReadGateView {
    if access::enforcing(core) {
        if caller.principal is None {
            ReadGateView::Refused(core_routes::unauthorized_reply())
        } else {
            ReadGateView::Core
        }
    } else {
        match access::admission(caller.name(), caller.policy, Capability::Video) {
            Ok(limits) => ReadGateView::Legacy(limits),
            Err(refusal) => ReadGateView::Refused(refusal),
        }
    }
}

/// By which right a video is read.
pub fn open_video_read(caller: &Caller, core: Option<CoreMode>) -> (r: ReadGate)
    ensures
        r@ == read_gate(caller@, core),
{
    if access::core_enforcing(core) {
        if caller.principal.is_none() {
            return ReadGate::Refused(
                reply::openai_error(401, "unauthorized", "Core Principal required"),
            );
        }
        return ReadGate::Core;
    }
    match access::require_legacy_capability(
        caller.name().as_str(),
        &caller.policy,
        Capability::Video,
    ) {
        Ok(limits) => ReadGate::Legacy(limits),
        Err(refusal) => ReadGate::Refused(refusal),
    }
}

/// The task of that name, where it belongs to the key.
pub open spec fn own_task(s: StateView, key_id: Seq<char>, task_id: Seq<char>) -> Option<TaskView> {
    match s.task(task_id) {
        Some(task) => if task.owner_key_id == video::owner_of(key_id) {
            Some(task)
        } else {
            None
        },
        None => None,
    }
}

/// The answer with a task; where a copy of its video is kept, the address of
/// the copy is that of the gateway as it runs now.
pub open spec fn task_reply(
    s: StateView,
    key_id: Seq<char>,
    task_id: Seq<char>,
    copied: bool,
    base: Option<Seq<char>>,
) -> ReplyView {
    match own_task(s, key_id, task_id) {
        Some(task) => reply::json_answer(
            200,
            task_document(
                if copied {
                    TaskView { content_url: video_store::content_address(task_id, base), ..task }
                } else {
                    task
                },
            ),
        ),
        None => core_video::no_task(),
    }
}

/// The answer with a task. A task of another key is not told from one that is
/// not there.
pub fn video_task(
    state: &VideoState,
    key_id: &str,
    task_id: &str,
    copied: bool,
    base: Option<&str>,
) -> (r: Reply)
    ensures
        r@ == task_reply(state@, key_id@, task_id@, copied, video_store::setting(base)),
{
    match video::get(state, task_id) {
        Some(task) => {
            if !video::visible_to(&task, key_id) {
                return core_video::task_not_found();
            }
            let mut task = task;
            if copied {
                task.content_url = match video_store::content_url(task_id, base) {
                    Ok(url) => Some(url),
                    Err(_) => None,
                };
            }
            Reply::json(200, task_json(&task))
        },
        None => core_video::task_not_found(),
    }
}

/// The answer to a client that asks for a video: the file, the way to it, or a
/// document.
#[derive(Debug)]
pub enum ContentAnswer {
    /// That status, with these headers and the file at that place.
    File(u16, StoragePath, Table<String>),
    /// That status, with headers that say where the client finds it.
    Redirect(u16, Table<String>),
    Document(Reply),
}

/// The model of a [`ContentAnswer`].
pub enum ContentView {
    File(u16, PathView, Seq<(Seq<char>, Seq<char>)>),
    Redirect(u16, Seq<(Seq<char>, Seq<char>)>),
    Document(ReplyView),
}

impl View for ContentAnswer {
    type V = ContentView;

    open spec fn view(&self) -> ContentView {
        match self {
            ContentAnswer::File(status, path, headers) => ContentView::File(
                *status,
                path@,
                headers@,
            ),
            ContentAnswer::Redirect(status, headers) => ContentView::Redirect(*status, headers@),
            ContentAnswer::Document(reply) => ContentView::Document(reply@),
        }
    }
}

/// The answer where there is no copy of the video.
pub open spec fn no_video() -> ReplyView {
    reply::openai(404, "video_not_found"@, "video artifact not found"@)
}

/// The headers of a video of that size.
pub open spec fn video_headers(size: u64) -> Seq<(Seq<char>, Seq<char>)> {
    table::put(
        table::put(
            table::put(reply::no_headers(), "content-type"@, "video/mp4"@),
            "content-length"@,
            text::decimal(size as nat),
        ),
        "cache-control"@,
        "private, max-age=3600"@,
    )
}

/// The headers that lead to another address.
pub open spec fn redirect_headers(url: Seq<char>) -> Seq<(Seq<char>, Seq<char>)> {
    table::put(
        table::put(reply::no_headers(), "location"@, url),
        "cache-control"@,
        "no-store"@,
    )
}

fn no_video_reply() -> (r: ContentAnswer)
    ensures
        r@ == ContentView::Document(no_video()),
{
    ContentAnswer::Document(
        reply::openai_error(404, "video_not_found", "video artifact not found"),
    )
}

fn video_file(path: StoragePath, size: u64) -> (r: ContentAnswer)
    ensures
        r@ == ContentView::File(200, path@, video_headers(size)),
{
    let mut headers: Table<String> = Table::new();
    headers.insert("content-type", "video/mp4".to_owned());
    headers.insert("content-length", text::decimal_text(size));
    headers.insert("cache-control", "private, max-age=3600".to_owned());
    ContentAnswer::File(200, path, headers)
}

/// The answer to a client that asks for the video of a task. Without a copy
/// the client is led to the upstream's address, where there is one; an address
/// that no header can hold is a failure of the gateway.
pub open spec fn content_answer(
    s: StateView,
    key_id: Seq<char>,
    task_id: Seq<char>,
    data_dir: Seq<char>,
    configured: Option<Seq<char>>,
    size: Option<u64>,
) -> ContentView {
    match own_task(s, key_id, task_id) {
        None => ContentView::Document(core_video::no_task()),
        Some(task) => if !video_store::is_safe_id(task_id) {
            ContentView::Document(no_video())
        } else {
            match size {
                Some(size) => ContentView::File(
                    200,
                    video_store::video_file(data_dir, configured, task_id),
                    video_headers(size),
                ),
                None => match task.video_url {
                    Some(url) => if core_routes::header_text(url) {
                        ContentView::Redirect(307, redirect_headers(url))
                    } else {
                        ContentView::Document(reply::internal_failure())
                    },
                    None => ContentView::Document(no_video()),
                },
            }
        },
    }
}

/// The answer to a client that asks for the video of a task; `size` is the size
/// of its copy, where there is one.
pub fn video_content(
    state: &VideoState,
    key_id: &str,
    task_id: &str,
    data_dir: &str,
    configured: Option<&str>,
    size: Option<u64>,
) -> (r: ContentAnswer)
    ensures
        r@ == content_answer(
            state@,
            key_id@,
            task_id@,
            data_dir@,
            video_store::setting(configured),
            size,
        ),
{
    let task = match video::get(state, task_id) {
        Some(task) => task,
        None => {
            return ContentAnswer::Document(core_video::task_not_found());
        },
    };
    if !video::visible_to(&task, key_id) {
        return ContentAnswer::Document(core_video::task_not_found());
    }
    let path = match video_store::artifact_path(data_dir, configured, task_id) {
        Ok(path) => path,
        Err(_) => {
            return no_video_reply();
        },
    };
    match size {
        Some(size) => video_file(path, size),
        None => match task.video_url {
            Some(url) => {
                if !core_routes::fits_header(url.as_str()) {
                    return ContentAnswer::Document(reply::internal_error_response());
                }
                let mut headers: Table<String> = Table::new();
                headers.insert("location", url);
                headers.insert("cache-control", "no-store".to_owned());
                ContentAnswer::Redirect(307, headers)
            },
            None => no_video_reply(),
        },
    }
}

/// The answer to a client that asks for the video of a job that Core rules.
pub open spec fn core_content_answer(
    found: Result<Option<BundleView>, CoreErrorView>,
    task_id: Seq<char>,
    data_dir: Seq<char>,
    configured: Option<Seq<char>>,
    size: Option<u64>,
) -> ContentView {
    match found {
        Err(error) => ContentView::Document(core_routes::error_reply(error)),
        Ok(None) => ContentView::Document(core_video::no_task()),
        Ok(Some(bundle)) => if bundle.job.artifact_ref != Some(core_video::own_copy(task_id))
            || !video_store::is_safe_id(task_id) {
            ContentView::Document(no_video())
        } else {
            match size {
                Some(size) => ContentView::File(
                    200,
                    video_store::video_file(data_dir, configured, task_id),
                    video_headers(size),
                ),
                None => ContentView::Document(no_video()),
            }
        },
    }
}

/// The answer to a client that asks for the video of a job that Core rules.
pub fn core_video_content(
    found: Result<Option<VideoBundle>, CoreError>,
    task_id: &str,
    data_dir: &str,
    configured: Option<&str>,
    size: Option<u64>,
) -> (r: ContentAnswer)
    ensures
        r@ == core_content_answer(
            core_video::found_view(found),
            task_id@,
            data_dir@,
            video_store::setting(configured),
            size,
        ),
{
    let bundle = match found {
        Err(error) => {
            return ContentAnswer::Document(core_routes::core_error_response(&error));
        },
        Ok(None) => {
            return ContentAnswer::Document(core_video::task_not_found());
        },
        Ok(Some(bundle)) => bundle,
    };
    let own = match &bundle.job.artifact_ref {
        Some(reference) => text::same(
            reference.as_str(),
            text::join2("video-store:", task_id).as_str(),
        ),
        None => false,
    };
    if !own {
        return no_video_reply();
    }
    match video_store::artifact_path(data_dir, configured, task_id) {
        Ok(path) => match size {
            Some(size) => video_file(path, size),
            None => no_video_reply(),
        },
        Err(_) => no_video_reply(),
    }
}

/// What a client sees of a task says nothing of its owner: two tasks that
/// differ in their owner and their replay key alone look the same.
pub proof fn law_a_task_does_not_show_its_owner(
    t: TaskView,
    owner: Seq<char>,
    key: Option<Seq<char>>,
)
    ensures
        task_document(TaskView { owner_key_id: owner, request_key: key, ..t }) == task_document(t),
{
}

/// A task of another key is answered as one that is not there, whether its
/// state or its video is asked for.
pub proof fn law_a_foreign_task_is_not_there(
    s: StateView,
    key_id: Seq<char>,
    task_id: Seq<char>,
    copied: bool,
    base: Option<Seq<char>>,
    data_dir: Seq<char>,
    configured: Option<Seq<char>>,
    size: Option<u64>,
)
    requires
        s.task(task_id) matches Some(task) ==> task.owner_key_id != video::owner_of(key_id),
    ensures
        task_reply(s, key_id, task_id, copied, base) == core_video::no_task(),
        content_answer(s, key_id, task_id, data_dir, configured, size) == ContentView::Document(
            core_video::no_task(),
        ),
{
}

/// A submission that came before is answered with its task; no permit is taken
/// and no account is picked.
pub proof fn law_a_replayed_submission_takes_no_permit(
    s: StateView,
    input: VideoInputView,
    size: usize,
    parsed: Result<JsonView, Seq<char>>,
    key: Seq<char>,
)
    requires
        video::replayed(s, key) is Some,
    ensures
        !(video_opened(s, input, size, parsed, Some(key)).action is Limit),
{
}

} // verus!
