//! What holds of the video jobs that Core rules.

use crate::chat_laws;
use crate::core_cancel::{
    self, CancelActionView, CancelEventView, CancelStageView, CancellationView, TryView,
};
use crate::core_routes;
use crate::core_types::{
    CancelView, CoreErrorView, CoreMode, JobState, JobView, LeaseErrorView, PrincipalView,
    VideoOutcomeView,
};
use crate::core_video::{
    self, BundleView, EnqueuedView, FormView, SubmissionView, SubmitActionView, SubmitEventView,
    SubmitStageView,
};
use crate::json::JsonView;
use crate::reply::{self, ReplyView};
use crate::table;
use crate::text;
use crate::text_chat_laws;
use crate::video::{self, StateView};
use crate::video_payload::{self, EnvelopeView};
use crate::video_request;
use crate::video_routes_laws;
use crate::video_store;
use crate::video_worker::{self, QueueActionView, QueueEventView, QueueStageView, RunView, StepView};
use vstd::prelude::*;

verus! {

/// A client reads of a job its name, its model, how far it came, when, how often
/// it was tried, why it failed, and where its video is.
pub proof fn law_a_client_reads_its_job(b: BundleView)
    ensures
        ({
            let d = core_video::projection(b);
            &&& d.text_at("id"@) == Some(b.job.id)
            &&& d.text_at("object"@) == Some("video"@)
            &&& d.text_at("model"@) == Some(b.job.model)
            &&& d.text_at("status"@) == Some(
                match b.job.state {
                    JobState::Created => "created"@,
                    JobState::Queued => "queued"@,
                    JobState::Running => "running"@,
                    JobState::CancelRequested => "cancel_requested"@,
                    JobState::Canceled => "canceled"@,
                    JobState::Succeeded => "completed"@,
                    JobState::Failed => "failed"@,
                    JobState::Unknown => "unknown"@,
                },
            )
            &&& b.job.created_at_ms >= 0 ==> (d.get("created_at"@) matches Some(at)
                && at.as_signed() == Some((b.job.created_at_ms / 1000) as i64))
            &&& b.job.updated_at_ms >= 0 ==> (d.get("updated_at"@) matches Some(at)
                && at.as_signed() == Some((b.job.updated_at_ms / 1000) as i64))
            &&& b.attempt matches Some(n) ==> (d.get("attempt"@) matches Some(shown)
                && shown.as_signed() == Some(n))
            &&& b.attempt is None ==> d.get("attempt"@) is None
            &&& b.job.error_code matches Some(code) ==> (d.get("error"@) matches Some(error)
                && error.text_at("code"@) == Some(code))
            &&& b.job.error_code is None ==> d.get("error"@) is None
            &&& b.job.reconcile_required ==> d.bool_at("reconcile_required"@) == Some(true)
            &&& !b.job.reconcile_required ==> d.get("reconcile_required"@) is None
            &&& b.copied && b.job.artifact_ref == Some("video-store:"@ + b.job.id) ==> d.text_at(
                "content_url"@,
            ) == video_store::content_address(b.job.id, b.base)
            &&& !b.copied || b.job.artifact_ref != Some("video-store:"@ + b.job.id) ==> d.get(
                "content_url"@,
            ) is None
        }),
{
    broadcast use crate::json::group_members, video_routes_laws::lemma_get_maybe;

    reveal_strlit("id");
    reveal_strlit("object");
    reveal_strlit("model");
    reveal_strlit("status");
    reveal_strlit("created_at");
    reveal_strlit("updated_at");
    reveal_strlit("attempt");
    reveal_strlit("error");
    reveal_strlit("reconcile_required");
    reveal_strlit("content_url");
    reveal_strlit("code");
    assert("id"@.len() == 2);
    assert("object"@.len() == 6);
    assert("model"@.len() == 5);
    assert("status"@.len() == 6);
    assert("created_at"@.len() == 10);
    assert("updated_at"@.len() == 10);
    assert("attempt"@.len() == 7);
    assert("error"@.len() == 5);
    assert("reconcile_required"@.len() == 18);
    assert("content_url"@.len() == 11);
    assert("code"@.len() == 4);
    assert("object"@[0] != "status"@[0]);
    assert("model"@[0] != "error"@[0]);
    assert("created_at"@[0] != "updated_at"@[0]);
}

/// A client that asks for a job is answered with the job in the form that was
/// asked for, and with the name of its request; an error of Core is told, and a
/// job that is not there is not found.
pub proof fn law_a_client_is_answered_with_its_job(b: BundleView, form: FormView, error: CoreErrorView)
    ensures
        ({
            let answer = core_video::job_reply(Ok(Some(b)), form);
            &&& answer.status == form.status
            &&& !form.wrapped ==> answer.body == core_video::projection(b)
            &&& form.wrapped ==> answer.body.get("task"@) == Some(core_video::projection(b))
                && answer.body.bool_at("idempotent_replay"@) == Some(form.replay)
            &&& form.request_id matches Some(id) ==> (core_routes::header_text(id) ==> table::find(
                answer.headers,
                "x-request-id"@,
            ) == Some(id))
        }),
        text_chat_laws::is_error(core_video::job_reply(Ok(None), form), 404, "task_not_found"@),
        core_video::job_reply(Err(error), form) == core_routes::error_reply(error),
{
    broadcast use crate::json::group_members, text_chat_laws::lemma_openai_error;

    reveal_strlit("task");
    reveal_strlit("idempotent_replay");
    assert("task"@.len() == 4);
    assert("idempotent_replay"@.len() == 17);
    if form.request_id is Some {
        table::lemma_find_put(
            table::put(reply::no_headers(), "content-type"@, "application/json"@),
            "x-request-id"@,
            form.request_id->0,
        );
    }
}

/// A submission to Core goes this way and no other: its scope and its body are
/// checked, an executor and the permits are there, its input is kept, the job is
/// queued and claimed, and the adapter is given the job with the very input and
/// model. What fails on the way is told, and a submission that came before is
/// answered with its job.
pub proof fn law_a_job_is_submitted_step_by_step(
    v: SubmissionView,
    s: StateView,
    event: SubmitEventView,
)
    requires
        core_video::expected(v.stage, event),
    ensures
        ({
            let step = core_video::submit_step(v, s, event);
            &&& event matches SubmitEventView::Scoped(false, _, _) ==> (
            step.action matches SubmitActionView::Answer(answer) && text_chat_laws::is_error(
                answer,
                403,
                "insufficient_scope"@,
            ))
            &&& event matches SubmitEventView::Scoped(true, size, parsed) ==> {
                let good = size <= 8 * 1024 * 1024 && parsed is Ok && video_request::accepted(
                    parsed->Ok_0,
                    v.allow_http,
                ) is Ok;
                &&& step.action is FindExecutor == (good && v.idempotency_key is Some)
                &&& step.action is FindExecutor ==> step.submission.body == parsed->Ok_0 && (
                video_request::accepted(parsed->Ok_0, v.allow_http) matches Ok((model, _)) && model
                    == step.submission.model)
                &&& good && v.idempotency_key is None ==> (
                step.action matches SubmitActionView::Answer(answer) && text_chat_laws::is_error(
                    answer,
                    400,
                    "idempotency_key_required"@,
                ))
                &&& size > 8 * 1024 * 1024 ==> (step.action matches SubmitActionView::Answer(answer)
                    && text_chat_laws::is_error(answer, 413, "request_too_large"@))
                &&& size <= 8 * 1024 * 1024 && !good ==> (
                step.action matches SubmitActionView::Answer(answer) && text_chat_laws::is_error(
                    answer,
                    400,
                    "invalid_request_error"@,
                ))
            }
            &&& event == SubmitEventView::Executor(None) ==> step.action is Guard
            &&& event matches SubmitEventView::Executor(Some(error)) ==> step.action
                == SubmitActionView::Answer(core_routes::lease_error_reply(error))
            &&& event == SubmitEventView::Guarded(None) ==> step.action is Permit
            &&& event matches SubmitEventView::Guarded(Some(error)) ==> step.action
                == SubmitActionView::Answer(reply::limit_reply(error))
            &&& event matches SubmitEventView::Permitted(None, now_ms, n) ==> {
                &&& step.action matches SubmitActionView::Keep(job, owner, body)
                &&& job == step.submission.job_id && owner == v.principal.user_id && body == v.body
                &&& job == "video-"@ + reply::signed_text(now_ms) + "-"@ + text::decimal(n as nat)
            }
            &&& event matches SubmitEventView::Permitted(Some(error), _, _) ==> step.action
                == SubmitActionView::Answer(reply::limit_reply(error))
            &&& event == SubmitEventView::Kept(None) && v.idempotency_key is Some ==> step.action
                == SubmitActionView::Enqueue(v.idempotency_key->0, v.body, v.job_id)
            &&& event matches SubmitEventView::Kept(Some(error)) ==> (
            step.action matches SubmitActionView::Answer(answer) && text_chat_laws::is_error(
                answer,
                503,
                "video_payload_unavailable"@,
            ))
            &&& event matches SubmitEventView::Enqueued(Err(error)) ==> step.action
                == SubmitActionView::Answer(core_routes::lease_error_reply(error)) && step.removed
                == Some(v.job_id)
            &&& event matches SubmitEventView::Enqueued(Ok(EnqueuedView::Replay(job, request)))
                ==> step.action == SubmitActionView::Load(job) && step.removed == Some(v.job_id)
                && step.state == s && (step.submission.stage matches SubmitStageView::Loading(form)
                && form.replay && form.status == 202 && form.request_id == Some(request))
            &&& event matches SubmitEventView::Enqueued(Ok(EnqueuedView::Created(job, request)))
                ==> {
                &&& s.holds_permit(job) ==> step.state == s && (
                step.action matches SubmitActionView::Answer(answer) && text_chat_laws::is_error(
                    answer,
                    409,
                    "video_limit_state_conflict"@,
                ))
                &&& !s.holds_permit(job) ==> step.action == SubmitActionView::Claim(
                    "http-video-worker"@,
                    job,
                ) && table::find(step.state.permits, job) == Some(v.principal.key_id)
                    && step.submission.job_id == job && step.submission.request_id == request
                &&& step.removed is None
            }
            &&& event matches SubmitEventView::Claimed(Ok(Some(lease))) ==> step.action
                == SubmitActionView::Submit(v.job_id, v.request_id, v.model, v.body)
                && step.submission.lease_id == lease
            &&& event == SubmitEventView::Claimed(Ok(None)) ==> step.action
                == SubmitActionView::Load(v.job_id)
            &&& event matches SubmitEventView::Claimed(Err(error)) ==> step.action
                == SubmitActionView::Answer(core_routes::lease_error_reply(error))
        }),
{
    broadcast use text_chat_laws::lemma_openai_error;

    if let SubmitEventView::Enqueued(Ok(EnqueuedView::Created(job, _))) = event {
        table::lemma_find_put(s.permits, job, v.principal.key_id);
    }
}

/// What the adapter says of a job is settled as it says it, unless the heartbeat
/// failed; a job that the upstream took is recorded with its reference. A job
/// that ended for certain gives its permit back and leaves no input behind; a
/// refusal is told with its status and code; any other client is answered with
/// the job.
pub proof fn law_a_job_is_settled_with_its_outcome(
    v: SubmissionView,
    s: StateView,
    outcome: VideoOutcomeView,
)
    requires
        v.stage is Submitting,
        s.valid(),
    ensures
        ({
            let told = core_video::submit_step(v, s, SubmitEventView::Submitted(Some(outcome), false));
            let done = core_video::submit_step(told.submission, told.state, SubmitEventView::Done(None));
            &&& told.state == s
            &&& outcome matches VideoOutcomeView::Accepted { upstream_request_ref } ==> {
                &&& told.action == SubmitActionView::RecordAcceptance(
                    v.job_id,
                    upstream_request_ref,
                )
                &&& done.action == SubmitActionView::Load(v.job_id)
                &&& done.state == s && done.removed is None
            }
            &&& !(outcome is Accepted) ==> told.action == SubmitActionView::Settle(
                v.job_id,
                v.lease_id,
                outcome,
            )
            &&& outcome is Succeeded || outcome is Canceled ==> {
                &&& done.action == SubmitActionView::Load(v.job_id)
                &&& !done.state.holds_permit(v.job_id) && done.removed == Some(v.job_id)
            }
            &&& outcome matches VideoOutcomeView::Rejected { status, code, accepted } ==> {
                &&& !accepted ==> {
                    &&& done.action matches SubmitActionView::Answer(answer)
                    &&& text_chat_laws::is_error(
                        answer,
                        if 100 <= status < 1000 {
                            status
                        } else {
                            502
                        },
                        "upstream_error"@,
                    )
                    &&& chat_laws::error_read(answer.body) == Some(code)
                    &&& !done.state.holds_permit(v.job_id) && done.removed == Some(v.job_id)
                }
                &&& accepted ==> done.state == s && done.removed is None && done.action
                    == SubmitActionView::Load(v.job_id)
            }
            &&& outcome is TransportUnknown ==> done.state == s && done.removed is None
                && done.action == SubmitActionView::Load(v.job_id)
            &&& done.action is Load ==> (done.submission.stage matches SubmitStageView::Loading(form)
                && form.status == 202 && !form.replay && form.wrapped && form.request_id == Some(
                v.request_id,
            ))
        }),
{
    broadcast use text_chat_laws::lemma_openai_error;

    table::lemma_find_without(s.permits, v.job_id);
}

/// Where the heartbeat of a job failed, or its adapter broke down, the outcome is
/// settled as unknown, with the reference by which the upstream knows the job.
pub proof fn law_a_lost_job_is_unknown(
    v: SubmissionView,
    s: StateView,
    outcome: VideoOutcomeView,
)
    requires
        v.stage is Submitting,
    ensures
        ({
            let lost = core_video::submit_step(v, s, SubmitEventView::Submitted(Some(outcome), true));
            let broken = core_video::submit_step(v, s, SubmitEventView::Submitted(None, false));
            &&& lost.action matches SubmitActionView::Settle(job, lease, settled)
            &&& job == v.job_id && lease == v.lease_id
            &&& settled matches VideoOutcomeView::TransportUnknown { reason, upstream_request_ref }
            &&& reason == "video_heartbeat_failed"@
            &&& outcome matches VideoOutcomeView::Accepted { upstream_request_ref: r }
                ==> upstream_request_ref == Some(r)
            &&& outcome matches VideoOutcomeView::Succeeded { upstream_request_ref: r, .. }
                ==> upstream_request_ref == r
            &&& outcome is Rejected ==> upstream_request_ref is None
            &&& broken.action matches SubmitActionView::Settle(_, _, other)
            &&& other is TransportUnknown
        }),
{
}

/// A settlement or an acceptance that could not be recorded is told to the
/// client, after the state of the job was looked at: the permit is given back
/// only where the job is found ended.
pub proof fn law_a_failed_settlement_keeps_the_permit(
    v: SubmissionView,
    s: StateView,
    error: LeaseErrorView,
    found: Option<JobState>,
)
    requires
        v.stage is Recording || v.stage is Settling,
        s.valid(),
    ensures
        ({
            let failed = core_video::submit_step(v, s, SubmitEventView::Done(Some(error)));
            let looked = core_video::submit_step(failed.submission, failed.state, SubmitEventView::Looked(found));
            let over = found == Some(JobState::Succeeded) || found == Some(JobState::Failed) || found
                == Some(JobState::Canceled);
            &&& v.stage is Settling ==> failed.action == SubmitActionView::Look(v.job_id)
            &&& v.stage matches SubmitStageView::Recording(reference) ==> (
            failed.action matches SubmitActionView::SettleAndLook(job, lease, outcome) && job
                == v.job_id && lease == v.lease_id && (
            outcome matches VideoOutcomeView::TransportUnknown { upstream_request_ref, .. }
                && upstream_request_ref == Some(reference)))
            &&& looked.action == SubmitActionView::Answer(core_routes::lease_error_reply(error))
            &&& over ==> !looked.state.holds_permit(v.job_id)
            &&& !over ==> looked.state == s
        }),
{
    table::lemma_find_without(s.permits, v.job_id);
}

/// A submission begins with its own caller, key and setting, and waits for the
/// scope.
pub proof fn law_a_submission_begins_as_it_came(
    principal: PrincipalView,
    key: Option<Seq<char>>,
    allow_http: bool,
)
    ensures
        ({
            let v = core_video::opened(principal, key, allow_http);
            &&& v.stage is Scoping && v.principal == principal && v.allow_http == allow_http
            &&& key matches Some(k) ==> (text::trim(k).len() > 0 ==> v.idempotency_key == Some(
                text::trim(k),
            ))
            &&& key is None || text::trim(key->0).len() == 0 ==> v.idempotency_key is None
        }),
{
}

/// A cancellation is for callers that Core knows; it goes from the scope to the
/// request, the lease, the adapter and the settlement. A job that has ended is
/// left alone, and the client is answered with the job in every case but an
/// error.
pub proof fn law_a_cancellation_goes_step_by_step(
    c: CancellationView,
    s: StateView,
    event: CancelEventView,
)
    requires
        core_cancel::expected(c.stage, event),
    ensures
        ({
            let step = core_cancel::cancel_step(c, s, event);
            &&& step.cancellation.task_id == c.task_id
            &&& event == CancelEventView::Scoped(true) ==> step.action == CancelActionView::Request(
                c.task_id,
            )
            &&& event == CancelEventView::Scoped(false) ==> (
            step.action matches CancelActionView::Answer(answer) && text_chat_laws::is_error(
                answer,
                403,
                "insufficient_scope"@,
            ))
            &&& event matches CancelEventView::Requested(Ok(state)) ==> {
                let ended = state == JobState::Canceled || state == JobState::Succeeded || state
                    == JobState::Failed || state == JobState::Unknown;
                &&& ended ==> step.action == CancelActionView::Load(c.task_id) && (
                step.cancellation.stage matches CancelStageView::Loading(form) && form.status == 200)
                &&& !ended ==> step.action == CancelActionView::FindLease(c.task_id)
            }
            &&& event matches CancelEventView::Requested(Err(error)) ==> {
                &&& step.action matches CancelActionView::Answer(answer)
                &&& (error matches LeaseErrorView::Core(CoreErrorView::RequestNotFound(_)))
                    ==> text_chat_laws::is_error(answer, 404, "task_not_found"@)
                &&& !(error matches LeaseErrorView::Core(CoreErrorView::RequestNotFound(_)))
                    ==> answer == core_routes::lease_error_reply(error)
            }
            &&& event == CancelEventView::Leased(Ok(None)) ==> step.action == CancelActionView::Load(
                c.task_id,
            ) && (step.cancellation.stage matches CancelStageView::Loading(form) && form.status
                == 202)
            &&& event matches CancelEventView::Leased(Ok(Some((lease, _)))) ==> step.action
                == CancelActionView::Cancel(lease)
            &&& event matches CancelEventView::Leased(Err(error)) ==> step.action
                == CancelActionView::Answer(core_routes::lease_error_reply(error))
            &&& event matches CancelEventView::Tried(outcome) ==> {
                &&& step.action matches CancelActionView::Settle(job, lease, settled)
                &&& job == c.task_id && lease == c.stage->Canceling_0
                &&& settled is Canceled == (outcome matches TryView::Outcome(confirmed)
                    && confirmed is Confirmed)
                &&& !(settled is Canceled) ==> settled is TransportUnknown
                &&& outcome matches TryView::Outcome(
                    CancelView::Confirmed { upstream_request_ref },
                ) ==> settled == (VideoOutcomeView::Canceled { upstream_request_ref })
                &&& outcome matches TryView::Outcome(
                    CancelView::Unknown { reason, upstream_request_ref },
                ) ==> settled == (VideoOutcomeView::TransportUnknown {
                    reason,
                    upstream_request_ref,
                })
                &&& outcome is NoExecutor || outcome is NoGrant || outcome is TaskBroke ==> (
                settled matches VideoOutcomeView::TransportUnknown { upstream_request_ref, .. }
                    && upstream_request_ref == c.stage->Canceling_1)
            }
            &&& event == CancelEventView::Settled(None) ==> step.action == CancelActionView::Load(
                c.task_id,
            ) && (step.cancellation.stage matches CancelStageView::Loading(form) && form.status
                == 202)
            &&& event == CancelEventView::Settled(None) && c.stage->Settling_0 && s.valid()
                ==> !step.state.holds_permit(c.task_id)
            &&& event == CancelEventView::Settled(None) && !c.stage->Settling_0 ==> step.state == s
            &&& event matches CancelEventView::Settled(Some(error)) ==> step.action
                == CancelActionView::Answer(core_routes::lease_error_reply(error)) && step.state == s
            &&& event matches CancelEventView::Loaded(found) ==> step.action
                == CancelActionView::Answer(core_video::job_reply(found, c.stage->Loading_0))
        }),
{
    broadcast use text_chat_laws::lemma_openai_error;

    if s.valid() {
        table::lemma_find_without(s.permits, c.task_id);
    }
}

/// Only where Core rules, and only for a caller that it knows, is a job
/// canceled.
pub proof fn law_only_core_cancels(
    core: Option<CoreMode>,
    principal: Option<PrincipalView>,
    task_id: Seq<char>,
)
    ensures
        ({
            let (c, action) = core_cancel::cancel_opened(core, principal, task_id);
            let rules = core == Some(CoreMode::Enforce);
            &&& c.task_id == task_id
            &&& rules && principal is Some ==> action == CancelActionView::CheckScope(
                "videos:cancel"@,
            ) && c.stage is Scoping
            &&& !rules ==> (action matches CancelActionView::Answer(answer)
                && text_chat_laws::is_error(answer, 501, "scheduler_endpoint_not_enabled"@))
            &&& rules && principal is None ==> (action matches CancelActionView::Answer(answer)
                && text_chat_laws::is_error(answer, 401, "unauthorized"@))
        }),
{
    broadcast use text_chat_laws::lemma_openai_error;

}

/// A worker of the queue claims a job under its own name, makes sure of its
/// owner, reads the input that was kept for that very job, owner and digest, and
/// hands the adapter the job with that input.
pub proof fn law_a_queued_job_is_executed_with_its_input(
    worker: Seq<char>,
    r: RunView,
    event: QueueEventView,
)
    requires
        video_worker::expected(r.stage, event),
    ensures
        ({
            let (next, action) = video_worker::queue_step(worker, r, event);
            &&& event == QueueEventView::Ready(None) ==> action == QueueActionView::Claim(worker)
            &&& event matches QueueEventView::Ready(Some(error)) ==> action == QueueActionView::Fail(
                error,
            )
            &&& event matches QueueEventView::Claimed(Ok(Some((job, lease)))) ==> {
                &&& action == QueueActionView::FindOwner(job.id)
                &&& next.job_id == job.id && next.user_id == job.user_id && next.request_id
                    == job.request_id
                &&& next.model == job.model && next.input_hash == job.input_hash && next.lease_id
                    == lease
            }
            &&& event == QueueEventView::Claimed(Ok(None)) ==> action == QueueActionView::Finish(
                StepView::Idle,
                None,
            )
            &&& event matches QueueEventView::Claimed(Err(error)) ==> action
                == QueueActionView::Fail(error)
            &&& event == QueueEventView::Owner(Ok(true)) ==> action == QueueActionView::ReadPayload(
                r.job_id,
                r.user_id,
                r.input_hash,
            )
            &&& event == QueueEventView::Owner(Ok(false)) ==> action is Fail
            &&& event matches QueueEventView::Owner(Err(error)) ==> action == QueueActionView::Fail(
                error,
            )
            &&& event matches QueueEventView::Payload(Ok(Some(body))) ==> action
                == QueueActionView::Submit(r.job_id, r.request_id, r.model, body)
            &&& event matches QueueEventView::Submitted(outcome, false) ==> (
            match outcome {
                VideoOutcomeView::Accepted { upstream_request_ref } => action
                    == QueueActionView::RecordAcceptance(r.job_id, upstream_request_ref),
                _ => action == QueueActionView::Settle(r.job_id, r.lease_id, outcome),
            })
            &&& event matches QueueEventView::Done(Some(error)) ==> action == QueueActionView::Fail(
                error,
            )
            &&& event == QueueEventView::Done(None) ==> match r.stage {
                QueueStageView::Accepting(reference) => action == QueueActionView::Finish(
                    StepView::Accepted { job_id: r.job_id, upstream_request_ref: reference },
                    None,
                ),
                QueueStageView::Settling(outcome) => {
                    &&& action matches QueueActionView::Finish(step, _)
                    &&& match outcome {
                        VideoOutcomeView::TransportUnknown { reason, .. } => step == (
                        StepView::Unknown { job_id: r.job_id, reason }),
                        VideoOutcomeView::Succeeded { .. } => step == (StepView::Settled {
                            job_id: r.job_id,
                            state: "succeeded"@,
                        }),
                        VideoOutcomeView::Canceled { .. } => step == (StepView::Settled {
                            job_id: r.job_id,
                            state: "canceled"@,
                        }),
                        VideoOutcomeView::Rejected { accepted, .. } => step == (StepView::Settled {
                            job_id: r.job_id,
                            state: if accepted {
                                "unknown"@
                            } else {
                                "failed"@
                            },
                        }),
                        VideoOutcomeView::Accepted { .. } => true,
                    }
                },
                _ => true,
            }
            &&& !(event is Claimed) ==> next.job_id == r.job_id && next.lease_id == r.lease_id
        }),
{
}

/// An input is kept exactly where its job, its owner and its digest may be
/// names of files and people and a digest.
pub proof fn law_an_input_is_kept_under_valid_names(
    job_id: Seq<char>,
    user_id: Seq<char>,
    input_hash: Seq<u8>,
)
    ensures
        video_payload::fault_of(job_id, user_id, input_hash) is None == (job_id.len() > 0
            && text::byte_len(job_id) <= 128 && video_store::plain_name(job_id) && text::trim(
            user_id,
        ).len() > 0 && text::byte_len(user_id) <= 256 && (forall|i: int|
            0 <= i < user_id.len() ==> !((#[trigger] user_id[i] as int) < 32 || 127
                <= user_id[i] as int <= 159)) && input_hash.len() == 32),
{
    assert(forall|i: int|
        0 <= i < user_id.len() ==> video_payload::is_control(#[trigger] user_id[i]) == ((
        user_id[i] as int) < 32 || 127 <= user_id[i] as int <= 159));
    if video_payload::valid_owner(user_id) {
        assert forall|i: int| 0 <= i < user_id.len() implies !((#[trigger] user_id[i] as int) < 32
            || 127 <= user_id[i] as int <= 159) by {
            assert(!video_payload::is_control(user_id[i]));
        }
    }
}

/// What is read back is refused where it is too large, cannot be read, or is of
/// another version.
pub proof fn law_what_is_read_back_is_checked(size: nat, envelope: Option<EnvelopeView>)
    ensures
        video_payload::read_fault(size, envelope) is None == (size <= 8 * 1024 * 1024 && (
        envelope matches Some(e) && e.version == 1 && e.job_id.len() > 0 && e.input_hash.len()
            == 32)),
{
}

/// A run that is idle knows of no job.
pub proof fn law_an_idle_run_knows_of_no_job()
    ensures
        ({
            let run = video_worker::idle_run();
            &&& run.stage is Starting && run.job_id.len() == 0 && run.user_id.len() == 0
            &&& run.request_id.len() == 0 && run.model.len() == 0 && run.input_hash.len() == 0
            &&& run.lease_id.len() == 0
        }),
{
}

} // verus!
