//! Answers, admission, settlement and the workers of Core.

use aiwork_gateway::access::{
    allowed_accounts, read_header, require_legacy_capability, Capability, KeyLimits, ResolvedKey,
};
use aiwork_gateway::asset_routes::asset_security_headers;
use aiwork_gateway::core_cancel::{
    open_cancellation, video_cancel, CancelAction, CancelEvent, CancelTry,
};
use aiwork_gateway::core_routes::{
    core_error_response, core_health_category, core_lease_error_response,
    core_replay_response_for, scheduler_endpoint_not_enabled_response, settle_core_outcome,
    settle_core_response, with_core_request_id,
};
use aiwork_gateway::core_types::{
    ChatOutcome, CoreError, CoreJob, CoreLeaseError, CoreMode, JobState, LeaseState, Principal,
    RequestResult, RequestState, ScheduleError, UpstreamOutcome, VideoAdapterOutcome,
    VideoCancelOutcome,
};
use aiwork_gateway::core_video::{
    core_videos_generations, open_submission, submission_scoped, whole_seconds, Enqueued, SubmitAction, SubmitEvent,
    VideoBundle,
};
use aiwork_gateway::json::Json;
use aiwork_gateway::outside;
use aiwork_gateway::pool_routes::{healthz_payload, public_health_payload};
use aiwork_gateway::reply::{
    anthropic_error, internal_error_response, limit_error_response, openai_error, safe_slice,
    send_stream_error, valid_status, LimitError, Protocol, Reply,
};
use aiwork_gateway::trae_resource_upload::NativeUploadError;
use aiwork_gateway::video::VideoState;
use aiwork_gateway::video_request::{asset_read_error, asset_upload_error};
use aiwork_gateway::video_routes::{core_video_content, ContentAnswer};
use aiwork_gateway::video_worker::{
    outcome_request_ref, releases_payload, terminal_state, trust_outcome, QueueAction, QueueEvent,
    VideoQueueWorker, VideoWorkerStep,
};

fn doc(text: &str) -> Json {
    outside::parse_text(text).unwrap()
}

fn code(reply: &Reply) -> String {
    reply.body.get("error").unwrap().str_at("code").unwrap().to_string()
}

#[test]
fn core_health_category_normalizes_credit_and_rate_error_labels() {
    for (label, expected) in [
        ("HardCredit", "hard_credit"),
        ("hard_credit", "hard_credit"),
        ("hard-credit", "hard_credit"),
        ("PlanLimit", "plan_limit"),
        ("plan_limit", "plan_limit"),
        ("SoftRate", "soft_rate"),
        ("soft_rate", "soft_rate"),
    ] {
        let outcome = UpstreamOutcome::Rejected {
            status: 400,
            code: label.into(),
            accepted: false,
        };
        assert_eq!(core_health_category(&outcome), expected, "label {label}");
    }
}

#[test]
fn core_503_response_settles_unknown() {
    let answer = openai_error(503, "upstream_error", "upstream unavailable");
    assert_eq!(answer.status, 503);
    assert!(matches!(settle_core_response(&answer, 1), ChatOutcome::Disconnected));
    let refused = openai_error(400, "bad", "bad");
    assert!(matches!(settle_core_response(&refused, 1), ChatOutcome::Rejected(400)));
    let doubtful = refused.with_header("x-aiwork-core-outcome", "unknown");
    assert!(matches!(settle_core_response(&doubtful, 1), ChatOutcome::Disconnected));
}

#[test]
fn core_disconnect_settles_unknown() {
    let answer = openai_error(502, "upstream_error", "disconnected");
    assert!(matches!(settle_core_response(&answer, 1), ChatOutcome::Disconnected));
    let told = settle_core_outcome(answer, "request-1", Ok(()));
    assert_eq!(told.status, 502);
}

#[test]
fn upstream_usage_does_not_set_core_actual_amount() {
    let answer = Reply::json(200, doc(r#"{"usage":{"total_tokens":0}}"#));
    assert!(matches!(settle_core_response(&answer, 1), ChatOutcome::Success(200, None)));
    let stated = Reply::json(200, Json::Null).with_header("x-aiwork-core-actual-amount", "1");
    assert!(matches!(settle_core_response(&stated, 1), ChatOutcome::Success(200, Some(1))));
    assert!(matches!(settle_core_response(&stated, 0), ChatOutcome::Success(200, None)));
}

#[test]
fn public_health_payload_contains_liveness_only() {
    let payload = public_health_payload();
    assert_eq!(payload.str_at("status"), Some("ok"));
    assert_eq!(payload.bool_at("running"), Some(true));
    for sensitive in ["pool", "active_uid", "last_error", "total_requests", "wb"] {
        assert!(payload.get(sensitive).is_none(), "public health leaked {sensitive}");
    }
}

#[test]
fn public_healthz_payload_contains_liveness_only() {
    let (status, payload) = healthz_payload(true, false, false);
    assert_eq!(status, 200);
    assert_eq!(payload.str_at("status"), Some("ok"));
    assert_eq!(payload.bool_at("running"), Some(true));
    for sensitive in ["pool", "solo_available", "wb_available", "total_credits"] {
        assert!(payload.get(sensitive).is_none(), "public healthz leaked {sensitive}");
    }
    let (status, payload) = healthz_payload(false, false, false);
    assert_eq!(status, 503);
    assert_eq!(payload.str_at("status"), Some("unavailable"));
    assert_eq!(healthz_payload(false, true, true).0, 200);
    assert_eq!(healthz_payload(false, false, true).0, 503);
}

#[test]
fn asset_response_security_headers_are_non_cacheable() {
    let headers = asset_security_headers();
    assert_eq!(headers[0], ("cache-control", "no-store"));
    assert_eq!(headers[1], ("referrer-policy", "no-referrer"));
    assert_eq!(headers[2], ("x-content-type-options", "nosniff"));
}

#[test]
fn rate_limit_error_contains_retry_after() {
    let response = limit_error_response(&LimitError {
        code: "video_rate_limited".into(),
        message: "too many".into(),
        retry_after_secs: 60,
    });
    assert_eq!(response.status, 429);
    assert_eq!(response.headers.get("retry-after").map(String::as_str), Some("60"));
}

#[test]
fn safe_slice_cuts_on_char_boundary() {
    assert_eq!(safe_slice("hello world", 5), "hello");
    assert_eq!(safe_slice("abc", 100), "abc");
    assert_eq!(safe_slice("abc", 3), "abc");
    assert_eq!(safe_slice("中文", 0), "");
}

#[test]
fn safe_slice_never_returns_overlong_or_panics() {
    let s = format!("{}{}", "a".repeat(199), "中文中文中文");
    let out = safe_slice(&s, 200);
    assert!(out.len() <= 200, "输出不得超过 n 字节");
    assert_eq!(out.len(), 199, "应回退到最近字符边界（199 处）");
    assert_eq!(safe_slice("中文", 1), "");
    assert_eq!(safe_slice("中文", 2), "");
    assert_eq!(safe_slice("中文", 3), "中");
    let body = "上游错误：{\"code\":1005,\"message\":\"套餐额度用尽\"}";
    for n in 0..=body.len() {
        let out = safe_slice(body, n);
        assert!(out.len() <= n);
        assert!(body.starts_with(out));
    }
}

#[test]
fn heartbeat_failure_preserves_only_a_safe_upstream_reference() {
    assert_eq!(
        outcome_request_ref(&VideoAdapterOutcome::Accepted {
            upstream_request_ref: "upstream-1".into(),
        }),
        Some("upstream-1".into())
    );
    assert_eq!(
        outcome_request_ref(&VideoAdapterOutcome::Succeeded {
            actual_units: Some(1),
            upstream_request_ref: Some("upstream-2".into()),
            output_ref: Some("jobs/output".into()),
            artifact_ref: None,
        }),
        Some("upstream-2".into())
    );
    assert_eq!(
        outcome_request_ref(&VideoAdapterOutcome::Rejected {
            status: 502,
            code: "upstream".into(),
            accepted: false,
        }),
        None
    );
}

#[test]
fn only_confirmed_terminal_outcomes_release_protected_payload() {
    assert!(releases_payload(&VideoAdapterOutcome::Succeeded {
        actual_units: Some(1),
        upstream_request_ref: Some("upstream".into()),
        output_ref: Some("jobs/output".into()),
        artifact_ref: None,
    }));
    assert!(releases_payload(&VideoAdapterOutcome::Canceled {
        upstream_request_ref: Some("upstream".into()),
    }));
    assert!(releases_payload(&VideoAdapterOutcome::Rejected {
        status: 400,
        code: "invalid".into(),
        accepted: false,
    }));
    assert!(!releases_payload(&VideoAdapterOutcome::Accepted {
        upstream_request_ref: "upstream".into(),
    }));
    assert!(!releases_payload(&VideoAdapterOutcome::TransportUnknown {
        reason: "timeout".into(),
        upstream_request_ref: None,
    }));
}

fn policy(id: &str, capabilities: &[&str], limits: KeyLimits) -> Option<ResolvedKey> {
    Some(ResolvedKey {
        id: id.into(),
        capabilities: capabilities.iter().map(|s| s.to_string()).collect(),
        limits,
        allowed_accounts: vec!["uid-1".into(), "uid-2".into()],
        schedule_mode: "dedicated".into(),
        dedicated_account: String::new(),
    })
}

#[test]
fn legacy_handlers_use_the_persisted_policy_without_defaulting_authenticated_keys() {
    let limits = KeyLimits {
        max_inflight: Some(2),
        max_video_jobs: None,
        asset_uploads_per_minute: None,
        asset_bytes_per_hour: None,
        video_submissions_per_minute: None,
        daily_requests: 3,
        daily_tokens: 7,
    };
    let key = policy("key-1", &["chat"], limits);
    assert_eq!(require_legacy_capability("key-1", &key, Capability::Chat).unwrap(), limits);
    let missing = require_legacy_capability("key-1", &key, Capability::Video).unwrap_err();
    assert_eq!(missing.status, 403);
    assert_eq!(
        require_legacy_capability("anonymous", &None, Capability::Chat).unwrap(),
        KeyLimits::default()
    );
    assert_eq!(require_legacy_capability("key-1", &None, Capability::Chat).unwrap_err().status, 500);
    assert_eq!(require_legacy_capability("key-2", &key, Capability::Chat).unwrap_err().status, 500);
}

#[test]
fn anonymous_legacy_video_capability_requires_an_api_key() {
    let response = require_legacy_capability("anonymous", &None, Capability::Video)
        .expect_err("anonymous callers must not access legacy video endpoints");
    assert_eq!(response.status, 401);
}

#[test]
fn a_key_is_bound_to_its_accounts() {
    let rule = allowed_accounts(&policy("k", &[], KeyLimits::default()), "dedicated");
    assert_eq!(rule.allowed.unwrap(), vec!["uid-1".to_string(), "uid-2".to_string()]);
    assert_eq!(rule.dedicated.as_deref(), Some("uid-1"));
    let other = allowed_accounts(&policy("k", &[], KeyLimits::default()), "shared");
    assert!(other.dedicated.is_none());
    assert!(allowed_accounts(&None, "dedicated").allowed.is_none());
}

#[test]
fn headers_are_trimmed_and_blank_ones_ignored() {
    assert_eq!(read_header(&Some("  k ".into())).as_deref(), Some("k"));
    assert_eq!(read_header(&Some("   ".into())), None);
    assert_eq!(read_header(&None), None);
}

#[test]
fn errors_keep_the_form_of_their_protocol() {
    let openai = openai_error(400, "bad", "no");
    assert_eq!(openai.status, 400);
    assert_eq!(code(&openai), "bad");
    let anthropic = anthropic_error(429, "rate_limit_error", "slow");
    assert_eq!(anthropic.body.str_at("type"), Some("error"));
    assert_eq!(anthropic.body.get("error").unwrap().str_at("message"), Some("slow"));
    assert_eq!(internal_error_response().status, 500);
    assert_eq!(valid_status(700, 502), 700);
    assert_eq!(valid_status(1, 502), 502);
    assert_eq!(valid_status(1000, 400), 400);
    let event = send_stream_error(Protocol::Responses, -7, "x", 12);
    assert_eq!(event.event.as_deref(), Some("response.failed"));
    let response = event.document.get("response").unwrap();
    assert_eq!(response.str_at("id"), Some("resp_12"));
    assert_eq!(response.get("error").unwrap().str_at("code"), Some("-7"));
    assert!(send_stream_error(Protocol::OpenAi, 1, "x", 0).end_mark);
    assert!(!send_stream_error(Protocol::Anthropic, 1, "x", 0).end_mark);
}

#[test]
fn every_error_of_core_has_its_answer() {
    for (error, status) in [
        (CoreError::MissingScope("chat:invoke".into()), 403),
        (CoreError::BudgetPolicyMissing, 503),
        (CoreError::QuotaInsufficient, 402),
        (CoreError::IdempotencyConflict, 409),
        (CoreError::InvalidRequestIdentity, 400),
    ] {
        let reply = core_error_response(&error);
        assert!(reply.status >= 400, "{error:?}");
        if status == 409 || status == 403 {
            assert_eq!(reply.status, status, "{error:?}");
        }
    }
    let none = core_lease_error_response(&CoreLeaseError::EndpointNotEnabled);
    assert_eq!(code(&none), code(&scheduler_endpoint_not_enabled_response()));
    let capacity =
        core_lease_error_response(&CoreLeaseError::Schedule(ScheduleError::NoUpstreamCapacity));
    assert!(capacity.status >= 400);
}

#[test]
fn a_replay_of_a_failed_or_unknown_request_is_no_success() {
    let failed = core_replay_response_for(
        "r-1",
        RequestState::Failed,
        &Some(RequestResult { status: Some(502), error_code: Some("upstream".into()) }),
        None,
    );
    assert!(failed.status >= 400);
    let unknown = core_replay_response_for("r-1", RequestState::Unknown, &None, None);
    assert!(unknown.status >= 400);
    let succeeded = core_replay_response_for(
        "r-1",
        RequestState::Succeeded,
        &Some(RequestResult { status: Some(200), error_code: None }),
        Some(LeaseState::Succeeded),
    );
    assert_eq!(succeeded.status, 200);
}

#[test]
fn request_ids_are_shown_where_a_header_can_hold_them() {
    let reply = with_core_request_id(Reply::json(200, Json::Null), "r-1");
    assert_eq!(reply.headers.get("x-request-id").map(String::as_str), Some("r-1"));
    let odd = with_core_request_id(Reply::json(200, Json::Null), "r\n1");
    assert!(odd.headers.get("x-request-id").is_none());
}

fn job(state: JobState) -> CoreJob {
    CoreJob {
        id: "job-1".into(),
        user_id: "user-1".into(),
        request_id: "request-1".into(),
        model: "seedance".into(),
        state,
        input_hash: vec![1; 32],
        created_at_ms: 1000,
        updated_at_ms: 2999,
        error_code: None,
        reconcile_required: false,
        artifact_ref: None,
    }
}

fn bundle(state: JobState) -> VideoBundle {
    VideoBundle { job: job(state), attempt: Some(1), copied: false, base: None }
}

fn principal() -> Principal {
    Principal { user_id: "user-1".into(), key_id: "key-1".into() }
}

#[test]
fn durable_mock_worker_claims_persisted_payload_and_settles_once() {
    let worker = VideoQueueWorker::new("worker-1");
    let run = worker.start();
    let (run, action) = worker.run_once(run, QueueEvent::Ready(Ok(())));
    assert!(matches!(action, QueueAction::Claim(name) if name == "worker-1"));
    let claimed = Ok(Some((job(JobState::Running), "lease-1".to_string())));
    let (run, action) = worker.run_once(run, QueueEvent::Claimed(claimed));
    assert!(matches!(action, QueueAction::FindOwner(_)));
    let (run, action) = worker.run_once(run, QueueEvent::Owner(Ok(true)));
    assert!(matches!(
        action,
        QueueAction::ReadPayload(id, user, _) if id == "job-1" && user == "user-1"
    ));
    let (run, action) = worker.run_once(run, QueueEvent::Payload(Ok(Some(doc("{}")))));
    assert!(matches!(action, QueueAction::Submit(..)));
    let outcome = VideoAdapterOutcome::Succeeded {
        actual_units: Some(1),
        upstream_request_ref: Some("up-1".into()),
        output_ref: None,
        artifact_ref: None,
    };
    let (run, action) = worker.run_once(run, QueueEvent::Submitted(outcome, false));
    assert!(matches!(action, QueueAction::Settle(..)));
    let (_, action) = worker.run_once(run, QueueEvent::Done(Ok(())));
    let QueueAction::Finish(step, removed) = action else {
        panic!("the run is over");
    };
    assert!(matches!(step, VideoWorkerStep::Settled { state: "succeeded", .. }));
    assert_eq!(removed.as_deref(), Some("job-1"));
}

#[test]
fn durable_worker_missing_payload_becomes_unknown_without_releasing_hold() {
    let worker = VideoQueueWorker::new("mock-worker-missing-payload");
    let (run, _) = worker.run_once(worker.start(), QueueEvent::Ready(Ok(())));
    let mut waiting = job(JobState::Running);
    waiting.id = "worker-missing-payload-job".into();
    let claimed = Ok(Some((waiting, "lease-1".to_string())));
    let (run, _) = worker.run_once(run, QueueEvent::Claimed(claimed));
    let (run, _) = worker.run_once(run, QueueEvent::Owner(Ok(true)));
    let (run, action) = worker.run_once(run, QueueEvent::Payload(Ok(None)));
    let QueueAction::Settle(settled, lease, outcome) = action else {
        panic!("the job is settled");
    };
    assert_eq!((settled.as_str(), lease.as_str()), ("worker-missing-payload-job", "lease-1"));
    let VideoAdapterOutcome::TransportUnknown { reason, upstream_request_ref } = outcome else {
        panic!("the outcome is unknown");
    };
    assert_eq!(reason, "video_payload_missing");
    assert!(upstream_request_ref.is_none());
    let (_, action) = worker.run_once(run, QueueEvent::Done(Ok(())));
    let QueueAction::Finish(VideoWorkerStep::Unknown { job_id, reason }, released) = action else {
        panic!("the run is over");
    };
    assert_eq!(job_id, "worker-missing-payload-job");
    assert_eq!(reason, "video_payload_missing");
    assert!(released.is_none());
}

#[test]
fn an_idle_queue_ends_the_run() {
    let worker = VideoQueueWorker::new("worker-1");
    let (run, _) = worker.run_once(worker.start(), QueueEvent::Ready(Ok(())));
    let (_, action) = worker.run_once(run, QueueEvent::Claimed(Ok(None)));
    assert!(matches!(action, QueueAction::Finish(VideoWorkerStep::Idle, None)));
    let (_, action) = worker.run_once(worker.start(), QueueEvent::Ready(Err("db".into())));
    assert!(matches!(action, QueueAction::Fail(message) if message == "db"));
}

#[test]
fn a_failed_heartbeat_makes_the_outcome_unknown() {
    let outcome = VideoAdapterOutcome::Succeeded {
        actual_units: Some(1),
        upstream_request_ref: Some("up-1".into()),
        output_ref: None,
        artifact_ref: None,
    };
    assert_eq!(terminal_state(&outcome), "succeeded");
    let trusted = trust_outcome(outcome, true);
    assert!(matches!(
        trusted,
        VideoAdapterOutcome::TransportUnknown { upstream_request_ref: Some(r), .. } if r == "up-1"
    ));
}

#[test]
fn core_video_without_adapter_returns_501_before_any_persistent_write() {
    let mut state = VideoState::new();
    let (v, action) = open_submission(principal(), &Some("key".into()), false);
    assert!(matches!(action, SubmitAction::CheckScope(_)));
    let body = doc(r#"{"prompt":"cat"}"#);
    let (v, _, action) =
        core_videos_generations(v, &mut state, SubmitEvent::Scoped(true, 20, Ok(body)));
    assert!(matches!(action, SubmitAction::FindExecutor));
    let none = SubmitEvent::Executor(Err(CoreLeaseError::EndpointNotEnabled));
    let (_, _, action) = core_videos_generations(v, &mut state, none);
    let SubmitAction::Answer(reply) = action else {
        panic!("the request is answered");
    };
    assert_eq!(reply.status, 501);
}

#[test]
fn core_video_submission_is_persistent_running_and_idempotent() {
    let mut state = VideoState::new();
    let (v, _) = open_submission(principal(), &Some("key".into()), false);
    let body = doc(r#"{"prompt":"cat"}"#);
    let (v, _, _) = core_videos_generations(v, &mut state, SubmitEvent::Scoped(true, 20, Ok(body)));
    let (v, _, action) = core_videos_generations(v, &mut state, SubmitEvent::Executor(Ok(())));
    assert!(matches!(action, SubmitAction::Guard));
    let (v, _, action) = core_videos_generations(v, &mut state, SubmitEvent::Guarded(Ok(())));
    assert!(matches!(action, SubmitAction::Permit));
    let (v, _, action) =
        core_videos_generations(v, &mut state, SubmitEvent::Permitted(Ok(()), 1000, 7));
    assert!(matches!(action, SubmitAction::Keep(..)));
    let (v, _, action) = core_videos_generations(v, &mut state, SubmitEvent::Kept(Ok(())));
    assert!(matches!(action, SubmitAction::Enqueue(..)));
    let replay = Enqueued::Replay("job-0".into(), "request-0".into());
    let (_, removed, action) =
        core_videos_generations(v, &mut state, SubmitEvent::Enqueued(Ok(replay)));
    assert!(removed.is_some());
    assert!(matches!(action, SubmitAction::Load(id) if id == "job-0"));
}

#[test]
fn core_video_confirmed_cancel_releases_hold_once() {
    let mut state = VideoState::new();
    let (c, action) =
        open_cancellation(Some(CoreMode::Enforce), &Some(principal()), "job-1");
    assert!(matches!(action, CancelAction::CheckScope(_)));
    let (c, action) = video_cancel(c, &mut state, CancelEvent::Scoped(true));
    assert!(matches!(action, CancelAction::Request(id) if id == "job-1"));
    let (c, action) =
        video_cancel(c, &mut state, CancelEvent::Requested(Ok(JobState::CancelRequested)));
    assert!(matches!(action, CancelAction::FindLease(_)));
    let leased = CancelEvent::Leased(Ok(Some(("lease-1".into(), Some("up-1".into())))));
    let (c, action) = video_cancel(c, &mut state, leased);
    assert!(matches!(action, CancelAction::Cancel(_)));
    let confirmed = VideoCancelOutcome::Confirmed { upstream_request_ref: Some("up-1".into()) };
    let (c, action) =
        video_cancel(c, &mut state, CancelEvent::Tried(CancelTry::Outcome(confirmed)));
    assert!(matches!(
        action,
        CancelAction::Settle(_, _, VideoAdapterOutcome::Canceled { .. })
    ));
    let (c, action) = video_cancel(c, &mut state, CancelEvent::Settled(Ok(())));
    assert!(matches!(action, CancelAction::Load(_)));
    let (_, action) =
        video_cancel(c, &mut state, CancelEvent::Loaded(Ok(Some(bundle(JobState::Canceled)))));
    assert!(matches!(action, CancelAction::Answer(reply) if reply.status == 202));
}

#[test]
fn seconds_are_whole() {
    assert_eq!(whole_seconds(2999), 2);
    assert_eq!(whole_seconds(-2999), -2);
    assert_eq!(whole_seconds(0), 0);
}

#[test]
fn a_protocol_has_its_path() {
    assert_eq!(Protocol::OpenAi.log_path(), "/v1/chat/completions");
    assert_eq!(Protocol::OpenAiText.log_path(), "/v1/completions");
    assert_eq!(Protocol::Anthropic.log_path(), "/v1/messages");
    assert_eq!(Protocol::Responses.log_path(), "/v1/responses");
}

#[test]
fn material_errors_name_the_material() {
    let read = asset_read_error("参考图", "asset-1", "素材不存在");
    assert_eq!(read.message, "参考图素材 asset-1 无法读取：素材不存在");
    assert!(!read.retryable_account);
    let upload = asset_upload_error("参考图", "asset-1", NativeUploadError::new("超时".into(), true));
    assert_eq!(upload.message, "参考图素材 asset-1 原生上传失败：超时");
    assert!(upload.retryable_account);
}

#[test]
fn core_hands_out_its_own_copy_alone() {
    let id = job(JobState::Succeeded).id;
    let mut own = bundle(JobState::Succeeded);
    own.job.artifact_ref = Some(format!("video-store:{id}"));
    match core_video_content(Ok(Some(own)), &id, "/srv", None, Some(7)) {
        ContentAnswer::File(status, path, headers) => {
            assert_eq!(status, 200);
            assert_eq!(path.root, "/srv");
            assert_eq!(path.parts, vec!["data", "videos", &format!("{id}.mp4")]);
            assert_eq!(headers.get("content-length").map(|v| v.as_str()), Some("7"));
        }
        _ => panic!("the copy is there"),
    }
    let mut foreign = bundle(JobState::Succeeded);
    foreign.job.artifact_ref = Some("video-store:another".into());
    assert!(matches!(
        core_video_content(Ok(Some(foreign)), &id, "/srv", None, Some(7)),
        ContentAnswer::Document(Reply { status: 404, .. })
    ));
    assert!(matches!(
        core_video_content(Ok(None), &id, "/srv", None, Some(7)),
        ContentAnswer::Document(Reply { status: 404, .. })
    ));
}

#[test]
fn a_submission_reads_its_body() {
    let mut state = VideoState::new();
    let open = || open_submission(principal(), &Some("key".into()), false).0;
    let body = br#"{"prompt":"cat"}"#.to_vec();
    let (_, _, action) = submission_scoped(open(), &mut state, true, &body);
    assert!(matches!(action, SubmitAction::FindExecutor));
    let (_, _, action) = submission_scoped(open(), &mut state, false, &body);
    assert!(matches!(action, SubmitAction::Answer(reply) if reply.status == 403));
    let (_, _, action) = submission_scoped(open(), &mut state, true, &b"{".to_vec());
    assert!(matches!(action, SubmitAction::Answer(reply) if reply.status == 400));
}
