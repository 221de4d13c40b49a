//! Text requests: how they are admitted, served and answered.

use aiwork_gateway::access::{Caller, ResolvedKey};
use aiwork_gateway::aggregate_chat::{
    aggregate_chat_with_attribution, aggregate_failure, aggregate_task_broke, AggregateAction,
    AggregateEvent, AggregateFail, Collected,
};
use aiwork_gateway::core_types::{
    CoreError, CoreLeaseError, CoreMode, LeaseState, Principal, RequestResult, RequestState,
    ScheduleError, UpstreamOutcome,
};
use aiwork_gateway::json::Json;
use aiwork_gateway::outside;
use aiwork_gateway::reply::{LimitError, Protocol, Reply};
use aiwork_gateway::rotation::{
    begin, chat_id, diagnose, no_healthy_account, rest, Diagnosis, Effect, RetryAction, Rotation,
};
use aiwork_gateway::stream_chat::{
    no_account, open_stream, stream_chat_with_attribution, StreamAction, StreamEvent, StreamFailure,
    StreamOutcome,
};
use aiwork_gateway::text_chat::{
    chat_completions_with_attribution, completions, messages, open_chat, responses_api,
    text_request_step, Preflight, Replay, Target, TargetPool, TextAction, TextEvent, TextInput,
    TextRequest, TokenQuotaError,
};
use aiwork_gateway::text_request::{
    dispatch_error_response, effective_effort_hint, model_cooling_response, quota_exceeded,
    read_prompt, DispatchError,
};
use aiwork_gateway::video_events::ErrKind;

fn doc(text: &str) -> Json {
    outside::parse_text(text).unwrap()
}

fn code(reply: &Reply) -> String {
    reply.body.get("error").unwrap().str_at("code").unwrap().to_string()
}

fn body() -> Vec<u8> {
    br#"{"model":"m-1","messages":[{"role":"user","content":"hello"}]}"#.to_vec()
}

fn input(caller: Caller, core: Option<CoreMode>) -> TextInput {
    TextInput {
        caller,
        core,
        default_model: "standard".into(),
        default_thinking: false,
        idempotency_key: Some("idem".into()),
        anthropic_version: false,
    }
}

fn keyed(capabilities: &[&str]) -> Caller {
    Caller {
        key_id: Some("key-1".into()),
        policy: Some(ResolvedKey {
            id: "key-1".into(),
            capabilities: capabilities.iter().map(|s| s.to_string()).collect(),
            limits: Default::default(),
            allowed_accounts: Vec::new(),
            schedule_mode: String::new(),
            dedicated_account: String::new(),
        }),
        principal: None,
    }
}

fn core_caller() -> Caller {
    Caller {
        key_id: Some("key-1".into()),
        policy: None,
        principal: Some(Principal { user_id: "user-1".into(), key_id: "key-1".into() }),
    }
}

fn merge(caller: Caller, core: Option<CoreMode>) -> (TextRequest, bool, TextAction) {
    let (t, _, action) = chat_completions_with_attribution(input(caller, core), &body());
    let TextAction::Merge(merged) = action else {
        panic!("the history is merged");
    };
    text_request_step(t, TextEvent::Merged(merged))
}

#[test]
fn disabled_capability_returns_403_without_consuming_usage() {
    let (_, counted, action) = merge(keyed(&["video"]), None);
    assert!(!counted);
    assert!(matches!(
        action,
        TextAction::Answer(reply) if reply.status == 403 && code(&reply) == "capability_not_allowed"
    ));
}

#[test]
fn chat_completions_counts_one_authenticated_request_without_duplicate_increment() {
    let (t, counted, action) = merge(keyed(&["chat"]), None);
    assert!(counted);
    assert!(matches!(action, TextAction::Acquire(_)));
    let (t, counted, action) = text_request_step(t, TextEvent::Guarded(Ok(())));
    assert!(!counted);
    assert!(matches!(action, TextAction::Reserve(0)));
    let (t, _, action) = text_request_step(t, TextEvent::Reserved(Ok(())));
    assert!(matches!(action, TextAction::Resolve(_)));
    let target = Target {
        pool: TargetPool::Trae,
        model: "m-1".into(),
        effort_hint: None,
        runs_tools: false,
    };
    let (_, _, action) = text_request_step(t, TextEvent::Resolved(Ok(target)));
    assert!(matches!(
        action,
        TextAction::Run(TargetPool::Trae, model, _, false, None, false) if model == "m-1"
    ));
}

#[test]
fn legacy_text_quota_rejection_releases_the_request_permit() {
    let mut caller = keyed(&["chat"]);
    if let Some(policy) = caller.policy.as_mut() {
        policy.limits.max_inflight = Some(2);
        policy.limits.daily_tokens = 10;
    }
    let (t, _, _) = merge(caller, None);
    assert!(!t.permit);
    let (t, _, action) = text_request_step(t, TextEvent::Guarded(Ok(())));
    assert!(matches!(action, TextAction::Reserve(10)));
    assert!(t.permit);
    let refused = TextEvent::Reserved(Err(TokenQuotaError::Exceeded(10)));
    let (t, _, action) = text_request_step(t, refused);
    let TextAction::QuotaExceeded(limit) = action else {
        panic!("the second concurrent request must hit the token quota");
    };
    assert_eq!(limit, 10);
    assert!(!t.permit);
    let rejected = quota_exceeded(limit);
    assert_eq!(rejected.status, 429);
    let error = rejected.body.get("error").unwrap();
    assert_eq!(error.str_at("type"), Some("quota_exceeded"));
    assert_eq!(error.str_at("code"), Some("quota_exceeded"));
    assert_eq!(error.str_at("legacy_code"), Some("daily_quota_exceeded"));
    assert_eq!(error.str_at("param"), Some("daily_tokens"));
}

#[test]
fn an_unavailable_key_is_refused_with_its_own_limit() {
    let (t, _, _) = merge(keyed(&["chat"]), None);
    let (t, _, _) = text_request_step(t, TextEvent::Guarded(Ok(())));
    let tokens = t.daily_tokens;
    let refused = TextEvent::Reserved(Err(TokenQuotaError::KeyUnavailable));
    let (t, _, action) = text_request_step(t, refused);
    assert!(matches!(action, TextAction::QuotaExceeded(limit) if limit == tokens));
    assert!(!t.permit);
}

#[test]
fn a_body_that_is_null_becomes_an_object_with_the_model() {
    let mut given = input(core_caller(), Some(CoreMode::Enforce));
    given.default_model = "m-default".into();
    given.idempotency_key = Some("k".into());
    let (t, _, _) = chat_completions_with_attribution(given, &b"null".to_vec());
    let (t, _, _) = text_request_step(t, TextEvent::Merged(Json::Null));
    let (_, _, action) = text_request_step(t, TextEvent::Scoped(true));
    let TextAction::Estimate(body) = action else {
        panic!("the cost is estimated");
    };
    assert_eq!(body.str_at("model"), Some("m-default"));
}

#[test]
fn the_effort_is_left_out_where_the_gateway_runs_the_tools() {
    let reach = |runs_tools: bool| {
        let mut given = input(keyed(&["chat"]), None);
        given.default_thinking = true;
        let request = br#"{"model":"m-1","input":"hi"}"#.to_vec();
        let (t, _, action) = responses_api(given, &request);
        let TextAction::Project(chat) = action else {
            panic!("the request is projected");
        };
        let (t, _, action) = text_request_step(t, TextEvent::Projected(Ok(chat), None));
        let TextAction::Merge(chat) = action else {
            panic!("the history is merged");
        };
        let (t, _, _) = text_request_step(t, TextEvent::Merged(chat));
        let (t, _, _) = text_request_step(t, TextEvent::Guarded(Ok(())));
        let (t, _, _) = text_request_step(t, TextEvent::Reserved(Ok(())));
        let target = Target {
            pool: TargetPool::Buddy,
            model: "m-1".into(),
            effort_hint: Some("high".into()),
            runs_tools,
        };
        text_request_step(t, TextEvent::Resolved(Ok(target))).2
    };
    assert!(matches!(
        reach(false),
        TextAction::Run(TargetPool::Buddy, _, _, false, Some(effort), false) if effort == "high"
    ));
    assert!(matches!(
        reach(true),
        TextAction::Run(TargetPool::Buddy, _, _, false, None, true)
    ));
}

fn to_executor() -> TextRequest {
    let (t, _, action) = merge(core_caller(), Some(CoreMode::Enforce));
    assert!(matches!(action, TextAction::CheckScope("chat:invoke")));
    let (t, _, action) = text_request_step(t, TextEvent::Scoped(true));
    assert!(matches!(action, TextAction::Estimate(_)));
    let (t, _, action) = text_request_step(t, TextEvent::Estimated(Ok(1)));
    assert!(matches!(action, TextAction::FindExecutor));
    t
}

fn replay(state: RequestState) -> Replay {
    Replay {
        request_id: "request-1".into(),
        state,
        result: Some(RequestResult { status: Some(200), error_code: None }),
        lease: Some(LeaseState::Succeeded),
    }
}

#[test]
fn core_enforce_chat_uses_core_lease_and_mock_executor_once() {
    let (t, _, action) = text_request_step(to_executor(), TextEvent::Executor);
    assert!(matches!(action, TextAction::Look(_)));
    let (t, _, action) = text_request_step(t, TextEvent::Looked(Ok(None)));
    assert!(matches!(action, TextAction::Guard));
    let (t, _, action) = text_request_step(t, TextEvent::Guarded(Ok(())));
    assert!(matches!(action, TextAction::Preflight(_)));
    let preflight = Preflight {
        replay: replay(RequestState::Open),
        execution: true,
        lease: true,
        reservation: true,
    };
    let (t, _, action) = text_request_step(t, TextEvent::Preflighted(Ok(preflight)));
    assert!(matches!(action, TextAction::Execute));
    let outcome = UpstreamOutcome::Success {
        body: doc("{}"),
        actual_units: Some(1),
        upstream_request_ref: None,
    };
    let (t, _, action) =
        text_request_step(t, TextEvent::Executed(outcome, Some((200, doc(r#"{"ok":true}"#)))));
    assert!(matches!(action, TextAction::Settle(_)));
    let (_, _, action) = text_request_step(t, TextEvent::Settled(Some(Ok(true))));
    let TextAction::AnswerSettled(reply, Some(category)) = action else {
        panic!("the request is answered");
    };
    assert_eq!(reply.status, 200);
    assert_eq!(category, "success");
    assert_eq!(reply.headers.get("x-request-id").map(String::as_str), Some("request-1"));
}

#[test]
fn core_replay_takes_no_permit_and_starts_nothing() {
    let (t, _, _) = text_request_step(to_executor(), TextEvent::Executor);
    let looked = TextEvent::Looked(Ok(Some(replay(RequestState::Succeeded))));
    let (_, _, action) = text_request_step(t, looked);
    assert!(matches!(action, TextAction::Answer(reply) if reply.status == 200));
}

#[test]
fn core_chat_reports_insufficient_quota_before_dispatch() {
    let none = TextEvent::NoExecutor(CoreLeaseError::EndpointNotEnabled, Ok(0));
    let (_, _, poor) = text_request_step(to_executor(), none);
    let none = TextEvent::NoExecutor(CoreLeaseError::EndpointNotEnabled, Ok(5));
    let (_, _, rich) = text_request_step(to_executor(), none);
    let (TextAction::Answer(poor), TextAction::Answer(rich)) = (poor, rich) else {
        panic!("both are answered");
    };
    assert_ne!(code(&poor), code(&rich));
    assert_eq!(code(&rich), "scheduler_endpoint_not_enabled");
}

#[test]
fn core_enforce_chat_does_not_fallback_to_legacy_pool_when_scheduler_rejects() {
    let (t, _, _) = text_request_step(to_executor(), TextEvent::Executor);
    let (t, _, _) = text_request_step(t, TextEvent::Looked(Ok(None)));
    let (t, _, _) = text_request_step(t, TextEvent::Guarded(Ok(())));
    let rejected = CoreLeaseError::Schedule(ScheduleError::NoFreshObservation);
    let (_, _, action) = text_request_step(t, TextEvent::Preflighted(Err(rejected)));
    assert!(matches!(action, TextAction::Answer(reply) if reply.status >= 400));
}

#[test]
fn core_chat_requires_idempotency_key_even_with_request_id() {
    let mut given = input(core_caller(), Some(CoreMode::Enforce));
    given.idempotency_key = None;
    let (t, _, _) = chat_completions_with_attribution(given, &body());
    let (t, _, _) = text_request_step(t, TextEvent::Merged(outside::parse_bytes(&body()).unwrap()));
    let (_, _, action) = text_request_step(t, TextEvent::Scoped(true));
    assert!(matches!(
        action,
        TextAction::Answer(reply) if code(&reply) == "idempotency_key_required"
    ));
}

#[test]
fn core_chat_rejects_missing_scope_before_preflight() {
    let (t, _, _) = merge(core_caller(), Some(CoreMode::Enforce));
    let (_, _, action) = text_request_step(t, TextEvent::Scoped(false));
    assert!(matches!(action, TextAction::Answer(reply) if reply.status == 403));
    let (t, _, _) = merge(core_caller(), Some(CoreMode::Enforce));
    let (t, _, _) = text_request_step(t, TextEvent::Scoped(true));
    let (_, _, action) =
        text_request_step(t, TextEvent::Estimated(Err(CoreError::BudgetPolicyMissing)));
    assert!(matches!(action, TextAction::Answer(_)));
}

#[test]
fn core_nonstream_rejects_before_execution_when_request_limiter_is_full() {
    let (t, _, _) = text_request_step(to_executor(), TextEvent::Executor);
    let (t, _, _) = text_request_step(t, TextEvent::Looked(Ok(None)));
    let full = LimitError {
        code: "inflight_limit".into(),
        message: "full".into(),
        retry_after_secs: 1,
    };
    let (_, _, action) = text_request_step(t, TextEvent::Guarded(Err(full)));
    assert!(matches!(action, TextAction::Answer(reply) if reply.status == 429));
}

#[test]
fn core_unintegrated_protocols_are_not_enabled() {
    let (_, _, action) =
        messages(input(core_caller(), Some(CoreMode::Enforce)), &br#"{"messages":[]}"#.to_vec());
    assert!(matches!(
        action,
        TextAction::Answer(reply) if code(&reply) == "scheduler_endpoint_not_enabled"
    ));
    let (_, _, action) =
        completions(input(core_caller(), Some(CoreMode::Enforce)), &br#"{"prompt":"x"}"#.to_vec());
    assert!(matches!(action, TextAction::Answer(reply) if reply.status == 501));
}

#[test]
fn broken_bodies_are_refused_in_the_form_of_their_protocol() {
    let (_, _, action) =
        chat_completions_with_attribution(input(keyed(&["chat"]), None), &b"{".to_vec());
    assert!(matches!(action, TextAction::Answer(reply) if reply.status == 400));
    let (_, _, action) = messages(input(keyed(&["chat"]), None), &b"{}".to_vec());
    let TextAction::Answer(reply) = action else {
        panic!("the request is answered");
    };
    assert_eq!(reply.body.str_at("type"), Some("error"));
    let mut spoken = input(keyed(&["chat"]), None);
    spoken.anthropic_version = true;
    let (_, _, action) = open_chat(spoken, 2, Ok(doc("{}")));
    assert!(matches!(action, TextAction::Answer(reply) if code(&reply) == "wrong_endpoint"));
    let (_, _, action) = open_chat(input(keyed(&["chat"]), None), usize::MAX, Ok(doc("{}")));
    assert!(matches!(action, TextAction::Answer(reply) if reply.status == 413));
    let (_, _, action) = responses_api(input(keyed(&["chat"]), None), &b"{}".to_vec());
    assert!(matches!(action, TextAction::Project(_)));
}

#[test]
fn prompts_are_joined_and_must_not_be_empty() {
    assert_eq!(read_prompt(&doc(r#"{"prompt":["a",1,"b"]}"#)).unwrap(), "a\n\nb");
    assert_eq!(read_prompt(&doc(r#"{"prompt":"a"}"#)).unwrap(), "a");
    assert_eq!(read_prompt(&doc(r#"{"prompt":" "}"#)).unwrap_err(), "prompt: must not be empty");
    assert_eq!(read_prompt(&doc("{}")).unwrap_err(), "prompt: field required");
    assert_eq!(
        read_prompt(&doc(r#"{"prompt":[1]}"#)).unwrap_err(),
        "prompt: array must contain strings"
    );
}

#[test]
fn efforts_and_cooling_models() {
    assert_eq!(effective_effort_hint(Some("low".into()), true, true).as_deref(), Some("low"));
    assert_eq!(effective_effort_hint(None, false, true).as_deref(), Some("high"));
    assert_eq!(effective_effort_hint(None, true, true), None);
    assert_eq!(effective_effort_hint(None, false, false), None);
    let cooling = model_cooling_response(Protocol::OpenAi, "m", Some(9));
    assert_eq!((cooling.status, code(&cooling)), (429, "model_cooldown".to_string()));
    assert_eq!(
        cooling.body.get("error").unwrap().str_at("message"),
        Some("model m cooling down, retry after 9s")
    );
    assert_eq!(
        dispatch_error_response(Protocol::OpenAi, "m", DispatchError::WbDisabled).status,
        400
    );
    assert_eq!(
        dispatch_error_response(Protocol::Anthropic, "m", DispatchError::NoHealthy).status,
        503
    );
}

fn sending(rotation: &mut Rotation, uid: &str) {
    let (_, action) = stream_chat_with_attribution(rotation, StreamEvent::Picked(Some(uid.into())), 1);
    assert!(matches!(action, StreamAction::Bind));
    let (_, action) = stream_chat_with_attribution(rotation, StreamEvent::Bound, 1);
    assert!(matches!(action, StreamAction::Record));
    let (_, action) = stream_chat_with_attribution(rotation, StreamEvent::Recorded, 1);
    assert!(matches!(action, StreamAction::Send(0)));
}

fn ended(failure: Option<StreamFailure>, sent_any: bool) -> StreamEvent {
    StreamEvent::Ended(StreamOutcome {
        failure,
        sent_any,
        prompt_tokens: 3,
        completion_tokens: 4,
        remembered: false,
    })
}

fn dead() -> Option<StreamFailure> {
    Some(StreamFailure { code: 1001, message: "expired".into(), kind: ErrKind::SessionDead })
}

#[test]
fn a_stream_that_fails_before_it_starts_goes_to_the_next_account() {
    let (head, mut rotation, action) = open_stream(Protocol::OpenAi, 2);
    assert_eq!(head.status, 200);
    assert_eq!(head.headers.get("content-type").map(String::as_str), Some("text/event-stream"));
    assert_eq!(head.headers.get("cache-control").map(String::as_str), Some("no-cache"));
    assert_eq!(head.headers.get("connection").map(String::as_str), Some("keep-alive"));
    assert!(matches!(action, StreamAction::Pick));
    sending(&mut rotation, "uid-1");
    let (effects, action) =
        stream_chat_with_attribution(&mut rotation, ended(dead(), false), 1);
    assert!(matches!(action, StreamAction::Pick));
    assert!(effects
        .list
        .iter()
        .any(|e| matches!(e, Effect::Failed(uid, ErrKind::SessionDead) if uid == "uid-1")));
    sending(&mut rotation, "uid-2");
    let (effects, action) = stream_chat_with_attribution(&mut rotation, ended(None, true), 1);
    assert!(matches!(action, StreamAction::Stop));
    assert!(effects
        .list
        .iter()
        .any(|e| matches!(e, Effect::Usage(uid, true, 3, 4, true) if uid == "uid-2")));
    assert_eq!(rotation.tried, vec!["uid-1".to_string(), "uid-2".to_string()]);
}

#[test]
fn a_started_stream_is_not_replayed() {
    let mut rotation = begin(Protocol::Anthropic, 2);
    sending(&mut rotation, "uid-1");
    let (_, action) = stream_chat_with_attribution(&mut rotation, ended(dead(), true), 1);
    assert!(matches!(action, StreamAction::Stop));
}

#[test]
fn a_stream_without_accounts_says_so() {
    let mut rotation = begin(Protocol::OpenAi, 0);
    let (effects, action) =
        stream_chat_with_attribution(&mut rotation, StreamEvent::Picked(None), 1);
    assert!(matches!(action, StreamAction::Stop));
    assert!(effects.list.iter().any(|e| matches!(e, Effect::Send(event) if event.end_mark)));
    let event = no_account(Protocol::Responses, 7);
    assert_eq!(event.document.get("response").unwrap().str_at("id"), Some("resp_7"));
}

#[test]
fn refusals_are_retried_switched_or_final() {
    let mut rotation = begin(Protocol::OpenAi, 2);
    sending(&mut rotation, "uid-1");
    let again = StreamEvent::Refused(429, "slow".into(), RetryAction::RetrySame(99999), ErrKind::SoftRate);
    let (_, action) = stream_chat_with_attribution(&mut rotation, again, 1);
    assert!(matches!(action, StreamAction::Send(60000)));
    assert_eq!(rotation.same_attempt, 1);
    let fatal = StreamEvent::Refused(400, "bad".into(), RetryAction::Fatal, ErrKind::NoError);
    let (effects, action) = stream_chat_with_attribution(&mut rotation, fatal, 1);
    assert!(matches!(action, StreamAction::Stop));
    assert!(!effects.list.iter().any(|e| matches!(e, Effect::Failed(..))));
    assert_eq!(rest(5), 5);
}

fn collecting(rotation: &mut Rotation, uid: &str) {
    aggregate_chat_with_attribution(rotation, AggregateEvent::Picked(Some(uid.into())));
    aggregate_chat_with_attribution(rotation, AggregateEvent::Bound);
    let (_, action) = aggregate_chat_with_attribution(rotation, AggregateEvent::Recorded);
    assert!(matches!(action, AggregateAction::Send(0)));
}

#[test]
fn a_collected_reply_is_answered_and_charged() {
    let mut rotation = begin(Protocol::Responses, 1);
    collecting(&mut rotation, "uid-1");
    let collected = Collected {
        document: doc(r#"{"kind":"chat"}"#),
        as_response: doc(r#"{"kind":"response"}"#),
        text: "hi".into(),
        prompt_tokens: 1,
        completion_tokens: 2,
        remembered: true,
    };
    let (effects, action) =
        aggregate_chat_with_attribution(&mut rotation, AggregateEvent::Complete(collected));
    let AggregateAction::Answer(reply) = action else {
        panic!("the request is answered");
    };
    assert_eq!((reply.status, reply.body.str_at("kind")), (200, Some("response")));
    assert!(effects.list.iter().any(|e| matches!(e, Effect::Usage(_, true, 1, 2, true))));
    assert!(effects.list.iter().any(|e| matches!(e, Effect::Remember)));
}

#[test]
fn a_reply_that_cannot_be_collected_is_a_failure() {
    let mut rotation = begin(Protocol::OpenAi, 1);
    collecting(&mut rotation, "uid-1");
    let failed = AggregateEvent::StreamFailed(dead().unwrap());
    let (_, action) = aggregate_chat_with_attribution(&mut rotation, failed);
    assert!(matches!(action, AggregateAction::Answer(reply) if reply.status == 503));
    let mut rotation = begin(Protocol::OpenAi, 1);
    aggregate_chat_with_attribution(&mut rotation, AggregateEvent::Picked(Some("uid-1".into())));
    let (_, action) = aggregate_chat_with_attribution(&mut rotation, AggregateEvent::Unbound);
    assert!(matches!(
        action,
        AggregateAction::Answer(reply) if code(&reply) == "core_attribution_unavailable"
    ));
    for (fail, expected) in [
        (AggregateFail::NoHealthy("x".into()), "no_healthy_account"),
        (AggregateFail::Incomplete("x".into()), "incomplete_upstream"),
        (AggregateFail::Upstream(418, "x".into()), "upstream_error"),
        (AggregateFail::Attribution("x".into()), "core_attribution_unavailable"),
    ] {
        assert_eq!(code(&aggregate_failure(Protocol::OpenAi, &fail)), expected);
    }
    assert!(aggregate_task_broke("x").status >= 500);
}

#[test]
fn ids_and_diagnoses_are_texts() {
    assert!(chat_id(Protocol::OpenAi, 12).contains("12"));
    let account = Diagnosis {
        name: "first".into(),
        uid: "uid-123456789".into(),
        reason: "rate".into(),
        credits: None,
        until: 100,
        credits_expire_at: None,
        disabled: false,
    };
    let text = diagnose(&account, 40);
    assert!(text.contains("first"));
    let all = no_healthy_account(true, 40, 2, &vec![account]);
    assert!(all.contains("first") && all.contains('2'));
}
