//! Endpoints, pools, models, upstream requests, and the worker of a task.

use aiwork_gateway::access::{Caller, ResolvedKey};
use aiwork_gateway::core_types::{CoreMode, Principal};
use aiwork_gateway::json::Json;
use aiwork_gateway::outside;
use aiwork_gateway::pool_routes::{
    account_status, count_accounts, health, healthz, models, pool_status,
    public_seedance_model_value, public_unified_model_value, resolve_wb_target, status,
    ModelCooldown, ModelSource, PoolAccount, PoolStatus, Tally, UnifiedModel, WbTarget,
};
use aiwork_gateway::reply::Reply;
use aiwork_gateway::scheduler::SchedulerError;
use aiwork_gateway::server::{
    bind_failure, build_router, listen_address, poll_usage, probe_delay, probe_value,
    wait_task_finished, Handler, Method, Probe, UsagePoll, Wait,
};
use aiwork_gateway::text;
use aiwork_gateway::upstream_request::{
    common_request, make_upstream_request, resource_url_body, resource_url_request,
    upstream_refused, upstream_unreachable, uuid_like_id, video_stream_request, Client, Headers,
    Sender, TraceIds,
};
use aiwork_gateway::video::{self, Permit, TaskChange, VideoState};
use aiwork_gateway::video_events::ErrKind;
use aiwork_gateway::video_native::{
    native_step, resolve_resource_url, start_native_task, Note, WorkerAction, WorkerEvent,
};
use aiwork_gateway::video_routes::{
    open_video_read, submit_video, video_content, video_task,
    videos_generations_with_attribution, ContentAnswer, ReadGate, VideoAction, VideoEvent,
    VideoInput,
};

fn doc(text: &str) -> Json {
    outside::parse_text(text).unwrap()
}

fn code(reply: &Reply) -> String {
    reply.body.get("error").unwrap().str_at("code").unwrap().to_string()
}

#[test]
fn router_registers_the_authenticated_user_usage_route() {
    let router = build_router();
    assert!(router
        .routes
        .iter()
        .any(|r| r.path == "/v1/usage" && r.method == Method::Get && r.handler == Handler::Usage));
}

#[test]
fn no_endpoint_is_registered_twice() {
    let router = build_router();
    for (i, a) in router.routes.iter().enumerate() {
        for b in &router.routes[i + 1..] {
            assert!(a.path != b.path || a.method != b.method, "{}", a.path);
            assert_ne!(a.handler, b.handler);
        }
    }
    assert_eq!(router.routes.len(), 27);
    let assets = router.routes.iter().find(|r| r.path == "/v1/assets").unwrap();
    assert_eq!(assets.body_limit, Some(46 * 1024 * 1024));
}

#[test]
fn the_server_listens_waits_and_probes() {
    assert_eq!(listen_address(" 127.0.0.1 ", 8080), "127.0.0.1:8080");
    assert_eq!(bind_failure(80, "busy"), "端口 80 绑定失败: busy");
    assert_eq!(wait_task_finished(true, 0, 0), Wait::Finished);
    assert_eq!(wait_task_finished(false, 150, 150), Wait::TimedOut);
    assert_eq!(wait_task_finished(false, 100, 150), Wait::Again(50));
    assert_eq!(probe_value(Probe::Answered), 1);
    assert_eq!(probe_value(Probe::Refused(401)), 1);
    assert_eq!(probe_value(Probe::Unreachable), 0);
    assert_eq!(probe_delay(119), 359);
}

#[test]
fn usage_is_polled_for_waiting_accounts_only() {
    assert_eq!(poll_usage(Some(&Vec::new())), UsagePoll::Nothing);
    assert!(matches!(poll_usage(None), UsagePoll::Log(_)));
    let pending = vec![("uid-1".to_string(), "session-1".to_string())];
    assert_eq!(poll_usage(Some(&pending)), UsagePoll::Fetch(vec!["uid-1".to_string()]));
}

fn account(uid: &str, disabled: bool, cooling: bool) -> PoolAccount {
    PoolAccount {
        uid: uid.into(),
        name: uid.into(),
        disabled,
        cooling,
        spent: false,
        credits_expire_at: None,
        err_count: 0,
        credits: doc("1.5"),
        general_credits: Json::Null,
        work_credits: Json::Null,
        total_credits: doc("1.5"),
        cooldown_until: Json::Null,
        cooldown_reason: Json::Null,
        state: Json::Null,
    }
}

fn pools() -> PoolStatus {
    PoolStatus {
        total_requests: 5,
        inflight: 1,
        active_uid: Some("a".into()),
        last_error: None,
        accounts: vec![account("a", false, false), account("b", true, false), account("c", false, true)],
        total_credits: doc("3.0"),
        general_credits: doc("1.0"),
        work_credits: doc("2.0"),
        wb_enabled: true,
        wb_accounts: vec![account("w", false, false)],
        model_cooldowns: vec![
            ModelCooldown { model: "m".into(), until: 110, fails: 2 },
            ModelCooldown { model: "old".into(), until: 100, fails: 1 },
        ],
        sticky_sessions: 4,
        probe_ok: -1,
        probe_ts_ms: -1,
    }
}

#[test]
fn the_status_shows_the_pools() {
    let shown = pool_status(&pools(), 100);
    let summary = shown.get("summary").unwrap();
    assert_eq!(summary.u64_at("total_accounts"), Some(3));
    assert_eq!(summary.u64_at("available"), Some(1));
    assert_eq!(summary.u64_at("cooling"), Some(1));
    assert_eq!(summary.u64_at("disabled"), Some(1));
    let wb = shown.get("wb").unwrap();
    let cooling = wb.get("model_cooldowns").unwrap().as_array().unwrap();
    assert_eq!(cooling.len(), 1);
    assert_eq!(cooling[0].u64_at("remaining_s"), Some(10));
    assert_eq!(shown.get("last_error"), Some(&Json::Null));
    assert_eq!(count_accounts(&pools().accounts, Tally::Available), 1);
}

#[test]
fn an_account_has_one_state() {
    let mut a = account("a", false, false);
    assert_eq!(account_status(&a, 100), "available");
    a.spent = true;
    assert_eq!(account_status(&a, 100), "no_credits");
    a.credits_expire_at = Some(99);
    assert_eq!(account_status(&a, 100), "expired");
    a.cooling = true;
    assert_eq!(account_status(&a, 100), "cooling");
    a.disabled = true;
    assert_eq!(account_status(&a, 100), "disabled");
}

#[test]
fn the_status_of_core_is_for_administrators() {
    let core = Some(CoreMode::Enforce);
    let user = || Some(Principal { user_id: "u".into(), key_id: "k".into() });
    assert_eq!(status(core, None, true, Ok(Json::Null), &pools(), 1).status, 401);
    let refused = status(core, user(), false, Ok(Json::Null), &pools(), 1);
    assert_eq!((refused.status, code(&refused)), (403, "scheduler_admin_required".to_string()));
    let broken = status(core, user(), true, Err(SchedulerError::NotReady), &pools(), 1);
    assert_eq!((broken.status, code(&broken)), (503, "scheduler_not_ready".to_string()));
    let shown = status(core, user(), true, Ok(doc(r#"{"mode":"enforce"}"#)), &pools(), 1);
    assert_eq!(shown.body.get("scheduler").unwrap().str_at("mode"), Some("enforce"));
    assert!(shown.body.get("accounts").is_none());
    assert!(status(None, None, false, Ok(Json::Null), &pools(), 1).body.get("accounts").is_some());
}

#[test]
fn the_gateway_serves_while_an_account_is_usable() {
    assert_eq!(health().status, 200);
    let idle = vec![account("b", true, false)];
    let busy = vec![account("a", false, false)];
    assert_eq!(healthz(&busy, false, &idle).status, 200);
    assert_eq!(healthz(&idle, true, &busy).status, 200);
    assert_eq!(healthz(&idle, false, &busy).status, 503);
}

fn model(id: &str, pools: &[(&str, bool)]) -> UnifiedModel {
    UnifiedModel {
        id: id.into(),
        vendor: "Trae".into(),
        display: doc(r#""DeepSeek V4 Flash""#),
        rate: doc("1.0"),
        context_length: doc("131072"),
        max_tokens: doc("8192"),
        supports_image: Json::Bool(false),
        efforts: doc(r#"["medium"]"#),
        sources: pools
            .iter()
            .map(|(pool, enabled)| ModelSource {
                pool: pool.to_string(),
                document: doc(&format!(r#"{{"pool":"{pool}","enabled":{enabled}}}"#)),
            })
            .collect(),
        manual: Json::Bool(false),
    }
}

#[test]
fn public_text_model_value_advertises_text_route_metadata() {
    let value = public_unified_model_value(&model("deepseek-v4-flash", &[("trae", true)]));
    assert_eq!(value.get("capabilities"), Some(&doc(r#"["text"]"#)));
    assert_eq!(value.str_at("endpoint"), Some("/v1/chat/completions"));
    assert_eq!(value.bool_at("async"), Some(false));
    assert_eq!(value.str_at("id"), Some("deepseek-v4-flash"));
}

#[test]
fn public_seedance_value_advertises_video_route_and_availability() {
    let value = public_seedance_model_value(&model("seedance", &[("trae_work", false)]));
    assert_eq!(value.str_at("id"), Some("seedance"));
    assert_eq!(value.get("capabilities"), Some(&doc(r#"["video"]"#)));
    assert_eq!(value.str_at("endpoint"), Some("/v1/videos/generations"));
    assert_eq!(value.bool_at("async"), Some(true));
    let source = &value.get("sources").unwrap().as_array().unwrap()[0];
    assert_eq!(source.str_at("pool"), Some("trae_work"));
    assert_eq!(source.bool_at("enabled"), Some(false));
    let available = public_seedance_model_value(&model("seedance", &[("trae_work", true)]));
    let source = &available.get("sources").unwrap().as_array().unwrap()[0];
    assert_eq!(source.bool_at("enabled"), Some(true));
}

#[test]
fn models_of_a_pool_that_is_off_are_not_listed() {
    let list = vec![
        model("both", &[("trae", true), ("buddy", true)]),
        model("buddy-only", &[("buddy", true)]),
    ];
    let video = model("seedance", &[("trae_work", true)]);
    let ids = |reply: &Reply| -> Vec<String> {
        let data = reply.body.get("data").unwrap().as_array().unwrap();
        data.iter().map(|m| m.str_at("id").unwrap().to_string()).collect()
    };
    let off = models(None, None, false, &list, &video, false);
    assert_eq!(ids(&off), vec!["both", "seedance"]);
    let on = models(None, None, false, &list, &video, true);
    assert_eq!(ids(&on), vec!["both", "buddy-only", "seedance"]);
    let user = || Some(Principal { user_id: "u".into(), key_id: "k".into() });
    assert_eq!(models(Some(CoreMode::Enforce), user(), false, &list, &video, true).status, 403);
    assert_eq!(models(Some(CoreMode::Enforce), None, true, &list, &video, true).status, 401);
    assert_eq!(models(Some(CoreMode::Enforce), user(), true, &list, &video, true).status, 200);
}

#[test]
fn background_tasks_go_to_the_cheapest_model() {
    let target = || WbTarget { model: "m".into(), effort_hint: Some("low".into()) };
    assert!(resolve_wb_target(target(), false, true, true, None).is_none());
    let cheap = resolve_wb_target(target(), true, true, true, Some("c".into())).unwrap();
    assert_eq!((cheap.model.as_str(), cheap.effort_hint.as_deref()), ("c", Some("low")));
    assert_eq!(resolve_wb_target(target(), true, true, true, None).unwrap().model, "m");
    assert_eq!(
        resolve_wb_target(target(), true, false, true, Some("c".into())).unwrap().model,
        "m"
    );
}

fn client() -> Client {
    Client {
        host: "https://agent.example".into(),
        referer_base: "https://ref.example".into(),
        app_id: "app".into(),
        version: "1.2".into(),
        version_code: "12".into(),
    }
}

fn sender() -> Sender {
    Sender { jwt: "jwt".into(), device_id: "dev".into(), machine_id: "mac".into() }
}

fn header<'a>(headers: &'a Headers, name: &str) -> &'a str {
    &headers.list.iter().find(|(n, _)| n == name).unwrap().1
}

#[test]
fn a_chat_request_carries_its_trace() {
    let ids = TraceIds {
        first: "a".repeat(32),
        second: "b".repeat(32),
        step: "c".repeat(32),
        request: "d".repeat(32),
    };
    let request = make_upstream_request(&client(), "/chat", &sender(), &ids);
    assert_eq!(request.url, "https://agent.example/chat");
    assert_eq!(header(&request.headers, "referer"), "https://ref.example/chat");
    assert_eq!(header(&request.headers, "x-ide-token"), "jwt");
    let trace = format!("00-{}-{}-01", "a".repeat(32), "b".repeat(32));
    assert_eq!(header(&request.headers, "x-tt-trace-id"), trace);
    assert_eq!(header(&request.headers, "x-custom-trace-id"), &trace[..16]);
    assert_eq!(
        header(&request.headers, "x-flow-traceparent"),
        format!("04-{}-{}-01", &trace[3..35], "c".repeat(32))
    );
    assert_eq!(header(&request.headers, "x-request-id"), format!("req_{}", "d".repeat(32)));
    assert_eq!(request.headers.list.len(), 29);
}

#[test]
fn native_requests_are_those_of_the_native_client() {
    let upload = common_request(&client(), &sender(), "/up");
    assert_eq!(upload.url, "https://agent.example/up");
    assert_eq!(header(&upload.headers, "x-device-brand"), "H610E-B");
    let stream = video_stream_request(&client(), &sender(), &"t".repeat(40), "req-1");
    assert_eq!(header(&stream.headers, "accept"), "text/event-stream");
    assert_eq!(header(&stream.headers, "x-custom-trace-id"), "t".repeat(32));
    let resource = resource_url_request(&client(), &sender(), "trace");
    assert_eq!(resource.url, "https://agent.example/api/ide/v1/get_resource_url");
    assert_eq!(resource_url_body("tos://v"), doc(r#"{"uri_list":["tos://v"]}"#));
}

#[test]
fn ids_come_out_of_the_clock() {
    assert_eq!(uuid_like_id(0), "0000000000000000157c4a7fb979379e");
    assert_eq!(uuid_like_id(1), "950a2227b7c17c51aa866ca6703bb4ef");
    assert_eq!(uuid_like_id(u64::MAX).len(), 32);
}

#[test]
fn failures_are_read_for_their_reason() {
    let slow = upstream_refused(429, "slow".into(), Some(" 7 "));
    assert_eq!((slow.status, slow.retry_after), (429, Some(7)));
    assert_eq!(upstream_refused(429, "slow".into(), Some("soon")).retry_after, None);
    let dns = upstream_unreachable("h", "dns failed");
    assert_eq!(dns.status, 502);
    assert_eq!(dns.message, "DNS解析失败（h 无法解析），请检查网络或代理设置: dns failed");
    assert!(upstream_unreachable("h", "timed out").message.starts_with("连接超时（h 10秒内未响应）"));
    assert_eq!(upstream_unreachable("h", "bad certificate").message, "TLS证书验证失败: bad certificate");
    assert_eq!(upstream_unreachable("h", "reset").message, "传输错误: reset");
}

fn caller(id: &str) -> Caller {
    Caller {
        key_id: Some(id.into()),
        policy: Some(ResolvedKey {
            id: id.into(),
            capabilities: vec!["video".into()],
            limits: Default::default(),
            allowed_accounts: Vec::new(),
            schedule_mode: String::new(),
            dedicated_account: String::new(),
        }),
        principal: None,
    }
}

fn video_input(id: &str) -> VideoInput {
    VideoInput {
        caller: caller(id),
        core: None,
        idempotency_key: Some("idem".into()),
        request_id: None,
        allow_http: false,
    }
}

fn submit(state: &mut VideoState, id: &str) -> VideoAction {
    let body = br#"{"prompt":"cat"}"#.to_vec();
    let (v, counted, action) = videos_generations_with_attribution(state, &video_input(id), &body);
    assert!(counted);
    if let VideoAction::Answer(_) = action {
        return action;
    }
    assert!(matches!(action, VideoAction::Limit(..)));
    let (v, action) = submit_video(v, state, VideoEvent::Guarded(Ok(())));
    assert!(matches!(action, VideoAction::Permit(_)));
    let (v, action) = submit_video(v, state, VideoEvent::Guarded(Ok(())));
    assert!(matches!(action, VideoAction::Pick));
    submit_video(v, state, VideoEvent::Picked(Some("uid-1".into()), 1000)).1
}

#[test]
fn a_submission_is_started_once_and_shown_to_its_owner() {
    let mut state = VideoState::new();
    let VideoAction::Start(worker, action, note, reply) = submit(&mut state, "key-1") else {
        panic!("the task is started");
    };
    assert!(matches!(action, WorkerAction::Prepare));
    assert_eq!(reply.status, 202);
    assert!(video::has_job_permit(&state, &worker.task_id));
    let VideoAction::Answer(again) = submit(&mut state, "key-1") else {
        panic!("the task is found again");
    };
    assert_eq!(
        again.body.get("task").unwrap().str_at("id"),
        Some(worker.task_id.as_str())
    );
    let own = video_task(&state, "key-1", &worker.task_id, false, None);
    assert_eq!(own.status, 200);
    let foreign = video_task(&state, "key-2", &worker.task_id, false, None);
    assert_eq!(foreign.status, 404);
    assert!(matches!(
        video_content(&state, "key-2", &worker.task_id, "/d", None, Some(3)),
        ContentAnswer::Document(reply) if reply.status == 404
    ));
    let id = worker.task_id.clone();
    video::update_task(&mut state, &id, TaskChange::VideoUrl("https://a/v.mp4".into()), 9);
    assert_eq!((note.method, note.path), ("POST", "/v1/videos/generations"));
    assert_eq!((note.status, note.account, note.stream), (202, "queued", false));
    assert_eq!(note.remark, "Seedance native SSE task queued");
    let ContentAnswer::File(status, path, headers) =
        video_content(&state, "key-1", &id, "/d", None, Some(3))
    else {
        panic!("the copy is there");
    };
    assert_eq!((status, path.root.as_str()), (200, "/d"));
    assert_eq!(headers.get("content-type").map(String::as_str), Some("video/mp4"));
    let ContentAnswer::Redirect(status, headers) =
        video_content(&state, "key-1", &id, "/d", None, None)
    else {
        panic!("the client is led to the upstream");
    };
    assert_eq!(status, 307);
    assert_eq!(headers.get("location").map(String::as_str), Some("https://a/v.mp4"));
    video::update_task(&mut state, &id, TaskChange::VideoUrl("https://a/\nv".into()), 9);
    assert!(matches!(
        video_content(&state, "key-1", &id, "/d", None, None),
        ContentAnswer::Document(reply) if reply.status == 500
    ));
    assert!(matches!(open_video_read(&caller("key-1"), None), ReadGate::Legacy(_)));
}

#[test]
fn video_without_usable_account_explains_both_credit_types() {
    let mut state = VideoState::new();
    let body = br#"{"prompt":"cat"}"#.to_vec();
    let (v, _, _) = videos_generations_with_attribution(&state, &video_input("key-1"), &body);
    let (v, _) = submit_video(v, &mut state, VideoEvent::Guarded(Ok(())));
    let (v, _) = submit_video(v, &mut state, VideoEvent::Guarded(Ok(())));
    let (_, action) = submit_video(v, &mut state, VideoEvent::Picked(None, 1000));
    let VideoAction::Answer(reply) = action else {
        panic!("the submission is answered");
    };
    assert_eq!((reply.status, code(&reply)), (503, "no_work_credits".to_string()));
    let message = reply.body.get("error").unwrap().str_at("message").unwrap();
    assert!(message.contains("通用积分") && message.contains("Work 积分"));
}

#[test]
fn a_worker_reads_the_stream_to_its_video() {
    let mut state = VideoState::new();
    let task = video::create_pending_for(&mut state, "seedance".into(), "p".into(), "key-1", 1000);
    let permit = Permit { key_id: "key-1".into() };
    let (mut w, _) = start_native_task(&mut state, task.id.clone(), "uid-1".into(), permit, 1);
    let (_, action) = native_step(
        &mut w,
        &mut state,
        WorkerEvent::Prepared(doc(r#"{"prompt":"p"}"#), "session".into()),
        1000,
    );
    assert!(matches!(action, WorkerAction::Record(_)));
    let (_, action) = native_step(&mut w, &mut state, WorkerEvent::Recorded, 1000);
    assert!(matches!(action, WorkerAction::Send));
    let ok = WorkerEvent::Answered(200, String::new(), ErrKind::NoError);
    let (_, action) = native_step(&mut w, &mut state, ok, 1000);
    assert!(matches!(action, WorkerAction::Read));
    for line in ["event: result", r#"data: {"uri":"tos://v"}"#, "", "event: done", "data: {}"] {
        native_step(&mut w, &mut state, WorkerEvent::Line(line.into()), 2000);
    }
    let (_, action) = native_step(&mut w, &mut state, WorkerEvent::Line(String::new()), 3000);
    assert!(matches!(action, WorkerAction::Resolve(uri) if uri == "tos://v"));
    let resolved = WorkerEvent::Resolved(Some("https://cdn/v.mp4".into()));
    let (_, action) = native_step(&mut w, &mut state, resolved, 3000);
    assert!(matches!(action, WorkerAction::Download(url) if url == "https://cdn/v.mp4"));
    let (note, action) = native_step(&mut w, &mut state, WorkerEvent::Downloaded(None), 4000);
    assert!(matches!(action, WorkerAction::Stop));
    assert!(matches!(note, Note::Succeeded(uid) if uid == "uid-1"));
    let done = video::get(&state, &task.id).unwrap();
    assert_eq!(done.status, "completed");
    assert!(done.content_url.unwrap().ends_with("/content"));
    assert!(!video::has_job_permit(&state, &task.id));
}

#[test]
fn a_broken_connection_leaves_the_task_unknown() {
    let mut state = VideoState::new();
    let task = video::create_pending(&mut state, "seedance".into(), "p".into(), 1000);
    let permit = || Permit { key_id: "anonymous".into() };
    let (mut w, _) = start_native_task(&mut state, task.id.clone(), "uid-1".into(), permit(), 1);
    let (_, action) = start_native_task(&mut state, task.id.clone(), "uid-2".into(), permit(), 1);
    assert!(matches!(action, WorkerAction::Stop));
    native_step(
        &mut w,
        &mut state,
        WorkerEvent::Prepared(doc(r#"{"prompt":"p"}"#), "session".into()),
        1000,
    );
    native_step(&mut w, &mut state, WorkerEvent::Recorded, 1000);
    let (note, action) =
        native_step(&mut w, &mut state, WorkerEvent::Broken("reset".into()), 1000);
    assert!(matches!(action, WorkerAction::Stop));
    assert!(matches!(note, Note::Failed(_, ErrKind::Server)));
    assert!(!matches!(video::get(&state, &task.id).unwrap().status.as_str(), "completed" | "running"));
}

#[test]
fn only_secure_addresses_of_videos_are_used() {
    let map = |url: &str| doc(&format!(r#"{{"url_map":{{"tos://v":"{url}"}}}}"#));
    assert_eq!(resolve_resource_url(&map("https://a/v"), "tos://v").unwrap(), "https://a/v");
    assert!(resolve_resource_url(&map("http://a/v"), "tos://v").is_err());
    assert!(resolve_resource_url(&doc("{}"), "tos://v").is_err());
}

#[test]
fn texts_are_read_and_written() {
    assert_eq!(text::trimmed(" \u{3000}a b\n"), "a b");
    assert_eq!(text::lowered("AbÄ"), "abÄ");
    assert_eq!(text::parse_unsigned("+18446744073709551615"), Some(u64::MAX));
    assert_eq!(text::parse_unsigned("18446744073709551616"), None);
    assert_eq!(text::parse_signed("-9223372036854775808"), Some(i64::MIN));
    assert_eq!(text::parse_signed("-"), None);
    assert_eq!(text::decimal_text(0), "0");
    assert_eq!(text::split("a;;b", ';'), vec!["a", "", "b"]);
    assert_eq!(text::taken("中文字", 2), "中文");
    let random = text::random_hex(8);
    assert!(random.len() == 8 && random.chars().all(|c| c.is_ascii_hexdigit()));
}

#[test]
fn wait_task_finished_detects_completion_and_timeout() {
    assert_eq!(wait_task_finished(true, 50, 1000), Wait::Finished);
    let mut waited: u64 = 0;
    while let Wait::Again(ms) = wait_task_finished(false, waited, 150) {
        waited += ms;
    }
    assert_eq!(wait_task_finished(false, waited, 150), Wait::TimedOut);
    assert!(waited >= 150);
}
