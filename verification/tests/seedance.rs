//! Chat requests to the video model, material, and images.

use aiwork_gateway::access::{Caller, ResolvedKey};
use aiwork_gateway::asset_routes::{
    asset_created, assets_content, assets_upload, core_assets_upload, decoded_upload,
    parse_asset_upload, read_asset_upload, to_millis, AssetAnswer, CoreUploadAction,
    CoreUploadEvent, CoreUploadStage, UploadStart,
};
use aiwork_gateway::assets::AssetRecord;
use aiwork_gateway::core_types::{CoreError, CoreMode, Principal};
use aiwork_gateway::image_routes::{
    embeddings, image_guarded, image_next, image_task_broke, images_edits, images_generations,
    ImageAction, ImageEvent,
};
use aiwork_gateway::json::Json;
use aiwork_gateway::outside;
use aiwork_gateway::reply::{openai_error, Reply};
use aiwork_gateway::seedance_chat::{
    decoded_image, is_seedance_model, project_chat_to_video, InlineImage, SeedanceChatProjection,
};
use aiwork_gateway::seedance_routes::{
    inline_asset_id, inline_asset_seed, persist_failed, persist_next,
    persist_seedance_inline_assets, seedance_answer, seedance_chat_completions,
    wrap_seedance_video_response, PersistAction, PersistEvent, SeedanceStart,
};

fn doc(text: &str) -> Json {
    outside::parse_text(text).unwrap()
}

fn code(reply: &Reply) -> String {
    reply.body.get("error").unwrap().str_at("code").unwrap().to_string()
}

fn message(reply: &Reply) -> String {
    reply.body.get("error").unwrap().str_at("message").unwrap().to_string()
}

#[test]
fn recognizes_seedance_case_insensitively_after_trimming() {
    assert!(is_seedance_model(" Seedance "));
    assert!(is_seedance_model("SEEDANCE"));
    assert!(!is_seedance_model("seedance-pro"));
}

#[test]
fn projects_last_user_message_without_calling_a_text_model() {
    let input = doc(
        r#"{"model":" Seedance ","messages":[
            {"role":"system","content":"ignore"},
            {"role":"user","content":"先前提示"},
            {"role":"assistant","content":"历史回复"},
            {"role":"user","content":[{"type":"text","text":"主体"},{"type":"text","text":"动作"}]}
        ],"duration":6,"resolution":"720p","ratio":"16:9",
        "image_asset_ids":["asset-image"],"video_asset_ids":["asset-video"]}"#,
    );
    let projection = project_chat_to_video(&input).unwrap();
    assert_eq!(projection.video_input.str_at("model"), Some("seedance"));
    assert_eq!(projection.video_input.str_at("prompt"), Some("主体\n动作"));
    assert_eq!(projection.video_input.u64_at("duration"), Some(6));
    assert_eq!(projection.video_input.str_at("resolution"), Some("720p"));
    assert_eq!(projection.video_input.str_at("ratio"), Some("16:9"));
    assert_eq!(projection.video_input.get("image_asset_ids"), Some(&doc(r#"["asset-image"]"#)));
    assert_eq!(projection.video_input.get("video_asset_ids"), Some(&doc(r#"["asset-video"]"#)));
}

#[test]
fn rejects_missing_messages_and_empty_user_prompt() {
    assert!(project_chat_to_video(&doc(r#"{"model":"seedance"}"#)).is_err());
    assert!(project_chat_to_video(&doc(
        r#"{"model":"seedance","messages":[{"role":"user","content":"   "}]}"#
    ))
    .is_err());
}

#[test]
fn rejects_unsupported_content_parts_instead_of_dropping_them() {
    let error = project_chat_to_video(&doc(
        r#"{"model":"seedance","messages":[{"role":"user","content":[{"type":"audio","audio":{}}]}]}"#,
    ))
    .unwrap_err();
    assert_eq!(error.code(), "seedance_unsupported_content_part");
}

#[test]
fn records_inline_images_for_the_asset_stage_without_fetching_them() {
    let input = doc(
        r#"{"model":"seedance","messages":[{"role":"user","content":[
            {"type":"text","text":"让画面动起来"},
            {"type":"image_url","image_url":{"url":"data:image/png;base64,AA=="}}
        ]}]}"#,
    );
    let projection = project_chat_to_video(&input).unwrap();
    assert_eq!(projection.inline_images.len(), 1);
    assert_eq!(projection.inline_images[0].mime_type, "image/png");
    assert_eq!(projection.inline_images[0].bytes, vec![0u8]);
    assert_eq!(projection.video_input.get("image_asset_ids"), None);
}

#[test]
fn rejects_remote_image_urls_at_the_projection_boundary() {
    let error = project_chat_to_video(&doc(
        r#"{"model":"seedance","messages":[{"role":"user","content":[
            {"type":"text","text":"动画"},
            {"type":"image_url","image_url":{"url":"https://example.com/a.png"}}
        ]}]}"#,
    ))
    .unwrap_err();
    assert_eq!(error.code(), "seedance_inline_image_invalid");
}

#[test]
fn an_image_needs_bytes() {
    assert!(decoded_image("image/png", Ok(vec![1])).is_ok());
    assert!(decoded_image("image/png", Ok(vec![])).is_err());
    assert!(decoded_image("image/png", Err("x".into())).is_err());
}

#[test]
fn seedance_chat_rejects_streaming_and_missing_idempotency() {
    let body = r#"{"model":"seedance","messages":[{"role":"user","content":"cat"}]}"#;
    let streamed =
        doc(r#"{"stream":true,"model":"seedance","messages":[{"role":"user","content":"cat"}]}"#);
    let refused = seedance_chat_completions(&streamed, &Some("key".into())).unwrap_err();
    assert_eq!(code(&refused), "seedance_stream_unsupported");
    let refused = seedance_chat_completions(&doc(body), &None).unwrap_err();
    assert_eq!(code(&refused), "idempotency_key_required");
    let start = seedance_chat_completions(&doc(body), &Some(" key ".into())).unwrap();
    assert_eq!(start.idempotency_key, "key");
}

fn start(image: &[u8]) -> SeedanceStart {
    SeedanceStart {
        projection: SeedanceChatProjection {
            video_input: doc(r#"{"prompt":"cat"}"#),
            inline_images: vec![InlineImage { mime_type: "image/png".into(), bytes: image.to_vec() }],
        },
        idempotency_key: "same-idempotency-key".into(),
    }
}

#[test]
fn seedance_inline_asset_is_owned_by_the_legacy_api_key() {
    let (p, action) = persist_seedance_inline_assets(
        false,
        start(&[1, 2]),
        None,
        Some("key-1".into()),
        "/data",
    );
    let PersistAction::Create(0, id, name) = action else {
        panic!("the image is kept");
    };
    assert_eq!(name, "seedance-reference-1.png");
    assert_eq!(id.len(), "asset-inline-".len() + 64);
    let (_, action) = persist_next(p, PersistEvent::Created(Ok(id.clone())));
    let PersistAction::Submit(input, ids) = action else {
        panic!("the request is submitted");
    };
    assert_eq!(ids, vec![id.clone()]);
    assert_eq!(input.get("image_asset_ids").unwrap().as_array().unwrap()[0].as_str(), Some(&*id));
    let (_, action) =
        persist_seedance_inline_assets(false, start(&[1, 2]), None, Some("  ".into()), "/data");
    assert!(matches!(action, PersistAction::Fail(m) if m == "参考图上传必须绑定 API Key"));
}

#[test]
fn seedance_inline_asset_is_owned_by_the_core_user() {
    let (p, action) =
        persist_seedance_inline_assets(true, start(&[1]), Some("user-1".into()), None, "/data");
    let PersistAction::Ask(id) = action else {
        panic!("Core is asked");
    };
    let (p, action) = persist_next(p, PersistEvent::Found(Ok(None)));
    assert!(matches!(action, PersistAction::Write(0, i, _) if i == id));
    let record = record(&id);
    let (p, action) =
        persist_next(p, PersistEvent::Written(Ok((record, "store".into(), "digest".into()))));
    let PersistAction::Register(input) = action else {
        panic!("the material is registered");
    };
    assert_eq!(input.created_at_ms, 1000);
    assert_eq!(input.content_token_digest, "digest");
    let (_, action) = persist_next(p, PersistEvent::Registered(Ok(())));
    assert!(matches!(action, PersistAction::Submit(_, ids) if ids == vec![id]));
    let (_, action) = persist_seedance_inline_assets(true, start(&[1]), None, None, "/data");
    assert!(matches!(action, PersistAction::Fail(m) if m == "Core 模式缺少调用方身份"));
}

#[test]
fn repeated_seedance_inline_asset_persistence_reuses_the_same_asset() {
    let id = |image: &[u8]| {
        let (_, action) = persist_seedance_inline_assets(
            false,
            start(image),
            None,
            Some("key-1".into()),
            "/data",
        );
        match action {
            PersistAction::Create(_, id, _) => id,
            _ => panic!("the image is kept"),
        }
    };
    assert_eq!(id(&[1, 2]), id(&[1, 2]));
    assert_ne!(id(&[1, 2]), id(&[2, 1]));
}

#[test]
fn material_that_core_has_is_checked_and_used_again() {
    let (p, _) =
        persist_seedance_inline_assets(true, start(&[1]), Some("user-1".into()), None, "/data");
    let (p, action) = persist_next(p, PersistEvent::Found(Ok(Some("asset-old".into()))));
    assert!(matches!(action, PersistAction::Check));
    let (_, action) = persist_next(p, PersistEvent::Checked(Ok(())));
    assert!(matches!(action, PersistAction::Submit(_, ids) if ids == vec!["asset-old".to_string()]));
}

#[test]
fn failures_to_keep_an_image_are_told_and_cleaned_up() {
    let begin = || {
        persist_seedance_inline_assets(true, start(&[1]), Some("user-1".into()), None, "/data").0
    };
    let (_, action) = persist_next(begin(), PersistEvent::Found(Err("db".into())));
    assert!(matches!(action, PersistAction::Fail(m) if m == "Core 参考图查询失败: db"));
    let (p, _) = persist_next(begin(), PersistEvent::Found(Ok(None)));
    let (p, _) = persist_next(
        p,
        PersistEvent::Written(Ok((record("a"), "store".into(), "digest".into()))),
    );
    let (_, action) = persist_next(p, PersistEvent::Registered(Err("full".into())));
    assert!(matches!(
        action,
        PersistAction::RemoveAndFail(s, m) if s == "store" && m == "Core 参考图登记失败: full"
    ));
    let mut late = record("a");
    late.expires_at = u64::MAX;
    let (p, _) = persist_next(begin(), PersistEvent::Found(Ok(None)));
    let (_, action) =
        persist_next(p, PersistEvent::Written(Ok((late, "store".into(), "digest".into()))));
    assert!(matches!(action, PersistAction::Fail(m) if m == "参考图过期时间无效"));
    let refused = persist_failed("x");
    assert_eq!((refused.status, code(&refused)), (400, "invalid_asset".to_string()));
}

#[test]
fn an_image_id_comes_from_its_seed() {
    let seed = inline_asset_seed("/d", "o", "k", 10, &vec![255]);
    let mut expected = b"seedance-inline-asset-v1\0/d\0o\0k\010\0".to_vec();
    expected.push(255);
    assert_eq!(seed, expected);
    assert_eq!(inline_asset_id(&vec![0x0a, 0xff]), "asset-inline-0aff");
}

#[test]
fn a_submitted_task_is_shown_as_a_chat_completion() {
    let task = r#"{"task":{"id":"video-1","status":"running","created_at":5,"content_url":"x"}}"#;
    let answer = Reply::json(200, doc(task)).with_header("x-request-id", "r-1");
    let shown = seedance_answer(answer, &body(task), 99);
    assert_eq!(shown.status, 200);
    assert_eq!(shown.headers.get("x-request-id").map(String::as_str), Some("r-1"));
    assert_eq!(shown.body.str_at("object"), Some("chat.completion"));
    assert_eq!(shown.body.str_at("id"), Some("chatcmpl-video-1"));
    assert_eq!(shown.body.str_at("model"), Some("seedance"));
    assert_eq!(shown.body.u64_at("created"), Some(5));
    let choice = &shown.body.get("choices").unwrap().as_array().unwrap()[0];
    assert_eq!(choice.str_at("finish_reason"), Some("video_async"));
    let video = shown.body.get("video_task").unwrap();
    assert_eq!(video.str_at("status"), Some("running"));
    assert_eq!(video.str_at("content_endpoint"), Some("/v1/videos/video-1/content"));
    let nameless = seedance_answer(Reply::json(200, doc("{}")), &body("{}"), 99);
    assert_eq!((nameless.status, code(&nameless)), (502, "video_task_unavailable".to_string()));
    let refused = seedance_answer(openai_error(403, "no", "no"), &body("{}"), 99);
    assert_eq!((refused.status, code(&refused)), (403, "no".to_string()));
}

#[test]
fn a_task_that_cannot_be_read_is_an_internal_error() {
    let fits = format!(r#"{{"id":"video-1","prompt":"{}"}}"#, "x".repeat(8_388_608 - 28));
    assert_eq!(fits.len(), 8_388_608);
    assert_eq!(wrap_seedance_video_response(202, None, &body(&fits), 9).status, 202);
    let large = format!("{fits} ");
    let refused = wrap_seedance_video_response(202, None, &body(&large), 9);
    assert_eq!((refused.status, message(&refused)), (500, "internal error".to_string()));
    let unread = wrap_seedance_video_response(202, None, &body("{"), 9);
    assert_eq!((unread.status, message(&unread)), (500, "internal error".to_string()));
}

fn record(id: &str) -> AssetRecord {
    AssetRecord {
        id: id.into(),
        filename: "a.png".into(),
        mime_type: "image/png".into(),
        extension: "png".into(),
        size: 2,
        sha256: "ab".into(),
        public_token: "t".into(),
        created_at: 1,
        expires_at: 2,
    }
}

fn body(text: &str) -> Vec<u8> {
    text.as_bytes().to_vec()
}

#[test]
fn uploads_are_read_from_base64_and_data_urls() {
    let plain = parse_asset_upload(&body(r#"{"filename":"a.png","data_base64":" AQI= "}"#)).unwrap();
    assert_eq!(plain.filename, "a.png");
    assert_eq!(plain.declared_mime, None);
    assert_eq!(plain.bytes, vec![1, 2]);
    let url =
        parse_asset_upload(&body(r#"{"data":"data:image/png;base64,AQI="}"#)).unwrap();
    assert_eq!(url.filename, "upload");
    assert_eq!(url.declared_mime.as_deref(), Some("image/png"));
    assert_eq!(url.bytes, vec![1, 2]);
    let declared = parse_asset_upload(&body(
        r#"{"mime_type":"image/webp","data":"data:image/png;base64,AQI="}"#,
    ))
    .unwrap();
    assert_eq!(declared.declared_mime.as_deref(), Some("image/webp"));
}

#[test]
fn broken_uploads_are_refused() {
    let refused = parse_asset_upload(&body("{")).unwrap_err();
    assert!(message(&refused).starts_with("素材上传 JSON 无效: "));
    let refused = parse_asset_upload(&body(r#"{"data":"  "}"#)).unwrap_err();
    assert_eq!(message(&refused), "缺少 data_base64 字段");
    let long = format!(r#"{{"filename":"{}","data":"AQI="}}"#, "x".repeat(129));
    assert_eq!(message(&parse_asset_upload(&body(&long)).unwrap_err()), "filename 过长");
    let refused = parse_asset_upload(&body(r#"{"data":"***"}"#)).unwrap_err();
    assert_eq!(code(&refused), "invalid_asset");
    assert!(message(&refused).starts_with("data_base64 无效: "));
    let encoded = read_asset_upload(Ok(doc(r#"{"data":"x"}"#))).unwrap();
    let refused = decoded_upload(encoded, Err("bad".into())).unwrap_err();
    assert_eq!(message(&refused), "data_base64 无效: bad");
}

fn caller(id: &str, capabilities: &[&str]) -> Caller {
    Caller {
        key_id: Some(id.into()),
        policy: Some(ResolvedKey {
            id: id.into(),
            capabilities: capabilities.iter().map(|s| s.to_string()).collect(),
            limits: Default::default(),
            allowed_accounts: Vec::new(),
            schedule_mode: String::new(),
            dedicated_account: String::new(),
        }),
        principal: None,
    }
}

fn nobody() -> Caller {
    Caller { key_id: None, policy: None, principal: None }
}

#[test]
fn an_upload_needs_a_key_for_material() {
    let upload = body(r#"{"data":"AQI="}"#);
    assert!(matches!(
        assets_upload(&caller("k", &["assets"]), None, &upload),
        UploadStart::Limit(_, u) if u.bytes == vec![1, 2]
    ));
    assert!(matches!(
        assets_upload(&caller("k", &["chat"]), None, &upload),
        UploadStart::Answer(reply) if reply.status == 403
    ));
    assert!(matches!(
        assets_upload(&nobody(), None, &upload),
        UploadStart::Answer(reply) if reply.status == 401
    ));
    assert!(matches!(
        assets_upload(&nobody(), Some(CoreMode::Enforce), &upload),
        UploadStart::Answer(reply) if reply.status == 401
    ));
    let known = Caller {
        principal: Some(Principal { user_id: "u".into(), key_id: "k".into() }),
        ..nobody()
    };
    assert!(matches!(
        assets_upload(&known, Some(CoreMode::Enforce), &upload),
        UploadStart::Core
    ));
}

#[test]
fn core_material_is_registered_or_removed() {
    let upload = parse_asset_upload(&body(r#"{"data":"AQI="}"#));
    let (stage, action) =
        core_assets_upload(CoreUploadStage::Scoping, CoreUploadEvent::Scoped(true, 20, upload));
    assert!(matches!(action, CoreUploadAction::Limit(2)));
    let (stage, action) = core_assets_upload(stage, CoreUploadEvent::Guarded(Ok(())));
    assert!(matches!(action, CoreUploadAction::Write(_)));
    let written = Ok((record("asset-1"), "store".to_string(), "digest".to_string()));
    let (stage, action) = core_assets_upload(stage, CoreUploadEvent::Written(written));
    let CoreUploadAction::Register(input) = action else {
        panic!("the material is registered");
    };
    assert_eq!((input.created_at_ms, input.expires_at_ms), (1000, 2000));
    let registered = CoreUploadEvent::Registered(Ok(input), Some("https://x".into()));
    let (_, action) = core_assets_upload(stage, registered);
    let CoreUploadAction::Answer(reply) = action else {
        panic!("the upload is answered");
    };
    assert_eq!(reply.body.str_at("id"), Some("asset-1"));
    assert_eq!(reply.body.u64_at("created_at"), Some(1));
    assert_eq!(reply.body.str_at("content_url"), Some("https://x"));
    let (_, action) = core_assets_upload(
        CoreUploadStage::Registering("store".into()),
        CoreUploadEvent::Registered(Err(CoreError::Other("x".into())), None),
    );
    assert!(matches!(action, CoreUploadAction::RemoveAndAnswer(s, _) if s == "store"));
    let (_, action) = core_assets_upload(
        CoreUploadStage::Scoping,
        CoreUploadEvent::Scoped(false, 1, parse_asset_upload(&body("{"))),
    );
    assert!(matches!(action, CoreUploadAction::Answer(reply) if reply.status == 403));
}

#[test]
fn kept_material_is_shown_and_read() {
    let shown = asset_created(Ok(record("asset-1")), None);
    assert_eq!(shown.status, 200);
    assert_eq!(shown.body.u64_at("bytes"), Some(2));
    assert!(shown.body.get("content_url").is_none());
    assert_eq!(code(&asset_created(Err("x".into()), None)), "invalid_asset");
    let AssetAnswer::Content(200, headers) = assets_content(Ok(Some(("image/png".into(), 12)))) else {
        panic!("the material is there");
    };
    assert_eq!(headers.get("content-length").map(String::as_str), Some("12"));
    assert_eq!(headers.get("cache-control").map(String::as_str), Some("no-store"));
    assert!(matches!(
        assets_content(Ok(Some(("image/png\n".into(), 12)))),
        AssetAnswer::Document(reply) if reply.status == 500
    ));
    assert!(matches!(
        assets_content(Ok(None)),
        AssetAnswer::Document(reply) if reply.status == 404
    ));
    assert_eq!(to_millis(7), Some(7000));
    assert_eq!(to_millis(u64::MAX), None);
}

#[test]
fn an_image_is_made_by_an_account_that_the_key_may_use() {
    let (r, action) = images_generations(caller("k", &["chat"]), None);
    assert!(matches!(action, ImageAction::Guard(_)));
    let (r, action) = image_guarded(r, Ok(()), &body(r#"{"prompt":"cat","model":"  "}"#));
    let ImageAction::Validate(model, prompt, image) = action else {
        panic!("the request is held against the catalogue");
    };
    assert_eq!((model.as_str(), prompt.as_str(), image), ("hy4", "cat", None));
    let (r, action) = image_next(r, ImageEvent::Validated(Ok(()), "dedicated".into()));
    assert!(matches!(action, ImageAction::Pick(_)));
    let (r, action) = image_next(r, ImageEvent::Picked(Some("uid-1".into())));
    assert!(matches!(action, ImageAction::Generate(uid) if uid == "uid-1"));
    let (_, action) = image_next(r, ImageEvent::Generated(Ok(doc(r#"{"data":[]}"#))));
    let ImageAction::Answer(Some(note), reply) = action else {
        panic!("the request is answered");
    };
    assert_eq!((note.served, note.status, reply.status), (true, 200, 200));
    assert_eq!(note.path, "/v1/images/generations");
}

#[test]
fn image_requests_are_refused_for_their_reasons() {
    let (_, action) = images_edits(caller("k", &["chat"]), Some(CoreMode::Enforce));
    assert!(matches!(
        action,
        ImageAction::Answer(None, reply) if code(&reply) == "scheduler_endpoint_not_enabled"
    ));
    let (_, action) = images_edits(caller("k", &[]), None);
    assert!(matches!(action, ImageAction::Answer(None, reply) if reply.status == 403));
    let (r, _) = images_edits(caller("k", &["chat"]), None);
    let (r, action) = image_guarded(r, Ok(()), &body("{}"));
    assert!(matches!(action, ImageAction::Validate(_, _, Some(image)) if image.is_empty()));
    let refused = ImageEvent::Validated(Err((9999, "no".into())), String::new());
    let (_, action) = image_next(r, refused);
    assert!(matches!(action, ImageAction::Answer(None, reply) if reply.status == 400));
    let (r, _) = images_edits(caller("k", &["chat"]), None);
    let (_, action) = image_guarded(r, Ok(()), &body("{"));
    assert!(matches!(action, ImageAction::Answer(None, reply) if reply.status == 400));
    assert_eq!(image_task_broke("x"), (500, "task join error: x".to_string()));
    assert_eq!(embeddings().status, 501);
}
