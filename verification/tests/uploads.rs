//! Native uploads, stored videos and protected inputs.

use aiwork_gateway::assets::AssetRecord;
use aiwork_gateway::json::Json;
use aiwork_gateway::outside;
use aiwork_gateway::table::Table;
use aiwork_gateway::trae_resource_upload::{
    build_commit_payload, build_image_upload_headers, build_image_upload_payload,
    build_upload_headers, crc32_hex, crc32_padded_hex, detect_image_dimensions,
    encode_remote_attachment, image_target_path, native_target_path, native_upload_method,
    parse_upload_url_response, request_error, upload_asset, UploadAction, UploadEvent, UploadStage,
};
use aiwork_gateway::video_payload::{settle_existing, VideoPayloadStore};
use aiwork_gateway::video_store::{
    artifact_path, check_download, cleanup, content_url, count_downloaded, download_address,
};

fn doc(text: &str) -> Json {
    outside::parse_text(text).unwrap()
}

fn sorted(json: &Json) -> Json {
    match json {
        Json::Object(members) => {
            let mut all: Vec<(String, Json)> =
                members.iter().map(|(k, v)| (k.clone(), sorted(v))).collect();
            all.sort_by(|a, b| a.0.cmp(&b.0));
            Json::Object(all)
        }
        Json::Array(items) => Json::Array(items.iter().map(sorted).collect()),
        other => other.dup(),
    }
}

#[test]
fn crc32_matches_official_hex_format() {
    assert_eq!(crc32_hex(b"123456789"), "cbf43926");
}

#[test]
fn parses_native_upload_response_with_data_wrapper() {
    let value = doc(
        r#"{"data":{"upload_hosts":["upload.example.com"],"store_infos":[{"auth":"signed-upload-auth","store_uri":"tos-cn-i-test/image/frame.png","uploadHeader":{"x-storage-mode":"fallback","Specified-Content-Type":"image/png"}}],"session_key":"session-key"}}"#,
    );
    let parsed = parse_upload_url_response(&value).unwrap();
    assert_eq!(parsed.upload_host, "upload.example.com");
    assert_eq!(parsed.auth, "signed-upload-auth");
    assert_eq!(parsed.store_uri, "tos-cn-i-test/image/frame.png");
    assert_eq!(parsed.session_key.as_deref(), Some("session-key"));
    assert_eq!(
        parsed.upload_headers.get("x-storage-mode").map(String::as_str),
        Some("fallback")
    );
    assert_eq!(
        parsed.upload_headers.get("Specified-Content-Type").map(String::as_str),
        Some("image/png")
    );
}

#[test]
fn an_upload_response_without_a_host_is_an_error() {
    assert!(parse_upload_url_response(&doc(r#"{"data":{}}"#)).is_err());
    assert!(parse_upload_url_response(&doc(r#"{"data":{"upload_hosts":["h"]}}"#)).is_err());
}

#[test]
fn builds_native_binary_upload_headers() {
    let mut given: Table<String> = Table::new();
    given.insert("x-storage-mode", "fallback".to_string());
    let headers = build_upload_headers("signed-upload-auth", "cbf43926", &given);
    assert_eq!(headers.get("Authorization").map(String::as_str), Some("signed-upload-auth"));
    assert_eq!(headers.get("Content-CRC32").map(String::as_str), Some("cbf43926"));
    assert_eq!(
        headers.get("Content-Type").map(String::as_str),
        Some("application/octet-stream")
    );
    assert!(!headers.contains_key("Content-Disposition"));
    assert!(!headers.contains_key("Specified-Content-Type"));
    assert_eq!(headers.get("x-storage-mode").map(String::as_str), Some("fallback"));
}

#[test]
fn native_upload_uses_put_transport() {
    assert_eq!(native_upload_method(), "PUT");
}

#[test]
fn encodes_remote_attachment_with_magic_number_v2() {
    let encoded = encode_remote_attachment(&[0x00, 0xff, 0x42]);
    assert_eq!(&encoded[..8], &[0, 0, 0, 0, 27, 198, 174, 134]);
    assert_eq!(&encoded[8..], &[234, 96, 248]);
}

#[test]
fn native_target_is_a_trae_resource_name() {
    let target = native_target_path();
    assert!(target.ends_with(".trae"));
    assert_eq!(target.len(), 37);
    assert_ne!(target, native_target_path());
}

#[test]
fn commit_payload_uses_native_store_uri_and_session_key() {
    let payload = build_commit_payload("tos-cn-i-test/image/frame.png", Some("session-key"));
    assert_eq!(
        sorted(&payload),
        doc(
            r#"{"oids":["tos-cn-i-test/image/frame.png"],"session_key":"session-key","biz_type":"remote_resource"}"#
        )
    );
}

#[test]
fn image_upload_payload_matches_native_image_contract() {
    let target = image_target_path(182, 221);
    assert!(target.ends_with("_182x221.trae"));
    assert!(target[..32].bytes().all(|b| matches!(b, b'0'..=b'9' | b'a'..=b'f')));
    assert_eq!(target.len(), 32 + 1 + "182x221".len() + ".trae".len());
    assert_eq!(
        sorted(&build_image_upload_payload(&target, 182, 221)),
        doc(&format!(
            r#"{{"targets":["{target}"],"biz_type":"image","scale_param":{{"width":182,"height":221}}}}"#
        ))
    );
}

#[test]
fn image_upload_uses_raw_bytes_and_padded_crc32() {
    assert_eq!(crc32_padded_hex(b"123456789"), "cbf43926");
    assert_eq!(crc32_padded_hex(&[0]), "d202ef8d");
    let headers = build_image_upload_headers(
        "signed-upload-auth",
        "0000000a",
        "image/jpeg",
        &Table::new(),
    );
    assert_eq!(headers.get("Authorization").map(String::as_str), Some("signed-upload-auth"));
    assert_eq!(headers.get("Content-CRC32").map(String::as_str), Some("0000000a"));
    assert_eq!(headers.get("Content-Type").map(String::as_str), Some("image/jpeg"));
}

#[test]
fn detects_dimensions_for_native_image_upload() {
    let png = [
        0x89, b'P', b'N', b'G', 0x0d, 0x0a, 0x1a, 0x0a, 0, 0, 0, 13, b'I', b'H', b'D', b'R', 0, 0,
        0, 182, 0, 0, 0, 221,
    ];
    assert_eq!(detect_image_dimensions(&png), Some((182, 221)));
    assert_eq!(detect_image_dimensions(b"not an image"), None);
}

#[test]
fn an_upload_goes_from_plan_to_commit() {
    let record = AssetRecord {
        id: "asset-1".into(),
        filename: "clip.mp4".into(),
        mime_type: "video/mp4".into(),
        extension: "mp4".into(),
        size: 3,
        sha256: "00".into(),
        public_token: "t".into(),
        created_at: 1,
        expires_at: 2,
    };
    let bytes = [1u8, 2, 3];
    let (stage, action) =
        upload_asset(&record, &bytes, "token", UploadStage::New, UploadEvent::Begin);
    assert!(matches!(action, UploadAction::RequestPlan(_)));
    let plan = doc(
        r#"{"data":{"upload_hosts":["h.example"],"store_infos":[{"auth":"a","store_uri":"tos-x/y"}],"session_key":"s"}}"#,
    );
    let (stage, action) =
        upload_asset(&record, &bytes, "token", stage, UploadEvent::PlanRead(plan));
    let UploadAction::Send(_, headers, sent) = action else {
        panic!("the bytes are sent");
    };
    assert_eq!(headers.get("Authorization").map(String::as_str), Some("a"));
    assert_eq!(sent, encode_remote_attachment(&bytes));
    let (stage, action) =
        upload_asset(&record, &bytes, "token", stage, UploadEvent::Answered(200, String::new()));
    assert!(matches!(action, UploadAction::Commit(_)));
    let (_, action) =
        upload_asset(&record, &bytes, "token", stage, UploadEvent::Answered(200, String::new()));
    assert!(matches!(action, UploadAction::Finished(uri) if uri == "tos-x/y"));
}

#[test]
fn a_refused_upload_says_whether_another_account_may_help() {
    assert!(request_error(401, "", "x").retryable_account);
    assert!(request_error(500, "Invalid Token", "x").retryable_account);
    let error = request_error(500, "boom", "上传");
    assert!(!error.retryable_account);
    assert_eq!(error.message, "上传 HTTP 500: boom");
}

#[test]
fn rejects_path_traversal_and_builds_default_path() {
    assert!(artifact_path("/tmp/root", None, "video-1").unwrap().ends_with("video-1.mp4"));
    assert!(artifact_path("/tmp/root", None, "..\\secret").is_err());
    assert!(artifact_path("/tmp/root", None, "").is_err());
    assert_eq!(content_url("video-1", None).unwrap(), "/v1/videos/video-1/content");
}

#[test]
fn cleanup_only_removes_old_mp4() {
    assert!(!cleanup("new.mp4", Some(100), 100, u64::MAX));
    assert!(!cleanup("keep.txt", Some(0), 100, 1));
    assert!(cleanup("old.mp4", Some(0), 100, 100));
    assert!(cleanup("old.mp4.part", Some(0), 100, 100));
    assert!(!cleanup("old.mp4", Some(0), 100, 101));
    assert!(!cleanup("old.mp4", Some(0), 100, 0));
    assert!(!cleanup("undated.mp4", None, 100, 1));
}

#[test]
fn downloads_are_bounded_and_come_over_http() {
    assert_eq!(download_address(" https://a/v.mp4 ").unwrap(), "https://a/v.mp4");
    assert!(download_address("ftp://a/v.mp4").is_err());
    assert!(check_download(200, Some(11)).is_ok());
    assert!(check_download(404, None).is_err());
    assert!(check_download(200, Some(u64::MAX)).is_err());
    assert_eq!(count_downloaded(0, 11).unwrap(), 11);
    assert!(count_downloaded(11, u64::MAX).is_err());
}

#[test]
fn protected_payload_round_trips_and_enforces_owner_and_digest() {
    let store = VideoPayloadStore::new("/tmp/data");
    let body = doc(r#"{"model":"mock-video","prompt":"secret"}"#);
    let digest = vec![7_u8; 32];
    let other = vec![8_u8; 32];
    let kept = || store.put("job-1", "user-1", &digest, &body).unwrap();
    assert_eq!(store.get("job-1", "user-1", &digest, Some(kept())).unwrap(), Some(body.dup()));
    assert!(store.get("job-1", "user-2", &digest, Some(kept())).is_err());
    assert!(store.get("job-1", "user-1", &other, Some(kept())).is_err());
    assert!(store.remove("job-1").is_ok());
    assert_eq!(store.get("job-1", "user-1", &digest, None).unwrap(), None);
    assert!(store.put("../job", "user-1", &digest, &body).is_err());
    assert!(store.put("job-1", "user-1", &vec![7_u8; 31], &body).is_err());
    assert!(settle_existing(&kept(), &kept()).is_ok());
    let changed = store.put("job-1", "user-1", &other, &body).unwrap();
    assert!(settle_existing(&changed, &kept()).is_err());
}

#[test]
fn an_input_is_the_same_whatever_the_order_of_its_members() {
    let store = VideoPayloadStore::new("/tmp/data");
    let digest = vec![7_u8; 32];
    let kept = |text: &str| store.put("job-1", "user-1", &digest, &doc(text)).unwrap();
    let one = kept(r#"{"a":[0.0,1],"b":{"c":null}}"#);
    assert!(settle_existing(&one, &kept(r#"{"b":{"c":null},"a":[-0.0,1]}"#)).is_ok());
    assert!(settle_existing(&one, &kept(r#"{"a":[0.0,1.0],"b":{"c":null}}"#)).is_err());
    assert!(settle_existing(&one, &kept(r#"{"a":[1,0.0],"b":{"c":null}}"#)).is_err());
    assert!(settle_existing(&one, &kept(r#"{"a":[0.0,1]}"#)).is_err());
    assert!(settle_existing(&kept("1e2"), &kept("100.0")).is_ok());
}
