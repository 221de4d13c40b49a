//! The endpoints of uploaded reference material.

use crate::access::{self, Caller, CallerView, Capability, KeyLimits, MAX_BODY_BYTES};
use crate::assets::{AssetRecord, AssetView};
use crate::core_routes;
use crate::core_types::{CoreError, CoreErrorView, CoreMode};
use crate::core_video;
use crate::json::{Json, JsonView};
use crate::outside;
use crate::reply::{self, LimitError, LimitView, Protocol, Reply, ReplyView};
use crate::table::{self, Table};
use crate::text;
use crate::text_request;
use vstd::prelude::*;

verus! {

/// The headers of uploaded material: nobody keeps it, nobody is told where it
/// was seen, and nobody guesses what it is.
pub open spec fn security_headers() -> Seq<(Seq<char>, Seq<char>)> {
    seq![
        ("cache-control"@, "no-store"@),
        ("referrer-policy"@, "no-referrer"@),
        ("x-content-type-options"@, "nosniff"@),
    ]
}

/// The headers of uploaded material.
pub fn asset_security_headers() -> (r: [(&'static str, &'static str); 3])
    ensures
        Seq::new(3, |i: int| (r@[i].0@, r@[i].1@)) == security_headers(),
{
    let r = [
        ("cache-control", "no-store"),
        ("referrer-policy", "no-referrer"),
        ("x-content-type-options", "nosniff"),
    ];
    assert(Seq::new(3, |i: int| (r@[i].0@, r@[i].1@)) =~= security_headers());
    r
}

/// The query of a link to material.
#[derive(Debug)]
pub struct PublicAssetQuery {
    pub token: String,
}

/// An upload: its name, its media type as far as it is known, and its bytes.
#[derive(Debug)]
pub struct ParsedAssetUpload {
    pub filename: String,
    pub declared_mime: Option<String>,
    pub bytes: Vec<u8>,
}

/// The model of a [`ParsedAssetUpload`].
pub struct UploadView {
    pub filename: Seq<char>,
    pub declared_mime: Option<Seq<char>>,
    pub bytes: Seq<u8>,
}

impl View for ParsedAssetUpload {
    type V = UploadView;

    open spec fn view(&self) -> UploadView {
        UploadView {
            filename: self.filename@,
            declared_mime: text::opt_view(self.declared_mime),
            bytes: self.bytes@,
        }
    }
}

/// The model of a read upload.
pub open spec fn upload_view(r: Result<ParsedAssetUpload, Reply>) -> Result<UploadView, ReplyView> {
    match r {
        Ok(upload) => Ok(upload@),
        Err(reply) => Err(reply@),
    }
}

/// An upload before its bytes are decoded.
#[derive(Debug)]
pub struct EncodedUpload {
    pub filename: String,
    pub declared_mime: Option<String>,
    pub encoded: String,
}

/// The model of an [`EncodedUpload`].
pub struct EncodedView {
    pub filename: Seq<char>,
    pub declared_mime: Option<Seq<char>>,
    pub encoded: Seq<char>,
}

impl View for EncodedUpload {
    type V = EncodedView;

    open spec fn view(&self) -> EncodedView {
        EncodedView {
            filename: self.filename@,
            declared_mime: text::opt_view(self.declared_mime),
            encoded: self.encoded@,
        }
    }
}

/// The model of an upload before its bytes are decoded.
pub open spec fn encoded_view(r: Result<EncodedUpload, Reply>) -> Result<EncodedView, ReplyView> {
    match r {
        Ok(upload) => Ok(upload@),
        Err(reply) => Err(reply@),
    }
}

/// The text of the first of two members that is there.
pub open spec fn either_text(body: JsonView, first: Seq<char>, second: Seq<char>) -> Option<
    Seq<char>,
> {
    match body.get(first) {
        Some(value) => value.as_text(),
        None => body.text_at(second),
    }
}

fn read_either<'a>(body: &'a Json, first: &str, second: &str) -> (r: Option<&'a str>)
    ensures
        match r {
            Some(s) => either_text(body@, first@, second@) == Some(s@),
            None => either_text(body@, first@, second@) is None,
        },
{
    match body.get(first) {
        Some(value) => value.as_str(),
        None => body.str_at(second),
    }
}

/// What stands before the first semicolon.
pub open spec fn before_semicolon(s: Seq<char>) -> Seq<char> {
    if s.contains(';') {
        s.subrange(0, text::index_of_char(s, ';'))
    } else {
        s
    }
}

/// The material may come as a data URL; its media type counts where none was
/// declared.
pub open spec fn unwrapped(data: Seq<char>, mime: Option<Seq<char>>) -> (
    Option<Seq<char>>,
    Seq<char>,
) {
    let comma = text::index_of_char(data, ',');
    let head = data.subrange(0, comma);
    if data.contains(',') && text::starts_with(head, "data:"@) {
        (
            if mime is Some {
                mime
            } else {
                Some(before_semicolon(head.subrange("data:"@.len() as int, head.len() as int)))
            },
            data.subrange(comma + 1, data.len() as int),
        )
    } else {
        (mime, data)
    }
}

/// An upload as its document says, before its bytes are decoded.
pub open spec fn read_upload(parsed: Result<JsonView, Seq<char>>) -> Result<EncodedView, ReplyView> {
    match parsed {
        Err(error) => Err(
            reply::openai(
                400,
                "invalid_request_error"@,
                "素材上传 JSON 无效: "@ + error,
            ),
        ),
        Ok(body) => {
            let filename = match body.text_at("filename"@) {
                Some(name) => name,
                None => "upload"@,
            };
            let data = match either_text(body, "data_base64"@, "data"@) {
                Some(data) => text::trim(data),
                None => Seq::empty(),
            };
            if text::byte_len(filename) > 128 {
                Err(reply::openai(400, "invalid_request_error"@, "filename 过长"@))
            } else if data.len() == 0 {
                Err(
                    reply::openai(400, "invalid_request_error"@, "缺少 data_base64 字段"@),
                )
            } else {
                let (declared_mime, encoded) = unwrapped(
                    data,
                    either_text(body, "mime_type"@, "content_type"@),
                );
                Ok(EncodedView { filename, declared_mime, encoded })
            }
        },
    }
}

fn unwrap_data(data: &str, mime: Option<&str>) -> (r: (Option<String>, String))
    ensures
        (text::opt_view(r.0), r.1@) == unwrapped(
            data@,
            match mime {
                Some(mime) => Some(mime@),
                None => None,
            },
        ),
{
    let declared = match mime {
        Some(mime) => Some(mime.to_owned()),
        None => None,
    };
    match text::split_at_char(data, ',') {
        Some((head, rest)) => match text::strip(head, "data:") {
            Some(kind) => {
                let declared = match declared {
                    Some(mime) => Some(mime),
                    None => match text::split_at_char(kind, ';') {
                        Some((first, _)) => Some(first.to_owned()),
                        None => Some(kind.to_owned()),
                    },
                };
                (declared, rest.to_owned())
            },
            None => (declared, data.to_owned()),
        },
        None => (declared, data.to_owned()),
    }
}

/// Reads the document of an upload.
pub fn read_asset_upload(parsed: Result<Json, String>) -> (r: Result<EncodedUpload, Reply>)
    ensures
        encoded_view(r) == read_upload(outside::result_model(parsed)),
{
    let body = match parsed {
        Ok(body) => body,
        Err(error) => {
            return Err(
                reply::openai_error(
                    400,
                    "invalid_request_error",
                    text::join2("素材上传 JSON 无效: ", error.as_str()).as_str(),
                ),
            );
        },
    };
    let filename = match body.str_at("filename") {
        Some(name) => name.to_owned(),
        None => "upload".to_owned(),
    };
    if text::bytes_in(filename.as_str()) > 128 {
        return Err(reply::openai_error(400, "invalid_request_error", "filename 过长"));
    }
    let data = match read_either(&body, "data_base64", "data") {
        Some(data) => text::trimmed(data),
        None => "",
    };
    proof {
        reveal_strlit("");
    }
    if data.is_empty() {
        return Err(
            reply::openai_error(400, "invalid_request_error", "缺少 data_base64 字段"),
        );
    }
    let (declared_mime, encoded) = unwrap_data(data, read_either(&body, "mime_type", "content_type"));
    Ok(EncodedUpload { filename, declared_mime, encoded })
}

/// An upload with its decoded bytes.
pub open spec fn with_bytes(upload: EncodedView, decoded: Result<Seq<u8>, Seq<char>>) -> Result<
    UploadView,
    ReplyView,
> {
    match decoded {
        Err(error) => Err(
            reply::openai(400, "invalid_asset"@, "data_base64 无效: "@ + error),
        ),
        Ok(bytes) => Ok(
            UploadView { filename: upload.filename, declared_mime: upload.declared_mime, bytes },
        ),
    }
}

/// An upload with its decoded bytes.
pub fn decoded_upload(upload: EncodedUpload, decoded: Result<Vec<u8>, String>) -> (r: Result<
    ParsedAssetUpload,
    Reply,
>)
    ensures
        upload_view(r) == with_bytes(upload@, outside::bytes_model(decoded)),
{
    match decoded {
        Err(error) => Err(
            reply::openai_error(
                400,
                "invalid_asset",
                text::join2("data_base64 无效: ", error.as_str()).as_str(),
            ),
        ),
        Ok(bytes) => Ok(
            ParsedAssetUpload {
                filename: upload.filename,
                declared_mime: upload.declared_mime,
                bytes,
            },
        ),
    }
}

/// An upload as its body says.
pub open spec fn upload_of(body: Seq<u8>) -> Result<UploadView, ReplyView> {
    match read_upload(outside::json_of_bytes(body)) {
        Err(reply) => Err(reply),
        Ok(upload) => with_bytes(upload, outside::base64_of(upload.encoded)),
    }
}

/// Reads the body of an upload.
pub fn parse_asset_upload(body: &Vec<u8>) -> (r: Result<ParsedAssetUpload, Reply>)
    ensures
        upload_view(r) == upload_of(body@),
{
    match read_asset_upload(outside::parse_bytes(body)) {
        Err(reply) => Err(reply),
        Ok(upload) => {
            let decoded = outside::base64_decode(upload.encoded.as_str());
            decoded_upload(upload, decoded)
        },
    }
}

/// The first step of an upload.
#[derive(Debug)]
pub enum UploadStart {
    /// Hand it to Core.
    Core,
    /// Take a permit under these limits, then keep the material.
    Limit(KeyLimits, ParsedAssetUpload),
    Answer(Reply),
}

/// The model of an [`UploadStart`].
pub enum UploadStartView {
    Core,
    Limit(KeyLimits, UploadView),
    Answer(ReplyView),
}

impl View for UploadStart {
    type V = UploadStartView;

    open spec fn view(&self) -> UploadStartView {
        match self {
            UploadStart::Core => UploadStartView::Core,
            UploadStart::Limit(limits, upload) => UploadStartView::Limit(*limits, upload@),
            UploadStart::Answer(reply) => UploadStartView::Answer(reply@),
        }
    }
}

/// The first step of an upload that was read as `upload`.
pub open spec fn upload_started(
    caller: CallerView,
    core: Option<CoreMode>,
    upload: Result<UploadView, ReplyView>,
) -> UploadStartView {
    if access::enforcing(core) {
        if caller.principal is None {
            UploadStartView::Answer(core_routes::unauthorized_reply())
        } else {
            UploadStartView::Core
        }
    } else {
        match access::admission(caller.name(), caller.policy, Capability::Assets) {
            Err(refusal) => UploadStartView::Answer(refusal),
            Ok(limits) => match upload {
                Err(reply) => UploadStartView::Answer(reply),
                Ok(upload) => UploadStartView::Limit(limits, upload),
            },
        }
    }
}

/// The first step of an upload that was read as `upload`.
pub fn start_upload(
    caller: &Caller,
    core: Option<CoreMode>,
    upload: Result<ParsedAssetUpload, Reply>,
) -> (r: UploadStart)
    ensures
        r@ == upload_started(caller@, core, upload_view(upload)),
{
    if access::core_enforcing(core) {
        if caller.principal.is_none() {
            return UploadStart::Answer(
                reply::openai_error(401, "unauthorized", "Core Principal required"),
            );
        }
        return UploadStart::Core;
    }
    match access::require_legacy_capability(
        caller.name().as_str(),
        &caller.policy,
        Capability::Assets,
    ) {
        Err(refusal) => UploadStart::Answer(refusal),
        Ok(limits) => match upload {
            Err(reply) => UploadStart::Answer(reply),
            Ok(upload) => UploadStart::Limit(limits, upload),
        },
    }
}

/// The first step of an upload.
pub fn assets_upload(caller: &Caller, core: Option<CoreMode>, body: &Vec<u8>) -> (r: UploadStart)
    ensures
        r@ == upload_started(caller@, core, upload_of(body@)),
{
    start_upload(caller, core, parse_asset_upload(body))
}

/// Material as a client sees it.
pub open spec fn asset_document(
    id: Seq<char>,
    filename: Seq<char>,
    mime_type: Seq<char>,
    bytes: JsonView,
    sha256: Seq<char>,
    created_at: JsonView,
    expires_at: JsonView,
    content_url: Option<Seq<char>>,
) -> JsonView {
    core_video::and_maybe(
        JsonView::object().member("object"@, JsonView::Text("asset"@)).member(
            "id"@,
            JsonView::Text(id),
        ).member("filename"@, JsonView::Text(filename)).member(
            "mime_type"@,
            JsonView::Text(mime_type),
        ).member("bytes"@, bytes).member("sha256"@, JsonView::Text(sha256)).member(
            "created_at"@,
            created_at,
        ).member("expires_at"@, expires_at),
        "content_url"@,
        match content_url {
            Some(url) => Some(JsonView::Text(url)),
            None => None,
        },
    )
}

fn asset_json(
    id: &str,
    filename: &str,
    mime_type: &str,
    bytes: Json,
    sha256: &str,
    created_at: Json,
    expires_at: Json,
    content_url: Option<String>,
) -> (r: Json)
    ensures
        r@ == asset_document(
            id@,
            filename@,
            mime_type@,
            bytes@,
            sha256@,
            created_at@,
            expires_at@,
            text::opt_view(content_url),
        ),
{
    let document = Json::object().member("object", Json::text("asset")).member(
        "id",
        Json::text(id),
    ).member("filename", Json::text(filename)).member("mime_type", Json::text(mime_type)).member(
        "bytes",
        bytes,
    ).member("sha256", Json::text(sha256)).member("created_at", created_at).member(
        "expires_at",
        expires_at,
    );
    let url = match content_url {
        Some(url) => Some(Json::Text(url)),
        None => None,
    };
    core_video::with_maybe(document, "content_url", url)
}

/// The answer once the material was kept, or could not be.
pub open spec fn created_reply(
    created: Result<AssetView, Seq<char>>,
    content_url: Option<Seq<char>>,
) -> ReplyView {
    match created {
        Err(error) => reply::openai(400, "invalid_asset"@, error),
        Ok(record) => reply::json_answer(
            200,
            asset_document(
                record.id,
                record.filename,
                record.mime_type,
                JsonView::Number(crate::json::number(record.size)),
                record.sha256,
                JsonView::Number(crate::json::number(record.created_at)),
                JsonView::Number(crate::json::number(record.expires_at)),
                content_url,
            ),
        ),
    }
}

/// The model of kept material.
pub open spec fn record_view(r: Result<AssetRecord, String>) -> Result<AssetView, Seq<char>> {
    match r {
        Ok(record) => Ok(record@),
        Err(error) => Err(error@),
    }
}

/// The answer once the material was kept, or could not be. A link to it is
/// shown only where one is given out.
pub fn asset_created(created: Result<AssetRecord, String>, content_url: Option<String>) -> (r: Reply)
    ensures
        r@ == created_reply(record_view(created), text::opt_view(content_url)),
{
    match created {
        Err(error) => reply::openai_error(400, "invalid_asset", error.as_str()),
        Ok(record) => Reply::json(
            200,
            asset_json(
                record.id.as_str(),
                record.filename.as_str(),
                record.mime_type.as_str(),
                Json::unsigned(record.size),
                record.sha256.as_str(),
                Json::unsigned(record.created_at),
                Json::unsigned(record.expires_at),
                content_url,
            ),
        ),
    }
}

/// What Core is told of material.
#[derive(Debug, PartialEq, Eq)]
pub struct CreateAssetInput {
    pub id: String,
    pub filename: String,
    pub mime_type: String,
    pub extension: String,
    pub size: i64,
    pub sha256: String,
    pub storage_ref: String,
    pub content_token_digest: String,
    pub created_at_ms: i64,
    pub expires_at_ms: i64,
}

/// The model of a [`CreateAssetInput`].
pub struct AssetInputView {
    pub id: Seq<char>,
    pub filename: Seq<char>,
    pub mime_type: Seq<char>,
    pub extension: Seq<char>,
    pub size: i64,
    pub sha256: Seq<char>,
    pub storage_ref: Seq<char>,
    pub content_token_digest: Seq<char>,
    pub created_at_ms: i64,
    pub expires_at_ms: i64,
}

impl View for CreateAssetInput {
    type V = AssetInputView;

    open spec fn view(&self) -> AssetInputView {
        AssetInputView {
            id: self.id@,
            filename: self.filename@,
            mime_type: self.mime_type@,
            extension: self.extension@,
            size: self.size,
            sha256: self.sha256@,
            storage_ref: self.storage_ref@,
            content_token_digest: self.content_token_digest@,
            created_at_ms: self.created_at_ms,
            expires_at_ms: self.expires_at_ms,
        }
    }
}

/// A time in milliseconds, where it is one of 64 bits with a sign.
pub open spec fn millis(seconds: u64) -> Option<i64> {
    if seconds * 1000 <= i64::MAX {
        Some((seconds * 1000) as i64)
    } else {
        None
    }
}

/// A time in milliseconds, where it is one of 64 bits with a sign.
pub fn to_millis(seconds: u64) -> (r: Option<i64>)
    ensures
        r == millis(seconds),
{
    if seconds <= 9223372036854775 {
        Some((seconds * 1000) as i64)
    } else {
        None
    }
}

/// Which time of a record Core cannot hold.
#[derive(Clone, Copy, Debug, PartialEq, Eq, Structural)]
pub enum TimeFault {
    Created,
    Expires,
}

/// What Core is told of a record, of where it was written to and of the digest
/// of its token.
pub open spec fn core_input(
    record: AssetView,
    storage_ref: Seq<char>,
    content_token_digest: Seq<char>,
) -> Result<AssetInputView, TimeFault> {
    match millis(record.created_at) {
        None => Err(TimeFault::Created),
        Some(created_at_ms) => match millis(record.expires_at) {
            None => Err(TimeFault::Expires),
            Some(expires_at_ms) => Ok(
                AssetInputView {
                    id: record.id,
                    filename: record.filename,
                    mime_type: record.mime_type,
                    extension: record.extension,
                    size: record.size as i64,
                    sha256: record.sha256,
                    storage_ref,
                    content_token_digest,
                    created_at_ms,
                    expires_at_ms,
                },
            ),
        },
    }
}

/// The model of what Core is told.
pub open spec fn input_view(r: Result<CreateAssetInput, TimeFault>) -> Result<
    AssetInputView,
    TimeFault,
> {
    match r {
        Ok(input) => Ok(input@),
        Err(fault) => Err(fault),
    }
}

/// What Core is told of a record, of where it was written to and of the digest
/// of its token.
pub fn core_asset_input(
    record: &AssetRecord,
    storage_ref: &str,
    content_token_digest: &str,
) -> (r: Result<CreateAssetInput, TimeFault>)
    ensures
        input_view(r) == core_input(record@, storage_ref@, content_token_digest@),
{
    let created_at_ms: i64 = match to_millis(record.created_at) {
        Some(ms) => ms,
        None => {
            return Err(TimeFault::Created);
        },
    };
    let expires_at_ms: i64 = match to_millis(record.expires_at) {
        Some(ms) => ms,
        None => {
            return Err(TimeFault::Expires);
        },
    };
    Ok(
        CreateAssetInput {
            id: record.id.clone(),
            filename: record.filename.clone(),
            mime_type: record.mime_type.clone(),
            extension: record.extension.clone(),
            size: record.size as i64,
            sha256: record.sha256.clone(),
            storage_ref: storage_ref.to_owned(),
            content_token_digest: content_token_digest.to_owned(),
            created_at_ms,
            expires_at_ms,
        },
    )
}

/// What an upload to Core waits for.
#[derive(Debug)]
pub enum CoreUploadStage {
    Scoping,
    /// The material.
    Limiting(ParsedAssetUpload),
    Writing,
    /// Where the material was written to.
    Registering(String),
    Over,
}

/// The model of a [`CoreUploadStage`].
pub enum CoreUploadStageView {
    Scoping,
    Limiting(UploadView),
    Writing,
    Registering(Seq<char>),
    Over,
}

impl View for CoreUploadStage {
    type V = CoreUploadStageView;

    open spec fn view(&self) -> CoreUploadStageView {
        match self {
            CoreUploadStage::Scoping => CoreUploadStageView::Scoping,
            CoreUploadStage::Limiting(upload) => CoreUploadStageView::Limiting(upload@),
            CoreUploadStage::Writing => CoreUploadStageView::Writing,
            CoreUploadStage::Registering(storage) => CoreUploadStageView::Registering(storage@),
            CoreUploadStage::Over => CoreUploadStageView::Over,
        }
    }
}

/// What came of the last action.
#[derive(Debug)]
pub enum CoreUploadEvent {
    /// Whether the caller has the scope; the size of the body, and the upload.
    Scoped(bool, usize, Result<ParsedAssetUpload, Reply>),
    Guarded(Result<(), LimitError>),
    /// The record of the material, where it was written to, and the digest of
    /// the token that a link to it carries.
    Written(Result<(AssetRecord, String, String), String>),
    /// What Core keeps of the material, and the link to it, where one is given
    /// out.
    Registered(Result<CreateAssetInput, CoreError>, Option<String>),
}

/// The model of a [`CoreUploadEvent`].
pub enum CoreUploadEventView {
    Scoped(bool, usize, Result<UploadView, ReplyView>),
    Guarded(Option<LimitView>),
    Written(Result<(AssetView, Seq<char>, Seq<char>), Seq<char>>),
    Registered(Result<AssetInputView, CoreErrorView>, Option<Seq<char>>),
}

impl View for CoreUploadEvent {
    type V = CoreUploadEventView;

    open spec fn view(&self) -> CoreUploadEventView {
        match self {
            CoreUploadEvent::Scoped(granted, size, upload) => CoreUploadEventView::Scoped(
                *granted,
                *size,
                upload_view(*upload),
            ),
            CoreUploadEvent::Guarded(permit) => CoreUploadEventView::Guarded(
                core_video::limit_failure(*permit),
            ),
            CoreUploadEvent::Written(written) => CoreUploadEventView::Written(
                match written {
                    Ok((record, storage, digest)) => Ok((record@, storage@, digest@)),
                    Err(error) => Err(error@),
                },
            ),
            CoreUploadEvent::Registered(registered, url) => CoreUploadEventView::Registered(
                match registered {
                    Ok(asset) => Ok(asset@),
                    Err(error) => Err(error@),
                },
                text::opt_view(*url),
            ),
        }
    }
}

/// What is to be done next.
#[derive(Debug)]
pub enum CoreUploadAction {
    /// Take a permit for that many bytes.
    Limit(usize),
    /// Write the material.
    Write(ParsedAssetUpload),
    /// Have Core register the material.
    Register(CreateAssetInput),
    Answer(Reply),
    /// Remove what was written, then answer.
    RemoveAndAnswer(String, Reply),
}

/// The model of a [`CoreUploadAction`].
pub enum CoreUploadActionView {
    Limit(usize),
    Write(UploadView),
    Register(AssetInputView),
    Answer(ReplyView),
    RemoveAndAnswer(Seq<char>, ReplyView),
}

impl View for CoreUploadAction {
    type V = CoreUploadActionView;

    open spec fn view(&self) -> CoreUploadActionView {
        match self {
            CoreUploadAction::Limit(size) => CoreUploadActionView::Limit(*size),
            CoreUploadAction::Write(upload) => CoreUploadActionView::Write(upload@),
            CoreUploadAction::Register(input) => CoreUploadActionView::Register(input@),
            CoreUploadAction::Answer(reply) => CoreUploadActionView::Answer(reply@),
            CoreUploadAction::RemoveAndAnswer(storage, reply) =>
                CoreUploadActionView::RemoveAndAnswer(storage@, reply@),
        }
    }
}

/// The event can follow the action that the upload waits for.
pub open spec fn expected(stage: CoreUploadStageView, event: CoreUploadEventView) -> bool {
    match stage {
        CoreUploadStageView::Scoping => event is Scoped,
        CoreUploadStageView::Limiting(_) => event is Guarded,
        CoreUploadStageView::Writing => event is Written,
        CoreUploadStageView::Registering(_) => event is Registered,
        CoreUploadStageView::Over => false,
    }
}

/// The upload is answered.
pub open spec fn answers(reply: ReplyView) -> (CoreUploadStageView, CoreUploadActionView) {
    (CoreUploadStageView::Over, CoreUploadActionView::Answer(reply))
}

/// The next step of an upload to Core.
pub open spec fn core_upload_step(stage: CoreUploadStageView, event: CoreUploadEventView) -> (
    CoreUploadStageView,
    CoreUploadActionView,
) {
    match event {
        CoreUploadEventView::Scoped(granted, size, upload) => if !granted {
            answers(core_routes::scope_reply("assets:write"@))
        } else if size > MAX_BODY_BYTES {
            answers(text_request::too_large(Protocol::OpenAi))
        } else {
            match upload {
                Err(reply) => answers(reply),
                Ok(upload) => (
                    CoreUploadStageView::Limiting(upload),
                    CoreUploadActionView::Limit(upload.bytes.len() as usize),
                ),
            }
        },
        CoreUploadEventView::Guarded(failure) => match failure {
            Some(error) => answers(reply::limit_reply(error)),
            None => (
                CoreUploadStageView::Writing,
                CoreUploadActionView::Write(stage->Limiting_0),
            ),
        },
        CoreUploadEventView::Written(written) => match written {
            Err(error) => answers(reply::openai(400, "invalid_asset"@, error)),
            Ok((record, storage, digest)) => match core_input(record, storage, digest) {
                Err(fault) => (
                    CoreUploadStageView::Over,
                    CoreUploadActionView::RemoveAndAnswer(
                        storage,
                        reply::openai(
                            500,
                            "core_error"@,
                            match fault {
                                TimeFault::Created => "素材时间戳无效"@,
                                TimeFault::Expires => "素材过期时间无效"@,
                            },
                        ),
                    ),
                ),
                Ok(input) => (
                    CoreUploadStageView::Registering(storage),
                    CoreUploadActionView::Register(input),
                ),
            },
        },
        CoreUploadEventView::Registered(registered, url) => match registered {
            Err(error) => (
                CoreUploadStageView::Over,
                CoreUploadActionView::RemoveAndAnswer(
                    stage->Registering_0,
                    core_routes::error_reply(error),
                ),
            ),
            Ok(asset) => answers(
                reply::json_answer(
                    200,
                    asset_document(
                        asset.id,
                        asset.filename,
                        asset.mime_type,
                        reply::signed_json(asset.size),
                        asset.sha256,
                        reply::signed_json(core_video::seconds(asset.created_at_ms)),
                        reply::signed_json(core_video::seconds(asset.expires_at_ms)),
                        url,
                    ),
                ),
            ),
        },
    }
}

fn answer(reply: Reply) -> (r: (CoreUploadStage, CoreUploadAction))
    ensures
        (r.0@, r.1@) == answers(reply@),
{
    (CoreUploadStage::Over, CoreUploadAction::Answer(reply))
}

/// The next step of an upload to Core.
pub fn core_assets_upload(stage: CoreUploadStage, event: CoreUploadEvent) -> (r: (
    CoreUploadStage,
    CoreUploadAction,
))
    requires
        expected(stage@, event@),
    ensures
        (r.0@, r.1@) == core_upload_step(stage@, event@),
{
    match event {
        CoreUploadEvent::Scoped(granted, size, upload) => {
            if !granted {
                return answer(core_routes::core_scope_error("assets:write"));
            }
            if size > MAX_BODY_BYTES {
                return answer(text_request::body_too_large(Protocol::OpenAi));
            }
            match upload {
                Err(reply) => answer(reply),
                Ok(upload) => {
                    let bytes: usize = upload.bytes.len();
                    (CoreUploadStage::Limiting(upload), CoreUploadAction::Limit(bytes))
                },
            }
        },
        CoreUploadEvent::Guarded(permit) => match permit {
            Err(error) => answer(reply::limit_error_response(&error)),
            Ok(_) => match stage {
                CoreUploadStage::Limiting(upload) => (
                    CoreUploadStage::Writing,
                    CoreUploadAction::Write(upload),
                ),
                _ => {
                    assert(false);
                    answer(reply::internal_error_response())
                },
            },
        },
        CoreUploadEvent::Written(written) => match written {
            Err(error) => answer(reply::openai_error(400, "invalid_asset", error.as_str())),
            Ok((record, storage, digest)) => match core_asset_input(
                &record,
                storage.as_str(),
                digest.as_str(),
            ) {
                Err(fault) => {
                    let message = match fault {
                        TimeFault::Created => "素材时间戳无效",
                        TimeFault::Expires => "素材过期时间无效",
                    };
                    (
                        CoreUploadStage::Over,
                        CoreUploadAction::RemoveAndAnswer(
                            storage,
                            reply::openai_error(500, "core_error", message),
                        ),
                    )
                },
                Ok(input) => (
                    CoreUploadStage::Registering(storage),
                    CoreUploadAction::Register(input),
                ),
            },
        },
        CoreUploadEvent::Registered(registered, url) => match registered {
            Err(error) => match stage {
                CoreUploadStage::Registering(storage) => (
                    CoreUploadStage::Over,
                    CoreUploadAction::RemoveAndAnswer(
                        storage,
                        core_routes::core_error_response(&error),
                    ),
                ),
                _ => {
                    assert(false);
                    answer(reply::internal_error_response())
                },
            },
            Ok(asset) => answer(
                Reply::json(
                    200,
                    asset_json(
                        asset.id.as_str(),
                        asset.filename.as_str(),
                        asset.mime_type.as_str(),
                        reply::signed_number(asset.size),
                        asset.sha256.as_str(),
                        reply::signed_number(core_video::whole_seconds(asset.created_at_ms)),
                        reply::signed_number(core_video::whole_seconds(asset.expires_at_ms)),
                        url,
                    ),
                ),
            ),
        },
    }
}

/// The answer where there is no such material, or the link to it is no longer
/// valid.
pub open spec fn no_asset() -> ReplyView {
    reply::openai(404, "asset_not_found"@, "素材不存在、已过期或链接无效"@)
}

/// The answer with material, or a document.
#[derive(Debug)]
pub enum AssetAnswer {
    /// That status, with these headers and the material.
    Content(u16, Table<String>),
    Document(Reply),
}

/// The model of an [`AssetAnswer`].
pub enum AssetAnswerView {
    Content(u16, Seq<(Seq<char>, Seq<char>)>),
    Document(ReplyView),
}

impl View for AssetAnswer {
    type V = AssetAnswerView;

    open spec fn view(&self) -> AssetAnswerView {
        match self {
            AssetAnswer::Content(status, headers) => AssetAnswerView::Content(*status, headers@),
            AssetAnswer::Document(reply) => AssetAnswerView::Document(reply@),
        }
    }
}

/// The headers of material of that type and size.
pub open spec fn content_headers(mime_type: Seq<char>, size: nat) -> Seq<(Seq<char>, Seq<char>)> {
    let typed = table::put(reply::no_headers(), "content-type"@, mime_type);
    let sized = table::put(typed, "content-length"@, text::decimal(size));
    let kept = table::put(sized, "cache-control"@, "no-store"@);
    let referred = table::put(kept, "referrer-policy"@, "no-referrer"@);
    table::put(referred, "x-content-type-options"@, "nosniff"@)
}

/// The answer with material: its media type and its size, where it was found
/// and its link is valid; an error of Core, if there was one. A media type that
/// no header can hold is a failure of the gateway.
pub open spec fn asset_answer(found: Result<Option<(Seq<char>, usize)>, CoreErrorView>) -> AssetAnswerView {
    match found {
        Err(error) => AssetAnswerView::Document(core_routes::error_reply(error)),
        Ok(None) => AssetAnswerView::Document(no_asset()),
        Ok(Some((mime_type, size))) => if core_routes::header_text(mime_type) {
            AssetAnswerView::Content(200, content_headers(mime_type, size as nat))
        } else {
            AssetAnswerView::Document(reply::internal_failure())
        },
    }
}

/// The answer with material: its media type and its size, where it was found
/// and its link is valid; an error of Core, if there was one.
pub fn assets_content(found: Result<Option<(String, usize)>, CoreError>) -> (r: AssetAnswer)
    ensures
        r@ == asset_answer(
            match found {
                Ok(Some((mime_type, size))) => Ok(Some((mime_type@, size))),
                Ok(None) => Ok(None),
                Err(error) => Err(error@),
            },
        ),
{
    match found {
        Err(error) => AssetAnswer::Document(core_routes::core_error_response(&error)),
        Ok(None) => AssetAnswer::Document(
            reply::openai_error(404, "asset_not_found", "素材不存在、已过期或链接无效"),
        ),
        Ok(Some((mime_type, size))) => {
            if !core_routes::fits_header(mime_type.as_str()) {
                return AssetAnswer::Document(reply::internal_error_response());
            }
            let mut headers: Table<String> = Table::new();
            headers.insert("content-type", mime_type);
            headers.insert("content-length", text::decimal_text(size as u64));
            headers.insert("cache-control", "no-store".to_owned());
            headers.insert("referrer-policy", "no-referrer".to_owned());
            headers.insert("x-content-type-options", "nosniff".to_owned());
            AssetAnswer::Content(200, headers)
        },
    }
}

/// Material that Core did not register is removed again.
pub proof fn law_unregistered_material_is_removed(
    stage: CoreUploadStageView,
    event: CoreUploadEventView,
)
    requires
        expected(stage, event),
        event matches CoreUploadEventView::Registered(registered, _) && registered is Err,
    ensures
        core_upload_step(stage, event).1 matches CoreUploadActionView::RemoveAndAnswer(storage, _)
            && storage == stage->Registering_0,
{
}

} // verus!
