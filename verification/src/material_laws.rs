//! What holds of reference material, images and the videos that are asked for in
//! a chat.

use crate::access::{self, Capability};
use crate::asset_routes::{
    self, AssetAnswerView, AssetInputView, CoreUploadActionView, CoreUploadEventView,
    CoreUploadStageView, EncodedView, TimeFault, UploadStartView, UploadView,
};
use crate::assets::AssetView;
use crate::chat_laws;
use crate::core_routes;
use crate::core_types::{CoreErrorView, CoreMode};
use crate::core_video;
use crate::image_routes::{self, ImageActionView, ImageEventView, ImageRequestView, ImageStage};
use crate::json::{self, JsonView};
use crate::reply::{self, ReplyView};
use crate::seedance_chat::{self, ChatErrorView, InlineImageView};
use crate::seedance_routes::{
    self, PersistActionView, PersistEventView, PersistStageView, PersistView,
};
use crate::table;
use crate::text;
use crate::text_chat_laws;
use crate::text_laws;
use crate::video_routes_laws;
use crate::outside;
use vstd::prelude::*;

verus! {

/// A client reads of its material the name, the type, the size, the digest, the
/// times and the link.
pub proof fn law_a_client_reads_its_material(
    id: Seq<char>,
    filename: Seq<char>,
    mime_type: Seq<char>,
    bytes: JsonView,
    sha256: Seq<char>,
    created_at: JsonView,
    expires_at: JsonView,
    content_url: Option<Seq<char>>,
)
    ensures
        ({
            let d = asset_routes::asset_document(
                id,
                filename,
                mime_type,
                bytes,
                sha256,
                created_at,
                expires_at,
                content_url,
            );
            &&& d.text_at("object"@) == Some("asset"@)
            &&& d.text_at("id"@) == Some(id)
            &&& d.text_at("filename"@) == Some(filename)
            &&& d.text_at("mime_type"@) == Some(mime_type)
            &&& d.get("bytes"@) == Some(bytes)
            &&& d.text_at("sha256"@) == Some(sha256)
            &&& d.get("created_at"@) == Some(created_at)
            &&& d.get("expires_at"@) == Some(expires_at)
            &&& d.text_at("content_url"@) == content_url
            &&& content_url is None ==> d.get("content_url"@) is None
        }),
{
    broadcast use crate::json::group_members, video_routes_laws::lemma_get_maybe;

    reveal_strlit("object");
    reveal_strlit("id");
    reveal_strlit("filename");
    reveal_strlit("mime_type");
    reveal_strlit("bytes");
    reveal_strlit("sha256");
    reveal_strlit("created_at");
    reveal_strlit("expires_at");
    reveal_strlit("content_url");
    assert("object"@.len() == 6);
    assert("id"@.len() == 2);
    assert("filename"@.len() == 8);
    assert("mime_type"@.len() == 9);
    assert("bytes"@.len() == 5);
    assert("sha256"@.len() == 6);
    assert("created_at"@.len() == 10);
    assert("expires_at"@.len() == 10);
    assert("content_url"@.len() == 11);
    assert("object"@[0] != "sha256"@[0]);
    assert("created_at"@[0] != "expires_at"@[0]);
}

/// A client that handed material over is told what was kept of it, as it was
/// kept; material that could not be kept is told to be at fault.
pub proof fn law_a_client_is_told_what_was_kept(
    record: AssetView,
    url: Option<Seq<char>>,
    error: Seq<char>,
)
    ensures
        ({
            let answer = asset_routes::created_reply(Ok(record), url);
            &&& answer.status == 200
            &&& answer.body.text_at("id"@) == Some(record.id)
            &&& answer.body.text_at("filename"@) == Some(record.filename)
            &&& answer.body.text_at("mime_type"@) == Some(record.mime_type)
            &&& answer.body.unsigned_at("bytes"@) == Some(record.size)
            &&& answer.body.text_at("sha256"@) == Some(record.sha256)
            &&& answer.body.unsigned_at("created_at"@) == Some(record.created_at)
            &&& answer.body.unsigned_at("expires_at"@) == Some(record.expires_at)
            &&& answer.body.text_at("content_url"@) == url
        }),
        text_chat_laws::is_error(
            asset_routes::created_reply(Err(error), url),
            400,
            "invalid_asset"@,
        ),
        chat_laws::error_read(asset_routes::created_reply(Err(error), url).body) == Some(error),
{
    broadcast use text_chat_laws::lemma_openai_error;

    law_a_client_reads_its_material(
        record.id,
        record.filename,
        record.mime_type,
        JsonView::Number(json::number(record.size)),
        record.sha256,
        JsonView::Number(json::number(record.created_at)),
        JsonView::Number(json::number(record.expires_at)),
        url,
    );
}

/// An upload is read from its document: the name, `upload` where there is none;
/// the type that is declared; and the data, without the frame of a data URL,
/// which declares a type where nothing else does. An upload without data, or
/// with a name that is too long, is refused.
pub proof fn law_an_upload_is_read_from_its_document(body: JsonView, data: Seq<char>)
    requires
        body.get("data_base64"@) == Some(JsonView::Text(data)),
    ensures
        ({
            let read = asset_routes::read_upload(Ok(body));
            let name = match body.get("filename"@) {
                Some(JsonView::Text(name)) => name,
                _ => "upload"@,
            };
            let kept = text::trim(data);
            &&& read is Ok == (text::byte_len(name) <= 128 && kept.len() > 0)
            &&& read matches Err(answer) ==> text_chat_laws::is_error(
                answer,
                400,
                "invalid_request_error"@,
            )
            &&& read matches Ok(upload) ==> {
                &&& upload.filename == name
                &&& !kept.contains(',') ==> upload.encoded == kept
                &&& body.get("mime_type"@) matches Some(JsonView::Text(mime))
                    ==> upload.declared_mime == Some(mime)
                &&& !kept.contains(',') && body.get("mime_type"@) is None
                    ==> upload.declared_mime == body.text_at("content_type"@)
            }
        }),
{
    broadcast use text_chat_laws::lemma_openai_error;

}

/// The frame of a data URL is taken off: what follows the comma is the data, and
/// what stands before the first semicolon is the type, where none is declared.
pub proof fn law_a_data_url_is_unwrapped(
    mime: Seq<char>,
    rest: Seq<char>,
    encoded: Seq<char>,
    declared: Option<Seq<char>>,
)
    requires
        !mime.contains(';'),
        !mime.contains(','),
        !rest.contains(','),
    ensures
        ({
            let url = "data:"@ + mime + ";"@ + rest + ","@ + encoded;
            let (found, data) = asset_routes::unwrapped(url, declared);
            &&& data == encoded
            &&& declared is Some ==> found == declared
            &&& declared is None ==> found == Some(mime)
        }),
{
    reveal_strlit("data:");
    reveal_strlit(";");
    reveal_strlit(",");
    assert("data:"@.len() == 5 && ";"@.len() == 1 && ","@.len() == 1);
    assert(";"@[0] == ';' && ","@[0] == ',');
    let head = "data:"@ + mime + ";"@ + rest;
    let url = head + ","@ + encoded;
    let n = head.len() as int;
    assert(url[n] == ',');
    assert forall|i: int| 0 <= i < n implies #[trigger] url[i] != ',' by {
        assert(url[i] == head[i]);
        if i < 5 {
            assert(head[i] == "data:"@[i]);
            assert("data:"@[0] == 'd' && "data:"@[1] == 'a' && "data:"@[2] == 't' && "data:"@[3]
                == 'a' && "data:"@[4] == ':');
        } else if i < 5 + mime.len() {
            assert(head[i] == mime[i - 5]);
            assert(mime.contains(mime[i - 5]));
        } else if i == 5 + mime.len() {
            assert(head[i] == ';');
        } else {
            assert(head[i] == rest[i - 6 - mime.len()]);
            assert(rest.contains(rest[i - 6 - mime.len()]));
        }
    }
    lemma_index_is(url, ',', n);
    assert(url.contains(','));
    assert(url.subrange(0, n) =~= head);
    assert(url.subrange(n + 1, url.len() as int) =~= encoded);
    assert(head.subrange(0, 5) =~= "data:"@);
    let tail = head.subrange(5, n);
    assert(tail =~= mime + ";"@ + rest);
    assert(tail[mime.len() as int] == ';');
    assert forall|i: int| 0 <= i < mime.len() implies #[trigger] tail[i] != ';' by {
        assert(tail[i] == mime[i]);
        assert(mime.contains(mime[i]));
    }
    lemma_index_is(tail, ';', mime.len() as int);
    assert(tail.contains(';'));
    assert(tail.subrange(0, mime.len() as int) =~= mime);
}

proof fn lemma_index_is(s: Seq<char>, c: char, n: int)
    requires
        0 <= n < s.len(),
        s[n] == c,
        forall|i: int| 0 <= i < n ==> #[trigger] s[i] != c,
    ensures
        text::index_of_char(s, c) == n,
    decreases n,
{
    if n > 0 {
        let rest = s.subrange(1, s.len() as int);
        assert forall|i: int| 0 <= i < n - 1 implies #[trigger] rest[i] != c by {
            assert(rest[i] == s[i + 1]);
        }
        lemma_index_is(rest, c, n - 1);
        assert(s[0] != c);
    }
}

/// The bytes of an upload are its data, decoded; data that cannot be decoded is
/// refused.
pub proof fn law_an_upload_has_its_bytes(
    upload: EncodedView,
    decoded: Result<Seq<u8>, Seq<char>>,
)
    ensures
        ({
            let r = asset_routes::with_bytes(upload, decoded);
            match decoded {
                Ok(bytes) => r matches Ok(u) && u.bytes == bytes && u.filename == upload.filename
                    && u.declared_mime == upload.declared_mime,
                Err(_) => r matches Err(answer) && text_chat_laws::is_error(
                    answer,
                    400,
                    "invalid_asset"@,
                ),
            }
        }),
{
    broadcast use text_chat_laws::lemma_openai_error;

}

/// Material is taken in by Core where Core rules, and else by the policy of the
/// key: under its limits, and as it was handed over.
pub proof fn law_material_is_let_in(
    caller: access::CallerView,
    core: Option<CoreMode>,
    upload: Result<UploadView, ReplyView>,
)
    ensures
        ({
            let start = asset_routes::upload_started(caller, core, upload);
            let rules = core == Some(CoreMode::Enforce);
            &&& rules ==> (start is Core == caller.principal is Some)
            &&& rules && caller.principal is None ==> (
            start matches UploadStartView::Answer(answer) && text_chat_laws::is_error(
                answer,
                401,
                "unauthorized"@,
            ))
            &&& !rules ==> match access::admission(
                caller.name(),
                caller.policy,
                Capability::Assets,
            ) {
                Err(refusal) => start == UploadStartView::Answer(refusal),
                Ok(limits) => match upload {
                    Ok(material) => start == UploadStartView::Limit(limits, material),
                    Err(answer) => start == UploadStartView::Answer(answer),
                },
            }
        }),
{
    broadcast use text_chat_laws::lemma_openai_error;

}

/// Core is given what the gateway knows of the material: nothing is changed but
/// that the times are in milliseconds.
pub proof fn law_core_is_given_what_is_known(
    record: AssetView,
    storage: Seq<char>,
    digest: Seq<char>,
)
    requires
        record.created_at * 1000 <= i64::MAX,
        record.expires_at * 1000 <= i64::MAX,
        record.size <= i64::MAX,
    ensures
        asset_routes::core_input(record, storage, digest) matches Ok(input) && {
            &&& input.id == record.id && input.filename == record.filename
            &&& input.mime_type == record.mime_type && input.extension == record.extension
            &&& input.size == record.size && input.sha256 == record.sha256
            &&& input.storage_ref == storage && input.content_token_digest == digest
            &&& input.created_at_ms == record.created_at * 1000
            &&& input.expires_at_ms == record.expires_at * 1000
        },
{
}

/// Core takes material in step by step: scope, size, limit, file and record; the
/// client is answered with what Core registered.
pub proof fn law_core_takes_material_in(stage: CoreUploadStageView, event: CoreUploadEventView)
    requires
        asset_routes::expected(stage, event),
    ensures
        ({
            let (next, action) = asset_routes::core_upload_step(stage, event);
            &&& event matches CoreUploadEventView::Scoped(granted, size, upload) ==> {
                &&& !granted ==> (action matches CoreUploadActionView::Answer(answer)
                    && text_chat_laws::is_error(answer, 403, "insufficient_scope"@))
                &&& granted && size > 8 * 1024 * 1024 ==> (
                action matches CoreUploadActionView::Answer(answer) && text_chat_laws::is_error(
                    answer,
                    413,
                    "request_too_large"@,
                ))
                &&& granted && size <= 8 * 1024 * 1024 ==> match upload {
                    Err(answer) => action == CoreUploadActionView::Answer(answer),
                    Ok(material) => action == CoreUploadActionView::Limit(
                        material.bytes.len() as usize,
                    ) && next == CoreUploadStageView::Limiting(material),
                }
            }
            &&& event == CoreUploadEventView::Guarded(None) ==> action == CoreUploadActionView::Write(
                stage->Limiting_0,
            )
            &&& event matches CoreUploadEventView::Guarded(Some(error)) ==> action
                == CoreUploadActionView::Answer(reply::limit_reply(error))
            &&& event matches CoreUploadEventView::Written(Err(error)) ==> (
            action matches CoreUploadActionView::Answer(answer) && text_chat_laws::is_error(
                answer,
                400,
                "invalid_asset"@,
            ))
            &&& event matches CoreUploadEventView::Written(Ok((record, storage, digest))) ==> (
            match asset_routes::core_input(record, storage, digest) {
                Ok(input) => action == CoreUploadActionView::Register(input) && next
                    == CoreUploadStageView::Registering(storage),
                Err(_) => action matches CoreUploadActionView::RemoveAndAnswer(removed, answer)
                    && removed == storage && text_chat_laws::is_error(answer, 500, "core_error"@),
            })
            &&& event matches CoreUploadEventView::Registered(Ok(asset), url) ==> {
                &&& action matches CoreUploadActionView::Answer(answer)
                &&& answer.status == 200
                &&& answer.body.text_at("id"@) == Some(asset.id)
                &&& answer.body.text_at("filename"@) == Some(asset.filename)
                &&& answer.body.text_at("mime_type"@) == Some(asset.mime_type)
                &&& answer.body.text_at("sha256"@) == Some(asset.sha256)
                &&& answer.body.get("bytes"@) matches Some(bytes) && bytes.as_signed() == Some(
                    asset.size,
                )
                &&& answer.body.text_at("content_url"@) == url
            }
        }),
{
    broadcast use text_chat_laws::lemma_openai_error;

    if let CoreUploadEventView::Registered(Ok(asset), url) = event {
        law_a_client_reads_its_material(
            asset.id,
            asset.filename,
            asset.mime_type,
            reply::signed_json(asset.size),
            asset.sha256,
            reply::signed_json(core_video::seconds(asset.created_at_ms)),
            reply::signed_json(core_video::seconds(asset.expires_at_ms)),
            url,
        );
    }
}

/// Material is handed out as what it is, and safely: with its type and its size,
/// never kept by caches, never with a referrer and never guessed at.
pub proof fn law_material_is_handed_out_safely(mime: Seq<char>, size: usize)
    requires
        core_routes::header_text(mime),
    ensures
        ({
            &&& asset_routes::asset_answer(Ok(Some((mime, size)))) matches AssetAnswerView::Content(
                status,
                headers,
            )
            &&& status == 200
            &&& table::find(headers, "content-type"@) == Some(mime)
            &&& table::find(headers, "content-length"@) == Some(text::decimal(size as nat))
            &&& table::find(headers, "cache-control"@) == Some("no-store"@)
            &&& table::find(headers, "referrer-policy"@) == Some("no-referrer"@)
            &&& table::find(headers, "x-content-type-options"@) == Some("nosniff"@)
        }),
        asset_routes::asset_answer(Ok(None)) matches AssetAnswerView::Document(answer)
            && text_chat_laws::is_error(answer, 404, "asset_not_found"@),
{
    broadcast use text_chat_laws::lemma_openai_error;

    reveal_strlit("content-type");
    reveal_strlit("content-length");
    reveal_strlit("cache-control");
    reveal_strlit("referrer-policy");
    reveal_strlit("x-content-type-options");
    assert("content-type"@.len() == 12);
    assert("content-length"@.len() == 14);
    assert("cache-control"@.len() == 13);
    assert("referrer-policy"@.len() == 15);
    assert("x-content-type-options"@.len() == 22);
    let h1 = table::put(reply::no_headers(), "content-type"@, mime);
    let h2 = table::put(h1, "content-length"@, text::decimal(size as nat));
    let h3 = table::put(h2, "cache-control"@, "no-store"@);
    let h4 = table::put(h3, "referrer-policy"@, "no-referrer"@);
    table::lemma_find_put(reply::no_headers(), "content-type"@, mime);
    table::lemma_find_put(h1, "content-length"@, text::decimal(size as nat));
    table::lemma_find_put(h2, "cache-control"@, "no-store"@);
    table::lemma_find_put(h3, "referrer-policy"@, "no-referrer"@);
    table::lemma_find_put(h4, "x-content-type-options"@, "nosniff"@);
}

/// An image request is made by the model, the prompt and the image that it came
/// with, at an account that its key may use; the client gets what the upstream
/// made, or why it made nothing, and the account is noted with it.
pub proof fn law_an_image_is_made_as_asked(r: ImageRequestView, event: ImageEventView)
    requires
        image_routes::expected(r.stage, event),
    ensures
        ({
            let (next, action) = image_routes::image_step(r, event);
            &&& next.is_edit == r.is_edit && next.key == r.key && next.policy == r.policy
            &&& event matches ImageEventView::Guarded(Some(error), _, _) ==> action
                == ImageActionView::Answer(None, reply::limit_reply(error))
            &&& event matches ImageEventView::Guarded(None, size, body) ==> {
                &&& size > 8 * 1024 * 1024 ==> (action matches ImageActionView::Answer(None, answer)
                    && text_chat_laws::is_error(answer, 413, "request_too_large"@))
                &&& size <= 8 * 1024 * 1024 ==> match body {
                    Err(_) => action matches ImageActionView::Answer(None, answer)
                        && text_chat_laws::is_error(answer, 400, "invalid_request_error"@),
                    Ok(document) => {
                        &&& action matches ImageActionView::Validate(model, prompt, image)
                        &&& next.model == model
                        &&& match document.get("model"@) {
                            Some(JsonView::Text(named)) => if text::trim(named).len() > 0 {
                                model == named
                            } else {
                                model == "hy4"@
                            },
                            _ => model == "hy4"@,
                        }
                        &&& document.text_at("prompt"@) matches Some(said) ==> prompt == said
                        &&& document.text_at("prompt"@) is None ==> prompt.len() == 0
                        &&& image is Some == r.is_edit
                        &&& r.is_edit ==> (document.text_at("image"@) matches Some(given) ==> image
                            == Some(given))
                    },
                }
            }
            &&& event matches ImageEventView::Validated(None, mode) ==> action
                == ImageActionView::Pick(access::account_rule(r.policy, mode))
            &&& event matches ImageEventView::Validated(Some((code, message)), _) ==> {
                &&& action matches ImageActionView::Answer(None, answer)
                &&& chat_laws::error_read(answer.body) == Some(message)
                &&& 100 <= code < 1000 ==> answer.status == code
                &&& !(100 <= code < 1000) ==> answer.status == 400
            }
            &&& event == ImageEventView::Picked(None) ==> (action matches ImageActionView::Answer(
                None,
                answer,
            ) && text_chat_laws::is_error(answer, 503, "no_healthy_account"@))
            &&& event matches ImageEventView::Picked(Some(uid)) ==> action
                == ImageActionView::Generate(uid) && next.uid == uid
            &&& event matches ImageEventView::Generated(made) ==> {
                &&& action matches ImageActionView::Answer(Some(note), answer)
                &&& note.uid == r.uid
                &&& note.path == (if r.is_edit {
                    "/v1/images/edits"@
                } else {
                    "/v1/images/generations"@
                })
                &&& note.served == made is Ok
                &&& made matches Ok(document) ==> answer.status == 200 && answer.body == document
                    && note.status == 200 && note.remark is None
                &&& made matches Err((code, message)) ==> chat_laws::error_read(answer.body) == Some(
                    message,
                ) && note.status == code && note.remark == Some(message) && (100 <= code < 1000
                    ==> text_chat_laws::is_error(answer, code, "upstream_error"@))
            }
        }),
{
    broadcast use text_chat_laws::lemma_openai_error;

}

/// An image request is for keys that may chat, where Core does not rule.
pub proof fn law_an_image_request_is_let_in(
    caller: access::CallerView,
    core: Option<CoreMode>,
    is_edit: bool,
)
    ensures
        ({
            let (r, action) = image_routes::image_start(caller, core, is_edit);
            &&& r.is_edit == is_edit && r.key == caller.name() && r.policy == caller.policy
            &&& core == Some(CoreMode::Enforce) ==> (action matches ImageActionView::Answer(
                None,
                answer,
            ) && text_chat_laws::is_error(answer, 501, "scheduler_endpoint_not_enabled"@))
            &&& core != Some(CoreMode::Enforce) ==> match access::admission(
                caller.name(),
                caller.policy,
                Capability::Chat,
            ) {
                Ok(limits) => action == ImageActionView::Guard(limits) && r.stage
                    == ImageStage::Guarding,
                Err(refusal) => action == ImageActionView::Answer(None, refusal),
            }
        }),
{
    broadcast use text_chat_laws::lemma_openai_error;

}

/// What a chat says of the video goes to the video as it was said: the length,
/// the resolution, the ratio and the ids of material, and nothing else; the
/// prompt is the text of the last message of the user.
pub proof fn law_a_chat_says_what_the_video_is(body: JsonView, name: Seq<char>)
    ensures
        seedance_chat::projection_of(body) matches Ok((input, images)) ==> {
            &&& input.text_at("model"@) == Some("seedance"@)
            &&& input.text_at("prompt"@) matches Some(prompt)
            &&& prompt.len() > 0 && text::trim(prompt) == prompt
            &&& name == "duration"@ || name == "resolution"@ || name == "ratio"@ || name
                == "image_asset_ids"@ || name == "video_asset_ids"@ ==> input.get(name)
                == body.get(name)
            &&& name != "duration"@ && name != "resolution"@ && name != "ratio"@ && name
                != "image_asset_ids"@ && name != "video_asset_ids"@ && name != "model"@ && name
                != "prompt"@ ==> input.get(name) is None
        },
{
    broadcast use crate::json::group_members, lemma_get_carried;

    reveal_strlit("model");
    reveal_strlit("prompt");
    reveal_strlit("duration");
    reveal_strlit("resolution");
    reveal_strlit("ratio");
    reveal_strlit("image_asset_ids");
    reveal_strlit("video_asset_ids");
    assert("model"@.len() == 5);
    assert("prompt"@.len() == 6);
    assert("duration"@.len() == 8);
    assert("resolution"@.len() == 10);
    assert("ratio"@.len() == 5);
    assert("image_asset_ids"@.len() == 15);
    assert("video_asset_ids"@.len() == 15);
    assert("model"@[0] != "ratio"@[0]);
    assert("image_asset_ids"@[0] != "video_asset_ids"@[0]);
    if seedance_chat::projection_of(body) is Ok {
        let messages = match body.get("messages"@) {
            Some(JsonView::Array(items)) => items,
            _ => Seq::empty(),
        };
        let last = seedance_chat::last_user_message(messages, messages.len());
        let content = messages[last].get("content"@)->0;
        let said = seedance_chat::content_of(content)->Ok_0.0;
        text::lemma_trim_twice(said);
    }
}

broadcast proof fn lemma_get_carried(to: JsonView, from: JsonView, key: Seq<char>, name: Seq<char>)
    requires
        to is Object,
    ensures
        seedance_chat::carried(to, from, key) is Object,
        #[trigger] seedance_chat::carried(to, from, key).get(name) == (match to.get(name) {
            Some(found) => Some(found),
            None => if key == name {
                from.get(key)
            } else {
                None
            },
        }),
{
    broadcast use crate::json::group_members;

}

/// Of the messages of a chat, the last one of the user counts.
pub proof fn law_the_last_message_of_the_user_counts(messages: Seq<JsonView>, n: nat)
    requires
        n <= messages.len(),
    ensures
        ({
            let at = seedance_chat::last_user_message(messages, n);
            &&& at < n
            &&& at >= 0 ==> (messages[at].text_at("role"@) matches Some(role) && text::lower(
                text::trim(role),
            ) == "user"@)
            &&& forall|i: int|
                at < i < n && i >= 0 ==> !(#[trigger] messages[i].text_at("role"@) matches Some(role)
                    && text::lower(text::trim(role)) == "user"@)
        }),
    decreases n,
{
    if n > 0 {
        law_the_last_message_of_the_user_counts(messages, (n - 1) as nat);
    }
}

/// A message that is a text is the prompt; of one in parts, the texts are lines
/// of the prompt and the images its references, in order, and nothing is passed
/// over.
pub proof fn law_a_message_is_all_its_parts(parts: Seq<JsonView>, n: nat)
    requires
        n <= parts.len(),
    ensures
        seedance_chat::parts_of(parts, n) matches Ok((texts, images)) ==> {
            &&& texts.len() + images.len() == n
            &&& forall|i: int|
                0 <= i < n ==> (#[trigger] parts[i].text_at("type"@) == Some("text"@)
                    || parts[i].text_at("type"@) == Some("image_url"@))
            &&& forall|k: int|
                0 <= k < images.len() ==> (#[trigger] images[k]).bytes.len() > 0 && (
                images[k].mime_type == "image/png"@ || images[k].mime_type == "image/jpeg"@
                    || images[k].mime_type == "image/webp"@)
        },
        n > 0 ==> (parts[n - 1].text_at("type"@) == Some("text"@) ==> (parts[n - 1].text_at(
            "text"@,
        ) matches Some(said) ==> (seedance_chat::parts_of(parts, (n - 1) as nat) matches Ok((
            texts,
            images,
        )) ==> (parts[n - 1] is Object ==> seedance_chat::parts_of(parts, n) == Ok::<
            (Seq<Seq<char>>, Seq<InlineImageView>),
            ChatErrorView,
        >((texts.push(said), images)))))),
    decreases n,
{
    reveal_strlit("text");
    reveal_strlit("image_url");
    assert("text"@.len() == 4 && "image_url"@.len() == 9);
    if n > 0 {
        law_a_message_is_all_its_parts(parts, (n - 1) as nat);
    }
}

/// The image in a message is the one that its data URL holds, decoded, of one of
/// three types; an empty one is refused.
pub proof fn law_an_inline_image_is_what_its_url_holds(
    mime: Seq<char>,
    decoded: Result<Seq<u8>, Seq<char>>,
)
    ensures
        match decoded {
            Ok(bytes) => if bytes.len() > 0 {
                seedance_chat::image_of(mime, decoded) matches Ok(image) && image.bytes == bytes
                    && image.mime_type == mime
            } else {
                seedance_chat::image_of(mime, decoded) is Err
            },
            Err(_) => seedance_chat::image_of(mime, decoded) is Err,
        },
        seedance_chat::image_of(mime, decoded) matches Err(error) ==> error.code
            == "seedance_inline_image_invalid"@,
{
}

/// The ids of images stand behind those that the request has, in order; every
/// other member stays.
pub proof fn law_image_ids_stand_behind_the_others(
    input: JsonView,
    ids: Seq<Seq<char>>,
    name: Seq<char>,
)
    requires
        input is Object,
    ensures
        ({
            let after = seedance_chat::with_image_ids(input, ids);
            let had = input.get("image_asset_ids"@);
            &&& after is Ok == (had is None || had->0 is Array)
            &&& after matches Ok(sent) ==> {
                let before = match had {
                    Some(JsonView::Array(items)) => items,
                    _ => Seq::empty(),
                };
                &&& sent.get("image_asset_ids"@) matches Some(JsonView::Array(all))
                &&& all.len() == before.len() + ids.len()
                &&& forall|i: int| 0 <= i < before.len() ==> #[trigger] all[i] == before[i]
                &&& forall|i: int|
                    0 <= i < ids.len() ==> all[before.len() + i] == JsonView::Text(
                        #[trigger] ids[i],
                    )
                &&& name != "image_asset_ids"@ ==> sent.get(name) == input.get(name)
            }
        }),
{
    broadcast use crate::json::group_members;

}

/// A chat for a video needs a key by which it is known again and asks for no
/// stream; it starts with what the chat says and with that key.
pub proof fn law_a_chat_for_a_video_is_let_in(
    input: JsonView,
    key: Option<Seq<char>>,
    projection: Result<(JsonView, Seq<InlineImageView>), ChatErrorView>,
)
    ensures
        ({
            let start = seedance_routes::started(input, key, projection);
            let streams = input.get("stream"@) == Some(JsonView::Bool(true));
            let known = key is Some && text::trim(key->0).len() > 0;
            &&& start is Ok == (!streams && known && projection is Ok)
            &&& streams ==> (start matches Err(answer) && text_chat_laws::is_error(
                answer,
                400,
                "seedance_stream_unsupported"@,
            ))
            &&& !streams && !known ==> (start matches Err(answer) && text_chat_laws::is_error(
                answer,
                400,
                "idempotency_key_required"@,
            ))
            &&& !streams && known ==> (projection matches Err(error) ==> (
            start matches Err(answer) && text_chat_laws::is_error(answer, 400, error.code)
                && chat_laws::error_read(answer.body) == Some(error.message)))
            &&& start matches Ok(begun) ==> begun.idempotency_key == text::trim(key->0)
                && projection == Ok::<(JsonView, Seq<InlineImageView>), ChatErrorView>(
                (begun.video_input, begun.inline_images),
            )
        }),
{
    broadcast use text_chat_laws::lemma_openai_error;

}

/// The images of a chat are kept one after the other, each under its own id and
/// with the ending of its type; the video is asked for once all are kept, with
/// all their ids. An image that Core has is not written again, and one that Core
/// did not register is removed.
pub proof fn law_the_images_of_a_chat_are_kept(p: PersistView, event: PersistEventView)
    requires
        p.valid(),
        p.images.len() <= usize::MAX,
        seedance_routes::expected(p.stage, event),
    ensures
        ({
            let (next, action) = seedance_routes::persist_step(p, event);
            let i = p.persisted.len() as int;
            let ending = if p.images[i].mime_type == "image/png"@ {
                Some("png"@)
            } else if p.images[i].mime_type == "image/jpeg"@ {
                Some("jpg"@)
            } else if p.images[i].mime_type == "image/webp"@ {
                Some("webp"@)
            } else {
                None
            };
            &&& event matches PersistEventView::Found(Ok(Some(_))) ==> action is Check
                && next.persisted == p.persisted
            &&& event == PersistEventView::Found(Ok(None)) ==> match ending {
                Some(ext) => action matches PersistActionView::Write(index, id, name) && index == i
                    && id == p.asset_ids[i] && name == "seedance-reference-"@ + text::decimal(
                    (i + 1) as nat,
                ) + "."@ + ext,
                None => action is Fail,
            }
            &&& event matches PersistEventView::Checked(Ok(_)) ==> next.persisted
                == p.persisted.push(p.stage->Checking_0)
            &&& event matches PersistEventView::Registered(Ok(_)) ==> next.persisted
                == p.persisted.push(p.stage->Registering_0)
            &&& event matches PersistEventView::Created(Ok(id)) ==> next.persisted
                == p.persisted.push(id)
            &&& event matches PersistEventView::Registered(Err(_)) ==> (
            action matches PersistActionView::RemoveAndFail(removed, _) && removed
                == p.stage->Registering_1)
            &&& event matches PersistEventView::Found(Err(_)) ==> action is Fail
            &&& event matches PersistEventView::Checked(Err(_)) ==> action is Fail
            &&& event matches PersistEventView::Written(Err(_)) ==> action is Fail
            &&& event matches PersistEventView::Created(Err(_)) ==> action is Fail
            &&& event matches PersistEventView::Written(Ok((record, storage, digest))) ==> (
            match asset_routes::core_input(record, storage, digest) {
                Ok(input) => action == PersistActionView::Register(input) && next.stage
                    == PersistStageView::Registering(record.id, storage),
                Err(_) => action is Fail,
            })
            &&& action matches PersistActionView::Ask(id) ==> p.core && id
                == p.asset_ids[next.persisted.len() as int]
            &&& action matches PersistActionView::Create(index, id, _) ==> !p.core && index
                == next.persisted.len() && id == p.asset_ids[index as int]
            &&& action is Submit ==> next.persisted.len() == p.images.len()
            &&& next.images == p.images && next.asset_ids == p.asset_ids && next.core == p.core
        }),
{
}

/// The owner of the images of a chat is the caller that Core knows where Core
/// rules, and else the key.
pub proof fn law_the_images_of_a_chat_have_an_owner(
    core: bool,
    user: Option<Seq<char>>,
    key: Option<Seq<char>>,
)
    ensures
        core ==> (match user {
            Some(u) => seedance_routes::owner_of(core, user, key) == Ok::<Seq<char>, Seq<char>>(u),
            None => seedance_routes::owner_of(core, user, key) is Err,
        }),
        !core ==> (match key {
            Some(k) => if text::trim(k).len() > 0 {
                seedance_routes::owner_of(core, user, key) == Ok::<Seq<char>, Seq<char>>(k)
            } else {
                seedance_routes::owner_of(core, user, key) is Err
            },
            None => seedance_routes::owner_of(core, user, key) is Err,
        }),
{
}

/// A chat for a video is answered as a chat: with the name of the task, its
/// state, and where its state and its video are found.
pub proof fn law_a_chat_is_answered_with_its_video_task(
    status: u16,
    request_id: Option<Seq<char>>,
    body: JsonView,
    now: u64,
    task: JsonView,
    id: Seq<char>,
)
    requires
        body.get("task"@) == Some(task),
        task.text_at("id"@) == Some(id),
        id.len() > 0,
    ensures
        ({
            let answer = seedance_routes::wrapped(status, request_id, body, now);
            &&& 200 <= status < 300 ==> answer.status == status
            &&& request_id matches Some(r) ==> table::find(answer.headers, "x-request-id"@) == Some(
                r,
            )
            &&& answer.body.text_at("object"@) == Some("chat.completion"@)
            &&& answer.body.text_at("id"@) == Some("chatcmpl-"@ + id)
            &&& task.unsigned_at("created_at"@) matches Some(at) ==> answer.body.unsigned_at(
                "created"@,
            ) == Some(at)
            &&& task.unsigned_at("created_at"@) is None ==> answer.body.unsigned_at("created"@)
                == Some(now)
            &&& answer.body.get("choices"@) matches Some(JsonView::Array(choices))
            &&& choices.len() == 1
            &&& choices[0].text_at("finish_reason"@) == Some("video_async"@)
            &&& choices[0].get("message"@) matches Some(message)
            &&& message.text_at("role"@) == Some("assistant"@)
            &&& answer.body.get("video_task"@) matches Some(shown)
            &&& shown.text_at("id"@) == Some(id)
            &&& task.text_at("status"@) matches Some(state) ==> shown.text_at("status"@) == Some(
                state,
            )
            &&& shown.text_at("status_endpoint"@) == Some("/v1/videos/"@ + id)
            &&& task.get("content_url"@) is Some ==> shown.text_at("content_endpoint"@) == Some(
                "/v1/videos/"@ + id + "/content"@,
            )
            &&& task.get("content_url"@) is None ==> shown.get("content_endpoint"@) is None
        }),
{
    broadcast use crate::json::group_members;

    reveal_strlit("id");
    reveal_strlit("object");
    reveal_strlit("created");
    reveal_strlit("model");
    reveal_strlit("choices");
    reveal_strlit("index");
    reveal_strlit("message");
    reveal_strlit("role");
    reveal_strlit("content");
    reveal_strlit("finish_reason");
    reveal_strlit("video_task");
    reveal_strlit("status");
    reveal_strlit("status_endpoint");
    reveal_strlit("content_endpoint");
    reveal_strlit("updated_at");
    assert("id"@.len() == 2);
    assert("object"@.len() == 6);
    assert("created"@.len() == 7);
    assert("model"@.len() == 5);
    assert("choices"@.len() == 7);
    assert("index"@.len() == 5);
    assert("message"@.len() == 7);
    assert("role"@.len() == 4);
    assert("content"@.len() == 7);
    assert("finish_reason"@.len() == 13);
    assert("video_task"@.len() == 10);
    assert("status"@.len() == 6);
    assert("status_endpoint"@.len() == 15);
    assert("content_endpoint"@.len() == 16);
    assert("updated_at"@.len() == 10);
    assert("object"@[0] != "status"@[0]);
    assert("created"@[1] != "choices"@[1]);
    assert("created"@[0] != "message"@[0]);
    assert("created"@[1] != "content"@[1]);
    assert("model"@[0] != "index"@[0]);
    assert("choices"@[0] != "message"@[0]);
    assert("choices"@[1] != "content"@[1]);
    assert("message"@[0] != "content"@[0]);
    assert("video_task"@[0] != "updated_at"@[0]);
    if request_id is Some {
        table::lemma_find_put(
            table::put(reply::no_headers(), "content-type"@, "application/json"@),
            "x-request-id"@,
            request_id->0,
        );
    }
}

/// Uploaded material is shown safely wherever it is shown.
pub proof fn law_material_is_shown_safely()
    ensures
        table::find(asset_routes::security_headers(), "cache-control"@) == Some("no-store"@),
        table::find(asset_routes::security_headers(), "referrer-policy"@) == Some("no-referrer"@),
        table::find(asset_routes::security_headers(), "x-content-type-options"@) == Some(
            "nosniff"@,
        ),
{
    broadcast use table::lemma_find_push;

    reveal_strlit("cache-control");
    reveal_strlit("referrer-policy");
    reveal_strlit("x-content-type-options");
    assert("cache-control"@.len() == 13);
    assert("referrer-policy"@.len() == 15);
    assert("x-content-type-options"@.len() == 22);
    let none: Seq<(Seq<char>, Seq<char>)> = Seq::empty();
    assert(asset_routes::security_headers() =~= none.push(("cache-control"@, "no-store"@)).push(
        ("referrer-policy"@, "no-referrer"@),
    ).push(("x-content-type-options"@, "nosniff"@)));
}

/// An upload has the bytes that its document holds, decoded.
pub proof fn law_an_upload_is_what_its_body_holds(
    body: Seq<u8>,
    document: JsonView,
    data: Seq<char>,
    bytes: Seq<u8>,
)
    requires
        outside::json_of_bytes(body) == Ok::<JsonView, Seq<char>>(document),
        document.get("data_base64"@) == Some(JsonView::Text(data)),
        document.get("filename"@) is None,
        text::trim(data).len() > 0,
        !text::trim(data).contains(','),
        outside::base64_of(text::trim(data)) == Ok::<Seq<u8>, Seq<char>>(bytes),
    ensures
        asset_routes::upload_of(body) matches Ok(upload) && upload.bytes == bytes && upload.filename
            == "upload"@,
{
    reveal_strlit("upload");
    assert("upload"@.len() == 6);
    assert(vstd::utf8::is_ascii_chars("upload"@));
    vstd::utf8::is_ascii_chars_encode_utf8("upload"@);
    law_an_upload_is_read_from_its_document(document, data);
}

/// The id of an image is known by its digest: two digests make two ids.
pub proof fn law_an_image_is_known_by_its_digest(a: Seq<u8>, b: Seq<u8>)
    ensures
        text::starts_with(seedance_routes::id_of_digest(a), "asset-inline-"@),
        seedance_routes::id_of_digest(a) == seedance_routes::id_of_digest(b) ==> a == b,
{
    let head = "asset-inline-"@;
    let x = seedance_routes::id_of_digest(a);
    let y = seedance_routes::id_of_digest(b);
    assert(x.subrange(0, head.len() as int) =~= head);
    if x == y {
        assert(x.subrange(head.len() as int, x.len() as int) =~= text::hex(a));
        assert(y.subrange(head.len() as int, y.len() as int) =~= text::hex(b));
        assert(text::hex(a).len() == 2 * a.len() && text::hex(b).len() == 2 * b.len());
        assert forall|i: int| 0 <= i < a.len() implies a[i] == b[i] by {
            text_laws::law_hexadecimal_digits_say_the_bytes(a, i);
            text_laws::law_hexadecimal_digits_say_the_bytes(b, i);
        }
        assert(a =~= b);
    }
}

/// Every image of a request has an id of its own, made of where material is
/// kept, whose it is, the key of the request, the place of the image and its
/// bytes: all of them stand in what the id is made of, and none is cut short.
pub proof fn law_the_id_of_an_image_is_made_of_all_that_it_is(
    data_dir: Seq<char>,
    owner: Seq<char>,
    key: Seq<char>,
    index: nat,
    bytes: Seq<u8>,
)
    ensures
        ({
            let seed = seedance_routes::image_seed(data_dir, owner, key, index, bytes);
            let mark = vstd::utf8::encode_utf8("seedance-inline-asset-v1"@);
            let a = vstd::utf8::encode_utf8(data_dir);
            let b = vstd::utf8::encode_utf8(owner);
            let c = vstd::utf8::encode_utf8(key);
            let d = vstd::utf8::encode_utf8(text::decimal(index));
            let i = mark.len() + 1int;
            let j = i + a.len() + 1;
            let k = j + b.len() + 1;
            let l = k + c.len() + 1;
            let m = l + d.len() + 1;
            &&& seed.len() == m + bytes.len()
            &&& seed.subrange(0, mark.len() as int) == mark && seed[i - 1] == 0
            &&& seed.subrange(i, i + a.len()) == a && seed[j - 1] == 0
            &&& seed.subrange(j, j + b.len()) == b && seed[k - 1] == 0
            &&& seed.subrange(k, k + c.len()) == c && seed[l - 1] == 0
            &&& seed.subrange(l, l + d.len()) == d && seed[m - 1] == 0
            &&& seed.subrange(m, seed.len() as int) == bytes
        }),
{
    let seed = seedance_routes::image_seed(data_dir, owner, key, index, bytes);
    let mark = vstd::utf8::encode_utf8("seedance-inline-asset-v1"@);
    let a = vstd::utf8::encode_utf8(data_dir);
    let b = vstd::utf8::encode_utf8(owner);
    let c = vstd::utf8::encode_utf8(key);
    let d = vstd::utf8::encode_utf8(text::decimal(index));
    let i = mark.len() + 1int;
    let j = i + a.len() + 1;
    let k = j + b.len() + 1;
    let l = k + c.len() + 1;
    let m = l + d.len() + 1;
    assert(seed.subrange(0, mark.len() as int) =~= mark);
    assert(seed.subrange(i, i + a.len()) =~= a);
    assert(seed.subrange(j, j + b.len()) =~= b);
    assert(seed.subrange(k, k + c.len()) =~= c);
    assert(seed.subrange(l, l + d.len()) =~= d);
    assert(seed.subrange(m, seed.len() as int) =~= bytes);
}

/// A request has one id for each of its images, in order, and none without an
/// owner.
pub proof fn law_every_image_has_an_id(
    images: Seq<InlineImageView>,
    owner: Seq<char>,
    refusal: Seq<char>,
    key: Seq<char>,
    data_dir: Seq<char>,
)
    ensures
        ({
            let ids = seedance_routes::ids_for(images, Ok(owner), key, data_dir);
            &&& ids.len() == images.len()
            &&& forall|i: int|
                0 <= i < ids.len() ==> #[trigger] ids[i] == seedance_routes::id_of_digest(
                    outside::sha256_of(
                        seedance_routes::image_seed(
                            data_dir,
                            owner,
                            key,
                            i as nat,
                            images[i].bytes,
                        ),
                    ),
                )
        }),
        seedance_routes::ids_for(images, Err(refusal), key, data_dir).len() == 0,
{
}

/// An answer that is too large, or no document, is a failure of the gateway; any
/// other is answered as a chat.
pub proof fn law_an_unreadable_task_is_a_failure(
    status: u16,
    request_id: Option<Seq<char>>,
    size: nat,
    parsed: Result<JsonView, Seq<char>>,
    now: u64,
)
    ensures
        ({
            let answer = seedance_routes::wrapped_body(status, request_id, size, parsed, now);
            &&& size > 8 * 1024 * 1024 || parsed is Err ==> answer.status == 500
                && answer.body.get("error"@) is Some
            &&& size <= 8 * 1024 * 1024 && parsed is Ok ==> answer == seedance_routes::wrapped(
                status,
                request_id,
                parsed->Ok_0,
                now,
            )
        }),
{
    broadcast use crate::json::group_members;

}

/// Keeping the images of a chat begins with the first of them, and a chat without
/// images is submitted as it is.
pub proof fn law_keeping_images_begins_with_the_first(
    core: bool,
    input: JsonView,
    images: Seq<InlineImageView>,
    owner: Result<Seq<char>, Seq<char>>,
    ids: Seq<Seq<char>>,
)
    requires
        ids.len() == images.len(),
    ensures
        ({
            let (p, action) = seedance_routes::persisting(core, input, images, owner, ids);
            &&& p.core == core && p.video_input == input && p.images == images && p.asset_ids == ids
            &&& p.persisted.len() == 0
            &&& images.len() == 0 ==> action == PersistActionView::Submit(input, Seq::empty())
            &&& images.len() > 0 && owner is Ok ==> match action {
                PersistActionView::Ask(id) => core && id == ids[0],
                PersistActionView::Create(index, id, _) => !core && index == 0 && id == ids[0],
                PersistActionView::Fail(_) => true,
                _ => false,
            }
            &&& images.len() > 0 ==> (owner matches Err(message) ==> action
                == PersistActionView::Fail(message))
            &&& images.len() > 0 && owner is Ok && images[0].mime_type == "image/png"@
                && input is Object && input.get("image_asset_ids"@) is None ==> !(action is Fail)
        }),
{
    broadcast use crate::json::group_members;

}

/// A message that is no text and no list of parts, or has a part that is neither
/// text nor image, is refused as such; a chat without a prompt is refused for
/// that.
pub proof fn law_an_unreadable_message_is_refused(body: JsonView, content: JsonView)
    ensures
        !(content is Text) && !(content is Array) ==> (seedance_chat::content_of(
            content,
        ) matches Err(error) && error.code == "seedance_unsupported_content_part"@),
        content matches JsonView::Text(s) ==> seedance_chat::content_of(content) == Ok::<
            (Seq<char>, Seq<InlineImageView>),
            ChatErrorView,
        >((s, Seq::empty())),
        seedance_chat::projection_of(body) matches Err(error) ==> error.code
            == "seedance_prompt_required"@ || error.code == "seedance_unsupported_content_part"@
            || error.code == "seedance_inline_image_invalid"@,
        !(body is Object) || !(body.get("messages"@) matches Some(JsonView::Array(_))) ==> (
        seedance_chat::projection_of(body) matches Err(error) && error.code
            == "seedance_prompt_required"@),
{
    if let Some(JsonView::Array(messages)) = body.get("messages"@) {
        let last = seedance_chat::last_user_message(messages, messages.len());
        if last >= 0 {
            if let Some(JsonView::Array(parts)) = messages[last].get("content"@) {
                lemma_part_errors(parts, parts.len());
            }
        }
    }
}

proof fn lemma_part_errors(parts: Seq<JsonView>, n: nat)
    ensures
        seedance_chat::parts_of(parts, n) matches Err(error) ==> error.code
            == "seedance_unsupported_content_part"@ || error.code
            == "seedance_inline_image_invalid"@,
    decreases n,
{
    if n > 0 {
        lemma_part_errors(parts, (n - 1) as nat);
    }
}

} // verus!
