//! What holds of the requests for videos.

use crate::json::{self, JsonView};
use crate::outside::{self, UrlHost, UrlView};
use crate::table;
use crate::text;
use crate::trae_resource_upload::UploadErrorView;
use crate::video_request::{self, PrepareView};
use vstd::prelude::*;

verus! {

/// What a request says reaches the upstream as it was said: every member but
/// the gateway's own ids stands in the body with its value, and a default
/// stands only where the request has no such member.
pub proof fn law_the_upstream_is_sent_what_was_asked(
    input: JsonView,
    session_id: Seq<char>,
    name: Seq<char>,
)
    requires
        input is Object,
        name != "image_asset_ids"@,
        name != "video_asset_ids"@,
    ensures
        ({
            let body = video_request::native_body(input, session_id);
            &&& input.get(name) is Some ==> body.get(name) == input.get(name)
            &&& input.get(name) is None ==> {
                &&& name == "session_id"@ ==> body.text_at(name) == Some(session_id)
                &&& name == "duration"@ ==> body.unsigned_at(name) == Some(4u64)
                &&& name == "resolution"@ ==> body.text_at(name) == Some("480p"@)
                &&& name == "ratio"@ ==> body.text_at(name) == Some("16:9"@)
                &&& name == "watermark"@ ==> body.bool_at(name) == Some(false)
                &&& name == "mode_type"@ ==> body.unsigned_at(name) == Some(1u64)
                &&& name == "request_type"@ ==> body.text_at(name) == Some("solo_work_lite"@)
                &&& name == "chat_mode"@ ==> body.unsigned_at(name) == Some(0u64)
                &&& name == "access_type"@ ==> body.unsigned_at(name) == Some(1u64)
                &&& name == "image_urls"@ || name == "video_urls"@ ==> (
                body.get(name) matches Some(JsonView::Array(items)) && items.len() == 0)
                &&& body.get(name) is Some ==> name == "session_id"@ || name == "duration"@ || name
                    == "resolution"@ || name == "ratio"@ || name == "watermark"@ || name
                    == "mode_type"@ || name == "request_type"@ || name == "chat_mode"@ || name
                    == "access_type"@ || name == "image_urls"@ || name == "video_urls"@
            }
        }),
{
    broadcast use crate::json::group_members;

    reveal_strlit("image_asset_ids");
    reveal_strlit("video_asset_ids");
    reveal_strlit("image_urls");
    reveal_strlit("video_urls");
    reveal_strlit("resolution");
    reveal_strlit("ratio");
    reveal_strlit("duration");
    reveal_strlit("mode_type");
    reveal_strlit("request_type");
    reveal_strlit("chat_mode");
    reveal_strlit("session_id");
    reveal_strlit("access_type");
    reveal_strlit("watermark");
    assert("image_asset_ids"@.len() == 15);
    assert("video_asset_ids"@.len() == 15);
    assert("image_urls"@.len() == 10);
    assert("video_urls"@.len() == 10);
    assert("resolution"@.len() == 10);
    assert("ratio"@.len() == 5);
    assert("duration"@.len() == 8);
    assert("mode_type"@.len() == 9);
    assert("request_type"@.len() == 12);
    assert("chat_mode"@.len() == 9);
    assert("session_id"@.len() == 10);
    assert("access_type"@.len() == 11);
    assert("watermark"@.len() == 9);
    assert("image_asset_ids"@[0] != "video_asset_ids"@[0]);
    assert("image_urls"@[0] != "video_urls"@[0]);
    assert("image_urls"@[0] != "resolution"@[0]);
    assert("image_urls"@[0] != "session_id"@[0]);
    assert("video_urls"@[0] != "resolution"@[0]);
    assert("video_urls"@[0] != "session_id"@[0]);
    assert("resolution"@[0] != "session_id"@[0]);
    assert("mode_type"@[0] != "chat_mode"@[0]);
    assert("mode_type"@[0] != "watermark"@[0]);
    assert("chat_mode"@[0] != "watermark"@[0]);
}

/// The references of one kind that a request lists.
pub open spec fn references(body: JsonView, key: Seq<char>) -> Seq<JsonView> {
    match body.get(key) {
        Some(JsonView::Array(items)) => items,
        _ => Seq::empty(),
    }
}

/// The upstream holds all the references.
pub open spec fn all_native(items: Seq<JsonView>) -> bool {
    forall|i: int|
        0 <= i < items.len() ==> (#[trigger] items[i] matches JsonView::Text(s)
            && video_request::native_uri(s))
}

/// The names of uploaded material stand behind the references of the request,
/// in the order of the upload; the ids are gone, and every other member stays.
pub proof fn law_uploads_stand_behind_the_references(
    body: JsonView,
    asset_key: Seq<char>,
    url_key: Seq<char>,
    label: Seq<char>,
    uris: Seq<Seq<char>>,
    name: Seq<char>,
)
    requires
        body is Object,
        asset_key != url_key,
    ensures
        ({
            let after = video_request::with_uploads(body, asset_key, url_key, label, uris);
            let had = references(body, url_key);
            let listed = body.get(url_key) is None || body.get(url_key)->0 is Array;
            &&& after is Ok == (listed && all_native(had) && had.len() + uris.len() <= 10)
            &&& after matches Ok(sent) ==> {
                &&& sent.get(url_key) matches Some(JsonView::Array(items))
                &&& items.len() == had.len() + uris.len()
                &&& forall|i: int| 0 <= i < had.len() ==> #[trigger] items[i] == had[i]
                &&& forall|i: int|
                    0 <= i < uris.len() ==> items[had.len() + i] == JsonView::Text(
                        #[trigger] uris[i],
                    )
                &&& name != url_key && name != asset_key ==> sent.get(name) == body.get(name)
            }
        }),
{
    broadcast use crate::json::group_members;

    let had = references(body, url_key);
    assert(video_request::some_foreign(had) == !all_native(had));
    let all = had + json::texts_json(uris)->Array_0;
    if video_request::with_uploads(body, asset_key, url_key, label, uris) is Ok {
        let put = body.with(url_key, JsonView::Array(all));
        assert(put is Object);
        assert(put.without(asset_key).get(url_key) == put.get(url_key));
        assert forall|i: int| 0 <= i < uris.len() implies all[had.len() + i] == JsonView::Text(
            #[trigger] uris[i],
        ) by {}
    }
}

/// Material is uploaded one piece after the other, the images first, each by
/// its own id; the request is sent once all of it is uploaded.
pub proof fn law_material_is_uploaded_in_order(
    input: JsonView,
    images: Seq<Seq<char>>,
    videos: Seq<Seq<char>>,
    image_uris: Seq<Seq<char>>,
    video_uris: Seq<Seq<char>>,
)
    requires
        input is Object,
        input.get("image_urls"@) is None,
        input.get("video_urls"@) is None,
        input.get("image_asset_ids"@) == Some(json::texts_json(images)),
        input.get("video_asset_ids"@) == Some(json::texts_json(videos)),
        forall|i: int| 0 <= i < images.len() ==> text::trim(#[trigger] images[i]).len() > 0,
        forall|i: int| 0 <= i < videos.len() ==> text::trim(#[trigger] videos[i]).len() > 0,
    ensures
        ({
            let step = video_request::prepare_spec(input, image_uris, video_uris);
            &&& image_uris.len() < images.len() ==> step == PrepareView::UploadImage(
                text::trim(images[image_uris.len() as int]),
            )
            &&& image_uris.len() >= images.len() && video_uris.len() < videos.len() ==> step
                == PrepareView::UploadVideo(text::trim(videos[video_uris.len() as int]))
            &&& image_uris.len() >= images.len() && video_uris.len() >= videos.len() ==> {
                &&& step is Ready == (image_uris.len() <= 10 && video_uris.len() <= 10)
                &&& step matches PrepareView::Ready(sent) ==> sent.get("image_urls"@) == Some(
                    json::texts_json(image_uris),
                ) && sent.get("video_urls"@) == Some(json::texts_json(video_uris))
                &&& !(step is Ready) ==> (step matches PrepareView::Failed(error)
                    && !error.retryable_account)
            }
        }),
{
    broadcast use crate::json::group_members;

    reveal_strlit("image_asset_ids");
    reveal_strlit("video_asset_ids");
    reveal_strlit("image_urls");
    reveal_strlit("video_urls");
    assert("image_asset_ids"@.len() == 15);
    assert("video_asset_ids"@.len() == 15);
    assert("image_urls"@.len() == 10);
    assert("video_urls"@.len() == 10);
    assert("image_asset_ids"@[0] != "video_asset_ids"@[0]);
    assert("image_urls"@[0] != "video_urls"@[0]);
    law_uploads_stand_behind_the_references(
        input,
        "image_asset_ids"@,
        "image_urls"@,
        "图片"@,
        image_uris,
        "video_urls"@,
    );
    let none = Seq::<JsonView>::empty();
    assert(!video_request::some_foreign(none));
    assert(none + json::texts_json(image_uris)->Array_0 =~= json::texts_json(
        image_uris,
    )->Array_0);
    assert(none + json::texts_json(video_uris)->Array_0 =~= json::texts_json(
        video_uris,
    )->Array_0);
    if image_uris.len() <= 10 {
        let one = input.with("image_urls"@, json::texts_json(image_uris)).without(
            "image_asset_ids"@,
        );
        assert(one is Object);
        assert(one.get("video_urls"@) is None);
        assert(one.get("image_urls"@) == Some(json::texts_json(image_uris)));
        let two = one.with("video_urls"@, json::texts_json(video_uris));
        assert(two.get("image_urls"@) == one.get("image_urls"@));
        assert(two.without("video_asset_ids"@).get("image_urls"@) == two.get("image_urls"@));
        assert(two.without("video_asset_ids"@).get("video_urls"@) == two.get("video_urls"@));
    }
}

/// The address of a host as one number: its first three bytes.
pub open spec fn prefix(a: u8, b: u8, c: u8) -> int {
    a * 65536 + b * 256 + c
}

/// An address of the internet is public exactly where it lies in none of the
/// reserved networks.
pub proof fn law_a_reserved_address_lies_in_a_reserved_network(a: u8, b: u8, c: u8)
    ensures
        ({
            let at = prefix(a, b, c);
            video_request::reserved_v4(a, b, c) == (at <= 0x00ffff || 0x0a0000 <= at <= 0x0affff
                || 0x644000 <= at <= 0x647fff || 0x7f0000 <= at <= 0x7fffff || 0xa9fe00 <= at
                <= 0xa9feff || 0xac1000 <= at <= 0xac1fff || 0xc00000 <= at <= 0xc000ff || 0xc00200
                <= at <= 0xc002ff || at == 0xc05863 || 0xc0a800 <= at <= 0xc0a8ff || 0xc61200 <= at
                <= 0xc613ff || at == 0xc63364 || at == 0xcb0071 || at >= 0xe00000)
        }),
{
}

/// An IPv6 address that holds an IPv4 address is judged by that; another is
/// public unless it is the unspecified or the loopback address, or lies in a
/// local, link-local or multicast network.
pub proof fn law_an_address_in_an_address_is_judged_alike(s: Seq<u16>, a: u8, b: u8, c: u8, d: u8)
    requires
        s.len() == 8,
    ensures
        s[0] == 0 && s[1] == 0 && s[2] == 0 && s[3] == 0 && s[4] == 0 && s[5] == 0xffff && s[6] == a
            * 256 + b && s[7] == c * 256 + d ==> video_request::reserved_v6(s)
            == video_request::reserved_v4(a, b, c),
        s[0] / 512 == 126u16 ==> video_request::reserved_v6(s),
        s[0] / 64 == 1018u16 ==> video_request::reserved_v6(s),
        s[0] / 256 == 255u16 ==> video_request::reserved_v6(s),
        s == seq![0u16, 0u16, 0u16, 0u16, 0u16, 0u16, 0u16, 1u16] ==> video_request::reserved_v6(s),
        0 < s[0] < 0xfc00 ==> !video_request::reserved_v6(s),
{
    if s[0] == 0 && s[1] == 0 && s[2] == 0 && s[3] == 0 && s[4] == 0 && s[5] == 0xffff && s[6] == a
        * 256 + b && s[7] == c * 256 + d {
        assert((s[6] / 256) as u8 == a);
        assert((s[6] % 256) as u8 == b);
        assert((s[7] / 256) as u8 == c);
        assert(s[5] != 0);
    }
}

/// Reference material is read from a public host alone, over HTTPS unless the
/// operator lets plain HTTP pass, and without a name or a password.
pub proof fn law_a_reference_is_public(url: UrlView, allow_http: bool)
    ensures
        ({
            let secure = url.scheme == "https"@ || (url.scheme == "http"@ && allow_http);
            let anonymous = url.username.len() == 0 && !url.has_password;
            let public = url.host matches Some(host) && !video_request::local_name(host)
                && !video_request::reserved_host(url.address);
            video_request::reference_fault(Some(url), allow_http) is None == (secure && anonymous
                && public)
        }),
        video_request::reference_fault(None, allow_http) is Some,
{
    reveal_strlit("https");
    reveal_strlit("http");
    assert("https"@.len() == 5);
    assert("http"@.len() == 4);
}

/// A name of the local network is one in any case of its letters.
pub proof fn law_a_local_name_is_local_in_any_case(host: Seq<char>, part: Seq<char>)
    ensures
        text::lower(host) == "localhost"@ ==> video_request::local_name(host),
        text::lower(host) == part + ".local"@ ==> video_request::local_name(host),
        text::lower(host) == part + ".lan"@ ==> video_request::local_name(host),
        text::lower(host) == part + ".internal"@ ==> video_request::local_name(host),
        text::lower(host) == part + ".localhost"@ ==> video_request::local_name(host),
{
    let name = text::lower(host);
    lemma_ends(part, ".local"@);
    lemma_ends(part, ".lan"@);
    lemma_ends(part, ".internal"@);
    lemma_ends(part, ".localhost"@);
}

proof fn lemma_ends(a: Seq<char>, b: Seq<char>)
    ensures
        text::ends_with(a + b, b),
{
    assert((a + b).subrange(a.len() as int, (a + b).len() as int) =~= b);
}

/// A request is accepted only where it says a prompt, a duration of two to
/// fifteen whole seconds if any, a known resolution and a known aspect ratio if
/// any, a model of at most 96 bytes, at most ten references of a kind, and no
/// material of its own. What is accepted is the model, `seedance` where none is
/// named, and the prompt.
pub proof fn law_an_accepted_request_is_in_order(body: JsonView, allow_http: bool, key: Seq<char>)
    requires
        key == "image_urls"@ || key == "video_urls"@ || key == "image_asset_ids"@ || key
            == "video_asset_ids"@,
    ensures
        video_request::accepted(body, allow_http) matches Ok((model, prompt)) ==> {
            &&& body is Object
            &&& body.text_at("prompt"@) matches Some(said)
            &&& prompt == text::trim(said) && prompt.len() > 0
            &&& match body.trimmed_at("model"@) {
                Some(named) => model == named,
                None => model == "seedance"@,
            }
            &&& text::byte_len(model) <= 96
            &&& body.get("duration"@) matches Some(duration) ==> (
            duration.as_unsigned() matches Some(seconds) && 2 <= seconds <= 15)
            &&& body.text_at("resolution"@) matches Some(resolution) ==> {
                let v = text::lower(text::trim(resolution));
                v == "480p"@ || v == "720p"@ || v == "1080p"@ || v == "4k"@
            }
            &&& body.text_at("ratio"@) matches Some(ratio) ==> {
                let v = text::trim(ratio);
                v == "16:9"@ || v == "9:16"@ || v == "1:1"@ || v == "4:3"@ || v == "3:4"@ || v
                    == "21:9"@
            }
            &&& body.get("image_paths"@) is None && body.get("video_paths"@) is None
            &&& body.get("image_data"@) is None && body.get("video_data"@) is None
            &&& body.get(key) matches Some(value) ==> {
                &&& value matches JsonView::Array(items)
                &&& items.len() <= 10
                &&& forall|i: int|
                    0 <= i < items.len() ==> (#[trigger] items[i] matches JsonView::Text(s)
                        && text::trim(s).len() > 0)
            }
        },
{
    if video_request::accepted(body, allow_http) is Ok {
        if let Some(JsonView::Array(items)) = body.get(key) {
            assert(!video_request::some_blank(items));
            assert forall|i: int| 0 <= i < items.len() implies (
            #[trigger] items[i] matches JsonView::Text(s) && text::trim(s).len() > 0) by {
                assert(video_request::solid_text(items[i]));
            }
        }
    }
}

/// A request that is in order and refers to no material is accepted.
pub proof fn law_a_plain_request_is_accepted(body: JsonView, allow_http: bool, prompt: Seq<char>)
    requires
        body is Object,
        body.get("prompt"@) == Some(JsonView::Text(prompt)),
        text::trim(prompt).len() > 0,
        body.get("model"@) is None,
        body.get("duration"@) matches Some(duration) ==> (
        duration.as_unsigned() matches Some(seconds) && 2 <= seconds <= 15),
        body.get("resolution"@) is None,
        body.get("ratio"@) is None,
        body.get("image_paths"@) is None,
        body.get("video_paths"@) is None,
        body.get("image_data"@) is None,
        body.get("video_data"@) is None,
        body.get("image_urls"@) is None,
        body.get("video_urls"@) is None,
        body.get("image_asset_ids"@) is None,
        body.get("video_asset_ids"@) is None,
    ensures
        video_request::accepted(body, allow_http) == Ok::<(Seq<char>, Seq<char>), Seq<char>>(
            ("seedance"@, text::trim(prompt)),
        ),
{
    reveal_strlit("seedance");
    assert("seedance"@.len() == 8);
    lemma_seedance_is_short();
}

proof fn lemma_seedance_is_short()
    ensures
        text::byte_len("seedance"@) <= 96,
{
    reveal_strlit("seedance");
    assert(vstd::utf8::is_ascii_chars("seedance"@));
    vstd::utf8::is_ascii_chars_encode_utf8("seedance"@);
}

/// The upstream holds material whose name begins with `tos-`, has no scheme and
/// no white space, and is not too long; white space around it does not count.
pub proof fn law_native_material_is_named(value: Seq<char>)
    ensures
        video_request::native_uri(value) ==> {
            let raw = text::trim(value);
            &&& raw.len() >= 4
            &&& raw.subrange(0, 4) == "tos-"@
            &&& !text::contains(raw, "://"@)
            &&& forall|i: int| 0 <= i < raw.len() ==> !text::is_space(#[trigger] raw[i])
            &&& text::byte_len(raw) <= 4096
        },
{
    reveal_strlit("tos-");
    assert("tos-"@.len() == 4);
}

/// Material comes over plain HTTP only where the setting says yes in one of its
/// words.
pub proof fn law_plain_http_must_be_asked_for(value: Seq<char>)
    ensures
        !video_request::insecure_setting(None),
        video_request::insecure_setting(Some(value)) <==> {
            let word = text::trim(value);
            word == "1"@ || word == "true"@ || word == "TRUE"@ || word == "yes"@ || word == "YES"@
        },
{
}

} // verus!
