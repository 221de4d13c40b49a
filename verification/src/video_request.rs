//! Video requests: which are accepted, and what the native upstream is sent.

use crate::json::{Json, JsonView};
use crate::outside::{self, UrlHost, UrlParts, UrlView};
use crate::table;
use crate::text;
use crate::trae_resource_upload::{NativeUploadError, UploadErrorView};
use vstd::prelude::*;

verus! {

/// The setting that lets reference material come over plain HTTP is on.
pub open spec fn insecure_setting(value: Option<Seq<char>>) -> bool {
    match value {
        Some(v) => {
            let v = text::trim(v);
            v == "1"@ || v == "true"@ || v == "TRUE"@ || v == "yes"@ || v == "YES"@
        },
        None => false,
    }
}

/// The setting that lets reference material come over plain HTTP is on.
pub fn insecure_reference_urls_allowed(value: Option<&str>) -> (r: bool)
    ensures
        r == insecure_setting(
            match value {
                Some(v) => Some(v@),
                None => None,
            },
        ),
{
    match value {
        Some(v) => {
            let v = text::trimmed(v);
            text::same(v, "1") || text::same(v, "true") || text::same(v, "TRUE") || text::same(
                v,
                "yes",
            ) || text::same(v, "YES")
        },
        None => false,
    }
}

/// The IPv4 address is not a public one.
pub open spec fn reserved_v4(a: u8, b: u8, c: u8) -> bool {
    // This network.
    ||| a == 0
    // Private networks.
    ||| a == 10
    ||| a == 172 && 16 <= b <= 31
    ||| a == 192 && b == 168
    // Loopback and link-local addresses.
    ||| a == 127
    ||| a == 169 && b == 254
    // Shared address space.
    ||| a == 100 && 64 <= b <= 127
    // Protocol assignments, documentation, relay anycast and benchmarking.
    ||| a == 192 && b == 0
    ||| a == 192 && b == 2
    ||| a == 192 && b == 88 && c == 99
    ||| a == 198 && 18 <= b <= 19
    ||| a == 198 && b == 51 && c == 100
    ||| a == 203 && b == 0 && c == 113
    // Multicast and reserved addresses.
    ||| a >= 224
}

/// The IPv6 address holds an IPv4 address.
pub open spec fn is_mapped_v4(s: Seq<u16>) -> bool {
    s[0] == 0 && s[1] == 0 && s[2] == 0 && s[3] == 0 && s[4] == 0 && s[5] == 0xffff
}

/// The IPv6 address is not a public one.
pub open spec fn reserved_v6(s: Seq<u16>) -> bool {
    ||| is_mapped_v4(s) && reserved_v4((s[6] / 256) as u8, (s[6] % 256) as u8, (s[7] / 256) as u8)
    // The unspecified address and the loopback address.
    ||| (forall|i: int| 0 <= i < 7 ==> #[trigger] s[i] == 0) && s[7] <= 1
    // Unique local, link-local and multicast addresses.
    ||| 0xfc00 <= s[0] <= 0xfdff
    ||| 0xfe80 <= s[0] <= 0xfebf
    ||| s[0] >= 0xff00
}

/// The host is an address that is not public.
pub open spec fn reserved_host(host: UrlHost) -> bool {
    match host {
        UrlHost::V4(o) => reserved_v4(o@[0], o@[1], o@[2]),
        UrlHost::V6(s) => reserved_v6(s@),
        _ => false,
    }
}

/// The host is an address that is not public.
pub fn private_or_reserved_ip(host: &UrlHost) -> (r: bool)
    ensures
        r == reserved_host(*host),
{
    match host {
        UrlHost::V4(o) => reserved_octets(o[0], o[1], o[2]),
        UrlHost::V6(s) => {
            let mapped = s[0] == 0 && s[1] == 0 && s[2] == 0 && s[3] == 0 && s[4] == 0 && s[5]
                == 0xffff;
            let zeros = s[0] == 0 && s[1] == 0 && s[2] == 0 && s[3] == 0 && s[4] == 0 && s[5] == 0
                && s[6] == 0;
            assert(zeros == forall|i: int| 0 <= i < 7 ==> #[trigger] s@[i] == 0) by {
                if forall|i: int| 0 <= i < 7 ==> #[trigger] s@[i] == 0 {
                    assert(s@[0] == 0 && s@[1] == 0 && s@[2] == 0 && s@[3] == 0 && s@[4] == 0
                        && s@[5] == 0 && s@[6] == 0);
                }
            }
            (mapped && reserved_octets((s[6] / 256) as u8, (s[6] % 256) as u8, (s[7] / 256) as u8))
                || (zeros && s[7] <= 1) || (0xfc00 <= s[0] && s[0] <= 0xfdff) || (0xfe80 <= s[0]
                && s[0] <= 0xfebf) || s[0] >= 0xff00
        },
        _ => false,
    }
}

fn reserved_octets(a: u8, b: u8, c: u8) -> (r: bool)
    ensures
        r == reserved_v4(a, b, c),
{
    a == 0 || a == 10 || (a == 172 && 16 <= b && b <= 31) || (a == 192 && b == 168) || a == 127
        || (a == 169 && b == 254) || (a == 100 && 64 <= b && b <= 127) || (a == 192 && b == 0) || (a
        == 192 && b == 2) || (a == 192 && b == 88 && c == 99) || (a == 198 && 18 <= b && b <= 19)
        || (a == 198 && b == 51 && c == 100) || (a == 203 && b == 0 && c == 113) || a >= 224
}

/// The name stands for a host of the local network.
pub open spec fn local_name(host: Seq<char>) -> bool {
    let name = text::lower(host);
    ||| name == "localhost"@
    ||| text::ends_with(name, ".localhost"@)
    ||| text::ends_with(name, ".local"@)
    ||| text::ends_with(name, ".lan"@)
    ||| text::ends_with(name, ".internal"@)
}

fn is_local_name(host: &str) -> (r: bool)
    ensures
        r == local_name(host@),
{
    let name = text::lowered(host);
    text::same(name.as_str(), "localhost") || text::finishes_with(name.as_str(), ".localhost")
        || text::finishes_with(name.as_str(), ".local") || text::finishes_with(
        name.as_str(),
        ".lan",
    ) || text::finishes_with(name.as_str(), ".internal")
}

/// Why a URL may not be read for reference material.
pub open spec fn reference_fault(parts: Option<UrlView>, allow_http: bool) -> Option<Seq<char>> {
    match parts {
        None => Some("参考素材 URL 无效"@),
        Some(url) => if url.scheme != "https"@ && url.scheme != "http"@ {
            Some("参考素材 URL 只允许 http(s)"@)
        } else if url.scheme == "http"@ && !allow_http {
            Some("参考素材 URL 默认必须使用 HTTPS"@)
        } else if url.username.len() > 0 || url.has_password {
            Some("参考素材 URL 不允许携带用户名或密码"@)
        } else {
            match url.host {
                None => Some("参考素材 URL 缺少主机名"@),
                Some(host) => if local_name(host) || reserved_host(url.address) {
                    Some("参考素材 URL 不允许回环、私网或保留地址"@)
                } else {
                    None
                },
            }
        },
    }
}

/// The view of a check.
pub open spec fn fault_view(r: Result<(), String>) -> Option<Seq<char>> {
    match r {
        Ok(_) => None,
        Err(fault) => Some(fault@),
    }
}

/// Checks the parts of a URL from which reference material is to be read.
pub fn check_reference_url(parts: &Option<UrlParts>, allow_insecure_http: bool) -> (r: Result<
    (),
    String,
>)
    ensures
        fault_view(r) == reference_fault(
            match parts {
                Some(p) => Some(p@),
                None => None,
            },
            allow_insecure_http,
        ),
{
    let url = match parts {
        Some(url) => url,
        None => {
            return Err("参考素材 URL 无效".to_owned());
        },
    };
    let plain = text::same(url.scheme.as_str(), "http");
    if !plain && !text::same(url.scheme.as_str(), "https") {
        return Err("参考素材 URL 只允许 http(s)".to_owned());
    }
    if plain && !allow_insecure_http {
        return Err("参考素材 URL 默认必须使用 HTTPS".to_owned());
    }
    if !url.username.as_str().is_empty() || url.has_password {
        return Err("参考素材 URL 不允许携带用户名或密码".to_owned());
    }
    match &url.host {
        None => Err("参考素材 URL 缺少主机名".to_owned()),
        Some(host) => {
            if is_local_name(host.as_str()) || private_or_reserved_ip(&url.address) {
                Err("参考素材 URL 不允许回环、私网或保留地址".to_owned())
            } else {
                Ok(())
            }
        },
    }
}

/// Checks a URL from which reference material is to be read.
pub fn validate_reference_url(value: &str, allow_insecure_http: bool) -> (r: Result<(), String>)
    ensures
        fault_view(r) == reference_fault(
            outside::url_of(text::trim(value@)),
            allow_insecure_http,
        ),
{
    let parts = outside::parse_url(text::trimmed(value));
    check_reference_url(&parts, allow_insecure_http)
}

/// The text names material that the native upstream holds.
pub open spec fn native_uri(value: Seq<char>) -> bool {
    let raw = text::trim(value);
    &&& text::starts_with(raw, "tos-"@)
    &&& !text::contains(raw, "://"@)
    &&& !text::has_space(raw)
    &&& text::byte_len(raw) <= 4096
}

/// The text names material that the native upstream holds.
pub fn is_native_resource_uri(value: &str) -> (r: bool)
    ensures
        r == native_uri(value@),
{
    let raw = text::trimmed(value);
    text::begins_with(raw, "tos-") && !text::has(raw, "://") && !text::spaced(raw)
        && text::bytes_in(raw) <= 4096
}

/// The document is a string that is not blank.
pub open spec fn solid_text(value: JsonView) -> bool {
    match value {
        JsonView::Text(s) => text::trim(s).len() > 0,
        _ => false,
    }
}

/// Some element is no string, or a blank one.
pub open spec fn some_blank(items: Seq<JsonView>) -> bool {
    exists|i: int| 0 <= i < items.len() && !solid_text(#[trigger] items[i])
}

/// The first fault of the first `n` references.
pub open spec fn first_reference_fault(
    items: Seq<JsonView>,
    n: nat,
    allow_http: bool,
) -> Option<Seq<char>>
    decreases n,
{
    if n == 0 {
        None
    } else {
        match first_reference_fault(items, (n - 1) as nat, allow_http) {
            Some(fault) => Some(fault),
            None => match items[n - 1] {
                JsonView::Text(url) => if native_uri(url) {
                    None
                } else {
                    reference_fault(outside::url_of(text::trim(url)), allow_http)
                },
                _ => None,
            },
        }
    }
}

/// The fault of one list of references.
pub open spec fn list_fault(
    body: JsonView,
    key: Seq<char>,
    urls: bool,
    allow_http: bool,
) -> Option<Seq<char>> {
    match body.get(key) {
        None => None,
        Some(JsonView::Array(items)) => if items.len() > 10 || some_blank(items) {
            Some(key + " 最多 10 个非空字符串"@)
        } else if urls {
            first_reference_fault(items, items.len(), allow_http)
        } else {
            None
        },
        Some(_) => Some(key + " 必须是字符串数组"@),
    }
}

/// The fault of a list whose references the native upstream must hold.
pub open spec fn native_list_fault(body: JsonView, key: Seq<char>) -> Option<Seq<char>> {
    match body.get(key) {
        None => None,
        Some(JsonView::Array(items)) => native_items_fault(items, items.len(), key),
        Some(_) => Some(key + " 必须是字符串数组"@),
    }
}

/// The first fault of the first `n` references that the native upstream must
/// hold.
pub open spec fn native_items_fault(items: Seq<JsonView>, n: nat, key: Seq<char>) -> Option<
    Seq<char>,
>
    decreases n,
{
    if n == 0 {
        None
    } else {
        match native_items_fault(items, (n - 1) as nat, key) {
            Some(fault) => Some(fault),
            None => match items[n - 1] {
                JsonView::Text(s) => if text::trim(s).len() == 0 {
                    Some(key + " 只能包含非空字符串"@)
                } else if native_uri(s) {
                    None
                } else {
                    Some(
                        key
                            + " 不能直接传公网 URL；请先 POST /v1/assets，再使用 image_asset_ids/video_asset_ids"@,
                    )
                },
                _ => Some(key + " 只能包含非空字符串"@),
            },
        }
    }
}

/// The fault of a request in what the native upstream must hold.
pub open spec fn native_fault(body: JsonView) -> Option<Seq<char>> {
    if !(body is Object) {
        Some("video request 必须是 JSON 对象"@)
    } else {
        match native_list_fault(body, "image_urls"@) {
            Some(fault) => Some(fault),
            None => native_list_fault(body, "video_urls"@),
        }
    }
}

/// The prompt of a request.
pub open spec fn prompt_of(body: JsonView) -> Option<Seq<char>> {
    body.trimmed_at("prompt"@)
}

/// The model of a request.
pub open spec fn model_of(body: JsonView) -> Seq<char> {
    match body.trimmed_at("model"@) {
        Some(model) => model,
        None => "seedance"@,
    }
}

/// The resolution is one that videos come in.
pub open spec fn known_resolution(value: Seq<char>) -> bool {
    let v = text::lower(text::trim(value));
    v == "480p"@ || v == "720p"@ || v == "1080p"@ || v == "4k"@
}

/// The aspect ratio is one that videos come in.
pub open spec fn known_ratio(value: Seq<char>) -> bool {
    let v = text::trim(value);
    v == "16:9"@ || v == "9:16"@ || v == "1:1"@ || v == "4:3"@ || v == "3:4"@ || v == "21:9"@
}

/// The fault of a request in what it says of the video.
pub open spec fn shape_fault(body: JsonView) -> Option<Seq<char>> {
    if prompt_of(body) is None {
        Some("prompt 不能为空"@)
    } else if text::byte_len(model_of(body)) > 96 {
        Some("model 过长（最多 96 个字符）"@)
    } else if body.get("duration"@) is Some && !(body.unsigned_at("duration"@) is Some && 2
        <= body.unsigned_at("duration"@)->0 <= 15) {
        Some("duration 必须是 2-15 秒的整数"@)
    } else if body.text_at("resolution"@) is Some && !known_resolution(
        body.text_at("resolution"@)->0,
    ) {
        Some("resolution 仅支持 480p、720p、1080p 或 4K"@)
    } else if body.text_at("ratio"@) is Some && !known_ratio(body.text_at("ratio"@)->0) {
        Some("ratio 不是支持的画面比例"@)
    } else {
        None
    }
}

/// The fault of a request that holds material itself.
pub open spec fn inline_fault(body: JsonView, key: Seq<char>) -> Option<Seq<char>> {
    if body.get(key) is Some {
        Some(
            key
                + " 只能由本地 MCP 桥预处理；请先 POST /v1/assets，再使用 image_asset_ids/video_asset_ids"@,
        )
    } else {
        None
    }
}

/// The first of two faults.
pub open spec fn or_fault(first: Option<Seq<char>>, second: Option<Seq<char>>) -> Option<
    Seq<char>,
> {
    if first is Some {
        first
    } else {
        second
    }
}

/// The first fault of a request.
pub open spec fn request_fault(body: JsonView, allow_http: bool) -> Option<Seq<char>> {
    let inline = or_fault(
        or_fault(inline_fault(body, "image_paths"@), inline_fault(body, "video_paths"@)),
        or_fault(inline_fault(body, "image_data"@), inline_fault(body, "video_data"@)),
    );
    let lists = or_fault(
        or_fault(
            list_fault(body, "image_urls"@, true, allow_http),
            list_fault(body, "video_urls"@, true, allow_http),
        ),
        or_fault(
            list_fault(body, "image_asset_ids"@, false, allow_http),
            list_fault(body, "video_asset_ids"@, false, allow_http),
        ),
    );
    or_fault(or_fault(shape_fault(body), inline), or_fault(lists, native_fault(body)))
}

/// A request as it is accepted, or why it is not.
pub open spec fn accepted(body: JsonView, allow_http: bool) -> Result<
    (Seq<char>, Seq<char>),
    Seq<char>,
> {
    match request_fault(body, allow_http) {
        Some(fault) => Err(fault),
        None => Ok((model_of(body), prompt_of(body)->0)),
    }
}

/// The view of an accepted request.
pub open spec fn accepted_view(r: Result<(String, String), String>) -> Result<
    (Seq<char>, Seq<char>),
    Seq<char>,
> {
    match r {
        Ok((model, prompt)) => Ok((model@, prompt@)),
        Err(fault) => Err(fault@),
    }
}

fn check_shape(body: &Json) -> (r: Result<(), String>)
    ensures
        fault_view(r) == shape_fault(body@),
{
    if body.trimmed_at("prompt").is_none() {
        return Err("prompt 不能为空".to_owned());
    }
    let model = match body.trimmed_at("model") {
        Some(model) => model,
        None => "seedance",
    };
    if text::bytes_in(model) > 96 {
        return Err("model 过长（最多 96 个字符）".to_owned());
    }
    if body.get("duration").is_some() {
        let valid = match body.u64_at("duration") {
            Some(v) => 2 <= v && v <= 15,
            None => false,
        };
        if !valid {
            return Err("duration 必须是 2-15 秒的整数".to_owned());
        }
    }
    if let Some(resolution) = body.str_at("resolution") {
        let v = text::lowered(text::trimmed(resolution));
        let v = v.as_str();
        if !(text::same(v, "480p") || text::same(v, "720p") || text::same(v, "1080p")
            || text::same(v, "4k")) {
            return Err("resolution 仅支持 480p、720p、1080p 或 4K".to_owned());
        }
    }
    if let Some(ratio) = body.str_at("ratio") {
        let v = text::trimmed(ratio);
        if !(text::same(v, "16:9") || text::same(v, "9:16") || text::same(v, "1:1") || text::same(
            v,
            "4:3",
        ) || text::same(v, "3:4") || text::same(v, "21:9")) {
            return Err("ratio 不是支持的画面比例".to_owned());
        }
    }
    Ok(())
}

fn check_inline(body: &Json, key: &str) -> (r: Result<(), String>)
    ensures
        fault_view(r) == inline_fault(body@, key@),
{
    if body.get(key).is_some() {
        Err(
            text::join2(
                key,
                " 只能由本地 MCP 桥预处理；请先 POST /v1/assets，再使用 image_asset_ids/video_asset_ids",
            ),
        )
    } else {
        Ok(())
    }
}

fn any_blank(items: &Vec<Json>) -> (r: bool)
    ensures
        r == some_blank(Seq::new(items@.len(), |i: int| items@[i]@)),
{
    let ghost all = Seq::new(items@.len(), |i: int| items@[i]@);
    let mut i: usize = 0;
    while i < items.len()
        invariant
            i <= items.len(),
            all == Seq::new(items@.len(), |i: int| items@[i]@),
            forall|j: int| 0 <= j < i ==> solid_text(#[trigger] all[j]),
        decreases items.len() - i,
    {
        assert(all[i as int] == items@[i as int]@);
        let solid = match &items[i] {
            Json::Text(s) => !text::blank(s.as_str()),
            _ => false,
        };
        if !solid {
            return true;
        }
        i = i + 1;
    }
    false
}

fn check_references(items: &Vec<Json>, allow_insecure_http: bool) -> (r: Result<(), String>)
    ensures
        ({
            let all = Seq::new(items@.len(), |i: int| items@[i]@);
            fault_view(r) == first_reference_fault(all, all.len(), allow_insecure_http)
        }),
{
    let ghost all = Seq::new(items@.len(), |i: int| items@[i]@);
    let mut i: usize = 0;
    while i < items.len()
        invariant
            i <= items.len(),
            all == Seq::new(items@.len(), |i: int| items@[i]@),
            first_reference_fault(all, i as nat, allow_insecure_http) is None,
        decreases items.len() - i,
    {
        assert(all[i as int] == items@[i as int]@);
        if let Json::Text(url) = &items[i] {
            if !is_native_resource_uri(url.as_str()) {
                if let Err(fault) = validate_reference_url(url.as_str(), allow_insecure_http) {
                    proof {
                        lemma_reference_fault(all, (i + 1) as nat, all.len(), allow_insecure_http);
                    }
                    return Err(fault);
                }
            }
        }
        i = i + 1;
    }
    Ok(())
}

proof fn lemma_reference_fault(items: Seq<JsonView>, m: nat, n: nat, allow_http: bool)
    requires
        m <= n,
        first_reference_fault(items, m, allow_http) is Some,
    ensures
        first_reference_fault(items, n, allow_http) == first_reference_fault(
            items,
            m,
            allow_http,
        ),
    decreases n,
{
    if m < n {
        lemma_reference_fault(items, m, (n - 1) as nat, allow_http);
    }
}

fn check_list(body: &Json, key: &str, urls: bool, allow_insecure_http: bool) -> (r: Result<
    (),
    String,
>)
    ensures
        fault_view(r) == list_fault(body@, key@, urls, allow_insecure_http),
{
    match body.get(key) {
        None => Ok(()),
        Some(value) => match value.as_array() {
            None => Err(text::join2(key, " 必须是字符串数组")),
            Some(items) => {
                if items.len() > 10 || any_blank(items) {
                    return Err(text::join2(key, " 最多 10 个非空字符串"));
                }
                if urls {
                    check_references(items, allow_insecure_http)
                } else {
                    Ok(())
                }
            },
        },
    }
}

proof fn lemma_native_fault(items: Seq<JsonView>, m: nat, n: nat, key: Seq<char>)
    requires
        m <= n,
        native_items_fault(items, m, key) is Some,
    ensures
        native_items_fault(items, n, key) == native_items_fault(items, m, key),
    decreases n,
{
    if m < n {
        lemma_native_fault(items, m, (n - 1) as nat, key);
    }
}

fn check_native_list(body: &Json, key: &str) -> (r: Result<(), String>)
    ensures
        fault_view(r) == native_list_fault(body@, key@),
{
    let items = match body.get(key) {
        None => {
            return Ok(());
        },
        Some(value) => match value.as_array() {
            None => {
                return Err(text::join2(key, " 必须是字符串数组"));
            },
            Some(items) => items,
        },
    };
    let ghost all = Seq::new(items@.len(), |i: int| items@[i]@);
    let mut i: usize = 0;
    while i < items.len()
        invariant
            i <= items.len(),
            all == Seq::new(items@.len(), |i: int| items@[i]@),
            body@.get(key@) == Some(JsonView::Array(all)),
            native_items_fault(all, i as nat, key@) is None,
        decreases items.len() - i,
    {
        assert(all[i as int] == items@[i as int]@);
        let fault = match &items[i] {
            Json::Text(s) => {
                if text::blank(s.as_str()) {
                    Some(text::join2(key, " 只能包含非空字符串"))
                } else if is_native_resource_uri(s.as_str()) {
                    None
                } else {
                    Some(
                        text::join2(
                            key,
                            " 不能直接传公网 URL；请先 POST /v1/assets，再使用 image_asset_ids/video_asset_ids",
                        ),
                    )
                }
            },
            _ => Some(text::join2(key, " 只能包含非空字符串")),
        };
        if let Some(fault) = fault {
            proof {
                lemma_native_fault(all, (i + 1) as nat, all.len(), key@);
            }
            return Err(fault);
        }
        i = i + 1;
    }
    Ok(())
}

/// Checks that every reference in a request names material that the native
/// upstream holds.
pub fn validate_native_reference_inputs(input: &Json) -> (r: Result<(), String>)
    ensures
        fault_view(r) == native_fault(input@),
{
    if let Json::Object(_) = input {
    } else {
        return Err("video request 必须是 JSON 对象".to_owned());
    }
    if let Err(fault) = check_native_list(input, "image_urls") {
        return Err(fault);
    }
    check_native_list(input, "video_urls")
}

fn check_request(body: &Json, allow: bool) -> (r: Result<(), String>)
    ensures
        fault_view(r) == request_fault(body@, allow),
{
    if let Err(fault) = check_shape(body) {
        return Err(fault);
    }
    if let Err(fault) = check_inline(body, "image_paths") {
        return Err(fault);
    }
    if let Err(fault) = check_inline(body, "video_paths") {
        return Err(fault);
    }
    if let Err(fault) = check_inline(body, "image_data") {
        return Err(fault);
    }
    if let Err(fault) = check_inline(body, "video_data") {
        return Err(fault);
    }
    if let Err(fault) = check_list(body, "image_urls", true, allow) {
        return Err(fault);
    }
    if let Err(fault) = check_list(body, "video_urls", true, allow) {
        return Err(fault);
    }
    if let Err(fault) = check_list(body, "image_asset_ids", false, allow) {
        return Err(fault);
    }
    if let Err(fault) = check_list(body, "video_asset_ids", false, allow) {
        return Err(fault);
    }
    validate_native_reference_inputs(body)
}

/// Checks a video request; its model and its prompt.
pub fn validate_request(body: &Json, allow_insecure_http: bool) -> (r: Result<
    (String, String),
    String,
>)
    ensures
        accepted_view(r) == accepted(body@, allow_insecure_http),
{
    if let Err(fault) = check_request(body, allow_insecure_http) {
        return Err(fault);
    }
    let model = match body.trimmed_at("model") {
        Some(model) => model.to_owned(),
        None => "seedance".to_owned(),
    };
    match body.trimmed_at("prompt") {
        Some(prompt) => Ok((model, prompt.to_owned())),
        None => Err("prompt 不能为空".to_owned()),
    }
}

/// A request is accepted only with references that the native upstream holds:
/// a public address in it is always a fault.
pub proof fn law_public_addresses_are_never_accepted(
    body: JsonView,
    allow_http: bool,
    items: Seq<JsonView>,
    i: int,
)
    requires
        body.get("image_urls"@) == Some(JsonView::Array(items)) || body.get("video_urls"@) == Some(
            JsonView::Array(items),
        ),
        0 <= i < items.len(),
        items[i] matches JsonView::Text(url) && !native_uri(url),
    ensures
        accepted(body, allow_http) is Err,
{
    lemma_native_item(items, i, "image_urls"@);
    lemma_native_item(items, i, "video_urls"@);
}

proof fn lemma_native_item(items: Seq<JsonView>, i: int, key: Seq<char>)
    requires
        0 <= i < items.len(),
        items[i] matches JsonView::Text(url) && !native_uri(url),
    ensures
        native_items_fault(items, items.len(), key) is Some,
{
    assert(native_items_fault(items, (i + 1) as nat, key) is Some);
    lemma_native_fault(items, (i + 1) as nat, items.len(), key);
}

/// Some element names no material that the native upstream holds.
pub open spec fn some_foreign(items: Seq<JsonView>) -> bool {
    exists|i: int|
        0 <= i < items.len() && !(#[trigger] items[i] matches JsonView::Text(s) && native_uri(s))
}

/// The request with the names of uploaded material behind its references of
/// one kind, and without the ids of that kind.
pub open spec fn with_uploads(
    body: JsonView,
    asset_key: Seq<char>,
    url_key: Seq<char>,
    label: Seq<char>,
    uris: Seq<Seq<char>>,
) -> Result<JsonView, Seq<char>> {
    let items = match body.get(url_key) {
        Some(JsonView::Array(items)) => items,
        _ => Seq::empty(),
    };
    let all = items + crate::json::texts_json(uris)->Array_0;
    if body.get(url_key) is Some && !(body.get(url_key)->0 is Array) {
        Err(url_key + " 必须是字符串数组"@)
    } else if some_foreign(items) {
        Err(label + "引用不能直接传公网 URL；请先 POST /v1/assets，再使用 "@ + asset_key)
    } else if all.len() > 10 {
        Err(url_key + " 最多 10 个非空字符串"@)
    } else {
        Ok(body.with(url_key, JsonView::Array(all)).without(asset_key))
    }
}

/// The request that the native upstream is sent, or why there is none.
pub open spec fn native_request(
    input: JsonView,
    image_uris: Seq<Seq<char>>,
    video_uris: Seq<Seq<char>>,
) -> Result<JsonView, Seq<char>> {
    if !(input is Object) {
        Err("video request 必须是 JSON 对象"@)
    } else {
        match with_uploads(input, "image_asset_ids"@, "image_urls"@, "图片"@, image_uris) {
            Err(fault) => Err(fault),
            Ok(body) => with_uploads(
                body,
                "video_asset_ids"@,
                "video_urls"@,
                "参考视频"@,
                video_uris,
            ),
        }
    }
}

/// The view of a request or a fault.
pub open spec fn request_view(r: Result<Json, String>) -> Result<JsonView, Seq<char>> {
    match r {
        Ok(body) => Ok(body@),
        Err(fault) => Err(fault@),
    }
}

fn any_foreign(items: &Vec<Json>) -> (r: bool)
    ensures
        r == some_foreign(Seq::new(items@.len(), |i: int| items@[i]@)),
{
    let ghost all = Seq::new(items@.len(), |i: int| items@[i]@);
    let mut i: usize = 0;
    while i < items.len()
        invariant
            i <= items.len(),
            all == Seq::new(items@.len(), |i: int| items@[i]@),
            forall|j: int|
                0 <= j < i ==> (#[trigger] all[j] matches JsonView::Text(s) && native_uri(s)),
        decreases items.len() - i,
    {
        assert(all[i as int] == items@[i as int]@);
        let native = match &items[i] {
            Json::Text(s) => is_native_resource_uri(s.as_str()),
            _ => false,
        };
        if !native {
            return true;
        }
        i = i + 1;
    }
    false
}

fn add_uploads(
    body: Json,
    asset_key: &str,
    url_key: &str,
    label: &str,
    uris: &Vec<String>,
) -> (r: Result<Json, String>)
    ensures
        request_view(r) == with_uploads(
            body@,
            asset_key@,
            url_key@,
            label@,
            text::views(uris@),
        ),
{
    let ghost added = crate::json::texts_json(text::views(uris@))->Array_0;
    let ghost given = match body@.get(url_key@) {
        Some(JsonView::Array(items)) => items,
        _ => Seq::empty(),
    };
    let mut all: Vec<Json> = Vec::new();
    match body.get(url_key) {
        None => {},
        Some(value) => match value.as_array() {
            None => {
                return Err(text::join2(url_key, " 必须是字符串数组"));
            },
            Some(items) => {
                if any_foreign(items) {
                    return Err(
                        text::join3(
                            label,
                            "引用不能直接传公网 URL；请先 POST /v1/assets，再使用 ",
                            asset_key,
                        ),
                    );
                }
                let mut i: usize = 0;
                while i < items.len()
                    invariant
                        i <= items.len(),
                        all.len() == i,
                        forall|j: int| 0 <= j < i ==> (#[trigger] all@[j])@ == items@[j]@,
                    decreases items.len() - i,
                {
                    all.push(items[i].dup());
                    i = i + 1;
                }
            },
        },
    }
    assert(Seq::new(all@.len(), |i: int| all@[i]@) =~= given);
    let n: usize = all.len();
    let mut k: usize = 0;
    while k < uris.len()
        invariant
            k <= uris.len(),
            n == given.len(),
            all.len() == n + k,
            forall|j: int| 0 <= j < n ==> (#[trigger] all@[j])@ == given[j],
            forall|j: int|
                n <= j < n + k ==> (#[trigger] all@[j])@ == JsonView::Text(uris@[j - n]@),
        decreases uris.len() - k,
    {
        all.push(Json::Text(uris[k].clone()));
        k = k + 1;
    }
    assert(Seq::new(all@.len(), |i: int| all@[i]@) =~= given + added);
    if all.len() > 10 {
        return Err(text::join2(url_key, " 最多 10 个非空字符串"));
    }
    Ok(body.with(url_key, Json::array(all)).without(asset_key))
}

/// Makes the request that the native upstream is sent: the names of uploaded
/// material take the place of the gateway's own ids.
pub fn build_native_request_with_uris(
    input: &Json,
    image_uris: &Vec<String>,
    video_uris: &Vec<String>,
) -> (r: Result<Json, String>)
    ensures
        request_view(r) == native_request(
            input@,
            text::views(image_uris@),
            text::views(video_uris@),
        ),
{
    if let Json::Object(_) = input {
    } else {
        return Err("video request 必须是 JSON 对象".to_owned());
    }
    match add_uploads(input.dup(), "image_asset_ids", "image_urls", "图片", image_uris) {
        Err(fault) => Err(fault),
        Ok(body) => add_uploads(body, "video_asset_ids", "video_urls", "参考视频", video_uris),
    }
}

/// What is to be done for a request before the native upstream is sent it.
#[derive(Debug, PartialEq, Eq)]
pub enum PrepareStep {
    /// Upload the image of that id.
    UploadImage(String),
    /// Upload the video of that id.
    UploadVideo(String),
    /// Send this request.
    Ready(Json),
    /// The request cannot be sent.
    Failed(NativeUploadError),
}

/// The model of a [`PrepareStep`].
pub enum PrepareView {
    UploadImage(Seq<char>),
    UploadVideo(Seq<char>),
    Ready(JsonView),
    Failed(UploadErrorView),
}

impl View for PrepareStep {
    type V = PrepareView;

    open spec fn view(&self) -> PrepareView {
        match self {
            PrepareStep::UploadImage(id) => PrepareView::UploadImage(id@),
            PrepareStep::UploadVideo(id) => PrepareView::UploadVideo(id@),
            PrepareStep::Ready(body) => PrepareView::Ready(body@),
            PrepareStep::Failed(error) => PrepareView::Failed(error@),
        }
    }
}

/// The request cannot be sent, by any account.
pub open spec fn prepare_failed(message: Seq<char>) -> PrepareView {
    PrepareView::Failed(UploadErrorView { message, retryable_account: false })
}

/// The id that is to be uploaded when `done` of that kind are; nothing where
/// none is left.
pub open spec fn next_asset(input: JsonView, key: Seq<char>, done: nat) -> Result<
    Option<Seq<char>>,
    Seq<char>,
> {
    match input.get(key) {
        None => Ok(None),
        Some(JsonView::Array(ids)) => if done >= ids.len() {
            Ok(None)
        } else if solid_text(ids[done as int]) {
            Ok(Some(text::trim(ids[done as int]->Text_0)))
        } else {
            Err(key + " 只能包含非空字符串"@)
        },
        Some(_) => Err(key + " 必须是字符串数组"@),
    }
}

/// The next step for a request of which some material is uploaded.
pub open spec fn prepare_spec(
    input: JsonView,
    image_uris: Seq<Seq<char>>,
    video_uris: Seq<Seq<char>>,
) -> PrepareView {
    match native_fault(input) {
        Some(fault) => prepare_failed(fault),
        None => match next_asset(input, "image_asset_ids"@, image_uris.len()) {
            Err(fault) => prepare_failed(fault),
            Ok(Some(id)) => PrepareView::UploadImage(id),
            Ok(None) => match next_asset(input, "video_asset_ids"@, video_uris.len()) {
                Err(fault) => prepare_failed(fault),
                Ok(Some(id)) => PrepareView::UploadVideo(id),
                Ok(None) => match native_request(input, image_uris, video_uris) {
                    Err(fault) => prepare_failed(fault),
                    Ok(body) => PrepareView::Ready(body),
                },
            },
        },
    }
}

fn cannot_prepare(message: String) -> (r: PrepareStep)
    ensures
        r@ == prepare_failed(message@),
{
    PrepareStep::Failed(NativeUploadError::new(message, false))
}

fn next_asset_id(input: &Json, key: &str, done: usize) -> (r: Result<Option<String>, String>)
    ensures
        (match r {
            Ok(id) => Ok(text::opt_view(id)),
            Err(fault) => Err(fault@),
        }) == next_asset(input@, key@, done as nat),
{
    match input.get(key) {
        None => Ok(None),
        Some(value) => match value.as_array() {
            None => Err(text::join2(key, " 必须是字符串数组")),
            Some(ids) => {
                if done >= ids.len() {
                    return Ok(None);
                }
                if let Json::Text(id) = &ids[done] {
                    if !text::blank(id.as_str()) {
                        return Ok(Some(text::trimmed(id.as_str()).to_owned()));
                    }
                }
                Err(text::join2(key, " 只能包含非空字符串"))
            },
        },
    }
}

/// The next step for a request of which the material with these names is
/// uploaded: every piece of it in turn, then the request itself.
pub fn prepare_native_request(
    input: &Json,
    image_uris: &Vec<String>,
    video_uris: &Vec<String>,
) -> (r: PrepareStep)
    ensures
        r@ == prepare_spec(input@, text::views(image_uris@), text::views(video_uris@)),
{
    if let Err(fault) = validate_native_reference_inputs(input) {
        return cannot_prepare(fault);
    }
    match next_asset_id(input, "image_asset_ids", image_uris.len()) {
        Err(fault) => {
            return cannot_prepare(fault);
        },
        Ok(Some(id)) => {
            return PrepareStep::UploadImage(id);
        },
        Ok(None) => {},
    }
    match next_asset_id(input, "video_asset_ids", video_uris.len()) {
        Err(fault) => {
            return cannot_prepare(fault);
        },
        Ok(Some(id)) => {
            return PrepareStep::UploadVideo(id);
        },
        Ok(None) => {},
    }
    match build_native_request_with_uris(input, image_uris, video_uris) {
        Err(fault) => cannot_prepare(fault),
        Ok(body) => PrepareStep::Ready(body),
    }
}

/// The error for material that could not be read.
pub fn asset_read_error(label: &str, id: &str, error: &str) -> (r: NativeUploadError)
    ensures
        r@ == (UploadErrorView {
            message: label@ + "素材 "@ + id@ + " 无法读取："@ + error@,
            retryable_account: false,
        }),
{
    let mut message = text::join3(label, "素材 ", id);
    message.push_str(" 无法读取：");
    message.push_str(error);
    NativeUploadError::new(message, false)
}

/// The error for material that could not be uploaded; another account may
/// succeed where the upload error says so.
pub fn asset_upload_error(label: &str, id: &str, error: NativeUploadError) -> (r: NativeUploadError)
    ensures
        r@ == (UploadErrorView {
            message: label@ + "素材 "@ + id@ + " 原生上传失败："@ + error@.message,
            retryable_account: error@.retryable_account,
        }),
{
    let mut message = text::join3(label, "素材 ", id);
    message.push_str(" 原生上传失败：");
    message.push_str(error.message.as_str());
    NativeUploadError::new(message, error.retryable_account)
}

/// A new id with that prefix.
pub fn now_id(prefix: &str) -> (r: String)
    ensures
        r@.len() == prefix@.len() + 25,
        text::starts_with(r@, prefix@ + "-"@),
        text::all_hex(r@.subrange(prefix@.len() as int + 1, r@.len() as int)),
{
    proof {
        reveal_strlit("-");
    }
    let token = text::random_hex(24);
    let r = text::join3(prefix, "-", token.as_str());
    assert(r@.subrange(0, prefix@.len() as int + 1) =~= prefix@ + "-"@);
    r
}

/// The request body that the native upstream is sent: what the request leaves
/// open has a default, and none of the gateway's own ids is in it.
pub open spec fn native_body(input: JsonView, session_id: Seq<char>) -> JsonView {
    let none = JsonView::Array(Seq::empty());
    let listed = input.with_default("image_urls"@, none).with_default("video_urls"@, none);
    let shaped = listed.with_default("resolution"@, JsonView::Text("480p"@)).with_default(
        "ratio"@,
        JsonView::Text("16:9"@),
    ).with_default("duration"@, JsonView::Number(crate::json::number(4)));
    let moded = shaped.with_default(
        "mode_type"@,
        JsonView::Number(crate::json::number(1)),
    ).with_default("request_type"@, JsonView::Text("solo_work_lite"@)).with_default(
        "chat_mode"@,
        JsonView::Number(crate::json::number(0)),
    );
    let bound = moded.with_default("session_id"@, JsonView::Text(session_id)).with_default(
        "access_type"@,
        JsonView::Number(crate::json::number(1)),
    ).with_default("watermark"@, JsonView::Bool(false));
    bound.without("image_asset_ids"@).without("video_asset_ids"@)
}

/// Makes the request body that the native upstream is sent.
pub fn build_request_body(input: &Json, session_id: &str) -> (r: Json)
    requires
        input@ is Object,
    ensures
        r@ == native_body(input@, session_id@),
{
    let no_images: Vec<Json> = Vec::new();
    let no_videos: Vec<Json> = Vec::new();
    let images = Json::array(no_images);
    let videos = Json::array(no_videos);
    assert(images@->Array_0 =~= Seq::empty());
    assert(videos@->Array_0 =~= Seq::empty());
    let body = input.dup().with_default("image_urls", images).with_default("video_urls", videos);
    let body = body.with_default("resolution", Json::text("480p")).with_default(
        "ratio",
        Json::text("16:9"),
    ).with_default("duration", Json::unsigned(4));
    let body = body.with_default("mode_type", Json::unsigned(1)).with_default(
        "request_type",
        Json::text("solo_work_lite"),
    ).with_default("chat_mode", Json::unsigned(0));
    let body = body.with_default("session_id", Json::text(session_id)).with_default(
        "access_type",
        Json::unsigned(1),
    ).with_default("watermark", Json::Bool(false));
    body.without("image_asset_ids").without("video_asset_ids")
}

/// No member of the object has the name of another.
pub open spec fn plain_object(body: JsonView) -> bool {
    body is Object && table::unique(body->Object_0)
}

proof fn lemma_with_default_plain(body: JsonView, key: Seq<char>, value: JsonView)
    requires
        plain_object(body),
    ensures
        plain_object(body.with_default(key, value)),
{
    table::lemma_put_unique(body->Object_0, key, value);
}

/// The native upstream never learns the gateway's own ids.
pub proof fn law_native_body_holds_no_asset_ids(input: JsonView, session_id: Seq<char>)
    requires
        plain_object(input),
    ensures
        native_body(input, session_id).get("image_asset_ids"@) is None,
        native_body(input, session_id).get("video_asset_ids"@) is None,
{
    let none = JsonView::Array(Seq::empty());
    let b1 = input.with_default("image_urls"@, none);
    lemma_with_default_plain(input, "image_urls"@, none);
    let b2 = b1.with_default("video_urls"@, none);
    lemma_with_default_plain(b1, "video_urls"@, none);
    let v3 = JsonView::Text("480p"@);
    let b3 = b2.with_default("resolution"@, v3);
    lemma_with_default_plain(b2, "resolution"@, v3);
    let v4 = JsonView::Text("16:9"@);
    let b4 = b3.with_default("ratio"@, v4);
    lemma_with_default_plain(b3, "ratio"@, v4);
    let v5 = JsonView::Number(crate::json::number(4));
    let b5 = b4.with_default("duration"@, v5);
    lemma_with_default_plain(b4, "duration"@, v5);
    let v6 = JsonView::Number(crate::json::number(1));
    let b6 = b5.with_default("mode_type"@, v6);
    lemma_with_default_plain(b5, "mode_type"@, v6);
    let v7 = JsonView::Text("solo_work_lite"@);
    let b7 = b6.with_default("request_type"@, v7);
    lemma_with_default_plain(b6, "request_type"@, v7);
    let v8 = JsonView::Number(crate::json::number(0));
    let b8 = b7.with_default("chat_mode"@, v8);
    lemma_with_default_plain(b7, "chat_mode"@, v8);
    let v9 = JsonView::Text(session_id);
    let b9 = b8.with_default("session_id"@, v9);
    lemma_with_default_plain(b8, "session_id"@, v9);
    let b10 = b9.with_default("access_type"@, v6);
    lemma_with_default_plain(b9, "access_type"@, v6);
    let b11 = b10.with_default("watermark"@, JsonView::Bool(false));
    lemma_with_default_plain(b10, "watermark"@, JsonView::Bool(false));
    reveal_strlit("image_asset_ids");
    reveal_strlit("video_asset_ids");
    assert("image_asset_ids"@ != "video_asset_ids"@) by {
        assert("image_asset_ids"@[0] != "video_asset_ids"@[0]);
    }
    table::lemma_find_without(b11->Object_0, "image_asset_ids"@);
    let c = b11.without("image_asset_ids"@);
    table::lemma_find_without(c->Object_0, "video_asset_ids"@);
}

/// A request that the native upstream is sent names at most ten images and ten
/// videos.
pub proof fn law_native_request_is_bounded(
    body: JsonView,
    asset_key: Seq<char>,
    url_key: Seq<char>,
    label: Seq<char>,
    uris: Seq<Seq<char>>,
)
    requires
        plain_object(body),
        asset_key != url_key,
        with_uploads(body, asset_key, url_key, label, uris) is Ok,
    ensures
        ({
            let after = with_uploads(body, asset_key, url_key, label, uris)->Ok_0;
            &&& after.get(url_key) matches Some(JsonView::Array(items)) && items.len() <= 10
            &&& after.get(asset_key) is None
            &&& plain_object(after)
        }),
{
    let items = match body.get(url_key) {
        Some(JsonView::Array(items)) => items,
        _ => Seq::empty(),
    };
    let all = JsonView::Array(items + crate::json::texts_json(uris)->Array_0);
    let members = body->Object_0;
    table::lemma_find_put(members, url_key, all);
    table::lemma_put_unique(members, url_key, all);
    table::lemma_find_without(table::put(members, url_key, all), asset_key);
}

} // verus!
