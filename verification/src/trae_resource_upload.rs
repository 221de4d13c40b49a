//! Reference material on its way to the native upstream: the checksums and the
//! envelope it travels in, the requests that carry it, and the replies.

use crate::assets::{AssetRecord, AssetView};
use crate::json::{Json, JsonView};
use crate::table::{self, Table};
use crate::text;
use vstd::prelude::*;

verus! {

/// The business type of a remote attachment.
pub const RESOURCE_BIZ_TYPE: &'static str = "remote_resource";

/// The business type of an image.
pub const IMAGE_BIZ_TYPE: &'static str = "image";

/// Why material could not be handed over, and whether another account may
/// succeed.
#[derive(Debug, PartialEq, Eq)]
pub struct NativeUploadError {
    pub message: String,
    pub retryable_account: bool,
}

/// The model of a [`NativeUploadError`].
pub struct UploadErrorView {
    pub message: Seq<char>,
    pub retryable_account: bool,
}

impl View for NativeUploadError {
    type V = UploadErrorView;

    open spec fn view(&self) -> UploadErrorView {
        UploadErrorView { message: self.message@, retryable_account: self.retryable_account }
    }
}

impl NativeUploadError {
    /// An error.
    pub fn new(message: String, retryable_account: bool) -> (r: NativeUploadError)
        ensures
            r@ == (UploadErrorView { message: message@, retryable_account }),
    {
        NativeUploadError { message, retryable_account }
    }
}

/// An error that another account would meet too.
pub open spec fn lasting(message: Seq<char>) -> UploadErrorView {
    UploadErrorView { message, retryable_account: false }
}

fn lasting_error(message: &str) -> (r: NativeUploadError)
    ensures
        r@ == lasting(message@),
{
    NativeUploadError::new(message.to_owned(), false)
}

/// Where material is to be sent.
#[derive(Debug)]
pub struct UploadPlan {
    pub upload_host: String,
    pub auth: String,
    pub store_uri: String,
    pub resource_id: Option<String>,
    pub session_key: Option<String>,
    pub upload_headers: Table<String>,
}

/// The model of an [`UploadPlan`].
pub struct PlanView {
    pub upload_host: Seq<char>,
    pub auth: Seq<char>,
    pub store_uri: Seq<char>,
    pub resource_id: Option<Seq<char>>,
    pub session_key: Option<Seq<char>>,
    pub upload_headers: Seq<(Seq<char>, Seq<char>)>,
}

impl View for UploadPlan {
    type V = PlanView;

    open spec fn view(&self) -> PlanView {
        PlanView {
            upload_host: self.upload_host@,
            auth: self.auth@,
            store_uri: self.store_uri@,
            resource_id: text::opt_view(self.resource_id),
            session_key: text::opt_view(self.session_key),
            upload_headers: self.upload_headers@,
        }
    }
}

/// One bit of the reflected CRC-32 division.
pub open spec fn crc_bit(crc: u32) -> u32 {
    if crc % 2 == 1 {
        (crc >> 1) ^ 0xedb8_8320u32
    } else {
        crc >> 1
    }
}

/// `n` bits of the reflected CRC-32 division.
pub open spec fn crc_bits(crc: u32, n: nat) -> u32
    decreases n,
{
    if n == 0 {
        crc
    } else {
        crc_bit(crc_bits(crc, (n - 1) as nat))
    }
}

/// The CRC-32 register after the bytes.
pub open spec fn crc_register(bytes: Seq<u8>) -> u32
    decreases bytes.len(),
{
    if bytes.len() == 0 {
        0xffff_ffffu32
    } else {
        crc_bits(crc_register(bytes.drop_last()) ^ (bytes.last() as u32), 8)
    }
}

/// The CRC-32 checksum of the bytes.
pub open spec fn crc32(bytes: Seq<u8>) -> u32 {
    !crc_register(bytes)
}

/// The CRC-32 checksum of the bytes.
pub fn crc32_value(bytes: &[u8]) -> (r: u32)
    ensures
        r == crc32(bytes@),
{
    let mut crc: u32 = 0xffff_ffffu32;
    let mut i: usize = 0;
    assert(bytes@.subrange(0, 0) =~= Seq::<u8>::empty());
    while i < bytes.len()
        invariant
            i <= bytes.len(),
            crc == crc_register(bytes@.subrange(0, i as int)),
        decreases bytes.len() - i,
    {
        let ghost start = crc ^ (bytes@[i as int] as u32);
        crc = crc ^ (bytes[i] as u32);
        let mut k: u32 = 0;
        while k < 8
            invariant
                k <= 8,
                crc == crc_bits(start, k as nat),
            decreases 8 - k,
        {
            crc = if crc % 2 == 1 {
                (crc >> 1) ^ 0xedb8_8320u32
            } else {
                crc >> 1
            };
            k = k + 1;
        }
        i = i + 1;
        assert(bytes@.subrange(0, i as int).drop_last() =~= bytes@.subrange(0, i - 1));
    }
    assert(bytes@.subrange(0, i as int) =~= bytes@);
    !crc
}

/// The checksum as the attachment uploader writes it, without padding.
pub fn crc32_hex(bytes: &[u8]) -> (r: String)
    ensures
        r@ == text::hex_number(crc32(bytes@) as nat),
{
    text::hex_number_text(crc32_value(bytes) as u64)
}

/// Zeros in front of `digits`, up to eight digits.
pub open spec fn padded(digits: Seq<char>) -> Seq<char>
    decreases 8 - digits.len(),
{
    if digits.len() >= 8 {
        digits
    } else {
        padded(seq!['0'] + digits)
    }
}

/// The checksum as the image uploader writes it, in eight digits.
pub fn crc32_padded_hex(bytes: &[u8]) -> (r: String)
    ensures
        r@ == padded(text::hex_number(crc32(bytes@) as nat)),
{
    let mut digits = crc32_hex(bytes);
    let ghost plain = digits@;
    while digits.as_str().unicode_len() < 8
        invariant
            padded(digits@) == padded(plain),
        decreases 8 - digits@.len(),
    {
        proof {
            reveal_strlit("0");
            assert("0"@ =~= seq!['0']);
        }
        digits = text::join2("0", digits.as_str());
    }
    digits
}

/// The request for a place to send an attachment to.
pub open spec fn upload_payload(target: Seq<char>) -> JsonView {
    JsonView::object().member("targets"@, JsonView::Array(seq![JsonView::Text(target)])).member(
        "biz_type"@,
        JsonView::Text("remote_resource"@),
    )
}

/// A list of one string.
fn one_text(s: &str) -> (r: Json)
    ensures
        r@ == JsonView::Array(seq![JsonView::Text(s@)]),
{
    let mut items: Vec<Json> = Vec::new();
    items.push(Json::text(s));
    let r = Json::array(items);
    assert(r@->Array_0 =~= seq![JsonView::Text(s@)]);
    r
}

/// The request for a place to send an attachment to.
pub fn build_upload_payload(target: &str) -> (r: Json)
    ensures
        r@ == upload_payload(target@),
{
    Json::object().member("targets", one_text(target)).member(
        "biz_type",
        Json::text(RESOURCE_BIZ_TYPE),
    )
}

/// The request for a place to send an image to.
pub open spec fn image_upload_payload(target: Seq<char>, width: u32, height: u32) -> JsonView {
    JsonView::object().member("targets"@, JsonView::Array(seq![JsonView::Text(target)])).member(
        "biz_type"@,
        JsonView::Text("image"@),
    ).member(
        "scale_param"@,
        JsonView::object().member(
            "width"@,
            JsonView::Number(crate::json::number(width as u64)),
        ).member("height"@, JsonView::Number(crate::json::number(height as u64))),
    )
}

/// The request for a place to send an image to.
pub fn build_image_upload_payload(target: &str, width: u32, height: u32) -> (r: Json)
    ensures
        r@ == image_upload_payload(target@, width, height),
{
    let scale = Json::object().member("width", Json::unsigned(width as u64)).member(
        "height",
        Json::unsigned(height as u64),
    );
    Json::object().member("targets", one_text(target)).member(
        "biz_type",
        Json::text(IMAGE_BIZ_TYPE),
    ).member("scale_param", scale)
}

/// The HTTP method by which material is sent.
pub fn native_upload_method() -> (r: &'static str)
    ensures
        r@ == "PUT"@,
{
    "PUT"
}

/// The headers under which material is sent.
pub open spec fn upload_headers(
    given: Seq<(Seq<char>, Seq<char>)>,
    auth: Seq<char>,
    checksum: Seq<char>,
    content_type: Seq<char>,
) -> Seq<(Seq<char>, Seq<char>)> {
    table::put(
        table::put(
            table::put(given, "Authorization"@, auth),
            "Content-CRC32"@,
            checksum,
        ),
        "Content-Type"@,
        content_type,
    )
}

fn copied_headers(headers: &Table<String>) -> (r: Table<String>)
    ensures
        r@ == headers@,
{
    let mut r: Table<String> = Table::new();
    let mut i: usize = 0;
    let n: usize = headers.len();
    while i < n
        invariant
            i <= n,
            n == headers@.len(),
            r@ == headers@.subrange(0, i as int),
            table::unique(headers@),
        decreases headers@.len() - i,
    {
        let ghost before = r@;
        proof {
            assert forall|j: int| 0 <= j < i implies (#[trigger] before[j]).0 != headers@[i as int].0 by {
                assert(headers@[j].0 != headers@[i as int].0);
            }
            table::lemma_position(before, headers@[i as int].0, i as int);
        }
        r.insert(headers.key_at(i), headers.value_at(i).clone());
        i = i + 1;
        assert(r@ =~= headers@.subrange(0, i as int));
    }
    assert(headers@.subrange(0, i as int) =~= headers@);
    r
}

/// The headers under which an attachment is sent.
pub fn build_upload_headers(auth: &str, checksum: &str, given: &Table<String>) -> (r: Table<
    String,
>)
    ensures
        r@ == upload_headers(given@, auth@, checksum@, "application/octet-stream"@),
{
    let mut headers = copied_headers(given);
    headers.insert("Authorization", auth.to_owned());
    headers.insert("Content-CRC32", checksum.to_owned());
    headers.insert("Content-Type", "application/octet-stream".to_owned());
    headers
}

/// The content type of an image, where one is declared.
pub open spec fn image_content_type(declared: Seq<char>) -> Seq<char> {
    if text::trim(declared).len() == 0 {
        "application/octet-stream"@
    } else {
        text::trim(declared)
    }
}

/// The headers under which an image is sent.
pub fn build_image_upload_headers(
    auth: &str,
    checksum: &str,
    content_type: &str,
    given: &Table<String>,
) -> (r: Table<String>)
    ensures
        r@ == upload_headers(given@, auth@, checksum@, image_content_type(content_type@)),
{
    let mut headers = copied_headers(given);
    headers.insert("Authorization", auth.to_owned());
    headers.insert("Content-CRC32", checksum.to_owned());
    let declared = text::trimmed(content_type);
    let content_type = if declared.is_empty() {
        "application/octet-stream"
    } else {
        declared
    };
    headers.insert("Content-Type", content_type.to_owned());
    headers
}

/// The eight bytes in front of an attachment.
pub open spec fn magic_header() -> Seq<u8> {
    seq![0u8, 0u8, 0u8, 0u8, 27u8, 198u8, 174u8, 134u8]
}

/// The bytes that an attachment is combined with, over and over.
pub open spec fn magic_key() -> Seq<u8> {
    seq![
        234u8, 159u8, 186u8, 198u8, 149u8, 201u8, 133u8, 234u8, 157u8, 137u8, 32u8, 225u8, 181u8,
        187u8, 194u8, 167u8, 32u8, 234u8, 157u8, 137u8, 198u8, 149u8, 226u8, 130u8, 172u8, 32u8,
        195u8, 159u8, 226u8, 130u8, 172u8, 194u8, 167u8, 234u8, 157u8, 137u8, 33u8,
    ]
}

fn magic_key_bytes() -> (r: Vec<u8>)
    ensures
        r@ == magic_key(),
{
    let r: Vec<u8> = vec![
        234u8, 159u8, 186u8, 198u8, 149u8, 201u8, 133u8, 234u8, 157u8, 137u8, 32u8, 225u8, 181u8,
        187u8, 194u8, 167u8, 32u8, 234u8, 157u8, 137u8, 198u8, 149u8, 226u8, 130u8, 172u8, 32u8,
        195u8, 159u8, 226u8, 130u8, 172u8, 194u8, 167u8, 234u8, 157u8, 137u8, 33u8,
    ];
    assert(r@ =~= magic_key());
    r
}

/// An attachment in its envelope.
pub open spec fn enveloped(bytes: Seq<u8>) -> Seq<u8> {
    magic_header() + Seq::new(bytes.len(), |i: int| bytes[i] ^ magic_key()[i % 37])
}

/// Puts an attachment in its envelope.
pub fn encode_remote_attachment(bytes: &[u8]) -> (r: Vec<u8>)
    ensures
        r@ == enveloped(bytes@),
{
    let key = magic_key_bytes();
    let mut r: Vec<u8> = vec![0u8, 0u8, 0u8, 0u8, 27u8, 198u8, 174u8, 134u8];
    assert(r@ =~= magic_header());
    let mut i: usize = 0;
    while i < bytes.len()
        invariant
            i <= bytes.len(),
            key@ == magic_key(),
            r@ == magic_header() + Seq::new(
                i as nat,
                |j: int| bytes@[j] ^ magic_key()[j % 37],
            ),
        decreases bytes.len() - i,
    {
        r.push(bytes[i] ^ key[i % 37]);
        i = i + 1;
        assert(r@ =~= magic_header() + Seq::new(
            i as nat,
            |j: int| bytes@[j] ^ magic_key()[j % 37],
        ));
    }
    r
}

/// The envelope loses nothing: what was put in it can be told from it.
pub proof fn law_envelope_loses_nothing(a: Seq<u8>, b: Seq<u8>)
    requires
        enveloped(a) == enveloped(b),
    ensures
        a == b,
{
    assert(enveloped(a).len() == 8 + a.len());
    assert(enveloped(b).len() == 8 + b.len());
    assert forall|i: int| 0 <= i < a.len() implies a[i] == b[i] by {
        assert(enveloped(a)[8 + i] == a[i] ^ magic_key()[i % 37]);
        assert(enveloped(b)[8 + i] == b[i] ^ magic_key()[i % 37]);
        let x = a[i];
        let y = b[i];
        let k = magic_key()[i % 37];
        assert(x ^ k == y ^ k ==> x == y) by (bit_vector);
    }
    assert(a =~= b);
}

/// The name under which an attachment is sent.
pub fn target_path(token: &str) -> (r: String)
    ensures
        r@ == token@ + ".trae"@,
{
    text::join2(token, ".trae")
}

/// A new name under which an attachment is sent.
pub fn native_target_path() -> (r: String)
    ensures
        r@.len() == 37,
        text::ends_with(r@, ".trae"@),
        forall|i: int| 0 <= i < 32 ==> text::is_hex_char(#[trigger] r@[i]),
{
    let token = text::random_hex(32);
    proof {
        reveal_strlit(".trae");
    }
    let r = target_path(token.as_str());
    assert(r@.subrange(32, 37) =~= ".trae"@);
    r
}

/// The name under which an image of that size is sent.
pub open spec fn image_target(token: Seq<char>, width: u32, height: u32) -> Seq<char> {
    token + "_"@ + text::decimal(width as nat) + "x"@ + text::decimal(height as nat) + ".trae"@
}

/// The name under which an image of that size is sent.
pub fn image_target_for(token: &str, width: u32, height: u32) -> (r: String)
    ensures
        r@ == image_target(token@, width, height),
{
    let mut r = text::join3(token, "_", text::decimal_text(width as u64).as_str());
    r.push_str("x");
    r.push_str(text::decimal_text(height as u64).as_str());
    r.push_str(".trae");
    r
}

/// A new name under which an image of that size is sent.
pub fn image_target_path(width: u32, height: u32) -> (r: String)
    ensures
        exists|token: Seq<char>|
            token.len() == 32 && text::all_hex(token) && #[trigger] image_target(
                token,
                width,
                height,
            ) == r@,
{
    let token = text::random_hex(32);
    image_target_for(token.as_str(), width, height)
}

/// The request that ends an upload.
pub open spec fn commit_payload(
    store_uri: Seq<char>,
    session_key: Option<Seq<char>>,
    biz_type: Seq<char>,
) -> JsonView {
    let plain = JsonView::object().member(
        "oids"@,
        JsonView::Array(seq![JsonView::Text(store_uri)]),
    ).member("biz_type"@, JsonView::Text(biz_type));
    match session_key {
        Some(key) => if text::trim(key).len() > 0 {
            plain.member("session_key"@, JsonView::Text(key))
        } else {
            plain
        },
        None => plain,
    }
}

/// The request that ends the upload of an attachment.
pub fn build_commit_payload(store_uri: &str, session_key: Option<&str>) -> (r: Json)
    ensures
        r@ == commit_payload(
            store_uri@,
            match session_key {
                Some(key) => Some(key@),
                None => None,
            },
            "remote_resource"@,
        ),
{
    build_commit_payload_for(store_uri, session_key, RESOURCE_BIZ_TYPE)
}

/// The request that ends an upload.
pub fn build_commit_payload_for(store_uri: &str, session_key: Option<&str>, biz_type: &str) -> (r:
    Json)
    ensures
        r@ == commit_payload(
            store_uri@,
            match session_key {
                Some(key) => Some(key@),
                None => None,
            },
            biz_type@,
        ),
{
    let payload = Json::object().member("oids", one_text(store_uri)).member(
        "biz_type",
        Json::text(biz_type),
    );
    match session_key {
        Some(key) => {
            if text::blank(key) {
                payload
            } else {
                payload.member("session_key", Json::text(key))
            }
        },
        None => payload,
    }
}

/// The members that are strings, as a table.
pub open spec fn string_members(members: Seq<(Seq<char>, JsonView)>, n: nat) -> Seq<
    (Seq<char>, Seq<char>),
>
    decreases n,
{
    if n == 0 {
        Seq::empty()
    } else {
        let before = string_members(members, (n - 1) as nat);
        match members[n - 1].1.as_text() {
            Some(value) => table::put(before, members[n - 1].0, value),
            None => before,
        }
    }
}

/// The members that are strings, where the document is an object.
pub open spec fn header_table(headers: Option<JsonView>) -> Seq<(Seq<char>, Seq<char>)> {
    match headers {
        Some(JsonView::Object(members)) => string_members(members, members.len()),
        _ => Seq::empty(),
    }
}

fn read_header_table(headers: Option<&Json>) -> (r: Table<String>)
    ensures
        r@ == header_table(
            match headers {
                Some(value) => Some(value@),
                None => None,
            },
        ),
{
    let mut r: Table<String> = Table::new();
    if let Some(Json::Object(members)) = headers {
        let ghost all = headers->0@->Object_0;
        let mut i: usize = 0;
        while i < members.len()
            invariant
                i <= members.len(),
                headers == Some(&Json::Object(*members)),
                all == headers->0@->Object_0,
                r@ == string_members(all, i as nat),
            decreases members.len() - i,
        {
            assert(all[i as int] == (members@[i as int].0@, members@[i as int].1@));
            if let Some(value) = members[i].1.as_str() {
                r.insert(members[i].0.as_str(), value.to_owned());
            }
            i = i + 1;
        }
    }
    r
}

/// The first of six documents that is there.
pub open spec fn first_present(
    a: Option<JsonView>,
    b: Option<JsonView>,
    c: Option<JsonView>,
    d: Option<JsonView>,
    e: Option<JsonView>,
    f: Option<JsonView>,
) -> Option<JsonView> {
    if a is Some {
        a
    } else if b is Some {
        b
    } else if c is Some {
        c
    } else if d is Some {
        d
    } else if e is Some {
        e
    } else {
        f
    }
}

/// The headers that a plan asks for.
pub open spec fn plan_headers(store: JsonView, data: JsonView) -> Option<JsonView> {
    first_present(
        store.get("uploadHeader"@),
        store.get("upload_header"@),
        store.get("UploadHeader"@),
        data.get("uploadHeader"@),
        data.get("upload_header"@),
        data.get("UploadHeader"@),
    )
}

/// The document under `data`, or the whole.
pub open spec fn plan_data(value: JsonView) -> JsonView {
    match value.get("data"@) {
        Some(data) => data,
        None => value,
    }
}

/// The host that a plan names.
pub open spec fn plan_host(data: JsonView) -> Option<Seq<char>> {
    match data.first_at("upload_hosts"@) {
        Some(JsonView::Text(host)) => if text::trim(host).len() == 0 {
            None
        } else {
            Some(text::trim_end_char(text::trim(host), '/'))
        },
        _ => None,
    }
}

/// The resource that a plan names.
pub open spec fn plan_store_uri(store: JsonView) -> Option<Seq<char>> {
    match store.trimmed_at("store_uri"@) {
        Some(uri) => if text::has_space(uri) {
            None
        } else {
            Some(uri)
        },
        None => None,
    }
}

/// The plan in a reply, or why there is none.
pub open spec fn plan_of(value: JsonView) -> Result<PlanView, UploadErrorView> {
    let data = plan_data(value);
    if plan_host(data) is None {
        Err(lasting("Trae 未返回素材上传地址"@))
    } else if data.first_at("store_infos"@) is None {
        Err(lasting("Trae 未返回素材存储信息"@))
    } else {
        let store = data.first_at("store_infos"@)->0;
        if store.trimmed_at("auth"@) is None {
            Err(lasting("Trae 未返回素材上传授权"@))
        } else if plan_store_uri(store) is None {
            Err(lasting("Trae 未返回素材 URI"@))
        } else {
            Ok(
                PlanView {
                    upload_host: plan_host(data)->0,
                    auth: store.trimmed_at("auth"@)->0,
                    store_uri: plan_store_uri(store)->0,
                    resource_id: store.trimmed_at("override_resource_id"@),
                    session_key: data.trimmed_at("session_key"@),
                    upload_headers: header_table(plan_headers(store, data)),
                },
            )
        }
    }
}

/// The view of a plan or an error.
pub open spec fn plan_result_view(r: Result<UploadPlan, NativeUploadError>) -> Result<
    PlanView,
    UploadErrorView,
> {
    match r {
        Ok(plan) => Ok(plan@),
        Err(error) => Err(error@),
    }
}

fn opt_owned(s: Option<&str>) -> (r: Option<String>)
    ensures
        text::opt_view(r) == (match s {
            Some(v) => Some(v@),
            None => None,
        }),
{
    match s {
        Some(v) => Some(v.to_owned()),
        None => None,
    }
}

/// Reads the plan in a reply.
pub fn parse_upload_url_response(value: &Json) -> (r: Result<UploadPlan, NativeUploadError>)
    ensures
        plan_result_view(r) == plan_of(value@),
{
    let data = match value.get("data") {
        Some(data) => data,
        None => value,
    };
    let upload_host = match data.first_at("upload_hosts") {
        Some(Json::Text(host)) => {
            let host = text::trimmed(host.as_str());
            if host.is_empty() {
                return Err(lasting_error("Trae 未返回素材上传地址"));
            }
            text::trimmed_end_char(host, '/').to_owned()
        },
        _ => {
            return Err(lasting_error("Trae 未返回素材上传地址"));
        },
    };
    let store = match data.first_at("store_infos") {
        Some(store) => store,
        None => {
            return Err(lasting_error("Trae 未返回素材存储信息"));
        },
    };
    let auth = match store.trimmed_at("auth") {
        Some(auth) => auth.to_owned(),
        None => {
            return Err(lasting_error("Trae 未返回素材上传授权"));
        },
    };
    let store_uri = match store.trimmed_at("store_uri") {
        Some(uri) => {
            if text::spaced(uri) {
                return Err(lasting_error("Trae 未返回素材 URI"));
            }
            uri.to_owned()
        },
        None => {
            return Err(lasting_error("Trae 未返回素材 URI"));
        },
    };
    let resource_id = opt_owned(store.trimmed_at("override_resource_id"));
    let session_key = opt_owned(data.trimmed_at("session_key"));
    let headers = if let Some(h) = store.get("uploadHeader") {
        Some(h)
    } else if let Some(h) = store.get("upload_header") {
        Some(h)
    } else if let Some(h) = store.get("UploadHeader") {
        Some(h)
    } else if let Some(h) = data.get("uploadHeader") {
        Some(h)
    } else if let Some(h) = data.get("upload_header") {
        Some(h)
    } else {
        data.get("UploadHeader")
    };
    let upload_headers = read_header_table(headers);
    Ok(UploadPlan { upload_host, auth, store_uri, resource_id, session_key, upload_headers })
}

/// The reply shows that the account is no longer signed in.
pub open spec fn names_session(status: u16, body: Seq<char>) -> bool {
    let lower = text::lower(body);
    ||| status == 401
    ||| status == 403
    ||| text::contains(lower, "unauthorized"@)
    ||| text::contains(lower, "invalid token"@)
    ||| text::contains(lower, "session"@)
    ||| text::contains(lower, "jwt"@)
}

/// The error for a refused request.
pub open spec fn refusal(status: u16, body: Seq<char>, context: Seq<char>) -> UploadErrorView {
    UploadErrorView {
        message: context + " HTTP "@ + text::decimal(status as nat) + ": "@ + text::take(body, 240),
        retryable_account: names_session(status, body),
    }
}

/// The error for a refused request.
pub fn request_error(status: u16, body: &str, context: &str) -> (r: NativeUploadError)
    ensures
        r@ == refusal(status, body@, context@),
{
    let lower = text::lowered(body);
    let retryable = status == 401 || status == 403 || text::has(lower.as_str(), "unauthorized")
        || text::has(lower.as_str(), "invalid token") || text::has(lower.as_str(), "session")
        || text::has(lower.as_str(), "jwt");
    let mut message = text::join3(context, " HTTP ", text::decimal_text(status as u64).as_str());
    message.push_str(": ");
    message.push_str(text::taken(body, 240).as_str());
    NativeUploadError::new(message, retryable)
}

/// The address to which material is sent.
pub open spec fn upload_url(plan: PlanView) -> Seq<char> {
    let host = text::strip_all(
        text::strip_all(
            text::trim_end_char(text::trim(plan.upload_host), '/'),
            "https://"@,
        ),
        "http://"@,
    );
    "https://"@ + host + "/"@ + text::strip_all(plan.store_uri, "/"@)
}

/// The address to which material is sent.
pub fn upload_address(plan: &UploadPlan) -> (r: String)
    ensures
        r@ == upload_url(plan@),
{
    proof {
        reveal_strlit("https://");
        reveal_strlit("http://");
        reveal_strlit("/");
    }
    let host = text::trimmed_end_char(text::trimmed(plan.upload_host.as_str()), '/');
    let host = text::stripped_all(text::stripped_all(host, "https://"), "http://");
    let mut r = text::join3("https://", host, "/");
    r.push_str(text::stripped_all(plan.store_uri.as_str(), "/"));
    r
}

/// The number in two bytes, the high one first.
pub open spec fn be16(bytes: Seq<u8>, i: int) -> int {
    bytes[i] * 256 + bytes[i + 1]
}

/// The number in two bytes, the low one first.
pub open spec fn le16(bytes: Seq<u8>, i: int) -> int {
    bytes[i] + bytes[i + 1] * 256
}

/// A width and a height, where neither is zero.
pub open spec fn dimensions(width: int, height: int) -> Option<(u32, u32)> {
    if width > 0 && height > 0 {
        Some((width as u32, height as u32))
    } else {
        None
    }
}

/// The bytes begin with the signature of a PNG file and its first chunk.
pub open spec fn is_png(b: Seq<u8>) -> bool {
    &&& b.len() >= 24
    &&& b.subrange(0, 8) == seq![0x89u8, 0x50u8, 0x4eu8, 0x47u8, 0x0du8, 0x0au8, 0x1au8, 0x0au8]
    &&& b.subrange(12, 16) == seq![0x49u8, 0x48u8, 0x44u8, 0x52u8]
}

/// The bytes begin with a GIF header.
pub open spec fn is_gif(b: Seq<u8>) -> bool {
    &&& b.len() >= 10
    &&& (b.subrange(0, 6) == seq![0x47u8, 0x49u8, 0x46u8, 0x38u8, 0x37u8, 0x61u8] || b.subrange(
        0,
        6,
    ) == seq![0x47u8, 0x49u8, 0x46u8, 0x38u8, 0x39u8, 0x61u8])
}

/// The bytes begin with the header of a WebP file in its extended form.
pub open spec fn is_webp_extended(b: Seq<u8>) -> bool {
    &&& b.len() >= 30
    &&& b.subrange(0, 4) == seq![0x52u8, 0x49u8, 0x46u8, 0x46u8]
    &&& b.subrange(8, 12) == seq![0x57u8, 0x45u8, 0x42u8, 0x50u8]
    &&& b.subrange(12, 16) == seq![0x56u8, 0x50u8, 0x38u8, 0x58u8]
}

/// The first position from `i` on that holds no fill byte.
pub open spec fn after_fill(b: Seq<u8>, i: int) -> int
    decreases b.len() - i,
{
    if 0 <= i < b.len() && b[i] == 0xff {
        after_fill(b, i + 1)
    } else {
        i
    }
}

/// Fill bytes end within the bytes.
pub proof fn lemma_after_fill(b: Seq<u8>, i: int)
    requires
        0 <= i <= b.len(),
    ensures
        i <= after_fill(b, i) <= b.len(),
    decreases b.len() - i,
{
    if i < b.len() && b[i] == 0xff {
        lemma_after_fill(b, i + 1);
    }
}

/// The marker opens a frame header.
pub open spec fn is_frame_marker(marker: u8) -> bool {
    ||| 0xc0 <= marker <= 0xc3
    ||| 0xc5 <= marker <= 0xc7
    ||| 0xc9 <= marker <= 0xcb
    ||| 0xcd <= marker <= 0xcf
}

/// The size in the first frame header of a JPEG file from position `i` on.
pub open spec fn jpeg_dimensions(b: Seq<u8>, i: int) -> Option<(u32, u32)>
    decreases b.len() - i,
    when 0 <= i
{
    if i + 3 >= b.len() {
        None
    } else if b[i] != 0xff {
        jpeg_dimensions(b, i + 1)
    } else {
        proof {
            lemma_after_fill(b, i);
            lemma_after_fill(b, i + 1);
        }
        let m = after_fill(b, i);
        if m >= b.len() {
            None
        } else if b[m] == 0xd8 || b[m] == 0xd9 || b[m] == 0x01 {
            jpeg_dimensions(b, m + 1)
        } else if m + 2 >= b.len() {
            None
        } else {
            let n = be16(b, m + 1);
            if n < 2 || m + 1 + n > b.len() {
                None
            } else if is_frame_marker(b[m]) && n >= 7 {
                dimensions(be16(b, m + 6), be16(b, m + 4))
            } else {
                jpeg_dimensions(b, m + 1 + n)
            }
        }
    }
}

/// The width and height of an image of a known format.
pub open spec fn image_dimensions(b: Seq<u8>) -> Option<(u32, u32)> {
    if is_png(b) {
        dimensions(be16(b, 16) * 65536 + be16(b, 18), be16(b, 20) * 65536 + be16(b, 22))
    } else if is_gif(b) {
        dimensions(le16(b, 6), le16(b, 8))
    } else if is_webp_extended(b) {
        dimensions(1 + le16(b, 24) + b[26] * 65536, 1 + le16(b, 27) + b[29] * 65536)
    } else if b.len() >= 4 && b[0] == 0xff && b[1] == 0xd8 {
        jpeg_dimensions(b, 2)
    } else {
        None
    }
}

/// The bytes at `from` are these.
fn bytes_at(b: &[u8], from: usize, these: &Vec<u8>) -> (r: bool)
    requires
        from + these.len() <= b.len(),
    ensures
        r == (b@.subrange(from as int, from + these.len()) == these@),
{
    let mut i: usize = 0;
    while i < these.len()
        invariant
            i <= these.len(),
            from + these.len() <= b.len(),
            forall|j: int| 0 <= j < i ==> b@[from + j] == these@[j],
        decreases these.len() - i,
    {
        if b[from + i] != these[i] {
            assert(b@.subrange(from as int, from + these.len())[i as int] != these@[i as int]);
            return false;
        }
        i = i + 1;
    }
    assert(b@.subrange(from as int, from + these.len()) =~= these@);
    true
}

fn pair(width: u32, height: u32) -> (r: Option<(u32, u32)>)
    ensures
        r == dimensions(width as int, height as int),
{
    if width > 0 && height > 0 {
        Some((width, height))
    } else {
        None
    }
}

fn read_be16(b: &[u8], i: usize) -> (r: u32)
    requires
        i + 1 < b.len(),
    ensures
        r == be16(b@, i as int),
        r < 65536,
{
    (b[i] as u32) * 256 + b[i + 1] as u32
}

fn read_le16(b: &[u8], i: usize) -> (r: u32)
    requires
        i + 1 < b.len(),
    ensures
        r == le16(b@, i as int),
        r < 65536,
{
    b[i] as u32 + (b[i + 1] as u32) * 256
}

fn png_dimensions(b: &[u8]) -> (r: Option<Option<(u32, u32)>>)
    ensures
        r is Some == is_png(b@),
        r matches Some(d) ==> d == image_dimensions(b@),
{
    let signature: Vec<u8> = vec![0x89u8, 0x50u8, 0x4eu8, 0x47u8, 0x0du8, 0x0au8, 0x1au8, 0x0au8];
    let chunk: Vec<u8> = vec![0x49u8, 0x48u8, 0x44u8, 0x52u8];
    assert(signature@ =~= seq![0x89u8, 0x50u8, 0x4eu8, 0x47u8, 0x0du8, 0x0au8, 0x1au8, 0x0au8]);
    assert(chunk@ =~= seq![0x49u8, 0x48u8, 0x44u8, 0x52u8]);
    if b.len() >= 24 && bytes_at(b, 0, &signature) && bytes_at(b, 12, &chunk) {
        let width: u32 = read_be16(b, 16) * 65536 + read_be16(b, 18);
        let height: u32 = read_be16(b, 20) * 65536 + read_be16(b, 22);
        Some(pair(width, height))
    } else {
        None
    }
}

fn gif_header(b: &[u8]) -> (r: bool)
    ensures
        r == is_gif(b@),
{
    let first: Vec<u8> = vec![0x47u8, 0x49u8, 0x46u8, 0x38u8, 0x37u8, 0x61u8];
    let second: Vec<u8> = vec![0x47u8, 0x49u8, 0x46u8, 0x38u8, 0x39u8, 0x61u8];
    assert(first@ =~= seq![0x47u8, 0x49u8, 0x46u8, 0x38u8, 0x37u8, 0x61u8]);
    assert(second@ =~= seq![0x47u8, 0x49u8, 0x46u8, 0x38u8, 0x39u8, 0x61u8]);
    b.len() >= 10 && (bytes_at(b, 0, &first) || bytes_at(b, 0, &second))
}

fn webp_header(b: &[u8]) -> (r: bool)
    ensures
        r == is_webp_extended(b@),
{
    let riff: Vec<u8> = vec![0x52u8, 0x49u8, 0x46u8, 0x46u8];
    let webp: Vec<u8> = vec![0x57u8, 0x45u8, 0x42u8, 0x50u8];
    let vp8x: Vec<u8> = vec![0x56u8, 0x50u8, 0x38u8, 0x58u8];
    assert(riff@ =~= seq![0x52u8, 0x49u8, 0x46u8, 0x46u8]);
    assert(webp@ =~= seq![0x57u8, 0x45u8, 0x42u8, 0x50u8]);
    assert(vp8x@ =~= seq![0x56u8, 0x50u8, 0x38u8, 0x58u8]);
    b.len() >= 30 && bytes_at(b, 0, &riff) && bytes_at(b, 8, &webp) && bytes_at(b, 12, &vp8x)
}

/// The size in the first frame header of a JPEG file.
fn scan_jpeg(b: &[u8]) -> (r: Option<(u32, u32)>)
    requires
        b.len() >= 4,
    ensures
        r == jpeg_dimensions(b@, 2),
{
    let mut i: usize = 2;
    while i < b.len() && b.len() - i > 3
        invariant
            2 <= i <= b.len(),
            jpeg_dimensions(b@, 2) == jpeg_dimensions(b@, i as int),
        decreases b.len() - i,
    {
        if b[i] != 0xff {
            i = i + 1;
        } else {
            let start: usize = i;
            let mut m: usize = i;
            while m < b.len() && b[m] == 0xff
                invariant
                    start <= m <= b.len(),
                    after_fill(b@, start as int) == after_fill(b@, m as int),
                decreases b.len() - m,
            {
                m = m + 1;
            }
            proof {
                lemma_after_fill(b@, i as int);
            }
            if m >= b.len() {
                return None;
            }
            let marker: u8 = b[m];
            if marker == 0xd8 || marker == 0xd9 || marker == 0x01 {
                i = m + 1;
            } else {
                if b.len() - m <= 2 {
                    return None;
                }
                let n: usize = read_be16(b, m + 1) as usize;
                if n < 2 || n > b.len() - (m + 1) {
                    return None;
                }
                let frame = (0xc0 <= marker && marker <= 0xc3) || (0xc5 <= marker && marker
                    <= 0xc7) || (0xc9 <= marker && marker <= 0xcb) || (0xcd <= marker && marker
                    <= 0xcf);
                if frame && n >= 7 {
                    let height: u32 = read_be16(b, m + 4);
                    let width: u32 = read_be16(b, m + 6);
                    return pair(width, height);
                }
                i = m + 1 + n;
            }
        }
    }
    None
}

/// The width and height of an image of a known format.
pub fn detect_image_dimensions(bytes: &[u8]) -> (r: Option<(u32, u32)>)
    ensures
        r == image_dimensions(bytes@),
{
    if let Some(found) = png_dimensions(bytes) {
        return found;
    }
    if gif_header(bytes) {
        return pair(read_le16(bytes, 6), read_le16(bytes, 8));
    }
    if webp_header(bytes) {
        let width: u32 = 1 + read_le16(bytes, 24) + (bytes[26] as u32) * 65536;
        let height: u32 = 1 + read_le16(bytes, 27) + (bytes[29] as u32) * 65536;
        return pair(width, height);
    }
    if bytes.len() >= 4 && bytes[0] == 0xff && bytes[1] == 0xd8 {
        return scan_jpeg(bytes);
    }
    None
}

/// How far an upload has come.
#[derive(Debug)]
pub enum UploadStage {
    New,
    Planning,
    Sending(UploadPlan),
    Committing(UploadPlan),
    Over,
}

/// The model of an [`UploadStage`].
pub enum StageView {
    New,
    Planning,
    Sending(PlanView),
    Committing(PlanView),
    Over,
}

impl View for UploadStage {
    type V = StageView;

    open spec fn view(&self) -> StageView {
        match self {
            UploadStage::New => StageView::New,
            UploadStage::Planning => StageView::Planning,
            UploadStage::Sending(plan) => StageView::Sending(plan@),
            UploadStage::Committing(plan) => StageView::Committing(plan@),
            UploadStage::Over => StageView::Over,
        }
    }
}

/// What came of the last step of an upload.
#[derive(Debug)]
pub enum UploadEvent {
    /// The upload begins.
    Begin,
    /// The reply to the request for a plan.
    PlanRead(Json),
    /// The reply to the request for a plan is no JSON document.
    PlanUnreadable(String),
    /// An answer with its status and its text.
    Answered(u16, String),
    /// No answer came.
    Broken(String),
}

/// The model of an [`UploadEvent`].
pub enum UploadEventView {
    Begin,
    PlanRead(JsonView),
    PlanUnreadable(Seq<char>),
    Answered(u16, Seq<char>),
    Broken(Seq<char>),
}

impl View for UploadEvent {
    type V = UploadEventView;

    open spec fn view(&self) -> UploadEventView {
        match self {
            UploadEvent::Begin => UploadEventView::Begin,
            UploadEvent::PlanRead(value) => UploadEventView::PlanRead(value@),
            UploadEvent::PlanUnreadable(error) => UploadEventView::PlanUnreadable(error@),
            UploadEvent::Answered(status, body) => UploadEventView::Answered(*status, body@),
            UploadEvent::Broken(error) => UploadEventView::Broken(error@),
        }
    }
}

/// The next step of an upload.
#[derive(Debug)]
pub enum UploadAction {
    /// Ask for a plan.
    RequestPlan(Json),
    /// Send the bytes to the address under these headers.
    Send(String, Table<String>, Vec<u8>),
    /// Say that the upload is complete.
    Commit(Json),
    /// The upstream holds the material under this name.
    Finished(String),
    /// The material could not be handed over.
    Failed(NativeUploadError),
}

/// The model of an [`UploadAction`].
pub enum UploadActionView {
    RequestPlan(JsonView),
    Send(Seq<char>, Seq<(Seq<char>, Seq<char>)>, Seq<u8>),
    Commit(JsonView),
    Finished(Seq<char>),
    Failed(UploadErrorView),
}

impl View for UploadAction {
    type V = UploadActionView;

    open spec fn view(&self) -> UploadActionView {
        match self {
            UploadAction::RequestPlan(payload) => UploadActionView::RequestPlan(payload@),
            UploadAction::Send(url, headers, body) => UploadActionView::Send(
                url@,
                headers@,
                body@,
            ),
            UploadAction::Commit(payload) => UploadActionView::Commit(payload@),
            UploadAction::Finished(uri) => UploadActionView::Finished(uri@),
            UploadAction::Failed(error) => UploadActionView::Failed(error@),
        }
    }
}

/// The event can follow the last step.
pub open spec fn fits(stage: StageView, event: UploadEventView) -> bool {
    match stage {
        StageView::New => event is Begin,
        StageView::Planning => !(event is Begin),
        StageView::Sending(_) => event is Answered || event is Broken,
        StageView::Committing(_) => event is Answered || event is Broken,
        StageView::Over => false,
    }
}

/// The material is an image.
pub open spec fn is_image(record: AssetView) -> bool {
    text::starts_with(text::lower(record.mime_type), "image/"@)
}

/// The answer is a success.
pub open spec fn is_success(status: u16) -> bool {
    200 <= status < 300
}

/// The upload ends with an error.
pub open spec fn upload_failed(error: UploadErrorView) -> (StageView, UploadActionView) {
    (StageView::Over, UploadActionView::Failed(error))
}

/// The name under which the upstream holds the material.
pub open spec fn uploaded_uri(record: AssetView, plan: PlanView) -> Seq<char> {
    if is_image(record) && plan.resource_id is Some {
        plan.resource_id->0
    } else {
        plan.store_uri
    }
}

/// The first step of an upload.
pub open spec fn upload_begin(record: AssetView, bytes: Seq<u8>, token: Seq<char>) -> (
    StageView,
    UploadActionView,
) {
    if is_image(record) {
        match image_dimensions(bytes) {
            Some((width, height)) => (
                StageView::Planning,
                UploadActionView::RequestPlan(
                    image_upload_payload(image_target(token, width, height), width, height),
                ),
            ),
            None => upload_failed(
                lasting("无法识别图片素材 "@ + record.filename + " 的宽高，拒绝提交给 Trae"@),
            ),
        }
    } else {
        (StageView::Planning, UploadActionView::RequestPlan(upload_payload(token + ".trae"@)))
    }
}

/// The step in which material is sent: an image as it is, anything else in its
/// envelope.
pub open spec fn upload_send(record: AssetView, bytes: Seq<u8>, plan: PlanView) -> (
    StageView,
    UploadActionView,
) {
    let body = if is_image(record) {
        bytes
    } else {
        enveloped(bytes)
    };
    let checksum = text::hex_number(crc32(body) as nat);
    let headers = if is_image(record) {
        upload_headers(
            plan.upload_headers,
            plan.auth,
            padded(checksum),
            image_content_type(record.mime_type),
        )
    } else {
        upload_headers(plan.upload_headers, plan.auth, checksum, "application/octet-stream"@)
    };
    (StageView::Sending(plan), UploadActionView::Send(upload_url(plan), headers, body))
}

/// The step after the material was sent.
pub open spec fn upload_commit(record: AssetView, plan: PlanView) -> (
    StageView,
    UploadActionView,
) {
    match plan.session_key {
        Some(key) => (
            StageView::Committing(plan),
            UploadActionView::Commit(
                commit_payload(
                    plan.store_uri,
                    Some(key),
                    if is_image(record) {
                        "image"@
                    } else {
                        "remote_resource"@
                    },
                ),
            ),
        ),
        None => (StageView::Over, UploadActionView::Finished(uploaded_uri(record, plan))),
    }
}

/// What sending material is called in an error.
pub open spec fn send_context(record: AssetView) -> Seq<char> {
    if is_image(record) {
        "上传 Trae 图片素材失败"@
    } else {
        "上传 Trae 素材失败"@
    }
}

/// The upload of a piece of material: from how far it has come, and what came
/// of the last step, to the next step.
pub open spec fn upload_step(
    record: AssetView,
    bytes: Seq<u8>,
    token: Seq<char>,
    stage: StageView,
    event: UploadEventView,
) -> (StageView, UploadActionView) {
    match stage {
        StageView::New => upload_begin(record, bytes, token),
        StageView::Planning => match event {
            UploadEventView::PlanRead(value) => match plan_of(value) {
                Ok(plan) => upload_send(record, bytes, plan),
                Err(error) => upload_failed(error),
            },
            UploadEventView::PlanUnreadable(error) => upload_failed(
                lasting("解析 Trae 素材上传响应失败: "@ + error),
            ),
            UploadEventView::Answered(status, body) => upload_failed(
                refusal(status, body, "获取 Trae 素材上传地址失败"@),
            ),
            UploadEventView::Broken(error) => upload_failed(
                lasting("获取 Trae 素材上传地址失败: "@ + error),
            ),
            UploadEventView::Begin => upload_begin(record, bytes, token),
        },
        StageView::Sending(plan) => match event {
            UploadEventView::Answered(status, body) => if is_success(status) {
                upload_commit(record, plan)
            } else {
                upload_failed(refusal(status, body, send_context(record)))
            },
            UploadEventView::Broken(error) => upload_failed(
                lasting(send_context(record) + ": "@ + error),
            ),
            _ => (stage, UploadActionView::Finished(Seq::empty())),
        },
        StageView::Committing(plan) => match event {
            UploadEventView::Answered(status, body) => if is_success(status) {
                (StageView::Over, UploadActionView::Finished(uploaded_uri(record, plan)))
            } else {
                upload_failed(refusal(status, body, "提交 Trae 素材失败"@))
            },
            UploadEventView::Broken(error) => upload_failed(
                lasting("提交 Trae 素材失败: "@ + error),
            ),
            _ => (stage, UploadActionView::Finished(Seq::empty())),
        },
        StageView::Over => (stage, UploadActionView::Finished(Seq::empty())),
    }
}

/// The view of a stage and a step.
pub open spec fn step_view(step: (UploadStage, UploadAction)) -> (StageView, UploadActionView) {
    (step.0@, step.1@)
}

fn image_record(record: &AssetRecord) -> (r: bool)
    ensures
        r == is_image(record@),
{
    text::begins_with(text::lowered(record.mime_type.as_str()).as_str(), "image/")
}

fn fail(error: NativeUploadError) -> (r: (UploadStage, UploadAction))
    ensures
        step_view(r) == upload_failed(error@),
{
    (UploadStage::Over, UploadAction::Failed(error))
}

fn begin_upload(record: &AssetRecord, bytes: &[u8], token: &str) -> (r: (UploadStage, UploadAction))
    ensures
        step_view(r) == upload_begin(record@, bytes@, token@),
{
    if image_record(record) {
        match detect_image_dimensions(bytes) {
            Some((width, height)) => {
                let target = image_target_for(token, width, height);
                (
                    UploadStage::Planning,
                    UploadAction::RequestPlan(
                        build_image_upload_payload(target.as_str(), width, height),
                    ),
                )
            },
            None => {
                let message = text::join3(
                    "无法识别图片素材 ",
                    record.filename.as_str(),
                    " 的宽高，拒绝提交给 Trae",
                );
                fail(lasting_error(message.as_str()))
            },
        }
    } else {
        let target = target_path(token);
        (UploadStage::Planning, UploadAction::RequestPlan(build_upload_payload(target.as_str())))
    }
}

fn copied_bytes(bytes: &[u8]) -> (r: Vec<u8>)
    ensures
        r@ == bytes@,
{
    let mut r: Vec<u8> = Vec::new();
    let mut i: usize = 0;
    while i < bytes.len()
        invariant
            i <= bytes.len(),
            r@ == bytes@.subrange(0, i as int),
        decreases bytes.len() - i,
    {
        r.push(bytes[i]);
        i = i + 1;
        assert(r@ =~= bytes@.subrange(0, i as int));
    }
    assert(bytes@.subrange(0, i as int) =~= bytes@);
    r
}

/// The request that sends an image.
pub fn upload_image_bytes(plan: &UploadPlan, bytes: &[u8], content_type: &str) -> (r: UploadAction)
    ensures
        r@ == UploadActionView::Send(
            upload_url(plan@),
            upload_headers(
                plan@.upload_headers,
                plan@.auth,
                padded(text::hex_number(crc32(bytes@) as nat)),
                image_content_type(content_type@),
            ),
            bytes@,
        ),
{
    let checksum = crc32_padded_hex(bytes);
    let headers = build_image_upload_headers(
        plan.auth.as_str(),
        checksum.as_str(),
        content_type,
        &plan.upload_headers,
    );
    UploadAction::Send(upload_address(plan), headers, copied_bytes(bytes))
}

/// The request that sends an attachment which is already in its envelope.
pub fn upload_bytes(plan: &UploadPlan, bytes: Vec<u8>) -> (r: UploadAction)
    ensures
        r@ == UploadActionView::Send(
            upload_url(plan@),
            upload_headers(
                plan@.upload_headers,
                plan@.auth,
                text::hex_number(crc32(bytes@) as nat),
                "application/octet-stream"@,
            ),
            bytes@,
        ),
{
    let checksum = crc32_hex(bytes.as_slice());
    let headers = build_upload_headers(
        plan.auth.as_str(),
        checksum.as_str(),
        &plan.upload_headers,
    );
    UploadAction::Send(upload_address(plan), headers, bytes)
}

fn send_material(record: &AssetRecord, bytes: &[u8], plan: UploadPlan) -> (r: (
    UploadStage,
    UploadAction,
))
    ensures
        step_view(r) == upload_send(record@, bytes@, plan@),
{
    let action = if image_record(record) {
        upload_image_bytes(&plan, bytes, record.mime_type.as_str())
    } else {
        upload_bytes(&plan, encode_remote_attachment(bytes))
    };
    (UploadStage::Sending(plan), action)
}

fn finished(record: &AssetRecord, plan: UploadPlan) -> (r: (UploadStage, UploadAction))
    ensures
        step_view(r) == (
            StageView::Over,
            UploadActionView::Finished(uploaded_uri(record@, plan@)),
        ),
{
    let uri = match plan.resource_id {
        Some(id) => {
            if image_record(record) {
                id
            } else {
                plan.store_uri
            }
        },
        None => plan.store_uri,
    };
    (UploadStage::Over, UploadAction::Finished(uri))
}

/// The step after the material was sent: nothing is left to say where the plan
/// names no session.
fn commit_upload_for(record: &AssetRecord, plan: UploadPlan) -> (r: (UploadStage, UploadAction))
    ensures
        step_view(r) == upload_commit(record@, plan@),
{
    let payload = match &plan.session_key {
        Some(key) => {
            let biz_type = if image_record(record) {
                IMAGE_BIZ_TYPE
            } else {
                RESOURCE_BIZ_TYPE
            };
            build_commit_payload_for(plan.store_uri.as_str(), Some(key.as_str()), biz_type)
        },
        None => {
            return finished(record, plan);
        },
    };
    (UploadStage::Committing(plan), UploadAction::Commit(payload))
}

/// The upload of a piece of material: from how far it has come, and what came
/// of the last step, to the next step. `token` names the material.
pub fn upload_asset(
    record: &AssetRecord,
    bytes: &[u8],
    token: &str,
    stage: UploadStage,
    event: UploadEvent,
) -> (r: (UploadStage, UploadAction))
    requires
        fits(stage@, event@),
    ensures
        step_view(r) == upload_step(record@, bytes@, token@, stage@, event@),
{
    let context = if image_record(record) {
        "上传 Trae 图片素材失败"
    } else {
        "上传 Trae 素材失败"
    };
    match stage {
        UploadStage::New => begin_upload(record, bytes, token),
        UploadStage::Planning => match event {
            UploadEvent::PlanRead(value) => match parse_upload_url_response(&value) {
                Ok(plan) => send_material(record, bytes, plan),
                Err(error) => fail(error),
            },
            UploadEvent::PlanUnreadable(error) => fail(
                lasting_error(text::join2("解析 Trae 素材上传响应失败: ", error.as_str()).as_str()),
            ),
            UploadEvent::Answered(status, body) => fail(
                request_error(status, body.as_str(), "获取 Trae 素材上传地址失败"),
            ),
            UploadEvent::Broken(error) => fail(
                lasting_error(text::join2("获取 Trae 素材上传地址失败: ", error.as_str()).as_str()),
            ),
            UploadEvent::Begin => begin_upload(record, bytes, token),
        },
        UploadStage::Sending(plan) => match event {
            UploadEvent::Answered(status, body) => {
                if 200 <= status && status < 300 {
                    commit_upload_for(record, plan)
                } else {
                    fail(request_error(status, body.as_str(), context))
                }
            },
            UploadEvent::Broken(error) => fail(
                lasting_error(text::join3(context, ": ", error.as_str()).as_str()),
            ),
            _ => (UploadStage::Over, UploadAction::Finished(String::new())),
        },
        UploadStage::Committing(plan) => match event {
            UploadEvent::Answered(status, body) => {
                if 200 <= status && status < 300 {
                    finished(record, plan)
                } else {
                    fail(request_error(status, body.as_str(), "提交 Trae 素材失败"))
                }
            },
            UploadEvent::Broken(error) => fail(
                lasting_error(text::join2("提交 Trae 素材失败: ", error.as_str()).as_str()),
            ),
            _ => (UploadStage::Over, UploadAction::Finished(String::new())),
        },
        UploadStage::Over => (UploadStage::Over, UploadAction::Finished(String::new())),
    }
}

/// An upload is finished only by a successful answer: to the material where
/// the plan names no session, else to the notice that it is complete.
pub proof fn law_upload_finishes_on_success_alone(
    record: AssetView,
    bytes: Seq<u8>,
    token: Seq<char>,
    stage: StageView,
    event: UploadEventView,
)
    requires
        fits(stage, event),
        upload_step(record, bytes, token, stage, event).1 is Finished,
    ensures
        event matches UploadEventView::Answered(status, _) && is_success(status),
        match stage {
            StageView::Sending(plan) => plan.session_key is None,
            StageView::Committing(_) => true,
            _ => false,
        },
{
}

/// An upload that failed or finished is over, and one that goes on is not.
pub proof fn law_upload_ends_once(
    record: AssetView,
    bytes: Seq<u8>,
    token: Seq<char>,
    stage: StageView,
    event: UploadEventView,
)
    requires
        fits(stage, event),
    ensures
        ({
            let (next, action) = upload_step(record, bytes, token, stage, event);
            (next is Over) == (action is Finished || action is Failed)
        }),
{
}

} // verus!
