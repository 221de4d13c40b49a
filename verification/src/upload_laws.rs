//! What holds of the upload of reference material to the upstream.

use crate::assets::AssetView;
use crate::json::JsonView;
use crate::table;
use crate::text;
use crate::trae_resource_upload::{
    self, PlanView, StageView, UploadActionView, UploadErrorView, UploadEventView,
};
use vstd::prelude::*;

verus! {

/// The media type says that the material is an image.
pub open spec fn says_image(record: AssetView) -> bool {
    text::starts_with(text::lower(record.mime_type), "image/"@)
}

/// Once there is a plan, the material goes to the place that the plan names,
/// with the plan's permission and the checksum of what is sent. An image is
/// sent as it is; anything else is sent in an envelope out of which it can be
/// taken again, byte by byte.
pub proof fn law_material_is_sent_as_the_upstream_expects(
    record: AssetView,
    bytes: Seq<u8>,
    token: Seq<char>,
    value: JsonView,
    plan: PlanView,
)
    requires
        trae_resource_upload::plan_of(value) == Ok::<PlanView, UploadErrorView>(plan),
    ensures
        ({
            let step = trae_resource_upload::upload_step(
                record,
                bytes,
                token,
                StageView::Planning,
                UploadEventView::PlanRead(value),
            );
            &&& step.0 == StageView::Sending(plan)
            &&& step.1 matches UploadActionView::Send(_, headers, body)
            &&& says_image(record) ==> body == bytes
            &&& !says_image(record) ==> {
                &&& body.len() == bytes.len() + 8
                &&& forall|i: int|
                    0 <= i < bytes.len() ==> #[trigger] bytes[i] == body[i + 8]
                        ^ trae_resource_upload::magic_key()[i % 37]
                &&& body.subrange(0, 8) == trae_resource_upload::magic_header()
            }
            &&& table::find(headers, "Authorization"@) == Some(plan.auth)
            &&& says_image(record) ==> {
                &&& table::find(headers, "Content-CRC32"@) matches Some(sum)
                &&& sum.len() >= 8
                &&& text::ends_with(
                    sum,
                    text::hex_number(trae_resource_upload::crc32(bytes) as nat),
                )
                &&& text::trim(record.mime_type).len() > 0 ==> table::find(
                    headers,
                    "Content-Type"@,
                ) == Some(text::trim(record.mime_type))
            }
            &&& !says_image(record) ==> {
                &&& table::find(headers, "Content-CRC32"@) == Some(
                    text::hex_number(trae_resource_upload::crc32(body) as nat),
                )
                &&& table::find(headers, "Content-Type"@) == Some("application/octet-stream"@)
            }
            &&& forall|name: Seq<char>|
                name != "Authorization"@ && name != "Content-CRC32"@ && name != "Content-Type"@
                    ==> #[trigger] table::find(headers, name) == table::find(
                    plan.upload_headers,
                    name,
                )
        }),
{
    let step = trae_resource_upload::upload_step(
        record,
        bytes,
        token,
        StageView::Planning,
        UploadEventView::PlanRead(value),
    );
    let body = step.1->Send_2;
    let headers = step.1->Send_1;
    reveal_strlit("Authorization");
    reveal_strlit("Content-CRC32");
    reveal_strlit("Content-Type");
    assert("Authorization"@.len() == 13);
    assert("Content-CRC32"@.len() == 13);
    assert("Content-Type"@.len() == 12);
    assert("Authorization"@[0] != "Content-CRC32"@[0]);
    let plain = text::hex_number(trae_resource_upload::crc32(body) as nat);
    let sum = if says_image(record) {
        trae_resource_upload::padded(plain)
    } else {
        plain
    };
    let kind = if says_image(record) {
        trae_resource_upload::image_content_type(record.mime_type)
    } else {
        "application/octet-stream"@
    };
    lemma_padded(plain);
    let one = table::put(plan.upload_headers, "Authorization"@, plan.auth);
    let two = table::put(one, "Content-CRC32"@, sum);
    table::lemma_find_put(plan.upload_headers, "Authorization"@, plan.auth);
    table::lemma_find_put(one, "Content-CRC32"@, sum);
    table::lemma_find_put(two, "Content-Type"@, kind);
    assert(headers == table::put(two, "Content-Type"@, kind));
    if !says_image(record) {
        assert(body.subrange(0, 8) =~= trae_resource_upload::magic_header());
        assert forall|i: int| 0 <= i < bytes.len() implies #[trigger] bytes[i] == body[i + 8]
            ^ trae_resource_upload::magic_key()[i % 37] by {
            let b = bytes[i];
            let k = trae_resource_upload::magic_key()[i % 37];
            assert(body[i + 8] == b ^ k);
            assert((b ^ k) ^ k == b) by (bit_vector);
        }
    }
}

proof fn lemma_padded(digits: Seq<char>)
    ensures
        trae_resource_upload::padded(digits).len() >= 8,
        trae_resource_upload::padded(digits).len() <= 8 || trae_resource_upload::padded(digits)
            == digits,
        text::ends_with(trae_resource_upload::padded(digits), digits),
        forall|i: int|
            0 <= i < trae_resource_upload::padded(digits).len() - digits.len()
                ==> #[trigger] trae_resource_upload::padded(digits)[i] == '0',
    decreases 8 - digits.len(),
{
    let all = trae_resource_upload::padded(digits);
    if digits.len() < 8 {
        let more = seq!['0'] + digits;
        lemma_padded(more);
        assert(more.subrange(1, more.len() as int) =~= digits);
        let at = all.len() - more.len();
        assert(all.subrange(at, all.len() as int) == more);
        assert(all.subrange(at + 1, all.len() as int) =~= all.subrange(
            at,
            all.len() as int,
        ).subrange(1, more.len() as int));
        assert forall|i: int| 0 <= i < all.len() - digits.len() implies #[trigger] all[i]
            == '0' by {
            if i == at {
                assert(all.subrange(at, all.len() as int)[0] == more[0]);
            }
        }
    } else {
        assert(digits.subrange(0, digits.len() as int) =~= digits);
    }
}

/// The checksum of an image is written with zeros in front, in eight digits.
pub proof fn law_a_checksum_is_padded_with_zeros(digits: Seq<char>)
    requires
        digits.len() <= 8,
    ensures
        trae_resource_upload::padded(digits).len() == 8,
        trae_resource_upload::padded(digits).subrange(8 - digits.len(), 8) == digits,
        forall|i: int|
            0 <= i < 8 - digits.len() ==> #[trigger] trae_resource_upload::padded(digits)[i]
                == '0',
{
    lemma_padded(digits);
}

/// Material is sent over HTTPS, to the host and the place of its plan.
pub proof fn law_material_goes_to_its_place(host: Seq<char>, uri: Seq<char>, plan: PlanView)
    requires
        plan.upload_host == host,
        plan.store_uri == uri,
        text::trim(host) == host,
        host.len() > 0,
        host[host.len() - 1] != '/',
        !text::starts_with(host, "https://"@),
        !text::starts_with(host, "http://"@),
        !text::starts_with(uri, "/"@),
    ensures
        trae_resource_upload::upload_url(plan) == "https://"@ + host + "/"@ + uri,
{
}

/// An upload begins with the question where the material goes: for an image
/// with its size, by which it is named too; for other material without. An
/// image whose size cannot be told is not uploaded.
pub proof fn law_an_upload_asks_for_its_place(
    record: AssetView,
    bytes: Seq<u8>,
    token: Seq<char>,
)
    ensures
        ({
            let step = trae_resource_upload::upload_step(record, bytes, token, StageView::New, UploadEventView::Begin);
            let size = trae_resource_upload::image_dimensions(bytes);
            let image = says_image(record);
            &&& image && size is None ==> (step.1 matches UploadActionView::Failed(error)
                && !error.retryable_account)
            &&& !image || size is Some ==> {
                &&& step.0 is Planning
                &&& step.1 matches UploadActionView::RequestPlan(question)
                &&& question.text_at("biz_type"@) == Some(
                    if image {
                        "image"@
                    } else {
                        "remote_resource"@
                    },
                )
                &&& question.get("targets"@) matches Some(JsonView::Array(targets))
                &&& targets.len() == 1
                &&& !image ==> targets[0] == JsonView::Text(token + ".trae"@)
                &&& image ==> targets[0] == JsonView::Text(
                    token + "_"@ + text::decimal((size->0).0 as nat) + "x"@ + text::decimal(
                        (size->0).1 as nat,
                    ) + ".trae"@,
                )
                &&& image ==> {
                    &&& question.get("scale_param"@) matches Some(scale)
                    &&& scale.unsigned_at("width"@) == Some((size->0).0 as u64)
                    &&& scale.unsigned_at("height"@) == Some((size->0).1 as u64)
                }
                &&& !image ==> question.get("scale_param"@) is None
            }
        }),
{
    broadcast use crate::json::group_members;

    reveal_strlit("targets");
    reveal_strlit("biz_type");
    reveal_strlit("scale_param");
    reveal_strlit("width");
    reveal_strlit("height");
    assert("targets"@.len() == 7);
    assert("biz_type"@.len() == 8);
    assert("scale_param"@.len() == 11);
    assert("width"@.len() == 5);
    assert("height"@.len() == 6);
}

/// After the material arrived, the upstream is told so where the plan has a
/// session: by the place of the material, the session and the kind of the
/// material. Then the material has its name: the one that the plan gave an
/// image, and else the place it was sent to.
pub proof fn law_an_upload_is_committed(
    record: AssetView,
    bytes: Seq<u8>,
    token: Seq<char>,
    plan: PlanView,
    status: u16,
    body: Seq<char>,
    last_status: u16,
    last_body: Seq<char>,
)
    requires
        200 <= status < 300,
    ensures
        ({
            let sent = trae_resource_upload::upload_step(
                record,
                bytes,
                token,
                StageView::Sending(plan),
                UploadEventView::Answered(status, body),
            );
            let committed = trae_resource_upload::upload_step(
                record,
                bytes,
                token,
                sent.0,
                UploadEventView::Answered(last_status, last_body),
            );
            let name = if says_image(record) && plan.resource_id is Some {
                plan.resource_id->0
            } else {
                plan.store_uri
            };
            match plan.session_key {
                None => sent.1 == UploadActionView::Finished(name),
                Some(session) => {
                    &&& sent.1 matches UploadActionView::Commit(notice)
                    &&& notice.get("oids"@) == Some(
                        JsonView::Array(seq![JsonView::Text(plan.store_uri)]),
                    )
                    &&& notice.text_at("biz_type"@) == Some(
                        if says_image(record) {
                            "image"@
                        } else {
                            "remote_resource"@
                        },
                    )
                    &&& text::trim(session).len() > 0 ==> notice.text_at("session_key"@) == Some(
                        session,
                    )
                    &&& text::trim(session).len() == 0 ==> notice.get("session_key"@) is None
                    &&& 200 <= last_status < 300 ==> committed.1 == UploadActionView::Finished(name)
                    &&& !(200 <= last_status < 300) ==> committed.1 is Failed
                },
            }
        }),
{
    broadcast use crate::json::group_members;

    reveal_strlit("oids");
    reveal_strlit("biz_type");
    reveal_strlit("session_key");
    assert("oids"@.len() == 4);
    assert("biz_type"@.len() == 8);
    assert("session_key"@.len() == 11);
}

/// A refusal fails the upload, with its status and the start of its text; another
/// account may succeed exactly where the refusal is of the account's session.
pub proof fn law_a_refused_upload_says_whether_another_account_helps(
    record: AssetView,
    bytes: Seq<u8>,
    token: Seq<char>,
    stage: StageView,
    status: u16,
    body: Seq<char>,
)
    requires
        stage is Planning || ((stage is Sending || stage is Committing) && !(200 <= status < 300)),
    ensures
        ({
            let step = trae_resource_upload::upload_step(
                record,
                bytes,
                token,
                stage,
                UploadEventView::Answered(status, body),
            );
            let low = text::lower(body);
            let session = status == 401 || status == 403 || text::contains(low, "unauthorized"@)
                || text::contains(low, "invalid token"@) || text::contains(low, "session"@)
                || text::contains(low, "jwt"@);
            &&& step.0 is Over
            &&& step.1 matches UploadActionView::Failed(error)
            &&& error.retryable_account == session
            &&& text::ends_with(
                error.message,
                " HTTP "@ + text::decimal(status as nat) + ": "@ + text::take(body, 240),
            )
        }),
{
    let step = trae_resource_upload::upload_step(record, bytes, token, stage, UploadEventView::Answered(status, body));
    let context = if stage is Planning {
        "获取 Trae 素材上传地址失败"@
    } else if stage is Committing {
        "提交 Trae 素材失败"@
    } else {
        trae_resource_upload::send_context(record)
    };
    let tail = " HTTP "@ + text::decimal(status as nat) + ": "@ + text::take(body, 240);
    let message = step.1->Failed_0.message;
    assert(message =~= context + tail);
    assert(message.subrange(message.len() - tail.len(), message.len() as int) =~= tail);
}

/// A connection that broke, or a plan that cannot be read, fails the upload for
/// every account.
pub proof fn law_a_broken_upload_fails(
    record: AssetView,
    bytes: Seq<u8>,
    token: Seq<char>,
    stage: StageView,
    error: Seq<char>,
)
    requires
        stage is Planning || stage is Sending || stage is Committing,
    ensures
        trae_resource_upload::upload_step(record, bytes, token, stage, UploadEventView::Broken(error)).1
            matches UploadActionView::Failed(failure) && !failure.retryable_account,
        stage is Planning ==> (trae_resource_upload::upload_step(
            record,
            bytes,
            token,
            stage,
            UploadEventView::PlanUnreadable(error),
        ).1 matches UploadActionView::Failed(failure) && !failure.retryable_account),
{
}

/// A reply holds a plan exactly where it names a host, a permission and a
/// place; the plan is what the reply says, in `data` where there is one.
pub proof fn law_a_plan_is_read_from_its_reply(
    value: JsonView,
    data: JsonView,
    store: JsonView,
    host: Seq<char>,
)
    requires
        value.get("data"@) == Some(data) || (value.get("data"@) is None && data == value),
        data.get("upload_hosts"@) matches Some(JsonView::Array(hosts)) && hosts.len() > 0
            && hosts[0] == JsonView::Text(host),
        data.get("store_infos"@) matches Some(JsonView::Array(stores)) && stores.len() > 0
            && stores[0] == store,
    ensures
        ({
            let plan = trae_resource_upload::plan_of(value);
            let auth = store.trimmed_at("auth"@);
            let place = store.trimmed_at("store_uri"@);
            &&& plan is Ok == (text::trim(host).len() > 0 && auth is Some && place is Some
                && !text::has_space(place->0))
            &&& plan matches Err(error) ==> !error.retryable_account
            &&& plan matches Ok(p) ==> {
                &&& p.auth == auth->0
                &&& p.store_uri == place->0
                &&& p.session_key == data.trimmed_at("session_key"@)
                &&& p.resource_id == store.trimmed_at("override_resource_id"@)
                &&& text::trim(host)[text::trim(host).len() - 1] != '/' ==> p.upload_host
                    == text::trim(host)
                &&& (store.get("uploadHeader"@) matches Some(JsonView::Object(members))
                    && members.len() == 0) ==> p.upload_headers.len() == 0
            }
        }),
{
}

/// The size of an image is the one in its file: of a PNG file in its first
/// chunk, of a GIF file in its header, of an extended WebP file in its canvas,
/// and of a JPEG file in its frame header.
pub proof fn law_the_size_of_an_image_is_in_its_file(b: Seq<u8>, width: u32, height: u32)
    requires
        width > 0,
        height > 0,
    ensures
        b.len() >= 24 && b.subrange(0, 8) == seq![
            0x89u8,
            0x50u8,
            0x4eu8,
            0x47u8,
            0x0du8,
            0x0au8,
            0x1au8,
            0x0au8,
        ] && b.subrange(12, 16) == seq![0x49u8, 0x48u8, 0x44u8, 0x52u8] && b[16] * 16777216 + b[17]
            * 65536 + b[18] * 256 + b[19] == width && b[20] * 16777216 + b[21] * 65536 + b[22] * 256
            + b[23] == height ==> trae_resource_upload::image_dimensions(b) == Some(
            (width, height),
        ),
        b.len() >= 10 && b.subrange(0, 6) == seq![
            0x47u8,
            0x49u8,
            0x46u8,
            0x38u8,
            0x39u8,
            0x61u8,
        ] && b[6] + b[7] * 256 == width && b[8] + b[9] * 256 == height
            ==> trae_resource_upload::image_dimensions(b) == Some((width, height)),
        b.len() >= 30 && b.subrange(0, 4) == seq![0x52u8, 0x49u8, 0x46u8, 0x46u8] && b.subrange(
            8,
            12,
        ) == seq![0x57u8, 0x45u8, 0x42u8, 0x50u8] && b.subrange(12, 16) == seq![
            0x56u8,
            0x50u8,
            0x38u8,
            0x58u8,
        ] && 1 + b[24] + b[25] * 256 + b[26] * 65536 == width && 1 + b[27] + b[28] * 256 + b[29]
            * 65536 == height ==> trae_resource_upload::image_dimensions(b) == Some(
            (width, height),
        ),
        b.len() >= 12 && b[0] == 0xff && b[1] == 0xd8 && b[2] == 0xff && b[3] == 0xc0 && b[4] == 0
            && 7 <= b[5] <= b.len() - 4 && b[9] * 256 + b[10] == width && b[7] * 256 + b[8]
            == height ==> trae_resource_upload::image_dimensions(b) == Some((width, height)),
{
    if b.len() >= 24 && b.subrange(0, 8) == seq![
        0x89u8,
        0x50u8,
        0x4eu8,
        0x47u8,
        0x0du8,
        0x0au8,
        0x1au8,
        0x0au8,
    ] {
        assert(b.subrange(0, 8)[0] == b[0]);
    }
    if b.len() >= 10 {
        assert(b.subrange(0, 6)[0] == b[0]);
        if b.len() >= 24 {
            assert(b.subrange(0, 8)[0] == b[0]);
        }
        if b.len() >= 30 {
            assert(b.subrange(0, 4)[0] == b[0]);
        }
    }
    if b.len() >= 12 && b[0] == 0xff && b[1] == 0xd8 && b[2] == 0xff && b[3] == 0xc0 {
        reveal_with_fuel(trae_resource_upload::jpeg_dimensions, 2);
        reveal_with_fuel(trae_resource_upload::after_fill, 3);
        assert(trae_resource_upload::after_fill(b, 2) == 3);
    }
}

/// A segment of a JPEG file that holds no frame is passed over.
pub proof fn law_other_segments_of_an_image_are_passed_over(b: Seq<u8>, i: int, n: int)
    requires
        0 <= i,
        i + 4 < b.len(),
        b[i] == 0xff,
        0xe0 <= b[i + 1] <= 0xef,
        n == b[i + 2] * 256 + b[i + 3],
        n >= 2,
        i + 2 + n <= b.len(),
    ensures
        trae_resource_upload::jpeg_dimensions(b, i) == trae_resource_upload::jpeg_dimensions(
            b,
            i + 2 + n,
        ),
{
    reveal_with_fuel(trae_resource_upload::after_fill, 3);
    assert(trae_resource_upload::after_fill(b, i) == i + 1);
}

proof fn lemma_string_members(members: Seq<(Seq<char>, JsonView)>, n: nat, name: Seq<char>)
    requires
        table::unique(members),
        n <= members.len(),
    ensures
        table::find(trae_resource_upload::string_members(members, n), name) == (match table::find(
            members.subrange(0, n as int),
            name,
        ) {
            Some(JsonView::Text(value)) => Some(value),
            _ => None,
        }),
    decreases n,
{
    if n > 0 {
        let m = (n - 1) as nat;
        lemma_string_members(members, m, name);
        let before = trae_resource_upload::string_members(members, m);
        let (key, value) = members[m as int];
        assert(members.subrange(0, n as int) =~= members.subrange(0, m as int).push((key, value)));
        table::lemma_find_push(members.subrange(0, m as int), key, value, name);
        table::lemma_find_has_key(members.subrange(0, m as int), name);
        if key == name && table::find(members.subrange(0, m as int), name) is Some {
            let i = choose|i: int|
                0 <= i < m && (#[trigger] members.subrange(0, m as int)[i]).0 == name;
            assert(members[i].0 != members[m as int].0);
        }
        if let JsonView::Text(v) = value {
            table::lemma_find_put(before, key, v);
        }
    }
}

/// Material is sent with the headers that its plan asks for: every one that is
/// a text, and no other.
pub proof fn law_a_plan_says_its_headers(
    headers: Seq<(Seq<char>, JsonView)>,
    name: Seq<char>,
)
    requires
        table::unique(headers),
    ensures
        table::find(
            trae_resource_upload::header_table(Some(JsonView::Object(headers))),
            name,
        ) == JsonView::Object(headers).text_at(name),
{
    lemma_string_members(headers, headers.len(), name);
    assert(headers.subrange(0, headers.len() as int) =~= headers);
}

/// The headers of a plan stand with the place, or else beside it, under one of
/// three names; the first that is there counts.
pub proof fn law_the_headers_of_a_plan_are_found(store: JsonView, data: JsonView)
    ensures
        ({
            let found = trae_resource_upload::plan_headers(store, data);
            &&& store.get("uploadHeader"@) is Some ==> found == store.get("uploadHeader"@)
            &&& store.get("uploadHeader"@) is None && store.get("upload_header"@) is Some ==> found
                == store.get("upload_header"@)
            &&& store.get("uploadHeader"@) is None && store.get("upload_header"@) is None
                && store.get("UploadHeader"@) is None && data.get("uploadHeader"@) is Some ==> found
                == data.get("uploadHeader"@)
            &&& found is None ==> data.get("UploadHeader"@) is None && store.get(
                "UploadHeader"@,
            ) is None
        }),
{
}

} // verus!
