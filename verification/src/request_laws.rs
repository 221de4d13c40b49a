//! What holds of the requests that are sent to the upstream, of its refusals,
//! and of the charges that it speaks of.

use crate::json::JsonView;
use crate::table;
use crate::text;
use crate::text_laws;
use crate::upstream_request::{self, ClientView, SenderView, TraceView};
use crate::video::BillingStatus;
use crate::video_billing;
use vstd::prelude::*;

verus! {

/// What every request says of its sender and of the client: the token, the
/// machine, and the application with its version.
pub open spec fn presents(
    headers: Seq<(Seq<char>, Seq<char>)>,
    client: ClientView,
    sender: SenderView,
) -> bool {
    &&& table::find(headers, "x-ide-token"@) == Some(sender.jwt)
    &&& table::find(headers, "x-device-id"@) == Some(sender.device_id)
    &&& table::find(headers, "x-machine-id"@) == Some(sender.machine_id)
    &&& table::find(headers, "x-app-id"@) == Some(client.app_id)
    &&& table::find(headers, "x-ide-version"@) == Some(client.version)
    &&& table::find(headers, "x-ide-version-code"@) == Some(client.version_code)
    &&& table::find(headers, "x-ide-version-type"@) == Some("stable"@)
    &&& table::find(headers, "user-agent"@) == Some("TraeClient/TTNet"@)
    &&& table::find(headers, "content-type"@) == Some("application/json"@)
    &&& table::find(headers, "x-device-type"@) == Some("windows"@)
}

/// A chat request goes to its endpoint at the host of the client and refers to
/// it, says who sends it, and carries its ids.
pub proof fn law_a_chat_request_says_who_sends_it(
    client: ClientView,
    endpoint: Seq<char>,
    sender: SenderView,
    ids: TraceView,
)
    requires
        ids.first.len() == 32,
        ids.second.len() == 32,
    ensures
        ({
            let r = upstream_request::chat_request(client, endpoint, sender, ids);
            let trace = "00-"@ + ids.first + "-"@ + ids.second + "-01"@;
            &&& r.url == client.host + endpoint
            &&& presents(r.headers, client, sender)
            &&& table::find(r.headers, "referer"@) == Some(client.referer_base + endpoint)
            &&& table::find(r.headers, "accept"@) == Some("*/*"@)
            &&& table::find(r.headers, "app-version"@) == Some(client.version)
            &&& table::find(r.headers, "x-app-version-code"@) == Some(client.version_code)
            &&& table::find(r.headers, "x-request-id"@) == Some("req_"@ + ids.request)
            &&& table::find(r.headers, "x-tt-trace-id"@) == Some(trace)
            &&& table::find(r.headers, "x-custom-trace-id"@) == Some(trace.subrange(0, 16))
            &&& table::find(r.headers, "x-flow-traceparent"@) == Some(
                "04-"@ + ids.first + "-"@ + ids.step + "-01"@,
            )
        }),
{
    broadcast use table::lemma_find_push;

    reveal_strlit("00-");
    reveal_strlit("content-type");
    reveal_strlit("accept");
    reveal_strlit("accept-encoding");
    reveal_strlit("user-agent");
    reveal_strlit("x-ide-token");
    reveal_strlit("x-app-id");
    reveal_strlit("x-app-version");
    reveal_strlit("x-app-version-code");
    reveal_strlit("x-ide-version");
    reveal_strlit("x-ide-version-code");
    reveal_strlit("x-ide-version-type");
    reveal_strlit("x-device-type");
    reveal_strlit("x-device-brand");
    reveal_strlit("x-device-cpu");
    reveal_strlit("x-device-id");
    reveal_strlit("x-machine-id");
    reveal_strlit("x-os-version");
    reveal_strlit("request-traffic-type");
    reveal_strlit("package-type");
    reveal_strlit("x-lgw-req-sdk-type");
    reveal_strlit("x-lscbd-aid");
    reveal_strlit("x-lscbd-platform");
    reveal_strlit("x-ss-dp");
    reveal_strlit("app-version");
    reveal_strlit("x-custom-trace-id");
    reveal_strlit("x-flow-traceparent");
    reveal_strlit("x-tt-trace-id");
    reveal_strlit("x-request-id");
    reveal_strlit("referer");
    assert("content-type"@.len() == 12);
    assert("accept"@.len() == 6);
    assert("accept-encoding"@.len() == 15);
    assert("user-agent"@.len() == 10);
    assert("x-ide-token"@.len() == 11);
    assert("x-app-id"@.len() == 8);
    assert("x-app-version"@.len() == 13);
    assert("x-app-version-code"@.len() == 18);
    assert("x-ide-version"@.len() == 13);
    assert("x-ide-version-code"@.len() == 18);
    assert("x-ide-version-type"@.len() == 18);
    assert("x-device-type"@.len() == 13);
    assert("x-device-brand"@.len() == 14);
    assert("x-device-cpu"@.len() == 12);
    assert("x-device-id"@.len() == 11);
    assert("x-machine-id"@.len() == 12);
    assert("x-os-version"@.len() == 12);
    assert("request-traffic-type"@.len() == 20);
    assert("package-type"@.len() == 12);
    assert("x-lgw-req-sdk-type"@.len() == 18);
    assert("x-lscbd-aid"@.len() == 11);
    assert("x-lscbd-platform"@.len() == 16);
    assert("x-ss-dp"@.len() == 7);
    assert("app-version"@.len() == 11);
    assert("x-custom-trace-id"@.len() == 17);
    assert("x-flow-traceparent"@.len() == 18);
    assert("x-tt-trace-id"@.len() == 13);
    assert("x-request-id"@.len() == 12);
    assert("referer"@.len() == 7);
    assert("content-type"@[0] != "x-device-cpu"@[0]);
    assert("content-type"@[0] != "x-machine-id"@[0]);
    assert("content-type"@[0] != "x-os-version"@[0]);
    assert("content-type"@[0] != "package-type"@[0]);
    assert("content-type"@[0] != "x-request-id"@[0]);
    assert("x-ide-token"@[2] != "x-device-id"@[2]);
    assert("x-ide-token"@[2] != "x-lscbd-aid"@[2]);
    assert("x-ide-token"@[0] != "app-version"@[0]);
    assert("x-app-version"@[2] != "x-ide-version"@[2]);
    assert("x-app-version"@[2] != "x-device-type"@[2]);
    assert("x-app-version"@[2] != "x-tt-trace-id"@[2]);
    assert("x-app-version-code"@[2] != "x-ide-version-code"@[2]);
    assert("x-app-version-code"@[2] != "x-ide-version-type"@[2]);
    assert("x-app-version-code"@[2] != "x-lgw-req-sdk-type"@[2]);
    assert("x-app-version-code"@[2] != "x-flow-traceparent"@[2]);
    assert("x-ide-version"@[2] != "x-device-type"@[2]);
    assert("x-ide-version"@[2] != "x-tt-trace-id"@[2]);
    assert("x-ide-version-code"@[14] != "x-ide-version-type"@[14]);
    assert("x-ide-version-code"@[2] != "x-lgw-req-sdk-type"@[2]);
    assert("x-ide-version-code"@[2] != "x-flow-traceparent"@[2]);
    assert("x-ide-version-type"@[2] != "x-lgw-req-sdk-type"@[2]);
    assert("x-ide-version-type"@[2] != "x-flow-traceparent"@[2]);
    assert("x-device-type"@[2] != "x-tt-trace-id"@[2]);
    assert("x-device-cpu"@[2] != "x-machine-id"@[2]);
    assert("x-device-cpu"@[2] != "x-os-version"@[2]);
    assert("x-device-cpu"@[0] != "package-type"@[0]);
    assert("x-device-cpu"@[2] != "x-request-id"@[2]);
    assert("x-device-id"@[2] != "x-lscbd-aid"@[2]);
    assert("x-device-id"@[0] != "app-version"@[0]);
    assert("x-machine-id"@[2] != "x-os-version"@[2]);
    assert("x-machine-id"@[0] != "package-type"@[0]);
    assert("x-machine-id"@[2] != "x-request-id"@[2]);
    assert("x-os-version"@[0] != "package-type"@[0]);
    assert("x-os-version"@[2] != "x-request-id"@[2]);
    assert("package-type"@[0] != "x-request-id"@[0]);
    assert("x-lgw-req-sdk-type"@[2] != "x-flow-traceparent"@[2]);
    assert("x-lscbd-aid"@[0] != "app-version"@[0]);
    assert("x-ss-dp"@[0] != "referer"@[0]);
    let trace = upstream_request::trace(ids.first, ids.second);
    assert("00-"@.len() == 3);
    assert(trace.subrange(3, 35) =~= ids.first);
}

/// A request of an upload goes to its path, and one for a video to the stream of
/// videos; both refer to where they go and say who sends them.
pub proof fn law_a_native_request_says_who_sends_it(
    client: ClientView,
    sender: SenderView,
    path: Seq<char>,
    trace: Seq<char>,
    request_id: Seq<char>,
)
    ensures
        ({
            let r = upstream_request::upload_request(client, sender, path);
            &&& r.url == client.host + path
            &&& presents(r.headers, client, sender)
            &&& table::find(r.headers, "referer"@) == Some(client.referer_base + path)
            &&& table::find(r.headers, "accept"@) == Some("*/*"@)
            &&& table::find(r.headers, "app-version"@) == Some(client.version)
        }),
        ({
            let r = upstream_request::video_request(client, sender, trace, request_id);
            &&& r.url == client.host + "/api/ide/v1/tool_text_to_video_stream"@
            &&& presents(r.headers, client, sender)
            &&& table::find(r.headers, "referer"@) == Some(
                client.referer_base + "/api/ide/v1/tool_text_to_video_stream"@,
            )
            &&& table::find(r.headers, "accept"@) == Some("text/event-stream"@)
            &&& table::find(r.headers, "app-version"@) == Some(client.version)
            &&& table::find(r.headers, "x-request-id"@) == Some(request_id)
            &&& trace.len() == 32 ==> table::find(r.headers, "x-custom-trace-id"@) == Some(trace)
        }),
        ({
            let r = upstream_request::resource_request(client, sender, trace);
            &&& r.url == client.host + "/api/ide/v1/get_resource_url"@
            &&& presents(r.headers, client, sender)
            &&& table::find(r.headers, "accept"@) == Some("*/*"@)
            &&& trace.len() == 32 ==> table::find(r.headers, "x-custom-trace-id"@) == Some(trace)
        }),
{
    broadcast use table::lemma_find_push;

    reveal_strlit("user-agent");
    reveal_strlit("x-ide-token");
    reveal_strlit("x-app-id");
    reveal_strlit("x-app-version");
    reveal_strlit("x-app-version-code");
    reveal_strlit("x-ide-version");
    reveal_strlit("x-ide-version-code");
    reveal_strlit("x-ide-version-type");
    reveal_strlit("x-device-type");
    reveal_strlit("x-device-brand");
    reveal_strlit("x-device-cpu");
    reveal_strlit("x-device-id");
    reveal_strlit("x-machine-id");
    reveal_strlit("x-os-version");
    reveal_strlit("request-traffic-type");
    reveal_strlit("package-type");
    reveal_strlit("x-lgw-req-sdk-type");
    reveal_strlit("x-lscbd-aid");
    reveal_strlit("x-lscbd-platform");
    reveal_strlit("x-ss-dp");
    reveal_strlit("app-version");
    reveal_strlit("content-type");
    reveal_strlit("accept");
    reveal_strlit("referer");
    reveal_strlit("accept-encoding");
    reveal_strlit("x-custom-trace-id");
    reveal_strlit("x-request-id");
    assert("user-agent"@.len() == 10);
    assert("x-ide-token"@.len() == 11);
    assert("x-app-id"@.len() == 8);
    assert("x-app-version"@.len() == 13);
    assert("x-app-version-code"@.len() == 18);
    assert("x-ide-version"@.len() == 13);
    assert("x-ide-version-code"@.len() == 18);
    assert("x-ide-version-type"@.len() == 18);
    assert("x-device-type"@.len() == 13);
    assert("x-device-brand"@.len() == 14);
    assert("x-device-cpu"@.len() == 12);
    assert("x-device-id"@.len() == 11);
    assert("x-machine-id"@.len() == 12);
    assert("x-os-version"@.len() == 12);
    assert("request-traffic-type"@.len() == 20);
    assert("package-type"@.len() == 12);
    assert("x-lgw-req-sdk-type"@.len() == 18);
    assert("x-lscbd-aid"@.len() == 11);
    assert("x-lscbd-platform"@.len() == 16);
    assert("x-ss-dp"@.len() == 7);
    assert("app-version"@.len() == 11);
    assert("content-type"@.len() == 12);
    assert("accept"@.len() == 6);
    assert("referer"@.len() == 7);
    assert("accept-encoding"@.len() == 15);
    assert("x-custom-trace-id"@.len() == 17);
    assert("x-request-id"@.len() == 12);
    assert("x-ide-token"@[2] != "x-device-id"@[2]);
    assert("x-ide-token"@[2] != "x-lscbd-aid"@[2]);
    assert("x-ide-token"@[0] != "app-version"@[0]);
    assert("x-app-version"@[2] != "x-ide-version"@[2]);
    assert("x-app-version"@[2] != "x-device-type"@[2]);
    assert("x-app-version-code"@[2] != "x-ide-version-code"@[2]);
    assert("x-app-version-code"@[2] != "x-ide-version-type"@[2]);
    assert("x-app-version-code"@[2] != "x-lgw-req-sdk-type"@[2]);
    assert("x-ide-version"@[2] != "x-device-type"@[2]);
    assert("x-ide-version-code"@[14] != "x-ide-version-type"@[14]);
    assert("x-ide-version-code"@[2] != "x-lgw-req-sdk-type"@[2]);
    assert("x-ide-version-type"@[2] != "x-lgw-req-sdk-type"@[2]);
    assert("x-device-cpu"@[2] != "x-machine-id"@[2]);
    assert("x-device-cpu"@[2] != "x-os-version"@[2]);
    assert("x-device-cpu"@[0] != "package-type"@[0]);
    assert("x-device-cpu"@[0] != "content-type"@[0]);
    assert("x-device-cpu"@[2] != "x-request-id"@[2]);
    assert("x-device-id"@[2] != "x-lscbd-aid"@[2]);
    assert("x-device-id"@[0] != "app-version"@[0]);
    assert("x-machine-id"@[2] != "x-os-version"@[2]);
    assert("x-machine-id"@[0] != "package-type"@[0]);
    assert("x-machine-id"@[0] != "content-type"@[0]);
    assert("x-machine-id"@[2] != "x-request-id"@[2]);
    assert("x-os-version"@[0] != "package-type"@[0]);
    assert("x-os-version"@[0] != "content-type"@[0]);
    assert("x-os-version"@[2] != "x-request-id"@[2]);
    assert("package-type"@[0] != "content-type"@[0]);
    assert("package-type"@[0] != "x-request-id"@[0]);
    assert("x-lscbd-aid"@[0] != "app-version"@[0]);
    assert("x-ss-dp"@[0] != "referer"@[0]);
    assert("content-type"@[0] != "x-request-id"@[0]);
}

/// The address of one video is asked for by its name.
pub proof fn law_the_address_of_a_video_is_asked_for(uri: Seq<char>)
    ensures
        ({
            let d = upstream_request::resource_question(uri);
            &&& d.get("uri_list"@) matches Some(JsonView::Array(list))
            &&& list.len() == 1 && list[0] == JsonView::Text(uri)
        }),
{
    broadcast use crate::json::group_members;

}

/// A refusal keeps its status and what was said, and tells how long to wait
/// where the upstream says so in seconds.
pub proof fn law_a_refusal_tells_how_long_to_wait(
    status: u16,
    body: Seq<char>,
    seconds: u64,
    value: Option<Seq<char>>,
)
    ensures
        upstream_request::refused(status, body, value).status == status,
        upstream_request::refused(status, body, value).message == body,
        upstream_request::refused(status, body, None).retry_after is None,
        upstream_request::refused(
            status,
            body,
            Some(text::decimal(seconds as nat)),
        ).retry_after == Some(seconds),
{
    let said = text::decimal(seconds as nat);
    text_laws::law_decimal_digits_say_the_number(seconds as nat);
    lemma_decimal_digits(seconds as nat);
    text_laws::law_trimming_takes_white_space_alone(said);
    reveal_strlit("+");
    assert("+"@.len() == 1 && "+"@[0] == '+');
    if text::starts_with(said, "+"@) {
        assert(said.subrange(0, 1)[0] == '+');
    }
}

proof fn lemma_decimal_digits(n: nat)
    ensures
        text::decimal(n).len() > 0,
        video_billing::all_digits(text::decimal(n)),
    decreases n,
{
    if n < 10 {
        assert(text::digit_char(n) as int == 48 + n);
    } else {
        lemma_decimal_digits(n / 10);
        assert(text::digit_char(n % 10) as int == 48 + n % 10);
    }
}

/// What kept a request from the upstream is told with the words of the failure,
/// and with the host where it is the host that could not be found or reached.
pub proof fn law_a_failure_is_told_in_its_words(host: Seq<char>, error: Seq<char>)
    ensures
        ({
            let told = upstream_request::diagnosis(host, error);
            let unresolved = text::contains(error, "dns"@) || text::contains(error, "resolve"@)
                || text::contains(error, "name resolution"@);
            let late = text::contains(error, "timed out"@) || text::contains(error, "timeout"@);
            let untrusted = text::contains(error, "tls"@) || text::contains(error, "certificate"@)
                || text::contains(error, "ssl"@);
            &&& text::ends_with(told, error)
            &&& unresolved ==> text::starts_with(told, "DNS解析失败（"@ + host)
            &&& !unresolved && late ==> text::starts_with(told, "连接超时（"@ + host)
            &&& !unresolved && !late && untrusted ==> text::starts_with(told, "TLS"@)
            &&& !unresolved && !late && !untrusted ==> text::starts_with(told, "传输错误"@)
        }),
{
    let told = upstream_request::diagnosis(host, error);
    reveal_strlit("TLS");
    reveal_strlit("TLS证书验证失败: ");
    reveal_strlit("传输错误");
    reveal_strlit("传输错误: ");
    assert(told.subrange(told.len() - error.len(), told.len() as int) =~= error);
    let dns = "DNS解析失败（"@ + host;
    let late = "连接超时（"@ + host;
    if text::contains(error, "dns"@) || text::contains(error, "resolve"@) || text::contains(
        error,
        "name resolution"@,
    ) {
        assert(told.subrange(0, dns.len() as int) =~= dns);
    } else if text::contains(error, "timed out"@) || text::contains(error, "timeout"@) {
        assert(told.subrange(0, late.len() as int) =~= late);
    } else if text::contains(error, "tls"@) || text::contains(error, "certificate"@)
        || text::contains(error, "ssl"@) {
        assert(told.subrange(0, 3) =~= "TLS"@);
    } else {
        assert(told.subrange(0, 4) =~= "传输错误"@);
    }
}

/// An amount of credits keeps its value in the form with six decimal places: no
/// zeros stand before it, and zeros fill it up behind.
pub proof fn law_an_amount_keeps_its_value(
    zeros: Seq<char>,
    whole: Seq<char>,
    fraction: Seq<char>,
    number: crate::json::NumberView,
)
    requires
        forall|i: int| 0 <= i < zeros.len() ==> #[trigger] zeros[i] == '0',
        video_billing::all_digits(whole),
        video_billing::all_digits(fraction),
        whole.len() > 0 ==> whole[0] != '0',
        0 < zeros.len() + whole.len() <= 24,
        0 < fraction.len() <= 6,
        number.text == zeros + whole + "."@ + fraction,
        text::byte_len(number.text) <= 64,
    ensures
        video_billing::credit_amount(JsonView::Number(number)) matches Some(amount) && {
            let kept = if whole.len() > 0 {
                whole
            } else {
                "0"@
            };
            &&& amount.len() == kept.len() + 7
            &&& amount.subrange(0, kept.len() as int) == kept
            &&& amount[kept.len() as int] == '.'
            &&& amount.subrange(kept.len() + 1int, kept.len() + 1int + fraction.len()) == fraction
            &&& forall|i: int|
                kept.len() + 1 + fraction.len() <= i < amount.len() ==> #[trigger] amount[i] == '0'
        },
{
    reveal_strlit(".");
    reveal_strlit("0");
    assert("."@.len() == 1 && "."@[0] == '.');
    assert("0"@.len() == 1 && "0"@[0] == '0');
    let raw = number.text;
    let front = zeros + whole;
    let n = front.len() as int;
    assert(raw[n] == '.');
    assert(raw.contains('.'));
    assert forall|i: int| 0 <= i < raw.len() && i != n implies '0' <= #[trigger] raw[i] <= '9' by {
        if i < zeros.len() {
            assert(raw[i] == zeros[i]);
        } else if i < n {
            assert(raw[i] == whole[i - zeros.len()]);
        } else {
            assert(raw[i] == fraction[i - n - 1]);
        }
    }
    lemma_index_is(raw, '.', n);
    assert(raw.subrange(0, n) =~= front);
    assert(raw.subrange(n + 1, raw.len() as int) =~= fraction);
    assert forall|i: int| 0 <= i < front.len() implies '0' <= #[trigger] front[i] <= '9' by {
        assert(raw[i] == front[i]);
    }
    lemma_strip_zeros(zeros, whole);
    lemma_six_digits(fraction);
    let kept = if whole.len() > 0 {
        whole
    } else {
        "0"@
    };
    let amount = kept + "."@ + video_billing::six_digits(fraction);
    assert(video_billing::credit_amount(JsonView::Number(number)) == Some(amount));
    assert(amount.subrange(0, kept.len() as int) =~= kept);
    assert(amount.subrange(kept.len() + 1int, kept.len() + 1int + fraction.len()) =~= fraction);
    assert forall|i: int| kept.len() + 1 + fraction.len() <= i < amount.len() implies
        #[trigger] amount[i] == '0' by {
        assert(amount[i] == video_billing::six_digits(fraction)[i - kept.len() - 1]);
    }
}

proof fn lemma_index_is(s: Seq<char>, c: char, n: int)
    requires
        0 <= n < s.len(),
        s[n] == c,
        forall|i: int| 0 <= i < n ==> #[trigger] s[i] != c,
    ensures
        text::index_of_char(s, c) == n,
    decreases n,
{
    if n > 0 {
        let rest = s.subrange(1, s.len() as int);
        assert forall|i: int| 0 <= i < n - 1 implies #[trigger] rest[i] != c by {
            assert(rest[i] == s[i + 1]);
        }
        lemma_index_is(rest, c, n - 1);
        assert(s[0] != c);
    }
}

proof fn lemma_strip_zeros(zeros: Seq<char>, whole: Seq<char>)
    requires
        forall|i: int| 0 <= i < zeros.len() ==> #[trigger] zeros[i] == '0',
        whole.len() > 0 ==> whole[0] != '0',
    ensures
        text::strip_all(zeros + whole, "0"@) == whole,
    decreases zeros.len(),
{
    reveal_strlit("0");
    assert("0"@.len() == 1 && "0"@[0] == '0');
    let s = zeros + whole;
    if zeros.len() == 0 {
        assert(s =~= whole);
        if text::starts_with(s, "0"@) {
            assert(s.subrange(0, 1)[0] == '0');
        }
    } else {
        assert(s.subrange(0, 1) =~= "0"@);
        let rest = zeros.subrange(1, zeros.len() as int);
        assert forall|i: int| 0 <= i < rest.len() implies #[trigger] rest[i] == '0' by {
            assert(rest[i] == zeros[i + 1]);
        }
        lemma_strip_zeros(rest, whole);
        assert(s.subrange(1, s.len() as int) =~= rest + whole);
    }
}

proof fn lemma_six_digits(digits: Seq<char>)
    requires
        digits.len() <= 6,
    ensures
        ({
            let six = video_billing::six_digits(digits);
            &&& six.len() == 6 && six.subrange(0, digits.len() as int) == digits
            &&& forall|i: int| digits.len() <= i < 6 ==> #[trigger] six[i] == '0'
        }),
    decreases 6 - digits.len(),
{
    let six = video_billing::six_digits(digits);
    if digits.len() < 6 {
        let more = digits.push('0');
        lemma_six_digits(more);
        let known = six.subrange(0, more.len() as int);
        assert forall|i: int| 0 <= i < digits.len() implies six[i] == digits[i] by {
            assert(known[i] == more[i]);
        }
        assert(known[digits.len() as int] == '0');
        assert(six.subrange(0, digits.len() as int) =~= digits);
    } else {
        assert(six.subrange(0, digits.len() as int) =~= digits);
    }
}

/// What is no plain decimal fraction is no amount: a sign, an exponent, no
/// point, or anything that is no number and no text.
pub proof fn law_only_plain_fractions_are_amounts(value: JsonView)
    ensures
        video_billing::credit_amount(value) is Some ==> {
            &&& value is Number || value is Text
            &&& video_billing::amount_text(value) matches Some(raw)
            &&& raw.contains('.') && !raw.contains('e') && !raw.contains('E') && raw[0] != '-'
        },
{
}

/// The receipt of a document is decided by the first place in it that states the
/// usage of the task in credits and could be a charge; where there is none it is
/// unverified if some place speaks of a charge, and absent if none does.
pub proof fn law_a_receipt_is_decided_by_the_first_statement(
    objects: Seq<JsonView>,
    i: nat,
    k: nat,
    seen: bool,
    task_id: Seq<char>,
    exponent: bool,
    observed_at_ms: u64,
)
    requires
        i <= k <= objects.len(),
        forall|j: int|
            i <= j < k ==> !(names_usage(#[trigger] objects[j], task_id) && (exponent
                || video_billing::states_amount(objects[j]))),
        k < objects.len() ==> names_usage(objects[k as int], task_id) && (exponent
            || video_billing::states_amount(objects[k as int])),
    ensures
        ({
            let r = video_billing::receipt_from(
                objects,
                i,
                seen,
                task_id,
                exponent,
                observed_at_ms,
            );
            let spoken = seen || exists|j: int|
                i <= j < objects.len() && video_billing::speaks_of_charge(#[trigger] objects[j]);
            &&& r.actual_credits is None
            &&& k < objects.len() ==> r.status == BillingStatus::Unverified && r.observed_at_ms
                == observed_at_ms
            &&& k < objects.len() && exponent ==> r.task_ref is None && r.unit is None
            &&& k < objects.len() && !exponent ==> r.task_ref == Some(task_id) && r.unit == Some(
                "credits"@,
            )
            &&& k == objects.len() && spoken ==> r.status == BillingStatus::Unverified && r.task_ref
                is None && r.unit is None && r.observed_at_ms == observed_at_ms
            &&& k == objects.len() && !spoken ==> r.status == BillingStatus::Absent && r.task_ref
                is None && r.unit is None && r.source is None
        }),
    decreases objects.len() - i,
{
    if i < objects.len() {
        let object = objects[i as int];
        let told = seen || video_billing::speaks_of_charge(object);
        if i < k {
            law_a_receipt_is_decided_by_the_first_statement(
                objects,
                i + 1,
                k,
                told,
                task_id,
                exponent,
                observed_at_ms,
            );
        }
    }
}

/// The document names the task and states its usage in credits.
pub open spec fn names_usage(object: JsonView, task_id: Seq<char>) -> bool {
    &&& object.text_at("task_id"@) == Some(task_id) || (object.text_at("task_id"@) is None
        && object.text_at("task_ref"@) == Some(task_id))
    &&& object.get("usage"@) matches Some(usage) && usage is Object && usage.text_at("unit"@)
        == Some("credits"@)
}

/// A charge may be stated in the document itself and in the objects under four
/// names, in that order, and nowhere else.
pub proof fn law_a_charge_is_stated_in_five_places(value: JsonView, i: int)
    ensures
        ({
            let all = video_billing::charge_documents(value);
            &&& all.len() >= 1 && all[0] == value
            &&& 0 < i < all.len() ==> all[i] is Object && (value.get("data"@) == Some(all[i])
                || value.get("result"@) == Some(all[i]) || value.get("output"@) == Some(all[i])
                || value.get("video"@) == Some(all[i]))
            &&& value.get("data"@) matches Some(d) ==> (d is Object ==> all.len() > 1 && all[1] == d)
            &&& value.get("video"@) matches Some(d) ==> (d is Object ==> all.last() == d)
            &&& value.get("result"@) matches Some(d) ==> (d is Object ==> all.contains(d))
            &&& value.get("output"@) matches Some(d) ==> (d is Object ==> all.contains(d))
        }),
{
    let one = seq![value];
    let two = video_billing::nested(one, value, "data"@);
    let three = video_billing::nested(two, value, "result"@);
    let four = video_billing::nested(three, value, "output"@);
    let all = video_billing::charge_documents(value);
    assert(three.len() > 0 && four.len() > 0);
    assert(forall|j: int| 0 <= j < two.len() ==> #[trigger] all[j] == two[j]);
    assert(forall|j: int| 0 <= j < three.len() ==> #[trigger] all[j] == three[j]);
    assert(forall|j: int| 0 <= j < four.len() ==> #[trigger] all[j] == four[j]);
    assert(all[three.len() - 1] == three.last());
    assert(all[four.len() - 1] == four.last());
}

/// An amount that is written with an exponent is noticed, wherever in the text
/// it stands behind its name; a text that never names an amount has none.
pub proof fn law_an_exponent_is_noticed(before: Seq<char>, value: Seq<char>, after: Seq<char>)
    requires
        !before.contains('"'),
        !value.contains(','),
        !value.contains('}'),
        value.contains('e'),
    ensures
        video_billing::exponent_behind_credits(
            before + "\"credits\":"@ + value + ","@ + after,
        ),
        video_billing::exponent_behind_credits(
            before + "\"credits\":"@ + value + "}"@ + after,
        ),
        !video_billing::exponent_behind_credits(before),
{
    reveal_strlit(",");
    reveal_strlit("}");
    assert(","@.len() == 1 && ","@[0] == ',' && "}"@.len() == 1 && "}"@[0] == '}');
    lemma_exponent(before, value, ","@ + after);
    lemma_exponent(before, value, "}"@ + after);
    assert(before + "\"credits\":"@ + value + (","@ + after) =~= before + "\"credits\":"@ + value
        + ","@ + after);
    assert(before + "\"credits\":"@ + value + ("}"@ + after) =~= before + "\"credits\":"@ + value
        + "}"@ + after);
    lemma_no_name(before);
}

proof fn lemma_exponent(before: Seq<char>, value: Seq<char>, rest: Seq<char>)
    requires
        !before.contains('"'),
        !value.contains(','),
        !value.contains('}'),
        value.contains('e'),
        rest.len() > 0,
        rest[0] == ',' || rest[0] == '}',
    ensures
        video_billing::exponent_behind_credits(before + "\"credits\":"@ + value + rest),
{
    reveal_strlit("\"credits\":");
    reveal_strlit("\"credits\"");
    reveal_strlit(":");
    let s = before + "\"credits\":"@ + value + rest;
    let tail = ":"@ + (value + rest);
    assert("\"credits\":"@ =~= "\"credits\""@ + ":"@);
    assert(s =~= before + ("\"credits\""@ + tail));
    lemma_after(before, "\"credits\""@, tail);
    assert(tail.subrange(0, 1) =~= ":"@);
    assert(tail.subrange(1, tail.len() as int) =~= value + rest);
    lemma_value_ends(value, rest);
    assert((value + rest).subrange(0, value.len() as int) =~= value);
}

proof fn lemma_after(before: Seq<char>, name: Seq<char>, tail: Seq<char>)
    requires
        !before.contains('"'),
        name.len() > 0,
        name[0] == '"',
    ensures
        text::after_first(before + (name + tail), name) == Some(tail),
    decreases before.len(),
{
    let s = before + (name + tail);
    if before.len() == 0 {
        assert(s.subrange(0, name.len() as int) =~= name);
        assert(s.subrange(name.len() as int, s.len() as int) =~= tail);
    } else {
        assert(s[0] == before[0] && before.contains(before[0]));
        if text::starts_with(s, name) {
            assert(s.subrange(0, name.len() as int)[0] == s[0]);
        }
        let less = before.subrange(1, before.len() as int);
        assert forall|i: int| 0 <= i < less.len() implies #[trigger] less[i] != '"' by {
            assert(less[i] == before[i + 1]);
            assert(before.contains(before[i + 1]));
        }
        lemma_after(less, name, tail);
        assert(s.subrange(1, s.len() as int) =~= less + (name + tail));
    }
}

proof fn lemma_value_ends(value: Seq<char>, rest: Seq<char>)
    requires
        !value.contains(','),
        !value.contains('}'),
        rest.len() > 0,
        rest[0] == ',' || rest[0] == '}',
    ensures
        video_billing::value_end(value + rest) == value.len(),
    decreases value.len(),
{
    let s = value + rest;
    if value.len() > 0 {
        assert(s[0] == value[0] && value.contains(value[0]));
        let less = value.subrange(1, value.len() as int);
        assert forall|c: char| #[trigger] less.contains(c) implies value.contains(c) by {
            let i = choose|i: int| 0 <= i < less.len() && less[i] == c;
            assert(value[i + 1] == c);
        }
        lemma_value_ends(less, rest);
        assert(s.subrange(1, s.len() as int) =~= less + rest);
    }
}

proof fn lemma_no_name(s: Seq<char>)
    requires
        !s.contains('"'),
    ensures
        text::after_first(s, "\"credits\""@) is None,
    decreases s.len(),
{
    reveal_strlit("\"credits\"");
    assert("\"credits\""@.len() == 9 && "\"credits\""@[0] == '"');
    if text::starts_with(s, "\"credits\""@) {
        assert(s.subrange(0, 9)[0] == s[0]);
        assert(s.contains(s[0]));
    }
    if s.len() > 0 {
        let less = s.subrange(1, s.len() as int);
        assert forall|i: int| 0 <= i < less.len() implies #[trigger] less[i] != '"' by {
            assert(less[i] == s[i + 1]);
            assert(s.contains(s[i + 1]));
        }
        lemma_no_name(less);
    }
}

/// The number that the bytes make, the lowest first.
pub open spec fn number_of(bytes: Seq<u8>) -> nat
    decreases bytes.len(),
{
    if bytes.len() == 0 {
        0
    } else {
        bytes[0] as nat + 256 * number_of(bytes.subrange(1, bytes.len() as int))
    }
}

/// As many numbers as so many bytes can make.
pub open spec fn numbers(count: nat) -> nat
    decreases count,
{
    if count == 0 {
        1
    } else {
        256 * numbers((count - 1) as nat)
    }
}

/// The bytes of a number make the number again.
pub proof fn law_bytes_make_their_number(n: nat, count: nat)
    requires
        n < numbers(count),
    ensures
        upstream_request::low_bytes(n, count).len() == count,
        number_of(upstream_request::low_bytes(n, count)) == n,
    decreases count,
{
    if count > 0 {
        law_bytes_make_their_number(n / 256, (count - 1) as nat);
        let bytes = upstream_request::low_bytes(n, count);
        let rest = upstream_request::low_bytes(n / 256, (count - 1) as nat);
        assert(bytes.subrange(1, bytes.len() as int) =~= rest);
        assert(bytes[0] == (n % 256) as u8);
    }
}

/// Two moments have two ids.
pub proof fn law_two_moments_have_two_ids(a: u64, b: u64)
    requires
        upstream_request::clock_id(a) == upstream_request::clock_id(b),
    ensures
        a == b,
{
    reveal_with_fuel(numbers, 9);
    assert(numbers(8) == 0x1_0000_0000_0000_0000);
    let x = upstream_request::id_seed(a);
    let y = upstream_request::id_seed(b);
    let first = upstream_request::low_bytes(x as nat, 8);
    let second = upstream_request::low_bytes(y as nat, 8);
    law_bytes_make_their_number(x as nat, 8);
    law_bytes_make_their_number(y as nat, 8);
    let u = first + upstream_request::low_bytes(
        ((x + 0x9e3779b97f4a7c15) % 0x1_0000_0000_0000_0000) as nat,
        8,
    );
    let v = second + upstream_request::low_bytes(
        ((y + 0x9e3779b97f4a7c15) % 0x1_0000_0000_0000_0000) as nat,
        8,
    );
    assert forall|i: int| 0 <= i < 8 implies first[i] == second[i] by {
        text_laws::law_hexadecimal_digits_say_the_bytes(u, i);
        text_laws::law_hexadecimal_digits_say_the_bytes(v, i);
        assert(u[i] == first[i] && v[i] == second[i]);
    }
    assert(first =~= second);
    lemma_seeds(a as int, b as int);
}

proof fn lemma_seeds(a: int, b: int)
    requires
        0 <= a < 0x1_0000_0000_0000_0000,
        0 <= b < 0x1_0000_0000_0000_0000,
        (a * 0x517cc1b727220a95) % 0x1_0000_0000_0000_0000 == (b * 0x517cc1b727220a95)
            % 0x1_0000_0000_0000_0000,
    ensures
        a == b,
{
    let m: int = 0x1_0000_0000_0000_0000;
    let c: int = 0x517cc1b727220a95;
    let p = (a * c) / m;
    let q = (b * c) / m;
    vstd::arithmetic::div_mod::lemma_fundamental_div_mod(a * c, m);
    vstd::arithmetic::div_mod::lemma_fundamental_div_mod(b * c, m);
    let d = a - b;
    let k = p - q;
    assert(a * c - b * c == m * p - m * q);
    assert(d * c == m * k) by (nonlinear_arith)
        requires
            a * c - b * c == m * p - m * q,
            d == a - b,
            k == p - q,
    ;
    // The constant has an inverse: their product is one more than a multiple of `m`.
    let inverse: int = 2323857671730065597;
    let over: int = 739706870995725965;
    assert(c * inverse == 1 + over * m) by (nonlinear_arith)
        requires
            c == 0x517cc1b727220a95,
            inverse == 2323857671730065597,
            over == 739706870995725965,
            m == 0x1_0000_0000_0000_0000,
    ;
    let t = k * inverse - d * over;
    assert(d == m * t) by (nonlinear_arith)
        requires
            d * c == m * k,
            c * inverse == 1 + over * m,
            t == k * inverse - d * over,
    {
        assert(d * c * inverse == d * (1 + over * m));
        assert(d * c * inverse == m * k * inverse);
    }
    assert(t == 0) by (nonlinear_arith)
        requires
            d == m * t,
            -m < d < m,
            m > 0,
    ;
}

/// A text gives the receipt that its document gives; one that is no document
/// gives an error.
pub proof fn law_a_text_gives_the_receipt_of_its_document(
    parsed: Result<JsonView, Seq<char>>,
    data: Seq<char>,
    task_id: Seq<char>,
    observed_at_ms: u64,
)
    ensures
        ({
            let r = video_billing::receipt_of_text(parsed, data, task_id, observed_at_ms);
            &&& r is Ok == parsed is Ok
            &&& r matches Err(told) ==> text::ends_with(told, parsed->Err_0)
            &&& r matches Ok(receipt) ==> receipt == video_billing::receipt_of(
                parsed->Ok_0,
                task_id,
                video_billing::exponent_behind_credits(text::lower(data)),
                observed_at_ms,
            )
        }),
{
    if let Err(error) = parsed {
        let told = "billing receipt JSON 无效: "@ + error;
        assert(told.subrange(told.len() - error.len(), told.len() as int) =~= error);
    }
}

} // verus!
