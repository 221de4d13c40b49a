//! The requests that the gateway sends upstream, and what their failures mean.

use crate::json::{Json, JsonView};
use crate::text;
use vstd::prelude::*;

verus! {

/// Headers in the order in which they are set.
#[derive(Debug)]
pub struct Headers {
    pub list: Vec<(String, String)>,
}

impl View for Headers {
    type V = Seq<(Seq<char>, Seq<char>)>;

    open spec fn view(&self) -> Seq<(Seq<char>, Seq<char>)> {
        Seq::new(self.list@.len(), |i: int| (self.list@[i].0@, self.list@[i].1@))
    }
}

/// No headers.
pub open spec fn no_headers() -> Seq<(Seq<char>, Seq<char>)> {
    Seq::empty()
}

impl Headers {
    /// No headers.
    pub fn none() -> (r: Headers)
        ensures
            r@ == no_headers(),
    {
        let r = Headers { list: Vec::new() };
        assert(r@ =~= no_headers());
        r
    }

    /// One header more.
    pub fn and(self, name: &str, value: &str) -> (r: Headers)
        ensures
            r@ == self@.push((name@, value@)),
    {
        let ghost before = self@;
        let mut list = self.list;
        list.push((name.to_owned(), value.to_owned()));
        let r = Headers { list };
        assert(r@ =~= before.push((name@, value@)));
        r
    }
}

/// How the gateway presents itself: the host of the upstream, the address that
/// requests refer to, and the application with its version.
#[derive(Debug)]
pub struct Client {
    pub host: String,
    pub referer_base: String,
    pub app_id: String,
    pub version: String,
    pub version_code: String,
}

/// The model of a [`Client`].
pub struct ClientView {
    pub host: Seq<char>,
    pub referer_base: Seq<char>,
    pub app_id: Seq<char>,
    pub version: Seq<char>,
    pub version_code: Seq<char>,
}

impl View for Client {
    type V = ClientView;

    open spec fn view(&self) -> ClientView {
        ClientView {
            host: self.host@,
            referer_base: self.referer_base@,
            app_id: self.app_id@,
            version: self.version@,
            version_code: self.version_code@,
        }
    }
}

/// Who a request is sent for: the token and the machine of the account.
#[derive(Debug)]
pub struct Sender {
    pub jwt: String,
    pub device_id: String,
    pub machine_id: String,
}

/// The model of a [`Sender`].
pub struct SenderView {
    pub jwt: Seq<char>,
    pub device_id: Seq<char>,
    pub machine_id: Seq<char>,
}

impl View for Sender {
    type V = SenderView;

    open spec fn view(&self) -> SenderView {
        SenderView {
            jwt: self.jwt@,
            device_id: self.device_id@,
            machine_id: self.machine_id@,
        }
    }
}

/// A request: where it goes, and its headers.
#[derive(Debug)]
pub struct UpstreamRequest {
    pub url: String,
    pub headers: Headers,
}

/// The model of an [`UpstreamRequest`].
pub struct UpstreamRequestView {
    pub url: Seq<char>,
    pub headers: Seq<(Seq<char>, Seq<char>)>,
}

impl View for UpstreamRequest {
    type V = UpstreamRequestView;

    open spec fn view(&self) -> UpstreamRequestView {
        UpstreamRequestView { url: self.url@, headers: self.headers@ }
    }
}

/// The bytes of a number, the lowest first.
pub open spec fn low_bytes(n: nat, count: nat) -> Seq<u8>
    decreases count,
{
    if count == 0 {
        Seq::empty()
    } else {
        seq![(n % 256) as u8] + low_bytes(n / 256, (count - 1) as nat)
    }
}

fn push_low_bytes(to: &mut Vec<u8>, n: u64)
    ensures
        final(to)@ == old(to)@ + low_bytes(n as nat, 8),
{
    let ghost start = to@;
    let mut rest: u64 = n;
    let mut i: u64 = 0;
    assert(start + low_bytes(n as nat, 8) =~= to@ + low_bytes(rest as nat, 8));
    while i < 8
        invariant
            i <= 8,
            start + low_bytes(n as nat, 8) == to@ + low_bytes(rest as nat, (8 - i) as nat),
        decreases 8 - i,
    {
        let ghost before = to@;
        let ghost tail = low_bytes((rest / 256) as nat, (7 - i) as nat);
        let byte: u8 = (rest % 256) as u8;
        to.push(byte);
        assert(before + (seq![byte] + tail) =~= to@ + tail);
        rest = rest / 256;
        i = i + 1;
    }
    assert(to@ + low_bytes(rest as nat, 0) =~= to@);
}

/// The number that an id is made of.
pub open spec fn id_seed(nanos: u64) -> u64 {
    ((nanos * 0x517cc1b727220a95) % 0x1_0000_0000_0000_0000) as u64
}

/// An id in the form of a UUID without hyphens, out of the clock.
pub open spec fn clock_id(nanos: u64) -> Seq<char> {
    let seed = id_seed(nanos);
    let second = ((seed + 0x9e3779b97f4a7c15) % 0x1_0000_0000_0000_0000) as nat;
    text::hex(low_bytes(seed as nat, 8) + low_bytes(second, 8))
}

/// An id in the form of a UUID without hyphens, out of the clock.
pub fn uuid_like_id(nanos: u64) -> (r: String)
    ensures
        r@ == clock_id(nanos),
        r@.len() == 32,
{
    let product: u128 = nanos as u128 * 0x517cc1b727220a95u128;
    let seed: u64 = (product % 0x1_0000_0000_0000_0000u128) as u64;
    let sum: u128 = seed as u128 + 0x9e3779b97f4a7c15u128;
    let second: u64 = (sum % 0x1_0000_0000_0000_0000u128) as u64;
    let mut bytes: Vec<u8> = Vec::new();
    push_low_bytes(&mut bytes, seed);
    assert(bytes@ =~= low_bytes(seed as nat, 8));
    push_low_bytes(&mut bytes, second);
    proof {
        lemma_low_bytes(seed as nat, 8);
        lemma_low_bytes(second as nat, 8);
    }
    text::hex_text(bytes.as_slice())
}

proof fn lemma_low_bytes(n: nat, count: nat)
    ensures
        low_bytes(n, count).len() == count,
    decreases count,
{
    if count > 0 {
        lemma_low_bytes(n / 256, (count - 1) as nat);
    }
}

/// The trace that two ids make.
pub open spec fn trace(first: Seq<char>, second: Seq<char>) -> Seq<char> {
    "00-"@ + first + "-"@ + second + "-01"@
}

/// The ids of a chat request: two of its trace, one of the step in it, and one
/// of the request.
#[derive(Debug)]
pub struct TraceIds {
    pub first: String,
    pub second: String,
    pub step: String,
    pub request: String,
}

/// The model of [`TraceIds`].
pub struct TraceView {
    pub first: Seq<char>,
    pub second: Seq<char>,
    pub step: Seq<char>,
    pub request: Seq<char>,
}

impl View for TraceIds {
    type V = TraceView;

    open spec fn view(&self) -> TraceView {
        TraceView {
            first: self.first@,
            second: self.second@,
            step: self.step@,
            request: self.request@,
        }
    }
}

/// A chat request.
pub open spec fn chat_request(
    client: ClientView,
    endpoint: Seq<char>,
    sender: SenderView,
    ids: TraceView,
) -> UpstreamRequestView {
    let trace = trace(ids.first, ids.second);
    UpstreamRequestView {
        url: client.host + endpoint,
        headers: no_headers().push(("content-type"@, "application/json"@)).push(
            ("accept"@, "*/*"@),
        ).push(("accept-encoding"@, "gzip, deflate, br, zstd"@)).push(
            ("user-agent"@, "TraeClient/TTNet"@),
        ).push(("x-ide-token"@, sender.jwt)).push(("x-app-id"@, client.app_id)).push(
            ("x-app-version"@, "default"@),
        ).push(("x-app-version-code"@, client.version_code)).push(
            ("x-ide-version"@, client.version),
        ).push(("x-ide-version-code"@, client.version_code)).push(
            ("x-ide-version-type"@, "stable"@),
        ).push(("x-device-type"@, "windows"@)).push(("x-device-brand"@, "CREFG-XX"@)).push(
            ("x-device-cpu"@, "Intel"@),
        ).push(("x-device-id"@, sender.device_id)).push(
            ("x-machine-id"@, sender.machine_id),
        ).push(("x-os-version"@, "Windows 11 Home China"@)).push(
            ("request-traffic-type"@, "prod"@),
        ).push(("package-type"@, "stable_cn"@)).push(("x-lgw-req-sdk-type"@, "3"@)).push(
            ("x-lscbd-aid"@, "787976"@),
        ).push(("x-lscbd-platform"@, "windows"@)).push(("x-ss-dp"@, "787976"@)).push(
            ("app-version"@, client.version),
        ).push(("x-custom-trace-id"@, trace.subrange(0, 16))).push(
            (
                "x-flow-traceparent"@,
                "04-"@ + trace.subrange(3, 35) + "-"@ + ids.step + "-01"@,
            ),
        ).push(("x-tt-trace-id"@, trace)).push(("x-request-id"@, "req_"@ + ids.request)).push(
            ("referer"@, client.referer_base + endpoint),
        ),
    }
}

/// A chat request.
pub fn make_upstream_request(client: &Client, endpoint: &str, sender: &Sender, ids: &TraceIds) -> (r:
    UpstreamRequest)
    requires
        ids@.first.len() == 32,
        ids@.second.len() == 32,
    ensures
        r@ == chat_request(client@, endpoint@, sender@, ids@),
{
    let head = text::join3("00-", ids.first.as_str(), "-");
    let trace = text::join3(head.as_str(), ids.second.as_str(), "-01");
    proof {
        reveal_strlit("00-");
        reveal_strlit("-");
        reveal_strlit("-01");
    }
    let chars = text::chars_of(trace.as_str());
    let short = text::string_of(&chars, 0, 16);
    let middle = text::string_of(&chars, 3, 35);
    let parent_head = text::join3("04-", middle.as_str(), "-");
    let parent = text::join3(parent_head.as_str(), ids.step.as_str(), "-01");
    let url = text::join2(client.host.as_str(), endpoint);
    let referer = text::join2(client.referer_base.as_str(), endpoint);
    let request_id = text::join2("req_", ids.request.as_str());
    let headers = Headers::none().and("content-type", "application/json").and("accept", "*/*").and(
        "accept-encoding",
        "gzip, deflate, br, zstd",
    ).and("user-agent", "TraeClient/TTNet").and("x-ide-token", sender.jwt.as_str()).and(
        "x-app-id",
        client.app_id.as_str(),
    ).and("x-app-version", "default").and("x-app-version-code", client.version_code.as_str()).and(
        "x-ide-version",
        client.version.as_str(),
    ).and("x-ide-version-code", client.version_code.as_str()).and(
        "x-ide-version-type",
        "stable",
    ).and("x-device-type", "windows").and("x-device-brand", "CREFG-XX").and(
        "x-device-cpu",
        "Intel",
    ).and("x-device-id", sender.device_id.as_str()).and(
        "x-machine-id",
        sender.machine_id.as_str(),
    ).and("x-os-version", "Windows 11 Home China").and("request-traffic-type", "prod").and(
        "package-type",
        "stable_cn",
    ).and("x-lgw-req-sdk-type", "3").and("x-lscbd-aid", "787976").and(
        "x-lscbd-platform",
        "windows",
    ).and("x-ss-dp", "787976").and("app-version", client.version.as_str()).and(
        "x-custom-trace-id",
        short.as_str(),
    ).and("x-flow-traceparent", parent.as_str()).and("x-tt-trace-id", trace.as_str()).and(
        "x-request-id",
        request_id.as_str(),
    ).and("referer", referer.as_str());
    UpstreamRequest { url, headers }
}

/// The headers by which the native client is known.
pub open spec fn native_headers(
    client: ClientView,
    sender: SenderView,
    start: Seq<(Seq<char>, Seq<char>)>,
) -> Seq<(Seq<char>, Seq<char>)> {
    start.push(("user-agent"@, "TraeClient/TTNet"@)).push(("x-ide-token"@, sender.jwt)).push(
        ("x-app-id"@, client.app_id),
    ).push(("x-app-version"@, "default"@)).push(
        ("x-app-version-code"@, client.version_code),
    ).push(("x-ide-version"@, client.version)).push(
        ("x-ide-version-code"@, client.version_code),
    ).push(("x-ide-version-type"@, "stable"@)).push(("x-device-type"@, "windows"@)).push(
        ("x-device-brand"@, "H610E-B"@),
    ).push(("x-device-cpu"@, "Intel"@)).push(("x-device-id"@, sender.device_id)).push(
        ("x-machine-id"@, sender.machine_id),
    ).push(("x-os-version"@, "Windows 10 Pro"@)).push(("request-traffic-type"@, "prod"@)).push(
        ("package-type"@, "stable_cn"@),
    ).push(("x-lgw-req-sdk-type"@, "3"@)).push(("x-lscbd-aid"@, "787976"@)).push(
        ("x-lscbd-platform"@, "windows"@),
    ).push(("x-ss-dp"@, "787976"@)).push(("app-version"@, client.version))
}

fn with_native(client: &Client, sender: &Sender, start: Headers) -> (r: Headers)
    ensures
        r@ == native_headers(client@, sender@, start@),
{
    start.and("user-agent", "TraeClient/TTNet").and("x-ide-token", sender.jwt.as_str()).and(
        "x-app-id",
        client.app_id.as_str(),
    ).and("x-app-version", "default").and("x-app-version-code", client.version_code.as_str()).and(
        "x-ide-version",
        client.version.as_str(),
    ).and("x-ide-version-code", client.version_code.as_str()).and(
        "x-ide-version-type",
        "stable",
    ).and("x-device-type", "windows").and("x-device-brand", "H610E-B").and(
        "x-device-cpu",
        "Intel",
    ).and("x-device-id", sender.device_id.as_str()).and(
        "x-machine-id",
        sender.machine_id.as_str(),
    ).and("x-os-version", "Windows 10 Pro").and("request-traffic-type", "prod").and(
        "package-type",
        "stable_cn",
    ).and("x-lgw-req-sdk-type", "3").and("x-lscbd-aid", "787976").and(
        "x-lscbd-platform",
        "windows",
    ).and("x-ss-dp", "787976").and("app-version", client.version.as_str())
}

/// A request of the native client for a step of an upload.
pub open spec fn upload_request(client: ClientView, sender: SenderView, path: Seq<char>) -> UpstreamRequestView {
    UpstreamRequestView {
        url: client.host + path,
        headers: native_headers(
            client,
            sender,
            no_headers().push(("content-type"@, "application/json"@)).push(("accept"@, "*/*"@)),
        ).push(("referer"@, client.referer_base + path)),
    }
}

/// A request of the native client for a step of an upload.
pub fn common_request(client: &Client, sender: &Sender, path: &str) -> (r: UpstreamRequest)
    ensures
        r@ == upload_request(client@, sender@, path@),
{
    let start = Headers::none().and("content-type", "application/json").and("accept", "*/*");
    let referer = text::join2(client.referer_base.as_str(), path);
    UpstreamRequest {
        url: text::join2(client.host.as_str(), path),
        headers: with_native(client, sender, start).and("referer", referer.as_str()),
    }
}

/// A request of the native client for a video.
pub open spec fn video_request(
    client: ClientView,
    sender: SenderView,
    trace: Seq<char>,
    request_id: Seq<char>,
) -> UpstreamRequestView {
    let path = "/api/ide/v1/tool_text_to_video_stream"@;
    UpstreamRequestView {
        url: client.host + path,
        headers: native_headers(
            client,
            sender,
            no_headers().push(("content-type"@, "application/json"@)).push(
                ("accept"@, "text/event-stream"@),
            ).push(("accept-encoding"@, "gzip, deflate"@)),
        ).push(("x-custom-trace-id"@, text::take(trace, 32))).push(
            ("x-request-id"@, request_id),
        ).push(("referer"@, client.referer_base + path)),
    }
}

/// A request of the native client for a video.
pub fn video_stream_request(client: &Client, sender: &Sender, trace: &str, request_id: &str) -> (r:
    UpstreamRequest)
    ensures
        r@ == video_request(client@, sender@, trace@, request_id@),
{
    let path = "/api/ide/v1/tool_text_to_video_stream";
    let start = Headers::none().and("content-type", "application/json").and(
        "accept",
        "text/event-stream",
    ).and("accept-encoding", "gzip, deflate");
    let short = text::taken(trace, 32);
    let referer = text::join2(client.referer_base.as_str(), path);
    UpstreamRequest {
        url: text::join2(client.host.as_str(), path),
        headers: with_native(client, sender, start).and("x-custom-trace-id", short.as_str()).and(
            "x-request-id",
            request_id,
        ).and("referer", referer.as_str()),
    }
}

/// A request for the address of a video.
pub open spec fn resource_request(client: ClientView, sender: SenderView, trace: Seq<char>) -> UpstreamRequestView {
    UpstreamRequestView {
        url: client.host + "/api/ide/v1/get_resource_url"@,
        headers: no_headers().push(("content-type"@, "application/json"@)).push(
            ("accept"@, "*/*"@),
        ).push(("user-agent"@, "TraeClient/TTNet"@)).push(("x-ide-token"@, sender.jwt)).push(
            ("x-app-id"@, client.app_id),
        ).push(("x-device-type"@, "windows"@)).push(("x-device-brand"@, "H610E-B"@)).push(
            ("x-device-cpu"@, "Intel"@),
        ).push(("x-device-id"@, sender.device_id)).push(
            ("x-machine-id"@, sender.machine_id),
        ).push(("x-os-version"@, "Windows 10 Pro"@)).push(("x-ide-version"@, client.version)).push(
            ("x-ide-version-code"@, client.version_code),
        ).push(("x-ide-version-type"@, "stable"@)).push(
            ("x-custom-trace-id"@, text::take(trace, 32)),
        ),
    }
}

/// A request for the address of a video.
pub fn resource_url_request(client: &Client, sender: &Sender, trace: &str) -> (r: UpstreamRequest)
    ensures
        r@ == resource_request(client@, sender@, trace@),
{
    let short = text::taken(trace, 32);
    UpstreamRequest {
        url: text::join2(client.host.as_str(), "/api/ide/v1/get_resource_url"),
        headers: Headers::none().and("content-type", "application/json").and("accept", "*/*").and(
            "user-agent",
            "TraeClient/TTNet",
        ).and("x-ide-token", sender.jwt.as_str()).and("x-app-id", client.app_id.as_str()).and(
            "x-device-type",
            "windows",
        ).and("x-device-brand", "H610E-B").and("x-device-cpu", "Intel").and(
            "x-device-id",
            sender.device_id.as_str(),
        ).and("x-machine-id", sender.machine_id.as_str()).and(
            "x-os-version",
            "Windows 10 Pro",
        ).and("x-ide-version", client.version.as_str()).and(
            "x-ide-version-code",
            client.version_code.as_str(),
        ).and("x-ide-version-type", "stable").and("x-custom-trace-id", short.as_str()),
    }
}

/// The document that asks for the address of a video.
pub open spec fn resource_question(uri: Seq<char>) -> JsonView {
    JsonView::object().member(
        "uri_list"@,
        JsonView::Array(Seq::empty().push(JsonView::Text(uri))),
    )
}

/// The document that asks for the address of a video.
pub fn resource_url_body(uri: &str) -> (r: Json)
    ensures
        r@ == resource_question(uri@),
{
    let mut list: Vec<Json> = Vec::new();
    list.push(Json::text(uri));
    let array = Json::array(list);
    assert(array@->Array_0 =~= Seq::empty().push(JsonView::Text(uri@)));
    Json::object().member("uri_list", array)
}

/// Why a request failed: the status, what was said, and how long to wait in
/// seconds, where the upstream says it.
#[derive(Debug, PartialEq, Eq)]
pub struct UpstreamFailure {
    pub status: u16,
    pub message: String,
    pub retry_after: Option<u64>,
}

/// The model of an [`UpstreamFailure`].
pub struct FailureView {
    pub status: u16,
    pub message: Seq<char>,
    pub retry_after: Option<u64>,
}

impl View for UpstreamFailure {
    type V = FailureView;

    open spec fn view(&self) -> FailureView {
        FailureView {
            status: self.status,
            message: self.message@,
            retry_after: self.retry_after,
        }
    }
}

/// A request that the upstream answered with an error.
pub open spec fn refused(status: u16, body: Seq<char>, retry_after: Option<Seq<char>>) -> FailureView {
    FailureView {
        status,
        message: body,
        retry_after: match retry_after {
            Some(value) => text::unsigned_value(text::trim(value)),
            None => None,
        },
    }
}

/// A request that the upstream answered with an error.
pub fn upstream_refused(status: u16, body: String, retry_after: Option<&str>) -> (r: UpstreamFailure)
    ensures
        r@ == refused(
            status,
            body@,
            (match retry_after {
                Some(value) => Some(value@),
                None => None,
            }),
        ),
{
    let retry_after = match retry_after {
        Some(value) => text::parse_unsigned(text::trimmed(value)),
        None => None,
    };
    UpstreamFailure { status, message: body, retry_after }
}

/// What kept a request from the upstream, for the one who reads the log.
pub open spec fn diagnosis(host: Seq<char>, error: Seq<char>) -> Seq<char> {
    if text::contains(error, "dns"@) || text::contains(error, "resolve"@) || text::contains(
        error,
        "name resolution"@,
    ) {
        "DNS解析失败（"@ + host + " 无法解析），请检查网络或代理设置: "@ + error
    } else if text::contains(error, "timed out"@) || text::contains(error, "timeout"@) {
        "连接超时（"@ + host + " 10秒内未响应），请检查网络连通性: "@ + error
    } else if text::contains(error, "tls"@) || text::contains(error, "certificate"@)
        || text::contains(error, "ssl"@) {
        "TLS证书验证失败: "@ + error
    } else {
        "传输错误: "@ + error
    }
}

/// A request that did not reach the upstream.
pub fn upstream_unreachable(host: &str, error: &str) -> (r: UpstreamFailure)
    ensures
        r@ == (FailureView {
            status: 502,
            message: diagnosis(host@, error@),
            retry_after: None,
        }),
{
    let message = if text::has(error, "dns") || text::has(error, "resolve") || text::has(
        error,
        "name resolution",
    ) {
        let head = text::join3("DNS解析失败（", host, " 无法解析），请检查网络或代理设置: ");
        text::join2(head.as_str(), error)
    } else if text::has(error, "timed out") || text::has(error, "timeout") {
        let head = text::join3("连接超时（", host, " 10秒内未响应），请检查网络连通性: ");
        text::join2(head.as_str(), error)
    } else if text::has(error, "tls") || text::has(error, "certificate") || text::has(
        error,
        "ssl",
    ) {
        text::join2("TLS证书验证失败: ", error)
    } else {
        text::join2("传输错误: ", error)
    };
    UpstreamFailure { status: 502, message, retry_after: None }
}

/// The step of a chat request belongs to its trace: both headers carry the same
/// id.
pub proof fn law_a_step_belongs_to_its_trace(first: Seq<char>, second: Seq<char>)
    requires
        first.len() == 32,
    ensures
        trace(first, second).subrange(3, 35) == first,
        second.len() == 32 ==> trace(first, second).len() == 71,
{
    reveal_strlit("00-");
    reveal_strlit("-");
    reveal_strlit("-01");
    assert(trace(first, second).subrange(3, 35) =~= first);
}

} // verus!
