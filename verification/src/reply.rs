//! What a client is answered.

use crate::json::{Json, JsonView};
use crate::table::{self, Table};
use crate::text;
use vstd::prelude::*;

verus! {

/// The protocol that a client speaks; it decides the form of an answer.
#[derive(Clone, Copy, Debug, PartialEq, Eq, Structural)]
pub enum Protocol {
    OpenAi,
    OpenAiText,
    Anthropic,
    Responses,
}

/// The path of a protocol's endpoint.
pub open spec fn protocol_path(protocol: Protocol) -> Seq<char> {
    match protocol {
        Protocol::OpenAi => "/v1/chat/completions"@,
        Protocol::OpenAiText => "/v1/completions"@,
        Protocol::Anthropic => "/v1/messages"@,
        Protocol::Responses => "/v1/responses"@,
    }
}

impl Protocol {
    /// The path of the protocol's endpoint, as it stands in the log.
    pub fn log_path(self) -> (r: &'static str)
        ensures
            r@ == protocol_path(self),
    {
        match self {
            Protocol::OpenAi => "/v1/chat/completions",
            Protocol::OpenAiText => "/v1/completions",
            Protocol::Anthropic => "/v1/messages",
            Protocol::Responses => "/v1/responses",
        }
    }
}

/// An answer with a JSON document.
#[derive(Debug)]
pub struct Reply {
    pub status: u16,
    pub headers: Table<String>,
    pub body: Json,
}

/// The model of a [`Reply`].
#[verifier::ext_equal]
pub struct ReplyView {
    pub status: u16,
    pub headers: Seq<(Seq<char>, Seq<char>)>,
    pub body: JsonView,
}

impl View for Reply {
    type V = ReplyView;

    open spec fn view(&self) -> ReplyView {
        ReplyView { status: self.status, headers: self.headers@, body: self.body@ }
    }
}

impl ReplyView {
    /// The answer with a header set.
    pub open spec fn with_header(self, name: Seq<char>, value: Seq<char>) -> ReplyView {
        ReplyView { headers: table::put(self.headers, name, value), ..self }
    }

    /// The answer without a header.
    pub open spec fn without_header(self, name: Seq<char>) -> ReplyView {
        ReplyView { headers: table::without(self.headers, name), ..self }
    }
}

/// No headers.
pub open spec fn no_headers() -> Seq<(Seq<char>, Seq<char>)> {
    Seq::empty()
}

/// An answer with a JSON document.
pub open spec fn json_answer(status: u16, body: JsonView) -> ReplyView {
    ReplyView {
        status,
        headers: table::put(no_headers(), "content-type"@, "application/json"@),
        body,
    }
}

impl Reply {
    /// An answer with a JSON document.
    pub fn json(status: u16, body: Json) -> (r: Reply)
        ensures
            r@ == json_answer(status, body@),
    {
        let mut headers: Table<String> = Table::new();
        headers.insert("content-type", "application/json".to_owned());
        Reply { status, headers, body }
    }

    /// The answer with a header set.
    pub fn with_header(self, name: &str, value: &str) -> (r: Reply)
        ensures
            r@ == self@.with_header(name@, value@),
    {
        let mut headers = self.headers;
        headers.insert(name, value.to_owned());
        Reply { status: self.status, headers, body: self.body }
    }

    /// The answer without a header.
    pub fn without_header(self, name: &str) -> (r: Reply)
        ensures
            r@ == self@.without_header(name@),
    {
        let mut headers = self.headers;
        headers.remove(name);
        Reply { status: self.status, headers, body: self.body }
    }
}

/// The error document of the OpenAI protocols.
pub open spec fn openai_document(code: Seq<char>, message: Seq<char>) -> JsonView {
    JsonView::object().member(
        "error"@,
        JsonView::object().member("message"@, JsonView::Text(message)).member(
            "type"@,
            JsonView::Text("api_error"@),
        ).member("code"@, JsonView::Text(code)),
    )
}

/// An error in the form of the OpenAI protocols.
pub open spec fn openai(status: u16, code: Seq<char>, message: Seq<char>) -> ReplyView {
    json_answer(status, openai_document(code, message))
}

/// An error in the form of the OpenAI protocols.
pub fn openai_error(status: u16, code: &str, message: &str) -> (r: Reply)
    ensures
        r@ == openai(status, code@, message@),
{
    let error = Json::object().member("message", Json::text(message)).member(
        "type",
        Json::text("api_error"),
    ).member("code", Json::text(code));
    Reply::json(status, Json::object().member("error", error))
}

/// The error document of the Anthropic protocol.
pub open spec fn anthropic_document(kind: Seq<char>, message: Seq<char>) -> JsonView {
    JsonView::object().member("type"@, JsonView::Text("error"@)).member(
        "error"@,
        JsonView::object().member("type"@, JsonView::Text(kind)).member(
            "message"@,
            JsonView::Text(message),
        ),
    )
}

/// An error in the form of the Anthropic protocol.
pub open spec fn anthropic(status: u16, kind: Seq<char>, message: Seq<char>) -> ReplyView {
    json_answer(status, anthropic_document(kind, message))
}

/// An error in the form of the Anthropic protocol.
pub fn anthropic_error(status: u16, kind: &str, message: &str) -> (r: Reply)
    ensures
        r@ == anthropic(status, kind@, message@),
{
    let error = Json::object().member("type", Json::text(kind)).member(
        "message",
        Json::text(message),
    );
    Reply::json(
        status,
        Json::object().member("type", Json::text("error")).member("error", error),
    )
}

/// An error in the form of a protocol: the Anthropic protocol knows other
/// codes than the OpenAI protocols.
pub open spec fn protocol_reply(
    protocol: Protocol,
    status: u16,
    code: Seq<char>,
    kind: Seq<char>,
    message: Seq<char>,
) -> ReplyView {
    if protocol == Protocol::Anthropic {
        anthropic(status, kind, message)
    } else {
        openai(status, code, message)
    }
}

/// An error in the form of a protocol.
pub fn protocol_error(
    protocol: Protocol,
    status: u16,
    code: &str,
    kind: &str,
    message: &str,
) -> (r: Reply)
    ensures
        r@ == protocol_reply(protocol, status, code@, kind@, message@),
{
    if protocol == Protocol::Anthropic {
        anthropic_error(status, kind, message)
    } else {
        openai_error(status, code, message)
    }
}

/// The answer where the gateway itself failed.
pub open spec fn internal_failure() -> ReplyView {
    ReplyView {
        status: 500,
        headers: no_headers(),
        body: JsonView::object().member(
            "error"@,
            JsonView::object().member("message"@, JsonView::Text("internal error"@)),
        ),
    }
}

/// The answer where the gateway itself failed.
pub fn internal_error_response() -> (r: Reply)
    ensures
        r@ == internal_failure(),
{
    let error = Json::object().member("message", Json::text("internal error"));
    Reply { status: 500, headers: Table::new(), body: Json::object().member("error", error) }
}

/// The status, where it is one that a reply can have; else another.
pub open spec fn status_or(status: u16, other: u16) -> u16 {
    if 100 <= status < 1000 {
        status
    } else {
        other
    }
}

/// The status, where it is one that a reply can have; else another.
pub fn valid_status(status: u16, other: u16) -> (r: u16)
    ensures
        r == status_or(status, other),
{
    if 100 <= status && status < 1000 {
        status
    } else {
        other
    }
}

/// A limit that a request ran into.
#[derive(Debug, PartialEq, Eq)]
pub struct LimitError {
    pub code: String,
    pub message: String,
    pub retry_after_secs: u64,
}

/// The model of a [`LimitError`].
pub struct LimitView {
    pub code: Seq<char>,
    pub message: Seq<char>,
    pub retry_after_secs: u64,
}

impl View for LimitError {
    type V = LimitView;

    open spec fn view(&self) -> LimitView {
        LimitView {
            code: self.code@,
            message: self.message@,
            retry_after_secs: self.retry_after_secs,
        }
    }
}

/// The answer to a request that ran into a limit; it says when to try again.
pub open spec fn limit_reply(error: LimitView) -> ReplyView {
    openai(429, error.code, error.message).with_header(
        "retry-after"@,
        text::decimal(error.retry_after_secs as nat),
    )
}

/// The answer to a request that ran into a limit; it says when to try again.
pub fn limit_error_response(error: &LimitError) -> (r: Reply)
    ensures
        r@ == limit_reply(error@),
{
    openai_error(429, error.code.as_str(), error.message.as_str()).with_header(
        "retry-after",
        text::decimal_text(error.retry_after_secs).as_str(),
    )
}

/// An event that ends a stream with an error: its name, where the protocol
/// names events, its document, and whether the end mark follows it.
#[derive(Debug, PartialEq, Eq)]
pub struct StreamError {
    pub event: Option<String>,
    pub document: Json,
    pub end_mark: bool,
}

/// The model of a [`StreamError`].
pub struct StreamErrorView {
    pub event: Option<Seq<char>>,
    pub document: JsonView,
    pub end_mark: bool,
}

impl View for StreamError {
    type V = StreamErrorView;

    open spec fn view(&self) -> StreamErrorView {
        StreamErrorView {
            event: text::opt_view(self.event),
            document: self.document@,
            end_mark: self.end_mark,
        }
    }
}

/// The decimal text of a signed number.
pub open spec fn signed_text(n: i64) -> Seq<char> {
    if n < 0 {
        "-"@ + text::decimal((-n) as nat)
    } else {
        text::decimal(n as nat)
    }
}

/// The decimal text of a signed number.
pub fn signed_decimal(n: i64) -> (r: String)
    ensures
        r@ == signed_text(n),
{
    if n < 0 {
        let magnitude: u64 = if n == i64::MIN {
            0x8000_0000_0000_0000u64
        } else {
            (-n) as u64
        };
        text::join2("-", text::decimal_text(magnitude).as_str())
    } else {
        text::decimal_text(n as u64)
    }
}

/// The document of a signed number.
pub open spec fn signed_json(n: i64) -> JsonView {
    JsonView::Number(
        crate::json::NumberView {
            text: signed_text(n),
            unsigned: if n < 0 {
                None
            } else {
                Some(n as u64)
            },
            signed: Some(n),
        },
    )
}

/// The document of a signed number.
pub fn signed_number(n: i64) -> (r: Json)
    ensures
        r@ == signed_json(n),
{
    let unsigned: Option<u64> = if n < 0 {
        None
    } else {
        Some(n as u64)
    };
    Json::Number(crate::json::JsonNumber { text: signed_decimal(n), unsigned, signed: Some(n) })
}

/// The event by which a stream of a protocol ends with an error at time `now`.
pub open spec fn stream_error(
    protocol: Protocol,
    code: i64,
    message: Seq<char>,
    now: u64,
) -> StreamErrorView {
    match protocol {
        Protocol::Anthropic => StreamErrorView {
            event: Some("error"@),
            document: anthropic_document("api_error"@, message),
            end_mark: false,
        },
        Protocol::Responses => StreamErrorView {
            event: Some("response.failed"@),
            document: JsonView::object().member(
                "type"@,
                JsonView::Text("response.failed"@),
            ).member(
                "response"@,
                JsonView::object().member(
                    "id"@,
                    JsonView::Text("resp_"@ + text::decimal(now as nat)),
                ).member("object"@, JsonView::Text("response"@)).member(
                    "status"@,
                    JsonView::Text("failed"@),
                ).member("output"@, JsonView::Array(Seq::empty())).member(
                    "error"@,
                    JsonView::object().member(
                        "code"@,
                        JsonView::Text(signed_text(code)),
                    ).member("message"@, JsonView::Text(message)),
                ),
            ),
            end_mark: false,
        },
        _ => StreamErrorView {
            event: None,
            document: JsonView::object().member(
                "error"@,
                JsonView::object().member("message"@, JsonView::Text(message)).member(
                    "type"@,
                    JsonView::Text("api_error"@),
                ).member("code"@, signed_json(code)),
            ),
            end_mark: true,
        },
    }
}

/// The event by which a stream of a protocol ends with an error at time `now`.
pub fn send_stream_error(protocol: Protocol, code: i64, message: &str, now: u64) -> (r: StreamError)
    ensures
        r@ == stream_error(protocol, code, message@, now),
{
    match protocol {
        Protocol::Anthropic => {
            let error = Json::object().member("type", Json::text("api_error")).member(
                "message",
                Json::text(message),
            );
            StreamError {
                event: Some("error".to_owned()),
                document: Json::object().member("type", Json::text("error")).member(
                    "error",
                    error,
                ),
                end_mark: false,
            }
        },
        Protocol::Responses => {
            let no_output: Vec<Json> = Vec::new();
            let output = Json::array(no_output);
            assert(output@->Array_0 =~= Seq::empty());
            let error = Json::object().member(
                "code",
                Json::text(signed_decimal(code).as_str()),
            ).member("message", Json::text(message));
            let id = text::join2("resp_", text::decimal_text(now).as_str());
            let response = Json::object().member("id", Json::text(id.as_str())).member(
                "object",
                Json::text("response"),
            ).member("status", Json::text("failed")).member("output", output).member(
                "error",
                error,
            );
            StreamError {
                event: Some("response.failed".to_owned()),
                document: Json::object().member("type", Json::text("response.failed")).member(
                    "response",
                    response,
                ),
                end_mark: false,
            }
        },
        _ => {
            let error = Json::object().member("message", Json::text(message)).member(
                "type",
                Json::text("api_error"),
            ).member("code", signed_number(code));
            StreamError {
                event: None,
                document: Json::object().member("error", error),
                end_mark: true,
            }
        },
    }
}

/// The largest position up to `n` at which a character of the bytes begins.
pub open spec fn last_boundary(bytes: Seq<u8>, n: int) -> int
    decreases n,
{
    if n <= 0 || vstd::utf8::is_char_boundary(bytes, n) {
        n
    } else {
        last_boundary(bytes, n - 1)
    }
}

/// The longest part of `s` from its start that has at most `n` bytes and cuts
/// no character.
pub open spec fn bounded_prefix(s: Seq<char>, n: int) -> Seq<char> {
    if n >= text::byte_len(s) {
        s
    } else {
        let bytes = vstd::utf8::encode_utf8(s);
        vstd::utf8::decode_utf8(bytes.subrange(0, last_boundary(bytes, n)))
    }
}

/// The longest part of `s` from its start that has at most `n` bytes and cuts
/// no character.
pub fn safe_slice(s: &str, n: usize) -> (r: &str)
    ensures
        r@ == bounded_prefix(s@, n as int),
{
    if n >= s.as_bytes().len() {
        return s;
    }
    let mut cut: usize = n;
    let ghost bytes = vstd::utf8::encode_utf8(s@);
    proof {
        vstd::utf8::encode_utf8_valid_utf8(s@);
        vstd::utf8::is_char_boundary_start_end_of_seq(bytes);
    }
    while !s.is_char_boundary(cut)
        invariant
            cut <= n < bytes.len(),
            bytes == vstd::utf8::encode_utf8(s@),
            vstd::utf8::is_char_boundary(bytes, 0),
            last_boundary(bytes, n as int) == last_boundary(bytes, cut as int),
        decreases cut,
    {
        cut = cut - 1;
    }
    let r = s.split_at(cut).0;
    proof {
        vstd::utf8::encode_utf8_decode_utf8(r@);
    }
    r
}

/// A slice is never longer than asked for, and is a part of the text from its
/// start.
pub proof fn law_slice_is_a_bounded_prefix(s: Seq<char>, n: int)
    requires
        0 <= n,
    ensures
        text::byte_len(bounded_prefix(s, n)) <= n,
        text::starts_with(s, bounded_prefix(s, n)),
{
    let bytes = vstd::utf8::encode_utf8(s);
    vstd::utf8::encode_utf8_valid_utf8(s);
    if n >= bytes.len() {
        assert(s.subrange(0, s.len() as int) =~= s);
    } else {
        lemma_last_boundary(bytes, n);
        let cut = last_boundary(bytes, n);
        vstd::utf8::valid_utf8_split(bytes, cut);
        vstd::utf8::decode_utf8_split(bytes, cut);
        vstd::utf8::encode_utf8_decode_utf8(s);
        let head = bytes.subrange(0, cut);
        let r = vstd::utf8::decode_utf8(head);
        let tail = vstd::utf8::decode_utf8(bytes.subrange(cut, bytes.len() as int));
        vstd::utf8::decode_utf8_encode_utf8(head);
        assert(s =~= r + tail);
        assert(s.subrange(0, r.len() as int) =~= r);
    }
}

proof fn lemma_last_boundary(bytes: Seq<u8>, n: int)
    requires
        0 <= n,
        vstd::utf8::valid_utf8(bytes),
    ensures
        0 <= last_boundary(bytes, n) <= n,
        vstd::utf8::is_char_boundary(bytes, last_boundary(bytes, n)),
    decreases n,
{
    vstd::utf8::is_char_boundary_start_end_of_seq(bytes);
    if n > 0 && !vstd::utf8::is_char_boundary(bytes, n) {
        lemma_last_boundary(bytes, n - 1);
    }
}

} // verus!
