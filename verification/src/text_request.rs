//! What a text request asks for, and how it is turned away.

use crate::json::{Json, JsonView};
use crate::reply::{self, Protocol, Reply, ReplyView};
use crate::text;
use vstd::prelude::*;

verus! {

/// The reply is to be streamed.
pub open spec fn wants_stream(body: JsonView) -> bool {
    body.bool_at("stream"@) == Some(true)
}

/// The reply is to be streamed.
pub fn requested_stream(body: &Json) -> (r: bool)
    ensures
        r == wants_stream(body@),
{
    match body.bool_at("stream") {
        Some(stream) => stream,
        None => false,
    }
}

/// The model that is asked for; the standard model where none is.
pub open spec fn wanted_model(body: JsonView, standard: Seq<char>) -> Seq<char> {
    match body.text_at("model"@) {
        Some(model) => if text::trim(model).len() == 0 {
            standard
        } else {
            model
        },
        None => standard,
    }
}

/// The model that is asked for; the standard model where none is.
pub fn requested_model(body: &Json, standard: &str) -> (r: String)
    ensures
        r@ == wanted_model(body@, standard@),
{
    match body.str_at("model") {
        Some(model) => if text::blank(model) {
            standard.to_owned()
        } else {
            model.to_owned()
        },
        None => standard.to_owned(),
    }
}

/// The effort that the upstream is asked for: that of the route, else a high
/// one where that is the standard and the client asked for none.
pub open spec fn effort_hint(
    route_hint: Option<Seq<char>>,
    explicit: bool,
    default_thinking: bool,
) -> Option<Seq<char>> {
    if route_hint is Some {
        route_hint
    } else if !explicit && default_thinking {
        Some("high"@)
    } else {
        None
    }
}

/// The effort that the upstream is asked for.
pub fn effective_effort_hint(
    route_hint: Option<String>,
    explicit: bool,
    default_thinking: bool,
) -> (r: Option<String>)
    ensures
        text::opt_view(r) == effort_hint(text::opt_view(route_hint), explicit, default_thinking),
{
    if route_hint.is_some() {
        return route_hint;
    }
    if !explicit && default_thinking {
        Some("high".to_owned())
    } else {
        None
    }
}

/// Why no pool takes a request.
#[derive(Clone, Copy, Debug, PartialEq, Eq, Structural)]
pub enum DispatchError {
    /// The pool that has the model is switched off.
    WbDisabled,
    /// The model rests for that many seconds.
    ModelCooling(i64),
    /// No account can be used.
    NoHealthy,
}

/// What a client is told of a model that rests.
pub open spec fn cooling_message(model: Seq<char>, seconds: i64) -> Seq<char> {
    "model "@ + model + " cooling down, retry after "@ + reply::signed_text(seconds) + "s"@
}

/// The answer to a request for a model that rests.
pub open spec fn cooling_reply(protocol: Protocol, model: Seq<char>, seconds: i64) -> ReplyView {
    reply::protocol_reply(
        protocol,
        429,
        "model_cooldown"@,
        "rate_limit_error"@,
        cooling_message(model, seconds),
    )
}

/// The answer to a request for a model that rests; `remaining` is the time it
/// still rests, where it is known.
pub fn model_cooling_response(protocol: Protocol, model: &str, remaining: Option<i64>) -> (r: Reply)
    ensures
        r@ == cooling_reply(
            protocol,
            model@,
            match remaining {
                Some(seconds) => seconds,
                None => 0,
            },
        ),
{
    let seconds: i64 = match remaining {
        Some(seconds) => seconds,
        None => 0,
    };
    let mut message = text::join3("model ", model, " cooling down, retry after ");
    message.push_str(reply::signed_decimal(seconds).as_str());
    message.push_str("s");
    reply::protocol_error(protocol, 429, "model_cooldown", "rate_limit_error", message.as_str())
}

/// The answer to a request that no pool takes.
pub open spec fn dispatch_reply(
    protocol: Protocol,
    model: Seq<char>,
    error: DispatchError,
) -> ReplyView {
    match error {
        DispatchError::WbDisabled => reply::protocol_reply(
            protocol,
            400,
            "wb_upstream_disabled"@,
            "invalid_request_error"@,
            "该模型属 WorkBuddy 上游，但 WB 上游未启用（api_pool.json wb_enabled）"@,
        ),
        DispatchError::ModelCooling(seconds) => cooling_reply(protocol, model, seconds),
        DispatchError::NoHealthy => reply::protocol_reply(
            protocol,
            503,
            "no_healthy_account"@,
            "api_error"@,
            "no healthy account available"@,
        ),
    }
}

/// The answer to a request that no pool takes.
pub fn dispatch_error_response(protocol: Protocol, model: &str, error: DispatchError) -> (r: Reply)
    ensures
        r@ == dispatch_reply(protocol, model@, error),
{
    match error {
        DispatchError::WbDisabled => reply::protocol_error(
            protocol,
            400,
            "wb_upstream_disabled",
            "invalid_request_error",
            "该模型属 WorkBuddy 上游，但 WB 上游未启用（api_pool.json wb_enabled）",
        ),
        DispatchError::ModelCooling(seconds) => model_cooling_response(
            protocol,
            model,
            Some(seconds),
        ),
        DispatchError::NoHealthy => reply::protocol_error(
            protocol,
            503,
            "no_healthy_account",
            "api_error",
            "no healthy account available",
        ),
    }
}

/// The answer to a request for a model of the user's own that was deleted.
pub open spec fn deleted_reply(protocol: Protocol, model: Seq<char>) -> ReplyView {
    reply::protocol_reply(
        protocol,
        404,
        "model_not_found"@,
        "model_not_found"@,
        "自定义模型 "@ + model + " 已被删除"@,
    )
}

/// The answer to a request for a model of the user's own that was deleted.
pub fn deleted_model(protocol: Protocol, model: &str) -> (r: Reply)
    ensures
        r@ == deleted_reply(protocol, model@),
{
    reply::protocol_error(
        protocol,
        404,
        "model_not_found",
        "model_not_found",
        text::join3("自定义模型 ", model, " 已被删除").as_str(),
    )
}

/// The answer to a body that is too large.
pub open spec fn too_large(protocol: Protocol) -> ReplyView {
    reply::protocol_reply(
        protocol,
        413,
        "request_too_large"@,
        "invalid_request_error"@,
        "request body exceeds 8MB limit"@,
    )
}

/// The answer to a body that is too large.
pub fn body_too_large(protocol: Protocol) -> (r: Reply)
    ensures
        r@ == too_large(protocol),
{
    reply::protocol_error(
        protocol,
        413,
        "request_too_large",
        "invalid_request_error",
        "request body exceeds 8MB limit",
    )
}

/// The answer to a request that is not well formed.
pub open spec fn invalid(protocol: Protocol, message: Seq<char>) -> ReplyView {
    reply::protocol_reply(
        protocol,
        400,
        "invalid_request_error"@,
        "invalid_request_error"@,
        message,
    )
}

/// The answer to a request that is not well formed.
pub fn invalid_request(protocol: Protocol, message: &str) -> (r: Reply)
    ensures
        r@ == invalid(protocol, message@),
{
    reply::protocol_error(
        protocol,
        400,
        "invalid_request_error",
        "invalid_request_error",
        message,
    )
}

/// The answer to a body that is no JSON document.
pub open spec fn not_json(protocol: Protocol, error: Seq<char>) -> ReplyView {
    invalid(protocol, "invalid JSON body: "@ + error)
}

/// The answer to a body that is no JSON document.
pub fn no_document(protocol: Protocol, error: &str) -> (r: Reply)
    ensures
        r@ == not_json(protocol, error@),
{
    invalid_request(protocol, text::join2("invalid JSON body: ", error).as_str())
}

/// The strings among the elements, in order.
pub open spec fn strings_in(items: Seq<JsonView>) -> Seq<Seq<char>>
    decreases items.len(),
{
    if items.len() == 0 {
        Seq::empty()
    } else {
        match items.last() {
            JsonView::Text(s) => strings_in(items.drop_last()).push(s),
            _ => strings_in(items.drop_last()),
        }
    }
}

/// The prompt of a text completion: a string, or the strings of an array with
/// an empty line between any two.
pub open spec fn prompt_of(body: JsonView) -> Result<Seq<char>, Seq<char>> {
    let prompt = match body.get("prompt"@) {
        Some(JsonView::Text(s)) => Ok(s),
        Some(JsonView::Array(items)) => if strings_in(items).len() == 0 {
            Err("prompt: array must contain strings"@)
        } else {
            Ok(text::join(strings_in(items), "\n\n"@))
        },
        _ => Err("prompt: field required"@),
    };
    match prompt {
        Ok(s) => if text::trim(s).len() == 0 {
            Err("prompt: must not be empty"@)
        } else {
            Ok(s)
        },
        Err(message) => Err(message),
    }
}

fn collect_strings(items: &Vec<Json>) -> (r: Vec<String>)
    ensures
        text::views(r@) == strings_in(Seq::new(items@.len(), |i: int| items@[i]@)),
{
    let mut r: Vec<String> = Vec::new();
    let mut i: usize = 0;
    let ghost all = Seq::new(items@.len(), |i: int| items@[i]@);
    assert(all.subrange(0, 0) =~= Seq::empty());
    assert(text::views(r@) =~= Seq::empty());
    while i < items.len()
        invariant
            i <= items.len(),
            all == Seq::new(items@.len(), |i: int| items@[i]@),
            text::views(r@) == strings_in(all.subrange(0, i as int)),
        decreases items.len() - i,
    {
        let ghost before = text::views(r@);
        assert(all.subrange(0, i + 1).drop_last() =~= all.subrange(0, i as int));
        assert(all.subrange(0, i + 1).last() == items@[i as int]@);
        if let Some(s) = items[i].as_str() {
            r.push(s.to_owned());
            assert(text::views(r@) =~= before.push(s@));
        }
        i = i + 1;
    }
    assert(all.subrange(0, i as int) =~= all);
    r
}

/// The model of a prompt.
pub open spec fn prompt_view(r: Result<String, &'static str>) -> Result<Seq<char>, Seq<char>> {
    match r {
        Ok(s) => Ok(s@),
        Err(message) => Err(message@),
    }
}

/// The prompt of a text completion.
pub fn read_prompt(body: &Json) -> (r: Result<String, &'static str>)
    ensures
        prompt_view(r) == prompt_of(body@),
{
    let prompt = match body.get("prompt") {
        Some(value) => match value {
            Json::Text(s) => s.clone(),
            Json::Array(items) => {
                assert(value@->Array_0 =~= Seq::new(items@.len(), |i: int| items@[i]@));
                let strings = collect_strings(items);
                assert(text::views(strings@).len() == strings@.len());
                if strings.len() == 0 {
                    return Err("prompt: array must contain strings");
                }
                text::joined(&strings, "\n\n")
            },
            _ => {
                return Err("prompt: field required");
            },
        },
        None => {
            return Err("prompt: field required");
        },
    };
    if text::blank(prompt.as_str()) {
        Err("prompt: must not be empty")
    } else {
        Ok(prompt)
    }
}

/// The chat request that a text completion becomes: its prompt is the only
/// message.
pub open spec fn prompt_as_chat(model: Seq<char>, stream: bool, prompt: Seq<char>) -> JsonView {
    JsonView::object().member("model"@, JsonView::Text(model)).member(
        "stream"@,
        JsonView::Bool(stream),
    ).member(
        "messages"@,
        JsonView::Array(
            seq![
                JsonView::object().member("role"@, JsonView::Text("user"@)).member(
                    "content"@,
                    JsonView::Text(prompt),
                ),
            ],
        ),
    )
}

/// The chat request that a text completion becomes.
pub fn chat_of_prompt(model: &str, stream: bool, prompt: &str) -> (r: Json)
    ensures
        r@ == prompt_as_chat(model@, stream, prompt@),
{
    let message = Json::object().member("role", Json::text("user")).member(
        "content",
        Json::text(prompt),
    );
    let mut list: Vec<Json> = Vec::new();
    list.push(message);
    let messages = Json::array(list);
    assert(messages@->Array_0 =~= seq![message@]);
    Json::object().member("model", Json::text(model)).member("stream", Json::Bool(stream)).member(
        "messages",
        messages,
    )
}

/// A refusal because the tokens of the day are used up.
pub open spec fn is_quota_refusal(r: ReplyView) -> bool {
    &&& r.status == 429
    &&& r.body.get("error"@) matches Some(error)
    &&& error.text_at("type"@) == Some("quota_exceeded"@)
    &&& error.text_at("code"@) == Some("quota_exceeded"@)
    &&& error.text_at("legacy_code"@) == Some("daily_quota_exceeded"@)
    &&& error.text_at("param"@) == Some("daily_tokens"@)
}

/// The answer to a request of a key whose tokens of the day are used up. The
/// message is for people to read: programs go by the other fields.
pub fn quota_exceeded(limit: u64) -> (r: Reply)
    ensures
        is_quota_refusal(r@),
{
    let message = text::join3(
        "daily token quota exceeded (limit ",
        text::decimal_text(limit).as_str(),
        ")",
    );
    let error = Json::object().member("type", Json::text("quota_exceeded")).member(
        "code",
        Json::text("quota_exceeded"),
    ).member("legacy_code", Json::text("daily_quota_exceeded")).member(
        "param",
        Json::text("daily_tokens"),
    ).member("message", Json::text(message.as_str()));
    proof {
        reveal_strlit("type");
        reveal_strlit("code");
        reveal_strlit("legacy_code");
        reveal_strlit("param");
        let all = error@->Object_0;
        reveal_with_fuel(crate::table::find, 5);
        assert("type"@[0] != "code"@[0] && "type"@[0] != "legacy_code"@[0] && "type"@[0]
            != "param"@[0]);
        assert("code"@[0] != "legacy_code"@[0] && "code"@[0] != "param"@[0]);
        assert("legacy_code"@[0] != "param"@[0]);
    }
    Reply::json(429, Json::object().member("error", error))
}

} // verus!
