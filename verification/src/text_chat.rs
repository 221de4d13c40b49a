//! The way of a text request through the gateway.
//!
//! The chat, responses, messages and completions endpoints read their request
//! each in its own way; from there on a text request goes one way. Where Core
//! rules, it is admitted, leased, executed and settled with Core; else it
//! takes a permit of its key and goes to one of the pools. The program around
//! it performs the action that a step asks for and hands back what came of it.

use crate::access::{self, Caller, CallerView, Capability, KeyLimits, MAX_BODY_BYTES};
use crate::core_routes;
use crate::core_types::{
    self, CoreError, CoreErrorView, CoreLeaseError, CoreMode, LeaseErrorView, LeaseState,
    OutcomeView, RequestResult, RequestResultView, RequestState, UpstreamOutcome,
};
use crate::json::{Json, JsonView};
use crate::outside;
use crate::reply::{self, LimitError, LimitView, Protocol, Reply, ReplyView};
use crate::seedance_chat;
use crate::text;
use crate::text_request::{self, DispatchError};
use vstd::prelude::*;

verus! {

/// What a text request comes with besides its body.
#[derive(Debug)]
pub struct TextInput {
    pub caller: Caller,
    pub core: Option<CoreMode>,
    pub default_model: String,
    pub default_thinking: bool,
    /// The header `Idempotency-Key`.
    pub idempotency_key: Option<String>,
    /// There is a header `anthropic-version`.
    pub anthropic_version: bool,
}

/// The model of a [`TextInput`].
pub struct InputView {
    pub caller: CallerView,
    pub core: Option<CoreMode>,
    pub default_model: Seq<char>,
    pub default_thinking: bool,
    pub idempotency_key: Option<Seq<char>>,
    pub anthropic_version: bool,
}

impl View for TextInput {
    type V = InputView;

    open spec fn view(&self) -> InputView {
        InputView {
            caller: self.caller@,
            core: self.core,
            default_model: self.default_model@,
            default_thinking: self.default_thinking,
            idempotency_key: text::opt_view(self.idempotency_key),
            anthropic_version: self.anthropic_version,
        }
    }
}

/// What a text request waits for.
#[derive(Debug)]
pub enum TextStage {
    Projecting,
    Merging,
    Scoping,
    Estimating,
    Binding,
    Replaying,
    Guarding,
    Preflighting,
    Executing,
    /// The answer once the lease is settled, and what the outcome says of the
    /// account's health.
    Settling(Reply, &'static str),
    Acquiring,
    Reserving,
    Resolving,
    /// The model that the route leads to, and the effort.
    Customizing(String, Option<String>),
    Over,
}

/// The model of a [`TextStage`].
pub enum TextStageView {
    Projecting,
    Merging,
    Scoping,
    Estimating,
    Binding,
    Replaying,
    Guarding,
    Preflighting,
    Executing,
    Settling(ReplyView, Seq<char>),
    Acquiring,
    Reserving,
    Resolving,
    Customizing(Seq<char>, Option<Seq<char>>),
    Over,
}

impl View for TextStage {
    type V = TextStageView;

    open spec fn view(&self) -> TextStageView {
        match self {
            TextStage::Projecting => TextStageView::Projecting,
            TextStage::Merging => TextStageView::Merging,
            TextStage::Scoping => TextStageView::Scoping,
            TextStage::Estimating => TextStageView::Estimating,
            TextStage::Binding => TextStageView::Binding,
            TextStage::Replaying => TextStageView::Replaying,
            TextStage::Guarding => TextStageView::Guarding,
            TextStage::Preflighting => TextStageView::Preflighting,
            TextStage::Executing => TextStageView::Executing,
            TextStage::Settling(reply, category) => TextStageView::Settling(reply@, category@),
            TextStage::Acquiring => TextStageView::Acquiring,
            TextStage::Reserving => TextStageView::Reserving,
            TextStage::Resolving => TextStageView::Resolving,
            TextStage::Customizing(model, hint) => TextStageView::Customizing(
                model@,
                text::opt_view(*hint),
            ),
            TextStage::Over => TextStageView::Over,
        }
    }
}

/// A text request on its way.
#[derive(Debug)]
pub struct TextRequest {
    pub protocol: Protocol,
    pub stage: TextStage,
    pub core: Option<CoreMode>,
    pub default_model: String,
    pub default_thinking: bool,
    pub caller: Caller,
    pub idempotency_key: Option<String>,
    pub model: String,
    pub stream: bool,
    /// The client asked for an effort itself.
    pub explicit_effort: bool,
    pub body: Json,
    pub daily_tokens: u64,
    /// The amount that Core reserves.
    pub reserve: i64,
    pub request_id: String,
    /// The request holds a permit: of its key, or of Core.
    pub permit: bool,
}

/// The model of a [`TextRequest`].
pub struct TextView {
    pub protocol: Protocol,
    pub stage: TextStageView,
    pub core: Option<CoreMode>,
    pub default_model: Seq<char>,
    pub default_thinking: bool,
    pub caller: CallerView,
    pub idempotency_key: Option<Seq<char>>,
    pub model: Seq<char>,
    pub stream: bool,
    pub explicit_effort: bool,
    pub body: JsonView,
    pub daily_tokens: u64,
    pub reserve: i64,
    pub request_id: Seq<char>,
    pub permit: bool,
}

impl View for TextRequest {
    type V = TextView;

    open spec fn view(&self) -> TextView {
        TextView {
            protocol: self.protocol,
            stage: self.stage@,
            core: self.core,
            default_model: self.default_model@,
            default_thinking: self.default_thinking,
            caller: self.caller@,
            idempotency_key: text::opt_view(self.idempotency_key),
            model: self.model@,
            stream: self.stream,
            explicit_effort: self.explicit_effort,
            body: self.body@,
            daily_tokens: self.daily_tokens,
            reserve: self.reserve,
            request_id: self.request_id@,
            permit: self.permit,
        }
    }
}

/// A request that came before.
#[derive(Debug)]
pub struct Replay {
    pub request_id: String,
    pub state: RequestState,
    pub result: Option<RequestResult>,
    pub lease: Option<LeaseState>,
}

/// The model of a [`Replay`].
pub struct ReplayView {
    pub request_id: Seq<char>,
    pub state: RequestState,
    pub result: Option<RequestResultView>,
    pub lease: Option<LeaseState>,
}

impl View for Replay {
    type V = ReplayView;

    open spec fn view(&self) -> ReplayView {
        ReplayView {
            request_id: self.request_id@,
            state: self.state,
            result: core_types::opt_result(self.result),
            lease: self.lease,
        }
    }
}

/// What Core admitted: the request, and which of an execution, a lease and a
/// reservation it has.
#[derive(Debug)]
pub struct Preflight {
    pub replay: Replay,
    pub execution: bool,
    pub lease: bool,
    pub reservation: bool,
}

/// The model of a [`Preflight`].
pub struct PreflightView {
    pub replay: ReplayView,
    pub execution: bool,
    pub lease: bool,
    pub reservation: bool,
}

impl View for Preflight {
    type V = PreflightView;

    open spec fn view(&self) -> PreflightView {
        PreflightView {
            replay: self.replay@,
            execution: self.execution,
            lease: self.lease,
            reservation: self.reservation,
        }
    }
}

/// The pool that takes a request.
#[derive(Clone, Copy, Debug, PartialEq, Eq, Structural)]
pub enum TargetPool {
    Buddy,
    Trae,
    Custom,
}

/// Where a request goes.
#[derive(Debug)]
pub struct Target {
    pub pool: TargetPool,
    pub model: String,
    pub effort_hint: Option<String>,
    /// The gateway runs the tools that the request declares.
    pub runs_tools: bool,
}

/// The model of a [`Target`].
pub struct TargetView {
    pub pool: TargetPool,
    pub model: Seq<char>,
    pub effort_hint: Option<Seq<char>>,
    pub runs_tools: bool,
}

impl View for Target {
    type V = TargetView;

    open spec fn view(&self) -> TargetView {
        TargetView {
            pool: self.pool,
            model: self.model@,
            effort_hint: text::opt_view(self.effort_hint),
            runs_tools: self.runs_tools,
        }
    }
}

/// Why no tokens were set aside for a key.
#[derive(Clone, Copy, Debug, PartialEq, Eq, Structural)]
pub enum TokenQuotaError {
    /// The tokens of the day are used up.
    Exceeded(u64),
    KeyUnavailable,
}

/// What came of the last action.
#[derive(Debug)]
pub enum TextEvent {
    /// The request as a chat request, and the conversation it belongs to.
    Projected(Result<Json, String>, Option<String>),
    /// The request with the history of its conversation.
    Merged(Json),
    /// Whether the caller has the scope.
    Scoped(bool),
    /// The amount that the request reserves.
    Estimated(Result<i64, CoreError>),
    /// There is an executor.
    Executor,
    /// There is no executor; what the key has left.
    NoExecutor(CoreLeaseError, Result<i64, CoreError>),
    /// The request came before, or not.
    Looked(Result<Option<Replay>, CoreLeaseError>),
    /// A permit was taken, or not.
    Guarded(Result<(), LimitError>),
    Preflighted(Result<Preflight, CoreLeaseError>),
    /// What became of the request, and the status and document of the reply.
    Executed(UpstreamOutcome, Option<(u16, Json)>),
    /// Whether the settlement counted; there is none without a lease.
    Settled(Option<Result<bool, CoreLeaseError>>),
    /// Tokens were set aside, or not.
    Reserved(Result<(), TokenQuotaError>),
    Resolved(Result<Target, DispatchError>),
    /// Whether the user's model still exists.
    Custom(bool),
}

/// The model of a [`TextEvent`].
pub enum TextEventView {
    Projected(Result<JsonView, Seq<char>>, Option<Seq<char>>),
    Merged(JsonView),
    Scoped(bool),
    Estimated(Result<i64, CoreErrorView>),
    Executor,
    NoExecutor(LeaseErrorView, Result<i64, CoreErrorView>),
    Looked(Result<Option<ReplayView>, LeaseErrorView>),
    Guarded(Option<LimitView>),
    Preflighted(Result<PreflightView, LeaseErrorView>),
    Executed(OutcomeView, Option<(u16, JsonView)>),
    Settled(Option<Result<bool, LeaseErrorView>>),
    Reserved(Option<TokenQuotaError>),
    Resolved(Result<TargetView, DispatchError>),
    Custom(bool),
}

/// The model of an amount.
pub open spec fn amount_view(r: Result<i64, CoreError>) -> Result<i64, CoreErrorView> {
    match r {
        Ok(amount) => Ok(amount),
        Err(error) => Err(error@),
    }
}

impl View for TextEvent {
    type V = TextEventView;

    open spec fn view(&self) -> TextEventView {
        match self {
            TextEvent::Projected(body, conversation) => TextEventView::Projected(
                outside::result_model(*body),
                text::opt_view(*conversation),
            ),
            TextEvent::Merged(body) => TextEventView::Merged(body@),
            TextEvent::Scoped(granted) => TextEventView::Scoped(*granted),
            TextEvent::Estimated(amount) => TextEventView::Estimated(amount_view(*amount)),
            TextEvent::Executor => TextEventView::Executor,
            TextEvent::NoExecutor(error, balance) => TextEventView::NoExecutor(
                error@,
                amount_view(*balance),
            ),
            TextEvent::Looked(found) => TextEventView::Looked(
                match found {
                    Ok(Some(replay)) => Ok(Some(replay@)),
                    Ok(None) => Ok(None),
                    Err(error) => Err(error@),
                },
            ),
            TextEvent::Guarded(permit) => TextEventView::Guarded(
                match permit {
                    Ok(_) => None,
                    Err(error) => Some(error@),
                },
            ),
            TextEvent::Preflighted(preflight) => TextEventView::Preflighted(
                match preflight {
                    Ok(preflight) => Ok(preflight@),
                    Err(error) => Err(error@),
                },
            ),
            TextEvent::Executed(outcome, response) => TextEventView::Executed(
                outcome@,
                core_routes::response_view(*response),
            ),
            TextEvent::Settled(settled) => TextEventView::Settled(
                core_routes::lease_result(*settled),
            ),
            TextEvent::Reserved(reserved) => TextEventView::Reserved(
                match reserved {
                    Ok(_) => None,
                    Err(error) => Some(*error),
                },
            ),
            TextEvent::Resolved(target) => TextEventView::Resolved(
                match target {
                    Ok(target) => Ok(target@),
                    Err(error) => Err(*error),
                },
            ),
            TextEvent::Custom(found) => TextEventView::Custom(*found),
        }
    }
}

/// What is to be done next.
#[derive(Debug)]
pub enum TextAction {
    /// Turn the request into a chat request.
    Project(Json),
    /// Find the conversation of the request and complete it by its history.
    Merge(Json),
    /// Find out whether the caller has the scope.
    CheckScope(&'static str),
    /// Ask Core what the request reserves.
    Estimate(Json),
    /// Find an executor; without one, read what the key has left.
    FindExecutor,
    /// Find out whether the request came before.
    Look(Json),
    /// Take a permit for the caller.
    Guard,
    /// Reserve and lease.
    Preflight(Json),
    /// Call the upstream.
    Execute,
    /// Settle the lease with this outcome.
    Settle(UpstreamOutcome),
    /// Stream the reply through Core.
    CoreStream(Json, Option<String>),
    /// The request is for a video.
    Seedance(Json),
    /// Take a permit of the key.
    Acquire(KeyLimits),
    /// Set tokens of the key aside.
    Reserve(u64),
    /// Find out where the request goes.
    Resolve(Json),
    /// Find the user's model.
    FindCustom(String),
    /// Hand the request to a pool: the pool, the model, the body, whether the
    /// reply is streamed, the effort, and whether the gateway runs the tools.
    Run(TargetPool, String, Json, bool, Option<String>, bool),
    /// Give the permit back and answer that the tokens of the day, so many, are
    /// used up: [`text_request::quota_exceeded`].
    QuotaExceeded(u64),
    /// Answer the client.
    Answer(Reply),
    /// Answer the client; note down the account's health, where the settlement
    /// counted.
    AnswerSettled(Reply, Option<&'static str>),
}

/// The model of a [`TextAction`].
pub enum TextActionView {
    Project(JsonView),
    Merge(JsonView),
    CheckScope(Seq<char>),
    Estimate(JsonView),
    FindExecutor,
    Look(JsonView),
    Guard,
    Preflight(JsonView),
    Execute,
    Settle(OutcomeView),
    CoreStream(JsonView, Option<Seq<char>>),
    Seedance(JsonView),
    Acquire(KeyLimits),
    Reserve(u64),
    Resolve(JsonView),
    FindCustom(Seq<char>),
    Run(TargetPool, Seq<char>, JsonView, bool, Option<Seq<char>>, bool),
    QuotaExceeded(u64),
    Answer(ReplyView),
    AnswerSettled(ReplyView, Option<Seq<char>>),
}

impl View for TextAction {
    type V = TextActionView;

    open spec fn view(&self) -> TextActionView {
        match self {
            TextAction::Project(body) => TextActionView::Project(body@),
            TextAction::Merge(body) => TextActionView::Merge(body@),
            TextAction::CheckScope(scope) => TextActionView::CheckScope(scope@),
            TextAction::Estimate(body) => TextActionView::Estimate(body@),
            TextAction::FindExecutor => TextActionView::FindExecutor,
            TextAction::Look(body) => TextActionView::Look(body@),
            TextAction::Guard => TextActionView::Guard,
            TextAction::Preflight(body) => TextActionView::Preflight(body@),
            TextAction::Execute => TextActionView::Execute,
            TextAction::Settle(outcome) => TextActionView::Settle(outcome@),
            TextAction::CoreStream(body, key) => TextActionView::CoreStream(
                body@,
                text::opt_view(*key),
            ),
            TextAction::Seedance(body) => TextActionView::Seedance(body@),
            TextAction::Acquire(limits) => TextActionView::Acquire(*limits),
            TextAction::Reserve(tokens) => TextActionView::Reserve(*tokens),
            TextAction::Resolve(body) => TextActionView::Resolve(body@),
            TextAction::FindCustom(model) => TextActionView::FindCustom(model@),
            TextAction::Run(pool, model, body, stream, hint, tools) => TextActionView::Run(
                *pool,
                model@,
                body@,
                *stream,
                text::opt_view(*hint),
                *tools,
            ),
            TextAction::QuotaExceeded(limit) => TextActionView::QuotaExceeded(*limit),
            TextAction::Answer(reply) => TextActionView::Answer(reply@),
            TextAction::AnswerSettled(reply, category) => TextActionView::AnswerSettled(
                reply@,
                match category {
                    Some(category) => Some(category@),
                    None => None,
                },
            ),
        }
    }
}

/// A step: the request after it, whether it is counted, and what is to be done
/// next.
pub struct TextStepView {
    pub request: TextView,
    pub counted: bool,
    pub action: TextActionView,
}

/// The request waits for the outcome of an action.
pub open spec fn waits(t: TextView, stage: TextStageView, action: TextActionView) -> TextStepView {
    TextStepView { request: TextView { stage, ..t }, counted: false, action }
}

/// The request is over, and holds no permit any more.
pub open spec fn ends(t: TextView, action: TextActionView) -> TextStepView {
    waits(TextView { permit: false, ..t }, TextStageView::Over, action)
}

/// The request is answered.
pub open spec fn answers(t: TextView, reply: ReplyView) -> TextStepView {
    ends(t, TextActionView::Answer(reply))
}

/// The request is counted.
pub open spec fn counts(step: TextStepView) -> TextStepView {
    TextStepView { counted: true, ..step }
}

/// A request whose body was read, before anything else.
pub open spec fn fresh(input: InputView, protocol: Protocol, body: JsonView) -> TextView {
    TextView {
        protocol,
        stage: TextStageView::Over,
        core: input.core,
        default_model: input.default_model,
        default_thinking: input.default_thinking,
        caller: input.caller,
        idempotency_key: access::header_value(input.idempotency_key),
        model: text_request::wanted_model(body, input.default_model),
        stream: text_request::wants_stream(body),
        explicit_effort: false,
        body,
        daily_tokens: 0,
        reserve: 0,
        request_id: Seq::empty(),
        permit: false,
    }
}

/// The client asked for an effort itself.
pub open spec fn asks_effort(body: JsonView) -> bool {
    body.text_at("reasoning_effort"@) is Some
}

/// Where Core rules, only a chat request goes on; the other endpoints serve
/// streams alone.
pub open spec fn enters_core(t: TextView) -> TextStepView {
    if t.protocol == Protocol::OpenAiText {
        answers(t, core_routes::not_enabled_reply())
    } else if t.protocol != Protocol::OpenAi && !t.stream {
        answers(t, core_routes::not_enabled_reply())
    } else if t.caller.principal is None {
        answers(t, core_routes::unauthorized_reply())
    } else if t.protocol == Protocol::OpenAi {
        waits(t, TextStageView::Scoping, TextActionView::CheckScope("chat:invoke"@))
    } else {
        waits(t, TextStageView::Over, TextActionView::CoreStream(t.body, t.idempotency_key))
    }
}

/// The request is admitted: by Core where Core rules, else by the policy of its
/// key. A request that its key may not make is not counted.
pub open spec fn admitted(t: TextView) -> TextStepView {
    if access::enforcing(t.core) {
        counts(enters_core(t))
    } else {
        match access::admission(t.caller.name(), t.caller.policy, Capability::Chat) {
            Err(refusal) => answers(t, refusal),
            Ok(limits) => counts(
                waits(
                    TextView { daily_tokens: limits.daily_tokens, ..t },
                    TextStageView::Acquiring,
                    TextActionView::Acquire(limits),
                ),
            ),
        }
    }
}

/// The first step of a chat request. A client that speaks another protocol is
/// told so.
pub open spec fn chat_opened(
    input: InputView,
    size: nat,
    parsed: Result<JsonView, Seq<char>>,
) -> TextStepView {
    let protocol = Protocol::OpenAi;
    if size > MAX_BODY_BYTES {
        answers(fresh(input, protocol, JsonView::Null), text_request::too_large(protocol))
    } else if input.anthropic_version {
        answers(
            fresh(input, protocol, JsonView::Null),
            reply::openai(
                400,
                "wrong_endpoint"@,
                "检测到 anthropic-version 头：该请求应为 Anthropic Messages 协议，请改用 POST /v1/messages（本网关单端口三协议按路径区分）"@,
            ),
        )
    } else {
        match parsed {
            Err(error) => answers(
                fresh(input, protocol, JsonView::Null),
                text_request::not_json(protocol, error),
            ),
            Ok(body) => waits(
                fresh(input, protocol, body),
                TextStageView::Merging,
                TextActionView::Merge(body),
            ),
        }
    }
}

/// The first step of a responses request.
pub open spec fn responses_opened(
    input: InputView,
    size: nat,
    parsed: Result<JsonView, Seq<char>>,
) -> TextStepView {
    let protocol = Protocol::Responses;
    if size > MAX_BODY_BYTES {
        answers(fresh(input, protocol, JsonView::Null), text_request::too_large(protocol))
    } else {
        match parsed {
            Err(error) => answers(
                fresh(input, protocol, JsonView::Null),
                text_request::not_json(protocol, error),
            ),
            Ok(body) => waits(
                fresh(input, protocol, body),
                TextStageView::Projecting,
                TextActionView::Project(body),
            ),
        }
    }
}

/// The first step of a messages request. Where Core rules, only a stream is
/// served, and a body that cannot be read asks for none.
pub open spec fn messages_opened(
    input: InputView,
    size: nat,
    parsed: Result<JsonView, Seq<char>>,
) -> TextStepView {
    let protocol = Protocol::Anthropic;
    let streams = parsed matches Ok(body) && text_request::wants_stream(body);
    if size > MAX_BODY_BYTES {
        answers(fresh(input, protocol, JsonView::Null), text_request::too_large(protocol))
    } else if access::enforcing(input.core) && !streams {
        answers(fresh(input, protocol, JsonView::Null), core_routes::not_enabled_reply())
    } else {
        match parsed {
            Err(error) => answers(
                fresh(input, protocol, JsonView::Null),
                text_request::not_json(protocol, error),
            ),
            Ok(body) => {
                let t = TextView {
                    explicit_effort: body.get("thinking"@) matches Some(thinking) && thinking
                        !is Null,
                    ..fresh(input, protocol, body)
                };
                if !(body.get("messages"@) matches Some(messages) && messages is Array) {
                    answers(t, text_request::invalid(protocol, "messages: field required"@))
                } else {
                    waits(t, TextStageView::Projecting, TextActionView::Project(body))
                }
            },
        }
    }
}

/// The first step of a text completion.
pub open spec fn completions_opened(
    input: InputView,
    size: nat,
    parsed: Result<JsonView, Seq<char>>,
) -> TextStepView {
    let protocol = Protocol::OpenAiText;
    if size > MAX_BODY_BYTES {
        answers(fresh(input, protocol, JsonView::Null), text_request::too_large(protocol))
    } else if access::enforcing(input.core) {
        answers(fresh(input, protocol, JsonView::Null), core_routes::not_enabled_reply())
    } else {
        match parsed {
            Err(error) => answers(
                fresh(input, protocol, JsonView::Null),
                text_request::not_json(protocol, error),
            ),
            Ok(body) => {
                let t = fresh(input, protocol, body);
                match text_request::prompt_of(body) {
                    Err(message) => answers(t, text_request::invalid(protocol, message)),
                    Ok(prompt) => admitted(
                        TextView {
                            body: text_request::prompt_as_chat(t.model, t.stream, prompt),
                            ..t
                        },
                    ),
                }
            },
        }
    }
}

/// The request was turned into a chat request.
pub open spec fn projected(
    t: TextView,
    body: Result<JsonView, Seq<char>>,
    conversation: Option<Seq<char>>,
) -> TextStepView {
    if t.protocol == Protocol::Anthropic {
        let chat = match body {
            Ok(body) => body,
            Err(_) => JsonView::object().member("messages"@, JsonView::Array(Seq::empty())),
        };
        match conversation {
            Some(id) => {
                let chat = chat.assigned("conversation_id"@, JsonView::Text(id));
                waits(
                    TextView { body: chat, ..t },
                    TextStageView::Merging,
                    TextActionView::Merge(chat),
                )
            },
            None => admitted(TextView { body: chat, ..t }),
        }
    } else {
        match body {
            Err(error) => answers(t, text_request::invalid(t.protocol, error)),
            Ok(body) => {
                let chat = body.with("model"@, JsonView::Text(t.model)).with(
                    "stream"@,
                    JsonView::Bool(t.stream),
                );
                waits(
                    TextView { body: chat, ..t },
                    TextStageView::Merging,
                    TextActionView::Merge(chat),
                )
            },
        }
    }
}

/// The request has the history of its conversation.
pub open spec fn merged(t: TextView, body: JsonView) -> TextStepView {
    if t.protocol == Protocol::OpenAi {
        let t = TextView {
            body,
            model: text_request::wanted_model(body, t.default_model),
            stream: text_request::wants_stream(body),
            explicit_effort: asks_effort(body),
            ..t
        };
        if seedance_chat::names_seedance(t.model) {
            waits(t, TextStageView::Over, TextActionView::Seedance(body))
        } else {
            admitted(t)
        }
    } else if t.protocol == Protocol::Responses {
        admitted(TextView { body, explicit_effort: asks_effort(body), ..t })
    } else {
        admitted(TextView { body, ..t })
    }
}

/// The caller has the scope, or not.
pub open spec fn scoped(t: TextView, granted: bool) -> TextStepView {
    if !granted {
        answers(t, core_routes::scope_reply("chat:invoke"@))
    } else if t.stream {
        waits(t, TextStageView::Over, TextActionView::CoreStream(t.body, t.idempotency_key))
    } else if t.idempotency_key is None {
        answers(
            t,
            reply::openai(
                400,
                "idempotency_key_required"@,
                "Idempotency-Key is required in Core enforce mode"@,
            ),
        )
    } else {
        let body = if t.body.get("model"@) is Some {
            t.body
        } else {
            t.body.assigned("model"@, JsonView::Text(t.model))
        };
        waits(
            TextView { body, ..t },
            TextStageView::Estimating,
            TextActionView::Estimate(body),
        )
    }
}

/// Core said what the request reserves.
pub open spec fn estimated(t: TextView, amount: Result<i64, CoreErrorView>) -> TextStepView {
    match amount {
        Err(error) => answers(t, core_routes::error_reply(error)),
        Ok(amount) => if t.caller.principal matches Some(principal) && principal.key_id
            == t.caller.name() {
            waits(
                TextView { reserve: amount, ..t },
                TextStageView::Binding,
                TextActionView::FindExecutor,
            )
        } else {
            answers(t, core_routes::error_reply(CoreErrorView::InvalidRequestIdentity))
        },
    }
}

/// Without an executor a request that its key cannot pay is told so first.
pub open spec fn without_executor(
    t: TextView,
    error: LeaseErrorView,
    balance: Result<i64, CoreErrorView>,
) -> ReplyView {
    match balance {
        Err(error) => core_routes::error_reply(error),
        Ok(available) => if available < t.reserve {
            core_routes::error_reply(CoreErrorView::QuotaInsufficient)
        } else {
            core_routes::lease_error_reply(error)
        },
    }
}

/// The answer to a request that came before.
pub open spec fn replay_answer(replay: ReplayView) -> ReplyView {
    core_routes::replay_reply(replay.request_id, replay.state, replay.result, replay.lease)
}

/// The lease waits for its settlement.
pub open spec fn settles(
    t: TextView,
    outcome: OutcomeView,
    response: Option<(u16, JsonView)>,
) -> TextStepView {
    waits(
        t,
        TextStageView::Settling(
            core_routes::upstream_reply(response),
            core_routes::health_category(outcome),
        ),
        TextActionView::Settle(outcome),
    )
}

/// Core admitted the request, or not.
pub open spec fn preflighted(
    t: TextView,
    preflight: Result<PreflightView, LeaseErrorView>,
) -> TextStepView {
    match preflight {
        Err(error) => answers(t, core_routes::lease_error_reply(error)),
        Ok(p) => if !p.execution {
            answers(t, replay_answer(p.replay))
        } else if !p.lease {
            answers(t, core_routes::not_enabled_reply())
        } else {
            let t = TextView { request_id: p.replay.request_id, ..t };
            if !p.reservation {
                settles(
                    t,
                    OutcomeView::TransportUnknown {
                        reason: "lease_context_incomplete"@,
                        upstream_request_ref: None,
                    },
                    None,
                )
            } else {
                waits(t, TextStageView::Executing, TextActionView::Execute)
            }
        },
    }
}

/// The gateway runs the tools that the request declares.
pub open spec fn tools_for(t: TextView, target: TargetView) -> bool {
    target.pool == TargetPool::Buddy && t.protocol == Protocol::Responses && target.runs_tools
}

/// The effort that a pool is asked for. A responses request carries it to every
/// pool, but not where the gateway runs its tools.
pub open spec fn hint_for(t: TextView, target: TargetView) -> Option<Seq<char>> {
    if tools_for(t, target) {
        None
    } else if target.pool == TargetPool::Buddy || t.protocol == Protocol::Responses {
        text_request::effort_hint(target.effort_hint, t.explicit_effort, t.default_thinking)
    } else {
        None
    }
}

/// The request goes to a pool.
pub open spec fn resolved(t: TextView, target: Result<TargetView, DispatchError>) -> TextStepView {
    match target {
        Err(error) => answers(t, text_request::dispatch_reply(t.protocol, t.model, error)),
        Ok(target) => {
            let hint = hint_for(t, target);
            if target.pool == TargetPool::Custom {
                waits(
                    t,
                    TextStageView::Customizing(target.model, hint),
                    TextActionView::FindCustom(t.model),
                )
            } else {
                waits(
                    t,
                    TextStageView::Over,
                    TextActionView::Run(
                        target.pool,
                        target.model,
                        t.body,
                        t.stream,
                        hint,
                        tools_for(t, target),
                    ),
                )
            }
        },
    }
}

/// The event can follow the action that the request waits for.
pub open spec fn expected(t: TextView, event: TextEventView) -> bool {
    match t.stage {
        TextStageView::Projecting => event is Projected,
        TextStageView::Merging => event is Merged,
        TextStageView::Scoping => event is Scoped,
        TextStageView::Estimating => event is Estimated,
        TextStageView::Binding => event is Executor || event is NoExecutor,
        TextStageView::Replaying => event is Looked,
        TextStageView::Guarding => event is Guarded,
        TextStageView::Preflighting => event is Preflighted,
        TextStageView::Executing => event is Executed,
        TextStageView::Settling(_, _) => event is Settled,
        TextStageView::Acquiring => event is Guarded,
        TextStageView::Reserving => event is Reserved,
        TextStageView::Resolving => event is Resolved,
        TextStageView::Customizing(_, _) => event is Custom,
        TextStageView::Over => false,
    }
}

/// The next step of a text request.
pub open spec fn text_step(t: TextView, event: TextEventView) -> TextStepView {
    match event {
        TextEventView::Projected(body, conversation) => projected(t, body, conversation),
        TextEventView::Merged(body) => merged(t, body),
        TextEventView::Scoped(granted) => scoped(t, granted),
        TextEventView::Estimated(amount) => estimated(t, amount),
        TextEventView::Executor => waits(t, TextStageView::Replaying, TextActionView::Look(t.body)),
        TextEventView::NoExecutor(error, balance) => answers(
            t,
            without_executor(t, error, balance),
        ),
        TextEventView::Looked(found) => match found {
            Err(error) => answers(t, core_routes::lease_error_reply(error)),
            Ok(Some(replay)) => answers(t, replay_answer(replay)),
            Ok(None) => waits(t, TextStageView::Guarding, TextActionView::Guard),
        },
        TextEventView::Guarded(refusal) => match refusal {
            Some(error) => answers(t, reply::limit_reply(error)),
            None => {
                let held = TextView { permit: true, ..t };
                if t.stage is Acquiring {
                    waits(held, TextStageView::Reserving, TextActionView::Reserve(t.daily_tokens))
                } else {
                    waits(held, TextStageView::Preflighting, TextActionView::Preflight(t.body))
                }
            },
        },
        TextEventView::Preflighted(preflight) => preflighted(t, preflight),
        TextEventView::Executed(outcome, response) => settles(t, outcome, response),
        TextEventView::Settled(settled) => {
            let (reply, applied) = core_routes::lease_settled_reply(
                t.stage->Settling_0,
                t.request_id,
                settled,
            );
            ends(
                t,
                TextActionView::AnswerSettled(
                    reply,
                    if applied {
                        Some(t.stage->Settling_1)
                    } else {
                        None
                    },
                ),
            )
        },
        TextEventView::Reserved(refusal) => match refusal {
            None => waits(t, TextStageView::Resolving, TextActionView::Resolve(t.body)),
            Some(TokenQuotaError::Exceeded(limit)) => ends(t, TextActionView::QuotaExceeded(limit)),
            Some(TokenQuotaError::KeyUnavailable) => ends(
                t,
                TextActionView::QuotaExceeded(t.daily_tokens),
            ),
        },
        TextEventView::Resolved(target) => resolved(t, target),
        TextEventView::Custom(found) => if found {
            waits(
                t,
                TextStageView::Over,
                TextActionView::Run(
                    TargetPool::Custom,
                    t.stage->Customizing_0,
                    t.body,
                    t.stream,
                    t.stage->Customizing_1,
                    false,
                ),
            )
        } else {
            answers(t, text_request::deleted_reply(t.protocol, t.model))
        },
    }
}

/// The model of a step.
pub open spec fn step_view(r: (TextRequest, bool, TextAction)) -> TextStepView {
    TextStepView { request: r.0@, counted: r.1, action: r.2@ }
}

fn wait(t: TextRequest, stage: TextStage, action: TextAction) -> (r: (
    TextRequest,
    bool,
    TextAction,
))
    ensures
        step_view(r) == waits(t@, stage@, action@),
{
    let mut t = t;
    t.stage = stage;
    (t, false, action)
}

fn end(t: TextRequest, action: TextAction) -> (r: (TextRequest, bool, TextAction))
    ensures
        step_view(r) == ends(t@, action@),
{
    let mut t = t;
    t.permit = false;
    wait(t, TextStage::Over, action)
}

fn answer(t: TextRequest, reply: Reply) -> (r: (TextRequest, bool, TextAction))
    ensures
        step_view(r) == answers(t@, reply@),
{
    end(t, TextAction::Answer(reply))
}

fn open(input: TextInput, protocol: Protocol, body: Json) -> (r: TextRequest)
    ensures
        r@ == fresh(input@, protocol, body@),
{
    let model = text_request::requested_model(&body, input.default_model.as_str());
    let stream = text_request::requested_stream(&body);
    let idempotency_key = access::read_header(&input.idempotency_key);
    let request_id = String::new();
    assert(request_id@ =~= Seq::empty());
    TextRequest {
        protocol,
        stage: TextStage::Over,
        core: input.core,
        default_model: input.default_model,
        default_thinking: input.default_thinking,
        caller: input.caller,
        idempotency_key,
        model,
        stream,
        explicit_effort: false,
        body,
        daily_tokens: 0,
        reserve: 0,
        request_id,
        permit: false,
    }
}

fn refuse(input: TextInput, protocol: Protocol, reply: Reply) -> (r: (
    TextRequest,
    bool,
    TextAction,
))
    ensures
        step_view(r) == answers(fresh(input@, protocol, JsonView::Null), reply@),
{
    answer(open(input, protocol, Json::Null), reply)
}

fn enter_core(t: TextRequest) -> (r: (TextRequest, bool, TextAction))
    ensures
        step_view(r) == enters_core(t@),
{
    if t.protocol == Protocol::OpenAiText {
        return answer(t, core_routes::scheduler_endpoint_not_enabled_response());
    }
    if t.protocol != Protocol::OpenAi && !t.stream {
        return answer(t, core_routes::scheduler_endpoint_not_enabled_response());
    }
    if t.caller.principal.is_none() {
        return answer(
            t,
            reply::openai_error(401, "unauthorized", "Core Principal required"),
        );
    }
    if t.protocol == Protocol::OpenAi {
        wait(t, TextStage::Scoping, TextAction::CheckScope("chat:invoke"))
    } else {
        let body = t.body.dup();
        let key = text::dup_opt(&t.idempotency_key);
        wait(t, TextStage::Over, TextAction::CoreStream(body, key))
    }
}

fn let_in(t: TextRequest) -> (r: (TextRequest, bool, TextAction))
    ensures
        step_view(r) == admitted(t@),
{
    if access::core_enforcing(t.core) {
        let (t, _, action) = enter_core(t);
        return (t, true, action);
    }
    let key_id = t.caller.name();
    match access::require_legacy_capability(key_id.as_str(), &t.caller.policy, Capability::Chat) {
        Err(refusal) => answer(t, refusal),
        Ok(limits) => {
            let mut t = t;
            t.daily_tokens = limits.daily_tokens;
            let (t, _, action) = wait(t, TextStage::Acquiring, TextAction::Acquire(limits));
            (t, true, action)
        },
    }
}

/// The first step of a chat request, where its body was read as `parsed`.
pub fn open_chat(input: TextInput, size: usize, parsed: Result<Json, String>) -> (r: (
    TextRequest,
    bool,
    TextAction,
))
    ensures
        step_view(r) == chat_opened(input@, size as nat, outside::result_model(parsed)),
{
    if size > MAX_BODY_BYTES {
        return refuse(input, Protocol::OpenAi, text_request::body_too_large(Protocol::OpenAi));
    }
    if input.anthropic_version {
        let reply = reply::openai_error(
            400,
            "wrong_endpoint",
            "检测到 anthropic-version 头：该请求应为 Anthropic Messages 协议，请改用 POST /v1/messages（本网关单端口三协议按路径区分）",
        );
        return refuse(input, Protocol::OpenAi, reply);
    }
    match parsed {
        Err(error) => refuse(
            input,
            Protocol::OpenAi,
            text_request::no_document(Protocol::OpenAi, error.as_str()),
        ),
        Ok(body) => {
            let copy = body.dup();
            let t = open(input, Protocol::OpenAi, body);
            wait(t, TextStage::Merging, TextAction::Merge(copy))
        },
    }
}

/// The first step of a chat request.
pub fn chat_completions_with_attribution(input: TextInput, body: &Vec<u8>) -> (r: (
    TextRequest,
    bool,
    TextAction,
))
    ensures
        step_view(r) == chat_opened(input@, body@.len(), outside::json_of_bytes(body@)),
{
    open_chat(input, body.len(), outside::parse_bytes(body))
}

/// The first step of a responses request, where its body was read as `parsed`.
pub fn open_responses(input: TextInput, size: usize, parsed: Result<Json, String>) -> (r: (
    TextRequest,
    bool,
    TextAction,
))
    ensures
        step_view(r) == responses_opened(input@, size as nat, outside::result_model(parsed)),
{
    if size > MAX_BODY_BYTES {
        return refuse(
            input,
            Protocol::Responses,
            text_request::body_too_large(Protocol::Responses),
        );
    }
    match parsed {
        Err(error) => refuse(
            input,
            Protocol::Responses,
            text_request::no_document(Protocol::Responses, error.as_str()),
        ),
        Ok(body) => {
            let copy = body.dup();
            let t = open(input, Protocol::Responses, body);
            wait(t, TextStage::Projecting, TextAction::Project(copy))
        },
    }
}

/// The first step of a responses request.
pub fn responses_api(input: TextInput, body: &Vec<u8>) -> (r: (TextRequest, bool, TextAction))
    ensures
        step_view(r) == responses_opened(input@, body@.len(), outside::json_of_bytes(body@)),
{
    open_responses(input, body.len(), outside::parse_bytes(body))
}

/// The first step of a messages request, where its body was read as `parsed`.
pub fn open_messages(input: TextInput, size: usize, parsed: Result<Json, String>) -> (r: (
    TextRequest,
    bool,
    TextAction,
))
    ensures
        step_view(r) == messages_opened(input@, size as nat, outside::result_model(parsed)),
{
    if size > MAX_BODY_BYTES {
        return refuse(
            input,
            Protocol::Anthropic,
            text_request::body_too_large(Protocol::Anthropic),
        );
    }
    let streams = match &parsed {
        Ok(body) => text_request::requested_stream(body),
        Err(_) => false,
    };
    if access::core_enforcing(input.core) && !streams {
        return refuse(
            input,
            Protocol::Anthropic,
            core_routes::scheduler_endpoint_not_enabled_response(),
        );
    }
    match parsed {
        Err(error) => refuse(
            input,
            Protocol::Anthropic,
            text_request::no_document(Protocol::Anthropic, error.as_str()),
        ),
        Ok(body) => {
            let copy = body.dup();
            let has_messages = match copy.get("messages") {
                Some(messages) => messages.as_array().is_some(),
                None => false,
            };
            let explicit = match copy.get("thinking") {
                Some(Json::Null) => false,
                Some(_) => true,
                None => false,
            };
            let mut t = open(input, Protocol::Anthropic, body);
            t.explicit_effort = explicit;
            if !has_messages {
                return answer(
                    t,
                    text_request::invalid_request(
                        Protocol::Anthropic,
                        "messages: field required",
                    ),
                );
            }
            wait(t, TextStage::Projecting, TextAction::Project(copy))
        },
    }
}

/// The first step of a messages request.
pub fn messages(input: TextInput, body: &Vec<u8>) -> (r: (TextRequest, bool, TextAction))
    ensures
        step_view(r) == messages_opened(input@, body@.len(), outside::json_of_bytes(body@)),
{
    open_messages(input, body.len(), outside::parse_bytes(body))
}

/// The first step of a text completion, where its body was read as `parsed`.
pub fn open_completions(input: TextInput, size: usize, parsed: Result<Json, String>) -> (r: (
    TextRequest,
    bool,
    TextAction,
))
    ensures
        step_view(r) == completions_opened(input@, size as nat, outside::result_model(parsed)),
{
    if size > MAX_BODY_BYTES {
        return refuse(
            input,
            Protocol::OpenAiText,
            text_request::body_too_large(Protocol::OpenAiText),
        );
    }
    if access::core_enforcing(input.core) {
        return refuse(
            input,
            Protocol::OpenAiText,
            core_routes::scheduler_endpoint_not_enabled_response(),
        );
    }
    match parsed {
        Err(error) => refuse(
            input,
            Protocol::OpenAiText,
            text_request::no_document(Protocol::OpenAiText, error.as_str()),
        ),
        Ok(body) => {
            let prompt = text_request::read_prompt(&body);
            let mut t = open(input, Protocol::OpenAiText, body);
            match prompt {
                Err(message) => answer(
                    t,
                    text_request::invalid_request(Protocol::OpenAiText, message),
                ),
                Ok(prompt) => {
                    t.body = text_request::chat_of_prompt(
                        t.model.as_str(),
                        t.stream,
                        prompt.as_str(),
                    );
                    let_in(t)
                },
            }
        },
    }
}

/// The first step of a text completion.
pub fn completions(input: TextInput, body: &Vec<u8>) -> (r: (TextRequest, bool, TextAction))
    ensures
        step_view(r) == completions_opened(input@, body@.len(), outside::json_of_bytes(body@)),
{
    open_completions(input, body.len(), outside::parse_bytes(body))
}

fn project(t: TextRequest, body: Result<Json, String>, conversation: Option<String>) -> (r: (
    TextRequest,
    bool,
    TextAction,
))
    ensures
        step_view(r) == projected(
            t@,
            outside::result_model(body),
            text::opt_view(conversation),
        ),
{
    let mut t = t;
    if t.protocol == Protocol::Anthropic {
        let chat = match body {
            Ok(body) => body,
            Err(_) => {
                let no_messages: Vec<Json> = Vec::new();
                let messages = Json::array(no_messages);
                assert(messages@->Array_0 =~= Seq::empty());
                Json::object().member("messages", messages)
            },
        };
        match conversation {
            Some(id) => {
                let chat = chat.assigned("conversation_id", Json::Text(id));
                t.body = chat.dup();
                wait(t, TextStage::Merging, TextAction::Merge(chat))
            },
            None => {
                t.body = chat;
                let_in(t)
            },
        }
    } else {
        match body {
            Err(error) => {
                let reply = text_request::invalid_request(t.protocol, error.as_str());
                answer(t, reply)
            },
            Ok(body) => {
                let chat = body.with("model", Json::text(t.model.as_str())).with(
                    "stream",
                    Json::Bool(t.stream),
                );
                t.body = chat.dup();
                wait(t, TextStage::Merging, TextAction::Merge(chat))
            },
        }
    }
}

fn merge(t: TextRequest, body: Json) -> (r: (TextRequest, bool, TextAction))
    ensures
        step_view(r) == merged(t@, body@),
{
    let mut t = t;
    if t.protocol == Protocol::OpenAi {
        t.model = text_request::requested_model(&body, t.default_model.as_str());
        t.stream = text_request::requested_stream(&body);
        t.explicit_effort = body.str_at("reasoning_effort").is_some();
        t.body = body.dup();
        if seedance_chat::is_seedance_model(t.model.as_str()) {
            wait(t, TextStage::Over, TextAction::Seedance(body))
        } else {
            let_in(t)
        }
    } else if t.protocol == Protocol::Responses {
        t.explicit_effort = body.str_at("reasoning_effort").is_some();
        t.body = body;
        let_in(t)
    } else {
        t.body = body;
        let_in(t)
    }
}

fn scope(t: TextRequest, granted: bool) -> (r: (TextRequest, bool, TextAction))
    ensures
        step_view(r) == scoped(t@, granted),
{
    if !granted {
        return answer(t, core_routes::core_scope_error("chat:invoke"));
    }
    if t.stream {
        let body = t.body.dup();
        let key = text::dup_opt(&t.idempotency_key);
        return wait(t, TextStage::Over, TextAction::CoreStream(body, key));
    }
    if t.idempotency_key.is_none() {
        return answer(
            t,
            reply::openai_error(
                400,
                "idempotency_key_required",
                "Idempotency-Key is required in Core enforce mode",
            ),
        );
    }
    let mut t = t;
    let body = if t.body.get("model").is_some() {
        t.body.dup()
    } else {
        t.body.dup().assigned("model", Json::text(t.model.as_str()))
    };
    t.body = body.dup();
    wait(t, TextStage::Estimating, TextAction::Estimate(body))
}

fn estimate(t: TextRequest, amount: Result<i64, CoreError>) -> (r: (TextRequest, bool, TextAction))
    ensures
        step_view(r) == estimated(t@, amount_view(amount)),
{
    match amount {
        Err(error) => answer(t, core_routes::core_error_response(&error)),
        Ok(amount) => {
            let key_id = t.caller.name();
            let own = match &t.caller.principal {
                Some(principal) => text::same(principal.key_id.as_str(), key_id.as_str()),
                None => false,
            };
            if own {
                let mut t = t;
                t.reserve = amount;
                wait(t, TextStage::Binding, TextAction::FindExecutor)
            } else {
                answer(
                    t,
                    core_routes::core_error_response(&CoreError::InvalidRequestIdentity),
                )
            }
        },
    }
}

fn replay_response(replay: &Replay) -> (r: Reply)
    ensures
        r@ == replay_answer(replay@),
{
    core_routes::core_replay_response_for(
        replay.request_id.as_str(),
        replay.state,
        &replay.result,
        replay.lease,
    )
}

fn settle(t: TextRequest, outcome: UpstreamOutcome, response: Option<(u16, Json)>) -> (r: (
    TextRequest,
    bool,
    TextAction,
))
    ensures
        step_view(r) == settles(t@, outcome@, core_routes::response_view(response)),
{
    let category = core_routes::core_health_category(&outcome);
    let reply = core_routes::settle_core_lease_response(response);
    wait(t, TextStage::Settling(reply, category), TextAction::Settle(outcome))
}

fn take_off(t: TextRequest, preflight: Result<Preflight, CoreLeaseError>) -> (r: (
    TextRequest,
    bool,
    TextAction,
))
    ensures
        step_view(r) == preflighted(
            t@,
            match preflight {
                Ok(preflight) => Ok(preflight@),
                Err(error) => Err(error@),
            },
        ),
{
    match preflight {
        Err(error) => answer(t, core_routes::core_lease_error_response(&error)),
        Ok(p) => {
            if !p.execution {
                let reply = replay_response(&p.replay);
                return answer(t, reply);
            }
            if !p.lease {
                return answer(t, core_routes::scheduler_endpoint_not_enabled_response());
            }
            let mut t = t;
            t.request_id = p.replay.request_id;
            if !p.reservation {
                settle(
                    t,
                    UpstreamOutcome::TransportUnknown {
                        reason: "lease_context_incomplete".to_owned(),
                        upstream_request_ref: None,
                    },
                    None,
                )
            } else {
                wait(t, TextStage::Executing, TextAction::Execute)
            }
        },
    }
}

fn resolve(t: TextRequest, target: Result<Target, DispatchError>) -> (r: (
    TextRequest,
    bool,
    TextAction,
))
    ensures
        step_view(r) == resolved(
            t@,
            match target {
                Ok(target) => Ok(target@),
                Err(error) => Err(error),
            },
        ),
{
    match target {
        Err(error) => {
            let reply = text_request::dispatch_error_response(t.protocol, t.model.as_str(), error);
            answer(t, reply)
        },
        Ok(target) => {
            let tools = target.pool == TargetPool::Buddy && t.protocol == Protocol::Responses
                && target.runs_tools;
            let hint = if tools {
                None
            } else if target.pool == TargetPool::Buddy || t.protocol == Protocol::Responses {
                text_request::effective_effort_hint(
                    target.effort_hint,
                    t.explicit_effort,
                    t.default_thinking,
                )
            } else {
                None
            };
            if target.pool == TargetPool::Custom {
                let model = t.model.clone();
                wait(
                    t,
                    TextStage::Customizing(target.model, hint),
                    TextAction::FindCustom(model),
                )
            } else {
                let action = TextAction::Run(
                    target.pool,
                    target.model,
                    t.body.dup(),
                    t.stream,
                    hint,
                    tools,
                );
                wait(t, TextStage::Over, action)
            }
        },
    }
}

/// The next step of a text request.
pub fn text_request_step(t: TextRequest, event: TextEvent) -> (r: (TextRequest, bool, TextAction))
    requires
        expected(t@, event@),
    ensures
        step_view(r) == text_step(t@, event@),
{
    match event {
        TextEvent::Projected(body, conversation) => project(t, body, conversation),
        TextEvent::Merged(body) => merge(t, body),
        TextEvent::Scoped(granted) => scope(t, granted),
        TextEvent::Estimated(amount) => estimate(t, amount),
        TextEvent::Executor => {
            let body = t.body.dup();
            wait(t, TextStage::Replaying, TextAction::Look(body))
        },
        TextEvent::NoExecutor(error, balance) => {
            let reply = match balance {
                Err(error) => core_routes::core_error_response(&error),
                Ok(available) => if available < t.reserve {
                    core_routes::core_error_response(&CoreError::QuotaInsufficient)
                } else {
                    core_routes::core_lease_error_response(&error)
                },
            };
            answer(t, reply)
        },
        TextEvent::Looked(found) => match found {
            Err(error) => answer(t, core_routes::core_lease_error_response(&error)),
            Ok(Some(replay)) => {
                let reply = replay_response(&replay);
                answer(t, reply)
            },
            Ok(None) => wait(t, TextStage::Guarding, TextAction::Guard),
        },
        TextEvent::Guarded(permit) => match permit {
            Err(error) => answer(t, reply::limit_error_response(&error)),
            Ok(_) => {
                let legacy = match &t.stage {
                    TextStage::Acquiring => true,
                    _ => false,
                };
                let mut t = t;
                t.permit = true;
                if legacy {
                    let tokens: u64 = t.daily_tokens;
                    wait(t, TextStage::Reserving, TextAction::Reserve(tokens))
                } else {
                    let body = t.body.dup();
                    wait(t, TextStage::Preflighting, TextAction::Preflight(body))
                }
            },
        },
        TextEvent::Preflighted(found) => take_off(t, found),
        TextEvent::Executed(outcome, response) => settle(t, outcome, response),
        TextEvent::Settled(settled) => {
            let mut t = t;
            let mut stage = TextStage::Over;
            std::mem::swap(&mut stage, &mut t.stage);
            match stage {
                TextStage::Settling(reply, category) => {
                    let (reply, applied) = core_routes::settle_core_lease_outcome(
                        reply,
                        t.request_id.as_str(),
                        settled,
                    );
                    let noted = if applied {
                        Some(category)
                    } else {
                        None
                    };
                    end(t, TextAction::AnswerSettled(reply, noted))
                },
                _ => {
                    assert(false);
                    answer(t, core_routes::scheduler_endpoint_not_enabled_response())
                },
            }
        },
        TextEvent::Reserved(reserved) => match reserved {
            Ok(_) => {
                let body = t.body.dup();
                wait(t, TextStage::Resolving, TextAction::Resolve(body))
            },
            Err(TokenQuotaError::Exceeded(limit)) => end(t, TextAction::QuotaExceeded(limit)),
            Err(TokenQuotaError::KeyUnavailable) => {
                let tokens: u64 = t.daily_tokens;
                end(t, TextAction::QuotaExceeded(tokens))
            },
        },
        TextEvent::Resolved(target) => resolve(t, target),
        TextEvent::Custom(found) => {
            let mut t = t;
            let mut stage = TextStage::Over;
            std::mem::swap(&mut stage, &mut t.stage);
            match stage {
                TextStage::Customizing(model, hint) => {
                    if found {
                        let action = TextAction::Run(
                            TargetPool::Custom,
                            model,
                            t.body.dup(),
                            t.stream,
                            hint,
                            false,
                        );
                        wait(t, TextStage::Over, action)
                    } else {
                        let reply = text_request::deleted_model(t.protocol, t.model.as_str());
                        answer(t, reply)
                    }
                },
                _ => {
                    assert(false);
                    answer(t, core_routes::scheduler_endpoint_not_enabled_response())
                },
            }
        },
    }
}

/// The stages of a request that Core rules.
pub open spec fn in_core(stage: TextStageView) -> bool {
    stage is Scoping || stage is Estimating || stage is Binding || stage is Replaying
        || stage is Guarding || stage is Preflighting || stage is Executing || stage is Settling
}

/// The actions by which a request reaches a pool of the gateway.
pub open spec fn reaches_pool(action: TextActionView) -> bool {
    action is Acquire || action is Reserve || action is Resolve || action is FindCustom
        || action is Run
}

/// Where Core rules, no request reaches a pool of the gateway: neither where it
/// is admitted, nor after Core turned it away for whatever reason.
pub proof fn law_core_never_falls_back_to_the_pool(t: TextView, event: TextEventView)
    requires
        access::enforcing(t.core),
        expected(t, event),
        in_core(t.stage) || t.stage is Projecting || t.stage is Merging,
    ensures
        ({
            let step = text_step(t, event);
            &&& !reaches_pool(step.action)
            &&& access::enforcing(step.request.core)
            &&& in_core(step.request.stage) || step.request.stage is Over
                || step.request.stage is Merging
        }),
{
}

/// The upstream is called only for a request that has an execution, a lease and
/// a reservation.
pub proof fn law_no_execution_without_a_reservation(t: TextView, event: TextEventView)
    requires
        expected(t, event),
        text_step(t, event).action is Execute,
    ensures
        event matches TextEventView::Preflighted(Ok(p)) && p.execution && p.lease && p.reservation,
{
}

/// A request that came before takes no permit: it is answered before one is
/// asked for.
pub proof fn law_a_replay_takes_no_permit(t: TextView, replay: ReplayView)
    requires
        t.stage is Replaying,
    ensures
        text_step(t, TextEventView::Looked(Ok(Some(replay)))).action == TextActionView::Answer(
            replay_answer(replay),
        ),
{
}

/// A request that its key may not make is answered, and is not counted.
pub proof fn law_a_refused_key_is_not_counted(t: TextView)
    requires
        !access::enforcing(t.core),
        access::admission(t.caller.name(), t.caller.policy, Capability::Chat) is Err,
    ensures
        !admitted(t).counted,
        admitted(t).action is Answer,
{
}

/// The stages of a request that has taken its permit.
pub open spec fn past_permit(stage: TextStageView) -> bool {
    stage is Reserving || stage is Resolving || stage is Customizing || stage is Preflighting
        || stage is Executing || stage is Settling
}

/// The request holds a permit where its stage says so, and is not handed to a
/// pool without one.
pub open spec fn accounts_for_permit(step: TextStepView) -> bool {
    &&& step.request.permit == (past_permit(step.request.stage) || step.action is Run)
    &&& step.action is Answer || step.action is AnswerSettled || step.action is QuotaExceeded
        ==> !step.request.permit
}

proof fn lemma_admission_takes_no_permit(t: TextView)
    requires
        !t.permit,
    ensures
        accounts_for_permit(admitted(t)),
        !admitted(t).request.permit,
{
    if access::enforcing(t.core) {
        assert(accounts_for_permit(enters_core(t)));
    }
}

/// A request holds a permit exactly from the time it took one: while it is on
/// its way, and when it is handed to a pool. A request that is answered holds
/// none.
pub proof fn law_a_permit_is_held_until_the_answer(t: TextView, event: TextEventView)
    requires
        expected(t, event),
        t.permit == past_permit(t.stage),
    ensures
        accounts_for_permit(text_step(t, event)),
{
    match event {
        TextEventView::Projected(body, conversation) => {
            let chat = match body {
                Ok(body) => body,
                Err(_) => JsonView::object().member("messages"@, JsonView::Array(Seq::empty())),
            };
            lemma_admission_takes_no_permit(TextView { body: chat, ..t });
            assert(accounts_for_permit(projected(t, body, conversation)));
        },
        TextEventView::Merged(body) => {
            let read = TextView {
                body,
                model: text_request::wanted_model(body, t.default_model),
                stream: text_request::wants_stream(body),
                explicit_effort: asks_effort(body),
                ..t
            };
            lemma_admission_takes_no_permit(read);
            lemma_admission_takes_no_permit(
                TextView { body, explicit_effort: asks_effort(body), ..t },
            );
            lemma_admission_takes_no_permit(TextView { body, ..t });
            assert(accounts_for_permit(merged(t, body)));
        },
        TextEventView::Scoped(granted) => {
            assert(accounts_for_permit(scoped(t, granted)));
        },
        TextEventView::Preflighted(preflight) => {
            assert(accounts_for_permit(preflighted(t, preflight)));
        },
        TextEventView::Resolved(target) => {
            assert(accounts_for_permit(resolved(t, target)));
        },
        _ => {},
    }
}

/// A request that has just come in holds no permit, whatever its endpoint.
pub proof fn law_a_new_request_holds_no_permit(
    input: InputView,
    size: nat,
    parsed: Result<JsonView, Seq<char>>,
)
    ensures
        accounts_for_permit(chat_opened(input, size, parsed)),
        accounts_for_permit(responses_opened(input, size, parsed)),
        accounts_for_permit(messages_opened(input, size, parsed)),
        accounts_for_permit(completions_opened(input, size, parsed)),
        !chat_opened(input, size, parsed).request.permit,
        !responses_opened(input, size, parsed).request.permit,
        !messages_opened(input, size, parsed).request.permit,
        !completions_opened(input, size, parsed).request.permit,
{
    if let Ok(body) = parsed {
        let t = fresh(input, Protocol::OpenAiText, body);
        if let Ok(prompt) = text_request::prompt_of(body) {
            let chat = text_request::prompt_as_chat(t.model, t.stream, prompt);
            lemma_admission_takes_no_permit(TextView { body: chat, ..t });
        }
    }
}

/// Where the tokens of the day are used up, the request that took a permit of
/// its key gives it back: it holds none, as before it asked for one.
pub proof fn law_a_used_up_quota_gives_the_permit_back(t: TextView, error: TokenQuotaError)
    requires
        t.stage is Acquiring,
        !t.permit,
    ensures
        ({
            let taken = text_step(t, TextEventView::Guarded(None));
            let refused = text_step(taken.request, TextEventView::Reserved(Some(error)));
            &&& taken.request.permit
            &&& taken.action == TextActionView::Reserve(t.daily_tokens)
            &&& expected(taken.request, TextEventView::Reserved(Some(error)))
            &&& !refused.request.permit
            &&& refused.request.stage is Over
            &&& refused.action == TextActionView::QuotaExceeded(
                match error {
                    TokenQuotaError::Exceeded(limit) => limit,
                    TokenQuotaError::KeyUnavailable => t.daily_tokens,
                },
            )
        }),
{
}

/// A request whose key cannot pay is told so, whether or not there is an
/// executor for it.
pub proof fn law_missing_quota_is_told_before_a_missing_executor(
    t: TextView,
    error: LeaseErrorView,
    available: i64,
)
    requires
        available < t.reserve,
    ensures
        text_step(t, TextEventView::NoExecutor(error, Ok(available))).action
            == TextActionView::Answer(
            core_routes::error_reply(CoreErrorView::QuotaInsufficient),
        ),
{
}

/// Every lease that a request was given is settled: after an execution, and
/// where the lease came without a reservation.
pub proof fn law_every_lease_is_settled(t: TextView, event: TextEventView)
    requires
        expected(t, event),
        event is Executed || (event matches TextEventView::Preflighted(Ok(p)) && p.execution
            && p.lease && !p.reservation),
    ensures
        text_step(t, event).action is Settle,
        text_step(t, event).request.stage is Settling,
{
}

} // verus!
