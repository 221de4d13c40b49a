//! What holds of text requests: of what they are answered, and of what is done
//! for them.

use crate::access::{self, Capability, KeyLimits, KeyView};
use crate::chat_laws;
use crate::core_routes;
use crate::core_types::{
    ChatOutcome, CoreErrorView, CoreMode, LeaseErrorView, LeaseState, OutcomeView, RequestResultView,
    RequestState, ScheduleErrorView,
};
use crate::json::JsonView;
use crate::reply::{self, LimitView, Protocol, ReplyView};
use crate::table;
use crate::text;
use crate::text_chat::{
    self, InputView, PreflightView, ReplayView, TargetPool, TargetView, TextActionView,
    TextEventView, TextStageView, TextStepView, TextView, TokenQuotaError,
};
use crate::text_request::{self, DispatchError};
use crate::text_laws;
use vstd::prelude::*;

verus! {

/// The answer is an error of that status; its client reads that code.
pub open spec fn is_error(answer: ReplyView, status: u16, code: Seq<char>) -> bool {
    &&& answer.status == status
    &&& answer.body.get("error"@) matches Some(error)
    &&& error.text_at("code"@) == Some(code)
    &&& error.text_at("message"@) is Some
}

/// The answer is an error of that status in the form of the protocol: with that
/// code, or with that kind where the protocol is Anthropic's.
pub open spec fn is_error_for(
    protocol: Protocol,
    answer: ReplyView,
    status: u16,
    code: Seq<char>,
    kind: Seq<char>,
) -> bool {
    answer.status == status && chat_laws::error_form(protocol, answer.body, code, kind)
}

/// An error of the OpenAI protocols is one.
pub broadcast proof fn lemma_openai_error(status: u16, code: Seq<char>, message: Seq<char>)
    ensures
        is_error(#[trigger] reply::openai(status, code, message), status, code),
        chat_laws::error_read(reply::openai(status, code, message).body) == Some(message),
{
    chat_laws::law_an_error_is_readable(Protocol::OpenAi, status, code, code, message);
}

/// An error of a protocol is one.
pub broadcast proof fn lemma_protocol_error(
    protocol: Protocol,
    status: u16,
    code: Seq<char>,
    kind: Seq<char>,
    message: Seq<char>,
)
    ensures
        is_error_for(
            protocol,
            #[trigger] reply::protocol_reply(protocol, status, code, kind, message),
            status,
            code,
            kind,
        ),
        chat_laws::error_read(reply::protocol_reply(protocol, status, code, kind, message).body)
            == Some(message),
{
    chat_laws::law_an_error_is_readable(protocol, status, code, kind, message);
}

/// Every error of Core is told by its own status and code: a caller is told
/// apart what it lacks (a scope, an identity, a policy, a quota), what it did
/// twice, and what failed in Core.
pub proof fn law_an_error_of_core_is_told_apart(error: CoreErrorView)
    ensures
        ({
            let answer = core_routes::error_reply(error);
            match error {
                CoreErrorView::MissingScope(scope) => is_error(answer, 403, "insufficient_scope"@)
                    && chat_laws::error_read(answer.body) == Some(
                    "missing required scope: "@ + scope,
                ),
                CoreErrorView::BudgetPolicyMissing => is_error(
                    answer,
                    400,
                    "budget_policy_missing"@,
                ),
                CoreErrorView::QuotaInsufficient => is_error(answer, 429, "insufficient_quota"@),
                CoreErrorView::KeyQuotaNotConfigured => is_error(
                    answer,
                    409,
                    "key_quota_not_configured"@,
                ),
                CoreErrorView::QuotaMigrationPending => is_error(
                    answer,
                    409,
                    "quota_migration_pending"@,
                ),
                CoreErrorView::IdempotencyConflict => is_error(
                    answer,
                    409,
                    "idempotency_conflict"@,
                ),
                CoreErrorView::InvalidRequestIdentity => is_error(answer, 401, "unauthorized"@),
                CoreErrorView::CoreModeNotEnforcing => is_error(answer, 500, "core_mode_error"@),
                CoreErrorView::RequestNotFound(message) => is_error(answer, 500, "core_error"@)
                    && chat_laws::error_read(answer.body) == Some(message),
                CoreErrorView::AdminRequired(message) => is_error(answer, 500, "core_error"@)
                    && chat_laws::error_read(answer.body) == Some(message),
                CoreErrorView::Other(message) => is_error(answer, 500, "core_error"@)
                    && chat_laws::error_read(answer.body) == Some(message),
            }
        }),
{
    broadcast use lemma_openai_error;

}

/// Every reason for which no account is leased is told by its own status and
/// code; an error of Core is told as such.
pub proof fn law_a_refused_lease_is_told_apart(error: LeaseErrorView)
    ensures
        ({
            let answer = core_routes::lease_error_reply(error);
            match error {
                LeaseErrorView::EndpointNotEnabled => is_error(
                    answer,
                    501,
                    "scheduler_endpoint_not_enabled"@,
                ),
                LeaseErrorView::Core(inner) => answer == core_routes::error_reply(inner),
                LeaseErrorView::Schedule(inner) => match inner {
                    ScheduleErrorView::NoFreshObservation => is_error(
                        answer,
                        503,
                        "no_fresh_observation"@,
                    ),
                    ScheduleErrorView::NoUpstreamCapacity => is_error(
                        answer,
                        503,
                        "no_upstream_capacity"@,
                    ),
                    ScheduleErrorView::CapabilityMismatch => is_error(
                        answer,
                        503,
                        "no_upstream_capacity"@,
                    ),
                    ScheduleErrorView::AccountCooling => is_error(
                        answer,
                        503,
                        "no_upstream_capacity"@,
                    ),
                    ScheduleErrorView::MissingScope(_) => is_error(
                        answer,
                        403,
                        "insufficient_scope"@,
                    ),
                    ScheduleErrorView::InvalidRequestIdentity => is_error(
                        answer,
                        401,
                        "unauthorized"@,
                    ),
                    ScheduleErrorView::IdempotencyConflict => is_error(
                        answer,
                        409,
                        "idempotency_conflict"@,
                    ),
                    ScheduleErrorView::Core(core) => answer == core_routes::error_reply(core),
                    ScheduleErrorView::Other => is_error(answer, 500, "scheduler_error"@),
                },
            }
        }),
{
    broadcast use lemma_openai_error;

}

/// The answer to a settled request keeps its status, its document and its other
/// headers, has the name of its request where a header can hold it, and shows
/// none of the headers that are meant for the gateway alone.
pub proof fn law_a_settled_answer_is_the_answer(
    answer: ReplyView,
    request_id: Seq<char>,
    name: Seq<char>,
)
    requires
        table::unique(answer.headers),
    ensures
        ({
            let sent = core_routes::settled_reply(answer, request_id, None);
            &&& sent.status == answer.status
            &&& sent.body == answer.body
            &&& table::find(sent.headers, "x-aiwork-core-actual-amount"@) is None
            &&& table::find(sent.headers, "x-aiwork-core-outcome"@) is None
            &&& core_routes::header_text(request_id) ==> table::find(
                sent.headers,
                "x-request-id"@,
            ) == Some(request_id)
            &&& name != "x-request-id"@ && name != "x-aiwork-core-actual-amount"@ && name
                != "x-aiwork-core-outcome"@ ==> table::find(sent.headers, name) == table::find(
                answer.headers,
                name,
            )
        }),
        forall|applied: bool|
            #[trigger] core_routes::lease_settled_reply(answer, request_id, Some(Ok(applied))) == (
                core_routes::settled_reply(answer, request_id, None),
                applied,
            ),
{
    reveal_strlit("x-request-id");
    reveal_strlit("x-aiwork-core-actual-amount");
    reveal_strlit("x-aiwork-core-outcome");
    assert("x-request-id"@.len() == 12);
    assert("x-aiwork-core-actual-amount"@.len() == 27);
    assert("x-aiwork-core-outcome"@.len() == 21);
    let one = table::without(answer.headers, "x-aiwork-core-actual-amount"@);
    let two = table::without(one, "x-aiwork-core-outcome"@);
    table::lemma_find_without(answer.headers, "x-aiwork-core-actual-amount"@);
    table::lemma_find_without(one, "x-aiwork-core-outcome"@);
    table::lemma_find_put(two, "x-request-id"@, request_id);
}

/// A header can hold a text exactly where it has no control character but the
/// tab.
pub proof fn law_a_header_holds_no_control_character(s: Seq<char>)
    ensures
        core_routes::header_text(s) == (forall|i: int|
            0 <= i < s.len() ==> (#[trigger] s[i] == '\t' || (s[i] as int >= 32 && s[i] as int
                != 127))),
{
    assert forall|i: int| 0 <= i < s.len() implies core_routes::header_char(#[trigger] s[i]) == (
    s[i] == '\t' || (s[i] as int >= 32 && s[i] as int != 127)) by {}
    if core_routes::header_text(s) {
        assert forall|i: int| 0 <= i < s.len() implies (#[trigger] s[i] == '\t' || (s[i] as int
            >= 32 && s[i] as int != 127)) by {
            assert(core_routes::header_char(s[i]));
        }
    }
}

/// A client whose request was executed gets what the upstream said: its
/// document and its status where it succeeded, else its status and the code in
/// its error. Where nothing came back, the client is told that the outcome is
/// unknown. The lease is settled with the outcome first, the answer has the
/// name of the request, and the account's health is noted exactly where the
/// settlement counted.
pub proof fn law_a_client_gets_the_answer_of_its_upstream(
    t: TextView,
    outcome: OutcomeView,
    response: Option<(u16, JsonView)>,
    applied: bool,
)
    requires
        t.stage is Executing,
    ensures
        ({
            let executed = text_chat::text_step(t, TextEventView::Executed(outcome, response));
            let settled = text_chat::text_step(
                executed.request,
                TextEventView::Settled(Some(Ok(applied))),
            );
            &&& executed.action == TextActionView::Settle(outcome)
            &&& executed.request.stage is Settling
            &&& settled.action matches TextActionView::AnswerSettled(answer, health)
            &&& !settled.request.permit
            &&& health is Some == applied
            &&& applied ==> (health == Some("success"@)) == (outcome is Success)
            &&& core_routes::header_text(t.request_id) ==> table::find(
                answer.headers,
                "x-request-id"@,
            ) == Some(t.request_id)
            &&& match response {
                Some((status, body)) => if 200 <= status < 300 {
                    answer.status == status && answer.body == body
                } else {
                    &&& is_error(
                        answer,
                        if 100 <= status < 1000 {
                            status
                        } else {
                            502
                        },
                        "upstream_error"@,
                    )
                    &&& match body.get("error"@) {
                        Some(error) => match error.text_at("code"@) {
                            Some(code) => chat_laws::error_read(answer.body) == Some(code),
                            None => chat_laws::error_read(answer.body) == Some(
                                "upstream_rejected"@,
                            ),
                        },
                        None => chat_laws::error_read(answer.body) == Some("upstream_rejected"@),
                    }
                },
                None => is_error(answer, 502, "upstream_error"@) && chat_laws::error_read(
                    answer.body,
                ) == Some("upstream transport outcome is unknown"@),
            }
        }),
{
    broadcast use lemma_openai_error;

    let reply = core_routes::upstream_reply(response);
    assert(table::unique(reply.headers));
    law_a_settled_answer_is_the_answer(reply, t.request_id, "content-type"@);
    law_health_is_told_by_the_outcome(outcome);
}

/// A settlement that failed is told instead of the reply, and notes no health.
pub proof fn law_a_failed_settlement_is_told(
    t: TextView,
    settled: Option<Result<bool, LeaseErrorView>>,
)
    requires
        t.stage is Settling,
        !(settled matches Some(Ok(_))),
    ensures
        ({
            let step = text_chat::text_step(t, TextEventView::Settled(settled));
            &&& step.action matches TextActionView::AnswerSettled(answer, health)
            &&& health is None
            &&& settled is None ==> is_error(answer, 501, "scheduler_endpoint_not_enabled"@)
            &&& settled matches Some(Err(error)) ==> answer == core_routes::lease_error_reply(error)
        }),
{
    broadcast use lemma_openai_error;

}

/// What an outcome says of its account: only a success is a success, a lost
/// connection is told by how it was lost, and a refusal by its status where its
/// code says nothing more.
pub proof fn law_health_is_told_by_the_outcome(outcome: OutcomeView)
    ensures
        ({
            let health = core_routes::health_category(outcome);
            &&& (health == "success"@) == (outcome is Success)
            &&& outcome matches OutcomeView::TransportUnknown { reason, .. } ==> {
                &&& text::contains(text::lower(reason), "timeout"@) ==> health
                    == "transport_timeout"@
                &&& !text::contains(text::lower(reason), "timeout"@) && text::contains(
                    text::lower(reason),
                    "disconnect"@,
                ) ==> health == "transport_unknown"@
                &&& !text::contains(text::lower(reason), "timeout"@) && !text::contains(
                    text::lower(reason),
                    "disconnect"@,
                ) ==> health == "server"@
            }
            &&& outcome matches OutcomeView::Rejected { status, code, .. } ==> {
                let word = core_routes::code_words(code).0;
                let session = text::contains(word, "session"@);
                let forbidden = text::contains(word, "forbidden"@);
                let lost = text::contains(word, "not_found"@) || text::contains(
                    word,
                    "notfound"@,
                );
                let credit = text::contains(word, "hard_credit"@);
                let plan = text::contains(word, "plan_limit"@);
                let rate = text::contains(word, "soft_rate"@) || text::contains(word, "rate"@);
                let silent = !session && !forbidden && !lost && !credit && !plan && !rate;
                &&& status == 401 || session ==> health == "session_dead"@
                &&& health == "session_dead"@ ==> status == 401 || session
                &&& (status == 403 || forbidden) && status != 401 && !session ==> health
                    == "forbidden"@
                &&& health == "forbidden"@ ==> status == 403 || forbidden
                &&& silent && status == 404 ==> health == "not_found"@
                &&& silent && status == 429 ==> health == "soft_rate"@
                &&& silent && 500 <= status < 600 ==> health == "server"@
                &&& silent && status != 401 && status != 403 && status != 404 && status != 429 && !(
                500 <= status < 600) ==> health == "client"@
                &&& credit && !session && !forbidden && !lost && status != 401 && status != 403
                    && status != 404 ==> health == "hard_credit"@
                &&& plan && !credit && !session && !forbidden && !lost && status != 401 && status
                    != 403 && status != 404 ==> health == "plan_limit"@
                &&& rate && !plan && !credit && !session && !forbidden && !lost && status != 401
                    && status != 403 && status != 404 ==> health == "soft_rate"@
            }
        }),
{
    reveal_strlit("success");
    reveal_strlit("transport_timeout");
    reveal_strlit("transport_unknown");
    reveal_strlit("server");
    reveal_strlit("session_dead");
    reveal_strlit("forbidden");
    reveal_strlit("not_found");
    reveal_strlit("hard_credit");
    reveal_strlit("plan_limit");
    reveal_strlit("soft_rate");
    reveal_strlit("client");
    assert("success"@.len() == 7);
    assert("transport_timeout"@.len() == 17);
    assert("transport_unknown"@.len() == 17);
    assert("server"@.len() == 6);
    assert("session_dead"@.len() == 12);
    assert("forbidden"@.len() == 9);
    assert("not_found"@.len() == 9);
    assert("hard_credit"@.len() == 11);
    assert("plan_limit"@.len() == 10);
    assert("soft_rate"@.len() == 9);
    assert("client"@.len() == 6);
    assert("forbidden"@[0] != "not_found"@[0]);
    assert("forbidden"@[0] != "soft_rate"@[0]);
}

/// A code is read in small letters and with underscores for its other joints:
/// neither a capital letter nor a hyphen nor a space is left in it, and a code
/// that has none of them is read as it is.
pub proof fn law_a_code_is_read_in_one_way(code: Seq<char>)
    ensures
        forall|i: int|
            0 <= i < core_routes::code_words(code).0.len() ==> {
                let c = #[trigger] core_routes::code_words(code).0[i];
                !('A' <= c <= 'Z') && c != '-' && c != ' '
            },
        (forall|i: int|
            0 <= i < code.len() ==> !('A' <= #[trigger] code[i] <= 'Z') && code[i] != '-' && code[i]
                != ' ') ==> core_routes::code_words(code).0 == code,
    decreases code.len(),
{
    if code.len() > 0 {
        let before = code.drop_last();
        law_a_code_is_read_in_one_way(before);
        let so_far = core_routes::code_words(before);
        let c = code.last();
        let low = text::lower_char(c);
        if 'A' <= c <= 'Z' {
            assert(low as u32 == c as u32 + 32);
        }
        let after = core_routes::code_words(code).0;
        assert forall|i: int| 0 <= i < after.len() implies {
            let c = #[trigger] after[i];
            !('A' <= c <= 'Z') && c != '-' && c != ' '
        } by {
            if i < so_far.0.len() {
                assert(after[i] == so_far.0[i]);
            }
        }
        if forall|i: int|
            0 <= i < code.len() ==> !('A' <= #[trigger] code[i] <= 'Z') && code[i] != '-' && code[i]
                != ' ' {
            assert forall|i: int| 0 <= i < before.len() implies !('A' <= #[trigger] before[i]
                <= 'Z') && before[i] != '-' && before[i] != ' ' by {
                assert(before[i] == code[i]);
            }
            assert(code[code.len() - 1] == c);
            assert(before.push(c) =~= code);
        }
    } else {
        assert(core_routes::code_words(code).0 =~= code);
    }
}

/// A reservation is settled by what the client was answered: with the amount
/// that the answer states where it is within the reservation, as unknown where
/// the answer says so or is a failure of a server, and else as refused.
pub proof fn law_a_reservation_is_settled_by_its_answer(answer: ReplyView, reserved: i64)
    ensures
        ({
            let outcome = core_routes::settlement(answer, reserved);
            let stated = table::find(answer.headers, "x-aiwork-core-actual-amount"@);
            let success = 200 <= answer.status < 300;
            let unknown = 500 <= answer.status < 600 || table::find(
                answer.headers,
                "x-aiwork-core-outcome"@,
            ) == Some("unknown"@);
            &&& outcome is Success == success
            &&& outcome is Disconnected == (!success && unknown)
            &&& !success && !unknown ==> outcome == ChatOutcome::Rejected(answer.status)
            &&& outcome matches ChatOutcome::Success(status, amount) ==> {
                &&& status == answer.status
                &&& amount matches Some(n) ==> (stated matches Some(text) && text::signed_value(
                    text,
                ) == Some(n) && 0 <= n <= reserved)
                &&& stated matches Some(text) ==> (text::signed_value(text) matches Some(n) ==> (0
                    <= n <= reserved ==> amount == Some(n)))
            }
        }),
{
}

/// A request that came before is told from its record: as served, as failed, as
/// unknown or as still on its way; and the answer has the name of the request.
pub proof fn law_a_replay_is_told_from_its_record(
    request_id: Seq<char>,
    state: RequestState,
    result: Option<RequestResultView>,
    lease: Option<LeaseState>,
)
    ensures
        ({
            let answer = core_routes::replay_reply(request_id, state, result, lease);
            let recorded = result matches Some(r) && (r.status matches Some(s) && 200 <= s < 300)
                && r.error_code is None;
            let served = recorded || lease == Some(LeaseState::Succeeded);
            let doubtful = result matches Some(r) && (r.error_code matches Some(code) && (code
                == "upstream_uncertain"@ || code == "transport_unknown"@ || code
                == "transport_timeout"@ || code == "lease_expired"@));
            &&& core_routes::header_text(request_id) ==> table::find(
                answer.headers,
                "x-request-id"@,
            ) == Some(request_id)
            &&& served ==> answer.status == 200 && answer.body.text_at("id"@) == Some(request_id)
                && answer.body.bool_at("idempotent_replay"@) == Some(true)
            &&& !served && result is None && state == RequestState::Open ==> is_error(
                answer,
                409,
                "request_in_progress"@,
            )
            &&& !served && result is None && state != RequestState::Open ==> is_error(
                answer,
                409,
                "idempotent_replay_unknown"@,
            )
            &&& !served && result is Some && doubtful ==> is_error(
                answer,
                409,
                "idempotent_replay_unknown"@,
            )
            &&& !served && result is Some && !doubtful ==> is_error(
                answer,
                409,
                "idempotent_replay_failed"@,
            )
        }),
{
    broadcast use lemma_openai_error, crate::json::group_members;

    reveal_strlit("id");
    reveal_strlit("object");
    reveal_strlit("choices");
    reveal_strlit("idempotent_replay");
    assert("id"@.len() == 2);
    assert("object"@.len() == 6);
    assert("choices"@.len() == 7);
    assert("idempotent_replay"@.len() == 17);
    let plain = table::put(reply::no_headers(), "content-type"@, "application/json"@);
    table::lemma_find_put(plain, "x-request-id"@, request_id);
}

/// The request asks for a stream, and for a model, as its body says.
pub open spec fn asks_for(t: TextView, body: JsonView, standard: Seq<char>) -> bool {
    &&& t.stream == (body.get("stream"@) == Some(JsonView::Bool(true)))
    &&& match body.get("model"@) {
        Some(JsonView::Text(model)) => if text::trim(model).len() > 0 {
            t.model == model
        } else {
            t.model == standard
        },
        _ => t.model == standard,
    }
}

/// The first step of a request at the endpoint of a protocol.
pub open spec fn opened(
    protocol: Protocol,
    input: InputView,
    size: nat,
    parsed: Result<JsonView, Seq<char>>,
) -> TextStepView {
    match protocol {
        Protocol::OpenAi => text_chat::chat_opened(input, size, parsed),
        Protocol::OpenAiText => text_chat::completions_opened(input, size, parsed),
        Protocol::Anthropic => text_chat::messages_opened(input, size, parsed),
        Protocol::Responses => text_chat::responses_opened(input, size, parsed),
    }
}

/// A body of more than eight megabytes is refused at every endpoint, and so is
/// one that is no JSON document; a request that goes on carries its own body,
/// its caller, its key, its model and its wish for a stream.
pub proof fn law_a_request_is_read_as_it_was_sent(
    protocol: Protocol,
    input: InputView,
    size: nat,
    parsed: Result<JsonView, Seq<char>>,
)
    ensures
        ({
            let step = opened(protocol, input, size, parsed);
            let legacy = input.core != Some(CoreMode::Enforce);
            &&& size > 8 * 1024 * 1024 ==> (step.action matches TextActionView::Answer(answer)
                && is_error_for(
                protocol,
                answer,
                413,
                "request_too_large"@,
                "invalid_request_error"@,
            ))
            &&& size <= 8 * 1024 * 1024 && legacy && !(protocol == Protocol::OpenAi
                && input.anthropic_version) ==> (parsed matches Err(error) ==> (
            step.action matches TextActionView::Answer(answer) && is_error_for(
                protocol,
                answer,
                400,
                "invalid_request_error"@,
                "invalid_request_error"@,
            ) && chat_laws::error_read(answer.body) == Some("invalid JSON body: "@ + error)))
            &&& protocol == Protocol::OpenAi && input.anthropic_version && size <= 8 * 1024 * 1024
                ==> (step.action matches TextActionView::Answer(answer) && is_error(
                answer,
                400,
                "wrong_endpoint"@,
            ))
            &&& step.request.protocol == protocol
            &&& step.request.caller == input.caller
            &&& step.request.core == input.core
            &&& !step.request.permit
            &&& !(step.action is Answer) ==> {
                &&& size <= 8 * 1024 * 1024
                &&& parsed matches Ok(body)
                &&& asks_for(step.request, body, input.default_model)
                &&& step.request.default_thinking == input.default_thinking
                &&& match input.idempotency_key {
                    Some(key) => if text::trim(key).len() > 0 {
                        step.request.idempotency_key == Some(text::trim(key))
                    } else {
                        step.request.idempotency_key is None
                    },
                    None => step.request.idempotency_key is None,
                }
                &&& protocol == Protocol::OpenAi ==> step.action == TextActionView::Merge(body)
                &&& protocol == Protocol::Responses ==> step.action == TextActionView::Project(body)
                &&& protocol == Protocol::Anthropic ==> step.action == TextActionView::Project(body)
                    && (body.get("messages"@) matches Some(messages) && messages is Array)
                &&& protocol != Protocol::OpenAiText ==> step.request.body == body && !step.counted
            }
        }),
{
    broadcast use lemma_openai_error, lemma_protocol_error;

}

/// A text completion is served as a chat of one message: the prompt, in the
/// user's name; it keeps its model and its wish for a stream.
pub proof fn law_a_prompt_becomes_a_message(
    input: InputView,
    size: nat,
    body: JsonView,
    prompt: Seq<char>,
)
    requires
        size <= 8 * 1024 * 1024,
        input.core != Some(CoreMode::Enforce),
        body.get("prompt"@) == Some(JsonView::Text(prompt)),
        text::trim(prompt).len() > 0,
    ensures
        ({
            let step = text_chat::completions_opened(input, size, Ok(body));
            let chat = step.request.body;
            &&& chat.text_at("model"@) == Some(step.request.model)
            &&& chat.bool_at("stream"@) == Some(step.request.stream)
            &&& chat.get("messages"@) matches Some(JsonView::Array(messages))
            &&& messages.len() == 1
            &&& messages[0].text_at("role"@) == Some("user"@)
            &&& messages[0].text_at("content"@) == Some(prompt)
        }),
{
    broadcast use crate::json::group_members;

    reveal_strlit("model");
    reveal_strlit("stream");
    reveal_strlit("messages");
    reveal_strlit("role");
    reveal_strlit("content");
    assert("model"@.len() == 5);
    assert("stream"@.len() == 6);
    assert("messages"@.len() == 8);
    assert("role"@.len() == 4);
    assert("content"@.len() == 7);
}

/// A prompt of several strings is all of them in order, parted by empty lines;
/// one without any text is refused.
pub proof fn law_a_prompt_is_all_its_strings(body: JsonView)
    ensures
        ({
            let prompt = text_request::prompt_of(body);
            &&& prompt matches Ok(s) ==> text::trim(s).len() > 0
            &&& body.get("prompt"@) matches Some(JsonView::Text(s)) ==> (text::trim(s).len() > 0
                ==> prompt == Ok::<Seq<char>, Seq<char>>(s)) && (text::trim(s).len() == 0
                ==> prompt is Err)
            &&& body.get("prompt"@) is None ==> prompt is Err
            &&& body.get("prompt"@) matches Some(JsonView::Array(items)) ==> {
                &&& items.len() == 0 ==> prompt is Err
                &&& items.len() == 1 && prompt is Ok ==> items[0] == JsonView::Text(prompt->Ok_0)
                &&& items.len() == 2 && prompt is Ok ==> (items[0] matches JsonView::Text(a) ==> (
                items[1] matches JsonView::Text(b) ==> prompt->Ok_0 == a + "\n\n"@ + b))
            }
        }),
{
    if let Some(JsonView::Array(items)) = body.get("prompt"@) {
        reveal_with_fuel(text_request::strings_in, 3);
        reveal_with_fuel(text::join, 3);
        if items.len() == 1 {
            assert(items.drop_last().len() == 0);
            if items[0] is Text {
                let s = items[0]->Text_0;
                assert(text_request::strings_in(items) =~= seq![s]);
            }
        }
        if items.len() == 2 && items[0] is Text && items[1] is Text {
            let a = items[0]->Text_0;
            let b = items[1]->Text_0;
            let one = items.drop_last();
            assert(one.drop_last().len() == 0);
            assert(one.last() == items[0]);
            assert(text_request::strings_in(one) =~= seq![a]);
            assert(text_request::strings_in(items) =~= seq![a, b]);
            assert(seq![a, b].drop_last() =~= seq![a]);
        }
    }
}

/// A chat request for the video model goes to the videos and any other does
/// not; a request keeps the body that its conversation completed.
pub proof fn law_a_completed_request_goes_on(t: TextView, body: JsonView)
    requires
        t.stage is Merging,
    ensures
        ({
            let step = text_chat::text_step(t, TextEventView::Merged(body));
            let chat = t.protocol == Protocol::OpenAi;
            &&& chat ==> asks_for(step.request, body, t.default_model)
            &&& chat && text::lower(text::trim(step.request.model)) == "seedance"@ ==> step.action
                == TextActionView::Seedance(body)
            &&& step.action is Seedance ==> chat && text::lower(text::trim(step.request.model))
                == "seedance"@
            &&& step.request.body == body
            &&& step.request.caller == t.caller && step.request.protocol == t.protocol
            &&& !chat ==> step.request.model == t.model && step.request.stream == t.stream
            &&& chat || t.protocol == Protocol::Responses ==> step.request.explicit_effort == (
            body.get("reasoning_effort"@) matches Some(effort) && effort is Text)
        }),
{
}

/// A responses request is served with the model and the wish for a stream that
/// it came with, whatever its form as a chat request says.
pub proof fn law_a_projected_request_keeps_its_wishes(t: TextView, body: JsonView)
    requires
        t.stage is Projecting,
        t.protocol == Protocol::Responses,
        body is Object,
    ensures
        ({
            let step = text_chat::text_step(t, TextEventView::Projected(Ok(body), None));
            &&& step.action matches TextActionView::Merge(chat)
            &&& chat.text_at("model"@) == Some(t.model)
            &&& chat.bool_at("stream"@) == Some(t.stream)
            &&& forall|name: Seq<char>|
                name != "model"@ && name != "stream"@ ==> #[trigger] chat.get(name) == body.get(
                    name,
                )
        }),
{
    broadcast use crate::json::group_members;

    reveal_strlit("model");
    reveal_strlit("stream");
    assert("model"@.len() == 5);
    assert("stream"@.len() == 6);
}

/// A request that its key may make is counted, takes a permit under the limits
/// of its key, sets tokens of the key aside, and is then resolved with its own
/// body. What stands in its way is told: a limit with the time to wait, and
/// tokens that are used up by their number.
pub proof fn law_a_legacy_request_is_admitted_step_by_step(
    t: TextView,
    body: JsonView,
    key: KeyView,
    limit: Option<LimitView>,
    quota: Option<TokenQuotaError>,
)
    requires
        t.stage is Merging,
        t.protocol == Protocol::Anthropic,
        t.core != Some(CoreMode::Enforce),
        t.caller.key_id == Some(key.id),
        key.id != "anonymous"@,
        t.caller.policy == Some(key),
    ensures
        ({
            let may = key.capabilities.contains("chat"@);
            let first = text_chat::text_step(t, TextEventView::Merged(body));
            let second = text_chat::text_step(first.request, TextEventView::Guarded(limit));
            let third = text_chat::text_step(second.request, TextEventView::Reserved(quota));
            &&& !may ==> !first.counted && (first.action matches TextActionView::Answer(answer)
                && is_error(answer, 403, "capability_not_allowed"@))
            &&& may ==> first.counted && first.action == TextActionView::Acquire(key.limits)
            &&& may && limit is Some ==> (second.action matches TextActionView::Answer(answer)
                && is_error(answer, 429, limit->0.code))
            &&& may && limit is None ==> second.action == TextActionView::Reserve(
                key.limits.daily_tokens,
            ) && second.request.permit
            &&& may && limit is None ==> match quota {
                None => third.action == TextActionView::Resolve(body) && third.request.permit,
                Some(TokenQuotaError::Exceeded(n)) => third.action == TextActionView::QuotaExceeded(
                    n,
                ) && !third.request.permit,
                Some(TokenQuotaError::KeyUnavailable) => third.action
                    == TextActionView::QuotaExceeded(key.limits.daily_tokens)
                    && !third.request.permit,
            }
        }),
{
    broadcast use lemma_openai_error;

}

/// A limit is told with its own code and message and the time to wait.
pub proof fn law_a_limit_says_when_to_try_again(error: LimitView)
    ensures
        is_error(reply::limit_reply(error), 429, error.code),
        chat_laws::error_read(reply::limit_reply(error).body) == Some(error.message),
        table::find(reply::limit_reply(error).headers, "retry-after"@) == Some(
            text::decimal(error.retry_after_secs as nat),
        ),
{
    broadcast use lemma_openai_error;

    table::lemma_find_put(
        table::put(reply::no_headers(), "content-type"@, "application/json"@),
        "retry-after"@,
        text::decimal(error.retry_after_secs as nat),
    );
}

/// A resolved request is handed to the pool that was found, with the model of
/// the route and its own body and wish for a stream; a model of the user's own
/// is handed on only where it still exists. Where no pool takes it, its client
/// is told why.
pub proof fn law_a_resolved_request_is_handed_on(
    t: TextView,
    target: Result<TargetView, DispatchError>,
    exists_still: bool,
)
    requires
        t.stage is Resolving,
    ensures
        ({
            let step = text_chat::text_step(t, TextEventView::Resolved(target));
            let custom = text_chat::text_step(step.request, TextEventView::Custom(exists_still));
            match target {
                Ok(to) => {
                    &&& to.pool != TargetPool::Custom ==> {
                        &&& step.action matches TextActionView::Run(
                            pool,
                            model,
                            body,
                            stream,
                            effort,
                            runs_tools,
                        )
                        &&& pool == to.pool && model == to.model
                        &&& body == t.body && stream == t.stream
                        &&& runs_tools == (to.runs_tools && to.pool == TargetPool::Buddy
                            && t.protocol == Protocol::Responses)
                    }
                    &&& to.pool == TargetPool::Custom ==> step.action
                        == TextActionView::FindCustom(t.model)
                    &&& to.pool == TargetPool::Custom && exists_still ==> {
                        &&& custom.action matches TextActionView::Run(
                            pool,
                            model,
                            body,
                            stream,
                            effort,
                            runs_tools,
                        )
                        &&& pool == TargetPool::Custom && model == to.model
                        &&& body == t.body && stream == t.stream && !runs_tools
                    }
                    &&& to.pool == TargetPool::Custom && !exists_still ==> (
                    custom.action matches TextActionView::Answer(answer) && is_error_for(
                        t.protocol,
                        answer,
                        404,
                        "model_not_found"@,
                        "model_not_found"@,
                    ) && !custom.request.permit)
                },
                Err(error) => {
                    &&& step.action matches TextActionView::Answer(answer)
                    &&& !step.request.permit
                    &&& match error {
                        DispatchError::WbDisabled => is_error_for(
                            t.protocol,
                            answer,
                            400,
                            "wb_upstream_disabled"@,
                            "invalid_request_error"@,
                        ),
                        DispatchError::ModelCooling(seconds) => is_error_for(
                            t.protocol,
                            answer,
                            429,
                            "model_cooldown"@,
                            "rate_limit_error"@,
                        ) && chat_laws::error_read(answer.body) == Some(
                            "model "@ + t.model + " cooling down, retry after "@
                                + reply::signed_text(seconds) + "s"@,
                        ),
                        DispatchError::NoHealthy => is_error_for(
                            t.protocol,
                            answer,
                            503,
                            "no_healthy_account"@,
                            "api_error"@,
                        ),
                    }
                },
            }
        }),
{
    broadcast use lemma_openai_error, lemma_protocol_error;

}

/// The effort that a pool is asked for: that of the route before anything else;
/// a high one where the client asked for none and that is the standard; none
/// where the gateway runs the tools, and none for a pool that knows no effort.
pub proof fn law_the_effort_of_a_request(t: TextView, to: TargetView)
    requires
        t.stage is Resolving,
        to.pool != TargetPool::Custom,
    ensures
        ({
            let step = text_chat::text_step(t, TextEventView::Resolved(Ok(to)));
            let tools = to.runs_tools && to.pool == TargetPool::Buddy && t.protocol
                == Protocol::Responses;
            let knows = to.pool == TargetPool::Buddy || t.protocol == Protocol::Responses;
            &&& step.action matches TextActionView::Run(_, _, _, _, effort, _)
            &&& tools || !knows ==> effort is None
            &&& !tools && knows && to.effort_hint is Some ==> effort == to.effort_hint
            &&& !tools && knows && to.effort_hint is None && t.explicit_effort ==> effort is None
            &&& !tools && knows && to.effort_hint is None && !t.explicit_effort ==> effort == (
            if t.default_thinking {
                Some("high"@)
            } else {
                None
            })
        }),
{
}

/// Where Core rules, a chat request goes this way and no other: its scope is
/// checked, its cost is estimated, an executor is found, an earlier request is
/// looked for, a permit is taken, and it is reserved, leased and executed. Each
/// step hands on the request's own body, and what fails is told.
pub proof fn law_core_admits_a_request_step_by_step(t: TextView, event: TextEventView)
    requires
        text_chat::expected(t, event),
    ensures
        ({
            let step = text_chat::text_step(t, event);
            &&& event == TextEventView::Scoped(false) ==> (
            step.action matches TextActionView::Answer(answer) && is_error(
                answer,
                403,
                "insufficient_scope"@,
            ))
            &&& event == TextEventView::Scoped(true) && t.stream ==> step.action
                == TextActionView::CoreStream(t.body, t.idempotency_key)
            &&& event == TextEventView::Scoped(true) && !t.stream && t.idempotency_key is None ==> (
            step.action matches TextActionView::Answer(answer) && is_error(
                answer,
                400,
                "idempotency_key_required"@,
            ))
            &&& event == TextEventView::Scoped(true) && !t.stream && t.idempotency_key is Some
                && t.body is Object ==> {
                &&& step.action matches TextActionView::Estimate(body)
                &&& step.request.body == body
                &&& t.body.get("model"@) is Some ==> body == t.body
                &&& t.body.get("model"@) is None ==> body.text_at("model"@) == Some(t.model)
                &&& forall|name: Seq<char>|
                    name != "model"@ ==> #[trigger] body.get(name) == t.body.get(name)
            }
            &&& event matches TextEventView::Estimated(Err(error)) ==> step.action
                == TextActionView::Answer(core_routes::error_reply(error))
            &&& event matches TextEventView::Estimated(Ok(amount)) ==> {
                let own = t.caller.principal matches Some(principal) && Some(principal.key_id)
                    == t.caller.key_id;
                &&& own ==> step.action is FindExecutor && step.request.reserve == amount
                &&& t.caller.key_id is Some && !own ==> (
                step.action matches TextActionView::Answer(answer) && is_error(
                    answer,
                    401,
                    "unauthorized"@,
                ))
            }
            &&& event is Executor ==> step.action == TextActionView::Look(t.body)
            &&& event matches TextEventView::NoExecutor(error, balance) ==> {
                &&& step.action matches TextActionView::Answer(answer)
                &&& balance matches Ok(available) ==> {
                    &&& available < t.reserve ==> is_error(answer, 429, "insufficient_quota"@)
                    &&& available >= t.reserve ==> answer == core_routes::lease_error_reply(error)
                }
                &&& balance matches Err(failure) ==> answer == core_routes::error_reply(failure)
            }
            &&& event matches TextEventView::Looked(Err(error)) ==> step.action
                == TextActionView::Answer(core_routes::lease_error_reply(error))
            &&& event matches TextEventView::Looked(Ok(Some(earlier))) ==> step.action
                == TextActionView::Answer(
                core_routes::replay_reply(
                    earlier.request_id,
                    earlier.state,
                    earlier.result,
                    earlier.lease,
                ),
            )
            &&& event == TextEventView::Looked(Ok(None)) ==> step.action is Guard
            &&& t.stage is Guarding && event == TextEventView::Guarded(None) ==> step.action
                == TextActionView::Preflight(t.body) && step.request.permit
            &&& t.stage is Guarding ==> (event matches TextEventView::Guarded(Some(limit))
                ==> step.action == TextActionView::Answer(reply::limit_reply(limit)))
            &&& event matches TextEventView::Preflighted(Err(error)) ==> step.action
                == TextActionView::Answer(core_routes::lease_error_reply(error))
            &&& event matches TextEventView::Preflighted(Ok(p)) ==> {
                &&& !p.execution ==> step.action == TextActionView::Answer(
                    core_routes::replay_reply(
                        p.replay.request_id,
                        p.replay.state,
                        p.replay.result,
                        p.replay.lease,
                    ),
                )
                &&& p.execution && !p.lease ==> (step.action matches TextActionView::Answer(answer)
                    && is_error(answer, 501, "scheduler_endpoint_not_enabled"@))
                &&& p.execution && p.lease && p.reservation ==> step.action is Execute
                    && step.request.request_id == p.replay.request_id
                &&& p.execution && p.lease && !p.reservation ==> (
                step.action matches TextActionView::Settle(outcome)
                    && outcome is TransportUnknown) && step.request.request_id
                    == p.replay.request_id
            }
        }),
{
    broadcast use lemma_openai_error, crate::json::group_members;

}

/// A key may do what its policy names, under the limits of the policy, and
/// nothing else; a request without a key may chat without limits. A policy that
/// is missing, or is another key's, lets nothing pass.
pub proof fn law_a_key_may_do_what_its_policy_names(
    key_id: Seq<char>,
    policy: Option<KeyView>,
    capability: Capability,
)
    ensures
        ({
            let name = match capability {
                Capability::Chat => "chat"@,
                Capability::Video => "video"@,
                Capability::Assets => "assets"@,
            };
            match access::admission(key_id, policy, capability) {
                Ok(limits) => if key_id == "anonymous"@ {
                    &&& capability == Capability::Chat
                    &&& limits.max_inflight is None && limits.max_video_jobs is None
                    &&& limits.daily_requests == 0 && limits.daily_tokens == 0
                } else {
                    policy matches Some(own) && own.id == key_id && own.capabilities.contains(name)
                        && limits == own.limits
                },
                Err(answer) => if key_id == "anonymous"@ {
                    capability != Capability::Chat && is_error(answer, 401, "api_key_required"@)
                } else {
                    match policy {
                        None => is_error(answer, 500, "auth_snapshot_missing"@),
                        Some(own) => {
                            &&& own.id != key_id ==> is_error(answer, 500, "auth_snapshot_missing"@)
                            &&& own.id == key_id ==> is_error(
                                answer,
                                403,
                                "capability_not_allowed"@,
                            ) && !own.capabilities.contains(name)
                        },
                    }
                },
            }
        }),
{
    broadcast use lemma_openai_error;

}

/// A key uses the accounts of its list, or any where it has no list; a key in
/// dedicated mode is bound to its own account, or else to the first of its
/// list, and no other key is bound.
pub proof fn law_a_key_uses_its_accounts(policy: Option<KeyView>, dedicated_mode: Seq<char>)
    ensures
        ({
            let rule = access::account_rule(policy, dedicated_mode);
            match policy {
                None => rule.allowed is None && rule.dedicated is None,
                Some(own) => {
                    &&& own.allowed_accounts.len() == 0 ==> rule.allowed is None
                    &&& own.allowed_accounts.len() > 0 ==> rule.allowed == Some(
                        own.allowed_accounts,
                    )
                    &&& own.schedule_mode != dedicated_mode ==> rule.dedicated is None
                    &&& own.schedule_mode == dedicated_mode && own.dedicated_account.len() > 0
                        ==> rule.dedicated == Some(own.dedicated_account)
                    &&& own.schedule_mode == dedicated_mode && own.dedicated_account.len() == 0
                        && own.allowed_accounts.len() > 0 && own.allowed_accounts[0].len() > 0
                        ==> rule.dedicated == Some(own.allowed_accounts[0])
                    &&& rule.dedicated matches Some(account) ==> account.len() > 0
                },
            }
        }),
{
}

/// After a restart the jobs of a known key count under its own limits, and those
/// without a key under none.
pub proof fn law_a_restart_keeps_the_limits_of_keys(owner: Seq<char>, known: Option<KeyLimits>)
    ensures
        ({
            let limits = access::limits_after_restart(owner, known);
            let named = text::trim(owner).len() > 0 && text::trim(owner) != "anonymous"@;
            &&& named && known is Some ==> Some(limits) == known
            &&& !named || known is None ==> limits.max_inflight is None && limits.max_video_jobs
                is None && limits.asset_uploads_per_minute is None && limits.asset_bytes_per_hour
                is None && limits.video_submissions_per_minute is None && limits.daily_requests == 0
                && limits.daily_tokens == 0
        }),
{
}

/// A prompt grows by every string that is added to it, behind an empty line;
/// anything that is no string is passed over. A first string is the prompt.
pub proof fn law_a_prompt_grows_by_its_strings(
    one: JsonView,
    more: JsonView,
    items: Seq<JsonView>,
    item: JsonView,
)
    requires
        one.get("prompt"@) == Some(JsonView::Array(items)),
        more.get("prompt"@) == Some(JsonView::Array(items.push(item))),
    ensures
        text_request::prompt_of(one) matches Ok(prompt) ==> text_request::prompt_of(more) == Ok::<
            Seq<char>,
            Seq<char>,
        >(
            match item {
                JsonView::Text(s) => prompt + "\n\n"@ + s,
                _ => prompt,
            },
        ),
        item matches JsonView::Text(s) ==> (text::trim(s).len() > 0 && (forall|i: int|
            0 <= i < items.len() ==> !(#[trigger] items[i] is Text)) ==> text_request::prompt_of(
            more,
        ) == Ok::<Seq<char>, Seq<char>>(s)),
        !(item is Text) && (forall|i: int| 0 <= i < items.len() ==> !(#[trigger] items[i] is Text))
            ==> text_request::prompt_of(more) is Err,
{
    let all = items.push(item);
    assert(all.drop_last() =~= items && all.last() == item);
    let strings = text_request::strings_in(items);
    if let JsonView::Text(s) = item {
        assert(strings.push(s).drop_last() =~= strings);
        if text_request::prompt_of(one) is Ok {
            let prompt = text_request::prompt_of(one)->Ok_0;
            lemma_not_blank(prompt, "\n\n"@ + s);
            assert(prompt + ("\n\n"@ + s) =~= prompt + "\n\n"@ + s);
        }
    }
    if forall|i: int| 0 <= i < items.len() ==> !(#[trigger] items[i] is Text) {
        lemma_no_strings(items);
    }
}

proof fn lemma_no_strings(items: Seq<JsonView>)
    requires
        forall|i: int| 0 <= i < items.len() ==> !(#[trigger] items[i] is Text),
    ensures
        text_request::strings_in(items).len() == 0,
    decreases items.len(),
{
    if items.len() > 0 {
        let less = items.drop_last();
        assert forall|i: int| 0 <= i < less.len() implies !(#[trigger] less[i] is Text) by {
            assert(less[i] == items[i]);
        }
        lemma_no_strings(less);
        assert(!(items[items.len() - 1] is Text));
    }
}

proof fn lemma_not_blank(s: Seq<char>, rest: Seq<char>)
    requires
        text::trim(s).len() > 0,
    ensures
        text::trim(s + rest).len() > 0,
{
    let t = text::trim(s);
    let all = s + rest;
    text_laws::law_trimming_takes_white_space_alone(s);
    text_laws::law_trimming_takes_white_space_alone(all);
    let (a, b) = choose|a: int, b: int|
        0 <= a <= b <= s.len() && t == #[trigger] s.subrange(a, b) && (forall|i: int|
            0 <= i < a || b <= i < s.len() ==> text::is_space(#[trigger] s[i]));
    assert(t[0] == s[a] && all[a] == s[a]);
    if text::trim(all).len() == 0 {
        let (c, d) = choose|c: int, d: int|
            0 <= c <= d <= all.len() && text::trim(all) == #[trigger] all.subrange(c, d) && (
            forall|i: int| 0 <= i < c || d <= i < all.len() ==> text::is_space(#[trigger] all[i]));
        assert(all.subrange(c, d).len() == d - c);
        assert(text::is_space(all[a]));
    }
}

/// Where Core rules, a chat is asked for its scope and the streams of the other
/// protocols go to Core as they are; nothing else is served, and nobody whom
/// Core does not know.
pub proof fn law_core_serves_chats_and_streams(t: TextView)
    ensures
        ({
            let step = text_chat::enters_core(t);
            let served = t.protocol == Protocol::OpenAi || (t.stream && t.protocol
                != Protocol::OpenAiText);
            &&& step.request.body == t.body && step.request.protocol == t.protocol
            &&& !served ==> (step.action matches TextActionView::Answer(answer) && is_error(
                answer,
                501,
                "scheduler_endpoint_not_enabled"@,
            ))
            &&& served && t.caller.principal is None ==> (
            step.action matches TextActionView::Answer(answer) && is_error(
                answer,
                401,
                "unauthorized"@,
            ))
            &&& served && t.caller.principal is Some ==> step.action == (if t.protocol
                == Protocol::OpenAi {
                TextActionView::CheckScope("chat:invoke"@)
            } else {
                TextActionView::CoreStream(t.body, t.idempotency_key)
            })
        }),
{
    broadcast use lemma_openai_error;

}

} // verus!
