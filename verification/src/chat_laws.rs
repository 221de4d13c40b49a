//! What holds of chat requests on the accounts of the pool.

use crate::aggregate_chat::{self, AggregateActionView, AggregateEventView, CollectedView};
use crate::json::JsonView;
use crate::reply::{self, Protocol, ReplyView, StreamErrorView};
use crate::rotation::{self, DiagnosisView, EffectView, RetryAction, RotationView, Stage};
use crate::stream_chat::{self, StreamAction, StreamEventView};
use crate::table;
use crate::text;
use crate::video_events::ErrKind;
use crate::text_laws;
use vstd::prelude::*;

verus! {

/// What a client of the protocol reads as the message of an error that ends
/// its stream.
pub open spec fn message_read(protocol: Protocol, event: StreamErrorView) -> Option<Seq<char>> {
    let holder = match protocol {
        Protocol::Responses => event.document.get("response"@),
        _ => Some(event.document),
    };
    match holder {
        Some(document) => match document.get("error"@) {
            Some(error) => error.text_at("message"@),
            None => None,
        },
        None => None,
    }
}

/// The event has the name and the end that a client of the protocol waits for.
pub open spec fn in_form(protocol: Protocol, event: StreamErrorView) -> bool {
    match protocol {
        Protocol::OpenAi => event.event is None && event.end_mark,
        Protocol::OpenAiText => event.event is None && event.end_mark,
        Protocol::Anthropic => event.event == Some("error"@) && !event.end_mark
            && event.document.text_at("type"@) == Some("error"@),
        Protocol::Responses => event.event == Some("response.failed"@) && !event.end_mark
            && event.document.text_at("type"@) == Some("response.failed"@),
    }
}

/// An error that ends a stream reaches its client: a client of any protocol
/// recognises the event and reads the message.
pub proof fn law_a_stream_error_is_readable(
    protocol: Protocol,
    code: i64,
    message: Seq<char>,
    now: u64,
)
    ensures
        in_form(protocol, reply::stream_error(protocol, code, message, now)),
        message_read(protocol, reply::stream_error(protocol, code, message, now)) == Some(message),
        in_form(protocol, stream_chat::no_account_event(protocol, now)),
        message_read(protocol, stream_chat::no_account_event(protocol, now)) == Some(
            "no healthy account available"@,
        ),
{
    broadcast use crate::json::group_members;

    reveal_strlit("error");
    reveal_strlit("message");
    reveal_strlit("type");
    reveal_strlit("code");
    reveal_strlit("response");
    reveal_strlit("id");
    reveal_strlit("object");
    reveal_strlit("status");
    reveal_strlit("output");
    assert("error"@.len() == 5);
    assert("message"@.len() == 7);
    assert("type"@.len() == 4);
    assert("code"@.len() == 4);
    assert("response"@.len() == 8);
    assert("id"@.len() == 2);
    assert("object"@.len() == 6);
    assert("status"@.len() == 6);
    assert("output"@.len() == 6);
    assert("type"@[0] != "code"@[0]);
    assert("object"@[0] != "status"@[0]);
    assert("object"@[1] != "output"@[1]);
    assert("status"@[0] != "output"@[0]);
}

/// Something was noted down.
pub open spec fn noted(effects: Seq<EffectView>, effect: EffectView) -> bool {
    exists|i: int| 0 <= i < effects.len() && #[trigger] effects[i] == effect
}

/// All that was noted down of accounts is of this one.
pub open spec fn only_of(effects: Seq<EffectView>, uid: Seq<char>) -> bool {
    forall|i: int|
        0 <= i < effects.len() ==> match #[trigger] effects[i] {
            EffectView::Active(other) => other == uid,
            EffectView::Failed(other, _) => other == uid,
            EffectView::Served(other) => other == uid,
            _ => true,
        }
}

/// The client was sent nothing.
pub open spec fn unsent(effects: Seq<EffectView>) -> bool {
    forall|i: int| 0 <= i < effects.len() ==> !((#[trigger] effects[i]) is Send)
}

/// The client was sent one event and reads that message in it.
pub open spec fn told(protocol: Protocol, effects: Seq<EffectView>, message: Seq<char>) -> bool {
    &&& exists|i: int| 0 <= i < effects.len() && (#[trigger] effects[i]) is Send
    &&& forall|i: int|
        0 <= i < effects.len() ==> ((#[trigger] effects[i]) matches EffectView::Send(event)
            ==> in_form(protocol, event) && message_read(protocol, event) == Some(message))
}

/// The failure of an account for which another account is tried: the upstream
/// says to, or it says nothing, or its stream holds an error of the account
/// before anything reached the client.
pub open spec fn account_failed(event: StreamEventView) -> Option<ErrKind> {
    match event {
        StreamEventView::Refused(_, _, RetryAction::SwitchKey, kind) => Some(kind),
        StreamEventView::Silent => Some(ErrKind::Server),
        StreamEventView::Ended(o) => match o.failure {
            Some(failure) => if !o.sent_any && failure.kind != ErrKind::NoError {
                Some(failure.kind)
            } else {
                None
            },
            None => None,
        },
        _ => None,
    }
}

/// A streamed request goes on to the next account whenever an account fails
/// and another may be used: the failure is noted, the client hears nothing of
/// it and the accounts stay counted. The client is told that no account is
/// healthy exactly where none is left, or none was found.
pub proof fn law_a_stream_goes_on_while_accounts_are_left(
    r: RotationView,
    event: StreamEventView,
    now: u64,
)
    requires
        stream_chat::expected(r, event),
    ensures
        ({
            let step = stream_chat::stream_step(r, event, now);
            let none = "no healthy account available"@;
            &&& account_failed(event) matches Some(kind) ==> {
                &&& noted(step.effects, EffectView::Failed(r.uid, kind))
                &&& only_of(step.effects, r.uid)
                &&& step.rotation.tried == r.tried
                &&& step.rotation.left == r.left
                &&& r.left > 0 ==> step.action == StreamAction::Pick && unsent(step.effects)
                    && step.rotation.stage == Stage::Picking
                &&& r.left == 0 ==> step.action == StreamAction::Stop && told(
                    r.protocol,
                    step.effects,
                    none,
                ) && step.rotation.stage == Stage::Over
            }
            &&& event == StreamEventView::Picked(None) ==> step.action == StreamAction::Stop && told(
                r.protocol,
                step.effects,
                none,
            )
            &&& step.action == StreamAction::Pick ==> account_failed(event) is Some && r.left > 0
        }),
{
    let step = stream_chat::stream_step(r, event, now);
    law_a_stream_error_is_readable(r.protocol, 0, Seq::empty(), now);
    if let Some(kind) = account_failed(event) {
        if event is Ended {
            assert(step.effects[1] == EffectView::Failed(r.uid, kind));
        } else {
            assert(step.effects[0] == EffectView::Failed(r.uid, kind));
        }
        if r.left == 0 {
            assert(step.effects[step.effects.len() - 1] is Send);
        }
    }
    if event == StreamEventView::Picked(None) {
        assert(step.effects[step.effects.len() - 1] is Send);
    }
}

/// An account is used in this order: it is picked, bound, its use is recorded,
/// and only then the request is sent to it. Where it cannot be bound or
/// recorded, nothing is sent upstream and the client is told.
pub proof fn law_a_stream_is_sent_to_a_recorded_account(
    r: RotationView,
    event: StreamEventView,
    now: u64,
)
    requires
        stream_chat::expected(r, event),
    ensures
        ({
            let step = stream_chat::stream_step(r, event, now);
            &&& step.action == StreamAction::Bind <==> (event matches StreamEventView::Picked(uid)
                && uid is Some)
            &&& step.action == StreamAction::Record <==> event is Bound
            &&& step.action is Send <==> event is Recorded || (
            event matches StreamEventView::Refused(_, _, action, _) && action is RetrySame)
            &&& event matches StreamEventView::Picked(Some(uid)) ==> {
                &&& step.rotation.uid == uid
                &&& step.rotation.tried == r.tried.push(uid)
                &&& step.rotation.left + 1 == r.left
                &&& step.rotation.same_attempt == 0
                &&& step.rotation.stage == Stage::Binding
                &&& noted(step.effects, EffectView::Active(uid))
                &&& unsent(step.effects)
            }
            &&& event is Bound ==> step.rotation.stage == Stage::Recording && step.effects.len()
                == 0
            &&& event is Recorded ==> step.rotation.stage == Stage::Sending && step.effects.len()
                == 0 && step.action == StreamAction::Send(0)
            &&& event is Unbound ==> step.action == StreamAction::Stop && told(
                r.protocol,
                step.effects,
                "Core 请求无法建立独立的上游用量会话，已阻止未记录的上游调用"@,
            )
            &&& event is NotRecorded ==> step.action == StreamAction::Stop && told(
                r.protocol,
                step.effects,
                "Core 请求与上游会话归因暂不可用，已阻止未记录的上游调用"@,
            )
            &&& !(event is Picked) ==> step.rotation.uid == r.uid
            &&& step.rotation.protocol == r.protocol
        }),
{
    let step = stream_chat::stream_step(r, event, now);
    law_a_stream_error_is_readable(r.protocol, 503, rotation::unbound_message(), now);
    law_a_stream_error_is_readable(r.protocol, 503, rotation::unrecorded_message(), now);
    match event {
        StreamEventView::Picked(Some(uid)) => {
            assert(step.effects[0] == EffectView::Active(uid));
        },
        StreamEventView::Unbound => {
            assert(step.effects[0] is Send);
        },
        StreamEventView::NotRecorded => {
            assert(step.effects[1] is Send);
        },
        _ => {},
    }
}

/// A refusal that asks for patience is met with it: the request is sent again
/// to the same account, after the time that was asked for and after a minute
/// at most. A refusal of the request itself ends it, and its client is told
/// the status and the start of what the upstream said.
pub proof fn law_a_stream_obeys_its_refusals(
    r: RotationView,
    status: u16,
    body: Seq<char>,
    action: RetryAction,
    kind: ErrKind,
    now: u64,
)
    requires
        stream_chat::expected(r, StreamEventView::Refused(status, body, action, kind)),
    ensures
        ({
            let step = stream_chat::stream_step(
                r,
                StreamEventView::Refused(status, body, action, kind),
                now,
            );
            &&& action matches RetryAction::RetrySame(delay) ==> {
                &&& step.action matches StreamAction::Send(wait)
                &&& wait <= delay && wait <= 60000 && (wait == delay || wait == 60000)
                &&& step.effects.len() == 0
                &&& step.rotation == (RotationView {
                    same_attempt: (r.same_attempt + 1) as u32,
                    ..r
                })
            }
            &&& action is Fatal ==> {
                &&& step.action == StreamAction::Stop
                &&& told(
                    r.protocol,
                    step.effects,
                    "upstream "@ + text::decimal(status as nat) + " error: "@
                        + reply::bounded_prefix(body, 300),
                )
                &&& noted(step.effects, EffectView::Usage(r.uid, false, 0, 0, false))
            }
        }),
{
    let step = stream_chat::stream_step(r, StreamEventView::Refused(status, body, action, kind), now);
    law_a_stream_error_is_readable(
        r.protocol,
        status as i64,
        rotation::fault(status, body),
        now,
    );
    if action is Fatal {
        assert(step.effects[2] is Send);
        assert(step.effects[3] == EffectView::Usage(r.uid, false, 0, 0, false));
    }
}

/// A stream that was read to its end is counted once, with its tokens, and
/// charged exactly where it holds no error. Where it holds none, its account
/// served: that is noted, and the turn is kept where it belongs to a
/// conversation. An error that is not the account's ends the stream, and a
/// client that was sent nothing is told of it.
pub proof fn law_a_read_stream_is_counted_once(
    r: RotationView,
    o: stream_chat::StreamOutcomeView,
    now: u64,
)
    ensures
        ({
            let step = stream_chat::stream_step(r, StreamEventView::Ended(o), now);
            let own = EffectView::Usage(
                r.uid,
                o.failure is None,
                o.prompt_tokens,
                o.completion_tokens,
                o.failure is None,
            );
            &&& noted(step.effects, own)
            &&& forall|i: int|
                0 <= i < step.effects.len() && #[trigger] step.effects[i] is Usage
                    && step.effects[i] != own ==> step.effects[i] == EffectView::Usage(
                    "none"@,
                    false,
                    0,
                    0,
                    false,
                )
            &&& noted(step.effects, EffectView::Served(r.uid)) == (o.failure is None)
            &&& noted(step.effects, EffectView::Remember) == (o.failure is None && o.remembered)
            &&& o.failure is None ==> step.action == StreamAction::Stop && unsent(step.effects)
            &&& o.failure matches Some(failure) ==> {
                &&& failure.kind == ErrKind::NoError ==> step.action == StreamAction::Stop
                &&& failure.kind == ErrKind::NoError && !o.sent_any ==> told(
                    r.protocol,
                    step.effects,
                    failure.message,
                )
                &&& failure.kind != ErrKind::NoError ==> noted(
                    step.effects,
                    EffectView::Failed(r.uid, failure.kind),
                )
            }
        }),
{
    let step = stream_chat::stream_step(r, StreamEventView::Ended(o), now);
    assert(step.effects[0] == EffectView::Usage(
        r.uid,
        o.failure is None,
        o.prompt_tokens,
        o.completion_tokens,
        o.failure is None,
    ));
    match o.failure {
        None => {
            if o.remembered {
                assert(step.effects[1] == EffectView::Remember);
                assert(step.effects[2] == EffectView::Served(r.uid));
            } else {
                assert(step.effects[1] == EffectView::Served(r.uid));
            }
        },
        Some(failure) => {
            law_a_stream_error_is_readable(r.protocol, failure.code, failure.message, now);
            if failure.kind != ErrKind::NoError {
                assert(step.effects[1] == EffectView::Failed(r.uid, failure.kind));
            } else if !o.sent_any {
                assert(step.effects[1] is Send);
            }
        },
    }
}

/// Every line of the log on an account's part in a stream names the account
/// and has the status that the client or the upstream gave.
pub proof fn law_a_stream_is_logged_as_it_went(r: RotationView, event: StreamEventView, now: u64)
    requires
        stream_chat::expected(r, event),
    ensures
        ({
            let step = stream_chat::stream_step(r, event, now);
            let status = match event {
                StreamEventView::Refused(status, _, _, _) => status,
                StreamEventView::Silent => 504u16,
                StreamEventView::Ended(_) => 200u16,
                _ => 503u16,
            };
            &&& forall|i: int|
                0 <= i < step.effects.len() ==> (#[trigger] step.effects[i] matches EffectView::Log(
                    logged,
                    uid,
                    _,
                ) ==> (uid == r.uid && logged == status) || (uid == "none"@ && logged == 503
                    && told(r.protocol, step.effects, "no healthy account available"@)))
            &&& (event is Silent || event is Ended || event is NotRecorded || (
            event matches StreamEventView::Refused(_, _, action, _) && !(action is RetrySame)))
                ==> exists|i: int|
                0 <= i < step.effects.len() && (#[trigger] step.effects[i] matches EffectView::Log(
                    logged,
                    uid,
                    _,
                ) && uid == r.uid && logged == status)
        }),
{
    let step = stream_chat::stream_step(r, event, now);
    law_a_stream_goes_on_while_accounts_are_left(r, event, now);
    match event {
        StreamEventView::Silent => {
            assert(step.effects[2] is Log);
        },
        StreamEventView::NotRecorded => {
            assert(step.effects[0] is Log);
        },
        StreamEventView::Refused(_, _, action, _) => {
            if action is Fatal {
                assert(step.effects[0] is Log);
            } else if action is SwitchKey {
                assert(step.effects[2] is Log);
            }
        },
        StreamEventView::Ended(o) => {
            match o.failure {
                None => {
                    if o.remembered {
                        assert(step.effects[3] is Log);
                    } else {
                        assert(step.effects[2] is Log);
                    }
                },
                Some(failure) => {
                    if failure.kind != ErrKind::NoError {
                        assert(step.effects[3] is Log);
                    } else if o.sent_any {
                        assert(step.effects[1] is Log);
                    } else {
                        assert(step.effects[2] is Log);
                    }
                },
            }
        },
        _ => {},
    }
}

/// What a client of the protocol reads as the message of an error document.
pub open spec fn error_read(document: JsonView) -> Option<Seq<char>> {
    match document.get("error"@) {
        Some(error) => error.text_at("message"@),
        None => None,
    }
}

/// An error document has the form of the protocol: with a code for the OpenAI
/// protocols, with a kind for the Anthropic protocol.
pub open spec fn error_form(
    protocol: Protocol,
    document: JsonView,
    code: Seq<char>,
    kind: Seq<char>,
) -> bool {
    &&& document.get("error"@) matches Some(error)
    &&& if protocol == Protocol::Anthropic {
        document.text_at("type"@) == Some("error"@) && error.text_at("type"@) == Some(kind)
    } else {
        error.text_at("code"@) == Some(code)
    }
}

/// An error keeps its status, and a client of any protocol reads its code and
/// its message.
pub proof fn law_an_error_is_readable(
    protocol: Protocol,
    status: u16,
    code: Seq<char>,
    kind: Seq<char>,
    message: Seq<char>,
)
    ensures
        ({
            let r = reply::protocol_reply(protocol, status, code, kind, message);
            &&& r.status == status
            &&& error_read(r.body) == Some(message)
            &&& error_form(protocol, r.body, code, kind)
        }),
        ({
            let r = reply::openai(status, code, message);
            &&& r.status == status
            &&& error_read(r.body) == Some(message)
            &&& error_form(Protocol::OpenAi, r.body, code, kind)
        }),
{
    broadcast use crate::json::group_members;

    reveal_strlit("error");
    reveal_strlit("message");
    reveal_strlit("type");
    reveal_strlit("code");
    assert("error"@.len() == 5);
    assert("message"@.len() == 7);
    assert("type"@.len() == 4);
    assert("code"@.len() == 4);
    assert("type"@[0] != "code"@[0]);
}

/// The failure of an account for which another account is tried: the upstream
/// says to, or its stream holds an error, or nothing at all.
pub open spec fn account_failed_to_collect(event: AggregateEventView) -> Option<ErrKind> {
    match event {
        AggregateEventView::Refused(_, _, RetryAction::SwitchKey, kind) => Some(kind),
        AggregateEventView::StreamFailed(failure) => Some(failure.kind),
        AggregateEventView::Empty => Some(ErrKind::Server),
        _ => None,
    }
}

/// A request whose reply is collected goes on to the next account whenever an
/// account fails and another may be used; its client is answered that no
/// account is healthy exactly where none is left, or none was found.
pub proof fn law_collecting_goes_on_while_accounts_are_left(
    r: RotationView,
    event: AggregateEventView,
)
    requires
        aggregate_chat::expected(r, event),
    ensures
        ({
            let step = aggregate_chat::aggregate_step(r, event);
            let none = "no healthy account available"@;
            &&& account_failed_to_collect(event) matches Some(kind) ==> {
                &&& noted(step.effects, EffectView::Failed(r.uid, kind))
                &&& noted(step.effects, EffectView::Usage(r.uid, false, 0, 0, false))
                &&& only_of(step.effects, r.uid)
                &&& step.rotation.tried == r.tried
                &&& step.rotation.left == r.left
                &&& r.left > 0 ==> step.action is Pick && step.rotation.stage == Stage::Picking
                &&& r.left == 0 ==> step.action is Answer
            }
            &&& (event == AggregateEventView::Picked(None) || (account_failed_to_collect(event) is Some
                && r.left == 0)) ==> (step.action matches AggregateActionView::Answer(answer)
                && answer.status == 503 && error_read(answer.body) == Some(none) && error_form(
                r.protocol,
                answer.body,
                "no_healthy_account"@,
                "api_error"@,
            ))
            &&& step.action is Pick ==> account_failed_to_collect(event) is Some && r.left > 0
        }),
{
    let step = aggregate_chat::aggregate_step(r, event);
    law_an_error_is_readable(
        r.protocol,
        503,
        "no_healthy_account"@,
        "api_error"@,
        "no healthy account available"@,
    );
    match event {
        AggregateEventView::Refused(_, _, RetryAction::SwitchKey, kind) => {
            assert(step.effects[0] == EffectView::Failed(r.uid, kind));
            assert(step.effects[2] == EffectView::Usage(r.uid, false, 0, 0, false));
        },
        AggregateEventView::StreamFailed(failure) => {
            assert(step.effects[0] == EffectView::Failed(r.uid, failure.kind));
            assert(step.effects[2] == EffectView::Usage(r.uid, false, 0, 0, false));
        },
        AggregateEventView::Empty => {
            assert(step.effects[0] == EffectView::Failed(r.uid, ErrKind::Server));
            assert(step.effects[1] == EffectView::Usage(r.uid, false, 0, 0, false));
        },
        _ => {},
    }
}

/// A client gets the reply that was collected for it, in the form of its own
/// protocol: the Responses form exactly where it speaks that protocol, and else
/// the document itself. The account served, and is counted with the tokens of
/// the reply; the turn is kept where it belongs to a conversation.
pub proof fn law_a_client_gets_the_collected_reply(r: RotationView, collected: CollectedView)
    ensures
        ({
            let step = aggregate_chat::aggregate_step(r, AggregateEventView::Complete(collected));
            &&& step.action matches AggregateActionView::Answer(answer)
            &&& answer.status == 200
            &&& r.protocol == Protocol::Responses ==> answer.body == collected.as_response
            &&& r.protocol != Protocol::Responses ==> answer.body == collected.document
            &&& table::find(answer.headers, "content-type"@) == Some("application/json"@)
            &&& noted(step.effects, EffectView::Served(r.uid))
            &&& noted(
                step.effects,
                EffectView::Usage(
                    r.uid,
                    true,
                    collected.prompt_tokens,
                    collected.completion_tokens,
                    true,
                ),
            )
            &&& noted(step.effects, EffectView::Remember) == collected.remembered
            &&& noted(step.effects, EffectView::Log(200, r.uid, None))
            &&& only_of(step.effects, r.uid)
            &&& step.rotation.stage == Stage::Over
        }),
{
    let step = aggregate_chat::aggregate_step(r, AggregateEventView::Complete(collected));
    table::lemma_find_put(reply::no_headers(), "content-type"@, "application/json"@);
    let own = EffectView::Usage(
        r.uid,
        true,
        collected.prompt_tokens,
        collected.completion_tokens,
        true,
    );
    if collected.remembered {
        assert(step.effects[0] == EffectView::Remember);
        assert(step.effects[1] == own);
        assert(step.effects[2] == EffectView::Served(r.uid));
        assert(step.effects[3] == EffectView::Log(200, r.uid, None));
    } else {
        assert(step.effects[0] == own);
        assert(step.effects[1] == EffectView::Served(r.uid));
        assert(step.effects[2] == EffectView::Log(200, r.uid, None));
    }
}

/// An account is used in this order: it is picked, bound, its use is recorded,
/// and only then the request is sent to it. Where it cannot be bound or
/// recorded, nothing is sent upstream and the client is told.
pub proof fn law_collecting_asks_a_recorded_account(r: RotationView, event: AggregateEventView)
    requires
        aggregate_chat::expected(r, event),
    ensures
        ({
            let step = aggregate_chat::aggregate_step(r, event);
            &&& step.action is Bind <==> (event matches AggregateEventView::Picked(uid)
                && uid is Some)
            &&& step.action is Record <==> event is Bound
            &&& step.action is Send <==> event is Recorded || (
            event matches AggregateEventView::Refused(_, _, action, _) && action is RetrySame)
            &&& event matches AggregateEventView::Picked(Some(uid)) ==> {
                &&& step.rotation.uid == uid
                &&& step.rotation.tried == r.tried.push(uid)
                &&& step.rotation.left + 1 == r.left
                &&& step.rotation.same_attempt == 0
                &&& step.rotation.stage == Stage::Binding
                &&& noted(step.effects, EffectView::Active(uid))
            }
            &&& event is Bound ==> step.rotation.stage == Stage::Recording && step.effects.len()
                == 0
            &&& event is Recorded ==> step.rotation.stage == Stage::Sending && step.effects.len()
                == 0 && step.action == AggregateActionView::Send(0)
            &&& event is Unbound || event is NotRecorded ==> (
            step.action matches AggregateActionView::Answer(answer) && answer.status == 503
                && error_form(
                r.protocol,
                answer.body,
                "core_attribution_unavailable"@,
                "api_error"@,
            ) && error_read(answer.body) == Some(
                if event is Unbound {
                    "Core 请求无法建立独立的上游用量会话，已阻止未记录的上游调用"@
                } else {
                    "Core 请求与上游会话归因暂不可用，已阻止未记录的上游调用"@
                },
            ))
            &&& !(event is Picked) ==> step.rotation.uid == r.uid
            &&& step.rotation.protocol == r.protocol
        }),
{
    let step = aggregate_chat::aggregate_step(r, event);
    law_an_error_is_readable(
        r.protocol,
        503,
        "core_attribution_unavailable"@,
        "api_error"@,
        rotation::unbound_message(),
    );
    law_an_error_is_readable(
        r.protocol,
        503,
        "core_attribution_unavailable"@,
        "api_error"@,
        rotation::unrecorded_message(),
    );
    if let AggregateEventView::Picked(Some(uid)) = event {
        assert(step.effects[0] == EffectView::Active(uid));
    }
}

/// A refusal that asks for patience is met with it; one of the request itself
/// ends it with the upstream's status and the start of what it said; a stream
/// that broke off is answered as such, and costs no account its standing.
pub proof fn law_collecting_obeys_refusals(r: RotationView, event: AggregateEventView)
    requires
        aggregate_chat::expected(r, event),
    ensures
        ({
            let step = aggregate_chat::aggregate_step(r, event);
            &&& event matches AggregateEventView::Refused(
                _,
                _,
                RetryAction::RetrySame(delay),
                _,
            ) ==> {
                &&& step.action matches AggregateActionView::Send(wait)
                &&& wait <= delay && wait <= 60000 && (wait == delay || wait == 60000)
                &&& step.effects.len() == 0
                &&& step.rotation == (RotationView {
                    same_attempt: (r.same_attempt + 1) as u32,
                    ..r
                })
            }
            &&& event matches AggregateEventView::Refused(status, body, RetryAction::Fatal, _)
                ==> {
                &&& step.action matches AggregateActionView::Answer(answer)
                &&& 100 <= status < 1000 ==> answer.status == status
                &&& !(100 <= status < 1000) ==> answer.status == 502
                &&& error_form(r.protocol, answer.body, "upstream_error"@, "api_error"@)
                &&& error_read(answer.body) == Some(
                    "upstream "@ + text::decimal(status as nat) + " error: "@
                        + reply::bounded_prefix(body, 300),
                )
                &&& noted(step.effects, EffectView::Usage(r.uid, false, 0, 0, false))
                &&& forall|i: int|
                    0 <= i < step.effects.len() ==> !(#[trigger] step.effects[i] is Failed)
            }
            &&& event matches AggregateEventView::BrokenOff(message) ==> {
                &&& step.action matches AggregateActionView::Answer(answer)
                &&& answer.status == 503
                &&& error_form(
                    r.protocol,
                    answer.body,
                    "incomplete_upstream"@,
                    "incomplete_upstream"@,
                )
                &&& error_read(answer.body) == Some(message)
                &&& step.effects.len() == 0
            }
        }),
{
    let step = aggregate_chat::aggregate_step(r, event);
    match event {
        AggregateEventView::Refused(status, body, RetryAction::Fatal, _) => {
            law_an_error_is_readable(
                r.protocol,
                reply::status_or(status, 502),
                "upstream_error"@,
                "api_error"@,
                rotation::fault(status, body),
            );
            assert(step.effects[2] == EffectView::Usage(r.uid, false, 0, 0, false));
        },
        AggregateEventView::BrokenOff(message) => {
            law_an_error_is_readable(
                r.protocol,
                503,
                "incomplete_upstream"@,
                "incomplete_upstream"@,
                message,
            );
        },
        _ => {},
    }
}

/// A request begins with every account of the pool before it, and none used.
pub proof fn law_every_account_may_be_used_once(protocol: Protocol, accounts: u64)
    ensures
        ({
            let r = rotation::begun(protocol, accounts);
            &&& r.left >= 1
            &&& accounts > 0 ==> r.left == accounts
            &&& accounts == 0 ==> r.left == 1
            &&& r.tried.len() == 0
            &&& r.stage == Stage::Picking
            &&& r.protocol == protocol
        }),
{
}

/// A reply is named by its protocol and its time: two protocols, or two times,
/// make two names.
pub proof fn law_a_reply_is_named_by_its_time(p: Protocol, q: Protocol, a: u64, b: u64)
    requires
        rotation::reply_id(p, a) == rotation::reply_id(q, b),
    ensures
        p == q,
        a == b,
{
    reveal_strlit("chatcmpl-");
    reveal_strlit("cmpl-");
    reveal_strlit("msg_");
    reveal_strlit("resp_");
    let x = rotation::reply_id(p, a);
    let y = rotation::reply_id(q, b);
    let da = text::decimal(a as nat);
    let db = text::decimal(b as nat);
    text_laws::law_decimal_digits_say_the_number(a as nat);
    text_laws::law_decimal_digits_say_the_number(b as nat);
    assert(x[0] == y[0] && x[1] == y[1]);
    assert("chatcmpl-"@[0] == 'c' && "chatcmpl-"@[1] == 'h');
    assert("cmpl-"@[0] == 'c' && "cmpl-"@[1] == 'm');
    assert("msg_"@[0] == 'm' && "resp_"@[0] == 'r');
    assert(x.subrange(x.len() - da.len(), x.len() as int) =~= da);
    assert(y.subrange(y.len() - db.len(), y.len() as int) =~= db);
    assert(x.len() - da.len() == y.len() - db.len());
}

/// A stream begins the same whatever comes of it: well, as events, and kept by
/// no cache.
pub proof fn law_a_stream_begins_as_events()
    ensures
        stream_chat::event_stream().status == 200,
        table::find(stream_chat::event_stream().headers, "content-type"@) == Some(
            "text/event-stream"@,
        ),
        table::find(stream_chat::event_stream().headers, "cache-control"@) == Some("no-cache"@),
        table::find(stream_chat::event_stream().headers, "connection"@) == Some("keep-alive"@),
{
    reveal_strlit("content-type");
    reveal_strlit("cache-control");
    reveal_strlit("connection");
    assert("content-type"@.len() == 12);
    assert("cache-control"@.len() == 13);
    assert("connection"@.len() == 10);
    let typed = table::put(reply::no_headers(), "content-type"@, "text/event-stream"@);
    let uncached = table::put(typed, "cache-control"@, "no-cache"@);
    table::lemma_find_put(reply::no_headers(), "content-type"@, "text/event-stream"@);
    table::lemma_find_put(typed, "cache-control"@, "no-cache"@);
    table::lemma_find_put(uncached, "connection"@, "keep-alive"@);
}

/// A number below a hundred is written with two digits.
pub proof fn law_two_digits_say_the_number(n: nat)
    requires
        n < 100,
    ensures
        rotation::two_digits(n).len() == 2,
        text::digits_value(rotation::two_digits(n)) == Some(n),
{
    reveal_strlit("0");
    assert("0"@.len() == 1 && "0"@[0] == '0');
    text_laws::law_decimal_digits_say_the_number(n);
    if n < 10 {
        let s = rotation::two_digits(n);
        assert(text::decimal(n).len() == 1);
        assert(text::digit_char(n) as int == 48 + n);
        assert(s.drop_last() =~= "0"@);
        assert("0"@.drop_last() =~= Seq::empty());
        assert(text::digits_value(Seq::<char>::empty()) == Some(0nat));
        assert(text::digits_value("0"@) == Some(0nat));
    } else {
        assert(text::decimal(n / 10).len() == 1);
    }
}

/// The line on a pool without a usable account says how many accounts were
/// tried and how many there are, and then why each cannot be used.
pub proof fn law_an_exhausted_pool_is_explained(
    streamed: bool,
    now: u64,
    tried: nat,
    all: Seq<DiagnosisView>,
)
    ensures
        ({
            let line = rotation::exhausted_line(streamed, now, tried, all);
            let reasons = rotation::diagnosis_list(all, now as i64);
            let counts = " tried="@ + text::decimal(tried) + " pool="@ + text::decimal(all.len());
            &&& text::starts_with(line, "NO_HEALTHY_ACCOUNT"@)
            &&& text::ends_with(line, counts + " reasons=["@ + reasons + "]"@)
            &&& !streamed ==> text::starts_with(line, "NO_HEALTHY_ACCOUNT(non-stream)"@)
        }),
{
    reveal_strlit("NO_HEALTHY_ACCOUNT");
    reveal_strlit("NO_HEALTHY_ACCOUNT [");
    reveal_strlit("NO_HEALTHY_ACCOUNT(non-stream)");
    let line = rotation::exhausted_line(streamed, now, tried, all);
    let tail = rotation::exhausted_tail(tried, all, now as i64);
    let told = " tried="@ + text::decimal(tried) + " pool="@ + text::decimal(all.len())
        + " reasons=["@ + rotation::diagnosis_list(all, now as i64) + "]"@;
    assert(told =~= tail);
    assert(line.subrange(line.len() - tail.len(), line.len() as int) =~= tail);
    assert(line.subrange(0, 18) =~= "NO_HEALTHY_ACCOUNT"@);
    if !streamed {
        let n = "NO_HEALTHY_ACCOUNT(non-stream)"@.len() as int;
        assert(line.subrange(0, n) =~= "NO_HEALTHY_ACCOUNT(non-stream)"@);
    }
}

/// Why an account cannot be used is said with its name and its reason, and last
/// of all that it is out of use.
pub proof fn law_an_account_is_diagnosed_by_name(d: DiagnosisView, now: i64)
    ensures
        ({
            let said = rotation::diagnosis_text(d, now);
            let named = d.name + "("@ + rotation::short_uid(d.uid) + ":"@ + d.reason + ",cr="@;
            &&& text::starts_with(said, named)
            &&& d.credits matches Some(credits) ==> text::starts_with(said, named + credits)
            &&& d.credits is None ==> text::starts_with(said, named + "N/A"@)
            &&& text::ends_with(said, ")"@)
            &&& d.disabled ==> text::ends_with(said, ",DIS)"@)
        }),
        text::byte_len(d.uid) < 8 ==> rotation::short_uid(d.uid) == d.uid,
        i64::MIN <= d.until - now <= i64::MAX ==> rotation::bounded_difference(d.until, now)
            == d.until - now,
{
    reveal_strlit(")");
    reveal_strlit(",DIS");
    reveal_strlit(",DIS)");
    let said = rotation::diagnosis_text(d, now);
    let named = d.name + "("@ + rotation::short_uid(d.uid) + ":"@ + d.reason + ",cr="@;
    let credits = if d.credits is Some {
        d.credits->0
    } else {
        "N/A"@
    };
    assert(said.subrange(0, named.len() as int) =~= named);
    assert(said.subrange(0, (named + credits).len() as int) =~= named + credits);
    assert(said.subrange(said.len() - 1, said.len() as int) =~= ")"@);
    if d.disabled {
        assert(said.subrange(said.len() - 5, said.len() as int) =~= ",DIS)"@);
    }
}

} // verus!
