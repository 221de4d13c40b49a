//! A chat request whose reply is streamed to the client.
//!
//! The program around it performs the action that a step asks for, notes down
//! the effects in their order, and hands back what came of the action.

use crate::json::{Json, JsonView};
use crate::reply::{self, Protocol, StreamError, StreamErrorView};
use crate::rotation::{
    self, Effect, EffectView, Effects, RetryAction, Rotation, RotationView, Stage,
};
use crate::table::{self, Table};
use crate::text;
use crate::video_events::ErrKind;
use vstd::prelude::*;

verus! {

/// An error in the middle of an upstream's stream: its code, its message and
/// the kind of error it is.
#[derive(Debug)]
pub struct StreamFailure {
    pub code: i64,
    pub message: String,
    pub kind: ErrKind,
}

/// The model of a [`StreamFailure`].
pub struct StreamFailureView {
    pub code: i64,
    pub message: Seq<char>,
    pub kind: ErrKind,
}

impl View for StreamFailure {
    type V = StreamFailureView;

    open spec fn view(&self) -> StreamFailureView {
        StreamFailureView { code: self.code, message: self.message@, kind: self.kind }
    }
}

/// The stream of an account, read to its end.
#[derive(Debug)]
pub struct StreamOutcome {
    pub failure: Option<StreamFailure>,
    /// The client was sent something.
    pub sent_any: bool,
    pub prompt_tokens: u64,
    pub completion_tokens: u64,
    /// The request belongs to a conversation, and the reply is known.
    pub remembered: bool,
}

/// The model of a [`StreamOutcome`].
pub struct StreamOutcomeView {
    pub failure: Option<StreamFailureView>,
    pub sent_any: bool,
    pub prompt_tokens: u64,
    pub completion_tokens: u64,
    pub remembered: bool,
}

impl View for StreamOutcome {
    type V = StreamOutcomeView;

    open spec fn view(&self) -> StreamOutcomeView {
        StreamOutcomeView {
            failure: match self.failure {
                Some(failure) => Some(failure@),
                None => None,
            },
            sent_any: self.sent_any,
            prompt_tokens: self.prompt_tokens,
            completion_tokens: self.completion_tokens,
            remembered: self.remembered,
        }
    }
}

/// What came of the last action.
#[derive(Debug)]
pub enum StreamEvent {
    /// An account that was not used yet, or none.
    Picked(Option<String>),
    /// The request is bound to a session.
    Bound,
    /// The request could not be bound to a session.
    Unbound,
    /// The use of the account was recorded.
    Recorded,
    /// The use of the account could not be recorded.
    NotRecorded,
    /// The upstream refused the request: the status, the text, what is to be
    /// done about it and the kind of error it is.
    Refused(u16, String, RetryAction, ErrKind),
    /// The first byte did not come in time.
    Silent,
    /// The stream was read to its end.
    Ended(StreamOutcome),
}

/// The model of a [`StreamEvent`].
pub enum StreamEventView {
    Picked(Option<Seq<char>>),
    Bound,
    Unbound,
    Recorded,
    NotRecorded,
    Refused(u16, Seq<char>, RetryAction, ErrKind),
    Silent,
    Ended(StreamOutcomeView),
}

impl View for StreamEvent {
    type V = StreamEventView;

    open spec fn view(&self) -> StreamEventView {
        match self {
            StreamEvent::Picked(uid) => StreamEventView::Picked(text::opt_view(*uid)),
            StreamEvent::Bound => StreamEventView::Bound,
            StreamEvent::Unbound => StreamEventView::Unbound,
            StreamEvent::Recorded => StreamEventView::Recorded,
            StreamEvent::NotRecorded => StreamEventView::NotRecorded,
            StreamEvent::Refused(status, body, action, kind) => StreamEventView::Refused(
                *status,
                body@,
                *action,
                *kind,
            ),
            StreamEvent::Silent => StreamEventView::Silent,
            StreamEvent::Ended(outcome) => StreamEventView::Ended(outcome@),
        }
    }
}

/// What is to be done next.
#[derive(Clone, Copy, Debug, PartialEq, Eq, Structural)]
pub enum StreamAction {
    /// Pick an account that was not used yet.
    Pick,
    /// Prepare the request for the account and bind it to a session.
    Bind,
    /// Record the use of the account.
    Record,
    /// Send the request after that many milliseconds.
    Send(u64),
    /// The stream to the client is over.
    Stop,
}

/// What the client is sent before the stream: the status and the headers.
#[derive(Debug)]
pub struct StreamHead {
    pub status: u16,
    pub headers: Table<String>,
}

/// The model of a [`StreamHead`].
pub struct StreamHeadView {
    pub status: u16,
    pub headers: Seq<(Seq<char>, Seq<char>)>,
}

impl View for StreamHead {
    type V = StreamHeadView;

    open spec fn view(&self) -> StreamHeadView {
        StreamHeadView { status: self.status, headers: self.headers@ }
    }
}

/// The head of every stream: it begins before an account is picked, so it is
/// the same whatever comes of the request.
pub open spec fn event_stream() -> StreamHeadView {
    let typed = table::put(reply::no_headers(), "content-type"@, "text/event-stream"@);
    let uncached = table::put(typed, "cache-control"@, "no-cache"@);
    StreamHeadView {
        status: 200,
        headers: table::put(uncached, "connection"@, "keep-alive"@),
    }
}

/// The first step of a request whose pool has that many accounts: what the
/// client is sent at once, and what is to be done next.
pub fn open_stream(protocol: Protocol, accounts: u64) -> (r: (StreamHead, Rotation, StreamAction))
    ensures
        r.0@ == event_stream(),
        r.1@ == rotation::begun(protocol, accounts),
        r.2 == StreamAction::Pick,
{
    let mut headers: Table<String> = Table::new();
    headers.insert("content-type", "text/event-stream".to_owned());
    headers.insert("cache-control", "no-cache".to_owned());
    headers.insert("connection", "keep-alive".to_owned());
    let head = StreamHead { status: 200, headers };
    (head, rotation::begin(protocol, accounts), StreamAction::Pick)
}

/// A step: the request after it, what is noted down, and what is to be done
/// next.
pub struct StreamStepView {
    pub rotation: RotationView,
    pub effects: Seq<EffectView>,
    pub action: StreamAction,
}

/// The event that tells a client that no account can be used.
pub open spec fn no_account_event(protocol: Protocol, now: u64) -> StreamErrorView {
    let message = "no healthy account available"@;
    match protocol {
        Protocol::Anthropic => StreamErrorView {
            event: Some("error"@),
            document: reply::anthropic_document("api_error"@, message),
            end_mark: false,
        },
        Protocol::Responses => StreamErrorView {
            event: Some("response.failed"@),
            document: JsonView::object().member(
                "type"@,
                JsonView::Text("response.failed"@),
            ).member(
                "response"@,
                JsonView::object().member(
                    "id"@,
                    JsonView::Text("resp_"@ + text::decimal(now as nat)),
                ).member("object"@, JsonView::Text("response"@)).member(
                    "status"@,
                    JsonView::Text("failed"@),
                ).member("output"@, JsonView::Array(Seq::empty())).member(
                    "error"@,
                    JsonView::object().member(
                        "code"@,
                        JsonView::Text("no_healthy_account"@),
                    ).member("message"@, JsonView::Text(message)),
                ),
            ),
            end_mark: false,
        },
        _ => StreamErrorView {
            event: None,
            document: reply::openai_document("no_healthy_account"@, message),
            end_mark: true,
        },
    }
}

/// The event that tells a client that no account can be used.
pub fn no_account(protocol: Protocol, now: u64) -> (r: StreamError)
    ensures
        r@ == no_account_event(protocol, now),
{
    let message = "no healthy account available";
    match protocol {
        Protocol::Anthropic => {
            let error = Json::object().member("type", Json::text("api_error")).member(
                "message",
                Json::text(message),
            );
            StreamError {
                event: Some("error".to_owned()),
                document: Json::object().member("type", Json::text("error")).member(
                    "error",
                    error,
                ),
                end_mark: false,
            }
        },
        Protocol::Responses => {
            let no_output: Vec<Json> = Vec::new();
            let output = Json::array(no_output);
            assert(output@->Array_0 =~= Seq::empty());
            let error = Json::object().member("code", Json::text("no_healthy_account")).member(
                "message",
                Json::text(message),
            );
            let id = text::join2("resp_", text::decimal_text(now).as_str());
            let response = Json::object().member("id", Json::text(id.as_str())).member(
                "object",
                Json::text("response"),
            ).member("status", Json::text("failed")).member("output", output).member(
                "error",
                error,
            );
            StreamError {
                event: Some("response.failed".to_owned()),
                document: Json::object().member("type", Json::text("response.failed")).member(
                    "response",
                    response,
                ),
                end_mark: false,
            }
        },
        _ => {
            let error = Json::object().member("message", Json::text(message)).member(
                "type",
                Json::text("api_error"),
            ).member("code", Json::text("no_healthy_account"));
            StreamError {
                event: None,
                document: Json::object().member("error", error),
                end_mark: true,
            }
        },
    }
}

/// The request waits for the outcome of an action.
pub open spec fn waits(
    r: RotationView,
    stage: Stage,
    effects: Seq<EffectView>,
    action: StreamAction,
) -> StreamStepView {
    StreamStepView { rotation: RotationView { stage, ..r }, effects, action }
}

/// The request is over.
pub open spec fn over(r: RotationView, effects: Seq<EffectView>) -> StreamStepView {
    waits(r, Stage::Over, effects, StreamAction::Stop)
}

/// No account is left.
pub open spec fn exhausted(
    r: RotationView,
    effects: Seq<EffectView>,
    now: u64,
) -> StreamStepView {
    over(
        r,
        effects.push(EffectView::Usage("none"@, false, 0, 0, false)).push(
            EffectView::Log(503, "none"@, Some("no healthy account"@)),
        ).push(EffectView::Diagnose).push(EffectView::Send(no_account_event(r.protocol, now))),
    )
}

/// Another account is tried, where one may be used.
pub open spec fn switches(r: RotationView, effects: Seq<EffectView>, now: u64) -> StreamStepView {
    if r.left > 0 {
        waits(r, Stage::Picking, effects, StreamAction::Pick)
    } else {
        exhausted(r, effects, now)
    }
}

/// The stream of an account was read to its end. An error before anything was
/// sent to the client is the account's: the next one is tried. After that the
/// stream ends as it is.
pub open spec fn stream_ended(r: RotationView, o: StreamOutcomeView, now: u64) -> StreamStepView {
    let counted = rotation::quiet().push(
        EffectView::Usage(
            r.uid,
            o.failure is None,
            o.prompt_tokens,
            o.completion_tokens,
            o.failure is None,
        ),
    );
    match o.failure {
        None => {
            let kept = if o.remembered {
                counted.push(EffectView::Remember)
            } else {
                counted
            };
            over(
                r,
                kept.push(EffectView::Served(r.uid)).push(EffectView::Log(200, r.uid, None)).push(
                    EffectView::Debug(r.uid, None, 200, None),
                ),
            )
        },
        Some(failure) => {
            let noted = if failure.kind == ErrKind::NoError {
                counted
            } else {
                counted.push(EffectView::Failed(r.uid, failure.kind)).push(
                    EffectView::LastError(
                        rotation::stream_failure(r.uid, failure.code, failure.message),
                    ),
                )
            };
            let told = if o.sent_any || failure.kind != ErrKind::NoError {
                noted
            } else {
                noted.push(
                    EffectView::Send(
                        reply::stream_error(r.protocol, failure.code, failure.message, now),
                    ),
                )
            };
            let logged = told.push(EffectView::Log(200, r.uid, Some(failure.message))).push(
                EffectView::Debug(r.uid, None, 200, Some(failure.message)),
            );
            if !o.sent_any && failure.kind != ErrKind::NoError {
                switches(r, logged, now)
            } else {
                over(r, logged)
            }
        },
    }
}

/// The event can follow the action that the request waits for.
pub open spec fn expected(r: RotationView, event: StreamEventView) -> bool {
    match r.stage {
        Stage::Picking => {
            &&& r.left > 0
            &&& event matches StreamEventView::Picked(uid)
            &&& uid matches Some(uid) ==> !r.tried.contains(uid)
        },
        Stage::Binding => event is Bound || event is Unbound,
        Stage::Recording => event is Recorded || event is NotRecorded,
        Stage::Sending => match event {
            StreamEventView::Silent => true,
            StreamEventView::Ended(_) => true,
            StreamEventView::Refused(_, _, action, _) => action is RetrySame ==> r.same_attempt
                < u32::MAX,
            _ => false,
        },
        Stage::Over => false,
    }
}

/// The next step of a request.
pub open spec fn stream_step(r: RotationView, event: StreamEventView, now: u64) -> StreamStepView {
    match event {
        StreamEventView::Picked(uid) => match uid {
            Some(uid) => StreamStepView {
                rotation: rotation::picked(r, uid),
                effects: rotation::quiet().push(EffectView::Active(uid)),
                action: StreamAction::Bind,
            },
            None => exhausted(r, rotation::quiet(), now),
        },
        StreamEventView::Bound => waits(
            r,
            Stage::Recording,
            rotation::quiet(),
            StreamAction::Record,
        ),
        StreamEventView::Unbound => over(
            r,
            rotation::quiet().push(
                EffectView::Send(
                    reply::stream_error(r.protocol, 503, rotation::unbound_message(), now),
                ),
            ),
        ),
        StreamEventView::Recorded => waits(
            r,
            Stage::Sending,
            rotation::quiet(),
            StreamAction::Send(0),
        ),
        StreamEventView::NotRecorded => over(
            r,
            rotation::quiet().push(
                EffectView::Log(503, r.uid, Some(rotation::unrecorded_message())),
            ).push(
                EffectView::Send(
                    reply::stream_error(r.protocol, 503, rotation::unrecorded_message(), now),
                ),
            ),
        ),
        StreamEventView::Refused(status, body, action, kind) => match action {
            RetryAction::RetrySame(delay_ms) => StreamStepView {
                rotation: RotationView { same_attempt: (r.same_attempt + 1) as u32, ..r },
                effects: rotation::quiet(),
                action: StreamAction::Send(rotation::resting(delay_ms)),
            },
            RetryAction::SwitchKey => {
                let preview = reply::bounded_prefix(body, 200);
                switches(
                    r,
                    rotation::quiet().push(EffectView::Failed(r.uid, kind)).push(
                        EffectView::LastError(
                            rotation::status_failure(r.uid, status) + " body="@ + preview,
                        ),
                    ).push(
                        EffectView::Log(status, r.uid, Some(rotation::status_remark(status))),
                    ).push(EffectView::Debug(r.uid, Some(body), status, Some(preview))),
                    now,
                )
            },
            RetryAction::Fatal => {
                let message = rotation::fault(status, body);
                over(
                    r,
                    rotation::quiet().push(EffectView::Log(status, r.uid, Some(message))).push(
                        EffectView::Debug(r.uid, Some(body), status, Some(message)),
                    ).push(
                        EffectView::Send(
                            reply::stream_error(r.protocol, status as i64, message, now),
                        ),
                    ).push(EffectView::Usage(r.uid, false, 0, 0, false)),
                )
            },
        },
        StreamEventView::Silent => switches(
            r,
            rotation::quiet().push(EffectView::Failed(r.uid, ErrKind::Server)).push(
                EffectView::LastError("uid="@ + r.uid + " first-byte timeout(10s)"@),
            ).push(EffectView::Log(504, r.uid, Some("first byte timeout"@))),
            now,
        ),
        StreamEventView::Ended(outcome) => stream_ended(r, outcome, now),
    }
}

fn exhaust(rotation: &mut Rotation, effects: Effects, now: u64) -> (r: (Effects, StreamAction))
    ensures
        (StreamStepView { rotation: final(rotation)@, effects: r.0@, action: r.1 }) == exhausted(
            old(rotation)@,
            effects@,
            now,
        ),
{
    rotation.stage = Stage::Over;
    let event = no_account(rotation.protocol, now);
    (
        effects.and(Effect::Usage("none".to_owned(), false, 0, 0, false)).and(
            Effect::Log(503, "none".to_owned(), Some("no healthy account".to_owned())),
        ).and(Effect::Diagnose).and(Effect::Send(event)),
        StreamAction::Stop,
    )
}

fn switch(rotation: &mut Rotation, effects: Effects, now: u64) -> (r: (Effects, StreamAction))
    ensures
        (StreamStepView { rotation: final(rotation)@, effects: r.0@, action: r.1 }) == switches(
            old(rotation)@,
            effects@,
            now,
        ),
{
    if rotation.left > 0 {
        rotation.stage = Stage::Picking;
        (effects, StreamAction::Pick)
    } else {
        exhaust(rotation, effects, now)
    }
}

fn end_stream(rotation: &mut Rotation, outcome: StreamOutcome, now: u64) -> (r: (
    Effects,
    StreamAction,
))
    ensures
        (StreamStepView { rotation: final(rotation)@, effects: r.0@, action: r.1 })
            == stream_ended(old(rotation)@, outcome@, now),
{
    let uid = rotation.uid.clone();
    let served = outcome.failure.is_none();
    let mut effects = Effects::nothing().and(
        Effect::Usage(
            uid.clone(),
            served,
            outcome.prompt_tokens,
            outcome.completion_tokens,
            served,
        ),
    );
    match outcome.failure {
        None => {
            if outcome.remembered {
                effects = effects.and(Effect::Remember);
            }
            rotation.stage = Stage::Over;
            (
                effects.and(Effect::Served(uid.clone())).and(
                    Effect::Log(200, uid.clone(), None),
                ).and(Effect::Debug(uid, None, 200, None)),
                StreamAction::Stop,
            )
        },
        Some(failure) => {
            let of_account = failure.kind != ErrKind::NoError;
            if of_account {
                let error = rotation::stream_failure_text(
                    uid.as_str(),
                    failure.code,
                    failure.message.as_str(),
                );
                effects = effects.and(Effect::Failed(uid.clone(), failure.kind)).and(
                    Effect::LastError(error),
                );
            } else if !outcome.sent_any {
                let event = reply::send_stream_error(
                    rotation.protocol,
                    failure.code,
                    failure.message.as_str(),
                    now,
                );
                effects = effects.and(Effect::Send(event));
            }
            effects = effects.and(
                Effect::Log(200, uid.clone(), Some(failure.message.clone())),
            ).and(Effect::Debug(uid, None, 200, Some(failure.message)));
            if !outcome.sent_any && of_account {
                switch(rotation, effects, now)
            } else {
                rotation.stage = Stage::Over;
                (effects, StreamAction::Stop)
            }
        },
    }
}

fn refuse(
    rotation: &mut Rotation,
    status: u16,
    body: String,
    action: RetryAction,
    kind: ErrKind,
    now: u64,
) -> (r: (Effects, StreamAction))
    requires
        action is RetrySame ==> old(rotation).same_attempt < u32::MAX,
        old(rotation).stage == Stage::Sending,
    ensures
        (StreamStepView { rotation: final(rotation)@, effects: r.0@, action: r.1 })
            == stream_step(
            old(rotation)@,
            StreamEventView::Refused(status, body@, action, kind),
            now,
        ),
{
    let uid = rotation.uid.clone();
    match action {
        RetryAction::RetrySame(delay_ms) => {
            rotation.same_attempt = rotation.same_attempt + 1;
            (Effects::nothing(), StreamAction::Send(rotation::rest(delay_ms)))
        },
        RetryAction::SwitchKey => {
            let preview = reply::safe_slice(body.as_str(), 200).to_owned();
            let mut error = rotation::status_failure_text(uid.as_str(), status);
            error.push_str(" body=");
            error.push_str(preview.as_str());
            let effects = Effects::nothing().and(Effect::Failed(uid.clone(), kind)).and(
                Effect::LastError(error),
            ).and(
                Effect::Log(status, uid.clone(), Some(rotation::status_remark_text(status))),
            ).and(Effect::Debug(uid, Some(body), status, Some(preview)));
            switch(rotation, effects, now)
        },
        RetryAction::Fatal => {
            let message = rotation::fault_text(status, body.as_str());
            let event = reply::send_stream_error(
                rotation.protocol,
                status as i64,
                message.as_str(),
                now,
            );
            rotation.stage = Stage::Over;
            (
                Effects::nothing().and(
                    Effect::Log(status, uid.clone(), Some(message.clone())),
                ).and(Effect::Debug(uid.clone(), Some(body), status, Some(message))).and(
                    Effect::Send(event),
                ).and(Effect::Usage(uid, false, 0, 0, false)),
                StreamAction::Stop,
            )
        },
    }
}

/// The next step of a chat request whose reply is streamed.
pub fn stream_chat_with_attribution(rotation: &mut Rotation, event: StreamEvent, now: u64) -> (r: (
    Effects,
    StreamAction,
))
    requires
        expected(old(rotation)@, event@),
    ensures
        (StreamStepView { rotation: final(rotation)@, effects: r.0@, action: r.1 })
            == stream_step(old(rotation)@, event@, now),
{
    match event {
        StreamEvent::Picked(uid) => match uid {
            Some(uid) => {
                let effects = Effects::nothing().and(Effect::Active(uid.clone()));
                rotation::pick(rotation, uid);
                (effects, StreamAction::Bind)
            },
            None => exhaust(rotation, Effects::nothing(), now),
        },
        StreamEvent::Bound => {
            rotation.stage = Stage::Recording;
            (Effects::nothing(), StreamAction::Record)
        },
        StreamEvent::Unbound => {
            let message = "Core 请求无法建立独立的上游用量会话，已阻止未记录的上游调用";
            let event = reply::send_stream_error(rotation.protocol, 503, message, now);
            rotation.stage = Stage::Over;
            (Effects::nothing().and(Effect::Send(event)), StreamAction::Stop)
        },
        StreamEvent::Recorded => {
            rotation.stage = Stage::Sending;
            (Effects::nothing(), StreamAction::Send(0))
        },
        StreamEvent::NotRecorded => {
            let message = "Core 请求与上游会话归因暂不可用，已阻止未记录的上游调用";
            let event = reply::send_stream_error(rotation.protocol, 503, message, now);
            rotation.stage = Stage::Over;
            (
                Effects::nothing().and(
                    Effect::Log(503, rotation.uid.clone(), Some(message.to_owned())),
                ).and(Effect::Send(event)),
                StreamAction::Stop,
            )
        },
        StreamEvent::Refused(status, body, action, kind) => refuse(
            rotation,
            status,
            body,
            action,
            kind,
            now,
        ),
        StreamEvent::Silent => {
            let uid = rotation.uid.clone();
            let error = text::join3("uid=", uid.as_str(), " first-byte timeout(10s)");
            let effects = Effects::nothing().and(
                Effect::Failed(uid.clone(), ErrKind::Server),
            ).and(Effect::LastError(error)).and(
                Effect::Log(504, uid, Some("first byte timeout".to_owned())),
            );
            switch(rotation, effects, now)
        },
        StreamEvent::Ended(outcome) => end_stream(rotation, outcome, now),
    }
}

/// Some effect ends the client's stream.
pub open spec fn tells(effects: Seq<EffectView>) -> bool {
    exists|i: int| 0 <= i < effects.len() && (#[trigger] effects[i]) is Send
}

/// Once the client was sent something, no other account is tried: a reply is
/// never two replies pieced together.
pub proof fn law_a_started_reply_is_never_replayed(
    r: RotationView,
    o: StreamOutcomeView,
    now: u64,
)
    requires
        o.sent_any,
    ensures
        stream_step(r, StreamEventView::Ended(o), now).action == StreamAction::Stop,
        !tells(stream_step(r, StreamEventView::Ended(o), now).effects),
{
}

/// A client that was sent nothing is told why its stream ends: a stream stops
/// without an event of the gateway only where an account's stream was read to
/// its end after something was sent, or without an error.
pub proof fn law_a_stream_never_ends_in_silence(r: RotationView, event: StreamEventView, now: u64)
    requires
        expected(r, event),
        stream_step(r, event, now).action == StreamAction::Stop,
    ensures
        tells(stream_step(r, event, now).effects) || (event matches StreamEventView::Ended(o) && (
        o.sent_any || o.failure is None)),
{
    let effects = stream_step(r, event, now).effects;
    match event {
        StreamEventView::Refused(_, _, action, _) => {
            if action is Fatal {
                assert(effects[2] is Send);
            } else {
                assert(effects[effects.len() - 1] is Send);
            }
        },
        StreamEventView::Ended(o) => {
            if !o.sent_any && o.failure is Some {
                if o.failure->0.kind == ErrKind::NoError {
                    assert(effects[1] is Send);
                } else {
                    assert(effects[effects.len() - 1] is Send);
                }
            }
        },
        _ => {
            assert(effects[effects.len() - 1] is Send);
        },
    }
}

/// A request that is at fault costs no account its standing.
pub proof fn law_a_request_at_fault_cools_no_account(
    r: RotationView,
    status: u16,
    body: Seq<char>,
    kind: ErrKind,
    now: u64,
)
    ensures
        ({
            let step = stream_step(
                r,
                StreamEventView::Refused(status, body, RetryAction::Fatal, kind),
                now,
            );
            &&& step.action == StreamAction::Stop
            &&& forall|i: int| 0 <= i < step.effects.len() ==> !((#[trigger] step.effects[i]) is Failed)
        }),
{
}

/// No account is used twice for one request, and each account that is taken up
/// leaves one less to be used.
pub proof fn law_no_account_is_used_twice(r: RotationView, event: StreamEventView, now: u64)
    requires
        expected(r, event),
        r.tried.no_duplicates(),
    ensures
        ({
            let after = stream_step(r, event, now).rotation;
            &&& after.tried.no_duplicates()
            &&& after.tried.len() + after.left == r.tried.len() + r.left
        }),
{
    let after = stream_step(r, event, now).rotation;
    if let StreamEventView::Picked(Some(uid)) = event {
        assert forall|i: int, j: int|
            0 <= i < after.tried.len() && 0 <= j < after.tried.len() && i != j implies
            after.tried[i] != after.tried[j] by {
            if i == r.tried.len() {
                assert(r.tried.contains(r.tried[j]));
            } else if j == r.tried.len() {
                assert(r.tried.contains(r.tried[i]));
            }
        }
    } else {
        assert(after.tried == r.tried && after.left == r.left);
    }
}

} // verus!
