//! A chat request whose reply is collected and answered as one document.
//!
//! The program around it performs the action that a step asks for, notes down
//! the effects in their order, and hands back what came of the action.

use crate::json::{Json, JsonView};
use crate::reply::{self, Protocol, Reply, ReplyView};
use crate::rotation::{
    self, Effect, EffectView, Effects, RetryAction, Rotation, RotationView, Stage,
};
use crate::stream_chat::{StreamFailure, StreamFailureView};
use crate::text;
use crate::video_events::ErrKind;
use vstd::prelude::*;

verus! {

/// Why a request was not served.
#[derive(Debug)]
pub enum AggregateFail {
    /// No account of the pool can be used.
    NoHealthy(String),
    /// The upstream's stream broke off.
    Incomplete(String),
    /// The upstream refused the request, which is at fault.
    Upstream(u16, String),
    /// The use of an account could not be attributed to the request.
    Attribution(String),
}

/// The model of an [`AggregateFail`].
pub enum FailView {
    NoHealthy(Seq<char>),
    Incomplete(Seq<char>),
    Upstream(u16, Seq<char>),
    Attribution(Seq<char>),
}

impl View for AggregateFail {
    type V = FailView;

    open spec fn view(&self) -> FailView {
        match self {
            AggregateFail::NoHealthy(message) => FailView::NoHealthy(message@),
            AggregateFail::Incomplete(message) => FailView::Incomplete(message@),
            AggregateFail::Upstream(status, message) => FailView::Upstream(*status, message@),
            AggregateFail::Attribution(message) => FailView::Attribution(message@),
        }
    }
}

/// A collected reply: the document, the same in the form of the Responses
/// protocol, and its tokens.
#[derive(Debug)]
pub struct Collected {
    pub document: Json,
    pub as_response: Json,
    /// The document as text.
    pub text: String,
    pub prompt_tokens: u64,
    pub completion_tokens: u64,
    /// The request belongs to a conversation.
    pub remembered: bool,
}

/// The model of a [`Collected`].
pub struct CollectedView {
    pub document: JsonView,
    pub as_response: JsonView,
    pub text: Seq<char>,
    pub prompt_tokens: u64,
    pub completion_tokens: u64,
    pub remembered: bool,
}

impl View for Collected {
    type V = CollectedView;

    open spec fn view(&self) -> CollectedView {
        CollectedView {
            document: self.document@,
            as_response: self.as_response@,
            text: self.text@,
            prompt_tokens: self.prompt_tokens,
            completion_tokens: self.completion_tokens,
            remembered: self.remembered,
        }
    }
}

/// What came of the last action.
#[derive(Debug)]
pub enum AggregateEvent {
    /// An account that was not used yet, or none.
    Picked(Option<String>),
    /// The request is bound to a session.
    Bound,
    /// The request could not be bound to a session.
    Unbound,
    /// The use of the account was recorded.
    Recorded,
    /// The use of the account could not be recorded.
    NotRecorded,
    /// The upstream refused the request: the status, the text, what is to be
    /// done about it and the kind of error it is.
    Refused(u16, String, RetryAction, ErrKind),
    /// The reply was collected.
    Complete(Collected),
    /// The stream broke off.
    BrokenOff(String),
    /// The stream held an error.
    StreamFailed(StreamFailure),
    /// The stream held neither a reply nor an error.
    Empty,
}

/// The model of an [`AggregateEvent`].
pub enum AggregateEventView {
    Picked(Option<Seq<char>>),
    Bound,
    Unbound,
    Recorded,
    NotRecorded,
    Refused(u16, Seq<char>, RetryAction, ErrKind),
    Complete(CollectedView),
    BrokenOff(Seq<char>),
    StreamFailed(StreamFailureView),
    Empty,
}

impl View for AggregateEvent {
    type V = AggregateEventView;

    open spec fn view(&self) -> AggregateEventView {
        match self {
            AggregateEvent::Picked(uid) => AggregateEventView::Picked(text::opt_view(*uid)),
            AggregateEvent::Bound => AggregateEventView::Bound,
            AggregateEvent::Unbound => AggregateEventView::Unbound,
            AggregateEvent::Recorded => AggregateEventView::Recorded,
            AggregateEvent::NotRecorded => AggregateEventView::NotRecorded,
            AggregateEvent::Refused(status, body, action, kind) => AggregateEventView::Refused(
                *status,
                body@,
                *action,
                *kind,
            ),
            AggregateEvent::Complete(collected) => AggregateEventView::Complete(collected@),
            AggregateEvent::BrokenOff(message) => AggregateEventView::BrokenOff(message@),
            AggregateEvent::StreamFailed(failure) => AggregateEventView::StreamFailed(failure@),
            AggregateEvent::Empty => AggregateEventView::Empty,
        }
    }
}

/// What is to be done next.
#[derive(Debug)]
pub enum AggregateAction {
    /// Pick an account that was not used yet.
    Pick,
    /// Prepare the request for the account and bind it to a session.
    Bind,
    /// Record the use of the account.
    Record,
    /// Send the request after that many milliseconds, and collect the reply.
    Send(u64),
    /// Answer the client.
    Answer(Reply),
}

/// The model of an [`AggregateAction`].
pub enum AggregateActionView {
    Pick,
    Bind,
    Record,
    Send(u64),
    Answer(ReplyView),
}

impl View for AggregateAction {
    type V = AggregateActionView;

    open spec fn view(&self) -> AggregateActionView {
        match self {
            AggregateAction::Pick => AggregateActionView::Pick,
            AggregateAction::Bind => AggregateActionView::Bind,
            AggregateAction::Record => AggregateActionView::Record,
            AggregateAction::Send(delay_ms) => AggregateActionView::Send(*delay_ms),
            AggregateAction::Answer(reply) => AggregateActionView::Answer(reply@),
        }
    }
}

/// A step: the request after it, what is noted down, and what is to be done
/// next.
pub struct AggregateStepView {
    pub rotation: RotationView,
    pub effects: Seq<EffectView>,
    pub action: AggregateActionView,
}

/// What a client is answered where its request was not served.
pub open spec fn fail_reply(protocol: Protocol, fail: FailView) -> ReplyView {
    match fail {
        FailView::NoHealthy(message) => reply::protocol_reply(
            protocol,
            503,
            "no_healthy_account"@,
            "api_error"@,
            message,
        ),
        FailView::Incomplete(message) => reply::protocol_reply(
            protocol,
            503,
            "incomplete_upstream"@,
            "incomplete_upstream"@,
            message,
        ),
        FailView::Upstream(status, message) => reply::protocol_reply(
            protocol,
            reply::status_or(status, 502),
            "upstream_error"@,
            "api_error"@,
            message,
        ),
        FailView::Attribution(message) => reply::protocol_reply(
            protocol,
            503,
            "core_attribution_unavailable"@,
            "api_error"@,
            message,
        ),
    }
}

/// What a client is answered where its request was not served.
pub fn aggregate_failure(protocol: Protocol, fail: &AggregateFail) -> (r: Reply)
    ensures
        r@ == fail_reply(protocol, fail@),
{
    match fail {
        AggregateFail::NoHealthy(message) => reply::protocol_error(
            protocol,
            503,
            "no_healthy_account",
            "api_error",
            message.as_str(),
        ),
        AggregateFail::Incomplete(message) => reply::protocol_error(
            protocol,
            503,
            "incomplete_upstream",
            "incomplete_upstream",
            message.as_str(),
        ),
        AggregateFail::Upstream(status, message) => reply::protocol_error(
            protocol,
            reply::valid_status(*status, 502),
            "upstream_error",
            "api_error",
            message.as_str(),
        ),
        AggregateFail::Attribution(message) => reply::protocol_error(
            protocol,
            503,
            "core_attribution_unavailable",
            "api_error",
            message.as_str(),
        ),
    }
}

/// The request waits for the outcome of an action.
pub open spec fn waits(
    r: RotationView,
    stage: Stage,
    effects: Seq<EffectView>,
    action: AggregateActionView,
) -> AggregateStepView {
    AggregateStepView { rotation: RotationView { stage, ..r }, effects, action }
}

/// The request was not served.
pub open spec fn fails(
    r: RotationView,
    effects: Seq<EffectView>,
    fail: FailView,
) -> AggregateStepView {
    waits(r, Stage::Over, effects, AggregateActionView::Answer(fail_reply(r.protocol, fail)))
}

/// No account is left.
pub open spec fn exhausted(r: RotationView, effects: Seq<EffectView>) -> AggregateStepView {
    fails(
        r,
        effects.push(EffectView::Usage("none"@, false, 0, 0, false)).push(
            EffectView::Log(503, "none"@, Some("no healthy account"@)),
        ).push(EffectView::Diagnose),
        FailView::NoHealthy("no healthy account available"@),
    )
}

/// Another account is tried, where one may be used.
pub open spec fn switches(r: RotationView, effects: Seq<EffectView>) -> AggregateStepView {
    if r.left > 0 {
        waits(r, Stage::Picking, effects, AggregateActionView::Pick)
    } else {
        exhausted(r, effects)
    }
}

/// The event can follow the action that the request waits for.
pub open spec fn expected(r: RotationView, event: AggregateEventView) -> bool {
    match r.stage {
        Stage::Picking => {
            &&& r.left > 0
            &&& event matches AggregateEventView::Picked(uid)
            &&& uid matches Some(uid) ==> !r.tried.contains(uid)
        },
        Stage::Binding => event is Bound || event is Unbound,
        Stage::Recording => event is Recorded || event is NotRecorded,
        Stage::Sending => match event {
            AggregateEventView::Refused(_, _, action, _) => action is RetrySame ==> r.same_attempt
                < u32::MAX,
            AggregateEventView::Complete(_) => true,
            AggregateEventView::BrokenOff(_) => true,
            AggregateEventView::StreamFailed(_) => true,
            AggregateEventView::Empty => true,
            _ => false,
        },
        Stage::Over => false,
    }
}

/// The use of the account did not serve the request.
pub open spec fn unserved(uid: Seq<char>) -> EffectView {
    EffectView::Usage(uid, false, 0, 0, false)
}

/// The next step of a request.
pub open spec fn aggregate_step(r: RotationView, event: AggregateEventView) -> AggregateStepView {
    match event {
        AggregateEventView::Picked(uid) => match uid {
            Some(uid) => AggregateStepView {
                rotation: rotation::picked(r, uid),
                effects: rotation::quiet().push(EffectView::Active(uid)),
                action: AggregateActionView::Bind,
            },
            None => exhausted(r, rotation::quiet()),
        },
        AggregateEventView::Bound => waits(
            r,
            Stage::Recording,
            rotation::quiet(),
            AggregateActionView::Record,
        ),
        AggregateEventView::Unbound => fails(
            r,
            rotation::quiet(),
            FailView::Attribution(rotation::unbound_message()),
        ),
        AggregateEventView::Recorded => waits(
            r,
            Stage::Sending,
            rotation::quiet(),
            AggregateActionView::Send(0),
        ),
        AggregateEventView::NotRecorded => fails(
            r,
            rotation::quiet(),
            FailView::Attribution(rotation::unrecorded_message()),
        ),
        AggregateEventView::Refused(status, body, action, kind) => match action {
            RetryAction::RetrySame(delay_ms) => AggregateStepView {
                rotation: RotationView { same_attempt: (r.same_attempt + 1) as u32, ..r },
                effects: rotation::quiet(),
                action: AggregateActionView::Send(rotation::resting(delay_ms)),
            },
            RetryAction::SwitchKey => switches(
                r,
                rotation::quiet().push(EffectView::Failed(r.uid, kind)).push(
                    EffectView::LastError(rotation::status_failure(r.uid, status)),
                ).push(unserved(r.uid)).push(
                    EffectView::Log(status, r.uid, Some(rotation::status_remark(status))),
                ).push(EffectView::Debug(r.uid, Some(body), status, Some(body))),
            ),
            RetryAction::Fatal => {
                let message = rotation::fault(status, body);
                fails(
                    r,
                    rotation::quiet().push(EffectView::Log(status, r.uid, Some(message))).push(
                        EffectView::Debug(r.uid, Some(body), status, Some(message)),
                    ).push(unserved(r.uid)),
                    FailView::Upstream(status, message),
                )
            },
        },
        AggregateEventView::Complete(collected) => {
            let kept = if collected.remembered {
                rotation::quiet().push(EffectView::Remember)
            } else {
                rotation::quiet()
            };
            waits(
                r,
                Stage::Over,
                kept.push(
                    EffectView::Usage(
                        r.uid,
                        true,
                        collected.prompt_tokens,
                        collected.completion_tokens,
                        true,
                    ),
                ).push(EffectView::Served(r.uid)).push(EffectView::Log(200, r.uid, None)).push(
                    EffectView::Debug(r.uid, Some(collected.text), 200, None),
                ),
                AggregateActionView::Answer(
                    reply::json_answer(
                        200,
                        if r.protocol == Protocol::Responses {
                            collected.as_response
                        } else {
                            collected.document
                        },
                    ),
                ),
            )
        },
        AggregateEventView::BrokenOff(message) => fails(
            r,
            rotation::quiet(),
            FailView::Incomplete(message),
        ),
        AggregateEventView::StreamFailed(failure) => switches(
            r,
            rotation::quiet().push(EffectView::Failed(r.uid, failure.kind)).push(
                EffectView::LastError(
                    rotation::stream_failure(r.uid, failure.code, failure.message),
                ),
            ).push(unserved(r.uid)).push(EffectView::Log(200, r.uid, Some(failure.message))).push(
                EffectView::Debug(r.uid, None, 200, Some(failure.message)),
            ),
        ),
        AggregateEventView::Empty => switches(
            r,
            rotation::quiet().push(EffectView::Failed(r.uid, ErrKind::Server)).push(
                unserved(r.uid),
            ).push(EffectView::Log(502, r.uid, Some("empty response"@))).push(
                EffectView::Debug(r.uid, None, 502, Some("empty response"@)),
            ),
        ),
    }
}

fn fail(rotation: &mut Rotation, effects: Effects, reason: AggregateFail) -> (r: (
    Effects,
    AggregateAction,
))
    ensures
        (AggregateStepView { rotation: final(rotation)@, effects: r.0@, action: r.1@ }) == fails(
            old(rotation)@,
            effects@,
            reason@,
        ),
{
    rotation.stage = Stage::Over;
    (effects, AggregateAction::Answer(aggregate_failure(rotation.protocol, &reason)))
}

fn exhaust(rotation: &mut Rotation, effects: Effects) -> (r: (Effects, AggregateAction))
    ensures
        (AggregateStepView { rotation: final(rotation)@, effects: r.0@, action: r.1@ })
            == exhausted(old(rotation)@, effects@),
{
    let effects = effects.and(Effect::Usage("none".to_owned(), false, 0, 0, false)).and(
        Effect::Log(503, "none".to_owned(), Some("no healthy account".to_owned())),
    ).and(Effect::Diagnose);
    fail(
        rotation,
        effects,
        AggregateFail::NoHealthy("no healthy account available".to_owned()),
    )
}

fn switch(rotation: &mut Rotation, effects: Effects) -> (r: (Effects, AggregateAction))
    ensures
        (AggregateStepView { rotation: final(rotation)@, effects: r.0@, action: r.1@ })
            == switches(old(rotation)@, effects@),
{
    if rotation.left > 0 {
        rotation.stage = Stage::Picking;
        (effects, AggregateAction::Pick)
    } else {
        exhaust(rotation, effects)
    }
}

fn refuse(
    rotation: &mut Rotation,
    status: u16,
    body: String,
    action: RetryAction,
    kind: ErrKind,
) -> (r: (Effects, AggregateAction))
    requires
        action is RetrySame ==> old(rotation).same_attempt < u32::MAX,
        old(rotation).stage == Stage::Sending,
    ensures
        (AggregateStepView { rotation: final(rotation)@, effects: r.0@, action: r.1@ })
            == aggregate_step(
            old(rotation)@,
            AggregateEventView::Refused(status, body@, action, kind),
        ),
{
    let uid = rotation.uid.clone();
    match action {
        RetryAction::RetrySame(delay_ms) => {
            rotation.same_attempt = rotation.same_attempt + 1;
            (Effects::nothing(), AggregateAction::Send(rotation::rest(delay_ms)))
        },
        RetryAction::SwitchKey => {
            let error = rotation::status_failure_text(uid.as_str(), status);
            let effects = Effects::nothing().and(Effect::Failed(uid.clone(), kind)).and(
                Effect::LastError(error),
            ).and(Effect::Usage(uid.clone(), false, 0, 0, false)).and(
                Effect::Log(status, uid.clone(), Some(rotation::status_remark_text(status))),
            ).and(Effect::Debug(uid, Some(body.clone()), status, Some(body)));
            switch(rotation, effects)
        },
        RetryAction::Fatal => {
            let message = rotation::fault_text(status, body.as_str());
            let effects = Effects::nothing().and(
                Effect::Log(status, uid.clone(), Some(message.clone())),
            ).and(Effect::Debug(uid.clone(), Some(body), status, Some(message.clone()))).and(
                Effect::Usage(uid, false, 0, 0, false),
            );
            fail(rotation, effects, AggregateFail::Upstream(status, message))
        },
    }
}

fn complete(rotation: &mut Rotation, collected: Collected) -> (r: (Effects, AggregateAction))
    requires
        old(rotation).stage == Stage::Sending,
    ensures
        (AggregateStepView { rotation: final(rotation)@, effects: r.0@, action: r.1@ })
            == aggregate_step(old(rotation)@, AggregateEventView::Complete(collected@)),
{
    let uid = rotation.uid.clone();
    let mut effects = Effects::nothing();
    if collected.remembered {
        effects = effects.and(Effect::Remember);
    }
    effects = effects.and(
        Effect::Usage(
            uid.clone(),
            true,
            collected.prompt_tokens,
            collected.completion_tokens,
            true,
        ),
    ).and(Effect::Served(uid.clone())).and(Effect::Log(200, uid.clone(), None)).and(
        Effect::Debug(uid, Some(collected.text), 200, None),
    );
    rotation.stage = Stage::Over;
    let document = if rotation.protocol == Protocol::Responses {
        collected.as_response
    } else {
        collected.document
    };
    (effects, AggregateAction::Answer(Reply::json(200, document)))
}

/// The next step of a chat request whose reply is collected.
pub fn aggregate_chat_with_attribution(rotation: &mut Rotation, event: AggregateEvent) -> (r: (
    Effects,
    AggregateAction,
))
    requires
        expected(old(rotation)@, event@),
    ensures
        (AggregateStepView { rotation: final(rotation)@, effects: r.0@, action: r.1@ })
            == aggregate_step(old(rotation)@, event@),
{
    match event {
        AggregateEvent::Picked(uid) => match uid {
            Some(uid) => {
                let effects = Effects::nothing().and(Effect::Active(uid.clone()));
                rotation::pick(rotation, uid);
                (effects, AggregateAction::Bind)
            },
            None => exhaust(rotation, Effects::nothing()),
        },
        AggregateEvent::Bound => {
            rotation.stage = Stage::Recording;
            (Effects::nothing(), AggregateAction::Record)
        },
        AggregateEvent::Unbound => fail(
            rotation,
            Effects::nothing(),
            AggregateFail::Attribution(
                "Core 请求无法建立独立的上游用量会话，已阻止未记录的上游调用".to_owned(),
            ),
        ),
        AggregateEvent::Recorded => {
            rotation.stage = Stage::Sending;
            (Effects::nothing(), AggregateAction::Send(0))
        },
        AggregateEvent::NotRecorded => fail(
            rotation,
            Effects::nothing(),
            AggregateFail::Attribution(
                "Core 请求与上游会话归因暂不可用，已阻止未记录的上游调用".to_owned(),
            ),
        ),
        AggregateEvent::Refused(status, body, action, kind) => refuse(
            rotation,
            status,
            body,
            action,
            kind,
        ),
        AggregateEvent::Complete(collected) => complete(rotation, collected),
        AggregateEvent::BrokenOff(message) => fail(
            rotation,
            Effects::nothing(),
            AggregateFail::Incomplete(message),
        ),
        AggregateEvent::StreamFailed(failure) => {
            let uid = rotation.uid.clone();
            let error = rotation::stream_failure_text(
                uid.as_str(),
                failure.code,
                failure.message.as_str(),
            );
            let effects = Effects::nothing().and(Effect::Failed(uid.clone(), failure.kind)).and(
                Effect::LastError(error),
            ).and(Effect::Usage(uid.clone(), false, 0, 0, false)).and(
                Effect::Log(200, uid.clone(), Some(failure.message.clone())),
            ).and(Effect::Debug(uid, None, 200, Some(failure.message)));
            switch(rotation, effects)
        },
        AggregateEvent::Empty => {
            let uid = rotation.uid.clone();
            let effects = Effects::nothing().and(
                Effect::Failed(uid.clone(), ErrKind::Server),
            ).and(Effect::Usage(uid.clone(), false, 0, 0, false)).and(
                Effect::Log(502, uid.clone(), Some("empty response".to_owned())),
            ).and(Effect::Debug(uid, None, 502, Some("empty response".to_owned())));
            switch(rotation, effects)
        },
    }
}

/// What a client is answered where the task that collects its reply broke
/// down.
pub fn aggregate_task_broke(error: &str) -> (r: Reply)
    ensures
        r@ == reply::openai(500, "internal_error"@, "task join error: "@ + error@),
{
    reply::openai_error(500, "internal_error", text::join2("task join error: ", error).as_str())
}

/// A key is charged for a collected reply and for nothing else.
pub proof fn law_a_key_is_charged_for_a_reply_alone(r: RotationView, event: AggregateEventView)
    ensures
        ({
            let effects = aggregate_step(r, event).effects;
            forall|i: int|
                0 <= i < effects.len() ==> ((#[trigger] effects[i]) matches EffectView::Usage(
                    _,
                    served,
                    _,
                    _,
                    charged,
                ) ==> served == charged && (charged ==> event is Complete))
        }),
{
}

/// A client is answered with success exactly where its reply was collected.
pub proof fn law_success_is_a_collected_reply(r: RotationView, event: AggregateEventView)
    requires
        expected(r, event),
        event matches AggregateEventView::Refused(status, _, _, _) ==> !(200 <= status < 300),
    ensures
        aggregate_step(r, event).action matches AggregateActionView::Answer(reply) ==> ((200
            <= reply.status < 300) == (event is Complete)),
{
}

/// No account is used twice for one request, and each account that is taken up
/// leaves one less to be used.
pub proof fn law_no_account_is_used_twice(r: RotationView, event: AggregateEventView)
    requires
        expected(r, event),
        r.tried.no_duplicates(),
    ensures
        ({
            let after = aggregate_step(r, event).rotation;
            &&& after.tried.no_duplicates()
            &&& after.tried.len() + after.left == r.tried.len() + r.left
        }),
{
    let after = aggregate_step(r, event).rotation;
    if let AggregateEventView::Picked(Some(uid)) = event {
        assert forall|i: int, j: int|
            0 <= i < after.tried.len() && 0 <= j < after.tried.len() && i != j implies
            after.tried[i] != after.tried[j] by {
            if i == r.tried.len() {
                assert(r.tried.contains(r.tried[j]));
            } else if j == r.tried.len() {
                assert(r.tried.contains(r.tried[i]));
            }
        }
    } else {
        assert(after.tried == r.tried && after.left == r.left);
    }
}

} // verus!
