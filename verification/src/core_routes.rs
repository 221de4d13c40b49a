//! How the answers of Core become answers to a client, and how an answer to a
//! client settles with Core.

use crate::core_types::{
    self, ChatOutcome, CoreError, CoreErrorView, CoreLeaseError, LeaseErrorView, LeaseState,
    OutcomeView, Principal, RequestResult, RequestResultView, RequestState, ScheduleError,
    ScheduleErrorView, UpstreamOutcome,
};
use crate::json::{Json, JsonView};
use crate::reply::{self, Reply, ReplyView};
use crate::table;
use crate::text;
use vstd::prelude::*;

verus! {

/// The answer to a caller without a scope.
pub open spec fn scope_reply(scope: Seq<char>) -> ReplyView {
    reply::openai(403, "insufficient_scope"@, "missing required scope: "@ + scope)
}

/// The answer to a caller without a scope.
pub fn core_scope_error(scope: &str) -> (r: Reply)
    ensures
        r@ == scope_reply(scope@),
{
    reply::openai_error(
        403,
        "insufficient_scope",
        text::join2("missing required scope: ", scope).as_str(),
    )
}

/// The answer to a request without an authenticated caller.
pub open spec fn unauthorized_reply() -> ReplyView {
    reply::openai(401, "unauthorized"@, "Core Principal required"@)
}

/// The authenticated caller; a request without one is refused.
pub fn core_principal_or_unauthorized(principal: Option<Principal>) -> (r: Result<
    Principal,
    Reply,
>)
    ensures
        match r {
            Ok(found) => core_types::opt_principal(principal) == Some(found@),
            Err(refusal) => principal is None && refusal@ == unauthorized_reply(),
        },
{
    match principal {
        Some(principal) => Ok(principal),
        None => Err(reply::openai_error(401, "unauthorized", "Core Principal required")),
    }
}

/// The answer to a caller whose identity does not fit its request.
pub open spec fn identity_reply() -> ReplyView {
    reply::openai(401, "unauthorized"@, "invalid Core request identity"@)
}

/// The answer to a key that was used for another request.
pub open spec fn conflict_reply() -> ReplyView {
    reply::openai(
        409,
        "idempotency_conflict"@,
        "Idempotency-Key was already used for a different request"@,
    )
}

/// The answer to an error of Core.
pub open spec fn error_reply(error: CoreErrorView) -> ReplyView {
    match error {
        CoreErrorView::MissingScope(scope) => scope_reply(scope),
        CoreErrorView::BudgetPolicyMissing => reply::openai(
            400,
            "budget_policy_missing"@,
            "no Core cost policy matches this request"@,
        ),
        CoreErrorView::QuotaInsufficient => reply::openai(
            429,
            "insufficient_quota"@,
            "Core quota is insufficient"@,
        ),
        CoreErrorView::KeyQuotaNotConfigured => reply::openai(
            409,
            "key_quota_not_configured"@,
            "Core key quota is not configured"@,
        ),
        CoreErrorView::QuotaMigrationPending => reply::openai(
            409,
            "quota_migration_pending"@,
            "Core quota requires reconciliation before use"@,
        ),
        CoreErrorView::IdempotencyConflict => conflict_reply(),
        CoreErrorView::InvalidRequestIdentity => identity_reply(),
        CoreErrorView::CoreModeNotEnforcing => reply::openai(
            500,
            "core_mode_error"@,
            "Core enforce mode is unavailable"@,
        ),
        CoreErrorView::RequestNotFound(message) => reply::openai(500, "core_error"@, message),
        CoreErrorView::AdminRequired(message) => reply::openai(500, "core_error"@, message),
        CoreErrorView::Other(message) => reply::openai(500, "core_error"@, message),
    }
}

/// The answer to an error of Core.
pub fn core_error_response(error: &CoreError) -> (r: Reply)
    ensures
        r@ == error_reply(error@),
{
    match error {
        CoreError::MissingScope(scope) => core_scope_error(scope.as_str()),
        CoreError::BudgetPolicyMissing => reply::openai_error(
            400,
            "budget_policy_missing",
            "no Core cost policy matches this request",
        ),
        CoreError::QuotaInsufficient => reply::openai_error(
            429,
            "insufficient_quota",
            "Core quota is insufficient",
        ),
        CoreError::KeyQuotaNotConfigured => reply::openai_error(
            409,
            "key_quota_not_configured",
            "Core key quota is not configured",
        ),
        CoreError::QuotaMigrationPending => reply::openai_error(
            409,
            "quota_migration_pending",
            "Core quota requires reconciliation before use",
        ),
        CoreError::IdempotencyConflict => reply::openai_error(
            409,
            "idempotency_conflict",
            "Idempotency-Key was already used for a different request",
        ),
        CoreError::InvalidRequestIdentity => reply::openai_error(
            401,
            "unauthorized",
            "invalid Core request identity",
        ),
        CoreError::CoreModeNotEnforcing => reply::openai_error(
            500,
            "core_mode_error",
            "Core enforce mode is unavailable",
        ),
        CoreError::RequestNotFound(message) => reply::openai_error(
            500,
            "core_error",
            message.as_str(),
        ),
        CoreError::AdminRequired(message) => reply::openai_error(
            500,
            "core_error",
            message.as_str(),
        ),
        CoreError::Other(message) => reply::openai_error(500, "core_error", message.as_str()),
    }
}

/// The answer of an endpoint that the scheduler does not serve.
pub open spec fn not_enabled_reply() -> ReplyView {
    reply::openai(
        501,
        "scheduler_endpoint_not_enabled"@,
        "this endpoint is not enabled by the Core scheduler"@,
    )
}

/// The answer of an endpoint that the scheduler does not serve.
pub fn scheduler_endpoint_not_enabled_response() -> (r: Reply)
    ensures
        r@ == not_enabled_reply(),
{
    reply::openai_error(
        501,
        "scheduler_endpoint_not_enabled",
        "this endpoint is not enabled by the Core scheduler",
    )
}

/// The answer where no upstream account was leased.
pub open spec fn schedule_reply(error: ScheduleErrorView) -> ReplyView {
    match error {
        ScheduleErrorView::NoFreshObservation => reply::openai(
            503,
            "no_fresh_observation"@,
            "no fresh upstream observation is eligible"@,
        ),
        ScheduleErrorView::NoUpstreamCapacity => no_capacity_reply(),
        ScheduleErrorView::CapabilityMismatch => no_capacity_reply(),
        ScheduleErrorView::AccountCooling => no_capacity_reply(),
        ScheduleErrorView::MissingScope(scope) => scope_reply(scope),
        ScheduleErrorView::InvalidRequestIdentity => identity_reply(),
        ScheduleErrorView::IdempotencyConflict => conflict_reply(),
        ScheduleErrorView::Core(error) => error_reply(error),
        ScheduleErrorView::Other => reply::openai(
            500,
            "scheduler_error"@,
            "Core scheduler operation failed"@,
        ),
    }
}

/// The answer where no upstream account has room.
pub open spec fn no_capacity_reply() -> ReplyView {
    reply::openai(503, "no_upstream_capacity"@, "no upstream capacity is eligible"@)
}

/// The answer to a request that was not admitted to an upstream account.
pub open spec fn lease_error_reply(error: LeaseErrorView) -> ReplyView {
    match error {
        LeaseErrorView::EndpointNotEnabled => not_enabled_reply(),
        LeaseErrorView::Core(error) => error_reply(error),
        LeaseErrorView::Schedule(error) => schedule_reply(error),
    }
}

/// The answer to a request that was not admitted to an upstream account.
pub fn core_lease_error_response(error: &CoreLeaseError) -> (r: Reply)
    ensures
        r@ == lease_error_reply(error@),
{
    match error {
        CoreLeaseError::EndpointNotEnabled => scheduler_endpoint_not_enabled_response(),
        CoreLeaseError::Core(error) => core_error_response(error),
        CoreLeaseError::Schedule(error) => match error {
            ScheduleError::NoFreshObservation => reply::openai_error(
                503,
                "no_fresh_observation",
                "no fresh upstream observation is eligible",
            ),
            ScheduleError::NoUpstreamCapacity => no_capacity(),
            ScheduleError::CapabilityMismatch => no_capacity(),
            ScheduleError::AccountCooling => no_capacity(),
            ScheduleError::MissingScope(scope) => core_scope_error(scope.as_str()),
            ScheduleError::InvalidRequestIdentity => reply::openai_error(
                401,
                "unauthorized",
                "invalid Core request identity",
            ),
            ScheduleError::IdempotencyConflict => reply::openai_error(
                409,
                "idempotency_conflict",
                "Idempotency-Key was already used for a different request",
            ),
            ScheduleError::Core(error) => core_error_response(error),
            ScheduleError::Other => reply::openai_error(
                500,
                "scheduler_error",
                "Core scheduler operation failed",
            ),
        },
    }
}

fn no_capacity() -> (r: Reply)
    ensures
        r@ == no_capacity_reply(),
{
    reply::openai_error(503, "no_upstream_capacity", "no upstream capacity is eligible")
}

/// A character that a header may hold: no control character but the tab.
pub open spec fn header_char(c: char) -> bool {
    c == '\t' || (c >= ' ' && c != '\u{7f}')
}

/// A text that a header may hold.
pub open spec fn header_text(s: Seq<char>) -> bool {
    forall|i: int| 0 <= i < s.len() ==> header_char(#[trigger] s[i])
}

/// A header may hold the text.
pub fn fits_header(s: &str) -> (r: bool)
    ensures
        r == header_text(s@),
{
    let c = text::chars_of(s);
    let mut i: usize = 0;
    while i < c.len()
        invariant
            i <= c.len(),
            c@ == s@,
            forall|j: int| 0 <= j < i ==> header_char(#[trigger] c@[j]),
        decreases c.len() - i,
    {
        if !(c[i] == '\t' || (c[i] >= ' ' && c[i] != '\u{7f}')) {
            return false;
        }
        i = i + 1;
    }
    true
}

/// The answer with the name of its request, where a header can hold it.
pub open spec fn named(answer: ReplyView, request_id: Seq<char>) -> ReplyView {
    if header_text(request_id) {
        answer.with_header("x-request-id"@, request_id)
    } else {
        answer
    }
}

/// The answer with the name of its request, where a header can hold it.
pub fn with_core_request_id(answer: Reply, request_id: &str) -> (r: Reply)
    ensures
        r@ == named(answer@, request_id@),
{
    if fits_header(request_id) {
        answer.with_header("x-request-id", request_id)
    } else {
        answer
    }
}

/// A recorded outcome is a success: a status of success, and no error.
pub open spec fn recorded_success(result: RequestResultView) -> bool {
    (result.status matches Some(status) && 200 <= status < 300) && result.error_code is None
}

/// The errors that leave open what became of a request.
pub open spec fn leaves_open(code: Seq<char>) -> bool {
    code == "upstream_uncertain"@ || code == "transport_unknown"@ || code == "transport_timeout"@
        || code == "lease_expired"@
}

/// The request has an outcome, or none can be known of it.
pub open spec fn has_ended(state: RequestState) -> bool {
    state != RequestState::Open
}

/// The document of a request that was served before.
pub open spec fn replay_document(request_id: Seq<char>) -> JsonView {
    JsonView::object().member("id"@, JsonView::Text(request_id)).member(
        "object"@,
        JsonView::Text("chat.completion"@),
    ).member("choices"@, JsonView::Array(Seq::empty())).member(
        "idempotent_replay"@,
        JsonView::Bool(true),
    )
}

/// The answer to a request that came before. The upstream is not called again.
pub open spec fn replay_reply(
    request_id: Seq<char>,
    state: RequestState,
    result: Option<RequestResultView>,
    lease: Option<LeaseState>,
) -> ReplyView {
    let served = (result matches Some(result) && recorded_success(result)) || lease == Some(
        LeaseState::Succeeded,
    );
    let answer = if served {
        reply::json_answer(200, replay_document(request_id))
    } else {
        match result {
            None => if has_ended(state) {
                unknown_reply()
            } else {
                reply::openai(
                    409,
                    "request_in_progress"@,
                    "request is already in progress; upstream was not called again"@,
                )
            },
            Some(result) => if result.error_code matches Some(code) && leaves_open(code) {
                unknown_reply()
            } else {
                reply::openai(
                    409,
                    "idempotent_replay_failed"@,
                    "request already failed; upstream was not called again"@,
                )
            },
        }
    };
    named(answer, request_id)
}

/// The answer to a request that came before and whose outcome is unknown.
pub open spec fn unknown_reply() -> ReplyView {
    reply::openai(
        409,
        "idempotent_replay_unknown"@,
        "request outcome is unknown; upstream was not called again"@,
    )
}

fn open_code(code: &Option<String>) -> (r: bool)
    ensures
        r == (text::opt_view(*code) matches Some(code) && leaves_open(code)),
{
    match code {
        Some(code) => {
            let code = code.as_str();
            text::same(code, "upstream_uncertain") || text::same(code, "transport_unknown")
                || text::same(code, "transport_timeout") || text::same(code, "lease_expired")
        },
        None => false,
    }
}

/// The answer to a request that came before. The upstream is not called again.
pub fn core_replay_response_for(
    request_id: &str,
    state: RequestState,
    result: &Option<RequestResult>,
    lease: Option<LeaseState>,
) -> (r: Reply)
    ensures
        r@ == replay_reply(request_id@, state, core_types::opt_result(*result), lease),
{
    let lease_succeeded = match lease {
        Some(lease) => lease == LeaseState::Succeeded,
        None => false,
    };
    let result_succeeded = match result {
        Some(result) => {
            let good_status = match result.status {
                Some(status) => 200 <= status && status < 300,
                None => false,
            };
            good_status && result.error_code.is_none()
        },
        None => false,
    };
    let answer = if result_succeeded || lease_succeeded {
        let no_choices: Vec<Json> = Vec::new();
        let choices = Json::array(no_choices);
        assert(choices@->Array_0 =~= Seq::empty());
        let body = Json::object().member("id", Json::text(request_id)).member(
            "object",
            Json::text("chat.completion"),
        ).member("choices", choices).member("idempotent_replay", Json::Bool(true));
        Reply::json(200, body)
    } else {
        let (open, in_progress) = match result {
            None => (state != RequestState::Open, state == RequestState::Open),
            Some(result) => (open_code(&result.error_code), false),
        };
        if in_progress {
            reply::openai_error(
                409,
                "request_in_progress",
                "request is already in progress; upstream was not called again",
            )
        } else if open {
            reply::openai_error(
                409,
                "idempotent_replay_unknown",
                "request outcome is unknown; upstream was not called again",
            )
        } else {
            reply::openai_error(
                409,
                "idempotent_replay_failed",
                "request already failed; upstream was not called again",
            )
        }
    };
    with_core_request_id(answer, request_id)
}

/// A request that came before is answered with success exactly where success
/// was recorded, for the request or for its lease.
pub proof fn law_a_replay_never_invents_success(
    request_id: Seq<char>,
    state: RequestState,
    result: Option<RequestResultView>,
    lease: Option<LeaseState>,
)
    ensures
        (replay_reply(request_id, state, result, lease).status == 200) == ((result matches Some(
            result,
        ) && recorded_success(result)) || lease == Some(LeaseState::Succeeded)),
{
}

/// One character more of a code: letters become small, a hyphen or a space
/// becomes an underscore, and a capital letter after a small letter or a digit
/// begins a word.
pub open spec fn code_after(so_far: (Seq<char>, bool), c: char) -> (Seq<char>, bool) {
    let (text, small) = so_far;
    let ends_word = text.len() > 0 && text.last() == '_';
    if c == '-' || c == ' ' {
        (
            if ends_word {
                text
            } else {
                text.push('_')
            },
            false,
        )
    } else if 'A' <= c <= 'Z' {
        (
            (if text.len() > 0 && small && !ends_word {
                text.push('_')
            } else {
                text
            }).push(text::lower_char(c)),
            false,
        )
    } else {
        (text.push(c), 'a' <= c <= 'z' || '0' <= c <= '9')
    }
}

/// The characters of a code, one after the other.
pub open spec fn code_words(code: Seq<char>) -> (Seq<char>, bool)
    decreases code.len(),
{
    if code.len() == 0 {
        (Seq::empty(), false)
    } else {
        code_after(code_words(code.drop_last()), code.last())
    }
}

/// The error code in small letters, its words joined by underscores.
pub fn normalize_health_code(value: &str) -> (r: String)
    ensures
        r@ == code_words(value@).0,
{
    let c = text::chars_of(value);
    let mut r: Vec<char> = Vec::new();
    let mut small = false;
    let mut i: usize = 0;
    assert(value@.subrange(0, 0) =~= Seq::empty());
    while i < c.len()
        invariant
            i <= c.len(),
            c@ == value@,
            (r@, small) == code_words(value@.subrange(0, i as int)),
        decreases c.len() - i,
    {
        let ghost upto = value@.subrange(0, i + 1);
        assert(upto.drop_last() =~= value@.subrange(0, i as int));
        assert(upto.last() == c@[i as int]);
        let ends_word = r.len() > 0 && r[r.len() - 1] == '_';
        if c[i] == '-' || c[i] == ' ' {
            if !ends_word {
                r.push('_');
            }
            small = false;
        } else if 'A' <= c[i] && c[i] <= 'Z' {
            if r.len() > 0 && small && !ends_word {
                r.push('_');
            }
            r.push(((c[i] as u8) + 32) as char);
            small = false;
        } else {
            r.push(c[i]);
            small = ('a' <= c[i] && c[i] <= 'z') || ('0' <= c[i] && c[i] <= '9');
        }
        i = i + 1;
    }
    assert(value@.subrange(0, i as int) =~= value@);
    text::string_of(&r, 0, r.len())
}

/// What an outcome says of the health of its account.
pub open spec fn health_category(outcome: OutcomeView) -> Seq<char> {
    match outcome {
        OutcomeView::Success { .. } => "success"@,
        OutcomeView::TransportUnknown { reason, .. } => {
            let reason = text::lower(reason);
            if text::contains(reason, "timeout"@) {
                "transport_timeout"@
            } else if text::contains(reason, "disconnect"@) {
                "transport_unknown"@
            } else {
                "server"@
            }
        },
        OutcomeView::Rejected { status, code, .. } => {
            let code = code_words(code).0;
            if status == 401 || text::contains(code, "session"@) {
                "session_dead"@
            } else if status == 403 || text::contains(code, "forbidden"@) {
                "forbidden"@
            } else if status == 404 || text::contains(code, "not_found"@) || text::contains(
                code,
                "notfound"@,
            ) {
                "not_found"@
            } else if text::contains(code, "hard_credit"@) {
                "hard_credit"@
            } else if text::contains(code, "plan_limit"@) {
                "plan_limit"@
            } else if text::contains(code, "soft_rate"@) || status == 429 || text::contains(
                code,
                "rate"@,
            ) {
                "soft_rate"@
            } else if 500 <= status < 600 {
                "server"@
            } else {
                "client"@
            }
        },
    }
}

/// What an outcome says of the health of its account.
pub fn core_health_category(outcome: &UpstreamOutcome) -> (r: &'static str)
    ensures
        r@ == health_category(outcome@),
{
    match outcome {
        UpstreamOutcome::Success { .. } => "success",
        UpstreamOutcome::TransportUnknown { reason, .. } => {
            let reason = text::lowered(reason.as_str());
            if text::has(reason.as_str(), "timeout") {
                "transport_timeout"
            } else if text::has(reason.as_str(), "disconnect") {
                "transport_unknown"
            } else {
                "server"
            }
        },
        UpstreamOutcome::Rejected { status, code, .. } => {
            let status = *status;
            let code = normalize_health_code(code.as_str());
            let code = code.as_str();
            if status == 401 || text::has(code, "session") {
                "session_dead"
            } else if status == 403 || text::has(code, "forbidden") {
                "forbidden"
            } else if status == 404 || text::has(code, "not_found") || text::has(code, "notfound") {
                "not_found"
            } else if text::has(code, "hard_credit") {
                "hard_credit"
            } else if text::has(code, "plan_limit") {
                "plan_limit"
            } else if text::has(code, "soft_rate") || status == 429 || text::has(code, "rate") {
                "soft_rate"
            } else if 500 <= status && status < 600 {
                "server"
            } else {
                "client"
            }
        },
    }
}

/// The answer without the headers that are meant for the gateway alone.
pub open spec fn public_part(answer: ReplyView) -> ReplyView {
    answer.without_header("x-aiwork-core-actual-amount"@).without_header("x-aiwork-core-outcome"@)
}

/// The amount that an answer says it took, where it is within the reservation.
pub open spec fn stated_amount(answer: ReplyView, reserved: i64) -> Option<i64> {
    match table::find(answer.headers, "x-aiwork-core-actual-amount"@) {
        Some(value) => match text::signed_value(value) {
            Some(amount) => if 0 <= amount <= reserved {
                Some(amount)
            } else {
                None
            },
            None => None,
        },
        None => None,
    }
}

/// What a reservation is settled with after an answer.
pub open spec fn settlement(answer: ReplyView, reserved: i64) -> ChatOutcome {
    if 200 <= answer.status < 300 {
        ChatOutcome::Success(answer.status, stated_amount(answer, reserved))
    } else if table::find(answer.headers, "x-aiwork-core-outcome"@) == Some("unknown"@) || 500
        <= answer.status < 600 {
        ChatOutcome::Disconnected
    } else {
        ChatOutcome::Rejected(answer.status)
    }
}

/// What a reservation of that amount is settled with after an answer.
pub fn settle_core_response(answer: &Reply, reserved: i64) -> (r: ChatOutcome)
    ensures
        r == settlement(answer@, reserved),
{
    let status: u16 = answer.status;
    if 200 <= status && status < 300 {
        let amount: Option<i64> = match answer.headers.get("x-aiwork-core-actual-amount") {
            Some(value) => match text::parse_signed(value.as_str()) {
                Some(amount) => if 0 <= amount && amount <= reserved {
                    Some(amount)
                } else {
                    None
                },
                None => None,
            },
            None => None,
        };
        return ChatOutcome::Success(status, amount);
    }
    let uncertain = match answer.headers.get("x-aiwork-core-outcome") {
        Some(value) => text::same(value.as_str(), "unknown"),
        None => false,
    };
    if uncertain || (500 <= status && status < 600) {
        ChatOutcome::Disconnected
    } else {
        ChatOutcome::Rejected(status)
    }
}

/// The answer to a client once its reservation was settled, or could not be.
pub open spec fn settled_reply(
    answer: ReplyView,
    request_id: Seq<char>,
    failure: Option<CoreErrorView>,
) -> ReplyView {
    match failure {
        None => named(public_part(answer), request_id),
        Some(error) => error_reply(error),
    }
}

/// The answer to a client once its reservation was settled, or could not be.
pub fn settle_core_outcome(answer: Reply, request_id: &str, settled: Result<(), CoreError>) -> (r:
    Reply)
    ensures
        r@ == settled_reply(
            answer@,
            request_id@,
            match settled {
                Ok(_) => None,
                Err(error) => Some(error@),
            },
        ),
{
    let answer = answer.without_header("x-aiwork-core-actual-amount").without_header(
        "x-aiwork-core-outcome",
    );
    match settled {
        Ok(_) => with_core_request_id(answer, request_id),
        Err(error) => core_error_response(&error),
    }
}

/// The answer to a client once its lease was settled: `settled` says whether
/// this settlement was the one that counted; there is none without a lease.
pub open spec fn lease_settled_reply(
    answer: ReplyView,
    request_id: Seq<char>,
    settled: Option<Result<bool, LeaseErrorView>>,
) -> (ReplyView, bool) {
    match settled {
        None => (not_enabled_reply(), false),
        Some(Ok(applied)) => (named(public_part(answer), request_id), applied),
        Some(Err(error)) => (lease_error_reply(error), false),
    }
}

/// The model of the settlement of a lease.
pub open spec fn lease_result(settled: Option<Result<bool, CoreLeaseError>>) -> Option<
    Result<bool, LeaseErrorView>,
> {
    match settled {
        None => None,
        Some(Ok(applied)) => Some(Ok(applied)),
        Some(Err(error)) => Some(Err(error@)),
    }
}

/// The answer to a client once its lease was settled, and whether the account's
/// health is noted down: only the first settlement of a lease counts.
pub fn settle_core_lease_outcome(
    answer: Reply,
    request_id: &str,
    settled: Option<Result<bool, CoreLeaseError>>,
) -> (r: (Reply, bool))
    ensures
        (r.0@, r.1) == lease_settled_reply(answer@, request_id@, lease_result(settled)),
{
    let answer = answer.without_header("x-aiwork-core-actual-amount").without_header(
        "x-aiwork-core-outcome",
    );
    match settled {
        None => (scheduler_endpoint_not_enabled_response(), false),
        Some(Ok(applied)) => (with_core_request_id(answer, request_id), applied),
        Some(Err(error)) => (core_lease_error_response(&error), false),
    }
}

/// The code in the error document of an upstream.
pub open spec fn refusal_code(body: JsonView) -> Seq<char> {
    match body.get("error"@) {
        Some(error) => match error.text_at("code"@) {
            Some(code) => code,
            None => "upstream_rejected"@,
        },
        None => "upstream_rejected"@,
    }
}

/// The answer to a client that the reply of its upstream becomes; `response`
/// is the status and the document of the reply, where there was one.
pub open spec fn upstream_reply(response: Option<(u16, JsonView)>) -> ReplyView {
    match response {
        Some((status, body)) => if 200 <= status < 300 {
            reply::json_answer(status, body)
        } else {
            reply::openai(
                reply::status_or(status, 502),
                "upstream_error"@,
                refusal_code(body),
            )
        },
        None => reply::openai(
            502,
            "upstream_error"@,
            "upstream transport outcome is unknown"@,
        ),
    }
}

/// The model of a reply.
pub open spec fn response_view(response: Option<(u16, Json)>) -> Option<(u16, JsonView)> {
    match response {
        Some((status, body)) => Some((status, body@)),
        None => None,
    }
}

/// The answer to a client that the reply of its upstream becomes.
pub fn settle_core_lease_response(response: Option<(u16, Json)>) -> (r: Reply)
    ensures
        r@ == upstream_reply(response_view(response)),
{
    match response {
        Some((status, body)) => {
            if 200 <= status && status < 300 {
                Reply::json(status, body)
            } else {
                let code = match body.get("error") {
                    Some(error) => match error.str_at("code") {
                        Some(code) => code,
                        None => "upstream_rejected",
                    },
                    None => "upstream_rejected",
                };
                reply::openai_error(reply::valid_status(status, 502), "upstream_error", code)
            }
        },
        None => reply::openai_error(
            502,
            "upstream_error",
            "upstream transport outcome is unknown",
        ),
    }
}

/// A reservation is never settled for more than was reserved, nor for less
/// than nothing.
pub proof fn law_a_settlement_stays_within_the_reservation(answer: ReplyView, reserved: i64)
    ensures
        settlement(answer, reserved) matches ChatOutcome::Success(_, amount) ==> (
        amount matches Some(amount) ==> 0 <= amount <= reserved),
{
}

/// An answer that says nothing certain leaves its reservation open: a status of
/// the gateway's or the upstream's own failure is never settled as a refusal.
pub proof fn law_a_server_error_settles_nothing(answer: ReplyView, reserved: i64)
    requires
        500 <= answer.status < 600,
    ensures
        settlement(answer, reserved) == ChatOutcome::Disconnected,
{
}

} // verus!
