//! The events that the native upstream sends while it makes a video.

use crate::json::{Json, JsonNumber, JsonView, NumberView};
use crate::outside;
use crate::text;
use crate::video::{
    self, BillingStatus, ChangeView, ReceiptView, StateView, TaskChange, VideoBillingReceipt,
    VideoState,
};
use crate::video_billing;
use vstd::prelude::*;

verus! {

/// The kinds of upstream errors.
#[derive(Clone, Copy, Debug, PartialEq, Eq, Structural)]
pub enum ErrKind {
    NoError,
    HardCredit,
    PlanLimit,
    SessionDead,
    SoftRate,
    Forbidden,
    Server,
}

/// Another account may succeed where this one met the error.
pub open spec fn account_specific(kind: ErrKind) -> bool {
    kind == ErrKind::HardCredit || kind == ErrKind::PlanLimit || kind == ErrKind::SessionDead
}

/// Another account may succeed where this one met the error.
pub fn retryable_account_error(kind: ErrKind) -> (r: bool)
    ensures
        r == account_specific(kind),
{
    kind == ErrKind::HardCredit || kind == ErrKind::PlanLimit || kind == ErrKind::SessionDead
}

/// The message of an error document.
pub open spec fn error_text(value: JsonView) -> Option<Seq<char>> {
    match value.get("message"@) {
        Some(message) => message.as_text(),
        None => match value.get("error"@) {
            Some(error) => error.text_at("message"@),
            None => None,
        },
    }
}

fn message_of(value: &Json) -> (r: Option<&str>)
    ensures
        match r {
            Some(s) => error_text(value@) == Some(s@),
            None => error_text(value@) is None,
        },
{
    match value.get("message") {
        Some(message) => message.as_str(),
        None => match value.get("error") {
            Some(error) => error.str_at("message"),
            None => None,
        },
    }
}

/// The code of an error document; zero where it has none.
pub open spec fn error_code(value: JsonView) -> i64 {
    let code = match value.get("code"@) {
        Some(code) => code.as_signed(),
        None => match value.get("error_code"@) {
            Some(code) => code.as_signed(),
            None => None,
        },
    };
    match code {
        Some(code) => code,
        None => 0,
    }
}

/// The code and the message by which an error document is classified.
pub fn video_error_subject(value: &Json, body: &str) -> (r: (i64, String))
    ensures
        r.0 == error_code(value@),
        r.1@ == (match error_text(value@) {
            Some(message) => message,
            None => body@,
        }),
{
    let code = match value.get("code") {
        Some(code) => code.as_i64(),
        None => match value.get("error_code") {
            Some(code) => code.as_i64(),
            None => None,
        },
    };
    let code: i64 = match code {
        Some(code) => code,
        None => 0,
    };
    let message = match message_of(value) {
        Some(message) => message.to_owned(),
        None => body.to_owned(),
    };
    (code, message)
}

/// The text says that the account has no credits left.
pub open spec fn says_no_credits(body: Seq<char>) -> bool {
    let lower = text::lower(body);
    ||| text::contains(lower, "insufficient credit"@)
    ||| text::contains(lower, "credits exhausted"@)
    ||| text::contains(lower, "积分不足"@)
    ||| text::contains(lower, "余额不足"@)
}

/// The kind of an upstream error. Credit and session errors may come with any
/// status, so the code and the message in the body count before it; `by_code`
/// is what they say, `by_status` is what the status says.
pub open spec fn video_error_kind(
    parsed: Option<JsonView>,
    body: Seq<char>,
    by_code: ErrKind,
    by_status: ErrKind,
) -> ErrKind {
    if parsed matches Some(value) && (by_code != ErrKind::Server || error_code(value) != 0) {
        by_code
    } else if says_no_credits(body) {
        ErrKind::HardCredit
    } else {
        by_status
    }
}

/// The kind of an upstream error whose body is this document.
pub fn classify_video_document(
    parsed: Option<&Json>,
    body: &str,
    by_code: ErrKind,
    by_status: ErrKind,
) -> (r: ErrKind)
    ensures
        r == video_error_kind(
            match parsed {
                Some(value) => Some(value@),
                None => None,
            },
            body@,
            by_code,
            by_status,
        ),
{
    if let Some(value) = parsed {
        let (code, _message) = video_error_subject(value, body);
        if by_code != ErrKind::Server || code != 0 {
            return by_code;
        }
    }
    let lower = text::lowered(body);
    let lower = lower.as_str();
    if text::has(lower, "insufficient credit") || text::has(lower, "credits exhausted")
        || text::has(lower, "积分不足") || text::has(lower, "余额不足") {
        return ErrKind::HardCredit;
    }
    by_status
}

/// The document in a text, where it is one.
pub open spec fn document(parsed: Result<JsonView, Seq<char>>) -> Option<JsonView> {
    match parsed {
        Ok(value) => Some(value),
        Err(_) => None,
    }
}

/// The kind of an upstream error.
pub fn classify_video_error(body: &str, by_code: ErrKind, by_status: ErrKind) -> (r: ErrKind)
    ensures
        r == video_error_kind(
            document(outside::json_of_text(body@)),
            body@,
            by_code,
            by_status,
        ),
{
    match outside::parse_text(body) {
        Ok(value) => classify_video_document(Some(&value), body, by_code, by_status),
        Err(_) => classify_video_document(None, body, by_code, by_status),
    }
}

/// What an error event says.
pub open spec fn error_message(parsed: Option<JsonView>, data: Seq<char>) -> Seq<char> {
    match parsed {
        Some(value) => match error_text(value) {
            Some(message) => message,
            None => text::take(data, 240),
        },
        None => text::take(data, 240),
    }
}

/// What an error event with this document says.
pub fn video_document_message(parsed: Option<&Json>, data: &str) -> (r: String)
    ensures
        r@ == error_message(
            match parsed {
                Some(value) => Some(value@),
                None => None,
            },
            data@,
        ),
{
    if let Some(value) = parsed {
        if let Some(message) = message_of(value) {
            return message.to_owned();
        }
    }
    text::taken(data, 240)
}

/// What an error event says.
pub fn video_error_message(data: &str) -> (r: String)
    ensures
        r@ == error_message(document(outside::json_of_text(data@)), data@),
{
    match outside::parse_text(data) {
        Ok(value) => video_document_message(Some(&value), data),
        Err(_) => video_document_message(None, data),
    }
}

/// The first of two values that is there.
pub open spec fn prefer<T>(first: Option<T>, second: Option<T>) -> Option<T> {
    if first is Some {
        first
    } else {
        second
    }
}

/// The resource that one document names.
pub open spec fn uri_in(item: JsonView) -> Option<Seq<char>> {
    prefer(
        item.text_at("uri"@),
        prefer(item.text_at("resource_uri"@), item.text_at("video_uri"@)),
    )
}

/// The secure address that one document names.
pub open spec fn url_in(item: JsonView) -> Option<Seq<char>> {
    match item.text_at("url"@) {
        Some(url) => if text::starts_with(url, "https://"@) {
            Some(url)
        } else {
            None
        },
        None => None,
    }
}

/// A number as a duration: a floating-point number, also where it was written
/// as an integer.
pub open spec fn seconds(n: NumberView) -> Option<NumberView> {
    if n.unsigned is None && n.signed is None {
        Some(n)
    } else {
        outside::float_of(n.text)
    }
}

/// The duration that one document states.
pub open spec fn duration_in(item: JsonView) -> Option<NumberView> {
    match prefer(item.get("video_duration"@), item.get("duration"@)) {
        Some(JsonView::Number(n)) => seconds(n),
        _ => None,
    }
}

/// What a function finds in the document, or else in what it holds under
/// `data`, `result` and `video`, in this order.
pub open spec fn found<T>(value: JsonView, f: spec_fn(JsonView) -> Option<T>) -> Option<T> {
    let under = |key: Seq<char>|
        match value.get(key) {
            Some(inner) => f(inner),
            None => None,
        };
    prefer(f(value), prefer(under("data"@), prefer(under("result"@), under("video"@))))
}

/// The resource, the address and the duration in a result.
pub open spec fn fields_of(value: JsonView) -> (
    Option<Seq<char>>,
    Option<Seq<char>>,
    Option<NumberView>,
) {
    (
        found(value, |item: JsonView| uri_in(item)),
        found(value, |item: JsonView| url_in(item)),
        found(value, |item: JsonView| duration_in(item)),
    )
}

fn read_uri(item: &Json) -> (r: Option<String>)
    ensures
        text::opt_view(r) == uri_in(item@),
{
    if let Some(uri) = item.str_at("uri") {
        return Some(uri.to_owned());
    }
    if let Some(uri) = item.str_at("resource_uri") {
        return Some(uri.to_owned());
    }
    match item.str_at("video_uri") {
        Some(uri) => Some(uri.to_owned()),
        None => None,
    }
}

fn read_url(item: &Json) -> (r: Option<String>)
    ensures
        text::opt_view(r) == url_in(item@),
{
    match item.str_at("url") {
        Some(url) => {
            if text::begins_with(url, "https://") {
                Some(url.to_owned())
            } else {
                None
            }
        },
        None => None,
    }
}

fn read_duration(item: &Json) -> (r: Option<JsonNumber>)
    ensures
        video::opt_number(r) == duration_in(item@),
{
    let value = match item.get("video_duration") {
        Some(value) => Some(value),
        None => item.get("duration"),
    };
    let n = match value {
        Some(value) => value.as_number(),
        None => None,
    };
    match n {
        Some(n) => if n.unsigned.is_none() && n.signed.is_none() {
            Some(n)
        } else {
            outside::as_float(n.text.as_str())
        },
        None => None,
    }
}

/// Reads the resource, the address and the duration in a result.
pub fn result_fields(value: &Json) -> (r: (Option<String>, Option<String>, Option<JsonNumber>))
    ensures
        (text::opt_view(r.0), text::opt_view(r.1), video::opt_number(r.2)) == fields_of(value@),
{
    let mut uri = read_uri(value);
    let mut url = read_url(value);
    let mut duration = read_duration(value);
    if let Some(inner) = value.get("data") {
        if uri.is_none() {
            uri = read_uri(inner);
        }
        if url.is_none() {
            url = read_url(inner);
        }
        if duration.is_none() {
            duration = read_duration(inner);
        }
    }
    if let Some(inner) = value.get("result") {
        if uri.is_none() {
            uri = read_uri(inner);
        }
        if url.is_none() {
            url = read_url(inner);
        }
        if duration.is_none() {
            duration = read_duration(inner);
        }
    }
    if let Some(inner) = value.get("video") {
        if uri.is_none() {
            uri = read_uri(inner);
        }
        if url.is_none() {
            url = read_url(inner);
        }
        if duration.is_none() {
            duration = read_duration(inner);
        }
    }
    (uri, url, duration)
}

/// The state after the upstream reported a result.
pub open spec fn result_applied(
    s: StateView,
    task_id: Seq<char>,
    value: JsonView,
    billing: ReceiptView,
    now: u64,
) -> StateView {
    let (uri, url, duration) = fields_of(value);
    if uri is Some || url is Some || duration is Some || billing.status != BillingStatus::Absent {
        video::update_spec(s, task_id, ChangeView::Result(uri, url, duration, billing), now)
    } else {
        s
    }
}

/// Takes a result of the upstream in.
pub fn apply_result_payload(
    state: &mut VideoState,
    task_id: &str,
    value: &Json,
    billing: VideoBillingReceipt,
    now: u64,
)
    ensures
        final(state)@ == result_applied(old(state)@, task_id@, value@, billing@, now),
{
    let (uri, url, duration) = result_fields(value);
    if uri.is_some() || url.is_some() || duration.is_some() || billing.status
        != BillingStatus::Absent {
        video::update_task(state, task_id, TaskChange::Result(uri, url, duration, billing), now);
    }
}

/// The task can be fetched.
pub open spec fn has_resource(s: StateView, task_id: Seq<char>) -> bool {
    match s.task(task_id) {
        Some(task) => task.resource_uri is Some || task.video_url is Some,
        None => false,
    }
}

/// The receipt in the data of an event.
pub open spec fn event_receipt(
    value: JsonView,
    data: Seq<char>,
    task_id: Seq<char>,
    now_ms: u64,
) -> ReceiptView {
    video_billing::receipt_of(
        value,
        task_id,
        video_billing::exponent_behind_credits(text::lower(data)),
        now_ms,
    )
}

/// The state after an event, and whether the upstream is done; or why the
/// event cannot be read. The time of the event is `now_ms`.
pub open spec fn event_applied(
    s: StateView,
    event: Seq<char>,
    data: Seq<char>,
    parsed: Result<JsonView, Seq<char>>,
    task_id: Seq<char>,
    now_ms: u64,
) -> (StateView, Result<bool, Seq<char>>) {
    let now = (now_ms / 1000) as u64;
    if event == "result"@ || event == "output"@ {
        match parsed {
            Err(error) => (s, Err("Seedance "@ + event + " JSON 无效: "@ + error)),
            Ok(value) => (
                result_applied(s, task_id, value, event_receipt(value, data, task_id, now_ms), now),
                Ok(false),
            ),
        }
    } else if event == "done"@ {
        let s1 = if text::trim(data).len() > 0 && parsed is Ok {
            result_applied(
                s,
                task_id,
                parsed->Ok_0,
                event_receipt(parsed->Ok_0, data, task_id, now_ms),
                now,
            )
        } else {
            s
        };
        let change = if has_resource(s1, task_id) {
            ChangeView::Status("completed"@)
        } else {
            ChangeView::Failed("Seedance 已结束但未返回视频资源"@)
        };
        (video::update_spec(s1, task_id, change, now), Ok(true))
    } else if event == "error"@ {
        (
            video::update_spec(
                s,
                task_id,
                ChangeView::Failed(error_message(document(parsed), data)),
                now,
            ),
            Ok(true),
        )
    } else {
        (s, Ok(false))
    }
}

/// The view of the outcome of an event.
pub open spec fn outcome_view(r: Result<bool, String>) -> Result<bool, Seq<char>> {
    match r {
        Ok(done) => Ok(done),
        Err(error) => Err(error@),
    }
}

fn read_receipt(value: &Json, data: &str, task_id: &str, now_ms: u64) -> (r: VideoBillingReceipt)
    ensures
        r@ == event_receipt(value@, data@, task_id@, now_ms),
{
    let exponent = video_billing::credit_value_contains_exponent(data);
    video_billing::extract_billing_candidate_value(value, task_id, exponent, now_ms)
}

/// Takes an event in whose data was read as `parsed`; whether the upstream is
/// done.
pub fn apply_sse_event(
    state: &mut VideoState,
    event: &str,
    data: &str,
    parsed: Result<Json, String>,
    task_id: &str,
    now_ms: u64,
) -> (r: Result<bool, String>)
    ensures
        (final(state)@, outcome_view(r)) == event_applied(
            old(state)@,
            event@,
            data@,
            outside::result_model(parsed),
            task_id@,
            now_ms,
        ),
{
    let now: u64 = now_ms / 1000;
    if text::same(event, "result") || text::same(event, "output") {
        match parsed {
            Err(error) => {
                let mut message = text::join3("Seedance ", event, " JSON 无效: ");
                message.push_str(error.as_str());
                return Err(message);
            },
            Ok(value) => {
                let billing = read_receipt(&value, data, task_id, now_ms);
                apply_result_payload(state, task_id, &value, billing, now);
            },
        }
    } else if text::same(event, "done") {
        if !text::blank(data) {
            if let Ok(value) = &parsed {
                let billing = read_receipt(value, data, task_id, now_ms);
                apply_result_payload(state, task_id, value, billing, now);
            }
        }
        let fetchable = match video::get(state, task_id) {
            Some(task) => task.resource_uri.is_some() || task.video_url.is_some(),
            None => false,
        };
        if fetchable {
            video::update_task(state, task_id, TaskChange::Status("completed".to_owned()), now);
        } else {
            video::update_task(
                state,
                task_id,
                TaskChange::Failed("Seedance 已结束但未返回视频资源".to_owned()),
                now,
            );
        }
        return Ok(true);
    } else if text::same(event, "error") {
        let message = match &parsed {
            Ok(value) => video_document_message(Some(value), data),
            Err(_) => video_document_message(None, data),
        };
        video::update_task(state, task_id, TaskChange::Failed(message), now);
        return Ok(true);
    }
    Ok(false)
}

/// Takes an event in; whether the upstream is done.
pub fn parse_sse_event(
    state: &mut VideoState,
    event: &str,
    data: &str,
    task_id: &str,
    now_ms: u64,
) -> (r: Result<bool, String>)
    ensures
        (final(state)@, outcome_view(r)) == event_applied(
            old(state)@,
            event@,
            data@,
            outside::json_of_text(data@),
            task_id@,
            now_ms,
        ),
{
    apply_sse_event(state, event, data, outside::parse_text(data), task_id, now_ms)
}

/// Where the upstream says it is done without a video that can be fetched, the
/// task is not completed.
pub proof fn law_done_without_a_resource_is_no_success(
    s: StateView,
    data: Seq<char>,
    parsed: Result<JsonView, Seq<char>>,
    task_id: Seq<char>,
    now_ms: u64,
)
    requires
        s.task(task_id) is Some,
    ensures
        ({
            let (after, outcome) = event_applied(
                s,
                "done"@,
                data,
                parsed,
                task_id,
                now_ms,
            );
            &&& outcome == Ok::<_, Seq<char>>(true)
            &&& after.task(task_id) matches Some(task) && (if has_resource(after, task_id) {
                task.status == "completed"@
            } else {
                task.status == "failed"@
            })
        }),
{
    reveal_strlit("done");
    reveal_strlit("result");
    reveal_strlit("output");
    assert("done"@ != "result"@ && "done"@ != "output"@) by {
        assert("done"@.len() == 4);
        assert("result"@.len() == 6);
        assert("output"@.len() == 6);
    }
    let now = (now_ms / 1000) as u64;
    let s1 = if text::trim(data).len() > 0 && parsed is Ok {
        result_applied(
            s,
            task_id,
            parsed->Ok_0,
            event_receipt(parsed->Ok_0, data, task_id, now_ms),
            now,
        )
    } else {
        s
    };
    if text::trim(data).len() > 0 && parsed is Ok {
        let (uri, url, duration) = fields_of(parsed->Ok_0);
        let change = ChangeView::Result(
            uri,
            url,
            duration,
            event_receipt(parsed->Ok_0, data, task_id, now_ms),
        );
        let t = video::TaskView {
            updated_at: now,
            ..video::changed(s.task(task_id)->0, change)
        };
        crate::table::lemma_find_put(s.tasks, task_id, t);
    }
    assert(s1.task(task_id) is Some);
    let change = if has_resource(s1, task_id) {
        ChangeView::Status("completed"@)
    } else {
        ChangeView::Failed("Seedance 已结束但未返回视频资源"@)
    };
    let t = video::TaskView { updated_at: now, ..video::changed(s1.task(task_id)->0, change) };
    crate::table::lemma_find_put(s1.tasks, task_id, t);
}

/// A task whose worker is gone is never left running: it has ended, or it is
/// unknown.
pub proof fn law_worker_never_leaves_a_task_running(s: StateView, task_id: Seq<char>, now: u64)
    ensures
        video::worker_gone_spec(s, task_id, now).task(task_id) matches Some(task) ==> (
        video::is_terminal(task.status) || task.status == "unknown"@),
{
    if s.task(task_id) is Some {
        let t = video::TaskView {
            updated_at: now,
            ..video::changed(
                s.task(task_id)->0,
                ChangeView::Unknown("视频 worker 异常退出，等待恢复/核查"@),
            )
        };
        crate::table::lemma_find_put(s.tasks, task_id, t);
    }
}

} // verus!
