//! What holds of a video task from its making to its end.

use crate::json::{JsonView, NumberView};
use crate::table;
use crate::text;
use crate::text_laws;
use crate::trae_resource_upload::UploadErrorView;
use crate::video::{
    self, BillingStatus, ChangeView, CreateView, LoadView, ReceiptView, StateView, TaskView,
};
use crate::video_events::{self, ErrKind};
use crate::video_native::{self, NoteView, Phase, WorkerActionView, WorkerEventView, WorkerView};
use crate::video_request;
use crate::video_store;
use vstd::prelude::*;

verus! {

/// Exactly four words say that a task has ended: that it is completed, that it
/// failed, that it was canceled and that it took too long.
pub proof fn law_a_task_ends_in_four_ways()
    ensures
        video::is_terminal("completed"@),
        video::is_terminal("failed"@),
        video::is_terminal("canceled"@),
        video::is_terminal("timeout"@),
        !video::is_terminal("queued"@),
        !video::is_terminal("processing"@),
        !video::is_terminal("unknown"@),
        forall|status: Seq<char>| #[trigger]
            video::is_terminal(status) ==> status == "completed"@ || status == "failed"@ || status
                == "canceled"@ || status == "timeout"@,
{
    reveal_strlit("completed");
    reveal_strlit("failed");
    reveal_strlit("canceled");
    reveal_strlit("timeout");
    reveal_strlit("queued");
    reveal_strlit("processing");
    reveal_strlit("unknown");
    assert("completed"@.len() == 9);
    assert("failed"@.len() == 6);
    assert("canceled"@.len() == 8);
    assert("timeout"@.len() == 7);
    assert("queued"@.len() == 6);
    assert("processing"@.len() == 10);
    assert("unknown"@.len() == 7);
    assert("failed"@[0] != "queued"@[0]);
    assert("timeout"@[0] != "unknown"@[0]);
}

proof fn lemma_statuses_are_apart()
    ensures
        "completed"@ != "failed"@,
        "completed"@ != "processing"@,
        "completed"@ != "unknown"@,
        "failed"@ != "processing"@,
        "failed"@ != "unknown"@,
        "processing"@ != "unknown"@,
{
    reveal_strlit("completed");
    reveal_strlit("failed");
    reveal_strlit("processing");
    reveal_strlit("unknown");
    assert("completed"@.len() == 9);
    assert("failed"@.len() == 6);
    assert("processing"@.len() == 10);
    assert("unknown"@.len() == 7);
}

proof fn lemma_events_are_apart()
    ensures
        "result"@ != "output"@,
        "result"@ != "done"@,
        "result"@ != "error"@,
        "output"@ != "done"@,
        "output"@ != "error"@,
        "done"@ != "error"@,
{
    reveal_strlit("result");
    reveal_strlit("output");
    reveal_strlit("done");
    reveal_strlit("error");
    assert("result"@.len() == 6);
    assert("output"@.len() == 6);
    assert("done"@.len() == 4);
    assert("error"@.len() == 5);
    assert("result"@[0] != "output"@[0]);
}

/// What a task is told apart by never changes.
pub open spec fn same_task(a: TaskView, b: TaskView) -> bool {
    &&& a.id == b.id && a.object == b.object && a.model == b.model && a.prompt == b.prompt
    &&& a.created_at == b.created_at && a.transport == b.transport
    &&& a.request_key == b.request_key && a.owner_key_id == b.owner_key_id
}

/// What was found of the video stays as it was.
pub open spec fn same_result(a: TaskView, b: TaskView) -> bool {
    &&& a.video_url == b.video_url && a.resource_uri == b.resource_uri
    &&& a.video_duration == b.video_duration && a.billing == b.billing
}

/// What is known of the gateway's copy stays as it was.
pub open spec fn same_copy(a: TaskView, b: TaskView) -> bool {
    a.content_url == b.content_url && a.artifact_error == b.artifact_error
}

/// A change does to a task what it says and nothing else, and is dated. An
/// unknown outcome never touches a task that has ended; a result never takes
/// away what an earlier one brought.
pub proof fn law_a_change_does_what_it_says(
    s: StateView,
    task_id: Seq<char>,
    change: ChangeView,
    now: u64,
    before: TaskView,
)
    requires
        s.task(task_id) == Some(before),
    ensures
        ({
            let after = video::update_spec(s, task_id, change, now);
            &&& after.seq == s.seq && after.idempotency == s.idempotency && after.data_dir
                == s.data_dir
            &&& after.task(task_id) matches Some(t)
            &&& same_task(before, t)
            &&& t.updated_at == now
            &&& match change {
                ChangeView::Status(status) => t.status == status && t.error == before.error
                    && same_result(before, t) && same_copy(before, t),
                ChangeView::Unknown(reason) => {
                    let ended = before.status == "completed"@ || before.status == "failed"@
                        || before.status == "canceled"@ || before.status == "timeout"@;
                    &&& same_result(before, t) && same_copy(before, t)
                    &&& ended ==> t.status == before.status && t.error == before.error
                    &&& !ended ==> t.status == "unknown"@ && t.error == Some(reason)
                },
                ChangeView::Failed(reason) => t.status == "failed"@ && t.error == Some(reason)
                    && same_result(before, t) && same_copy(before, t),
                ChangeView::VideoUrl(url) => t.video_url == Some(url) && t.status == before.status
                    && t.error == before.error && t.resource_uri == before.resource_uri
                    && t.video_duration == before.video_duration && t.billing == before.billing
                    && same_copy(before, t),
                ChangeView::Cached(url) => t.content_url == url && t.artifact_error is None
                    && t.status == before.status && t.error == before.error && same_result(
                    before,
                    t,
                ),
                ChangeView::CacheFailed(reason) => t.artifact_error == Some(reason)
                    && t.content_url == before.content_url && t.status == before.status && t.error
                    == before.error && same_result(before, t),
                ChangeView::Result(uri, url, duration, billing) => {
                    &&& t.status == before.status && t.error == before.error && same_copy(before, t)
                    &&& uri is Some ==> t.resource_uri == uri
                    &&& uri is None ==> t.resource_uri == before.resource_uri
                    &&& url is Some ==> t.video_url == url
                    &&& url is None ==> t.video_url == before.video_url
                    &&& duration is Some ==> t.video_duration == duration
                    &&& duration is None ==> t.video_duration == before.video_duration
                    &&& billing.status == BillingStatus::Verified ==> t.billing == billing
                    &&& billing.status == BillingStatus::Absent ==> t.billing == before.billing
                    &&& billing.status == BillingStatus::Unverified && before.billing.status
                        == BillingStatus::Absent ==> t.billing == billing
                    &&& billing.status == BillingStatus::Unverified && before.billing.status
                        != BillingStatus::Absent ==> t.billing == before.billing
                },
            }
        }),
{
    let t = TaskView { updated_at: now, ..video::changed(before, change) };
    table::lemma_find_put(s.tasks, task_id, t);
}

/// A change to a task that is not held changes nothing.
pub proof fn law_a_missing_task_is_not_made_by_a_change(
    s: StateView,
    task_id: Seq<char>,
    change: ChangeView,
    now: u64,
)
    requires
        s.task(task_id) is None,
    ensures
        video::update_spec(s, task_id, change, now) == s,
{
}

/// A new task waits in the queue with the model and the prompt it was asked
/// with, belongs to the key that asked, is dated, and is held under its id. Of
/// the tasks before it, only some that have ended make room for it. No result
/// and no charge is known of it.
pub proof fn law_a_new_task_is_what_was_asked(
    s: StateView,
    model: Seq<char>,
    prompt: Seq<char>,
    owner: Seq<char>,
    now_ms: u64,
)
    ensures
        ({
            let (after, task) = video::create_spec(s, model, prompt, owner, now_ms);
            &&& after.task(task.id) == Some(task)
            &&& task.model == model && task.prompt == prompt
            &&& task.status == "queued"@ && task.object == "video"@
            &&& task.created_at == now_ms / 1000 && task.updated_at == now_ms / 1000
            &&& text::trim(owner).len() > 0 ==> task.owner_key_id == text::trim(owner)
            &&& text::trim(owner).len() == 0 ==> task.owner_key_id == "anonymous"@
            &&& task.error is None && task.video_url is None && task.resource_uri is None
            &&& task.video_duration is None && task.content_url is None && task.artifact_error is None
            &&& task.billing.status == BillingStatus::Absent && task.billing.actual_credits is None
            &&& task.request_key is None
            &&& after.permits == s.permits && after.idempotency == s.idempotency
            &&& after.data_dir == s.data_dir
            &&& s.seq < u64::MAX ==> after.seq == s.seq + 1
        }),
{
    let (after, task) = video::create_spec(s, model, prompt, owner, now_ms);
    table::lemma_find_put(
        video::make_room(s.tasks, (now_ms / 1000) as u64),
        task.id,
        task,
    );
}

/// Two tasks that are made one after the other have different ids.
pub proof fn law_two_tasks_have_two_ids(
    s: StateView,
    model: Seq<char>,
    prompt: Seq<char>,
    owner: Seq<char>,
    now_ms: u64,
)
    ensures
        ({
            let (after, first) = video::create_spec(s, model, prompt, owner, now_ms);
            let (_, second) = video::create_spec(after, model, prompt, owner, now_ms);
            first.id != second.id
        }),
{
    let (after, first) = video::create_spec(s, model, prompt, owner, now_ms);
    let head = "video-"@ + text::decimal(now_ms as nat) + "-"@;
    let a = text::decimal(after.seq as nat);
    let b = text::decimal(video::next_seq(after.seq) as nat);
    assert(first.id == head + a);
    assert(after.seq != video::next_seq(after.seq));
    text_laws::law_decimal_digits_say_the_number(after.seq as nat);
    text_laws::law_decimal_digits_say_the_number(video::next_seq(after.seq) as nat);
    assert(a != b);
    if head + a == head + b {
        assert((head + a).subrange(head.len() as int, (head + a).len() as int) =~= a);
        assert((head + b).subrange(head.len() as int, (head + b).len() as int) =~= b);
    }
}

/// A permit that a task takes is its own until it is given back; taking or
/// giving back touches no other task.
pub proof fn law_a_permit_belongs_to_one_task(
    s: StateView,
    task_id: Seq<char>,
    key_id: Seq<char>,
    other: Seq<char>,
)
    requires
        s.valid(),
        other != task_id,
    ensures
        ({
            let taken = video::retain_spec(s, task_id, key_id);
            let given = video::release_spec(s, task_id);
            &&& taken.holds_permit(task_id)
            &&& !s.holds_permit(task_id) ==> table::find(taken.permits, task_id) == Some(key_id)
            &&& s.holds_permit(task_id) ==> taken == s
            &&& taken.holds_permit(other) == s.holds_permit(other)
            &&& !given.holds_permit(task_id)
            &&& given.holds_permit(other) == s.holds_permit(other)
            &&& taken.tasks == s.tasks && given.tasks == s.tasks
        }),
{
    table::lemma_find_put(s.permits, task_id, key_id);
    table::lemma_find_without(s.permits, task_id);
}

/// No two stored tasks have one id.
pub open spec fn one_task_each(list: Seq<TaskView>) -> bool {
    forall|i: int, j: int|
        0 <= i < j < list.len() ==> (#[trigger] list[i]).id != (#[trigger] list[j]).id
}

/// What is stored is taken in as it was stored, but for tasks without an id and
/// for tasks that ended more than a day ago; nothing else is held afterwards.
pub proof fn law_a_stored_task_is_taken_in(
    permits: Seq<(Seq<char>, Seq<char>)>,
    list: Seq<TaskView>,
    n: nat,
    now: u64,
)
    requires
        one_task_each(list),
        n <= list.len(),
    ensures
        ({
            let empty = LoadView { tasks: Seq::empty(), idempotency: Seq::empty(), permits };
            let loaded = video::load_all(empty, list, n, now);
            &&& forall|i: int|
                0 <= i < n ==> table::find(loaded.tasks, (#[trigger] list[i]).id) == (if text::trim(
                    list[i].id,
                ).len() == 0 || (video::is_terminal(list[i].status) && now > list[i].updated_at
                    + 86400) {
                    None
                } else {
                    Some(list[i])
                })
            &&& forall|id: Seq<char>|
                (forall|i: int| 0 <= i < n ==> (#[trigger] list[i]).id != id) ==> (
                #[trigger] table::find(loaded.tasks, id)) is None
        }),
    decreases n,
{
    if n > 0 {
        let m = (n - 1) as nat;
        law_a_stored_task_is_taken_in(permits, list, m, now);
        let empty = LoadView { tasks: Seq::empty(), idempotency: Seq::empty(), permits };
        let before = video::load_all(empty, list, m, now);
        let task = list[m as int];
        table::lemma_find_put(before.tasks, task.id, task);
        assert forall|i: int| 0 <= i < m implies (#[trigger] list[i]).id != task.id by {
            assert(list[m as int].id != list[i].id);
        }
        assert(table::find(before.tasks, task.id) is None);
    }
}

/// Of the first `n` tasks, the one that makes room first is the one that ended
/// first.
pub proof fn law_the_oldest_ended_task_makes_room(tasks: Seq<(Seq<char>, TaskView)>, n: nat)
    requires
        n <= tasks.len(),
    ensures
        ({
            let at = video::oldest_ended(tasks, n);
            &&& at < n
            &&& at >= 0 ==> video::is_terminal(tasks[at].1.status)
            &&& forall|i: int|
                0 <= i < n && video::is_terminal((#[trigger] tasks[i]).1.status) ==> at >= 0
                    && tasks[at].1.updated_at <= tasks[i].1.updated_at
        }),
    decreases n,
{
    if n > 0 {
        law_the_oldest_ended_task_makes_room(tasks, (n - 1) as nat);
    }
}

proof fn lemma_prune_has(
    tasks: Seq<(Seq<char>, TaskView)>,
    cutoff: int,
    entry: (Seq<char>, TaskView),
)
    ensures
        video::prune(tasks, cutoff).contains(entry) == (tasks.contains(entry) && !(
        video::is_terminal(entry.1.status) && entry.1.updated_at < cutoff)),
    decreases tasks.len(),
{
    if tasks.len() > 0 {
        let rest = tasks.subrange(1, tasks.len() as int);
        lemma_prune_has(rest, cutoff, entry);
        let pruned = video::prune(rest, cutoff);
        let all = video::prune(tasks, cutoff);
        assert(tasks.contains(entry) == (tasks[0] == entry || rest.contains(entry))) by {
            if tasks.contains(entry) {
                let i = choose|i: int| 0 <= i < tasks.len() && tasks[i] == entry;
                if i > 0 {
                    assert(rest[i - 1] == entry);
                }
            }
            if rest.contains(entry) {
                let i = choose|i: int| 0 <= i < rest.len() && rest[i] == entry;
                assert(tasks[i + 1] == entry);
            }
        }
        if !video::is_stale(tasks[0].1, cutoff) {
            assert(all =~= seq![tasks[0]] + pruned);
            assert(all[0] == tasks[0]);
            if pruned.contains(entry) {
                let i = choose|i: int| 0 <= i < pruned.len() && pruned[i] == entry;
                assert(all[i + 1] == entry);
            }
            if all.contains(entry) {
                let i = choose|i: int| 0 <= i < all.len() && all[i] == entry;
                if i > 0 {
                    assert(pruned[i - 1] == entry);
                }
            }
        }
    }
}

/// A task is held for a day after it ended: where there is room, exactly the
/// tasks that ended earlier leave.
pub proof fn law_an_ended_task_is_held_for_a_day(
    tasks: Seq<(Seq<char>, TaskView)>,
    now: u64,
    entry: (Seq<char>, TaskView),
)
    requires
        tasks.len() < 2048,
        now >= 86400,
    ensures
        video::make_room(tasks, now).contains(entry) == (tasks.contains(entry) && !(
        video::is_terminal(entry.1.status) && entry.1.updated_at < now - 86400)),
{
    lemma_prune_has(tasks, now - 86400, entry);
    lemma_prune_len(tasks, now - 86400);
}

proof fn lemma_prune_len(tasks: Seq<(Seq<char>, TaskView)>, cutoff: int)
    ensures
        video::prune(tasks, cutoff).len() <= tasks.len(),
    decreases tasks.len(),
{
    if tasks.len() > 0 {
        lemma_prune_len(tasks.subrange(1, tasks.len() as int), cutoff);
    }
}

/// A request with a fresh replay key makes a task and binds the key to it: the
/// key leads to the task from then on, and only a task whose key is free is
/// made.
pub proof fn law_a_replay_key_leads_to_its_task(
    s: StateView,
    model: Seq<char>,
    prompt: Seq<char>,
    owner: Seq<char>,
    key: Option<Seq<char>>,
    now_ms: u64,
)
    ensures
        ({
            let (after, outcome) = video::create_or_replay(s, model, prompt, owner, key, now_ms);
            let keyed = key is Some && text::trim(key->0).len() > 0;
            &&& !keyed ==> outcome is Created
            &&& keyed ==> (outcome is Existing == video::replayed(s, key->0) is Some)
            &&& outcome matches CreateView::Existing(task) ==> after == s && video::replayed(
                s,
                key->0,
            ) == Some(task)
            &&& outcome matches CreateView::Created(task) ==> {
                &&& task.model == model && task.prompt == prompt && task.status == "queued"@
                &&& keyed ==> (video::replayed(after, key->0) matches Some(found) && found.id
                    == task.id && found.request_key == Some(text::trim(key->0)) && found.prompt
                    == prompt && found.model == model && found.status == "queued"@)
                &&& !keyed ==> after.task(task.id) == Some(task)
            }
        }),
{
    let (after, outcome) = video::create_or_replay(s, model, prompt, owner, key, now_ms);
    let keyed = key is Some && text::trim(key->0).len() > 0;
    if keyed {
        text::lemma_trim_twice(key->0);
    }
    if let CreateView::Created(task) = outcome {
        if keyed {
            let k = text::trim(key->0);
            let cleared = StateView { idempotency: table::without(s.idempotency, k), ..s };
            law_a_new_task_is_what_was_asked(cleared, model, prompt, owner, now_ms);
            let (made, task2) = video::create_spec(cleared, model, prompt, owner, now_ms);
            let bound = TaskView { request_key: Some(k), ..task2 };
            table::lemma_find_put(made.tasks, task2.id, bound);
            let keys = made.idempotency;
            let room = if keys.len() >= 1024 {
                keys.subrange(keys.len() - 1023, keys.len() as int)
            } else {
                keys
            };
            table::lemma_find_put(room, k, task2.id);
        } else {
            law_a_new_task_is_what_was_asked(s, model, prompt, owner, now_ms);
        }
    }
}

/// Another account may succeed exactly where an account is out of credits,
/// beyond its plan or signed out.
pub proof fn law_only_an_accounts_own_error_is_tried_elsewhere(kind: ErrKind)
    ensures
        video_events::account_specific(kind) == (kind == ErrKind::HardCredit || kind
            == ErrKind::PlanLimit || kind == ErrKind::SessionDead),
{
}

/// An error is classified by its code before its words and by its words before
/// its status.
pub proof fn law_an_error_is_classified_by_what_it_says(
    parsed: Option<JsonView>,
    body: Seq<char>,
    by_code: ErrKind,
    by_status: ErrKind,
)
    ensures
        ({
            let kind = video_events::video_error_kind(parsed, body, by_code, by_status);
            let coded = parsed is Some && (by_code != ErrKind::Server || video_events::error_code(
                parsed->0,
            ) != 0);
            let low = text::lower(body);
            let poor = text::contains(low, "insufficient credit"@) || text::contains(
                low,
                "credits exhausted"@,
            ) || text::contains(low, "积分不足"@) || text::contains(low, "余额不足"@);
            &&& coded ==> kind == by_code
            &&& !coded && poor ==> kind == ErrKind::HardCredit
            &&& !coded && !poor ==> kind == by_status
        }),
{
}

/// The message of an error is read where errors have it: in the document, or
/// else in its error; the code likewise.
pub proof fn law_an_error_is_read_where_it_stands(value: JsonView)
    ensures
        value.get("message"@) matches Some(JsonView::Text(m)) ==> video_events::error_text(value)
            == Some(m),
        value.get("message"@) is None && (value.get("error"@) matches Some(error)
            && error.text_at("message"@) is Some) ==> video_events::error_text(value)
            == value.get("error"@)->0.text_at("message"@),
        value.get("code"@) matches Some(code) ==> (code.as_signed() matches Some(n)
            ==> video_events::error_code(value) == n),
        value.get("code"@) is None ==> (value.get("error_code"@) matches Some(code) ==> (
        code.as_signed() matches Some(n) ==> video_events::error_code(value) == n)),
        value.get("code"@) is None && value.get("error_code"@) is None ==> video_events::error_code(
            value,
        ) == 0,
{
}

/// A result is read from the document itself before anything in it; an address
/// counts only where it is secure.
pub proof fn law_a_result_is_read_from_its_document(value: JsonView, uri: Seq<char>, url: Seq<char>)
    ensures
        value.text_at("uri"@) == Some(uri) ==> video_events::fields_of(value).0 == Some(uri),
        value.text_at("uri"@) is None && value.text_at("resource_uri"@) == Some(uri)
            ==> video_events::fields_of(value).0 == Some(uri),
        value.text_at("url"@) == Some(url) && text::starts_with(url, "https://"@)
            ==> video_events::fields_of(value).1 == Some(url),
        video_events::fields_of(value).1 matches Some(found) ==> text::starts_with(
            found,
            "https://"@,
        ),
        value.text_at("uri"@) is None && value.text_at("resource_uri"@) is None && value.text_at(
            "video_uri"@,
        ) is None && (value.get("data"@) matches Some(data) && data.text_at("uri"@) == Some(uri))
            ==> video_events::fields_of(value).0 == Some(uri),
        value.text_at("url"@) is None && (value.get("data"@) matches Some(data) && data.text_at(
            "url"@,
        ) == Some(url)) && text::starts_with(url, "https://"@) ==> video_events::fields_of(value).1
            == Some(url),
{
}

/// A task goes on by the events of its upstream: a result is noted with the
/// task, the end completes a task that has a video and fails one that has none,
/// an error fails the task with its message, and any other event says nothing.
pub proof fn law_events_move_a_task(
    s: StateView,
    event: Seq<char>,
    data: Seq<char>,
    parsed: Result<JsonView, Seq<char>>,
    task_id: Seq<char>,
    now_ms: u64,
    before: TaskView,
)
    requires
        s.task(task_id) == Some(before),
    ensures
        ({
            let (after, outcome) = video_events::event_applied(
                s,
                event,
                data,
                parsed,
                task_id,
                now_ms,
            );
            let result = event == "result"@ || event == "output"@;
            &&& after.task(task_id) matches Some(t)
            &&& same_task(before, t)
            &&& outcome is Err == (result && parsed is Err)
            &&& outcome is Err ==> after == s
            &&& outcome == Ok::<bool, Seq<char>>(true) <==> event == "done"@ || event == "error"@
            &&& result && parsed is Ok ==> {
                let (uri, url, duration) = video_events::fields_of(parsed->Ok_0);
                &&& t.status == before.status && t.error == before.error
                &&& uri is Some ==> t.resource_uri == uri
                &&& uri is None ==> t.resource_uri == before.resource_uri
                &&& url is Some ==> t.video_url == url
                &&& url is None ==> t.video_url == before.video_url
                &&& duration is Some ==> t.video_duration == duration
            }
            &&& event == "done"@ ==> {
                &&& t.status == "completed"@ || t.status == "failed"@
                &&& (t.status == "completed"@) == (t.resource_uri is Some || t.video_url is Some)
                &&& before.resource_uri is Some || before.video_url is Some ==> t.status
                    == "completed"@
                &&& !after.holds_permit(task_id) || !s.valid()
            }
            &&& event == "error"@ ==> t.status == "failed"@ && t.error is Some
            &&& event == "error"@ ==> (parsed matches Ok(value) ==> (video_events::error_text(
                value,
            ) matches Some(message) ==> t.error == Some(message)))
            &&& !result && event != "done"@ && event != "error"@ ==> after == s
        }),
{
    lemma_events_are_apart();
    lemma_statuses_are_apart();
    let now = (now_ms / 1000) as u64;
    if parsed is Ok {
        let value = parsed->Ok_0;
        let (uri, url, duration) = video_events::fields_of(value);
        let billing = video_events::event_receipt(value, data, task_id, now_ms);
        let change = ChangeView::Result(uri, url, duration, billing);
        law_a_change_does_what_it_says(s, task_id, change, now, before);
        let s1 = video_events::result_applied(s, task_id, value, billing, now);
        let middle = s1.task(task_id)->0;
        assert(same_task(before, middle));
        law_a_change_does_what_it_says(
            s1,
            task_id,
            ChangeView::Status("completed"@),
            now,
            middle,
        );
        law_a_change_does_what_it_says(
            s1,
            task_id,
            ChangeView::Failed("Seedance 已结束但未返回视频资源"@),
            now,
            middle,
        );
        if s.valid() {
            table::lemma_find_without(s.permits, task_id);
            table::lemma_find_without(s1.permits, task_id);
        }
    }
    law_a_change_does_what_it_says(s, task_id, ChangeView::Status("completed"@), now, before);
    law_a_change_does_what_it_says(
        s,
        task_id,
        ChangeView::Failed("Seedance 已结束但未返回视频资源"@),
        now,
        before,
    );
    law_a_change_does_what_it_says(
        s,
        task_id,
        ChangeView::Failed(
            video_events::error_message(video_events::document(parsed), data),
        ),
        now,
        before,
    );
    if s.valid() {
        table::lemma_find_without(s.permits, task_id);
    }
}

/// A worker goes from its account to the upstream in order: the material is
/// prepared, the use of the account recorded, the request sent and the stream
/// read. What is recorded is the request as it was prepared.
pub proof fn law_a_worker_sends_what_was_recorded(
    w: WorkerView,
    s: StateView,
    event: WorkerEventView,
    parsed: Result<JsonView, Seq<char>>,
    now_ms: u64,
)
    requires
        video_native::expected(w, event),
    ensures
        ({
            let step = video_native::worker_step(w, s, event, parsed, now_ms);
            &&& step.worker.task_id == w.task_id
            &&& step.action is Send <==> event is Recorded
            &&& step.action is Record <==> event is Prepared
            &&& event matches WorkerEventView::Prepared(body, session) ==> step.action
                == WorkerActionView::Record(video_request::native_body(body, session))
                && step.state == s && step.note is Nothing
            &&& event is Recorded ==> step.worker.phase == Phase::Sending && step.state == s
            &&& event matches WorkerEventView::Picked(Some(uid)) ==> {
                &&& step.action is Prepare
                &&& step.worker.uid == uid && step.worker.tried == w.tried.push(uid)
                &&& step.state == s
            }
            &&& !(event is Picked) ==> step.worker.uid == w.uid && step.worker.tried == w.tried
            &&& event matches WorkerEventView::Answered(status, _, _) ==> (step.action is Read == (
            200 <= status < 300))
        }),
{
}

/// An account that fails on its own account is put down, and another is asked
/// for; the task fails where none is left, with the last failure. A refusal
/// that any account would meet fails the task at once.
pub proof fn law_a_worker_tries_another_account(
    w: WorkerView,
    s: StateView,
    event: WorkerEventView,
    parsed: Result<JsonView, Seq<char>>,
    now_ms: u64,
    task: TaskView,
)
    requires
        video_native::expected(w, event),
        s.task(w.task_id) == Some(task),
    ensures
        ({
            let step = video_native::worker_step(w, s, event, parsed, now_ms);
            let failed = step.action is Stop && (step.state.task(w.task_id) matches Some(t)
                && t.status == "failed"@);
            &&& event matches WorkerEventView::Answered(status, body, kind) ==> {
                let own = kind == ErrKind::HardCredit || kind == ErrKind::PlanLimit || kind
                    == ErrKind::SessionDead;
                &&& !(200 <= status < 300) ==> step.note == NoteView::Failed(w.uid, kind)
                &&& !(200 <= status < 300) && own ==> step.action is PickAnother && step.state == s
                &&& !(200 <= status < 300) && !own ==> failed && (step.state.task(
                    w.task_id,
                )->0.error == Some(
                    "Seedance 上游 HTTP "@ + text::decimal(status as nat) + ": "@ + text::take(
                        body,
                        240,
                    ),
                ))
                &&& 200 <= status < 300 ==> (step.state.task(w.task_id) matches Some(t) && t.status
                    == "processing"@) && step.note is Nothing
            }
            &&& event matches WorkerEventView::NotPrepared(error) ==> {
                &&& error.retryable_account ==> step.action is PickAnother && step.note
                    == NoteView::Failed(w.uid, ErrKind::SessionDead) && step.state == s
                    && step.worker.failure == error.message
                &&& !error.retryable_account ==> failed && step.note is Nothing && step.state.task(
                    w.task_id,
                )->0.error == Some(error.message)
            }
            &&& event == WorkerEventView::Picked(None) ==> failed && step.state.task(
                w.task_id,
            )->0.error == Some(w.failure)
            &&& event is SessionUnbound || event is NotRecorded ==> failed && step.note is Nothing
            &&& event is Broken ==> step.action is Stop && step.note == NoteView::Failed(
                w.uid,
                ErrKind::Server,
            )
        }),
{
    let now = (now_ms / 1000) as u64;
    let fail = |m: Seq<char>| ChangeView::Failed(m);
    match event {
        WorkerEventView::Answered(status, body, _) => {
            law_a_change_does_what_it_says(
                s,
                w.task_id,
                ChangeView::Failed(video_native::refused_message(status, body)),
                now,
                task,
            );
            law_a_change_does_what_it_says(
                s,
                w.task_id,
                ChangeView::Status("processing"@),
                now,
                task,
            );
        },
        WorkerEventView::NotPrepared(error) => {
            law_a_change_does_what_it_says(
                s,
                w.task_id,
                ChangeView::Failed(error.message),
                now,
                task,
            );
        },
        WorkerEventView::Picked(_) => {
            law_a_change_does_what_it_says(s, w.task_id, ChangeView::Failed(w.failure), now, task);
        },
        WorkerEventView::SessionUnbound => {
            law_a_change_does_what_it_says(
                s,
                w.task_id,
                ChangeView::Failed(
                    "Core 请求无法建立独立的上游用量会话，已阻止未记录的上游调用"@,
                ),
                now,
                task,
            );
        },
        WorkerEventView::NotRecorded => {
            law_a_change_does_what_it_says(
                s,
                w.task_id,
                ChangeView::Failed(
                    "Core 请求与上游会话归因暂不可用，已阻止未记录的上游调用"@,
                ),
                now,
                task,
            );
        },
        _ => {},
    }
}

/// A stream of events is read line by line: a line names the event or adds to
/// its data, and an empty line ends the event, which is then taken in.
pub proof fn law_events_are_read_line_by_line(
    w: WorkerView,
    s: StateView,
    rest: Seq<char>,
    parsed: Result<JsonView, Seq<char>>,
    now_ms: u64,
)
    requires
        w.phase == Phase::Reading,
        text::trim(rest).len() > 0,
        text::trim(rest) == rest,
    ensures
        ({
            let named = video_native::worker_step(
                w,
                s,
                WorkerEventView::Line("event:"@ + rest),
                parsed,
                now_ms,
            );
            let fed = video_native::worker_step(w, s, WorkerEventView::Line("data:"@ + rest), parsed, now_ms);
            &&& named.action is Read && named.state == s && named.note is Nothing
            &&& named.worker == (WorkerView { event_name: rest, ..w })
            &&& fed.action is Read && fed.state == s && fed.note is Nothing
            &&& w.event_data.len() == 0 ==> fed.worker == (WorkerView { event_data: rest, ..w })
            &&& w.event_data.len() > 0 ==> fed.worker == (WorkerView {
                event_data: w.event_data + "\n"@ + rest,
                ..w
            })
        }),
{
    reveal_strlit("event:");
    reveal_strlit("data:");
    assert("event:"@.len() == 6 && "event:"@[0] == 'e');
    assert("data:"@.len() == 5 && "data:"@[0] == 'd');
    let a = "event:"@ + rest;
    let b = "data:"@ + rest;
    lemma_line("event:"@, rest);
    lemma_line("data:"@, rest);
    assert(!text::starts_with(b, "event:"@)) by {
        if text::starts_with(b, "event:"@) {
            assert(b.subrange(0, 6)[0] == "event:"@[0]);
        }
    }
    lemma_trimmed(rest);
}

proof fn lemma_trimmed(rest: Seq<char>)
    requires
        text::trim(rest) == rest,
        rest.len() > 0,
    ensures
        text::trim_start(rest) == rest,
{
    text_laws::law_trimming_takes_white_space_alone(rest);
}

proof fn lemma_line(head: Seq<char>, rest: Seq<char>)
    requires
        head.len() > 0,
        !text::is_space(head[0]),
    ensures
        text::trim(head + rest).len() > 0,
        text::starts_with(head + rest, head),
        (head + rest).subrange(head.len() as int, (head + rest).len() as int) == rest,
{
    let all = head + rest;
    assert(all[0] == head[0]);
    assert(all.subrange(0, head.len() as int) =~= head);
    assert(all.subrange(head.len() as int, all.len() as int) =~= rest);
    text_laws::law_trimming_takes_white_space_alone(all);
}

/// A completed task is fetched: its resource is resolved where it has one, its
/// address noted, and its video copied; the account has served then, whether or
/// not the copy was made. The copy, or why there is none, is noted with the
/// task.
pub proof fn law_a_completed_task_is_fetched(
    w: WorkerView,
    s: StateView,
    event: WorkerEventView,
    parsed: Result<JsonView, Seq<char>>,
    now_ms: u64,
    task: TaskView,
)
    requires
        video_native::expected(w, event),
        s.task(w.task_id) == Some(task),
    ensures
        ({
            let step = video_native::worker_step(w, s, event, parsed, now_ms);
            &&& event matches WorkerEventView::Resolved(Some(url)) ==> step.action
                == WorkerActionView::Download(url) && step.state.task(w.task_id)->0.video_url
                == Some(url)
            &&& event == WorkerEventView::Resolved(None) ==> {
                &&& task.video_url matches Some(url) ==> step.action == WorkerActionView::Download(
                    url,
                )
                &&& task.video_url is None ==> step.action is Stop && step.note
                    == NoteView::Succeeded(w.uid)
                &&& step.state == s
            }
            &&& event matches WorkerEventView::Downloaded(base) ==> {
                &&& step.action is Stop && step.note == NoteView::Succeeded(w.uid)
                &&& step.state.task(w.task_id)->0.content_url == video_store::content_address(
                    w.task_id,
                    base,
                )
                &&& step.state.task(w.task_id)->0.artifact_error is None
            }
            &&& event matches WorkerEventView::NotDownloaded(error) ==> {
                &&& step.action is Stop && step.note == NoteView::Succeeded(w.uid)
                &&& step.state.task(w.task_id)->0.artifact_error == Some(text::take(error, 240))
                &&& step.state.task(w.task_id)->0.status == task.status
            }
        }),
{
    let now = (now_ms / 1000) as u64;
    match event {
        WorkerEventView::Resolved(Some(url)) => law_a_change_does_what_it_says(
            s,
            w.task_id,
            ChangeView::VideoUrl(url),
            now,
            task,
        ),
        WorkerEventView::Downloaded(base) => law_a_change_does_what_it_says(
            s,
            w.task_id,
            ChangeView::Cached(video_store::content_address(w.task_id, base)),
            now,
            task,
        ),
        WorkerEventView::NotDownloaded(error) => law_a_change_does_what_it_says(
            s,
            w.task_id,
            ChangeView::CacheFailed(text::take(error, 240)),
            now,
            task,
        ),
        _ => {},
    }
}

/// A stream that ends without an open event leaves a completed task to be
/// fetched and a task that was still going on unknown; the account whose
/// stream ended early met an error.
pub proof fn law_a_stream_that_ends_early_is_unknown(
    w: WorkerView,
    s: StateView,
    parsed: Result<JsonView, Seq<char>>,
    now_ms: u64,
    task: TaskView,
)
    requires
        w.phase == Phase::Reading,
        w.event_data.len() == 0,
        s.task(w.task_id) == Some(task),
    ensures
        ({
            let step = video_native::worker_step(w, s, WorkerEventView::StreamEnd, parsed, now_ms);
            &&& task.status == "completed"@ ==> step.state == s && (match task.resource_uri {
                Some(uri) => step.action == WorkerActionView::Resolve(uri),
                None => match task.video_url {
                    Some(url) => step.action == WorkerActionView::Download(url),
                    None => step.action is Stop,
                },
            })
            &&& task.status == "processing"@ ==> step.action is Stop && step.note
                == NoteView::Failed(w.uid, ErrKind::Server) && (step.state.task(
                w.task_id,
            ) matches Some(t) && t.status == "unknown"@)
            &&& task.status == "failed"@ ==> step.action is Stop && step.state == s
        }),
{
    law_a_task_ends_in_four_ways();
    lemma_statuses_are_apart();
    law_a_change_does_what_it_says(
        s,
        w.task_id,
        ChangeView::Unknown("Seedance SSE 在 done 事件前结束，等待上游核查"@),
        (now_ms / 1000) as u64,
        task,
    );
}

/// The end of an event, however it comes, takes the event in: an upstream that
/// says it is done leads to the fetching of the video, and an error of the
/// upstream is noted with the account and stops the worker.
pub proof fn law_an_ended_event_is_taken_in(
    w: WorkerView,
    s: StateView,
    blank: Seq<char>,
    parsed: Result<JsonView, Seq<char>>,
    now_ms: u64,
    task: TaskView,
)
    requires
        w.phase == Phase::Reading,
        w.event_data.len() > 0,
        text::trim(blank).len() == 0,
        s.task(w.task_id) == Some(task),
    ensures
        ({
            let step = video_native::worker_step(w, s, WorkerEventView::Line(blank), parsed, now_ms);
            let last = video_native::worker_step(w, s, WorkerEventView::StreamEnd, parsed, now_ms);
            let applied = video_events::event_applied(
                s,
                w.event_name,
                w.event_data,
                parsed,
                w.task_id,
                now_ms,
            );
            &&& step.worker.event_name.len() == 0 && step.worker.event_data.len() == 0
            &&& w.event_name == "error"@ ==> step.note == NoteView::FailedWith(
                w.uid,
                w.event_data,
            ) && step.action is Stop && step.state == applied.0
            &&& (w.event_name == "result"@ || w.event_name == "output"@) && parsed is Ok
                ==> step.action is Read && step.state == applied.0 && step.note is Nothing
            &&& (w.event_name == "result"@ || w.event_name == "output"@) && parsed is Err
                && !video::is_terminal(task.status) ==> step.action is Stop && (step.state.task(
                w.task_id,
            ) matches Some(t) && t.status == "unknown"@)
            &&& w.event_name == "done"@ && (task.resource_uri matches Some(uri)) && !(parsed is Ok)
                ==> step.action == WorkerActionView::Resolve(task.resource_uri->0) && last.action
                == step.action
        }),
{
    lemma_events_are_apart();
    lemma_statuses_are_apart();
    law_a_task_ends_in_four_ways();
    lemma_statuses_are_apart();
    let now = (now_ms / 1000) as u64;
    law_events_move_a_task(s, w.event_name, w.event_data, parsed, w.task_id, now_ms, task);
    if w.event_name == "done"@ && !(parsed is Ok) {
        law_a_change_does_what_it_says(s, w.task_id, ChangeView::Status("completed"@), now, task);
    }
    let applied = video_events::event_applied(
        s,
        w.event_name,
        w.event_data,
        parsed,
        w.task_id,
        now_ms,
    );
    if applied.1 is Err {
        law_a_change_does_what_it_says(
            s,
            w.task_id,
            ChangeView::Unknown(applied.1->Err_0),
            now,
            task,
        );
    }
}

/// A task is started once, with one account and the permit of its key.
pub proof fn law_a_task_is_started_with_its_permit(
    s: StateView,
    task_id: Seq<char>,
    uid: Seq<char>,
    permit: Seq<char>,
    now: u64,
)
    ensures
        ({
            let step = video_native::worker_started(s, task_id, uid, permit, now);
            &&& !s.holds_permit(task_id) ==> {
                &&& step.action is Prepare && step.worker.phase == Phase::Preparing
                &&& step.worker.task_id == task_id && step.worker.uid == uid
                &&& table::find(step.state.permits, task_id) == Some(permit)
                &&& step.state.tasks == s.tasks
            }
            &&& s.holds_permit(task_id) ==> step.action is Stop
        }),
{
    table::lemma_find_put(s.permits, task_id, permit);
}

/// The address of a resource is the secure one that the upstream gives for that
/// very resource.
pub proof fn law_a_resource_has_its_own_address(value: JsonView, uri: Seq<char>)
    ensures
        video_native::resolved_address(value, uri) matches Some(url) ==> (
        value.get("url_map"@) matches Some(map) && map.text_at(uri) == Some(url)
            && text::starts_with(url, "https://"@)),
        value.get("url_map"@) matches Some(map) ==> (map.text_at(uri) matches Some(url) ==> (
        text::starts_with(url, "https://"@) ==> video_native::resolved_address(value, uri) == Some(
            url,
        ))),
{
}

/// The permits of tasks are given back: none of them is held any longer, and all
/// others are.
pub proof fn law_the_permits_of_tasks_are_given_back(
    permits: Seq<(Seq<char>, Seq<char>)>,
    tasks: Seq<(Seq<char>, TaskView)>,
    n: nat,
    id: Seq<char>,
)
    requires
        table::unique(permits),
        n <= tasks.len(),
    ensures
        ({
            let left = video::release_all(permits, tasks, n);
            &&& table::unique(left)
            &&& (exists|i: int| 0 <= i < n && (#[trigger] tasks[i]).0 == id) ==> table::find(
                left,
                id,
            ) is None
            &&& (forall|i: int| 0 <= i < n ==> (#[trigger] tasks[i]).0 != id) ==> table::find(
                left,
                id,
            ) == table::find(permits, id)
        }),
    decreases n,
{
    if n > 0 {
        law_the_permits_of_tasks_are_given_back(permits, tasks, (n - 1) as nat, id);
        let before = video::release_all(permits, tasks, (n - 1) as nat);
        table::lemma_find_without(before, tasks[n - 1].0);
    }
}

/// A task whose worker is gone is unknown from then on, unless it had ended; no
/// other task is touched.
pub proof fn law_a_task_without_a_worker_is_unknown(
    s: StateView,
    task_id: Seq<char>,
    other: Seq<char>,
    now: u64,
)
    ensures
        ({
            let after = video::worker_gone_spec(s, task_id, now);
            &&& s.task(task_id) matches Some(task) ==> {
                let over = task.status == "completed"@ || task.status == "failed"@ || task.status
                    == "canceled"@ || task.status == "timeout"@ || task.status == "unknown"@;
                &&& over ==> after == s
                &&& !over ==> (after.task(task_id) matches Some(t) && t.status == "unknown"@
                    && t.error is Some && t.updated_at == now && same_task(task, t))
            }
            &&& s.task(task_id) is None ==> after == s
            &&& other != task_id ==> after.task(other) == s.task(other)
        }),
{
    if let Some(task) = s.task(task_id) {
        let change = ChangeView::Unknown("视频 worker 异常退出，等待恢复/核查"@);
        law_a_change_does_what_it_says(s, task_id, change, now, task);
        let t = TaskView { updated_at: now, ..video::changed(task, change) };
        table::lemma_find_put(s.tasks, task_id, t);
    }
}

} // verus!
