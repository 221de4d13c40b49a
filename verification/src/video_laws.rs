//! What holds of the video tasks whatever is done to them.

use crate::table;
use crate::task_table;
use crate::text;
use crate::video::{
    ChangeView, CreateView, LoadView, StateView, TaskView, MAX_IN_MEMORY_TASKS, MAX_REPLAY_KEYS,
};
use vstd::prelude::*;

verus! {

/// A task that a change ends holds no job permit afterwards, and no other
/// task's permit is touched.
pub proof fn law_ended_task_holds_no_permit(
    s: StateView,
    task_id: Seq<char>,
    change: ChangeView,
    now: u64,
)
    requires
        s.valid(),
        s.task(task_id) is Some,
        crate::video::is_terminal(crate::video::changed(s.task(task_id)->0, change).status),
    ensures
        !crate::video::update_spec(s, task_id, change, now).holds_permit(task_id),
        forall|other: Seq<char>|
            other != task_id ==> #[trigger] crate::video::update_spec(
                s,
                task_id,
                change,
                now,
            ).holds_permit(other) == s.holds_permit(other),
{
    table::lemma_find_without(s.permits, task_id);
}

/// A change to one task leaves every other task as it was.
pub proof fn law_update_touches_one_task(
    s: StateView,
    task_id: Seq<char>,
    change: ChangeView,
    now: u64,
    other: Seq<char>,
)
    requires
        other != task_id,
    ensures
        crate::video::update_spec(s, task_id, change, now).task(other) == s.task(other),
{
    if s.task(task_id) is Some {
        let after = TaskView {
            updated_at: now,
            ..crate::video::changed(s.task(task_id)->0, change)
        };
        table::lemma_find_put(s.tasks, task_id, after);
    }
}

/// A task that has ended is never reopened by a worker that lost track of it.
pub proof fn law_unknown_never_reopens(task: TaskView, reason: Seq<char>)
    requires
        crate::video::is_terminal(task.status),
    ensures
        crate::video::changed(task, ChangeView::Unknown(reason)) == task,
{
}

/// The second request with a replay key gets the task of the first, and
/// changes nothing.
pub proof fn law_replay_returns_the_same_task(
    s: StateView,
    model: Seq<char>,
    prompt: Seq<char>,
    owner: Seq<char>,
    key: Seq<char>,
    now_ms: u64,
    again_model: Seq<char>,
    again_prompt: Seq<char>,
    again_owner: Seq<char>,
    again_ms: u64,
)
    requires
        text::trim(key).len() > 0,
    ensures
        ({
            let (s1, first) = crate::video::create_or_replay(
                s,
                model,
                prompt,
                owner,
                Some(key),
                now_ms,
            );
            let (s2, second) = crate::video::create_or_replay(
                s1,
                again_model,
                again_prompt,
                again_owner,
                Some(key),
                again_ms,
            );
            &&& s2 == s1
            &&& second matches CreateView::Existing(task) && task.id == (match first {
                CreateView::Existing(t) => t.id,
                CreateView::Created(t) => t.id,
            })
        }),
{
    let k = text::trim(key);
    text::lemma_trim_twice(key);
    if crate::video::replayed(s, k) is None {
        let cleared = StateView { idempotency: table::without(s.idempotency, k), ..s };
        let (after, task) = crate::video::create_spec(cleared, model, prompt, owner, now_ms);
        let room = crate::video::make_room(cleared.tasks, (now_ms / 1000) as u64);
        table::lemma_find_put(room, task.id, task);
        let bound = TaskView { request_key: Some(k), ..task };
        table::lemma_find_put(after.tasks, task.id, bound);
        let keys = after.idempotency;
        let held = if keys.len() >= MAX_REPLAY_KEYS {
            keys.subrange(keys.len() - (MAX_REPLAY_KEYS - 1), keys.len() as int)
        } else {
            keys
        };
        table::lemma_find_put(held, k, task.id);
    }
}

/// A task that was made for a key is shown to another key only where both
/// stand for the same owner.
pub proof fn law_task_is_shown_to_its_owner_alone(
    s: StateView,
    model: Seq<char>,
    prompt: Seq<char>,
    owner: Seq<char>,
    now_ms: u64,
    reader: Seq<char>,
)
    ensures
        (crate::video::create_spec(s, model, prompt, owner, now_ms).1.owner_key_id
            == crate::video::owner_of(reader)) == (crate::video::owner_of(owner)
            == crate::video::owner_of(reader)),
{
}

/// No more replay keys are held than the limit.
pub proof fn law_replay_keys_are_bounded(
    keys: Seq<(Seq<char>, Seq<char>)>,
    key: Seq<char>,
    task_id: Seq<char>,
)
    requires
        text::trim(key).len() > 0,
    ensures
        crate::video::remember_spec(keys, key, task_id).len() <= MAX_REPLAY_KEYS,
{
    let held = if keys.len() >= MAX_REPLAY_KEYS {
        keys.subrange(keys.len() - (MAX_REPLAY_KEYS - 1), keys.len() as int)
    } else {
        keys
    };
    lemma_put_len(held, text::trim(key), task_id);
}

proof fn lemma_put_len<T>(entries: Seq<(Seq<char>, T)>, key: Seq<char>, value: T)
    ensures
        table::put(entries, key, value).len() <= entries.len() + 1,
    decreases entries.len(),
{
    if entries.len() > 0 && entries[0].0 != key {
        lemma_put_len(entries.subrange(1, entries.len() as int), key, value);
    }
}

/// The texts that two owners' replay keys are digests of differ, where no
/// owner's name holds a colon.
pub proof fn law_replay_scopes_are_apart(
    scope: Seq<char>,
    other: Seq<char>,
    key: Seq<char>,
    other_key: Seq<char>,
)
    requires
        crate::video::owner_of(scope) != crate::video::owner_of(other),
        !crate::video::owner_of(scope).contains(':'),
        !crate::video::owner_of(other).contains(':'),
    ensures
        crate::video::scope_text(scope, key) != crate::video::scope_text(other, other_key),
{
    let a = crate::video::owner_of(scope);
    let b = crate::video::owner_of(other);
    let x = crate::video::scope_text(scope, key);
    let y = crate::video::scope_text(other, other_key);
    reveal_strlit(":");
    if x == y {
        assert(x[a.len() as int] == ':');
        assert(y[b.len() as int] == ':');
        if a.len() < b.len() {
            assert(y[a.len() as int] == b[a.len() as int]);
            assert(b.contains(':'));
        } else if b.len() < a.len() {
            assert(x[b.len() as int] == a[b.len() as int]);
            assert(a.contains(':'));
        } else {
            assert forall|i: int| 0 <= i < a.len() implies a[i] == b[i] by {
                assert(x[i] == a[i]);
                assert(y[i] == b[i]);
            }
            assert(a =~= b);
        }
    }
}

/// Two owners that use one and the same key have texts that differ, whatever
/// their names hold.
pub proof fn law_one_key_of_two_owners_is_apart(
    scope: Seq<char>,
    other: Seq<char>,
    key: Seq<char>,
)
    requires
        crate::video::owner_of(scope) != crate::video::owner_of(other),
    ensures
        crate::video::scope_text(scope, key) != crate::video::scope_text(other, key),
{
    let a = crate::video::owner_of(scope);
    let b = crate::video::owner_of(other);
    let x = crate::video::scope_text(scope, key);
    let y = crate::video::scope_text(other, key);
    if x == y {
        assert(x.len() == a.len() + ":"@.len() + text::trim(key).len());
        assert(y.len() == b.len() + ":"@.len() + text::trim(key).len());
        assert forall|i: int| 0 <= i < a.len() implies a[i] == b[i] by {
            assert(x[i] == a[i]);
            assert(y[i] == b[i]);
        }
        assert(a =~= b);
    }
}

/// No two records are of one task.
pub open spec fn one_record_each(records: Seq<(Seq<char>, Seq<char>, Seq<char>)>) -> bool {
    forall|i: int, j: int|
        0 <= i < j < records.len() ==> (#[trigger] records[i]).0 != (#[trigger] records[j]).0
}

proof fn lemma_restore(
    permits: Seq<(Seq<char>, Seq<char>)>,
    records: Seq<(Seq<char>, Seq<char>, Seq<char>)>,
    n: nat,
)
    requires
        table::unique(permits),
        one_record_each(records),
        n <= records.len(),
    ensures
        ({
            let after = crate::video::restore_all(permits, records, n);
            &&& table::unique(after)
            &&& forall|i: int|
                0 <= i < n ==> (table::find(after, (#[trigger] records[i]).0) is Some
                    == !crate::video::is_terminal(records[i].1))
            &&& forall|id: Seq<char>|
                (forall|i: int| 0 <= i < n ==> (#[trigger] records[i]).0 != id)
                    ==> #[trigger] table::find(after, id) == table::find(permits, id)
        }),
    decreases n,
{
    if n > 0 {
        let m = (n - 1) as nat;
        lemma_restore(permits, records, m);
        let before = crate::video::restore_all(permits, records, m);
        let record = records[n - 1];
        let after = crate::video::restore_all(permits, records, n);
        table::lemma_find_without(before, record.0);
        table::lemma_find_put(before, record.0, crate::video::owner_of(record.2));
        table::lemma_put_unique(before, record.0, crate::video::owner_of(record.2));
        assert forall|i: int| 0 <= i < n implies (table::find(after, (#[trigger] records[i]).0)
            is Some == !crate::video::is_terminal(records[i].1)) by {
            if i < m {
                assert(records[i].0 != records[n - 1].0);
            }
        }
        assert forall|id: Seq<char>|
            (forall|i: int| 0 <= i < n ==> (#[trigger] records[i]).0 != id)
            implies #[trigger] table::find(after, id) == table::find(permits, id) by {
            assert(records[n - 1].0 != id);
            assert(forall|i: int| 0 <= i < m ==> (#[trigger] records[i]).0 != id);
        }
    }
}

/// Once permits are restored, exactly the tasks that have not ended hold one;
/// the permits of tasks without a record stay.
pub proof fn law_restored_tasks_hold_permits_until_they_end(
    permits: Seq<(Seq<char>, Seq<char>)>,
    records: Seq<(Seq<char>, Seq<char>, Seq<char>)>,
)
    requires
        table::unique(permits),
        one_record_each(records),
    ensures
        forall|i: int|
            0 <= i < records.len() ==> (table::find(
                crate::video::restore_all(permits, records, records.len()),
                (#[trigger] records[i]).0,
            ) is Some == !crate::video::is_terminal(records[i].1)),
{
    lemma_restore(permits, records, records.len());
}

proof fn lemma_without_absent<T>(entries: Seq<(Seq<char>, T)>, key: Seq<char>)
    requires
        table::find(entries, key) is None,
    ensures
        table::without(entries, key) == entries,
    decreases entries.len(),
{
    if entries.len() > 0 {
        let rest = entries.subrange(1, entries.len() as int);
        lemma_without_absent(rest, key);
        assert(seq![entries[0]] + rest =~= entries);
    }
}

/// Restoring the same tasks again gives out no permit and takes none back.
pub proof fn law_restoring_again_changes_nothing(
    permits: Seq<(Seq<char>, Seq<char>)>,
    records: Seq<(Seq<char>, Seq<char>, Seq<char>)>,
)
    requires
        table::unique(permits),
        one_record_each(records),
    ensures
        ({
            let once = crate::video::restore_all(permits, records, records.len());
            &&& crate::video::restore_all(once, records, records.len()) == once
            &&& crate::video::restore_count(once, records, records.len()) == 0
        }),
{
    lemma_restore(permits, records, records.len());
    let once = crate::video::restore_all(permits, records, records.len());
    lemma_settled(once, records, records.len());
}

proof fn lemma_settled(
    permits: Seq<(Seq<char>, Seq<char>)>,
    records: Seq<(Seq<char>, Seq<char>, Seq<char>)>,
    n: nat,
)
    requires
        n <= records.len(),
        forall|i: int|
            0 <= i < records.len() ==> (table::find(permits, (#[trigger] records[i]).0) is Some
                == !crate::video::is_terminal(records[i].1)),
    ensures
        crate::video::restore_all(permits, records, n) == permits,
        crate::video::restore_count(permits, records, n) == 0,
    decreases n,
{
    if n > 0 {
        lemma_settled(permits, records, (n - 1) as nat);
        let record = records[n - 1];
        if crate::video::is_terminal(record.1) {
            lemma_without_absent(permits, record.0);
        }
    }
}

/// Restoring the permits of a gateway leaves exactly the tasks that have not
/// ended with one, and restoring them again gives out none and changes none.
pub proof fn law_restoring_permits_settles_them(s: StateView)
    requires
        s.valid(),
    ensures
        crate::video::restore_settled(
            StateView {
                permits: crate::video::restore_all(
                    s.permits,
                    crate::video::records_of(s.tasks),
                    s.tasks.len(),
                ),
                ..s
            },
        ),
{
    let records = crate::video::records_of(s.tasks);
    assert forall|i: int, j: int| 0 <= i < j < records.len() implies (#[trigger] records[i]).0 != (
    #[trigger] records[j]).0 by {
        assert(s.tasks[i].0 != s.tasks[j].0);
    }
    law_restored_tasks_hold_permits_until_they_end(s.permits, records);
    law_restoring_again_changes_nothing(s.permits, records);
    let after = crate::video::restore_all(s.permits, records, records.len());
    assert forall|i: int| 0 <= i < s.tasks.len() implies table::find(
        after,
        (#[trigger] s.tasks[i]).0,
    ) is Some == !crate::video::is_terminal(s.tasks[i].1.status) by {
        assert(records[i].0 == s.tasks[i].0);
    }
}

/// A change keeps every task under its own id.
pub proof fn law_update_keeps_ids(s: StateView, task_id: Seq<char>, change: ChangeView, now: u64)
    requires
        task_table::keyed_by_id(s.tasks),
    ensures
        task_table::keyed_by_id(crate::video::update_spec(s, task_id, change, now).tasks),
{
    task_table::lemma_find_keyed(s.tasks, task_id);
    if s.task(task_id) is Some {
        let after = TaskView {
            updated_at: now,
            ..crate::video::changed(s.task(task_id)->0, change)
        };
        task_table::lemma_put_keyed(s.tasks, after);
    }
}

/// Binding a replay key keeps every task under its own id.
pub proof fn law_bind_keeps_ids(s: StateView, key: Seq<char>, task_id: Seq<char>)
    requires
        task_table::keyed_by_id(s.tasks),
    ensures
        task_table::keyed_by_id(crate::video::bind_spec(s, key, task_id).tasks),
{
    task_table::lemma_find_keyed(s.tasks, task_id);
    if s.task(task_id) is Some {
        let after = TaskView { request_key: Some(text::trim(key)), ..s.task(task_id)->0 };
        task_table::lemma_put_keyed(s.tasks, after);
    }
}

proof fn lemma_prune_keyed(tasks: Seq<(Seq<char>, TaskView)>, cutoff: int)
    requires
        task_table::keyed_by_id(tasks),
    ensures
        task_table::keyed_by_id(crate::video::prune(tasks, cutoff)),
    decreases tasks.len(),
{
    if tasks.len() > 0 {
        let rest = tasks.subrange(1, tasks.len() as int);
        assert forall|i: int| 0 <= i < rest.len() implies (#[trigger] rest[i]).0 == rest[i].1.id by {
            assert(tasks[i + 1].0 == tasks[i + 1].1.id);
        }
        lemma_prune_keyed(rest, cutoff);
        let tail = crate::video::prune(rest, cutoff);
        let after = crate::video::prune(tasks, cutoff);
        if !crate::video::is_stale(tasks[0].1, cutoff) {
            assert forall|i: int| 0 <= i < after.len() implies (#[trigger] after[i]).0
                == after[i].1.id by {
                if i > 0 {
                    assert(after[i] == tail[i - 1]);
                } else {
                    assert(after[0] == tasks[0]);
                }
            }
        }
    }
}

proof fn lemma_evict_keyed(tasks: Seq<(Seq<char>, TaskView)>, n: nat)
    requires
        task_table::keyed_by_id(tasks),
    ensures
        task_table::keyed_by_id(crate::video::evict(tasks, n)),
    decreases n,
{
    let oldest = crate::video::oldest_ended(tasks, tasks.len());
    lemma_oldest_has_ended(tasks, tasks.len());
    if n > 0 && oldest >= 0 {
        lemma_evict_keyed(tasks.remove(oldest), (n - 1) as nat);
    }
}

/// A new task leaves every task under its own id.
pub proof fn law_create_keeps_ids(
    s: StateView,
    model: Seq<char>,
    prompt: Seq<char>,
    owner_key_id: Seq<char>,
    now_ms: u64,
)
    requires
        task_table::keyed_by_id(s.tasks),
    ensures
        task_table::keyed_by_id(
            crate::video::create_spec(s, model, prompt, owner_key_id, now_ms).0.tasks,
        ),
{
    let now = (now_ms / 1000) as u64;
    let cutoff = if now >= crate::video::TERMINAL_TASK_RETENTION_SECS {
        now - crate::video::TERMINAL_TASK_RETENTION_SECS
    } else {
        0
    };
    let kept = crate::video::prune(s.tasks, cutoff);
    lemma_prune_keyed(s.tasks, cutoff);
    if kept.len() >= MAX_IN_MEMORY_TASKS {
        lemma_evict_keyed(kept, (kept.len() - (MAX_IN_MEMORY_TASKS - 1)) as nat);
    }
    let task = crate::video::create_spec(s, model, prompt, owner_key_id, now_ms).1;
    task_table::lemma_put_keyed(crate::video::make_room(s.tasks, now), task);
}

/// Loading a stored index puts every task under its own id, and no id and no
/// replay key stands twice.
pub proof fn law_load_keeps_ids(s: LoadView, list: Seq<TaskView>, n: nat, now: u64)
    requires
        n <= list.len(),
        task_table::keyed_by_id(s.tasks),
        table::unique(s.tasks),
        table::unique(s.idempotency),
        table::unique(s.permits),
    ensures
        ({
            let after = crate::video::load_all(s, list, n, now);
            &&& task_table::keyed_by_id(after.tasks)
            &&& table::unique(after.tasks)
            &&& table::unique(after.idempotency)
            &&& table::unique(after.permits)
        }),
    decreases n,
{
    if n > 0 {
        law_load_keeps_ids(s, list, (n - 1) as nat, now);
        let before = crate::video::load_all(s, list, (n - 1) as nat, now);
        let task = list[n - 1];
        task_table::lemma_put_keyed(before.tasks, task);
        table::lemma_put_unique(before.tasks, task.id, task);
        table::lemma_find_without(before.permits, task.id);
        if task.request_key is Some {
            table::lemma_put_unique(before.idempotency, task.request_key->0, task.id);
        }
    }
}

/// The task stands in the table.
pub open spec fn holds(tasks: Seq<(Seq<char>, TaskView)>, entry: (Seq<char>, TaskView)) -> bool {
    exists|i: int| 0 <= i < tasks.len() && #[trigger] tasks[i] == entry
}

proof fn lemma_prune_keeps(
    tasks: Seq<(Seq<char>, TaskView)>,
    cutoff: int,
    entry: (Seq<char>, TaskView),
)
    requires
        holds(tasks, entry),
        !crate::video::is_stale(entry.1, cutoff),
    ensures
        holds(crate::video::prune(tasks, cutoff), entry),
    decreases tasks.len(),
{
    let rest = tasks.subrange(1, tasks.len() as int);
    let tail = crate::video::prune(rest, cutoff);
    let after = crate::video::prune(tasks, cutoff);
    let i = choose|i: int| 0 <= i < tasks.len() && #[trigger] tasks[i] == entry;
    if i == 0 {
        assert(after[0] == entry);
    } else {
        assert(rest[i - 1] == entry);
        lemma_prune_keeps(rest, cutoff, entry);
        let k = choose|k: int| 0 <= k < tail.len() && #[trigger] tail[k] == entry;
        if crate::video::is_stale(tasks[0].1, cutoff) {
            assert(after[k] == entry);
        } else {
            assert(after[k + 1] == entry);
        }
    }
}

proof fn lemma_oldest_has_ended(tasks: Seq<(Seq<char>, TaskView)>, n: nat)
    requires
        n <= tasks.len(),
    ensures
        -1 <= crate::video::oldest_ended(tasks, n) < n,
        crate::video::oldest_ended(tasks, n) >= 0 ==> crate::video::is_terminal(
            tasks[crate::video::oldest_ended(tasks, n)].1.status,
        ),
    decreases n,
{
    if n > 0 {
        lemma_oldest_has_ended(tasks, (n - 1) as nat);
    }
}

proof fn lemma_evict_keeps(
    tasks: Seq<(Seq<char>, TaskView)>,
    n: nat,
    entry: (Seq<char>, TaskView),
)
    requires
        holds(tasks, entry),
        !crate::video::is_terminal(entry.1.status),
    ensures
        holds(crate::video::evict(tasks, n), entry),
    decreases n,
{
    let oldest = crate::video::oldest_ended(tasks, tasks.len());
    lemma_oldest_has_ended(tasks, tasks.len());
    if n > 0 && oldest >= 0 {
        let i = choose|i: int| 0 <= i < tasks.len() && #[trigger] tasks[i] == entry;
        let less = tasks.remove(oldest);
        if i < oldest {
            assert(less[i] == entry);
        } else {
            assert(less[i - 1] == entry);
        }
        lemma_evict_keeps(less, (n - 1) as nat, entry);
    }
}

/// A task that has not ended never makes room for another.
pub proof fn law_running_tasks_stay(
    tasks: Seq<(Seq<char>, TaskView)>,
    now: u64,
    entry: (Seq<char>, TaskView),
)
    requires
        holds(tasks, entry),
        !crate::video::is_terminal(entry.1.status),
    ensures
        holds(crate::video::make_room(tasks, now), entry),
{
    let cutoff = if now >= crate::video::TERMINAL_TASK_RETENTION_SECS {
        now - crate::video::TERMINAL_TASK_RETENTION_SECS
    } else {
        0
    };
    let kept = crate::video::prune(tasks, cutoff);
    lemma_prune_keeps(tasks, cutoff, entry);
    if kept.len() >= MAX_IN_MEMORY_TASKS {
        lemma_evict_keeps(kept, (kept.len() - (MAX_IN_MEMORY_TASKS - 1)) as nat, entry);
    }
}

} // verus!
