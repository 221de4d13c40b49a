//! The video tasks of a gateway, each under its own id.

use crate::table::{self, Table};
use crate::video::{TaskView, VideoTask};
use vstd::prelude::*;

verus! {

/// Every task stands under its own id.
pub open spec fn keyed_by_id(tasks: Seq<(Seq<char>, TaskView)>) -> bool {
    forall|i: int| 0 <= i < tasks.len() ==> (#[trigger] tasks[i]).0 == tasks[i].1.id
}

/// A task that is put under its own id leaves every task under its own id.
pub proof fn lemma_put_keyed(tasks: Seq<(Seq<char>, TaskView)>, task: TaskView)
    requires
        keyed_by_id(tasks),
    ensures
        keyed_by_id(table::put(tasks, task.id, task)),
    decreases tasks.len(),
{
    let after = table::put(tasks, task.id, task);
    if tasks.len() > 0 {
        let rest = tasks.subrange(1, tasks.len() as int);
        assert forall|i: int| 0 <= i < rest.len() implies (#[trigger] rest[i]).0 == rest[i].1.id by {
            assert(tasks[i + 1].0 == tasks[i + 1].1.id);
        }
        lemma_put_keyed(rest, task);
        let tail = if tasks[0].0 == task.id {
            rest
        } else {
            table::put(rest, task.id, task)
        };
        assert forall|i: int| 0 <= i < after.len() implies (#[trigger] after[i]).0
            == after[i].1.id by {
            if i > 0 {
                assert(after[i] == tail[i - 1]);
            } else if tasks[0].0 != task.id {
                assert(after[0] == tasks[0]);
            }
        }
    }
}

/// A task that is found under an id has that id.
pub proof fn lemma_find_keyed(tasks: Seq<(Seq<char>, TaskView)>, id: Seq<char>)
    requires
        keyed_by_id(tasks),
    ensures
        table::find(tasks, id) matches Some(task) ==> task.id == id,
    decreases tasks.len(),
{
    if tasks.len() > 0 && tasks[0].0 != id {
        let rest = tasks.subrange(1, tasks.len() as int);
        assert forall|i: int| 0 <= i < rest.len() implies (#[trigger] rest[i]).0 == rest[i].1.id by {
            assert(tasks[i + 1].0 == tasks[i + 1].1.id);
        }
        lemma_find_keyed(rest, id);
    }
}

/// The tasks of a gateway, each under its own id.
#[derive(Debug)]
pub struct TaskTable {
    entries: Table<VideoTask>,
}

impl View for TaskTable {
    type V = Seq<(Seq<char>, TaskView)>;

    closed spec fn view(&self) -> Seq<(Seq<char>, TaskView)> {
        self.entries@
    }
}

impl TaskTable {
    #[verifier::type_invariant]
    spec fn own_ids(self) -> bool {
        keyed_by_id(self.entries@)
    }

    /// No tasks.
    pub fn new() -> (r: TaskTable)
        ensures
            r@ == Seq::<(Seq<char>, TaskView)>::empty(),
    {
        TaskTable { entries: Table::new() }
    }

    /// The number of tasks.
    pub fn len(&self) -> (r: usize)
        ensures
            r == self@.len(),
            table::unique(self@),
            keyed_by_id(self@),
    {
        proof {
            use_type_invariant(self);
        }
        self.entries.len()
    }

    /// The task at a position.
    pub fn task_at(&self, i: usize) -> (r: &VideoTask)
        requires
            i < self@.len(),
        ensures
            r@ == self@[i as int].1,
            r@.id == self@[i as int].0,
    {
        proof {
            use_type_invariant(self);
        }
        self.entries.value_at(i)
    }

    /// The task of that id.
    pub fn get(&self, id: &str) -> (r: Option<&VideoTask>)
        ensures
            match r {
                Some(task) => table::find(self@, id@) == Some(task@) && task@.id == id@,
                None => table::find(self@, id@) is None,
            },
    {
        proof {
            use_type_invariant(self);
            lemma_find_keyed(self.entries@, id@);
        }
        self.entries.get(id)
    }

    /// Puts a task under its id.
    pub fn put(&mut self, task: VideoTask)
        ensures
            final(self)@ == table::put(old(self)@, task@.id, task@),
    {
        proof {
            use_type_invariant(&*self);
            lemma_put_keyed(self.entries@, task@);
        }
        let mut entries: Table<VideoTask> = Table::new();
        std::mem::swap(&mut entries, &mut self.entries);
        let id = task.id.clone();
        entries.insert(id.as_str(), task);
        self.entries = entries;
    }

    /// Takes the task at a position out.
    pub fn remove_at(&mut self, i: usize)
        requires
            i < old(self)@.len(),
        ensures
            final(self)@ == old(self)@.remove(i as int),
    {
        proof {
            use_type_invariant(&*self);
        }
        let mut entries: Table<VideoTask> = Table::new();
        std::mem::swap(&mut entries, &mut self.entries);
        entries.remove_at(i);
        self.entries = entries;
    }
}

} // verus!
