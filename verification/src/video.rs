//! The video tasks of the gateway: their states, who may see them, the keys
//! under which a request is replayed, and the job permits they hold.

use crate::json::{JsonNumber, NumberView};
use crate::outside;
use crate::table::{self, Table};
use crate::task_table::{self, TaskTable};
use crate::text;
use vstd::prelude::*;

verus! {

/// The number of tasks that are held at once.
pub const MAX_IN_MEMORY_TASKS: usize = 2048;

/// How long a task is held after it ended.
pub const TERMINAL_TASK_RETENTION_SECS: u64 = 86400;

/// The number of replay keys that are held at once.
pub const MAX_REPLAY_KEYS: usize = 1024;

/// What is known of the charge for a task.
#[derive(Clone, Copy, Debug, PartialEq, Eq, Structural)]
pub enum BillingStatus {
    Absent,
    Unverified,
    Verified,
}

impl Default for BillingStatus {
    fn default() -> (r: BillingStatus)
        ensures
            r == BillingStatus::Absent,
    {
        BillingStatus::Absent
    }
}

/// The charge for a task, as far as the upstream has stated it.
#[derive(Debug, PartialEq, Eq)]
pub struct VideoBillingReceipt {
    pub status: BillingStatus,
    pub actual_credits: Option<String>,
    pub unit: Option<String>,
    pub source: Option<String>,
    pub task_ref: Option<String>,
    pub observed_at_ms: u64,
}

/// The model of a [`VideoBillingReceipt`].
pub struct ReceiptView {
    pub status: BillingStatus,
    pub actual_credits: Option<Seq<char>>,
    pub unit: Option<Seq<char>>,
    pub source: Option<Seq<char>>,
    pub task_ref: Option<Seq<char>>,
    pub observed_at_ms: u64,
}

impl Clone for VideoBillingReceipt {
    fn clone(&self) -> (r: VideoBillingReceipt)
        ensures
            r == *self,
    {
        VideoBillingReceipt {
            status: self.status,
            actual_credits: text::dup_opt(&self.actual_credits),
            unit: text::dup_opt(&self.unit),
            source: text::dup_opt(&self.source),
            task_ref: text::dup_opt(&self.task_ref),
            observed_at_ms: self.observed_at_ms,
        }
    }
}

impl View for VideoBillingReceipt {
    type V = ReceiptView;

    open spec fn view(&self) -> ReceiptView {
        ReceiptView {
            status: self.status,
            actual_credits: text::opt_view(self.actual_credits),
            unit: text::opt_view(self.unit),
            source: text::opt_view(self.source),
            task_ref: text::opt_view(self.task_ref),
            observed_at_ms: self.observed_at_ms,
        }
    }
}

/// The receipt of a task of whose charge nothing is known.
pub open spec fn absent_receipt() -> ReceiptView {
    ReceiptView {
        status: BillingStatus::Absent,
        actual_credits: None,
        unit: None,
        source: None,
        task_ref: None,
        observed_at_ms: 0,
    }
}

/// The receipt of a task whose charge the upstream has hinted at.
pub open spec fn unverified_receipt(observed_at_ms: u64) -> ReceiptView {
    ReceiptView {
        status: BillingStatus::Unverified,
        actual_credits: None,
        unit: None,
        source: Some("upstream_candidate"@),
        task_ref: None,
        observed_at_ms,
    }
}

impl Default for VideoBillingReceipt {
    fn default() -> (r: VideoBillingReceipt)
        ensures
            r@ == absent_receipt(),
    {
        VideoBillingReceipt {
            status: BillingStatus::Absent,
            actual_credits: None,
            unit: None,
            source: None,
            task_ref: None,
            observed_at_ms: 0,
        }
    }
}

impl VideoBillingReceipt {
    /// The receipt of a task whose charge the upstream has hinted at.
    pub fn unverified(observed_at_ms: u64) -> (r: VideoBillingReceipt)
        ensures
            r@ == unverified_receipt(observed_at_ms),
    {
        VideoBillingReceipt {
            status: BillingStatus::Unverified,
            actual_credits: None,
            unit: None,
            source: Some("upstream_candidate".to_owned()),
            task_ref: None,
            observed_at_ms,
        }
    }

}

/// A video task.
#[derive(Debug, PartialEq, Eq)]
pub struct VideoTask {
    pub id: String,
    pub object: String,
    pub model: String,
    pub status: String,
    pub prompt: String,
    pub created_at: u64,
    pub updated_at: u64,
    pub error: Option<String>,
    pub transport: String,
    pub video_url: Option<String>,
    pub resource_uri: Option<String>,
    pub video_duration: Option<JsonNumber>,
    pub content_url: Option<String>,
    pub artifact_error: Option<String>,
    pub billing: VideoBillingReceipt,
    /// The replay key, hashed; never the key as the client wrote it.
    pub request_key: Option<String>,
    /// The API key that owns the task.
    pub owner_key_id: String,
}

/// The form in which a task is stored.
#[derive(Debug, PartialEq, Eq)]
pub struct PersistedVideoTask {
    pub id: String,
    pub object: String,
    pub model: String,
    pub status: String,
    pub prompt: String,
    pub created_at: u64,
    pub updated_at: u64,
    pub error: Option<String>,
    pub transport: String,
    pub video_url: Option<String>,
    pub resource_uri: Option<String>,
    pub video_duration: Option<JsonNumber>,
    pub content_url: Option<String>,
    pub artifact_error: Option<String>,
    pub billing: VideoBillingReceipt,
    pub request_key: Option<String>,
    pub owner_key_id: String,
}

/// The model of a task, in memory or stored.
pub struct TaskView {
    pub id: Seq<char>,
    pub object: Seq<char>,
    pub model: Seq<char>,
    pub status: Seq<char>,
    pub prompt: Seq<char>,
    pub created_at: u64,
    pub updated_at: u64,
    pub error: Option<Seq<char>>,
    pub transport: Seq<char>,
    pub video_url: Option<Seq<char>>,
    pub resource_uri: Option<Seq<char>>,
    pub video_duration: Option<NumberView>,
    pub content_url: Option<Seq<char>>,
    pub artifact_error: Option<Seq<char>>,
    pub billing: ReceiptView,
    pub request_key: Option<Seq<char>>,
    pub owner_key_id: Seq<char>,
}

/// The model of an optional number.
pub open spec fn opt_number(n: Option<JsonNumber>) -> Option<NumberView> {
    match n {
        Some(v) => Some(v@),
        None => None,
    }
}

fn dup_number(n: &Option<JsonNumber>) -> (r: Option<JsonNumber>)
    ensures
        r == *n,
{
    match n {
        Some(v) => Some(v.clone()),
        None => None,
    }
}

impl Clone for VideoTask {
    fn clone(&self) -> (r: VideoTask)
        ensures
            r == *self,
    {
        VideoTask {
            id: self.id.clone(),
            object: self.object.clone(),
            model: self.model.clone(),
            status: self.status.clone(),
            prompt: self.prompt.clone(),
            created_at: self.created_at,
            updated_at: self.updated_at,
            error: text::dup_opt(&self.error),
            transport: self.transport.clone(),
            video_url: text::dup_opt(&self.video_url),
            resource_uri: text::dup_opt(&self.resource_uri),
            video_duration: dup_number(&self.video_duration),
            content_url: text::dup_opt(&self.content_url),
            artifact_error: text::dup_opt(&self.artifact_error),
            billing: self.billing.clone(),
            request_key: text::dup_opt(&self.request_key),
            owner_key_id: self.owner_key_id.clone(),
        }
    }
}

impl View for VideoTask {
    type V = TaskView;

    open spec fn view(&self) -> TaskView {
        TaskView {
            id: self.id@,
            object: self.object@,
            model: self.model@,
            status: self.status@,
            prompt: self.prompt@,
            created_at: self.created_at,
            updated_at: self.updated_at,
            error: text::opt_view(self.error),
            transport: self.transport@,
            video_url: text::opt_view(self.video_url),
            resource_uri: text::opt_view(self.resource_uri),
            video_duration: opt_number(self.video_duration),
            content_url: text::opt_view(self.content_url),
            artifact_error: text::opt_view(self.artifact_error),
            billing: self.billing@,
            request_key: text::opt_view(self.request_key),
            owner_key_id: self.owner_key_id@,
        }
    }
}

impl View for PersistedVideoTask {
    type V = TaskView;

    open spec fn view(&self) -> TaskView {
        TaskView {
            id: self.id@,
            object: self.object@,
            model: self.model@,
            status: self.status@,
            prompt: self.prompt@,
            created_at: self.created_at,
            updated_at: self.updated_at,
            error: text::opt_view(self.error),
            transport: self.transport@,
            video_url: text::opt_view(self.video_url),
            resource_uri: text::opt_view(self.resource_uri),
            video_duration: opt_number(self.video_duration),
            content_url: text::opt_view(self.content_url),
            artifact_error: text::opt_view(self.artifact_error),
            billing: self.billing@,
            request_key: text::opt_view(self.request_key),
            owner_key_id: self.owner_key_id@,
        }
    }
}

/// The stored form of a task; nothing of it is lost.
pub fn persisted(task: &VideoTask) -> (r: PersistedVideoTask)
    ensures
        r@ == task@,
{
    let t = task.clone();
    PersistedVideoTask {
        id: t.id,
        object: t.object,
        model: t.model,
        status: t.status,
        prompt: t.prompt,
        created_at: t.created_at,
        updated_at: t.updated_at,
        error: t.error,
        transport: t.transport,
        video_url: t.video_url,
        resource_uri: t.resource_uri,
        video_duration: t.video_duration,
        content_url: t.content_url,
        artifact_error: t.artifact_error,
        billing: t.billing,
        request_key: t.request_key,
        owner_key_id: t.owner_key_id,
    }
}

/// The task that was stored.
pub fn restored(task: PersistedVideoTask) -> (r: VideoTask)
    ensures
        r@ == task@,
{
    VideoTask {
        id: task.id,
        object: task.object,
        model: task.model,
        status: task.status,
        prompt: task.prompt,
        created_at: task.created_at,
        updated_at: task.updated_at,
        error: task.error,
        transport: task.transport,
        video_url: task.video_url,
        resource_uri: task.resource_uri,
        video_duration: task.video_duration,
        content_url: task.content_url,
        artifact_error: task.artifact_error,
        billing: task.billing,
        request_key: task.request_key,
        owner_key_id: task.owner_key_id,
    }
}

/// A slot among the video jobs that an API key may run at once.
#[derive(Debug, PartialEq, Eq)]
pub struct Permit {
    pub key_id: String,
}

impl View for Permit {
    type V = Seq<char>;

    open spec fn view(&self) -> Seq<char> {
        self.key_id@
    }
}

/// The video tasks of one gateway.
#[derive(Debug)]
pub struct VideoState {
    pub tasks: TaskTable,
    /// From a replay key to the task it started.
    pub idempotency: Table<String>,
    /// From a task to the job permit it holds.
    pub permits: Table<Permit>,
    pub data_dir: Option<String>,
    pub seq: u64,
}

/// The model of a [`VideoState`].
pub struct StateView {
    pub tasks: Seq<(Seq<char>, TaskView)>,
    pub idempotency: Seq<(Seq<char>, Seq<char>)>,
    pub permits: Seq<(Seq<char>, Seq<char>)>,
    pub data_dir: Option<Seq<char>>,
    pub seq: u64,
}

impl View for VideoState {
    type V = StateView;

    open spec fn view(&self) -> StateView {
        StateView {
            tasks: self.tasks@,
            idempotency: self.idempotency@,
            permits: self.permits@,
            data_dir: text::opt_view(self.data_dir),
            seq: self.seq,
        }
    }
}

impl StateView {
    /// The task of that id.
    pub open spec fn task(self, id: Seq<char>) -> Option<TaskView> {
        table::find(self.tasks, id)
    }

    /// The task holds a job permit.
    pub open spec fn holds_permit(self, id: Seq<char>) -> bool {
        table::find(self.permits, id) is Some
    }

    /// No name stands in one of the tables twice, and every task stands under
    /// its own id.
    pub open spec fn valid(self) -> bool {
        &&& table::unique(self.tasks)
        &&& task_table::keyed_by_id(self.tasks)
        &&& table::unique(self.idempotency)
        &&& table::unique(self.permits)
    }
}

impl VideoState {
    /// A gateway without tasks.
    pub fn new() -> (r: VideoState)
        ensures
            r@ == (StateView {
                tasks: Seq::empty(),
                idempotency: Seq::empty(),
                permits: Seq::empty(),
                data_dir: None,
                seq: 0,
            }),
    {
        VideoState {
            tasks: TaskTable::new(),
            idempotency: Table::new(),
            permits: Table::new(),
            data_dir: None,
            seq: 0,
        }
    }
}

/// A task of that status has ended.
pub open spec fn is_terminal(status: Seq<char>) -> bool {
    ||| status == "completed"@
    ||| status == "failed"@
    ||| status == "canceled"@
    ||| status == "timeout"@
}

/// A task of that status has ended.
pub fn is_terminal_status(status: &str) -> (r: bool)
    ensures
        r == is_terminal(status@),
{
    text::same(status, "completed") || text::same(status, "failed") || text::same(
        status,
        "canceled",
    ) || text::same(status, "timeout")
}

/// The owner that a key id stands for.
pub open spec fn owner_of(key_id: Seq<char>) -> Seq<char> {
    if text::trim(key_id).len() == 0 {
        "anonymous"@
    } else {
        text::trim(key_id)
    }
}

/// The owner that a key id stands for.
pub fn owner_name(key_id: &str) -> (r: String)
    ensures
        r@ == owner_of(key_id@),
{
    let trimmed = text::trimmed(key_id);
    if trimmed.is_empty() {
        "anonymous".to_owned()
    } else {
        trimmed.to_owned()
    }
}

/// The directory that holds the task index.
pub fn configure(state: &mut VideoState, data_dir: &str)
    ensures
        final(state)@ == (StateView { data_dir: Some(data_dir@), ..old(state)@ }),
{
    state.data_dir = Some(data_dir.to_owned());
}

/// Moves a job permit to a task for as long as the task runs. A task that
/// already holds one keeps it.
pub fn retain_job_permit(state: &mut VideoState, task_id: &str, permit: Permit) -> (r: bool)
    ensures
        r == !old(state)@.holds_permit(task_id@),
        final(state)@ == retain_spec(old(state)@, task_id@, permit@),
{
    if state.permits.contains_key(task_id) {
        return false;
    }
    state.permits.insert(task_id, permit);
    true
}

/// The state after a permit was offered to a task.
pub open spec fn retain_spec(s: StateView, task_id: Seq<char>, key_id: Seq<char>) -> StateView {
    if s.holds_permit(task_id) {
        s
    } else {
        StateView { permits: table::put(s.permits, task_id, key_id), ..s }
    }
}

/// Gives the job permit of a task back, where it holds one.
pub fn release_job_permit(state: &mut VideoState, task_id: &str)
    ensures
        final(state)@ == release_spec(old(state)@, task_id@),
        table::unique(final(state)@.permits),
{
    state.permits.remove(task_id);
}

/// The state after a task gave its permit back.
pub open spec fn release_spec(s: StateView, task_id: Seq<char>) -> StateView {
    StateView { permits: table::without(s.permits, task_id), ..s }
}

/// The task of that id.
pub fn get(state: &VideoState, task_id: &str) -> (r: Option<VideoTask>)
    ensures
        match r {
            Some(task) => state@.task(task_id@) == Some(task@) && task@.id == task_id@,
            None => state@.task(task_id@) is None,
        },
{
    match state.tasks.get(task_id) {
        Some(task) => Some(task.clone()),
        None => None,
    }
}

/// The task holds a job permit.
pub fn has_job_permit(state: &VideoState, task_id: &str) -> (r: bool)
    ensures
        r == state@.holds_permit(task_id@),
{
    state.permits.contains_key(task_id)
}

/// A task as its permit is restored: its id, its status, its owner.
pub type RestoreRecord = (String, String, String);

/// The model of a [`RestoreRecord`].
pub open spec fn record_view(record: RestoreRecord) -> (Seq<char>, Seq<char>, Seq<char>) {
    (record.0@, record.1@, record.2@)
}

/// The models of a list of records.
pub open spec fn record_views(records: Seq<RestoreRecord>) -> Seq<
    (Seq<char>, Seq<char>, Seq<char>),
> {
    Seq::new(records.len(), |i: int| record_view(records[i]))
}

/// A running task that holds no permit gets one for its owner; an ended task
/// gives its own back.
pub open spec fn restore_one(
    permits: Seq<(Seq<char>, Seq<char>)>,
    record: (Seq<char>, Seq<char>, Seq<char>),
) -> Seq<(Seq<char>, Seq<char>)> {
    if is_terminal(record.1) {
        table::without(permits, record.0)
    } else if table::find(permits, record.0) is Some {
        permits
    } else {
        table::put(permits, record.0, owner_of(record.2))
    }
}

/// The permits after the first `n` records were restored in turn.
pub open spec fn restore_all(
    permits: Seq<(Seq<char>, Seq<char>)>,
    records: Seq<(Seq<char>, Seq<char>, Seq<char>)>,
    n: nat,
) -> Seq<(Seq<char>, Seq<char>)>
    decreases n,
{
    if n == 0 {
        permits
    } else {
        restore_one(restore_all(permits, records, (n - 1) as nat), records[n - 1])
    }
}

/// How many of the first `n` records got a permit.
pub open spec fn restore_count(
    permits: Seq<(Seq<char>, Seq<char>)>,
    records: Seq<(Seq<char>, Seq<char>, Seq<char>)>,
    n: nat,
) -> nat
    decreases n,
{
    if n == 0 {
        0
    } else {
        let before = restore_all(permits, records, (n - 1) as nat);
        let record = records[n - 1];
        restore_count(permits, records, (n - 1) as nat) + if !is_terminal(record.1) && table::find(
            before,
            record.0,
        ) is None {
            1nat
        } else {
            0nat
        }
    }
}

/// Restores the job permits of these tasks; the number of permits that were
/// given out.
pub fn restore_job_permits_for_tasks(state: &mut VideoState, tasks: &Vec<RestoreRecord>) -> (r:
    usize)
    ensures
        r == restore_count(old(state)@.permits, record_views(tasks@), tasks@.len()),
        final(state)@ == (StateView {
            permits: restore_all(old(state)@.permits, record_views(tasks@), tasks@.len()),
            ..old(state)@
        }),
{
    let ghost permits = state@.permits;
    let ghost records = record_views(tasks@);
    let mut restored: usize = 0;
    let mut i: usize = 0;
    while i < tasks.len()
        invariant
            i <= tasks.len(),
            restored <= i,
            records == record_views(tasks@),
            permits == old(state)@.permits,
            restored == restore_count(permits, records, i as nat),
            state@ == (StateView {
                permits: restore_all(permits, records, i as nat),
                ..old(state)@
            }),
        decreases tasks.len() - i,
    {
        let record = &tasks[i];
        assert(records[i as int] == record_view(*record));
        if is_terminal_status(record.1.as_str()) {
            release_job_permit(state, record.0.as_str());
        } else if !has_job_permit(state, record.0.as_str()) {
            let key_id = owner_name(record.2.as_str());
            if retain_job_permit(state, record.0.as_str(), Permit { key_id }) {
                restored = restored + 1;
            }
        }
        i = i + 1;
    }
    restored
}

/// The records of the tasks in a table.
pub open spec fn records_of(tasks: Seq<(Seq<char>, TaskView)>) -> Seq<
    (Seq<char>, Seq<char>, Seq<char>),
> {
    Seq::new(tasks.len(), |i: int| (tasks[i].1.id, tasks[i].1.status, tasks[i].1.owner_key_id))
}

/// Restores the job permits of the tasks that the gateway holds. A task that
/// has ended takes none, and a task that holds one keeps it.
pub fn restore_persisted_job_permits(state: &mut VideoState) -> (r: usize)
    ensures
        r == restore_count(
            old(state)@.permits,
            records_of(old(state)@.tasks),
            old(state)@.tasks.len(),
        ),
        final(state)@ == (StateView {
            permits: restore_all(
                old(state)@.permits,
                records_of(old(state)@.tasks),
                old(state)@.tasks.len(),
            ),
            ..old(state)@
        }),
        final(state)@.valid(),
        restore_settled(final(state)@),
{
    let mut records: Vec<RestoreRecord> = Vec::new();
    let mut i: usize = 0;
    while i < state.tasks.len()
        invariant
            i <= state@.tasks.len(),
            state@ == old(state)@,
            records.len() == i,
            forall|j: int|
                0 <= j < i ==> record_view(#[trigger] records@[j]) == records_of(state@.tasks)[j],
        decreases state@.tasks.len() - i,
    {
        let task = state.tasks.task_at(i);
        records.push((task.id.clone(), task.status.clone(), task.owner_key_id.clone()));
        i = i + 1;
    }
    assert(record_views(records@) =~= records_of(state@.tasks));
    recall_validity(state);
    let r = restore_job_permits_for_tasks(state, &records);
    proof {
        crate::video_laws::law_restoring_permits_settles_them(old(state)@);
    }
    recall_validity(state);
    r
}

/// Every state is valid: the tables see to it.
fn recall_validity(state: &VideoState)
    ensures
        state@.valid(),
{
    let _tasks: usize = state.tasks.len();
    let _keys: usize = state.idempotency.len();
    let _permits: usize = state.permits.len();
}

/// The permits are restored: exactly the tasks that have not ended hold one,
/// and restoring them again gives out no permit and changes none.
pub open spec fn restore_settled(s: StateView) -> bool {
    let records = records_of(s.tasks);
    &&& forall|i: int|
        0 <= i < s.tasks.len() ==> s.holds_permit((#[trigger] s.tasks[i]).0) == !is_terminal(
            s.tasks[i].1.status,
        )
    &&& restore_count(s.permits, records, s.tasks.len()) == 0
    &&& restore_all(s.permits, records, s.tasks.len()) == s.permits
}

/// What a stored list of tasks is loaded into.
pub struct LoadView {
    pub tasks: Seq<(Seq<char>, TaskView)>,
    pub idempotency: Seq<(Seq<char>, Seq<char>)>,
    pub permits: Seq<(Seq<char>, Seq<char>)>,
}

/// A stored task is passed over where it has no id, or ended longer ago than
/// it is held.
pub open spec fn is_expired(task: TaskView, now: u64) -> bool {
    ||| text::trim(task.id).len() == 0
    ||| is_terminal(task.status) && now - task.updated_at > TERMINAL_TASK_RETENTION_SECS
}

/// One stored task is taken in.
pub open spec fn load_one(s: LoadView, task: TaskView, now: u64) -> LoadView {
    if is_expired(task, now) {
        s
    } else {
        LoadView {
            tasks: table::put(s.tasks, task.id, task),
            idempotency: match task.request_key {
                Some(key) => if key.len() > 0 {
                    table::put(s.idempotency, key, task.id)
                } else {
                    s.idempotency
                },
                None => s.idempotency,
            },
            permits: if is_terminal(task.status) {
                table::without(s.permits, task.id)
            } else {
                s.permits
            },
        }
    }
}

/// The first `n` stored tasks are taken in, in turn.
pub open spec fn load_all(s: LoadView, list: Seq<TaskView>, n: nat, now: u64) -> LoadView
    decreases n,
{
    if n == 0 {
        s
    } else {
        load_one(load_all(s, list, (n - 1) as nat, now), list[n - 1], now)
    }
}

/// The permits without those of the first `n` tasks.
pub open spec fn release_all(
    permits: Seq<(Seq<char>, Seq<char>)>,
    tasks: Seq<(Seq<char>, TaskView)>,
    n: nat,
) -> Seq<(Seq<char>, Seq<char>)>
    decreases n,
{
    if n == 0 {
        permits
    } else {
        table::without(release_all(permits, tasks, (n - 1) as nat), tasks[n - 1].0)
    }
}

/// The models of a list of stored tasks.
pub open spec fn stored_views(list: Seq<PersistedVideoTask>) -> Seq<TaskView> {
    Seq::new(list.len(), |i: int| list[i]@)
}

/// Takes the stored tasks of a data directory in, at time `now`. The list is
/// the whole index of the directory: what the gateway held before is dropped,
/// with its replay keys and permits.
pub fn load_persisted(
    state: &mut VideoState,
    data_dir: &str,
    list: Vec<PersistedVideoTask>,
    now: u64,
)
    ensures
        ({
            let before = old(state)@;
            let loaded = load_all(
                LoadView {
                    tasks: Seq::empty(),
                    idempotency: Seq::empty(),
                    permits: release_all(before.permits, before.tasks, before.tasks.len()),
                },
                stored_views(list@),
                list@.len(),
                now,
            );
            final(state)@ == StateView {
                tasks: loaded.tasks,
                idempotency: loaded.idempotency,
                permits: loaded.permits,
                data_dir: Some(data_dir@),
                seq: before.seq,
            }
        }),
{
    let ghost before = state@;
    let ghost stored = stored_views(list@);
    configure(state, data_dir);
    state.idempotency = Table::new();
    let mut i: usize = 0;
    while i < state.tasks.len()
        invariant
            i <= before.tasks.len(),
            state@.tasks == before.tasks,
            state@.idempotency == Seq::<(Seq<char>, Seq<char>)>::empty(),
            state@.data_dir == Some(data_dir@),
            state@.seq == before.seq,
            state@.permits == release_all(before.permits, before.tasks, i as nat),
        decreases before.tasks.len() - i,
    {
        state.permits.remove(state.tasks.task_at(i).id.as_str());
        i = i + 1;
    }
    state.tasks = TaskTable::new();
    let ghost start = LoadView {
        tasks: state@.tasks,
        idempotency: state@.idempotency,
        permits: state@.permits,
    };
    for item in it: list
        invariant
            stored == stored_views(it.seq()),
            state@.data_dir == Some(data_dir@),
            state@.seq == before.seq,
            (LoadView {
                tasks: state@.tasks,
                idempotency: state@.idempotency,
                permits: state@.permits,
            }) == load_all(start, stored, it.index() as nat, now),
    {
        assert(item@ == stored[it.index() as int]);
        load_item(state, item, now);
    }
}

/// Takes one stored task in.
fn load_item(state: &mut VideoState, item: PersistedVideoTask, now: u64)
    ensures
        (LoadView {
            tasks: final(state)@.tasks,
            idempotency: final(state)@.idempotency,
            permits: final(state)@.permits,
        }) == load_one(
            LoadView {
                tasks: old(state)@.tasks,
                idempotency: old(state)@.idempotency,
                permits: old(state)@.permits,
            },
            item@,
            now,
        ),
        final(state)@.data_dir == old(state)@.data_dir,
        final(state)@.seq == old(state)@.seq,
{
    let ended = is_terminal_status(item.status.as_str());
    let age: u64 = if now >= item.updated_at {
        now - item.updated_at
    } else {
        0
    };
    if text::blank(item.id.as_str()) || (ended && age > TERMINAL_TASK_RETENTION_SECS) {
        return;
    }
    let task = restored(item);
    if ended {
        state.permits.remove(task.id.as_str());
    }
    match &task.request_key {
        Some(key) => {
            if !key.as_str().is_empty() {
                state.idempotency.insert(key.as_str(), task.id.clone());
            }
        },
        None => {},
    }
    state.tasks.put(task);
}

/// The stored form of every task that the gateway holds.
pub fn snapshot(state: &VideoState) -> (r: Vec<PersistedVideoTask>)
    ensures
        stored_views(r@) == Seq::new(state@.tasks.len(), |i: int| state@.tasks[i].1),
{
    let mut r: Vec<PersistedVideoTask> = Vec::new();
    let mut i: usize = 0;
    while i < state.tasks.len()
        invariant
            i <= state@.tasks.len(),
            r.len() == i,
            forall|j: int| 0 <= j < i ==> (#[trigger] r@[j])@ == state@.tasks[j].1,
        decreases state@.tasks.len() - i,
    {
        r.push(persisted(state.tasks.task_at(i)));
        i = i + 1;
    }
    assert(stored_views(r@) =~= Seq::new(state@.tasks.len(), |i: int| state@.tasks[i].1));
    r
}

/// The counter of task ids after one more was given out.
pub open spec fn next_seq(seq: u64) -> u64 {
    if seq == u64::MAX {
        0
    } else {
        (seq + 1) as u64
    }
}

/// The id of the task that is made at `now_ms`, when `seq` ids were given out.
pub open spec fn task_id_text(now_ms: u64, seq: u64) -> Seq<char> {
    "video-"@ + text::decimal(now_ms as nat) + "-"@ + text::decimal(next_seq(seq) as nat)
}

/// The next task id.
pub fn next_id(state: &mut VideoState, now_ms: u64) -> (r: String)
    ensures
        r@ == task_id_text(now_ms, old(state)@.seq),
        final(state)@ == (StateView { seq: next_seq(old(state)@.seq), ..old(state)@ }),
{
    state.seq = if state.seq == u64::MAX {
        0
    } else {
        state.seq + 1
    };
    let mut id = text::join3("video-", text::decimal_text(now_ms).as_str(), "-");
    id.push_str(text::decimal_text(state.seq).as_str());
    id
}

/// A task that ended before `cutoff`.
pub open spec fn is_stale(task: TaskView, cutoff: int) -> bool {
    is_terminal(task.status) && task.updated_at < cutoff
}

/// The tasks without those that ended before `cutoff`.
pub open spec fn prune(tasks: Seq<(Seq<char>, TaskView)>, cutoff: int) -> Seq<
    (Seq<char>, TaskView),
>
    decreases tasks.len(),
{
    if tasks.len() == 0 {
        tasks
    } else {
        let rest = prune(tasks.subrange(1, tasks.len() as int), cutoff);
        if is_stale(tasks[0].1, cutoff) {
            rest
        } else {
            seq![tasks[0]] + rest
        }
    }
}

/// Among the first `n` tasks, the position of the one that ended first; -1
/// where none has ended.
pub open spec fn oldest_ended(tasks: Seq<(Seq<char>, TaskView)>, n: nat) -> int
    decreases n,
{
    if n == 0 {
        -1
    } else {
        let best = oldest_ended(tasks, (n - 1) as nat);
        if is_terminal(tasks[n - 1].1.status) && (best < 0 || tasks[n - 1].1.updated_at
            < tasks[best].1.updated_at) {
            n - 1
        } else {
            best
        }
    }
}

/// The tasks after up to `n` that have ended made room, those that ended first
/// before the others.
pub open spec fn evict(tasks: Seq<(Seq<char>, TaskView)>, n: nat) -> Seq<(Seq<char>, TaskView)>
    decreases n,
{
    let oldest = oldest_ended(tasks, tasks.len());
    if n == 0 || oldest < 0 {
        tasks
    } else {
        evict(tasks.remove(oldest), (n - 1) as nat)
    }
}

/// The tasks once there is room for one more, as far as tasks have ended.
pub open spec fn make_room(tasks: Seq<(Seq<char>, TaskView)>, now: u64) -> Seq<
    (Seq<char>, TaskView),
> {
    let kept = prune(
        tasks,
        if now >= TERMINAL_TASK_RETENTION_SECS {
            now - TERMINAL_TASK_RETENTION_SECS
        } else {
            0
        },
    );
    if kept.len() >= MAX_IN_MEMORY_TASKS {
        evict(kept, (kept.len() - (MAX_IN_MEMORY_TASKS - 1)) as nat)
    } else {
        kept
    }
}

fn prune_tasks(tasks: &mut TaskTable, cutoff: u64)
    ensures
        final(tasks)@ == prune(old(tasks)@, cutoff as int),
{
    let ghost all = tasks@;
    let ghost mut kept: Seq<(Seq<char>, TaskView)> = Seq::empty();
    let ghost mut rest = all;
    let mut i: usize = 0;
    assert(Seq::<(Seq<char>, TaskView)>::empty() + all =~= all);
    assert(Seq::<(Seq<char>, TaskView)>::empty() + prune(all, cutoff as int) =~= prune(
        all,
        cutoff as int,
    ));
    while i < tasks.len()
        invariant
            i <= tasks@.len(),
            kept.len() == i,
            tasks@ == kept + rest,
            prune(all, cutoff as int) == kept + prune(rest, cutoff as int),
        decreases tasks@.len() - i,
    {
        let task = tasks.task_at(i);
        let ghost tail = rest.subrange(1, rest.len() as int);
        assert(rest[0] == tasks@[i as int]);
        if is_terminal_status(task.status.as_str()) && task.updated_at < cutoff {
            tasks.remove_at(i);
            proof {
                assert((kept + rest).remove(i as int) =~= kept + tail);
                rest = tail;
            }
        } else {
            proof {
                assert(kept + rest =~= kept.push(rest[0]) + tail);
                assert(kept + (seq![rest[0]] + prune(tail, cutoff as int)) =~= kept.push(rest[0])
                    + prune(tail, cutoff as int));
                kept = kept.push(rest[0]);
                rest = tail;
            }
            i = i + 1;
        }
    }
    assert(kept + prune(rest, cutoff as int) =~= tasks@);
}

fn oldest_position(tasks: &TaskTable) -> (r: Option<usize>)
    ensures
        match r {
            Some(i) => i == oldest_ended(tasks@, tasks@.len()) && i < tasks@.len(),
            None => oldest_ended(tasks@, tasks@.len()) < 0,
        },
{
    let mut best: Option<usize> = None;
    let mut i: usize = 0;
    while i < tasks.len()
        invariant
            i <= tasks@.len(),
            match best {
                Some(b) => b < i && b == oldest_ended(tasks@, i as nat),
                None => oldest_ended(tasks@, i as nat) < 0,
            },
        decreases tasks@.len() - i,
    {
        let task = tasks.task_at(i);
        if is_terminal_status(task.status.as_str()) {
            match best {
                Some(b) => {
                    if task.updated_at < tasks.task_at(b).updated_at {
                        best = Some(i);
                    }
                },
                None => {
                    best = Some(i);
                },
            }
        }
        i = i + 1;
    }
    best
}

fn evict_tasks(tasks: &mut TaskTable, n: usize)
    ensures
        final(tasks)@ == evict(old(tasks)@, n as nat),
    decreases n,
{
    if n == 0 {
        return;
    }
    match oldest_position(tasks) {
        Some(i) => {
            tasks.remove_at(i);
            evict_tasks(tasks, n - 1);
        },
        None => {},
    }
}

/// The task that is made of a request at `now_ms`.
pub open spec fn pending_task(
    id: Seq<char>,
    model: Seq<char>,
    prompt: Seq<char>,
    owner_key_id: Seq<char>,
    now: u64,
) -> TaskView {
    TaskView {
        id,
        object: "video"@,
        model,
        status: "queued"@,
        prompt,
        created_at: now,
        updated_at: now,
        error: None,
        transport: "trae_work_native_sse"@,
        video_url: None,
        resource_uri: None,
        video_duration: None,
        content_url: None,
        artifact_error: None,
        billing: absent_receipt(),
        request_key: None,
        owner_key_id: owner_of(owner_key_id),
    }
}

/// The state after a task was made, and the task.
pub open spec fn create_spec(
    s: StateView,
    model: Seq<char>,
    prompt: Seq<char>,
    owner_key_id: Seq<char>,
    now_ms: u64,
) -> (StateView, TaskView) {
    let now = (now_ms / 1000) as u64;
    let task = pending_task(task_id_text(now_ms, s.seq), model, prompt, owner_key_id, now);
    (
        StateView {
            seq: next_seq(s.seq),
            tasks: table::put(make_room(s.tasks, now), task.id, task),
            ..s
        },
        task,
    )
}

/// Makes a task of a request.
pub fn create_pending_for(
    state: &mut VideoState,
    model: String,
    prompt: String,
    owner_key_id: &str,
    now_ms: u64,
) -> (r: VideoTask)
    ensures
        (final(state)@, r@) == create_spec(old(state)@, model@, prompt@, owner_key_id@, now_ms),
{
    let now: u64 = now_ms / 1000;
    let id = next_id(state, now_ms);
    let task = VideoTask {
        id,
        object: "video".to_owned(),
        model,
        status: "queued".to_owned(),
        prompt,
        created_at: now,
        updated_at: now,
        error: None,
        transport: "trae_work_native_sse".to_owned(),
        video_url: None,
        resource_uri: None,
        video_duration: None,
        content_url: None,
        artifact_error: None,
        billing: VideoBillingReceipt::default(),
        request_key: None,
        owner_key_id: owner_name(owner_key_id),
    };
    let cutoff: u64 = if now >= TERMINAL_TASK_RETENTION_SECS {
        now - TERMINAL_TASK_RETENTION_SECS
    } else {
        0
    };
    prune_tasks(&mut state.tasks, cutoff);
    let len: usize = state.tasks.len();
    if len >= MAX_IN_MEMORY_TASKS {
        evict_tasks(&mut state.tasks, len - (MAX_IN_MEMORY_TASKS - 1));
    }
    state.tasks.put(task.clone());
    task
}

/// Makes a task that no API key owns.
pub fn create_pending(state: &mut VideoState, model: String, prompt: String, now_ms: u64) -> (r:
    VideoTask)
    ensures
        (final(state)@, r@) == create_spec(old(state)@, model@, prompt@, "anonymous"@, now_ms),
{
    create_pending_for(state, model, prompt, "anonymous", now_ms)
}

/// The task may be shown to the key.
pub fn visible_to(task: &VideoTask, owner_key_id: &str) -> (r: bool)
    ensures
        r == (task@.owner_key_id == owner_of(owner_key_id@)),
{
    text::same(task.owner_key_id.as_str(), owner_name(owner_key_id).as_str())
}

/// The task that a replay key leads to.
pub open spec fn replayed(s: StateView, key: Seq<char>) -> Option<TaskView> {
    if text::trim(key).len() == 0 {
        None
    } else {
        match table::find(s.idempotency, text::trim(key)) {
            Some(id) => s.task(id),
            None => None,
        }
    }
}

/// The task that a replay key leads to, where the gateway still holds it.
pub fn find_idempotent(state: &VideoState, key: &str) -> (r: Option<VideoTask>)
    ensures
        match r {
            Some(task) => replayed(state@, key@) == Some(task@),
            None => replayed(state@, key@) is None,
        },
{
    let key = text::trimmed(key);
    if key.is_empty() {
        return None;
    }
    match state.idempotency.get(key) {
        Some(id) => get(state, id.as_str()),
        None => None,
    }
}

/// The replay keys after one more was noted.
pub open spec fn remember_spec(
    keys: Seq<(Seq<char>, Seq<char>)>,
    key: Seq<char>,
    task_id: Seq<char>,
) -> Seq<(Seq<char>, Seq<char>)> {
    let room = if keys.len() >= MAX_REPLAY_KEYS {
        keys.subrange(keys.len() - (MAX_REPLAY_KEYS - 1), keys.len() as int)
    } else {
        keys
    };
    if text::trim(key).len() == 0 {
        keys
    } else {
        table::put(room, text::trim(key), task_id)
    }
}

/// Notes the task of a replay key. Where no more keys are held, those that
/// came first leave.
pub fn remember_idempotent(state: &mut VideoState, key: &str, task_id: &str)
    ensures
        final(state)@ == (StateView {
            idempotency: remember_spec(old(state)@.idempotency, key@, task_id@),
            ..old(state)@
        }),
{
    let key = text::trimmed(key);
    if key.is_empty() {
        return;
    }
    let len: usize = state.idempotency.len();
    if len >= MAX_REPLAY_KEYS {
        state.idempotency.remove_first(len - (MAX_REPLAY_KEYS - 1));
    }
    state.idempotency.insert(key, task_id.to_owned());
}

/// The state after a replay key was bound to a task.
pub open spec fn bind_spec(s: StateView, key: Seq<char>, task_id: Seq<char>) -> StateView {
    if text::trim(key).len() == 0 {
        s
    } else {
        StateView {
            idempotency: remember_spec(s.idempotency, key, task_id),
            tasks: match s.task(task_id) {
                Some(task) => table::put(
                    s.tasks,
                    task_id,
                    TaskView { request_key: Some(text::trim(key)), ..task },
                ),
                None => s.tasks,
            },
            ..s
        }
    }
}

/// Binds a replay key to a task, which keeps the key.
pub fn bind_idempotency(state: &mut VideoState, key: &str, task_id: &str)
    ensures
        final(state)@ == bind_spec(old(state)@, key@, task_id@),
{
    proof {
        text::lemma_trim_twice(key@);
    }
    let key = text::trimmed(key);
    if key.is_empty() {
        return;
    }
    remember_idempotent(state, key, task_id);
    match get(state, task_id) {
        Some(task) => {
            let mut task = task;
            task.request_key = Some(key.to_owned());
            state.tasks.put(task);
        },
        None => {},
    }
}

/// A request with a replay key either finds its task or makes one.
#[derive(Debug, PartialEq, Eq)]
pub enum IdempotentCreateResult {
    Existing(VideoTask),
    Created(VideoTask),
}

/// The outcome of a request with a replay key.
pub enum CreateView {
    Existing(TaskView),
    Created(TaskView),
}

impl View for IdempotentCreateResult {
    type V = CreateView;

    open spec fn view(&self) -> CreateView {
        match self {
            IdempotentCreateResult::Existing(task) => CreateView::Existing(task@),
            IdempotentCreateResult::Created(task) => CreateView::Created(task@),
        }
    }
}

/// The replay key of a request, where it has one.
pub open spec fn replay_key(internal_key: Option<Seq<char>>) -> Option<Seq<char>> {
    match internal_key {
        Some(key) => if text::trim(key).len() == 0 {
            None
        } else {
            Some(text::trim(key))
        },
        None => None,
    }
}

/// The state after a request with an optional replay key, and its outcome.
pub open spec fn create_or_replay(
    s: StateView,
    model: Seq<char>,
    prompt: Seq<char>,
    owner_key_id: Seq<char>,
    internal_key: Option<Seq<char>>,
    now_ms: u64,
) -> (StateView, CreateView) {
    match replay_key(internal_key) {
        None => {
            let (after, task) = create_spec(s, model, prompt, owner_key_id, now_ms);
            (after, CreateView::Created(task))
        },
        Some(key) => match replayed(s, key) {
            Some(task) => (s, CreateView::Existing(task)),
            None => {
                let cleared = StateView { idempotency: table::without(s.idempotency, key), ..s };
                let (after, task) = create_spec(cleared, model, prompt, owner_key_id, now_ms);
                (bind_spec(after, key, task.id), CreateView::Created(task))
            },
        },
    }
}

/// Replays or makes the task of a request, as one step.
///
/// `internal_key` is the key of [`scoped_idempotency_key`], never the key as
/// the client wrote it.
pub fn create_pending_with_idempotency(
    state: &mut VideoState,
    model: String,
    prompt: String,
    owner_key_id: &str,
    internal_key: Option<&str>,
    now_ms: u64,
) -> (r: IdempotentCreateResult)
    ensures
        (final(state)@, r@) == create_or_replay(
            old(state)@,
            model@,
            prompt@,
            owner_key_id@,
            match internal_key {
                Some(key) => Some(key@),
                None => None,
            },
            now_ms,
        ),
{
    let key = match internal_key {
        Some(key) => text::trimmed(key),
        None => "",
    };
    proof {
        reveal_strlit("");
        if internal_key is Some {
            text::lemma_trim_twice(internal_key->0@);
        }
    }
    if key.is_empty() {
        return IdempotentCreateResult::Created(
            create_pending_for(state, model, prompt, owner_key_id, now_ms),
        );
    }
    if let Some(task) = find_idempotent(state, key) {
        return IdempotentCreateResult::Existing(task);
    }
    state.idempotency.remove(key);
    let task = create_pending_for(state, model, prompt, owner_key_id, now_ms);
    bind_idempotency(state, key, task.id.as_str());
    IdempotentCreateResult::Created(task)
}

/// The text that a replay key is the digest of.
pub open spec fn scope_text(scope: Seq<char>, key: Seq<char>) -> Seq<char> {
    owner_of(scope) + ":"@ + text::trim(key)
}

/// The replay key of a client's key within the scope of an API key.
pub open spec fn scoped_key(scope: Seq<char>, key: Seq<char>) -> Seq<char> {
    "idem-"@ + text::hex(
        outside::sha256_of(vstd::utf8::encode_utf8(scope_text(scope, key))),
    )
}

/// The replay key of a client's key within the scope of an API key: two
/// callers that use one key do not share a task.
pub fn scoped_idempotency_key(scope: &str, key: &str) -> (r: String)
    ensures
        r@ == scoped_key(scope@, key@),
{
    let raw = text::join3(owner_name(scope).as_str(), ":", text::trimmed(key));
    let digest = outside::sha256(raw.as_str().as_bytes());
    text::join2("idem-", text::hex_text(digest.as_slice()).as_str())
}

/// A change to a task.
#[derive(Debug)]
pub enum TaskChange {
    /// The task has that status.
    Status(String),
    /// Nobody knows how the task goes on, unless it has ended.
    Unknown(String),
    /// The task failed.
    Failed(String),
    /// The task can be fetched there.
    VideoUrl(String),
    /// The gateway holds a copy of the video.
    Cached(Option<String>),
    /// The gateway could not copy the video.
    CacheFailed(String),
    /// The upstream reported a result.
    Result(Option<String>, Option<String>, Option<JsonNumber>, VideoBillingReceipt),
}

/// The model of a [`TaskChange`].
pub enum ChangeView {
    Status(Seq<char>),
    Unknown(Seq<char>),
    Failed(Seq<char>),
    VideoUrl(Seq<char>),
    Cached(Option<Seq<char>>),
    CacheFailed(Seq<char>),
    Result(Option<Seq<char>>, Option<Seq<char>>, Option<NumberView>, ReceiptView),
}

impl View for TaskChange {
    type V = ChangeView;

    open spec fn view(&self) -> ChangeView {
        match self {
            TaskChange::Status(s) => ChangeView::Status(s@),
            TaskChange::Unknown(s) => ChangeView::Unknown(s@),
            TaskChange::Failed(s) => ChangeView::Failed(s@),
            TaskChange::VideoUrl(s) => ChangeView::VideoUrl(s@),
            TaskChange::Cached(s) => ChangeView::Cached(text::opt_view(*s)),
            TaskChange::CacheFailed(s) => ChangeView::CacheFailed(s@),
            TaskChange::Result(uri, url, duration, billing) => ChangeView::Result(
                text::opt_view(*uri),
                text::opt_view(*url),
                opt_number(*duration),
                billing@,
            ),
        }
    }
}

/// The second receipt takes the place of the first where it is verified, or
/// where it is the first to hint at a charge.
pub open spec fn merged_receipt(held: ReceiptView, candidate: ReceiptView) -> ReceiptView {
    if candidate.status == BillingStatus::Verified || (held.status == BillingStatus::Absent
        && candidate.status == BillingStatus::Unverified) {
        candidate
    } else {
        held
    }
}

/// The task takes a receipt in.
pub fn merge_billing_candidate(task: &mut VideoTask, candidate: VideoBillingReceipt)
    ensures
        final(task)@ == (TaskView {
            billing: merged_receipt(old(task)@.billing, candidate@),
            ..old(task)@
        }),
{
    if candidate.status == BillingStatus::Verified || (task.billing.status == BillingStatus::Absent
        && candidate.status == BillingStatus::Unverified) {
        task.billing = candidate;
    }
}

/// The first of two values that is there.
pub open spec fn either<T>(first: Option<T>, second: Option<T>) -> Option<T> {
    if first is Some {
        first
    } else {
        second
    }
}

/// The task after a change, but for the time of it.
pub open spec fn changed(task: TaskView, change: ChangeView) -> TaskView {
    match change {
        ChangeView::Status(status) => TaskView { status, ..task },
        ChangeView::Unknown(reason) => if is_terminal(task.status) {
            task
        } else {
            TaskView { status: "unknown"@, error: Some(reason), ..task }
        },
        ChangeView::Failed(reason) => TaskView {
            status: "failed"@,
            error: Some(reason),
            ..task
        },
        ChangeView::VideoUrl(url) => TaskView { video_url: Some(url), ..task },
        ChangeView::Cached(url) => TaskView { content_url: url, artifact_error: None, ..task },
        ChangeView::CacheFailed(reason) => TaskView { artifact_error: Some(reason), ..task },
        ChangeView::Result(uri, url, duration, billing) => TaskView {
            resource_uri: either(uri, task.resource_uri),
            video_url: either(url, task.video_url),
            video_duration: either(duration, task.video_duration),
            billing: merged_receipt(task.billing, billing),
            ..task
        },
    }
}

/// The task after a change, but for the time of it.
pub fn apply_change(task: VideoTask, change: TaskChange) -> (r: VideoTask)
    ensures
        r@ == changed(task@, change@),
{
    let mut task = task;
    match change {
        TaskChange::Status(status) => {
            task.status = status;
        },
        TaskChange::Unknown(reason) => {
            if !is_terminal_status(task.status.as_str()) {
                task.status = "unknown".to_owned();
                task.error = Some(reason);
            }
        },
        TaskChange::Failed(reason) => {
            task.status = "failed".to_owned();
            task.error = Some(reason);
        },
        TaskChange::VideoUrl(url) => {
            task.video_url = Some(url);
        },
        TaskChange::Cached(url) => {
            task.content_url = url;
            task.artifact_error = None;
        },
        TaskChange::CacheFailed(reason) => {
            task.artifact_error = Some(reason);
        },
        TaskChange::Result(uri, url, duration, billing) => {
            if uri.is_some() {
                task.resource_uri = uri;
            }
            if url.is_some() {
                task.video_url = url;
            }
            if duration.is_some() {
                task.video_duration = duration;
            }
            merge_billing_candidate(&mut task, billing);
        },
    }
    task
}

/// The state after a task was changed at time `now`. A task that has ended
/// gives its job permit back.
pub open spec fn update_spec(
    s: StateView,
    task_id: Seq<char>,
    change: ChangeView,
    now: u64,
) -> StateView {
    match s.task(task_id) {
        Some(task) => {
            let after = TaskView { updated_at: now, ..changed(task, change) };
            StateView {
                tasks: table::put(s.tasks, task_id, after),
                permits: if is_terminal(after.status) {
                    table::without(s.permits, task_id)
                } else {
                    s.permits
                },
                ..s
            }
        },
        None => s,
    }
}

/// Changes a task at time `now`; true where the gateway holds it, and the
/// index has to be stored again.
pub fn update_task(state: &mut VideoState, task_id: &str, change: TaskChange, now: u64) -> (r: bool)
    ensures
        r == old(state)@.task(task_id@) is Some,
        final(state)@ == update_spec(old(state)@, task_id@, change@, now),
{
    match get(state, task_id) {
        Some(task) => {
            let mut task = apply_change(task, change);
            task.updated_at = now;
            let ended = is_terminal_status(task.status.as_str());
            state.tasks.put(task);
            if ended {
                release_job_permit(state, task_id);
            }
            true
        },
        None => false,
    }
}

/// Nobody knows how the task goes on, unless it has ended.
pub fn mark_native_worker_unknown(state: &mut VideoState, task_id: &str, reason: String, now: u64)
    ensures
        final(state)@ == update_spec(
            old(state)@,
            task_id@,
            ChangeView::Unknown(reason@),
            now,
        ),
{
    update_task(state, task_id, TaskChange::Unknown(reason), now);
}

/// The state after the worker of a task is gone.
pub open spec fn worker_gone_spec(s: StateView, task_id: Seq<char>, now: u64) -> StateView {
    match s.task(task_id) {
        Some(task) => if is_terminal(task.status) || task.status == "unknown"@ {
            s
        } else {
            update_spec(s, task_id, ChangeView::Unknown("视频 worker 异常退出，等待恢复/核查"@), now)
        },
        None => s,
    }
}

/// The worker of a task is gone: a task that it left open is unknown.
pub fn worker_gone(state: &mut VideoState, task_id: &str, now: u64)
    ensures
        final(state)@ == worker_gone_spec(old(state)@, task_id@, now),
{
    match get(state, task_id) {
        Some(task) => {
            if !is_terminal_status(task.status.as_str()) && !text::same(
                task.status.as_str(),
                "unknown",
            ) {
                mark_native_worker_unknown(
                    state,
                    task_id,
                    "视频 worker 异常退出，等待恢复/核查".to_owned(),
                    now,
                );
            }
        },
        None => {},
    }
}

} // verus!
