//! The worker of one video task: it finds an account that the native upstream
//! serves, reads the upstream's events, and fetches the video.
//!
//! The worker is a state machine. The program around it performs the action
//! that a step asks for, and hands back what came of it.

use crate::json::{Json, JsonView};
use crate::outside;
use crate::text;
use crate::trae_resource_upload::{NativeUploadError, UploadErrorView};
use crate::video::{self, ChangeView, Permit, StateView, TaskChange, VideoState};
use crate::video_events::{self, ErrKind};
use crate::video_request;
use crate::video_store;
use vstd::prelude::*;

verus! {

/// What the worker waits for.
#[derive(Clone, Copy, Debug, PartialEq, Eq, Structural)]
pub enum Phase {
    Preparing,
    Picking,
    Recording,
    Sending,
    Reading,
    Resolving,
    Downloading,
    Over,
}

/// The worker of a task.
#[derive(Debug)]
pub struct NativeWorker {
    pub task_id: String,
    /// The account in use.
    pub uid: String,
    /// The accounts that were used, this one among them.
    pub tried: Vec<String>,
    pub phase: Phase,
    /// What the task fails with where no other account is left.
    pub failure: String,
    /// The event that is being read.
    pub event_name: String,
    pub event_data: String,
}

/// The model of a [`NativeWorker`].
pub struct WorkerView {
    pub task_id: Seq<char>,
    pub uid: Seq<char>,
    pub tried: Seq<Seq<char>>,
    pub phase: Phase,
    pub failure: Seq<char>,
    pub event_name: Seq<char>,
    pub event_data: Seq<char>,
}

impl View for NativeWorker {
    type V = WorkerView;

    open spec fn view(&self) -> WorkerView {
        WorkerView {
            task_id: self.task_id@,
            uid: self.uid@,
            tried: text::views(self.tried@),
            phase: self.phase,
            failure: self.failure@,
            event_name: self.event_name@,
            event_data: self.event_data@,
        }
    }
}

/// What came of the last action.
#[derive(Debug)]
pub enum WorkerEvent {
    /// The request was prepared for the account; a new session id with it.
    Prepared(Json, String),
    /// The request could not be prepared.
    NotPrepared(NativeUploadError),
    /// Another account, or none that was not used yet.
    Picked(Option<String>),
    /// The use of the account was recorded.
    Recorded,
    /// The request could not be bound to a session of its own.
    SessionUnbound,
    /// The use of the account could not be recorded.
    NotRecorded,
    /// An answer with its status, its text and the kind of error it is.
    Answered(u16, String, ErrKind),
    /// No answer came.
    Broken(String),
    /// A line of the event stream.
    Line(String),
    /// The event stream ended.
    StreamEnd,
    /// The address of the resource, where the upstream gave one.
    Resolved(Option<String>),
    /// The video was copied; the base of the addresses that clients are given,
    /// where one is configured.
    Downloaded(Option<String>),
    /// The video could not be copied.
    NotDownloaded(String),
}

/// The model of a [`WorkerEvent`].
pub enum WorkerEventView {
    Prepared(JsonView, Seq<char>),
    NotPrepared(UploadErrorView),
    Picked(Option<Seq<char>>),
    Recorded,
    SessionUnbound,
    NotRecorded,
    Answered(u16, Seq<char>, ErrKind),
    Broken(Seq<char>),
    Line(Seq<char>),
    StreamEnd,
    Resolved(Option<Seq<char>>),
    Downloaded(Option<Seq<char>>),
    NotDownloaded(Seq<char>),
}

impl View for WorkerEvent {
    type V = WorkerEventView;

    open spec fn view(&self) -> WorkerEventView {
        match self {
            WorkerEvent::Prepared(body, session) => WorkerEventView::Prepared(body@, session@),
            WorkerEvent::NotPrepared(error) => WorkerEventView::NotPrepared(error@),
            WorkerEvent::Picked(uid) => WorkerEventView::Picked(text::opt_view(*uid)),
            WorkerEvent::Recorded => WorkerEventView::Recorded,
            WorkerEvent::SessionUnbound => WorkerEventView::SessionUnbound,
            WorkerEvent::NotRecorded => WorkerEventView::NotRecorded,
            WorkerEvent::Answered(status, body, kind) => WorkerEventView::Answered(
                *status,
                body@,
                *kind,
            ),
            WorkerEvent::Broken(error) => WorkerEventView::Broken(error@),
            WorkerEvent::Line(line) => WorkerEventView::Line(line@),
            WorkerEvent::StreamEnd => WorkerEventView::StreamEnd,
            WorkerEvent::Resolved(url) => WorkerEventView::Resolved(text::opt_view(*url)),
            WorkerEvent::Downloaded(base) => WorkerEventView::Downloaded(text::opt_view(*base)),
            WorkerEvent::NotDownloaded(error) => WorkerEventView::NotDownloaded(error@),
        }
    }
}

/// What the account pool is told.
#[derive(Debug)]
pub enum Note {
    Nothing,
    /// The account met an error of that kind.
    Failed(String, ErrKind),
    /// The account met the error in this event; its kind is that of the text.
    FailedWith(String, String),
    /// The account served the request.
    Succeeded(String),
}

/// The model of a [`Note`].
pub enum NoteView {
    Nothing,
    Failed(Seq<char>, ErrKind),
    FailedWith(Seq<char>, Seq<char>),
    Succeeded(Seq<char>),
}

impl View for Note {
    type V = NoteView;

    open spec fn view(&self) -> NoteView {
        match self {
            Note::Nothing => NoteView::Nothing,
            Note::Failed(uid, kind) => NoteView::Failed(uid@, *kind),
            Note::FailedWith(uid, data) => NoteView::FailedWith(uid@, data@),
            Note::Succeeded(uid) => NoteView::Succeeded(uid@),
        }
    }
}

/// What is to be done next.
#[derive(Debug)]
pub enum WorkerAction {
    /// Prepare the request for the account in use.
    Prepare,
    /// Pick an account for work that was not used yet.
    PickAnother,
    /// Record the use of the account for this body, then send it.
    Record(Json),
    /// Send the recorded body.
    Send,
    /// Read the next line.
    Read,
    /// Ask for the address of the resource.
    Resolve(String),
    /// Copy the video at the address.
    Download(String),
    /// Nothing is left to do.
    Stop,
}

/// The model of a [`WorkerAction`].
pub enum WorkerActionView {
    Prepare,
    PickAnother,
    Record(JsonView),
    Send,
    Read,
    Resolve(Seq<char>),
    Download(Seq<char>),
    Stop,
}

impl View for WorkerAction {
    type V = WorkerActionView;

    open spec fn view(&self) -> WorkerActionView {
        match self {
            WorkerAction::Prepare => WorkerActionView::Prepare,
            WorkerAction::PickAnother => WorkerActionView::PickAnother,
            WorkerAction::Record(body) => WorkerActionView::Record(body@),
            WorkerAction::Send => WorkerActionView::Send,
            WorkerAction::Read => WorkerActionView::Read,
            WorkerAction::Resolve(uri) => WorkerActionView::Resolve(uri@),
            WorkerAction::Download(url) => WorkerActionView::Download(url@),
            WorkerAction::Stop => WorkerActionView::Stop,
        }
    }
}

/// A step: the worker and the tasks after it, what the pool is told, and what
/// is to be done next.
pub struct StepView {
    pub worker: WorkerView,
    pub state: StateView,
    pub note: NoteView,
    pub action: WorkerActionView,
}

/// The worker waits for the outcome of an action.
pub open spec fn goes_on(
    w: WorkerView,
    phase: Phase,
    s: StateView,
    note: NoteView,
    action: WorkerActionView,
) -> StepView {
    StepView { worker: WorkerView { phase, ..w }, state: s, note, action }
}

/// The worker is done.
pub open spec fn stops(w: WorkerView, s: StateView, note: NoteView) -> StepView {
    goes_on(w, Phase::Over, s, note, WorkerActionView::Stop)
}

/// The task failed, and the worker is done.
pub open spec fn fails(
    w: WorkerView,
    s: StateView,
    note: NoteView,
    message: Seq<char>,
    now: u64,
) -> StepView {
    stops(w, video::update_spec(s, w.task_id, ChangeView::Failed(message), now), note)
}

/// Another account is asked for; the task fails where none is left.
pub open spec fn asks_for_another(
    w: WorkerView,
    s: StateView,
    note: NoteView,
    message: Seq<char>,
) -> StepView {
    goes_on(
        WorkerView { failure: message, ..w },
        Phase::Picking,
        s,
        note,
        WorkerActionView::PickAnother,
    )
}

/// What a refused request fails with.
pub open spec fn refused_message(status: u16, body: Seq<char>) -> Seq<char> {
    "Seedance 上游 HTTP "@ + text::decimal(status as nat) + ": "@ + text::take(body, 240)
}

/// The event that is being read is taken in: the tasks after it, what the pool
/// is told, and whether the stream is done with.
pub open spec fn event_taken(
    w: WorkerView,
    s: StateView,
    parsed: Result<JsonView, Seq<char>>,
    now_ms: u64,
) -> (StateView, NoteView, bool) {
    if w.event_data.len() == 0 {
        (s, NoteView::Nothing, false)
    } else {
        let note = if w.event_name == "error"@ {
            NoteView::FailedWith(w.uid, w.event_data)
        } else {
            NoteView::Nothing
        };
        let (after, outcome) = video_events::event_applied(
            s,
            w.event_name,
            w.event_data,
            parsed,
            w.task_id,
            now_ms,
        );
        match outcome {
            Ok(done) => (after, note, done),
            Err(error) => (
                video::update_spec(
                    after,
                    w.task_id,
                    ChangeView::Unknown(error),
                    (now_ms / 1000) as u64,
                ),
                note,
                true,
            ),
        }
    }
}

/// The worker after a line that is not blank.
pub open spec fn line_read(w: WorkerView, line: Seq<char>) -> WorkerView {
    if text::starts_with(line, "event:"@) {
        WorkerView {
            event_name: text::trim(line.subrange("event:"@.len() as int, line.len() as int)),
            ..w
        }
    } else if text::starts_with(line, "data:"@) {
        let value = text::trim_start(line.subrange("data:"@.len() as int, line.len() as int));
        WorkerView {
            event_data: if w.event_data.len() == 0 {
                value
            } else {
                w.event_data + "\n"@ + value
            },
            ..w
        }
    } else {
        w
    }
}

/// The stream is done with: a completed task is fetched, and a task that is
/// still running is unknown. An account whose stream ended early met an error.
pub open spec fn stream_done(w: WorkerView, s: StateView, note: NoteView, now: u64) -> StepView {
    match s.task(w.task_id) {
        None => stops(w, s, note),
        Some(task) => if task.status == "completed"@ {
            match task.resource_uri {
                Some(uri) => goes_on(w, Phase::Resolving, s, note, WorkerActionView::Resolve(uri)),
                None => fetches(w, s, note),
            }
        } else if task.status == "processing"@ {
            stops(
                w,
                video::update_spec(
                    s,
                    w.task_id,
                    ChangeView::Unknown("Seedance SSE 在 done 事件前结束，等待上游核查"@),
                    now,
                ),
                NoteView::Failed(w.uid, ErrKind::Server),
            )
        } else {
            stops(w, s, note)
        },
    }
}

/// The video is copied, where it has an address.
pub open spec fn fetches(w: WorkerView, s: StateView, note: NoteView) -> StepView {
    match s.task(w.task_id) {
        Some(task) => match task.video_url {
            Some(url) => goes_on(w, Phase::Downloading, s, note, WorkerActionView::Download(url)),
            None => stops(w, s, NoteView::Succeeded(w.uid)),
        },
        None => stops(w, s, NoteView::Succeeded(w.uid)),
    }
}

/// The event can follow the action that the worker waits for. No account is
/// picked that the worker has used already.
pub open spec fn expected(w: WorkerView, event: WorkerEventView) -> bool {
    match w.phase {
        Phase::Preparing => (event matches WorkerEventView::Prepared(body, _) && body is Object)
            || event is NotPrepared,
        Phase::Picking => {
            &&& event matches WorkerEventView::Picked(uid)
            &&& uid matches Some(uid) ==> !w.tried.contains(uid)
        },
        Phase::Recording => event is Recorded || event is SessionUnbound || event is NotRecorded,
        Phase::Sending => event is Answered || event is Broken,
        Phase::Reading => event is Line || event is StreamEnd,
        Phase::Resolving => event is Resolved,
        Phase::Downloading => event is Downloaded || event is NotDownloaded,
        Phase::Over => false,
    }
}

/// The next step of a worker. `parsed` is the document in the data of the
/// event that is being read.
pub open spec fn worker_step(
    w: WorkerView,
    s: StateView,
    event: WorkerEventView,
    parsed: Result<JsonView, Seq<char>>,
    now_ms: u64,
) -> StepView {
    let now = (now_ms / 1000) as u64;
    match event {
        WorkerEventView::Prepared(body, session) => goes_on(
            w,
            Phase::Recording,
            s,
            NoteView::Nothing,
            WorkerActionView::Record(video_request::native_body(body, session)),
        ),
        WorkerEventView::NotPrepared(error) => if error.retryable_account {
            asks_for_another(
                w,
                s,
                NoteView::Failed(w.uid, ErrKind::SessionDead),
                error.message,
            )
        } else {
            fails(w, s, NoteView::Nothing, error.message, now)
        },
        WorkerEventView::Picked(uid) => match uid {
            Some(uid) => goes_on(
                WorkerView { uid, tried: w.tried.push(uid), ..w },
                Phase::Preparing,
                s,
                NoteView::Nothing,
                WorkerActionView::Prepare,
            ),
            None => fails(w, s, NoteView::Nothing, w.failure, now),
        },
        WorkerEventView::Recorded => goes_on(
            w,
            Phase::Sending,
            s,
            NoteView::Nothing,
            WorkerActionView::Send,
        ),
        WorkerEventView::SessionUnbound => fails(
            w,
            s,
            NoteView::Nothing,
            "Core 请求无法建立独立的上游用量会话，已阻止未记录的上游调用"@,
            now,
        ),
        WorkerEventView::NotRecorded => fails(
            w,
            s,
            NoteView::Nothing,
            "Core 请求与上游会话归因暂不可用，已阻止未记录的上游调用"@,
            now,
        ),
        WorkerEventView::Answered(status, body, kind) => if 200 <= status < 300 {
            goes_on(
                WorkerView { event_name: Seq::empty(), event_data: Seq::empty(), ..w },
                Phase::Reading,
                video::update_spec(s, w.task_id, ChangeView::Status("processing"@), now),
                NoteView::Nothing,
                WorkerActionView::Read,
            )
        } else if video_events::account_specific(kind) {
            asks_for_another(
                w,
                s,
                NoteView::Failed(w.uid, kind),
                refused_message(status, body),
            )
        } else {
            fails(w, s, NoteView::Failed(w.uid, kind), refused_message(status, body), now)
        },
        WorkerEventView::Broken(error) => stops(
            w,
            video::update_spec(
                s,
                w.task_id,
                ChangeView::Unknown("Seedance 上游连接结果未知: "@ + error),
                now,
            ),
            NoteView::Failed(w.uid, ErrKind::Server),
        ),
        WorkerEventView::Line(line) => if text::trim(line).len() == 0 {
            let (after, note, done) = event_taken(w, s, parsed, now_ms);
            let cleared = WorkerView { event_name: Seq::empty(), event_data: Seq::empty(), ..w };
            if done {
                stream_done(cleared, after, note, now)
            } else {
                goes_on(cleared, Phase::Reading, after, note, WorkerActionView::Read)
            }
        } else {
            goes_on(
                line_read(w, line),
                Phase::Reading,
                s,
                NoteView::Nothing,
                WorkerActionView::Read,
            )
        },
        WorkerEventView::StreamEnd => {
            let (after, note, _done) = event_taken(w, s, parsed, now_ms);
            stream_done(w, after, note, now)
        },
        WorkerEventView::Resolved(url) => fetches(
            w,
            match url {
                Some(url) => video::update_spec(s, w.task_id, ChangeView::VideoUrl(url), now),
                None => s,
            },
            NoteView::Nothing,
        ),
        WorkerEventView::Downloaded(base) => stops(
            w,
            video::update_spec(
                s,
                w.task_id,
                ChangeView::Cached(video_store::content_address(w.task_id, base)),
                now,
            ),
            NoteView::Succeeded(w.uid),
        ),
        WorkerEventView::NotDownloaded(error) => stops(
            w,
            video::update_spec(
                s,
                w.task_id,
                ChangeView::CacheFailed(text::take(error, 240)),
                now,
            ),
            NoteView::Succeeded(w.uid),
        ),
    }
}

/// The first step of a worker: the permit moves to the task. A task that holds
/// one already is not started twice.
pub open spec fn worker_started(
    s: StateView,
    task_id: Seq<char>,
    uid: Seq<char>,
    permit: Seq<char>,
    now: u64,
) -> StepView {
    let w = WorkerView {
        task_id,
        uid,
        tried: seq![uid],
        phase: Phase::Preparing,
        failure: Seq::empty(),
        event_name: Seq::empty(),
        event_data: Seq::empty(),
    };
    if s.holds_permit(task_id) {
        fails(w, s, NoteView::Nothing, "视频任务许可重复绑定"@, now)
    } else {
        goes_on(
            w,
            Phase::Preparing,
            video::retain_spec(s, task_id, permit),
            NoteView::Nothing,
            WorkerActionView::Prepare,
        )
    }
}

/// Starts the worker of a task with its first account.
pub fn start_native_task(
    state: &mut VideoState,
    task_id: String,
    uid: String,
    permit: Permit,
    now: u64,
) -> (r: (NativeWorker, WorkerAction))
    ensures
        (StepView {
            worker: r.0@,
            state: final(state)@,
            note: NoteView::Nothing,
            action: r.1@,
        }) == worker_started(old(state)@, task_id@, uid@, permit@, now),
{
    let mut tried: Vec<String> = Vec::new();
    tried.push(uid.clone());
    assert(text::views(tried@) =~= seq![uid@]);
    let retained = video::retain_job_permit(state, task_id.as_str(), permit);
    let phase = if retained {
        Phase::Preparing
    } else {
        Phase::Over
    };
    let action = if retained {
        WorkerAction::Prepare
    } else {
        video::update_task(
            state,
            task_id.as_str(),
            TaskChange::Failed("视频任务许可重复绑定".to_owned()),
            now,
        );
        WorkerAction::Stop
    };
    let worker = NativeWorker {
        task_id,
        uid,
        tried,
        phase,
        failure: String::new(),
        event_name: String::new(),
        event_data: String::new(),
    };
    (worker, action)
}

fn fail_task(worker: &mut NativeWorker, state: &mut VideoState, message: String, now: u64) -> (r:
    WorkerAction)
    ensures
        (StepView {
            worker: final(worker)@,
            state: final(state)@,
            note: NoteView::Nothing,
            action: r@,
        }) == fails(old(worker)@, old(state)@, NoteView::Nothing, message@, now),
{
    video::update_task(state, worker.task_id.as_str(), TaskChange::Failed(message), now);
    worker.phase = Phase::Over;
    WorkerAction::Stop
}

fn ask_for_another(worker: &mut NativeWorker, message: String) -> (r: WorkerAction)
    ensures
        r@ is PickAnother,
        final(worker)@ == (WorkerView {
            failure: message@,
            phase: Phase::Picking,
            ..old(worker)@
        }),
{
    worker.failure = message;
    worker.phase = Phase::Picking;
    WorkerAction::PickAnother
}

/// What a refused request fails with.
pub fn refusal_text(status: u16, body: &str) -> (r: String)
    ensures
        r@ == refused_message(status, body@),
{
    let mut message = text::join3(
        "Seedance 上游 HTTP ",
        text::decimal_text(status as u64).as_str(),
        ": ",
    );
    message.push_str(text::taken(body, 240).as_str());
    message
}

fn take_event(
    worker: &NativeWorker,
    state: &mut VideoState,
    parsed: Result<Json, String>,
    now_ms: u64,
) -> (r: (Note, bool))
    ensures
        (final(state)@, r.0@, r.1) == event_taken(
            worker@,
            old(state)@,
            outside::result_model(parsed),
            now_ms,
        ),
{
    if worker.event_data.as_str().is_empty() {
        return (Note::Nothing, false);
    }
    let note = if text::same(worker.event_name.as_str(), "error") {
        Note::FailedWith(worker.uid.clone(), worker.event_data.clone())
    } else {
        Note::Nothing
    };
    let outcome = video_events::apply_sse_event(
        state,
        worker.event_name.as_str(),
        worker.event_data.as_str(),
        parsed,
        worker.task_id.as_str(),
        now_ms,
    );
    match outcome {
        Ok(done) => (note, done),
        Err(error) => {
            video::mark_native_worker_unknown(
                state,
                worker.task_id.as_str(),
                error,
                now_ms / 1000,
            );
            (note, true)
        },
    }
}

fn read_line(worker: &mut NativeWorker, line: &str)
    ensures
        final(worker)@ == line_read(old(worker)@, line@),
{
    if let Some(value) = text::strip(line, "event:") {
        worker.event_name = text::trimmed(value).to_owned();
    } else if let Some(value) = text::strip(line, "data:") {
        let value = text::trimmed_start(value);
        if worker.event_data.as_str().is_empty() {
            assert(worker.event_data@ =~= Seq::empty());
            worker.event_data = value.to_owned();
        } else {
            worker.event_data.push_str("\n");
            worker.event_data.push_str(value);
        }
    }
}

fn fetch_video(worker: &mut NativeWorker, state: &VideoState, note: Note) -> (r: (
    Note,
    WorkerAction,
))
    ensures
        (StepView {
            worker: final(worker)@,
            state: state@,
            note: r.0@,
            action: r.1@,
        }) == fetches(old(worker)@, state@, note@),
{
    let url = match video::get(state, worker.task_id.as_str()) {
        Some(task) => task.video_url,
        None => None,
    };
    match url {
        Some(url) => {
            worker.phase = Phase::Downloading;
            (note, WorkerAction::Download(url))
        },
        None => {
            worker.phase = Phase::Over;
            (Note::Succeeded(worker.uid.clone()), WorkerAction::Stop)
        },
    }
}

fn end_stream(worker: &mut NativeWorker, state: &mut VideoState, note: Note, now: u64) -> (r: (
    Note,
    WorkerAction,
))
    ensures
        (StepView {
            worker: final(worker)@,
            state: final(state)@,
            note: r.0@,
            action: r.1@,
        }) == stream_done(old(worker)@, old(state)@, note@, now),
{
    let task = match video::get(state, worker.task_id.as_str()) {
        Some(task) => task,
        None => {
            worker.phase = Phase::Over;
            return (note, WorkerAction::Stop);
        },
    };
    if text::same(task.status.as_str(), "completed") {
        match task.resource_uri {
            Some(uri) => {
                worker.phase = Phase::Resolving;
                (note, WorkerAction::Resolve(uri))
            },
            None => fetch_video(worker, state, note),
        }
    } else if text::same(task.status.as_str(), "processing") {
        video::mark_native_worker_unknown(
            state,
            worker.task_id.as_str(),
            "Seedance SSE 在 done 事件前结束，等待上游核查".to_owned(),
            now,
        );
        worker.phase = Phase::Over;
        (Note::Failed(worker.uid.clone(), ErrKind::Server), WorkerAction::Stop)
    } else {
        worker.phase = Phase::Over;
        (note, WorkerAction::Stop)
    }
}

/// The next step of a worker, where the data of the event that is being read
/// was read as `parsed`.
pub fn native_step_parsed(
    worker: &mut NativeWorker,
    state: &mut VideoState,
    event: WorkerEvent,
    parsed: Result<Json, String>,
    now_ms: u64,
) -> (r: (Note, WorkerAction))
    requires
        expected(old(worker)@, event@),
    ensures
        (StepView {
            worker: final(worker)@,
            state: final(state)@,
            note: r.0@,
            action: r.1@,
        }) == worker_step(
            old(worker)@,
            old(state)@,
            event@,
            outside::result_model(parsed),
            now_ms,
        ),
{
    let now: u64 = now_ms / 1000;
    match event {
        WorkerEvent::Prepared(body, session) => {
            worker.phase = Phase::Recording;
            (
                Note::Nothing,
                WorkerAction::Record(video_request::build_request_body(&body, session.as_str())),
            )
        },
        WorkerEvent::NotPrepared(error) => {
            if error.retryable_account {
                let note = Note::Failed(worker.uid.clone(), ErrKind::SessionDead);
                let action = ask_for_another(worker, error.message);
                (note, action)
            } else {
                let action = fail_task(worker, state, error.message, now);
                (Note::Nothing, action)
            }
        },
        WorkerEvent::Picked(uid) => match uid {
            Some(uid) => {
                let ghost before = text::views(worker.tried@);
                worker.tried.push(uid.clone());
                assert(text::views(worker.tried@) =~= before.push(uid@));
                worker.uid = uid;
                worker.phase = Phase::Preparing;
                (Note::Nothing, WorkerAction::Prepare)
            },
            None => {
                let message = worker.failure.clone();
                let action = fail_task(worker, state, message, now);
                (Note::Nothing, action)
            },
        },
        WorkerEvent::Recorded => {
            worker.phase = Phase::Sending;
            (Note::Nothing, WorkerAction::Send)
        },
        WorkerEvent::SessionUnbound => {
            let message = "Core 请求无法建立独立的上游用量会话，已阻止未记录的上游调用".to_owned();
            let action = fail_task(worker, state, message, now);
            (Note::Nothing, action)
        },
        WorkerEvent::NotRecorded => {
            let message = "Core 请求与上游会话归因暂不可用，已阻止未记录的上游调用".to_owned();
            let action = fail_task(worker, state, message, now);
            (Note::Nothing, action)
        },
        WorkerEvent::Answered(status, body, kind) => {
            if 200 <= status && status < 300 {
                worker.event_name = String::new();
                worker.event_data = String::new();
                video::update_task(
                    state,
                    worker.task_id.as_str(),
                    TaskChange::Status("processing".to_owned()),
                    now,
                );
                worker.phase = Phase::Reading;
                (Note::Nothing, WorkerAction::Read)
            } else {
                let note = Note::Failed(worker.uid.clone(), kind);
                let message = refusal_text(status, body.as_str());
                let action = if video_events::retryable_account_error(kind) {
                    ask_for_another(worker, message)
                } else {
                    fail_task(worker, state, message, now)
                };
                (note, action)
            }
        },
        WorkerEvent::Broken(error) => {
            video::mark_native_worker_unknown(
                state,
                worker.task_id.as_str(),
                text::join2("Seedance 上游连接结果未知: ", error.as_str()),
                now,
            );
            worker.phase = Phase::Over;
            (Note::Failed(worker.uid.clone(), ErrKind::Server), WorkerAction::Stop)
        },
        WorkerEvent::Line(line) => {
            if text::blank(line.as_str()) {
                let (note, done) = take_event(worker, state, parsed, now_ms);
                worker.event_name = String::new();
                worker.event_data = String::new();
                if done {
                    end_stream(worker, state, note, now)
                } else {
                    (note, WorkerAction::Read)
                }
            } else {
                read_line(worker, line.as_str());
                (Note::Nothing, WorkerAction::Read)
            }
        },
        WorkerEvent::StreamEnd => {
            let (note, _done) = take_event(worker, state, parsed, now_ms);
            end_stream(worker, state, note, now)
        },
        WorkerEvent::Resolved(url) => {
            if let Some(url) = url {
                video::update_task(state, worker.task_id.as_str(), TaskChange::VideoUrl(url), now);
            }
            fetch_video(worker, state, Note::Nothing)
        },
        WorkerEvent::Downloaded(base) => {
            let base = match &base {
                Some(base) => Some(base.as_str()),
                None => None,
            };
            let url = match video_store::content_url(worker.task_id.as_str(), base) {
                Ok(url) => Some(url),
                Err(_) => None,
            };
            video::update_task(state, worker.task_id.as_str(), TaskChange::Cached(url), now);
            worker.phase = Phase::Over;
            (Note::Succeeded(worker.uid.clone()), WorkerAction::Stop)
        },
        WorkerEvent::NotDownloaded(error) => {
            let reason = text::taken(error.as_str(), 240);
            video::update_task(
                state,
                worker.task_id.as_str(),
                TaskChange::CacheFailed(reason),
                now,
            );
            worker.phase = Phase::Over;
            (Note::Succeeded(worker.uid.clone()), WorkerAction::Stop)
        },
    }
}

/// The next step of a worker.
pub fn native_step(
    worker: &mut NativeWorker,
    state: &mut VideoState,
    event: WorkerEvent,
    now_ms: u64,
) -> (r: (Note, WorkerAction))
    requires
        expected(old(worker)@, event@),
    ensures
        (StepView {
            worker: final(worker)@,
            state: final(state)@,
            note: r.0@,
            action: r.1@,
        }) == worker_step(
            old(worker)@,
            old(state)@,
            event@,
            outside::json_of_text(old(worker)@.event_data),
            now_ms,
        ),
{
    let parsed = outside::parse_text(worker.event_data.as_str());
    native_step_parsed(worker, state, event, parsed, now_ms)
}

/// The address of a resource in the reply of the upstream.
pub open spec fn resolved_address(value: JsonView, uri: Seq<char>) -> Option<Seq<char>> {
    match value.get("url_map"@) {
        Some(map) => match map.text_at(uri) {
            Some(url) => if text::starts_with(url, "https://"@) {
                Some(url)
            } else {
                None
            },
            None => None,
        },
        None => None,
    }
}

/// Reads the address of a resource in the reply of the upstream.
pub fn resolve_resource_url(value: &Json, uri: &str) -> (r: Result<String, String>)
    ensures
        match r {
            Ok(url) => resolved_address(value@, uri@) == Some(url@),
            Err(error) => resolved_address(value@, uri@) is None && error@
                == "上游未返回可用视频地址"@,
        },
{
    let url = match value.get("url_map") {
        Some(map) => map.str_at(uri),
        None => None,
    };
    if let Some(url) = url {
        if text::begins_with(url, "https://") {
            return Ok(url.to_owned());
        }
    }
    Err("上游未返回可用视频地址".to_owned())
}

/// A task is not started twice: a second worker only fails, and the permit of
/// the first stays.
pub proof fn law_no_second_worker(
    s: StateView,
    task_id: Seq<char>,
    uid: Seq<char>,
    permit: Seq<char>,
    now: u64,
)
    requires
        s.holds_permit(task_id),
    ensures
        worker_started(s, task_id, uid, permit, now).action is Stop,
        s.task(task_id) is None ==> worker_started(s, task_id, uid, permit, now).state == s,
{
}

/// The accounts that a worker has used only grow, and the one in use is among
/// them.
pub proof fn law_used_accounts_are_remembered(
    w: WorkerView,
    s: StateView,
    event: WorkerEventView,
    parsed: Result<JsonView, Seq<char>>,
    now_ms: u64,
)
    requires
        w.tried.contains(w.uid),
    ensures
        ({
            let after = worker_step(w, s, event, parsed, now_ms).worker;
            &&& after.tried.contains(after.uid)
            &&& forall|uid: Seq<char>| w.tried.contains(uid) ==> after.tried.contains(uid)
        }),
{
    let after = worker_step(w, s, event, parsed, now_ms).worker;
    if let WorkerEventView::Picked(Some(uid)) = event {
        assert(after.tried[w.tried.len() as int] == uid);
        assert forall|other: Seq<char>| w.tried.contains(other) implies after.tried.contains(
            other,
        ) by {
            let i = choose|i: int| 0 <= i < w.tried.len() && w.tried[i] == other;
            assert(after.tried[i] == other);
        }
    } else {
        assert(after.tried == w.tried && after.uid == w.uid);
    }
}

/// A worker uses no account twice.
pub proof fn law_no_account_is_used_twice(
    w: WorkerView,
    s: StateView,
    event: WorkerEventView,
    parsed: Result<JsonView, Seq<char>>,
    now_ms: u64,
)
    requires
        expected(w, event),
        w.tried.no_duplicates(),
    ensures
        worker_step(w, s, event, parsed, now_ms).worker.tried.no_duplicates(),
{
    if let WorkerEventView::Picked(Some(uid)) = event {
        let after = w.tried.push(uid);
        assert forall|i: int, j: int|
            0 <= i < after.len() && 0 <= j < after.len() && i != j implies after[i] != after[j] by {
            if i == w.tried.len() {
                assert(w.tried.contains(w.tried[j]));
            } else if j == w.tried.len() {
                assert(w.tried.contains(w.tried[i]));
            }
        }
    } else {
        assert(worker_step(w, s, event, parsed, now_ms).worker.tried == w.tried);
    }
}

/// A worker starts with one account, which counts as used.
pub proof fn law_the_first_account_is_used_once(
    s: StateView,
    task_id: Seq<char>,
    uid: Seq<char>,
    permit: Seq<char>,
    now: u64,
)
    ensures
        worker_started(s, task_id, uid, permit, now).worker.tried.no_duplicates(),
        worker_started(s, task_id, uid, permit, now).worker.tried.contains(uid),
{
    assert(worker_started(s, task_id, uid, permit, now).worker.tried[0] == uid);
}

/// A connection that broke never fails the task: what became of it is unknown.
pub proof fn law_broken_connection_is_unknown(
    w: WorkerView,
    s: StateView,
    error: Seq<char>,
    parsed: Result<JsonView, Seq<char>>,
    now_ms: u64,
)
    requires
        s.task(w.task_id) matches Some(task) && !video::is_terminal(task.status),
    ensures
        worker_step(w, s, WorkerEventView::Broken(error), parsed, now_ms).state.task(
            w.task_id,
        ) matches Some(task) && task.status == "unknown"@,
{
    let now = (now_ms / 1000) as u64;
    let change = ChangeView::Unknown("Seedance 上游连接结果未知: "@ + error);
    let t = video::TaskView { updated_at: now, ..video::changed(s.task(w.task_id)->0, change) };
    crate::table::lemma_find_put(s.tasks, w.task_id, t);
}

} // verus!
