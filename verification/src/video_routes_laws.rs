//! What holds of the endpoints of videos.

use crate::access::{self, Capability};
use crate::core_routes;
use crate::core_types::CoreMode;
use crate::core_video::{self, BundleView};
use crate::json::{self, JsonView};
use crate::reply::{self, LimitView, Protocol, ReplyView};
use crate::table;
use crate::text;
use crate::text_chat_laws;
use crate::video::{self, BillingStatus, CreateView, ReceiptView, StateView, TaskView};
use crate::video_native::WorkerActionView;
use crate::video_request;
use crate::video_routes::{
    self, ContentView, ReadGateView, VideoActionView, VideoEventView, VideoInputView, VideoStage,
    VideoSubmissionView,
};
use crate::video_store::{self, PathView};
use crate::video_task_laws;
use vstd::prelude::*;

verus! {

/// What an object says of a name after a member that may be missing.
pub broadcast proof fn lemma_get_maybe(
    document: JsonView,
    key: Seq<char>,
    value: Option<JsonView>,
    name: Seq<char>,
)
    requires
        document is Object,
    ensures
        core_video::and_maybe(document, key, value) is Object,
        #[trigger] core_video::and_maybe(document, key, value).get(name) == (match document.get(
            name,
        ) {
            Some(found) => Some(found),
            None => if key == name {
                value
            } else {
                None
            },
        }),
{
    broadcast use crate::json::group_members;

}

/// A client reads of a receipt all that is known of the charge.
pub proof fn law_a_client_reads_its_receipt(r: ReceiptView)
    ensures
        ({
            let d = video_routes::receipt_document(r);
            &&& d.text_at("status"@) == Some(
                match r.status {
                    BillingStatus::Absent => "absent"@,
                    BillingStatus::Unverified => "unverified"@,
                    BillingStatus::Verified => "verified"@,
                },
            )
            &&& d.text_at("actual_credits"@) == r.actual_credits
            &&& d.text_at("unit"@) == r.unit
            &&& d.text_at("source"@) == r.source
            &&& d.text_at("task_ref"@) == r.task_ref
            &&& d.unsigned_at("observed_at_ms"@) == Some(r.observed_at_ms)
        }),
{
    broadcast use crate::json::group_members;

    reveal_strlit("status");
    reveal_strlit("actual_credits");
    reveal_strlit("unit");
    reveal_strlit("source");
    reveal_strlit("task_ref");
    reveal_strlit("observed_at_ms");
    assert("status"@.len() == 6);
    assert("actual_credits"@.len() == 14);
    assert("unit"@.len() == 4);
    assert("source"@.len() == 6);
    assert("task_ref"@.len() == 8);
    assert("observed_at_ms"@.len() == 14);
    assert("status"@[1] != "source"@[1]);
    assert("actual_credits"@[0] != "observed_at_ms"@[0]);
}

/// A client reads of a task all that concerns the client: every field that the
/// task has, and no field that it has not.
pub proof fn law_a_client_reads_its_task(t: TaskView)
    ensures
        ({
            let d = video_routes::task_document(t);
            &&& d.text_at("id"@) == Some(t.id)
            &&& d.text_at("object"@) == Some(t.object)
            &&& d.text_at("model"@) == Some(t.model)
            &&& d.text_at("status"@) == Some(t.status)
            &&& d.text_at("prompt"@) == Some(t.prompt)
            &&& d.unsigned_at("created_at"@) == Some(t.created_at)
            &&& d.unsigned_at("updated_at"@) == Some(t.updated_at)
            &&& d.text_at("error"@) == t.error
            &&& d.text_at("transport"@) == Some(t.transport)
            &&& d.text_at("video_url"@) == t.video_url
            &&& d.text_at("resource_uri"@) == t.resource_uri
            &&& d.text_at("content_url"@) == t.content_url
            &&& d.text_at("artifact_error"@) == t.artifact_error
            &&& t.video_duration matches Some(n) ==> d.get("video_duration"@) == Some(
                JsonView::Number(n),
            )
            &&& d.get("billing"@) == Some(video_routes::receipt_document(t.billing))
            &&& t.error is None ==> d.get("error"@) is None
            &&& t.video_url is None ==> d.get("video_url"@) is None
            &&& t.resource_uri is None ==> d.get("resource_uri"@) is None
            &&& t.video_duration is None ==> d.get("video_duration"@) is None
            &&& t.content_url is None ==> d.get("content_url"@) is None
            &&& t.artifact_error is None ==> d.get("artifact_error"@) is None
            &&& d.get("owner_key_id"@) is None && d.get("request_key"@) is None
        }),
{
    broadcast use crate::json::group_members, lemma_get_maybe;

    reveal_strlit("id");
    reveal_strlit("object");
    reveal_strlit("model");
    reveal_strlit("status");
    reveal_strlit("prompt");
    reveal_strlit("created_at");
    reveal_strlit("updated_at");
    reveal_strlit("error");
    reveal_strlit("transport");
    reveal_strlit("video_url");
    reveal_strlit("resource_uri");
    reveal_strlit("video_duration");
    reveal_strlit("content_url");
    reveal_strlit("artifact_error");
    reveal_strlit("billing");
    reveal_strlit("owner_key_id");
    reveal_strlit("request_key");
    assert("id"@.len() == 2);
    assert("object"@.len() == 6);
    assert("model"@.len() == 5);
    assert("status"@.len() == 6);
    assert("prompt"@.len() == 6);
    assert("created_at"@.len() == 10);
    assert("updated_at"@.len() == 10);
    assert("error"@.len() == 5);
    assert("transport"@.len() == 9);
    assert("video_url"@.len() == 9);
    assert("resource_uri"@.len() == 12);
    assert("video_duration"@.len() == 14);
    assert("content_url"@.len() == 11);
    assert("artifact_error"@.len() == 14);
    assert("billing"@.len() == 7);
    assert("owner_key_id"@.len() == 12);
    assert("request_key"@.len() == 11);
    assert("object"@[0] != "status"@[0]);
    assert("object"@[0] != "prompt"@[0]);
    assert("model"@[0] != "error"@[0]);
    assert("status"@[0] != "prompt"@[0]);
    assert("created_at"@[0] != "updated_at"@[0]);
    assert("transport"@[0] != "video_url"@[0]);
    assert("resource_uri"@[0] != "owner_key_id"@[0]);
    assert("video_duration"@[0] != "artifact_error"@[0]);
    assert("content_url"@[0] != "request_key"@[0]);
}

/// A submission is answered with the task, as accepted and not as done, and
/// says so where it came before.
pub proof fn law_a_submission_is_answered_with_its_task(
    task: TaskView,
    key_id: Seq<char>,
    replay: bool,
)
    ensures
        ({
            let answer = video_routes::submitted_reply(task, key_id, replay);
            &&& answer.status == 202
            &&& answer.body.get("task"@) == Some(video_routes::task_document(task))
            &&& answer.body.text_at("request_key"@) == Some(key_id)
            &&& replay ==> answer.body.bool_at("idempotent_replay"@) == Some(true)
            &&& !replay ==> answer.body.get("idempotent_replay"@) is None
        }),
{
    broadcast use crate::json::group_members;

    reveal_strlit("task");
    reveal_strlit("request_key");
    reveal_strlit("idempotent_replay");
    assert("task"@.len() == 4);
    assert("request_key"@.len() == 11);
    assert("idempotent_replay"@.len() == 17);
}

/// A submission is let in by the policy of its key where Core does not rule,
/// and else by Core alone. It goes on only with a body that can be read and is
/// in order, and with the model, the prompt and the limits that it came with; a
/// submission that came before is answered with its task.
pub proof fn law_a_submission_is_let_in(
    s: StateView,
    input: VideoInputView,
    size: usize,
    parsed: Result<JsonView, Seq<char>>,
    scoped: Option<Seq<char>>,
)
    ensures
        ({
            let step = video_routes::video_opened(s, input, size, parsed, scoped);
            let core = input.core == Some(CoreMode::Enforce);
            let admitted = access::admission(
                input.caller.name(),
                input.caller.policy,
                Capability::Video,
            );
            &&& core && input.caller.principal is Some ==> step.action is Core && !step.counted
            &&& core && input.caller.principal is None ==> !step.counted && (
            step.action matches VideoActionView::Answer(answer) && text_chat_laws::is_error(
                answer,
                401,
                "unauthorized"@,
            ))
            &&& step.action is Core ==> core
            &&& !core && admitted is Err ==> !step.counted && step.action
                == VideoActionView::Answer(admitted->Err_0)
            &&& !core && admitted is Ok ==> step.counted
            &&& !core && admitted is Ok && size > 8 * 1024 * 1024 ==> (
            step.action matches VideoActionView::Answer(answer) && text_chat_laws::is_error(
                answer,
                413,
                "request_too_large"@,
            ))
            &&& !core && admitted is Ok && size <= 8 * 1024 * 1024 && (parsed is Err
                || video_request::accepted(parsed->Ok_0, input.allow_http) is Err) ==> (
            step.action matches VideoActionView::Answer(answer) && text_chat_laws::is_error(
                answer,
                400,
                "invalid_request_error"@,
            ))
            &&& step.action matches VideoActionView::Limit(limits, bytes) ==> {
                &&& admitted == Ok::<access::KeyLimits, ReplyView>(limits) && bytes == size
                &&& parsed matches Ok(body)
                &&& video_request::accepted(body, input.allow_http) == Ok::<
                    (Seq<char>, Seq<char>),
                    Seq<char>,
                >((step.submission.model, step.submission.prompt))
                &&& step.submission.key_id == input.caller.name()
                &&& step.submission.limits == limits
                &&& step.submission.replay_key == scoped
                &&& scoped matches Some(key) ==> video::replayed(s, key) is None
            }
            &&& !core && admitted is Ok && size <= 8 * 1024 * 1024 ==> (parsed matches Ok(body) ==> (
            video_request::accepted(body, input.allow_http) is Ok ==> match scoped {
                Some(key) => match video::replayed(s, key) {
                    Some(task) => step.action == VideoActionView::Answer(
                        video_routes::submitted_reply(task, input.caller.name(), true),
                    ),
                    None => step.action is Limit,
                },
                None => step.action is Limit,
            }))
        }),
{
    broadcast use text_chat_laws::lemma_openai_error, text_chat_laws::lemma_protocol_error;

    lemma_openai_form();
}

proof fn lemma_openai_form()
    ensures
        forall|status: u16, code: Seq<char>, kind: Seq<char>, message: Seq<char>|
            #[trigger] reply::protocol_reply(Protocol::OpenAi, status, code, kind, message)
                == reply::openai(status, code, message),
{
}

/// The key by which a submission is known again is its own key, and else the
/// name of its request, within the key of its caller.
pub proof fn law_a_submission_is_known_by_its_key(input: VideoInputView, key: Seq<char>)
    requires
        text::trim(key).len() > 0,
    ensures
        input.idempotency_key == Some(key) ==> video_routes::replay_key(input) == Some(
            video::scoped_key(input.caller.name(), text::trim(key)),
        ),
        input.idempotency_key is None && input.request_id == Some(key) ==> video_routes::replay_key(
            input,
        ) == Some(video::scoped_key(input.caller.name(), text::trim(key))),
        input.idempotency_key is None && input.request_id is None ==> video_routes::replay_key(
            input,
        ) is None,
{
}

/// A submission that was let in takes a permit for itself and one for its job,
/// then an account, and only then becomes a task: with its own model and
/// prompt, for its own key, held in the queue, and started with that account
/// and the key's permit. What stands in its way is told, and makes no task.
pub proof fn law_a_submission_becomes_a_task(
    v: VideoSubmissionView,
    s: StateView,
    event: VideoEventView,
)
    requires
        video_routes::expected(v.stage, event),
    ensures
        ({
            let (after, state, action) = video_routes::video_step(v, s, event);
            &&& event == VideoEventView::Guarded(None) && v.stage == VideoStage::Limiting ==> action
                == VideoActionView::Permit(v.limits) && state == s
            &&& event == VideoEventView::Guarded(None) && v.stage == VideoStage::Permitting
                ==> action is Pick && state == s
            &&& event matches VideoEventView::Guarded(Some(error)) ==> action
                == VideoActionView::Answer(reply::limit_reply(error)) && state == s
            &&& event matches VideoEventView::Picked(None, _) ==> state == s && (
            action matches VideoActionView::Answer(answer) && text_chat_laws::is_error(
                answer,
                503,
                "no_work_credits"@,
            ))
            &&& event matches VideoEventView::Picked(Some(uid), now_ms) ==> {
                let known = v.replay_key matches Some(key) && video::replayed(s, key) is Some;
                &&& known ==> state == s && (action matches VideoActionView::Answer(answer)
                    && answer.status == 202 && answer == video_routes::submitted_reply(
                    video::replayed(s, v.replay_key->0)->0,
                    v.key_id,
                    true,
                ))
                &&& action is Start ==> !known
                &&& action matches VideoActionView::Start(worker, first, note, answer) ==> {
                    &&& worker.uid == uid
                    &&& answer.status == 202
                    &&& answer.body.get("task"@) matches Some(shown)
                    &&& shown.text_at("id"@) == Some(worker.task_id)
                    &&& shown.text_at("model"@) == Some(v.model)
                    &&& shown.text_at("prompt"@) == Some(v.prompt)
                    &&& shown.text_at("status"@) == Some("queued"@)
                    &&& note.status == 202 && note.model == v.model && !note.stream
                    &&& note.path == "/v1/videos/generations"@ && note.method == "POST"@
                    &&& first is Prepare ==> table::find(state.permits, worker.task_id) == Some(
                        v.key_id,
                    )
                }
                &&& !known ==> action is Start
            }
        }),
{
    broadcast use text_chat_laws::lemma_openai_error;

    if let VideoEventView::Picked(Some(uid), now_ms) = event {
        video_task_laws::law_a_replay_key_leads_to_its_task(
            s,
            v.model,
            v.prompt,
            v.key_id,
            v.replay_key,
            now_ms,
        );
        let (made, outcome) = video::create_or_replay(
            s,
            v.model,
            v.prompt,
            v.key_id,
            v.replay_key,
            now_ms,
        );
        if v.replay_key is Some {
            text::lemma_trim_twice(v.replay_key->0);
        }
        if let CreateView::Created(task) = outcome {
            law_a_client_reads_its_task(task);
            law_a_submission_is_answered_with_its_task(task, v.key_id, false);
            video_task_laws::law_a_task_is_started_with_its_permit(
                made,
                task.id,
                uid,
                v.key_id,
                (now_ms / 1000) as u64,
            );
        }
        if let CreateView::Existing(task) = outcome {
            law_a_submission_is_answered_with_its_task(task, v.key_id, true);
        }
    }
}

/// A client that may see a task is shown the task as it is; where the gateway
/// holds a copy of the video, the address of the copy is shown with it.
pub proof fn law_a_client_is_shown_its_task(
    s: StateView,
    key_id: Seq<char>,
    task_id: Seq<char>,
    copied: bool,
    base: Option<Seq<char>>,
    task: TaskView,
)
    requires
        s.task(task_id) == Some(task),
    ensures
        ({
            let answer = video_routes::task_reply(s, key_id, task_id, copied, base);
            let own = text::trim(task.owner_key_id) == task.owner_key_id && (task.owner_key_id
                == text::trim(key_id) && text::trim(key_id).len() > 0);
            &&& own ==> answer.status == 200
            &&& own ==> answer.body.text_at("id"@) == Some(task.id)
            &&& own ==> answer.body.text_at("status"@) == Some(task.status)
            &&& own ==> answer.body.text_at("prompt"@) == Some(task.prompt)
            &&& own ==> answer.body.text_at("video_url"@) == task.video_url
            &&& own ==> answer.body.text_at("error"@) == task.error
            &&& own && !copied ==> answer.body.text_at("content_url"@) == task.content_url
            &&& own && copied ==> answer.body.text_at("content_url"@)
                == video_store::content_address(task_id, base)
            &&& answer.status == 200 || text_chat_laws::is_error(answer, 404, "task_not_found"@)
        }),
{
    broadcast use text_chat_laws::lemma_openai_error;

    law_a_client_reads_its_task(task);
    law_a_client_reads_its_task(
        TaskView { content_url: video_store::content_address(task_id, base), ..task },
    );
}

/// A client is handed the gateway's copy of its video where there is one, as
/// the file of that task, with its size; else it is led to the upstream's
/// address; else there is no video. A task of another key is not there.
pub proof fn law_a_client_gets_its_video(
    s: StateView,
    key_id: Seq<char>,
    task_id: Seq<char>,
    data_dir: Seq<char>,
    configured: Option<Seq<char>>,
    size: Option<u64>,
)
    ensures
        ({
            let answer = video_routes::content_answer(
                s,
                key_id,
                task_id,
                data_dir,
                configured,
                size,
            );
            let own = s.task(task_id) matches Some(task) && task.owner_key_id == video::owner_of(
                key_id,
            );
            let safe = video_store::is_safe_id(task_id);
            &&& !own ==> (answer matches ContentView::Document(reply) && text_chat_laws::is_error(
                reply,
                404,
                "task_not_found"@,
            ))
            &&& own && safe ==> (size matches Some(n) ==> {
                &&& answer matches ContentView::File(status, path, headers)
                &&& status == 200
                &&& path == video_store::video_file(data_dir, configured, task_id)
                &&& table::find(headers, "content-type"@) == Some("video/mp4"@)
                &&& table::find(headers, "content-length"@) == Some(text::decimal(n as nat))
                &&& table::find(headers, "cache-control"@) == Some("private, max-age=3600"@)
            })
            &&& own && safe && size is None ==> (match s.task(task_id)->0.video_url {
                Some(url) => core_routes::header_text(url) ==> {
                    &&& answer matches ContentView::Redirect(status, headers)
                    &&& status == 307
                    &&& table::find(headers, "location"@) == Some(url)
                    &&& table::find(headers, "cache-control"@) == Some("no-store"@)
                },
                None => answer matches ContentView::Document(reply) && text_chat_laws::is_error(
                    reply,
                    404,
                    "video_not_found"@,
                ),
            })
            &&& own && !safe ==> (answer matches ContentView::Document(reply)
                && text_chat_laws::is_error(reply, 404, "video_not_found"@))
        }),
{
    broadcast use text_chat_laws::lemma_openai_error;

    reveal_strlit("content-type");
    reveal_strlit("content-length");
    reveal_strlit("cache-control");
    reveal_strlit("location");
    assert("content-type"@.len() == 12);
    assert("content-length"@.len() == 14);
    assert("cache-control"@.len() == 13);
    assert("location"@.len() == 8);
    if let Some(n) = size {
        let one = table::put(reply::no_headers(), "content-type"@, "video/mp4"@);
        let two = table::put(one, "content-length"@, text::decimal(n as nat));
        table::lemma_find_put(reply::no_headers(), "content-type"@, "video/mp4"@);
        table::lemma_find_put(one, "content-length"@, text::decimal(n as nat));
        table::lemma_find_put(two, "cache-control"@, "private, max-age=3600"@);
    }
    if s.task(task_id) is Some && s.task(task_id)->0.video_url is Some {
        let url = s.task(task_id)->0.video_url->0;
        let one = table::put(reply::no_headers(), "location"@, url);
        table::lemma_find_put(reply::no_headers(), "location"@, url);
        table::lemma_find_put(one, "cache-control"@, "no-store"@);
    }
}

/// Core hands out the gateway's own copy of a job's video and nothing else.
pub proof fn law_core_hands_out_its_own_copy(
    bundle: BundleView,
    task_id: Seq<char>,
    data_dir: Seq<char>,
    configured: Option<Seq<char>>,
    size: Option<u64>,
)
    ensures
        ({
            let answer = video_routes::core_content_answer(
                Ok(Some(bundle)),
                task_id,
                data_dir,
                configured,
                size,
            );
            let own = bundle.job.artifact_ref == Some("video-store:"@ + task_id)
                && video_store::is_safe_id(task_id);
            &&& own && size is Some ==> (answer matches ContentView::File(status, path, _)
                && status == 200 && path == video_store::video_file(data_dir, configured, task_id))
            &&& answer is File ==> own && size is Some
            &&& !(answer is File) ==> (answer matches ContentView::Document(reply)
                && text_chat_laws::is_error(reply, 404, "video_not_found"@))
        }),
        video_routes::core_content_answer(
            Ok(None),
            task_id,
            data_dir,
            configured,
            size,
        ) matches ContentView::Document(reply) && text_chat_laws::is_error(
            reply,
            404,
            "task_not_found"@,
        ),
{
    broadcast use text_chat_laws::lemma_openai_error;

}

/// A video is read by right of Core where Core rules, and else by the policy of
/// the key.
pub proof fn law_a_video_is_read_by_right(caller: access::CallerView, core: Option<CoreMode>)
    ensures
        ({
            let gate = video_routes::read_gate(caller, core);
            &&& core == Some(CoreMode::Enforce) ==> (gate is Core == caller.principal is Some)
            &&& core == Some(CoreMode::Enforce) && caller.principal is None ==> (
            gate matches ReadGateView::Refused(answer) && text_chat_laws::is_error(
                answer,
                401,
                "unauthorized"@,
            ))
            &&& core != Some(CoreMode::Enforce) ==> match access::admission(
                caller.name(),
                caller.policy,
                Capability::Video,
            ) {
                Ok(limits) => gate == ReadGateView::Legacy(limits),
                Err(refusal) => gate == ReadGateView::Refused(refusal),
            }
        }),
{
    broadcast use text_chat_laws::lemma_openai_error;

}

/// The file of a video stands in the directory that the operator chose, and
/// else among the gateway's data, under the name of its task.
pub proof fn law_a_video_has_its_own_file(
    data_dir: Seq<char>,
    configured: Option<Seq<char>>,
    task_id: Seq<char>,
)
    ensures
        ({
            let path = video_store::video_file(data_dir, configured, task_id);
            let chosen = configured is Some && configured->0.len() > 0;
            &&& path.parts.len() > 0 && path.parts.last() == text::trim(task_id) + ".mp4"@
            &&& chosen ==> path.root == configured->0 && path.parts.len() == 1
            &&& !chosen ==> path.root == data_dir && path.parts.len() == 3 && path.parts[0]
                == "data"@ && path.parts[1] == "videos"@
        }),
{
}

/// A task id may name a file exactly where it is short and holds letters,
/// digits, hyphens and underscores alone.
pub proof fn law_a_safe_id_is_plain(task_id: Seq<char>)
    ensures
        ({
            let id = text::trim(task_id);
            video_store::is_safe_id(task_id) == (id.len() > 0 && text::byte_len(id) <= 160 && (
            forall|i: int|
                0 <= i < id.len() ==> ('0' <= #[trigger] id[i] <= '9' || 'a' <= id[i] <= 'z' || 'A'
                    <= id[i] <= 'Z' || id[i] == '-' || id[i] == '_')))
        }),
{
    let id = text::trim(task_id);
    if video_store::plain_name(id) {
        assert forall|i: int| 0 <= i < id.len() implies ('0' <= #[trigger] id[i] <= '9' || 'a'
            <= id[i] <= 'z' || 'A' <= id[i] <= 'Z' || id[i] == '-' || id[i] == '_') by {
            assert(video_store::name_char(id[i]));
        }
    }
}

/// The address of a copy is the path of the video below the base that the
/// operator set, or the path itself.
pub proof fn law_a_copy_has_an_address(task_id: Seq<char>, base: Seq<char>)
    requires
        video_store::is_safe_id(task_id),
        text::trim(base) == base,
        base.len() > 0,
        base[base.len() - 1] != '/',
    ensures
        video_store::content_address(task_id, None) == Some(
            "/v1/videos/"@ + text::trim(task_id) + "/content"@,
        ),
        video_store::content_address(task_id, Some(base)) == Some(
            base + ("/v1/videos/"@ + text::trim(task_id) + "/content"@),
        ),
{
}

/// A video is copied only from a successful answer, and only where it does not
/// declare more than four gigabytes.
pub proof fn law_a_video_is_copied_within_bounds(status: u16, length: Option<u64>)
    ensures
        video_store::download_fault(status, length) is None == (200 <= status < 300 && (
        length is None || length->0 <= 4 * 1024 * 1024 * 1024)),
{
}

/// Only videos and parts of videos are ever removed, and only once they were
/// kept for the whole time; a file of unknown age is kept.
pub proof fn law_only_old_videos_are_removed(
    name: Seq<char>,
    modified: Option<u64>,
    now: u64,
    keep: u64,
)
    ensures
        video_store::is_old_video(name, modified, now, keep) == ((text::ends_with(name, ".mp4"@)
            && name.len() > 4 || text::ends_with(name, ".mp4.part"@)) && keep > 0 && (
        modified matches Some(at) && at + keep <= now)),
{
}

} // verus!
