//! The endpoints that make and edit images.

use crate::access::{self, AccountRule, AccountRuleView, Caller, CallerView, Capability, KeyLimits,
    KeyView, ResolvedKey, MAX_BODY_BYTES};
use crate::core_routes;
use crate::core_types::CoreMode;
use crate::core_video;
use crate::json::{Json, JsonView};
use crate::outside;
use crate::reply::{self, LimitError, LimitView, Protocol, Reply, ReplyView};
use crate::text;
use crate::text_request;
use vstd::prelude::*;

verus! {

/// A request for an image.
#[derive(Debug)]
pub struct ImageRequest {
    /// An image is given, and is to be edited.
    pub is_edit: bool,
    pub key: String,
    pub policy: Option<ResolvedKey>,
    pub model: String,
    pub uid: String,
    pub stage: ImageStage,
}

/// The model of an [`ImageRequest`].
pub struct ImageRequestView {
    pub is_edit: bool,
    pub key: Seq<char>,
    pub policy: Option<KeyView>,
    pub model: Seq<char>,
    pub uid: Seq<char>,
    pub stage: ImageStage,
}

/// What a request for an image waits for.
#[derive(Clone, Copy, Debug, PartialEq, Eq, Structural)]
pub enum ImageStage {
    Guarding,
    Validating,
    Picking,
    Generating,
    Over,
}

impl View for ImageRequest {
    type V = ImageRequestView;

    open spec fn view(&self) -> ImageRequestView {
        ImageRequestView {
            is_edit: self.is_edit,
            key: self.key@,
            policy: access::opt_key(self.policy),
            model: self.model@,
            uid: self.uid@,
            stage: self.stage,
        }
    }
}

/// What came of the last action.
#[derive(Debug)]
pub enum ImageEvent {
    /// Whether a permit was given; the size of the body, and its document.
    Guarded(Result<(), LimitError>, usize, Result<Json, String>),
    /// Whether the model can serve the request, or the status and the text of
    /// the refusal; and the mode in which a key is bound to one account.
    Validated(Result<(), (u16, String)>, String),
    /// The account that was picked.
    Picked(Option<String>),
    /// What the upstream answered.
    Generated(Result<Json, (u16, String)>),
}

/// The model of an [`ImageEvent`].
pub enum ImageEventView {
    Guarded(Option<LimitView>, usize, Result<JsonView, Seq<char>>),
    Validated(Option<(u16, Seq<char>)>, Seq<char>),
    Picked(Option<Seq<char>>),
    Generated(Result<JsonView, (u16, Seq<char>)>),
}

impl View for ImageEvent {
    type V = ImageEventView;

    open spec fn view(&self) -> ImageEventView {
        match self {
            ImageEvent::Guarded(permit, size, body) => ImageEventView::Guarded(
                core_video::limit_failure(*permit),
                *size,
                outside::result_model(*body),
            ),
            ImageEvent::Validated(valid, mode) => ImageEventView::Validated(
                match valid {
                    Ok(_) => None,
                    Err((code, message)) => Some((*code, message@)),
                },
                mode@,
            ),
            ImageEvent::Picked(uid) => ImageEventView::Picked(text::opt_view(*uid)),
            ImageEvent::Generated(answer) => ImageEventView::Generated(
                match answer {
                    Ok(body) => Ok(body@),
                    Err((code, message)) => Err((*code, message@)),
                },
            ),
        }
    }
}

/// What is noted of a served request: the account, whether it was served, the
/// status, the path, and a remark.
#[derive(Debug, PartialEq, Eq)]
pub struct ImageNote {
    pub uid: String,
    pub served: bool,
    pub status: u16,
    pub path: String,
    pub remark: Option<String>,
}

/// The model of an [`ImageNote`].
pub struct ImageNoteView {
    pub uid: Seq<char>,
    pub served: bool,
    pub status: u16,
    pub path: Seq<char>,
    pub remark: Option<Seq<char>>,
}

impl View for ImageNote {
    type V = ImageNoteView;

    open spec fn view(&self) -> ImageNoteView {
        ImageNoteView {
            uid: self.uid@,
            served: self.served,
            status: self.status,
            path: self.path@,
            remark: text::opt_view(self.remark),
        }
    }
}

/// What is to be done next.
pub enum ImageAction {
    /// Count the request, and take a permit for the key under these limits.
    Guard(KeyLimits),
    /// Hold the model, the prompt and the image against the catalogue. There
    /// is an image only where one is to be edited.
    Validate(String, String, Option<String>),
    /// Pick an account.
    Pick(AccountRule),
    /// Have the account make the image.
    Generate(String),
    /// Note down what came of the request, if anything is to be noted, and
    /// answer.
    Answer(Option<ImageNote>, Reply),
}

/// The model of an [`ImageAction`].
pub enum ImageActionView {
    Guard(KeyLimits),
    Validate(Seq<char>, Seq<char>, Option<Seq<char>>),
    Pick(AccountRuleView),
    Generate(Seq<char>),
    Answer(Option<ImageNoteView>, ReplyView),
}

impl View for ImageAction {
    type V = ImageActionView;

    open spec fn view(&self) -> ImageActionView {
        match self {
            ImageAction::Guard(limits) => ImageActionView::Guard(*limits),
            ImageAction::Validate(model, prompt, image) => ImageActionView::Validate(
                model@,
                prompt@,
                text::opt_view(*image),
            ),
            ImageAction::Pick(rule) => ImageActionView::Pick(rule@),
            ImageAction::Generate(uid) => ImageActionView::Generate(uid@),
            ImageAction::Answer(note, reply) => ImageActionView::Answer(
                match note {
                    Some(note) => Some(note@),
                    None => None,
                },
                reply@,
            ),
        }
    }
}

/// The path of the endpoint.
pub open spec fn image_path(is_edit: bool) -> Seq<char> {
    if is_edit {
        "/v1/images/edits"@
    } else {
        "/v1/images/generations"@
    }
}

/// The request is answered.
pub open spec fn answered(r: ImageRequestView, reply: ReplyView) -> (
    ImageRequestView,
    ImageActionView,
) {
    (
        ImageRequestView { stage: ImageStage::Over, ..r },
        ImageActionView::Answer(None, reply),
    )
}

/// A request before anything is known of it.
pub open spec fn new_request(caller: CallerView, is_edit: bool) -> ImageRequestView {
    ImageRequestView {
        is_edit,
        key: caller.name(),
        policy: caller.policy,
        model: Seq::empty(),
        uid: Seq::empty(),
        stage: ImageStage::Over,
    }
}

/// The first step of a request. Core does not serve it; a key must be allowed
/// to chat.
pub open spec fn image_start(caller: CallerView, core: Option<CoreMode>, is_edit: bool) -> (
    ImageRequestView,
    ImageActionView,
) {
    let r = new_request(caller, is_edit);
    if access::enforcing(core) {
        answered(r, core_routes::not_enabled_reply())
    } else {
        match access::admission(caller.name(), caller.policy, Capability::Chat) {
            Err(refusal) => answered(r, refusal),
            Ok(limits) => (
                ImageRequestView { stage: ImageStage::Guarding, ..r },
                ImageActionView::Guard(limits),
            ),
        }
    }
}

/// The first step of a request.
pub fn images_entry(caller: Caller, core: Option<CoreMode>, is_edit: bool) -> (r: (
    ImageRequest,
    ImageAction,
))
    ensures
        (r.0@, r.1@) == image_start(caller@, core, is_edit),
{
    let key = caller.name();
    let mut r = ImageRequest {
        is_edit,
        key,
        policy: caller.policy,
        model: String::new(),
        uid: String::new(),
        stage: ImageStage::Over,
    };
    assert(r@.model =~= Seq::empty());
    assert(r@.uid =~= Seq::empty());
    if access::core_enforcing(core) {
        return (
            r,
            ImageAction::Answer(None, core_routes::scheduler_endpoint_not_enabled_response()),
        );
    }
    match access::require_legacy_capability(r.key.as_str(), &r.policy, Capability::Chat) {
        Err(refusal) => (r, ImageAction::Answer(None, refusal)),
        Ok(limits) => {
            r.stage = ImageStage::Guarding;
            (r, ImageAction::Guard(limits))
        },
    }
}

/// A request to make an image.
pub fn images_generations(caller: Caller, core: Option<CoreMode>) -> (r: (ImageRequest, ImageAction))
    ensures
        (r.0@, r.1@) == image_start(caller@, core, false),
{
    images_entry(caller, core, false)
}

/// A request to edit an image.
pub fn images_edits(caller: Caller, core: Option<CoreMode>) -> (r: (ImageRequest, ImageAction))
    ensures
        (r.0@, r.1@) == image_start(caller@, core, true),
{
    images_entry(caller, core, true)
}

/// The model that a request names, or the usual one.
pub open spec fn image_model(body: JsonView) -> Seq<char> {
    match body.text_at("model"@) {
        Some(model) => if text::trim(model).len() == 0 {
            "hy4"@
        } else {
            model
        },
        None => "hy4"@,
    }
}

/// The event can follow the action that the request waits for.
pub open spec fn expected(stage: ImageStage, event: ImageEventView) -> bool {
    match stage {
        ImageStage::Guarding => event is Guarded,
        ImageStage::Validating => event is Validated,
        ImageStage::Picking => event is Picked,
        ImageStage::Generating => event is Generated,
        ImageStage::Over => false,
    }
}

/// The next step of a request.
pub open spec fn image_step(r: ImageRequestView, event: ImageEventView) -> (
    ImageRequestView,
    ImageActionView,
) {
    match event {
        ImageEventView::Guarded(failure, size, body) => match failure {
            Some(error) => answered(r, reply::limit_reply(error)),
            None => if size > MAX_BODY_BYTES {
                answered(r, text_request::too_large(Protocol::OpenAi))
            } else {
                match body {
                    Err(error) => answered(r, text_request::not_json(Protocol::OpenAi, error)),
                    Ok(body) => {
                        let model = image_model(body);
                        (
                            ImageRequestView { model, stage: ImageStage::Validating, ..r },
                            ImageActionView::Validate(
                                model,
                                match body.text_at("prompt"@) {
                                    Some(prompt) => prompt,
                                    None => Seq::empty(),
                                },
                                if r.is_edit {
                                    match body.text_at("image"@) {
                                        Some(image) => Some(image),
                                        None => Some(Seq::empty()),
                                    }
                                } else {
                                    None
                                },
                            ),
                        )
                    },
                }
            },
        },
        ImageEventView::Validated(refusal, mode) => match refusal {
            Some((code, message)) => answered(
                r,
                reply::openai(
                    reply::status_or(code, 400),
                    "invalid_request_error"@,
                    message,
                ),
            ),
            None => (
                ImageRequestView { stage: ImageStage::Picking, ..r },
                ImageActionView::Pick(access::account_rule(r.policy, mode)),
            ),
        },
        ImageEventView::Picked(uid) => match uid {
            None => answered(
                r,
                reply::openai(
                    503,
                    "no_healthy_account"@,
                    "no healthy WB account available"@,
                ),
            ),
            Some(uid) => (
                ImageRequestView { uid, stage: ImageStage::Generating, ..r },
                ImageActionView::Generate(uid),
            ),
        },
        ImageEventView::Generated(answer) => {
            let (served, status, remark, reply) = match answer {
                Ok(body) => (true, 200, None, reply::json_answer(200, body)),
                Err((code, message)) => (
                    false,
                    code,
                    Some(message),
                    reply::openai(reply::status_or(code, 502), "upstream_error"@, message),
                ),
            };
            (
                ImageRequestView { stage: ImageStage::Over, ..r },
                ImageActionView::Answer(
                    Some(
                        ImageNoteView {
                            uid: r.uid,
                            served,
                            status,
                            path: image_path(r.is_edit),
                            remark,
                        },
                    ),
                    reply,
                ),
            )
        },
    }
}

fn path_of(is_edit: bool) -> (r: String)
    ensures
        r@ == image_path(is_edit),
{
    if is_edit {
        "/v1/images/edits".to_owned()
    } else {
        "/v1/images/generations".to_owned()
    }
}

fn finish(r: ImageRequest, reply: Reply) -> (a: (ImageRequest, ImageAction))
    ensures
        (a.0@, a.1@) == answered(r@, reply@),
{
    (ImageRequest { stage: ImageStage::Over, ..r }, ImageAction::Answer(None, reply))
}

fn read_request(r: ImageRequest, body: &Json) -> (a: (ImageRequest, ImageAction))
    ensures
        (a.0@, a.1@) == image_step(
            r@,
            ImageEventView::Guarded(None, 0, Ok::<JsonView, Seq<char>>(body@)),
        ),
{
    proof {
        reveal_strlit("");
        assert(""@ =~= Seq::empty());
    }
    let model = match body.str_at("model") {
        Some(model) => if text::blank(model) {
            "hy4".to_owned()
        } else {
            model.to_owned()
        },
        None => "hy4".to_owned(),
    };
    let prompt = match body.str_at("prompt") {
        Some(prompt) => prompt.to_owned(),
        None => "".to_owned(),
    };
    let image = if r.is_edit {
        match body.str_at("image") {
            Some(image) => Some(image.to_owned()),
            None => Some("".to_owned()),
        }
    } else {
        None
    };
    let action = ImageAction::Validate(model.clone(), prompt, image);
    (ImageRequest { model, stage: ImageStage::Validating, ..r }, action)
}

/// The next step of a request.
pub fn image_next(r: ImageRequest, event: ImageEvent) -> (a: (ImageRequest, ImageAction))
    requires
        expected(r@.stage, event@),
    ensures
        (a.0@, a.1@) == image_step(r@, event@),
{
    match event {
        ImageEvent::Guarded(permit, size, body) => {
            if let Err(error) = &permit {
                return finish(r, reply::limit_error_response(error));
            }
            if size > MAX_BODY_BYTES {
                return finish(r, text_request::body_too_large(Protocol::OpenAi));
            }
            match body {
                Err(error) => finish(
                    r,
                    text_request::no_document(Protocol::OpenAi, error.as_str()),
                ),
                Ok(body) => read_request(r, &body),
            }
        },
        ImageEvent::Validated(valid, mode) => match valid {
            Err((code, message)) => finish(
                r,
                reply::openai_error(
                    reply::valid_status(code, 400),
                    "invalid_request_error",
                    message.as_str(),
                ),
            ),
            Ok(_) => {
                let rule = access::allowed_accounts(&r.policy, mode.as_str());
                (ImageRequest { stage: ImageStage::Picking, ..r }, ImageAction::Pick(rule))
            },
        },
        ImageEvent::Picked(uid) => match uid {
            None => finish(
                r,
                reply::openai_error(
                    503,
                    "no_healthy_account",
                    "no healthy WB account available",
                ),
            ),
            Some(uid) => {
                let action = ImageAction::Generate(uid.clone());
                (ImageRequest { uid, stage: ImageStage::Generating, ..r }, action)
            },
        },
        ImageEvent::Generated(answer) => {
            let path = path_of(r.is_edit);
            let uid = r.uid.clone();
            let (note, reply) = match answer {
                Ok(body) => (
                    ImageNote { uid, served: true, status: 200, path, remark: None },
                    Reply::json(200, body),
                ),
                Err((code, message)) => {
                    let reply = reply::openai_error(
                        reply::valid_status(code, 502),
                        "upstream_error",
                        message.as_str(),
                    );
                    (
                        ImageNote {
                            uid,
                            served: false,
                            status: code,
                            path,
                            remark: Some(message),
                        },
                        reply,
                    )
                },
            };
            (
                ImageRequest { stage: ImageStage::Over, ..r },
                ImageAction::Answer(Some(note), reply),
            )
        },
    }
}

/// The step after the permit: reads the body of the request.
pub fn image_guarded(r: ImageRequest, permit: Result<(), LimitError>, body: &Vec<u8>) -> (a: (
    ImageRequest,
    ImageAction,
))
    requires
        r@.stage == ImageStage::Guarding,
    ensures
        (a.0@, a.1@) == image_step(
            r@,
            ImageEventView::Guarded(
                core_video::limit_failure(permit),
                body@.len() as usize,
                outside::json_of_bytes(body@),
            ),
        ),
{
    let size: usize = body.len();
    let document = outside::parse_bytes(body);
    image_next(r, ImageEvent::Guarded(permit, size, document))
}

/// The failure of the work that made the image, as the upstream's.
pub fn image_task_broke(error: &str) -> (r: (u16, String))
    ensures
        r.0 == 500,
        r.1@ == "task join error: "@ + error@,
{
    (500, text::join2("task join error: ", error))
}

/// An account is asked for an image only after the key was let in, a permit was
/// taken and the model was found fit; and only what an account did is noted.
pub proof fn law_an_account_serves_last(r: ImageRequestView, event: ImageEventView)
    requires
        expected(r.stage, event),
    ensures
        image_step(r, event).1 is Generate ==> r.stage == ImageStage::Picking,
        image_step(r, event).1 is Pick ==> r.stage == ImageStage::Validating,
        image_step(r, event).1 is Validate ==> r.stage == ImageStage::Guarding,
        (image_step(r, event).1 matches ImageActionView::Answer(Some(_), _)) == (r.stage
            == ImageStage::Generating),
{
}

/// The answer to a request for embeddings: there are none.
pub fn embeddings() -> (r: Reply)
    ensures
        r@ == reply::openai(
            501,
            "not_supported"@,
            "上游服务无 embeddings 能力，本网关不支持 /v1/embeddings，请使用 /v1/chat/completions 或 /v1/completions"@,
        ),
{
    reply::openai_error(
        501,
        "not_supported",
        "上游服务无 embeddings 能力，本网关不支持 /v1/embeddings，请使用 /v1/chat/completions 或 /v1/completions",
    )
}

} // verus!
