//! Chat requests to the video model: their reference images are kept as
//! material of the caller, the request is submitted as a video task, and the
//! task is shown as a chat completion.

use crate::access;
use crate::asset_routes::{self, AssetInputView, CreateAssetInput, TimeFault};
use crate::assets::{AssetRecord, AssetView};
use crate::json::{Json, JsonView};
use crate::outside;
use crate::reply::{self, Reply, ReplyView};
use crate::seedance_chat::{
    self, ChatErrorView, InlineImage, InlineImageView, SeedanceChatError, SeedanceChatProjection,
};
use crate::text;
use vstd::prelude::*;

verus! {

/// A chat request that can be submitted: the video request, its images, and
/// the key that makes a repetition recognisable.
#[derive(Debug)]
pub struct SeedanceStart {
    pub projection: SeedanceChatProjection,
    pub idempotency_key: String,
}

/// The model of a [`SeedanceStart`].
pub struct SeedanceStartView {
    pub video_input: JsonView,
    pub inline_images: Seq<InlineImageView>,
    pub idempotency_key: Seq<char>,
}

impl View for SeedanceStart {
    type V = SeedanceStartView;

    open spec fn view(&self) -> SeedanceStartView {
        SeedanceStartView {
            video_input: self.projection.video_input@,
            inline_images: seedance_chat::image_views(self.projection.inline_images@),
            idempotency_key: self.idempotency_key@,
        }
    }
}

/// The model of a started chat request.
pub open spec fn start_view(r: Result<SeedanceStart, Reply>) -> Result<SeedanceStartView, ReplyView> {
    match r {
        Ok(start) => Ok(start@),
        Err(reply) => Err(reply@),
    }
}

/// A chat request whose video request is `projection`. It must not ask for a
/// stream, and must carry an idempotency key.
pub open spec fn started(
    input: JsonView,
    key: Option<Seq<char>>,
    projection: Result<(JsonView, Seq<InlineImageView>), ChatErrorView>,
) -> Result<SeedanceStartView, ReplyView> {
    if input.bool_at("stream"@) == Some(true) {
        Err(
            reply::openai(
                400,
                "seedance_stream_unsupported"@,
                "Seedance Chat 兼容入口暂不支持 stream=true，请使用非流式请求"@,
            ),
        )
    } else {
        match access::header_value(key) {
            None => Err(
                reply::openai(
                    400,
                    "idempotency_key_required"@,
                    "Seedance Chat 请求必须提供 Idempotency-Key"@,
                ),
            ),
            Some(idempotency_key) => match projection {
                Err(error) => Err(reply::openai(400, error.code, error.message)),
                Ok((video_input, inline_images)) => Ok(
                    SeedanceStartView { video_input, inline_images, idempotency_key },
                ),
            },
        }
    }
}

/// Starts a chat request whose video request is `projection`.
pub fn start_seedance_chat(
    input: &Json,
    key: &Option<String>,
    projection: Result<SeedanceChatProjection, SeedanceChatError>,
) -> (r: Result<SeedanceStart, Reply>)
    ensures
        start_view(r) == started(
            input@,
            text::opt_view(*key),
            seedance_chat::projection_result_view(projection),
        ),
{
    let stream = match input.bool_at("stream") {
        Some(stream) => stream,
        None => false,
    };
    if stream {
        return Err(
            reply::openai_error(
                400,
                "seedance_stream_unsupported",
                "Seedance Chat 兼容入口暂不支持 stream=true，请使用非流式请求",
            ),
        );
    }
    let idempotency_key = match access::read_header(key) {
        Some(key) => key,
        None => {
            return Err(
                reply::openai_error(
                    400,
                    "idempotency_key_required",
                    "Seedance Chat 请求必须提供 Idempotency-Key",
                ),
            );
        },
    };
    match projection {
        Err(error) => Err(reply::openai_error(400, error.code(), error.message())),
        Ok(projection) => Ok(SeedanceStart { projection, idempotency_key }),
    }
}

/// Starts a chat request.
pub fn seedance_chat_completions(input: &Json, key: &Option<String>) -> (r: Result<
    SeedanceStart,
    Reply,
>)
    ensures
        start_view(r) == started(
            input@,
            text::opt_view(*key),
            seedance_chat::projection_of(input@),
        ),
{
    start_seedance_chat(input, key, seedance_chat::project_chat_to_video(input))
}

/// What the id of an image is made of: where material is kept, whose it is,
/// the key of the request, and the place and the bytes of the image.
pub open spec fn image_seed(
    data_dir: Seq<char>,
    owner: Seq<char>,
    key: Seq<char>,
    index: nat,
    bytes: Seq<u8>,
) -> Seq<u8> {
    let marked = vstd::utf8::encode_utf8("seedance-inline-asset-v1"@).push(0);
    let placed = (marked + vstd::utf8::encode_utf8(data_dir)).push(0);
    let owned = (placed + vstd::utf8::encode_utf8(owner)).push(0);
    let keyed = (owned + vstd::utf8::encode_utf8(key)).push(0);
    (keyed + vstd::utf8::encode_utf8(text::decimal(index))).push(0) + bytes
}

/// The id of an image whose seed has this digest.
pub open spec fn id_of_digest(digest: Seq<u8>) -> Seq<char> {
    "asset-inline-"@ + text::hex(digest)
}

/// The ids of the images of a request.
pub open spec fn image_ids(
    data_dir: Seq<char>,
    owner: Seq<char>,
    key: Seq<char>,
    images: Seq<InlineImageView>,
) -> Seq<Seq<char>> {
    Seq::new(
        images.len(),
        |i: int|
            id_of_digest(
                outside::sha256_of(image_seed(data_dir, owner, key, i as nat, images[i].bytes)),
            ),
    )
}

fn add_bytes(to: &mut Vec<u8>, bytes: &[u8])
    ensures
        final(to)@ == old(to)@ + bytes@,
{
    to.extend_from_slice(bytes);
}

/// What the id of an image is made of.
pub fn inline_asset_seed(data_dir: &str, owner: &str, key: &str, index: usize, bytes: &Vec<u8>) -> (r:
    Vec<u8>)
    ensures
        r@ == image_seed(data_dir@, owner@, key@, index as nat, bytes@),
{
    let mut seed: Vec<u8> = Vec::new();
    add_bytes(&mut seed, "seedance-inline-asset-v1".as_bytes());
    assert(seed@ =~= vstd::utf8::encode_utf8("seedance-inline-asset-v1"@));
    seed.push(0);
    add_bytes(&mut seed, data_dir.as_bytes());
    seed.push(0);
    add_bytes(&mut seed, owner.as_bytes());
    seed.push(0);
    add_bytes(&mut seed, key.as_bytes());
    seed.push(0);
    let place = text::decimal_text(index as u64);
    add_bytes(&mut seed, place.as_str().as_bytes());
    seed.push(0);
    add_bytes(&mut seed, bytes.as_slice());
    seed
}

/// The id of an image whose seed has this digest.
pub fn inline_asset_id(digest: &Vec<u8>) -> (r: String)
    ensures
        r@ == id_of_digest(digest@),
{
    text::join2("asset-inline-", text::hex_text(digest.as_slice()).as_str())
}

fn ids_of(data_dir: &str, owner: &str, key: &str, images: &Vec<InlineImage>) -> (r: Vec<String>)
    ensures
        text::views(r@) == image_ids(
            data_dir@,
            owner@,
            key@,
            seedance_chat::image_views(images@),
        ),
{
    let ghost all = image_ids(data_dir@, owner@, key@, seedance_chat::image_views(images@));
    let mut ids: Vec<String> = Vec::new();
    let mut i: usize = 0;
    while i < images.len()
        invariant
            i <= images.len(),
            ids.len() == i,
            all == image_ids(data_dir@, owner@, key@, seedance_chat::image_views(images@)),
            forall|j: int| 0 <= j < i ==> (#[trigger] ids@[j])@ == all[j],
        decreases images.len() - i,
    {
        let seed = inline_asset_seed(data_dir, owner, key, i, &images[i].bytes);
        let digest = outside::sha256(seed.as_slice());
        ids.push(inline_asset_id(&digest));
        i = i + 1;
    }
    assert(text::views(ids@) =~= all);
    ids
}

/// The extension of an image of that type.
pub open spec fn extension(mime_type: Seq<char>) -> Option<Seq<char>> {
    if mime_type == "image/png"@ {
        Some("png"@)
    } else if mime_type == "image/jpeg"@ {
        Some("jpg"@)
    } else if mime_type == "image/webp"@ {
        Some("webp"@)
    } else {
        None
    }
}

/// The extension of an image of that type.
pub fn image_extension(mime_type: &str) -> (r: Option<&'static str>)
    ensures
        match r {
            Some(s) => extension(mime_type@) == Some(s@),
            None => extension(mime_type@) is None,
        },
{
    if text::same(mime_type, "image/png") {
        Some("png")
    } else if text::same(mime_type, "image/jpeg") {
        Some("jpg")
    } else if text::same(mime_type, "image/webp") {
        Some("webp")
    } else {
        None
    }
}

/// The name of the file of an image, counted from one.
pub open spec fn image_filename(index: nat, extension: Seq<char>) -> Seq<char> {
    "seedance-reference-"@ + text::decimal(index + 1) + "."@ + extension
}

/// What keeping the images waits for.
#[derive(Debug)]
pub enum PersistStage {
    Asking,
    /// The id of the material that is already there.
    Checking(String),
    Writing,
    /// The id of the written material, and where it was written to.
    Registering(String, String),
    Creating,
    Over,
}

/// The model of a [`PersistStage`].
pub enum PersistStageView {
    Asking,
    Checking(Seq<char>),
    Writing,
    Registering(Seq<char>, Seq<char>),
    Creating,
    Over,
}

impl View for PersistStage {
    type V = PersistStageView;

    open spec fn view(&self) -> PersistStageView {
        match self {
            PersistStage::Asking => PersistStageView::Asking,
            PersistStage::Checking(id) => PersistStageView::Checking(id@),
            PersistStage::Writing => PersistStageView::Writing,
            PersistStage::Registering(id, storage) => PersistStageView::Registering(
                id@,
                storage@,
            ),
            PersistStage::Creating => PersistStageView::Creating,
            PersistStage::Over => PersistStageView::Over,
        }
    }
}

/// The images of a request on their way into the store.
#[derive(Debug)]
pub struct Persisting {
    /// Core keeps the material.
    pub core: bool,
    pub video_input: Json,
    pub images: Vec<InlineImage>,
    pub asset_ids: Vec<String>,
    /// The ids of the images that are kept so far.
    pub persisted: Vec<String>,
    pub stage: PersistStage,
}

/// The model of a [`Persisting`].
pub struct PersistView {
    pub core: bool,
    pub video_input: JsonView,
    pub images: Seq<InlineImageView>,
    pub asset_ids: Seq<Seq<char>>,
    pub persisted: Seq<Seq<char>>,
    pub stage: PersistStageView,
}

impl View for Persisting {
    type V = PersistView;

    open spec fn view(&self) -> PersistView {
        PersistView {
            core: self.core,
            video_input: self.video_input@,
            images: seedance_chat::image_views(self.images@),
            asset_ids: text::views(self.asset_ids@),
            persisted: text::views(self.persisted@),
            stage: self.stage@,
        }
    }
}

impl PersistView {
    /// Every image has an id, and while one is waited for not all are kept.
    pub open spec fn valid(self) -> bool {
        &&& self.asset_ids.len() == self.images.len()
        &&& self.stage !is Over ==> self.persisted.len() < self.images.len()
    }
}

/// What came of the last action.
#[derive(Debug)]
pub enum PersistEvent {
    /// The id under which Core already has the material of that id.
    Found(Result<Option<String>, String>),
    /// Whether the material that is there could be read.
    Checked(Result<(), String>),
    /// The record of the material, where it was written to, and the digest of
    /// its token.
    Written(Result<(AssetRecord, String, String), String>),
    Registered(Result<(), String>),
    /// The id of the material that was kept.
    Created(Result<String, String>),
}

/// The model of a [`PersistEvent`].
pub enum PersistEventView {
    Found(Result<Option<Seq<char>>, Seq<char>>),
    Checked(Result<(), Seq<char>>),
    Written(Result<(AssetView, Seq<char>, Seq<char>), Seq<char>>),
    Registered(Result<(), Seq<char>>),
    Created(Result<Seq<char>, Seq<char>>),
}

/// The model of an outcome without a value.
pub open spec fn done_view(r: Result<(), String>) -> Result<(), Seq<char>> {
    match r {
        Ok(_) => Ok(()),
        Err(error) => Err(error@),
    }
}

impl View for PersistEvent {
    type V = PersistEventView;

    open spec fn view(&self) -> PersistEventView {
        match self {
            PersistEvent::Found(found) => PersistEventView::Found(
                match found {
                    Ok(id) => Ok(text::opt_view(*id)),
                    Err(error) => Err(error@),
                },
            ),
            PersistEvent::Checked(checked) => PersistEventView::Checked(done_view(*checked)),
            PersistEvent::Written(written) => PersistEventView::Written(
                match written {
                    Ok((record, storage, digest)) => Ok((record@, storage@, digest@)),
                    Err(error) => Err(error@),
                },
            ),
            PersistEvent::Registered(registered) => PersistEventView::Registered(
                done_view(*registered),
            ),
            PersistEvent::Created(created) => PersistEventView::Created(
                match created {
                    Ok(id) => Ok(id@),
                    Err(error) => Err(error@),
                },
            ),
        }
    }
}

/// What is to be done next.
#[derive(Debug)]
pub enum PersistAction {
    /// Ask Core for the caller's material of that id.
    Ask(String),
    /// Read the material that Core has.
    Check,
    /// Write the image of that index for Core, with that id and that name.
    Write(usize, String, String),
    /// Have Core register the material.
    Register(CreateAssetInput),
    /// Keep the image of that index for the key, with that id and that name.
    Create(usize, String, String),
    Fail(String),
    /// Remove what was written, then fail.
    RemoveAndFail(String, String),
    /// Submit the video request, whose images have these ids.
    Submit(Json, Vec<String>),
}

/// The model of a [`PersistAction`].
pub enum PersistActionView {
    Ask(Seq<char>),
    Check,
    Write(usize, Seq<char>, Seq<char>),
    Register(AssetInputView),
    Create(usize, Seq<char>, Seq<char>),
    Fail(Seq<char>),
    RemoveAndFail(Seq<char>, Seq<char>),
    Submit(JsonView, Seq<Seq<char>>),
}

impl View for PersistAction {
    type V = PersistActionView;

    open spec fn view(&self) -> PersistActionView {
        match self {
            PersistAction::Ask(id) => PersistActionView::Ask(id@),
            PersistAction::Check => PersistActionView::Check,
            PersistAction::Write(index, id, name) => PersistActionView::Write(*index, id@, name@),
            PersistAction::Register(input) => PersistActionView::Register(input@),
            PersistAction::Create(index, id, name) => PersistActionView::Create(
                *index,
                id@,
                name@,
            ),
            PersistAction::Fail(message) => PersistActionView::Fail(message@),
            PersistAction::RemoveAndFail(storage, message) => PersistActionView::RemoveAndFail(
                storage@,
                message@,
            ),
            PersistAction::Submit(input, ids) => PersistActionView::Submit(
                input@,
                text::views(ids@),
            ),
        }
    }
}

/// Keeping the images goes on from that stage.
pub open spec fn stands(p: PersistView, stage: PersistStageView, action: PersistActionView) -> (
    PersistView,
    PersistActionView,
) {
    (PersistView { stage, ..p }, action)
}

/// Keeping the images ends.
pub open spec fn fails(p: PersistView, message: Seq<char>) -> (PersistView, PersistActionView) {
    stands(p, PersistStageView::Over, PersistActionView::Fail(message))
}

/// The next image, or the end.
pub open spec fn goes_on(p: PersistView) -> (PersistView, PersistActionView) {
    let i = p.persisted.len();
    if i < p.images.len() {
        match extension(p.images[i as int].mime_type) {
            None => fails(p, "参考图 MIME 类型不受支持"@),
            Some(ext) => if p.core {
                stands(
                    p,
                    PersistStageView::Asking,
                    PersistActionView::Ask(p.asset_ids[i as int]),
                )
            } else {
                stands(
                    p,
                    PersistStageView::Creating,
                    PersistActionView::Create(
                        i as usize,
                        p.asset_ids[i as int],
                        image_filename(i, ext),
                    ),
                )
            },
        }
    } else {
        match seedance_chat::with_image_ids(p.video_input, p.persisted) {
            Err(error) => fails(p, error.message),
            Ok(input) => stands(
                p,
                PersistStageView::Over,
                PersistActionView::Submit(input, p.persisted),
            ),
        }
    }
}

/// One more image is kept.
pub open spec fn kept(p: PersistView, id: Seq<char>) -> (PersistView, PersistActionView) {
    goes_on(PersistView { persisted: p.persisted.push(id), ..p })
}

/// The owner of the material: the user of Core, or the key.
pub open spec fn owner_of(core: bool, user_id: Option<Seq<char>>, key_id: Option<Seq<char>>) -> Result<
    Seq<char>,
    Seq<char>,
> {
    if core {
        match user_id {
            Some(user_id) => Ok(user_id),
            None => Err("Core 模式缺少调用方身份"@),
        }
    } else {
        match key_id {
            Some(key_id) => if text::trim(key_id).len() == 0 {
                Err("参考图上传必须绑定 API Key"@)
            } else {
                Ok(key_id)
            },
            None => Err("参考图上传必须绑定 API Key"@),
        }
    }
}

/// The images of a request before the first is kept.
pub open spec fn unkept(
    core: bool,
    video_input: JsonView,
    images: Seq<InlineImageView>,
    asset_ids: Seq<Seq<char>>,
) -> PersistView {
    PersistView {
        core,
        video_input,
        images,
        asset_ids,
        persisted: Seq::empty(),
        stage: PersistStageView::Over,
    }
}

/// Keeping the images begins. A request without images is submitted as it is;
/// nothing is kept of a request that could not take the ids.
pub open spec fn persisting(
    core: bool,
    video_input: JsonView,
    images: Seq<InlineImageView>,
    owner: Result<Seq<char>, Seq<char>>,
    asset_ids: Seq<Seq<char>>,
) -> (PersistView, PersistActionView) {
    let p = unkept(core, video_input, images, asset_ids);
    if images.len() == 0 {
        stands(
            p,
            PersistStageView::Over,
            PersistActionView::Submit(video_input, Seq::empty()),
        )
    } else {
        match owner {
            Err(message) => fails(p, message),
            Ok(_) => match seedance_chat::with_image_ids(video_input, asset_ids) {
                Err(error) => fails(p, error.message),
                Ok(_) => goes_on(p),
            },
        }
    }
}

/// The ids that the images of a request will have.
pub open spec fn ids_for(
    images: Seq<InlineImageView>,
    owner: Result<Seq<char>, Seq<char>>,
    key: Seq<char>,
    data_dir: Seq<char>,
) -> Seq<Seq<char>> {
    match owner {
        Ok(owner) => image_ids(data_dir, owner, key, images),
        Err(_) => Seq::empty(),
    }
}

fn stop(p: Persisting, message: &str) -> (r: (Persisting, PersistAction))
    ensures
        (r.0@, r.1@) == fails(p@, message@),
{
    (
        Persisting { stage: PersistStage::Over, ..p },
        PersistAction::Fail(message.to_owned()),
    )
}

fn go_on(p: Persisting) -> (r: (Persisting, PersistAction))
    requires
        p@.asset_ids.len() == p@.images.len(),
        p@.persisted.len() <= p@.images.len(),
    ensures
        (r.0@, r.1@) == goes_on(p@),
{
    let i: usize = p.persisted.len();
    if i < p.images.len() {
        let ext = match image_extension(p.images[i].mime_type.as_str()) {
            None => {
                return stop(p, "参考图 MIME 类型不受支持");
            },
            Some(ext) => ext,
        };
        let id = p.asset_ids[i].clone();
        if p.core {
            (Persisting { stage: PersistStage::Asking, ..p }, PersistAction::Ask(id))
        } else {
            let name = filename_of(i, ext);
            (Persisting { stage: PersistStage::Creating, ..p }, PersistAction::Create(i, id, name))
        }
    } else {
        let input = p.video_input.dup();
        match seedance_chat::append_inline_image_asset_ids(input, &p.persisted) {
            Err(error) => stop(p, error.message()),
            Ok(input) => {
                let ids = copies(&p.persisted);
                (
                    Persisting { stage: PersistStage::Over, ..p },
                    PersistAction::Submit(input, ids),
                )
            },
        }
    }
}

fn copies(items: &Vec<String>) -> (r: Vec<String>)
    ensures
        text::views(r@) == text::views(items@),
{
    let mut r: Vec<String> = Vec::new();
    let mut i: usize = 0;
    while i < items.len()
        invariant
            i <= items.len(),
            r.len() == i,
            forall|j: int| 0 <= j < i ==> (#[trigger] r@[j])@ == items@[j]@,
        decreases items.len() - i,
    {
        r.push(items[i].clone());
        i = i + 1;
    }
    assert(text::views(r@) =~= text::views(items@));
    r
}

fn filename_of(i: usize, ext: &str) -> (r: String)
    requires
        i < usize::MAX,
    ensures
        r@ == image_filename(i as nat, ext@),
{
    let number = text::decimal_text((i + 1) as u64);
    let head = text::join3("seedance-reference-", number.as_str(), ".");
    text::join2(head.as_str(), ext)
}

fn keep(p: Persisting, id: String) -> (r: (Persisting, PersistAction))
    requires
        p@.valid(),
        p@.stage !is Over,
    ensures
        (r.0@, r.1@) == kept(p@, id@),
{
    let ghost before = p@;
    let mut p = p;
    p.persisted.push(id);
    assert(p@.persisted =~= before.persisted.push(id@));
    go_on(p)
}

/// The owner of the material.
pub fn inline_asset_owner(core: bool, user_id: Option<String>, key_id: Option<String>) -> (r: Result<
    String,
    String,
>)
    ensures
        (match r {
            Ok(owner) => Ok::<Seq<char>, Seq<char>>(owner@),
            Err(message) => Err(message@),
        }) == owner_of(core, text::opt_view(user_id), text::opt_view(key_id)),
{
    if core {
        match user_id {
            Some(user_id) => Ok(user_id),
            None => Err("Core 模式缺少调用方身份".to_owned()),
        }
    } else {
        match key_id {
            Some(key_id) => {
                if text::blank(key_id.as_str()) {
                    Err("参考图上传必须绑定 API Key".to_owned())
                } else {
                    Ok(key_id)
                }
            },
            None => Err("参考图上传必须绑定 API Key".to_owned()),
        }
    }
}

/// Begins to keep the images of a request under these ids.
pub fn begin_persisting(
    core: bool,
    start: SeedanceStart,
    owner: Result<String, String>,
    asset_ids: Vec<String>,
) -> (r: (Persisting, PersistAction))
    requires
        owner is Ok ==> asset_ids.len() == start.projection.inline_images.len(),
    ensures
        (r.0@, r.1@) == persisting(
            core,
            start@.video_input,
            start@.inline_images,
            (match owner {
                Ok(owner) => Ok::<Seq<char>, Seq<char>>(owner@),
                Err(message) => Err(message@),
            }),
            text::views(asset_ids@),
        ),
{
    let p = Persisting {
        core,
        video_input: start.projection.video_input,
        images: start.projection.inline_images,
        asset_ids,
        persisted: Vec::new(),
        stage: PersistStage::Over,
    };
    assert(p@.persisted =~= Seq::empty());
    if p.images.len() == 0 {
        let input = p.video_input.dup();
        let none: Vec<String> = Vec::new();
        assert(text::views(none@) =~= Seq::empty());
        return (p, PersistAction::Submit(input, none));
    }
    if let Err(message) = owner {
        return stop(p, message.as_str());
    }
    let candidate = p.video_input.dup();
    match seedance_chat::append_inline_image_asset_ids(candidate, &p.asset_ids) {
        Err(error) => stop(p, error.message()),
        Ok(_) => go_on(p),
    }
}

/// Begins to keep the images of a request.
pub fn persist_seedance_inline_assets(
    core: bool,
    start: SeedanceStart,
    user_id: Option<String>,
    key_id: Option<String>,
    data_dir: &str,
) -> (r: (Persisting, PersistAction))
    ensures
        (r.0@, r.1@) == persisting(
            core,
            start@.video_input,
            start@.inline_images,
            owner_of(core, text::opt_view(user_id), text::opt_view(key_id)),
            ids_for(
                start@.inline_images,
                owner_of(core, text::opt_view(user_id), text::opt_view(key_id)),
                start@.idempotency_key,
                data_dir@,
            ),
        ),
{
    let owner = inline_asset_owner(core, user_id, key_id);
    let none: Vec<String> = Vec::new();
    assert(text::views(none@) =~= Seq::empty());
    let ids = match &owner {
        Ok(owner) => ids_of(
            data_dir,
            owner.as_str(),
            start.idempotency_key.as_str(),
            &start.projection.inline_images,
        ),
        Err(_) => none,
    };
    assert(text::views(ids@).len() == ids.len());
    begin_persisting(core, start, owner, ids)
}

/// The event can follow the action that is waited for.
pub open spec fn expected(stage: PersistStageView, event: PersistEventView) -> bool {
    match stage {
        PersistStageView::Asking => event is Found,
        PersistStageView::Checking(_) => event is Checked,
        PersistStageView::Writing => event is Written,
        PersistStageView::Registering(_, _) => event is Registered,
        PersistStageView::Creating => event is Created,
        PersistStageView::Over => false,
    }
}

/// The next step of keeping the images.
pub open spec fn persist_step(p: PersistView, event: PersistEventView) -> (
    PersistView,
    PersistActionView,
) {
    let i = p.persisted.len();
    match event {
        PersistEventView::Found(found) => match found {
            Err(error) => fails(p, "Core 参考图查询失败: "@ + error),
            Ok(Some(id)) => stands(
                p,
                PersistStageView::Checking(id),
                PersistActionView::Check,
            ),
            Ok(None) => match extension(p.images[i as int].mime_type) {
                None => fails(p, "参考图 MIME 类型不受支持"@),
                Some(ext) => stands(
                    p,
                    PersistStageView::Writing,
                    PersistActionView::Write(
                        i as usize,
                        p.asset_ids[i as int],
                        image_filename(i, ext),
                    ),
                ),
            },
        },
        PersistEventView::Checked(checked) => match checked {
            Err(error) => fails(p, "Core 参考图校验失败: "@ + error),
            Ok(_) => kept(p, p.stage->Checking_0),
        },
        PersistEventView::Written(written) => match written {
            Err(error) => fails(p, "参考图保存失败: "@ + error),
            Ok((record, storage, digest)) => match asset_routes::core_input(
                record,
                storage,
                digest,
            ) {
                Err(TimeFault::Created) => fails(p, "参考图创建时间无效"@),
                Err(TimeFault::Expires) => fails(p, "参考图过期时间无效"@),
                Ok(input) => stands(
                    p,
                    PersistStageView::Registering(record.id, storage),
                    PersistActionView::Register(input),
                ),
            },
        },
        PersistEventView::Registered(registered) => match registered {
            Err(error) => stands(
                p,
                PersistStageView::Over,
                PersistActionView::RemoveAndFail(
                    p.stage->Registering_1,
                    "Core 参考图登记失败: "@ + error,
                ),
            ),
            Ok(_) => kept(p, p.stage->Registering_0),
        },
        PersistEventView::Created(created) => match created {
            Err(error) => fails(p, "参考图保存失败: "@ + error),
            Ok(id) => kept(p, id),
        },
    }
}

fn stop_with(p: Persisting, message: &str, error: &str) -> (r: (Persisting, PersistAction))
    ensures
        (r.0@, r.1@) == fails(p@, message@ + error@),
{
    stop(p, text::join2(message, error).as_str())
}

/// The next step of keeping the images.
pub fn persist_next(p: Persisting, event: PersistEvent) -> (r: (Persisting, PersistAction))
    requires
        p@.valid(),
        expected(p@.stage, event@),
    ensures
        (r.0@, r.1@) == persist_step(p@, event@),
{
    let i: usize = p.persisted.len();
    assert(i < p.images.len());
    match event {
        PersistEvent::Found(found) => match found {
            Err(error) => stop_with(p, "Core 参考图查询失败: ", error.as_str()),
            Ok(Some(id)) => (
                Persisting { stage: PersistStage::Checking(id), ..p },
                PersistAction::Check,
            ),
            Ok(None) => {
                match image_extension(p.images[i].mime_type.as_str()) {
                    None => stop(p, "参考图 MIME 类型不受支持"),
                    Some(ext) => {
                        let id = p.asset_ids[i].clone();
                        let name = filename_of(i, ext);
                        (
                            Persisting { stage: PersistStage::Writing, ..p },
                            PersistAction::Write(i, id, name),
                        )
                    },
                }
            },
        },
        PersistEvent::Checked(checked) => match checked {
            Err(error) => stop_with(p, "Core 参考图校验失败: ", error.as_str()),
            Ok(_) => match &p.stage {
                PersistStage::Checking(id) => {
                    let id = id.clone();
                    keep(p, id)
                },
                _ => {
                    assert(false);
                    stop(p, "")
                },
            },
        },
        PersistEvent::Written(written) => match written {
            Err(error) => stop_with(p, "参考图保存失败: ", error.as_str()),
            Ok((record, storage, digest)) => match asset_routes::core_asset_input(
                &record,
                storage.as_str(),
                digest.as_str(),
            ) {
                Err(TimeFault::Created) => stop(p, "参考图创建时间无效"),
                Err(TimeFault::Expires) => stop(p, "参考图过期时间无效"),
                Ok(input) => (
                    Persisting { stage: PersistStage::Registering(record.id, storage), ..p },
                    PersistAction::Register(input),
                ),
            },
        },
        PersistEvent::Registered(registered) => match &p.stage {
            PersistStage::Registering(id, storage) => match registered {
                Err(error) => {
                    let storage = storage.clone();
                    let message = text::join2("Core 参考图登记失败: ", error.as_str());
                    (
                        Persisting { stage: PersistStage::Over, ..p },
                        PersistAction::RemoveAndFail(storage, message),
                    )
                },
                Ok(_) => {
                    let id = id.clone();
                    keep(p, id)
                },
            },
            _ => {
                assert(false);
                stop(p, "")
            },
        },
        PersistEvent::Created(created) => match created {
            Err(error) => stop_with(p, "参考图保存失败: ", error.as_str()),
            Ok(id) => keep(p, id),
        },
    }
}

/// The answer where the images could not be kept.
pub fn persist_failed(message: &str) -> (r: Reply)
    ensures
        r@ == reply::openai(400, "invalid_asset"@, message@),
{
    reply::openai_error(400, "invalid_asset", message)
}

/// A text at a member, where it is not empty.
pub open spec fn filled_at(document: JsonView, key: Seq<char>) -> Option<Seq<char>> {
    match document.text_at(key) {
        Some(s) => if s.len() == 0 {
            None
        } else {
            Some(s)
        },
        None => None,
    }
}

fn read_filled<'a>(document: &'a Json, key: &str) -> (r: Option<&'a str>)
    ensures
        match r {
            Some(s) => filled_at(document@, key@) == Some(s@),
            None => filled_at(document@, key@) is None,
        },
{
    match document.str_at(key) {
        Some(s) => if s.is_empty() {
            None
        } else {
            Some(s)
        },
        None => None,
    }
}

/// The document of a task: the task of an answer, or the answer itself.
pub open spec fn task_of(body: JsonView) -> JsonView {
    match body.get("task"@) {
        Some(task) => task,
        None => body,
    }
}

/// The task that a chat completion shows.
pub open spec fn shown_task(task: JsonView, id: Seq<char>, model: Seq<char>) -> JsonView {
    let head = JsonView::object().member("id"@, JsonView::Text(id)).member(
        "model"@,
        JsonView::Text(model),
    ).member(
        "status"@,
        JsonView::Text(
            match task.text_at("status"@) {
                Some(status) => status,
                None => "queued"@,
            },
        ),
    ).member("status_endpoint"@, JsonView::Text("/v1/videos/"@ + id));
    let content = if task.get("content_url"@) is Some {
        head.member(
            "content_endpoint"@,
            JsonView::Text("/v1/videos/"@ + id + "/content"@),
        )
    } else {
        head
    };
    match task.get("updated_at"@) {
        Some(updated_at) => content.member("updated_at"@, updated_at),
        None => content,
    }
}

/// A chat completion that shows a task.
pub open spec fn completion(
    task: JsonView,
    id: Seq<char>,
    model: Seq<char>,
    now: u64,
) -> JsonView {
    JsonView::object().member("id"@, JsonView::Text("chatcmpl-"@ + id)).member(
        "object"@,
        JsonView::Text("chat.completion"@),
    ).member(
        "created"@,
        JsonView::Number(
            crate::json::number(
                match task.unsigned_at("created_at"@) {
                    Some(created) => created,
                    None => now,
                },
            ),
        ),
    ).member("model"@, JsonView::Text(model)).member(
        "choices"@,
        JsonView::Array(
            Seq::empty().push(
                JsonView::object().member(
                    "index"@,
                    JsonView::Number(crate::json::number(0)),
                ).member(
                    "message"@,
                    JsonView::object().member("role"@, JsonView::Text("assistant"@)).member(
                        "content"@,
                        JsonView::Text("视频任务已提交，完成后可下载"@),
                    ),
                ).member("finish_reason"@, JsonView::Text("video_async"@)),
            ),
        ),
    ).member("video_task"@, shown_task(task, id, model))
}

/// The answer with a submitted task as a chat completion. `request_id` names the
/// request, where the answer does.
pub open spec fn wrapped(
    status: u16,
    request_id: Option<Seq<char>>,
    body: JsonView,
    now: u64,
) -> ReplyView {
    let task = task_of(body);
    match filled_at(task, "id"@) {
        None => reply::openai(
            502,
            "video_task_unavailable"@,
            "视频任务响应缺少任务 ID"@,
        ),
        Some(id) => {
            let model = match filled_at(task, "model"@) {
                Some(model) => model,
                None => "seedance"@,
            };
            let shown = reply::json_answer(
                if is_success(status) {
                    status
                } else {
                    202
                },
                completion(task, id, model, now),
            );
            match request_id {
                Some(request_id) => shown.with_header("x-request-id"@, request_id),
                None => shown,
            }
        },
    }
}

/// The answer with a submitted task as a chat completion, where its body of
/// that size was read as `parsed`. One that is too large, or no document, is a
/// failure of the gateway.
pub open spec fn wrapped_body(
    status: u16,
    request_id: Option<Seq<char>>,
    size: nat,
    parsed: Result<JsonView, Seq<char>>,
    now: u64,
) -> ReplyView {
    if size > access::MAX_BODY_BYTES {
        reply::internal_failure()
    } else {
        match parsed {
            Err(_) => reply::internal_failure(),
            Ok(body) => wrapped(status, request_id, body, now),
        }
    }
}

/// A status of success.
pub open spec fn is_success(status: u16) -> bool {
    200 <= status <= 299
}

fn task_shown(task: &Json, id: &str, model: &str) -> (r: Json)
    ensures
        r@ == shown_task(task@, id@, model@),
{
    let status = match task.str_at("status") {
        Some(status) => status,
        None => "queued",
    };
    let endpoint = text::join2("/v1/videos/", id);
    let head = Json::object().member("id", Json::text(id)).member("model", Json::text(model)).member(
        "status",
        Json::text(status),
    ).member("status_endpoint", Json::text(endpoint.as_str()));
    let content = match task.get("content_url") {
        Some(_) => head.member(
            "content_endpoint",
            Json::text(text::join2(endpoint.as_str(), "/content").as_str()),
        ),
        None => head,
    };
    match task.get("updated_at") {
        Some(updated_at) => content.member("updated_at", updated_at.dup()),
        None => content,
    }
}

fn one(value: Json) -> (r: Json)
    ensures
        r@ == JsonView::Array(Seq::empty().push(value@)),
{
    let mut items: Vec<Json> = Vec::new();
    items.push(value);
    let r = Json::array(items);
    assert(r@->Array_0 =~= Seq::empty().push(value@));
    r
}

/// The answer with a submitted task as a chat completion, where its body of
/// that size was read as `parsed`.
pub fn wrap_submitted_task(
    status: u16,
    request_id: Option<&str>,
    size: usize,
    parsed: Result<Json, String>,
    now: u64,
) -> (r: Reply)
    ensures
        r@ == wrapped_body(
            status,
            text::str_view(request_id),
            size as nat,
            outside::result_model(parsed),
            now,
        ),
{
    if size > access::MAX_BODY_BYTES {
        return reply::internal_error_response();
    }
    let body = match parsed {
        Ok(body) => body,
        Err(_) => {
            return reply::internal_error_response();
        },
    };
    let task = match body.get("task") {
        Some(task) => task,
        None => &body,
    };
    let id = match read_filled(task, "id") {
        Some(id) => id,
        None => {
            return reply::openai_error(
                502,
                "video_task_unavailable",
                "视频任务响应缺少任务 ID",
            );
        },
    };
    let model = match read_filled(task, "model") {
        Some(model) => model,
        None => "seedance",
    };
    let created: u64 = match task.u64_at("created_at") {
        Some(created) => created,
        None => now,
    };
    let message = Json::object().member("role", Json::text("assistant")).member(
        "content",
        Json::text("视频任务已提交，完成后可下载"),
    );
    let choice = Json::object().member("index", Json::unsigned(0)).member(
        "message",
        message,
    ).member("finish_reason", Json::text("video_async"));
    let document = Json::object().member(
        "id",
        Json::text(text::join2("chatcmpl-", id).as_str()),
    ).member("object", Json::text("chat.completion")).member(
        "created",
        Json::unsigned(created),
    ).member("model", Json::text(model)).member("choices", one(choice)).member(
        "video_task",
        task_shown(task, id, model),
    );
    let shown_status: u16 = if status >= 200 && status <= 299 {
        status
    } else {
        202
    };
    let shown = Reply::json(shown_status, document);
    match request_id {
        Some(request_id) => shown.with_header("x-request-id", request_id),
        None => shown,
    }
}

/// The answer with a submitted task as a chat completion; `body` is what the
/// answer holds.
pub fn wrap_seedance_video_response(
    status: u16,
    request_id: Option<&str>,
    body: &Vec<u8>,
    now: u64,
) -> (r: Reply)
    ensures
        r@ == wrapped_body(
            status,
            text::str_view(request_id),
            body@.len(),
            outside::json_of_bytes(body@),
            now,
        ),
{
    wrap_submitted_task(status, request_id, body.len(), outside::parse_bytes(body), now)
}

/// The answer to a chat request whose video request was answered so: an error
/// is passed on, a task is shown as a chat completion. `sent` is the answer's
/// document as it is sent.
pub fn seedance_answer(answer: Reply, sent: &Vec<u8>, now: u64) -> (r: Reply)
    ensures
        r@ == (if is_success(answer@.status) {
            wrapped_body(
                answer@.status,
                crate::table::find(answer@.headers, "x-request-id"@),
                sent@.len(),
                outside::json_of_bytes(sent@),
                now,
            )
        } else {
            answer@
        }),
{
    if answer.status >= 200 && answer.status <= 299 {
        let request_id = match answer.headers.get("x-request-id") {
            Some(request_id) => Some(request_id.as_str()),
            None => None,
        };
        wrap_seedance_video_response(answer.status, request_id, sent, now)
    } else {
        answer
    }
}

/// Whatever comes of an action, every image keeps its id.
pub proof fn law_keeping_images_stays_valid(p: PersistView, event: PersistEventView)
    requires
        p.valid(),
        expected(p.stage, event),
    ensures
        persist_step(p, event).0.valid(),
        persist_step(p, event).0.asset_ids == p.asset_ids,
        persist_step(p, event).0.images == p.images,
{
}

/// Nothing is kept of a request that has no owner or could not take the ids.
pub proof fn law_nothing_is_kept_of_a_refused_request(
    core: bool,
    video_input: JsonView,
    images: Seq<InlineImageView>,
    owner: Result<Seq<char>, Seq<char>>,
    asset_ids: Seq<Seq<char>>,
)
    requires
        images.len() > 0,
        owner is Err || seedance_chat::with_image_ids(video_input, asset_ids) is Err,
    ensures
        persisting(core, video_input, images, owner, asset_ids).1 is Fail,
        persisting(core, video_input, images, owner, asset_ids).0.stage is Over,
{
}

/// A request is submitted once each of its images is kept, and with the ids of
/// all of them.
pub proof fn law_submitted_with_every_image(p: PersistView, event: PersistEventView)
    requires
        p.valid(),
        expected(p.stage, event),
        persist_step(p, event).1 is Submit,
    ensures
        persist_step(p, event).1->Submit_1.len() == p.images.len(),
        seedance_chat::with_image_ids(p.video_input, persist_step(p, event).1->Submit_1) == Ok::<
            JsonView,
            ChatErrorView,
        >(persist_step(p, event).1->Submit_0),
{
}

} // verus!
