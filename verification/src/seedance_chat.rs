//! Chat requests to the video model, as video requests.

use crate::json::{Json, JsonView};
use crate::outside;
use crate::text;
use vstd::prelude::*;

verus! {

/// A reference image that a chat message holds.
#[derive(Debug, PartialEq, Eq)]
pub struct InlineImage {
    pub mime_type: String,
    pub bytes: Vec<u8>,
}

/// The model of an [`InlineImage`].
pub struct InlineImageView {
    pub mime_type: Seq<char>,
    pub bytes: Seq<u8>,
}

impl View for InlineImage {
    type V = InlineImageView;

    open spec fn view(&self) -> InlineImageView {
        InlineImageView { mime_type: self.mime_type@, bytes: self.bytes@ }
    }
}

/// The models of a list of images.
pub open spec fn image_views(images: Seq<InlineImage>) -> Seq<InlineImageView> {
    Seq::new(images.len(), |i: int| images[i]@)
}

/// A chat request as a video request.
#[derive(Debug, PartialEq, Eq)]
pub struct SeedanceChatProjection {
    pub video_input: Json,
    pub inline_images: Vec<InlineImage>,
}

/// Why a chat request is no video request.
#[derive(Debug, PartialEq, Eq)]
pub struct SeedanceChatError {
    pub code: String,
    pub message: String,
}

/// The model of a [`SeedanceChatError`].
pub struct ChatErrorView {
    pub code: Seq<char>,
    pub message: Seq<char>,
}

impl View for SeedanceChatError {
    type V = ChatErrorView;

    open spec fn view(&self) -> ChatErrorView {
        ChatErrorView { code: self.code@, message: self.message@ }
    }
}

impl SeedanceChatError {
    /// An error.
    pub fn new(code: &str, message: &str) -> (r: SeedanceChatError)
        ensures
            r@ == chat_error(code@, message@),
    {
        SeedanceChatError { code: code.to_owned(), message: message.to_owned() }
    }

    /// The code of the error.
    pub fn code(&self) -> (r: &str)
        ensures
            r@ == self@.code,
    {
        self.code.as_str()
    }

    /// What the error says.
    pub fn message(&self) -> (r: &str)
        ensures
            r@ == self@.message,
    {
        self.message.as_str()
    }
}

/// An error.
pub open spec fn chat_error(code: Seq<char>, message: Seq<char>) -> ChatErrorView {
    ChatErrorView { code, message }
}

/// The name of the video model, in any case and with any white space around
/// it.
pub open spec fn names_seedance(model: Seq<char>) -> bool {
    text::lower(text::trim(model)) == "seedance"@
}

/// The name of the video model, in any case and with any white space around
/// it.
pub fn is_seedance_model(model: &str) -> (r: bool)
    ensures
        r == names_seedance(model@),
{
    text::same(text::lowered(text::trimmed(model)).as_str(), "seedance")
}

/// The image in a data URL, or why there is none.
pub open spec fn inline_image(url: Seq<char>) -> Result<InlineImageView, ChatErrorView> {
    let code = "seedance_inline_image_invalid"@;
    if !text::starts_with(url, "data:"@) {
        Err(chat_error(code, "参考图只接受 data URL；公网 URL 请先上传到 /v1/assets"@))
    } else {
        let rest = url.subrange("data:"@.len() as int, url.len() as int);
        if !rest.contains(',') {
            Err(chat_error(code, "data URL 格式无效"@))
        } else {
            let comma = text::index_of_char(rest, ',');
            let metadata = text::pieces(rest.subrange(0, comma), ';');
            let encoded = text::trim(rest.subrange(comma + 1, rest.len() as int));
            let mime = metadata[0];
            if mime != "image/png"@ && mime != "image/jpeg"@ && mime != "image/webp"@ {
                Err(chat_error(code, "参考图仅支持 image/png、image/jpeg 或 image/webp"@))
            } else if !exists|i: int|
                0 <= i < metadata.len() && text::lower(#[trigger] metadata[i]) == "base64"@ {
                Err(chat_error(code, "参考图 data URL 必须使用 base64 编码"@))
            } else {
                image_of(mime, outside::base64_of(encoded))
            }
        }
    }
}

/// The image of that media type with these decoded bytes.
pub open spec fn image_of(mime: Seq<char>, decoded: Result<Seq<u8>, Seq<char>>) -> Result<
    InlineImageView,
    ChatErrorView,
> {
    let code = "seedance_inline_image_invalid"@;
    match decoded {
        Err(_) => Err(chat_error(code, "参考图 Base64 内容无效"@)),
        Ok(bytes) => if bytes.len() == 0 {
            Err(chat_error(code, "参考图内容不能为空"@))
        } else {
            Ok(InlineImageView { mime_type: mime, bytes })
        },
    }
}

/// The view of an image or an error.
pub open spec fn image_result_view(r: Result<InlineImage, SeedanceChatError>) -> Result<
    InlineImageView,
    ChatErrorView,
> {
    match r {
        Ok(image) => Ok(image@),
        Err(error) => Err(error@),
    }
}

fn invalid_image(message: &str) -> (r: SeedanceChatError)
    ensures
        r@ == chat_error("seedance_inline_image_invalid"@, message@),
{
    SeedanceChatError::new("seedance_inline_image_invalid", message)
}

/// The media types of reference images.
pub fn supported_image_type(mime: &str) -> (r: bool)
    ensures
        r == (mime@ == "image/png"@ || mime@ == "image/jpeg"@ || mime@ == "image/webp"@),
{
    text::same(mime, "image/png") || text::same(mime, "image/jpeg") || text::same(
        mime,
        "image/webp",
    )
}

fn says_base64(metadata: &Vec<String>) -> (r: bool)
    ensures
        r == exists|i: int|
            0 <= i < metadata.len() && text::lower(#[trigger] text::views(metadata@)[i])
                == "base64"@,
{
    let mut i: usize = 0;
    while i < metadata.len()
        invariant
            i <= metadata.len(),
            forall|j: int|
                0 <= j < i ==> text::lower(#[trigger] text::views(metadata@)[j]) != "base64"@,
        decreases metadata.len() - i,
    {
        if text::same(text::lowered(metadata[i].as_str()).as_str(), "base64") {
            assert(text::lower(text::views(metadata@)[i as int]) == "base64"@);
            return true;
        }
        i = i + 1;
    }
    false
}

/// The image of that media type with these decoded bytes.
pub fn decoded_image(mime: &str, decoded: Result<Vec<u8>, String>) -> (r: Result<
    InlineImage,
    SeedanceChatError,
>)
    ensures
        image_result_view(r) == image_of(mime@, outside::bytes_model(decoded)),
{
    match decoded {
        Err(_) => Err(invalid_image("参考图 Base64 内容无效")),
        Ok(bytes) => {
            if bytes.len() == 0 {
                Err(invalid_image("参考图内容不能为空"))
            } else {
                Ok(InlineImage { mime_type: mime.to_owned(), bytes })
            }
        },
    }
}

/// Reads the image in a data URL.
pub fn parse_inline_image(url: &str) -> (r: Result<InlineImage, SeedanceChatError>)
    ensures
        image_result_view(r) == inline_image(url@),
{
    let rest = match text::strip(url, "data:") {
        Some(rest) => rest,
        None => {
            return Err(invalid_image("参考图只接受 data URL；公网 URL 请先上传到 /v1/assets"));
        },
    };
    let (head, encoded) = match text::split_at_char(rest, ',') {
        Some(parts) => parts,
        None => {
            return Err(invalid_image("data URL 格式无效"));
        },
    };
    let metadata = text::split(head, ';');
    assert(text::views(metadata@).len() > 0);
    assert(text::views(metadata@)[0] == metadata@[0]@);
    if !supported_image_type(metadata[0].as_str()) {
        return Err(invalid_image("参考图仅支持 image/png、image/jpeg 或 image/webp"));
    }
    if !says_base64(&metadata) {
        return Err(invalid_image("参考图 data URL 必须使用 base64 编码"));
    }
    let decoded = outside::base64_decode(text::trimmed(encoded));
    decoded_image(metadata[0].as_str(), decoded)
}

/// What a part of a message holds.
pub enum PartView {
    Text(Seq<char>),
    Image(InlineImageView),
}

/// The text or the image in a part of a message.
pub open spec fn part_of(part: JsonView) -> Result<PartView, ChatErrorView> {
    let unsupported = "seedance_unsupported_content_part"@;
    if !(part is Object) {
        Err(chat_error(unsupported, "Seedance Chat content part 必须是对象"@))
    } else {
        let kind = match part.text_at("type"@) {
            Some(kind) => kind,
            None => Seq::empty(),
        };
        if kind == "text"@ {
            match part.text_at("text"@) {
                Some(s) => Ok(PartView::Text(s)),
                None => Err(chat_error(unsupported, "text content part 缺少 text 字段"@)),
            }
        } else if kind == "image_url"@ {
            match part.get("image_url"@) {
                Some(image) => match image.text_at("url"@) {
                    Some(url) => match inline_image(url) {
                        Ok(image) => Ok(PartView::Image(image)),
                        Err(error) => Err(error),
                    },
                    None => Err(
                        chat_error(
                            "seedance_inline_image_invalid"@,
                            "image_url content part 缺少 url 字段"@,
                        ),
                    ),
                },
                None => Err(
                    chat_error(
                        "seedance_inline_image_invalid"@,
                        "image_url content part 缺少 url 字段"@,
                    ),
                ),
            }
        } else {
            Err(chat_error(unsupported, "不支持的 Seedance Chat content part: "@ + kind))
        }
    }
}

/// The texts and the images of the first `n` parts of a message.
pub open spec fn parts_of(parts: Seq<JsonView>, n: nat) -> Result<
    (Seq<Seq<char>>, Seq<InlineImageView>),
    ChatErrorView,
>
    decreases n,
{
    if n == 0 {
        Ok((Seq::empty(), Seq::empty()))
    } else {
        match parts_of(parts, (n - 1) as nat) {
            Err(error) => Err(error),
            Ok((texts, images)) => match part_of(parts[n - 1]) {
                Err(error) => Err(error),
                Ok(PartView::Text(s)) => Ok((texts.push(s), images)),
                Ok(PartView::Image(image)) => Ok((texts, images.push(image))),
            },
        }
    }
}

/// The text and the images of a message.
pub open spec fn content_of(content: JsonView) -> Result<
    (Seq<char>, Seq<InlineImageView>),
    ChatErrorView,
> {
    match content {
        JsonView::Text(s) => Ok((s, Seq::empty())),
        JsonView::Array(parts) => match parts_of(parts, parts.len()) {
            Ok((texts, images)) => Ok((text::join_lines(texts), images)),
            Err(error) => Err(error),
        },
        _ => Err(
            chat_error(
                "seedance_unsupported_content_part"@,
                "Seedance Chat content 必须是字符串或 content parts 数组"@,
            ),
        ),
    }
}

enum Part {
    Text(String),
    Image(InlineImage),
}

spec fn part_view(part: Part) -> PartView {
    match part {
        Part::Text(s) => PartView::Text(s@),
        Part::Image(image) => PartView::Image(image@),
    }
}

fn unsupported_part(message: &str) -> (r: SeedanceChatError)
    ensures
        r@ == chat_error("seedance_unsupported_content_part"@, message@),
{
    SeedanceChatError::new("seedance_unsupported_content_part", message)
}

fn read_part(part: &Json) -> (r: Result<Part, SeedanceChatError>)
    ensures
        (match r {
            Ok(p) => Ok(part_view(p)),
            Err(error) => Err(error@),
        }) == part_of(part@),
{
    if let Json::Object(_) = part {
    } else {
        return Err(unsupported_part("Seedance Chat content part 必须是对象"));
    }
    let kind = match part.str_at("type") {
        Some(kind) => kind,
        None => "",
    };
    proof {
        reveal_strlit("");
        assert(""@ =~= Seq::<char>::empty());
    }
    if text::same(kind, "text") {
        return match part.str_at("text") {
            Some(s) => Ok(Part::Text(s.to_owned())),
            None => Err(unsupported_part("text content part 缺少 text 字段")),
        };
    }
    if text::same(kind, "image_url") {
        let url = match part.get("image_url") {
            Some(image) => image.str_at("url"),
            None => None,
        };
        return match url {
            Some(url) => match parse_inline_image(url) {
                Ok(image) => Ok(Part::Image(image)),
                Err(error) => Err(error),
            },
            None => Err(invalid_image("image_url content part 缺少 url 字段")),
        };
    }
    Err(unsupported_part(text::join2("不支持的 Seedance Chat content part: ", kind).as_str()))
}

/// The view of a message's content or an error.
pub open spec fn content_result_view(
    r: Result<(String, Vec<InlineImage>), SeedanceChatError>,
) -> Result<(Seq<char>, Seq<InlineImageView>), ChatErrorView> {
    match r {
        Ok((s, images)) => Ok((s@, image_views(images@))),
        Err(error) => Err(error@),
    }
}

/// Reads the text and the images of a message. A part of another kind is an
/// error, never passed over.
pub fn extract_user_content(content: &Json) -> (r: Result<
    (String, Vec<InlineImage>),
    SeedanceChatError,
>)
    ensures
        content_result_view(r) == content_of(content@),
{
    match content {
        Json::Text(s) => {
            let images: Vec<InlineImage> = Vec::new();
            assert(image_views(images@) =~= Seq::empty());
            Ok((s.clone(), images))
        },
        Json::Array(parts) => {
            let mut texts: Vec<String> = Vec::new();
            let mut images: Vec<InlineImage> = Vec::new();
            let ghost all = content@->Array_0;
            let mut i: usize = 0;
            assert(text::views(texts@) =~= Seq::empty());
            assert(image_views(images@) =~= Seq::empty());
            while i < parts.len()
                invariant
                    i <= parts.len(),
                    *content == Json::Array(*parts),
                    all == content@->Array_0,
                    parts_of(all, i as nat) == Ok::<_, ChatErrorView>(
                        (text::views(texts@), image_views(images@)),
                    ),
                decreases parts.len() - i,
            {
                assert(all[i as int] == parts@[i as int]@);
                let ghost texts_before = text::views(texts@);
                let ghost images_before = image_views(images@);
                match read_part(&parts[i]) {
                    Ok(Part::Text(s)) => {
                        texts.push(s);
                        assert(text::views(texts@) =~= texts_before.push(s@));
                    },
                    Ok(Part::Image(image)) => {
                        images.push(image);
                        assert(image_views(images@) =~= images_before.push(image@));
                    },
                    Err(error) => {
                        proof {
                            lemma_parts_error(all, (i + 1) as nat, all.len());
                        }
                        return Err(error);
                    },
                }
                i = i + 1;
            }
            Ok((text::joined_lines(&texts), images))
        },
        _ => Err(unsupported_part("Seedance Chat content 必须是字符串或 content parts 数组")),
    }
}

proof fn lemma_parts_error(parts: Seq<JsonView>, m: nat, n: nat)
    requires
        m <= n,
        parts_of(parts, m) is Err,
    ensures
        parts_of(parts, n) == parts_of(parts, m),
    decreases n,
{
    if m < n {
        lemma_parts_error(parts, m, (n - 1) as nat);
    }
}

/// The message is the user's.
pub open spec fn is_user_message(message: JsonView) -> bool {
    match message.text_at("role"@) {
        Some(role) => text::lower(text::trim(role)) == "user"@,
        None => false,
    }
}

/// The position of the user's last message among the first `n`; -1 where there
/// is none.
pub open spec fn last_user_message(messages: Seq<JsonView>, n: nat) -> int
    decreases n,
{
    if n == 0 {
        -1
    } else if is_user_message(messages[n - 1]) {
        n - 1
    } else {
        last_user_message(messages, (n - 1) as nat)
    }
}

/// The member of that name is carried over, where there is one.
pub open spec fn carried(to: JsonView, from: JsonView, key: Seq<char>) -> JsonView {
    match from.get(key) {
        Some(value) => to.member(key, value),
        None => to,
    }
}

/// The video request for a prompt, with what the chat request says of the
/// video.
pub open spec fn video_input(body: JsonView, prompt: Seq<char>) -> JsonView {
    let plain = JsonView::object().member("model"@, JsonView::Text("seedance"@)).member(
        "prompt"@,
        JsonView::Text(prompt),
    );
    let timed = carried(plain, body, "duration"@);
    let sized = carried(carried(timed, body, "resolution"@), body, "ratio"@);
    carried(carried(sized, body, "image_asset_ids"@), body, "video_asset_ids"@)
}

/// A chat request as a video request, or why it is none.
pub open spec fn projection_of(body: JsonView) -> Result<
    (JsonView, Seq<InlineImageView>),
    ChatErrorView,
> {
    let required = "seedance_prompt_required"@;
    if !(body is Object) {
        Err(chat_error(required, "Chat 请求必须是 JSON 对象"@))
    } else {
        let messages = match body.get("messages"@) {
            Some(JsonView::Array(items)) => items,
            _ => Seq::empty(),
        };
        let last = last_user_message(messages, messages.len());
        if messages.len() == 0 {
            Err(chat_error(required, "messages 必须是非空数组"@))
        } else if last < 0 {
            Err(chat_error(required, "至少需要一条包含文字提示词的 user 消息"@))
        } else {
            match messages[last].get("content"@) {
                None => Err(chat_error(required, "最后一条 user 消息缺少 content"@)),
                Some(content) => match content_of(content) {
                    Err(error) => Err(error),
                    Ok((s, images)) => if text::trim(s).len() == 0 {
                        Err(chat_error(required, "至少需要一条包含文字提示词的 user 消息"@))
                    } else {
                        Ok((video_input(body, text::trim(s)), images))
                    },
                },
            }
        }
    }
}

/// The view of a projection or an error.
pub open spec fn projection_result_view(
    r: Result<SeedanceChatProjection, SeedanceChatError>,
) -> Result<(JsonView, Seq<InlineImageView>), ChatErrorView> {
    match r {
        Ok(p) => Ok((p.video_input@, image_views(p.inline_images@))),
        Err(error) => Err(error@),
    }
}

fn carry(to: Json, from: &Json, key: &str) -> (r: Json)
    ensures
        r@ == carried(to@, from@, key@),
{
    match from.get(key) {
        Some(value) => to.member(key, value.dup()),
        None => to,
    }
}

fn prompt_required(message: &str) -> (r: SeedanceChatError)
    ensures
        r@ == chat_error("seedance_prompt_required"@, message@),
{
    SeedanceChatError::new("seedance_prompt_required", message)
}

fn user_message(message: &Json) -> (r: bool)
    ensures
        r == is_user_message(message@),
{
    match message.str_at("role") {
        Some(role) => text::same(text::lowered(text::trimmed(role)).as_str(), "user"),
        None => false,
    }
}

fn find_user_message(messages: &Vec<Json>) -> (r: Option<usize>)
    ensures
        ({
            let all = Seq::new(messages@.len(), |i: int| messages@[i]@);
            match r {
                Some(i) => i < messages.len() && i == last_user_message(all, all.len()),
                None => last_user_message(all, all.len()) < 0,
            }
        }),
{
    let ghost all = Seq::new(messages@.len(), |i: int| messages@[i]@);
    let mut n: usize = messages.len();
    while n > 0
        invariant
            n <= messages.len(),
            all == Seq::new(messages@.len(), |i: int| messages@[i]@),
            last_user_message(all, all.len()) == last_user_message(all, n as nat),
        decreases n,
    {
        assert(all[n - 1] == messages@[n - 1]@);
        if user_message(&messages[n - 1]) {
            return Some(n - 1);
        }
        n = n - 1;
    }
    None
}

/// Turns a chat request into a video request: the prompt is the user's last
/// message, its images are kept apart.
pub fn project_chat_to_video(body: &Json) -> (r: Result<SeedanceChatProjection, SeedanceChatError>)
    ensures
        projection_result_view(r) == projection_of(body@),
{
    if let Json::Object(_) = body {
    } else {
        return Err(prompt_required("Chat 请求必须是 JSON 对象"));
    }
    let messages = match body.get("messages") {
        Some(value) => match value.as_array() {
            Some(items) => items,
            None => {
                return Err(prompt_required("messages 必须是非空数组"));
            },
        },
        None => {
            return Err(prompt_required("messages 必须是非空数组"));
        },
    };
    if messages.len() == 0 {
        return Err(prompt_required("messages 必须是非空数组"));
    }
    let last = match find_user_message(messages) {
        Some(i) => i,
        None => {
            return Err(prompt_required("至少需要一条包含文字提示词的 user 消息"));
        },
    };
    let content = match messages[last].get("content") {
        Some(content) => content,
        None => {
            return Err(prompt_required("最后一条 user 消息缺少 content"));
        },
    };
    match extract_user_content(content) {
        Err(error) => Err(error),
        Ok((s, inline_images)) => {
            let prompt = text::trimmed(s.as_str());
            if prompt.is_empty() {
                return Err(prompt_required("至少需要一条包含文字提示词的 user 消息"));
            }
            let input = Json::object().member("model", Json::text("seedance")).member(
                "prompt",
                Json::text(prompt),
            );
            let input = carry(input, body, "duration");
            let input = carry(input, body, "resolution");
            let input = carry(input, body, "ratio");
            let input = carry(input, body, "image_asset_ids");
            let input = carry(input, body, "video_asset_ids");
            Ok(SeedanceChatProjection { video_input: input, inline_images })
        },
    }
}

/// The view of a request or an error.
pub open spec fn append_result_view(r: Result<Json, SeedanceChatError>) -> Result<
    JsonView,
    ChatErrorView,
> {
    match r {
        Ok(value) => Ok(value@),
        Err(error) => Err(error@),
    }
}

/// The request with these ids behind the ids of its reference images.
pub open spec fn with_image_ids(input: JsonView, ids: Seq<Seq<char>>) -> Result<
    JsonView,
    ChatErrorView,
> {
    match input.get("image_asset_ids"@) {
        None => Ok(input.with("image_asset_ids"@, crate::json::texts_json(ids))),
        Some(JsonView::Array(items)) => Ok(
            input.with(
                "image_asset_ids"@,
                JsonView::Array(items + crate::json::texts_json(ids)->Array_0),
            ),
        ),
        _ => Err(
            chat_error("seedance_inline_image_invalid"@, "image_asset_ids 必须是字符串数组"@),
        ),
    }
}

/// Puts ids behind the ids of the reference images of a request.
pub fn append_inline_image_asset_ids(input: Json, ids: &Vec<String>) -> (r: Result<
    Json,
    SeedanceChatError,
>)
    ensures
        append_result_view(r) == with_image_ids(input@, text::views(ids@)),
{
    let ghost added = crate::json::texts_json(text::views(ids@))->Array_0;
    let value = match input.get("image_asset_ids") {
        None => Json::texts(ids),
        Some(Json::Array(items)) => {
            let ghost given = Seq::new(items@.len(), |i: int| items@[i]@);
            let mut all: Vec<Json> = Vec::new();
            let mut i: usize = 0;
            while i < items.len()
                invariant
                    i <= items.len(),
                    all.len() == i,
                    forall|j: int| 0 <= j < i ==> (#[trigger] all@[j])@ == items@[j]@,
                decreases items.len() - i,
            {
                all.push(items[i].dup());
                i = i + 1;
            }
            let n: usize = items.len();
            let mut k: usize = 0;
            while k < ids.len()
                invariant
                    k <= ids.len(),
                    n == items.len(),
                    all.len() == n + k,
                    forall|j: int| 0 <= j < n ==> (#[trigger] all@[j])@ == items@[j]@,
                    forall|j: int|
                        n <= j < n + k ==> (#[trigger] all@[j])@ == JsonView::Text(
                            ids@[j - n]@,
                        ),
                decreases ids.len() - k,
            {
                all.push(Json::Text(ids[k].clone()));
                k = k + 1;
            }
            let value = Json::array(all);
            assert(value@->Array_0 =~= given + added);
            assert(input@.get("image_asset_ids"@)->0->Array_0 =~= given);
            value
        },
        _ => {
            return Err(invalid_image("image_asset_ids 必须是字符串数组"));
        },
    };
    Ok(input.with("image_asset_ids", value))
}

} // verus!
