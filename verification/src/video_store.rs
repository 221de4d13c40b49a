//! Where the copies of finished videos are kept, and for how long.

use crate::text;
use vstd::prelude::*;

verus! {

/// The most bytes that a video may have.
pub const MAX_VIDEO_BYTES: u64 = 4294967296;

/// A place in the file system: a directory as it was given, and the names that
/// lead on from it.
#[derive(Debug, PartialEq, Eq)]
pub struct StoragePath {
    pub root: String,
    pub parts: Vec<String>,
}

/// The model of a [`StoragePath`].
#[verifier::ext_equal]
pub struct PathView {
    pub root: Seq<char>,
    pub parts: Seq<Seq<char>>,
}

impl View for StoragePath {
    type V = PathView;

    open spec fn view(&self) -> PathView {
        PathView { root: self.root@, parts: text::views(self.parts@) }
    }
}

impl PathView {
    /// The place of that name in this one.
    pub open spec fn join(self, name: Seq<char>) -> PathView {
        PathView { root: self.root, parts: self.parts.push(name) }
    }
}

/// The directory as it was given.
pub open spec fn path_at(root: Seq<char>) -> PathView {
    PathView { root, parts: Seq::empty() }
}

impl StoragePath {
    /// The directory as it was given.
    pub fn at(root: &str) -> (r: StoragePath)
        ensures
            r@ == path_at(root@),
    {
        let r = StoragePath { root: root.to_owned(), parts: Vec::new() };
        assert(r@.parts =~= Seq::empty());
        r
    }

    /// The place of that name in this one.
    pub fn join(self, name: &str) -> (r: StoragePath)
        ensures
            r@ == self@.join(name@),
    {
        let ghost before = self@.parts;
        let mut parts = self.parts;
        parts.push(name.to_owned());
        assert(text::views(parts@) =~= before.push(name@));
        StoragePath { root: self.root, parts }
    }

    /// The last name of the path is this one.
    pub fn ends_with(&self, name: &str) -> (r: bool)
        ensures
            r == (self@.parts.len() > 0 && self@.parts.last() == name@),
    {
        let n: usize = self.parts.len();
        n > 0 && text::same(self.parts[n - 1].as_str(), name)
    }
}

/// The directory of the videos.
pub open spec fn videos_at(data_dir: Seq<char>, configured: Option<Seq<char>>) -> PathView {
    match configured {
        Some(dir) => if dir.len() > 0 {
            path_at(dir)
        } else {
            path_at(data_dir).join("data"@).join("videos"@)
        },
        None => path_at(data_dir).join("data"@).join("videos"@),
    }
}

/// The view of a setting.
pub open spec fn setting(value: Option<&str>) -> Option<Seq<char>> {
    match value {
        Some(v) => Some(v@),
        None => None,
    }
}

/// The directory of the videos: the configured one, or one in the data
/// directory.
pub fn storage_dir(data_dir: &str, configured: Option<&str>) -> (r: StoragePath)
    ensures
        r@ == videos_at(data_dir@, setting(configured)),
{
    if let Some(dir) = configured {
        if !dir.is_empty() {
            return StoragePath::at(dir);
        }
    }
    StoragePath::at(data_dir).join("data").join("videos")
}

/// A character that may stand in the name of a stored file.
pub open spec fn name_char(c: char) -> bool {
    ||| '0' <= c <= '9'
    ||| 'a' <= c <= 'z'
    ||| 'A' <= c <= 'Z'
    ||| c == '-'
    ||| c == '_'
}

/// The text holds only characters that may stand in the name of a stored file.
pub open spec fn plain_name(s: Seq<char>) -> bool {
    forall|i: int| 0 <= i < s.len() ==> name_char(#[trigger] s[i])
}

/// The text holds only characters that may stand in the name of a stored file.
pub fn is_plain_name(s: &str) -> (r: bool)
    ensures
        r == plain_name(s@),
{
    let c = text::chars_of(s);
    let mut i: usize = 0;
    while i < c.len()
        invariant
            i <= c.len(),
            c@ == s@,
            forall|j: int| 0 <= j < i ==> name_char(#[trigger] c@[j]),
        decreases c.len() - i,
    {
        let x: char = c[i];
        if !(('0' <= x && x <= '9') || ('a' <= x && x <= 'z') || ('A' <= x && x <= 'Z') || x == '-'
            || x == '_') {
            assert(!name_char(s@[i as int]));
            return false;
        }
        i = i + 1;
    }
    true
}

/// The task id may name a file.
pub open spec fn is_safe_id(task_id: Seq<char>) -> bool {
    let id = text::trim(task_id);
    id.len() > 0 && text::byte_len(id) <= 160 && plain_name(id)
}

/// The task id without the white space around it, where it may name a file.
pub fn safe_task_id(task_id: &str) -> (r: Result<&str, String>)
    ensures
        match r {
            Ok(id) => is_safe_id(task_id@) && id@ == text::trim(task_id@),
            Err(error) => !is_safe_id(task_id@) && error@ == "视频任务 ID 无效"@,
        },
{
    let id = text::trimmed(task_id);
    if id.is_empty() || text::bytes_in(id) > 160 || !is_plain_name(id) {
        return Err("视频任务 ID 无效".to_owned());
    }
    Ok(id)
}

/// The file of a video.
pub open spec fn video_file(
    data_dir: Seq<char>,
    configured: Option<Seq<char>>,
    task_id: Seq<char>,
) -> PathView {
    videos_at(data_dir, configured).join(text::trim(task_id) + ".mp4"@)
}

/// The file of a video. Its name comes from the task id alone.
pub fn artifact_path(data_dir: &str, configured: Option<&str>, task_id: &str) -> (r: Result<
    StoragePath,
    String,
>)
    ensures
        match r {
            Ok(path) => is_safe_id(task_id@) && path@ == video_file(
                data_dir@,
                setting(configured),
                task_id@,
            ),
            Err(error) => !is_safe_id(task_id@) && error@ == "视频任务 ID 无效"@,
        },
{
    match safe_task_id(task_id) {
        Ok(id) => {
            let name = text::join2(id, ".mp4");
            Ok(storage_dir(data_dir, configured).join(name.as_str()))
        },
        Err(error) => Err(error),
    }
}

/// The address under which a client reads a video, where the task id is a safe
/// one: below the configured base, or relative to the gateway.
pub open spec fn content_address(task_id: Seq<char>, base: Option<Seq<char>>) -> Option<Seq<char>> {
    let path = "/v1/videos/"@ + text::trim(task_id) + "/content"@;
    if !is_safe_id(task_id) {
        None
    } else {
        match base {
            Some(base) => {
                let kept = text::trim_end_char(text::trim(base), '/');
                if kept.len() == 0 {
                    Some(path)
                } else {
                    Some(kept + path)
                }
            },
            None => Some(path),
        }
    }
}

/// The address under which a client reads a video.
pub fn content_url(task_id: &str, base: Option<&str>) -> (r: Result<String, String>)
    ensures
        match r {
            Ok(url) => content_address(task_id@, setting(base)) == Some(url@),
            Err(error) => content_address(task_id@, setting(base)) is None && error@
                == "视频任务 ID 无效"@,
        },
{
    let id = match safe_task_id(task_id) {
        Ok(id) => id,
        Err(error) => {
            return Err(error);
        },
    };
    let path = text::join3("/v1/videos/", id, "/content");
    if let Some(base) = base {
        let kept = text::trimmed_end_char(text::trimmed(base), '/');
        if !kept.is_empty() {
            return Ok(text::join2(kept, path.as_str()));
        }
    }
    Ok(path)
}

/// The address from which a video is copied.
pub fn download_address(url: &str) -> (r: Result<&str, String>)
    ensures
        ({
            let kept = text::trim(url@);
            match r {
                Ok(address) => (text::starts_with(kept, "https://"@) || text::starts_with(
                    kept,
                    "http://"@,
                )) && address@ == kept,
                Err(error) => !text::starts_with(kept, "https://"@) && !text::starts_with(
                    kept,
                    "http://"@,
                ) && error@ == "视频资源地址不是 HTTP(S) 地址"@,
            }
        }),
{
    let kept = text::trimmed(url);
    if text::begins_with(kept, "https://") || text::begins_with(kept, "http://") {
        Ok(kept)
    } else {
        Err("视频资源地址不是 HTTP(S) 地址".to_owned())
    }
}

/// Why an answer is not copied.
pub open spec fn download_fault(status: u16, length: Option<u64>) -> Option<Seq<char>> {
    if !(200 <= status < 300) {
        Some("下载视频失败：上游 HTTP "@ + text::decimal(status as nat))
    } else if length matches Some(n) && n > MAX_VIDEO_BYTES {
        Some("视频文件超过 4 GiB 限制"@)
    } else {
        None
    }
}

/// Checks the answer to the request for a video, with the length that it
/// declares.
pub fn check_download(status: u16, length: Option<u64>) -> (r: Result<(), String>)
    ensures
        match r {
            Ok(_) => download_fault(status, length) is None,
            Err(error) => download_fault(status, length) == Some(error@),
        },
{
    if !(200 <= status && status < 300) {
        return Err(text::join2("下载视频失败：上游 HTTP ", text::decimal_text(status as u64).as_str()));
    }
    if let Some(n) = length {
        if n > MAX_VIDEO_BYTES {
            return Err("视频文件超过 4 GiB 限制".to_owned());
        }
    }
    Ok(())
}

/// Counts the bytes of a video as they are copied; a video of more than the
/// limit is not copied.
pub fn count_downloaded(total: u64, chunk: u64) -> (r: Result<u64, String>)
    requires
        total <= MAX_VIDEO_BYTES,
    ensures
        match r {
            Ok(sum) => sum == total + chunk && sum <= MAX_VIDEO_BYTES,
            Err(error) => total + chunk > MAX_VIDEO_BYTES && error@ == "视频文件超过 4 GiB 限制"@,
        },
{
    if chunk > MAX_VIDEO_BYTES - total {
        return Err("视频文件超过 4 GiB 限制".to_owned());
    }
    Ok(total + chunk)
}

/// The file is a video, or a part of one.
pub open spec fn is_video_file(name: Seq<char>) -> bool {
    ||| text::ends_with(name, ".mp4"@) && name.len() > 4
    ||| text::ends_with(name, ".mp4.part"@)
}

/// The file is a video that was kept long enough. A file of unknown age counts
/// as new.
pub open spec fn is_old_video(
    name: Seq<char>,
    modified: Option<u64>,
    now: u64,
    retention_secs: u64,
) -> bool {
    let since = match modified {
        Some(t) => t,
        None => now,
    };
    &&& is_video_file(name)
    &&& retention_secs > 0
    &&& (if now >= since {
        now - since
    } else {
        0
    }) >= retention_secs
}

/// The file is to be removed at time `now`: it is a video, or a part of one,
/// and was kept long enough.
pub fn cleanup(name: &str, modified: Option<u64>, now: u64, retention_secs: u64) -> (r: bool)
    ensures
        r == is_old_video(name@, modified, now, retention_secs),
{
    let video = (text::finishes_with(name, ".mp4") && name.unicode_len() > 4)
        || text::finishes_with(name, ".mp4.part");
    let since: u64 = match modified {
        Some(t) => t,
        None => now,
    };
    let age: u64 = if now >= since {
        now - since
    } else {
        0
    };
    video && retention_secs > 0 && age >= retention_secs
}

/// The name of a stored video leads nowhere else: it holds no separator, and
/// no dot but the one of its ending.
pub proof fn law_video_file_stays_in_its_directory(
    data_dir: Seq<char>,
    configured: Option<Seq<char>>,
    task_id: Seq<char>,
)
    requires
        is_safe_id(task_id),
    ensures
        ({
            let file = video_file(data_dir, configured, task_id);
            let name = file.parts.last();
            &&& file.root == videos_at(data_dir, configured).root
            &&& file.parts.drop_last() == videos_at(data_dir, configured).parts
            &&& forall|i: int| 0 <= i < name.len() - 4 ==> name_char(#[trigger] name[i])
            &&& !name.contains('/')
            &&& !name.contains('\\')
        }),
{
    let file = video_file(data_dir, configured, task_id);
    let dir = videos_at(data_dir, configured);
    let id = text::trim(task_id);
    let name = id + ".mp4"@;
    reveal_strlit(".mp4");
    assert(file.parts.drop_last() =~= dir.parts);
    assert(file.parts.last() == name);
    assert forall|i: int| 0 <= i < name.len() - 4 implies name_char(#[trigger] name[i]) by {
        assert(name[i] == id[i]);
    }
    assert forall|i: int| 0 <= i < name.len() implies #[trigger] name[i] != '/' && name[i]
        != '\\' by {
        if i < id.len() {
            assert(name_char(id[i]));
        } else {
            assert(name[i] == ".mp4"@[i - id.len()]);
        }
    }
}

} // verus!
