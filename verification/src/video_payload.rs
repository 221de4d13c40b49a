//! The inputs of queued videos.
//!
//! Core keeps no more of a video's input than a digest. The input itself is
//! kept in a protected file of its own until the video is done with. The file
//! is named after the job; nothing of the input stands in a name.

use crate::json::{self, Json, JsonView};
use crate::text;
use crate::video_store::{self, PathView, StoragePath};
use vstd::prelude::*;

verus! {

/// The version of the form in which inputs are kept.
pub const PAYLOAD_VERSION: u8 = 1;

/// The most bytes that an input may have before it is protected.
pub const MAX_PLAINTEXT_BYTES: usize = 8388608;

/// The directory of the inputs.
#[derive(Debug)]
pub struct VideoPayloadStore {
    pub root: StoragePath,
}

/// An input with what it belongs to.
#[derive(Debug)]
pub struct PayloadEnvelope {
    pub version: u8,
    pub job_id: String,
    pub user_id: String,
    pub input_hash: Vec<u8>,
    pub body: Json,
}

/// The model of a [`PayloadEnvelope`].
pub struct EnvelopeView {
    pub version: u8,
    pub job_id: Seq<char>,
    pub user_id: Seq<char>,
    pub input_hash: Seq<u8>,
    pub body: JsonView,
}

impl View for PayloadEnvelope {
    type V = EnvelopeView;

    open spec fn view(&self) -> EnvelopeView {
        EnvelopeView {
            version: self.version,
            job_id: self.job_id@,
            user_id: self.user_id@,
            input_hash: self.input_hash@,
            body: self.body@,
        }
    }
}

/// The model of an optional input.
pub open spec fn opt_envelope(stored: Option<PayloadEnvelope>) -> Option<EnvelopeView> {
    match stored {
        Some(envelope) => Some(envelope@),
        None => None,
    }
}

/// A control character.
pub open spec fn is_control(c: char) -> bool {
    c <= '\u{1f}' || '\u{7f}' <= c <= '\u{9f}'
}

/// A name that a job may have.
pub open spec fn valid_job(job_id: Seq<char>) -> bool {
    job_id.len() > 0 && text::byte_len(job_id) <= 128 && video_store::plain_name(job_id)
}

/// A name that an owner may have.
pub open spec fn valid_owner(user_id: Seq<char>) -> bool {
    &&& text::trim(user_id).len() > 0
    &&& text::byte_len(user_id) <= 256
    &&& forall|i: int| 0 <= i < user_id.len() ==> !is_control(#[trigger] user_id[i])
}

/// What is wrong with the names and the digest of an input.
pub open spec fn fault_of(
    job_id: Seq<char>,
    user_id: Seq<char>,
    input_hash: Seq<u8>,
) -> Option<Seq<char>> {
    if !valid_job(job_id) {
        Some("video payload job id is invalid"@)
    } else if !valid_owner(user_id) {
        Some("video payload owner is invalid"@)
    } else if input_hash.len() != 32 {
        Some("video payload digest is invalid"@)
    } else {
        None
    }
}

/// Refuses a name that a job may not have.
pub fn validate_job_id(value: &str) -> (r: Result<(), String>)
    ensures
        match r {
            Ok(_) => valid_job(value@),
            Err(error) => !valid_job(value@) && error@ == "video payload job id is invalid"@,
        },
{
    if value.is_empty() || text::bytes_in(value) > 128 || !video_store::is_plain_name(value) {
        return Err("video payload job id is invalid".to_owned());
    }
    Ok(())
}

fn has_control(value: &str) -> (r: bool)
    ensures
        r == exists|i: int| 0 <= i < value@.len() && is_control(#[trigger] value@[i]),
{
    let c = text::chars_of(value);
    let mut i: usize = 0;
    while i < c.len()
        invariant
            i <= c.len(),
            c@ == value@,
            forall|j: int| 0 <= j < i ==> !is_control(#[trigger] c@[j]),
        decreases c.len() - i,
    {
        if c[i] <= '\u{1f}' || ('\u{7f}' <= c[i] && c[i] <= '\u{9f}') {
            assert(is_control(value@[i as int]));
            return true;
        }
        i = i + 1;
    }
    false
}

/// Refuses a name that an owner may not have.
pub fn validate_user_id(value: &str) -> (r: Result<(), String>)
    ensures
        match r {
            Ok(_) => valid_owner(value@),
            Err(error) => !valid_owner(value@) && error@ == "video payload owner is invalid"@,
        },
{
    if text::blank(value) || text::bytes_in(value) > 256 || has_control(value) {
        return Err("video payload owner is invalid".to_owned());
    }
    Ok(())
}

/// Refuses a digest that is none.
pub fn validate_input_hash(value: &Vec<u8>) -> (r: Result<(), String>)
    ensures
        match r {
            Ok(_) => value@.len() == 32,
            Err(error) => value@.len() != 32 && error@ == "video payload digest is invalid"@,
        },
{
    if value.len() != 32 {
        return Err("video payload digest is invalid".to_owned());
    }
    Ok(())
}

fn validate(job_id: &str, user_id: &str, input_hash: &Vec<u8>) -> (r: Result<(), String>)
    ensures
        match r {
            Ok(_) => fault_of(job_id@, user_id@, input_hash@) is None,
            Err(error) => fault_of(job_id@, user_id@, input_hash@) == Some(error@),
        },
{
    validate_job_id(job_id)?;
    validate_user_id(user_id)?;
    validate_input_hash(input_hash)
}

/// The input of a job with what it belongs to.
pub open spec fn sealed(
    job_id: Seq<char>,
    user_id: Seq<char>,
    input_hash: Seq<u8>,
    body: JsonView,
) -> EnvelopeView {
    EnvelopeView { version: PAYLOAD_VERSION, job_id, user_id, input_hash, body }
}

/// What a read gives back: the input, where one is kept; an input that belongs
/// to another job, owner or digest is refused.
pub open spec fn opened(
    job_id: Seq<char>,
    user_id: Seq<char>,
    input_hash: Seq<u8>,
    stored: Option<EnvelopeView>,
) -> Result<Option<JsonView>, Seq<char>> {
    match fault_of(job_id, user_id, input_hash) {
        Some(error) => Err(error),
        None => match stored {
            None => Ok(None),
            Some(envelope) => if envelope.job_id != job_id || envelope.user_id != user_id
                || envelope.input_hash != input_hash {
                Err("video payload ownership or digest mismatch"@)
            } else {
                Ok(Some(envelope.body))
            },
        },
    }
}

/// The model of what a read gives back.
pub open spec fn opened_view(r: Result<Option<Json>, String>) -> Result<
    Option<JsonView>,
    Seq<char>,
> {
    match r {
        Ok(Some(body)) => Ok(Some(body@)),
        Ok(None) => Ok(None),
        Err(error) => Err(error@),
    }
}

/// The file of a job.
pub open spec fn payload_file(root: PathView, job_id: Seq<char>) -> PathView {
    root.join(job_id + ".bin"@)
}

fn same_bytes(a: &Vec<u8>, b: &Vec<u8>) -> (r: bool)
    ensures
        r == (a@ == b@),
{
    if a.len() != b.len() {
        return false;
    }
    let mut i: usize = 0;
    while i < a.len()
        invariant
            i <= a.len(),
            a.len() == b.len(),
            forall|j: int| 0 <= j < i ==> a@[j] == b@[j],
        decreases a.len() - i,
    {
        if a[i] != b[i] {
            return false;
        }
        i = i + 1;
    }
    assert(a@ =~= b@);
    true
}

impl VideoPayloadStore {
    /// The store in a data directory.
    pub fn new(data_dir: &str) -> (r: VideoPayloadStore)
        ensures
            r.root@ == video_store::path_at(data_dir@).join("data"@).join("video_payloads"@),
    {
        VideoPayloadStore { root: StoragePath::at(data_dir).join("data").join("video_payloads") }
    }

    /// The file of a job.
    pub fn path_for(&self, job_id: &str) -> (r: StoragePath)
        ensures
            r@ == payload_file(self.root@, job_id@),
    {
        self.place(text::join2(job_id, ".bin").as_str())
    }

    fn place(&self, name: &str) -> (r: StoragePath)
        ensures
            r@ == self.root@.join(name@),
    {
        let mut parts: Vec<String> = Vec::new();
        let mut i: usize = 0;
        while i < self.root.parts.len()
            invariant
                i <= self.root.parts.len(),
                parts.len() == i,
                forall|j: int| 0 <= j < i ==> #[trigger] parts@[j]@ == self.root.parts@[j]@,
            decreases self.root.parts.len() - i,
        {
            parts.push(self.root.parts[i].clone());
            i = i + 1;
        }
        let copy = StoragePath { root: self.root.root.clone(), parts };
        assert(copy@ =~= self.root@);
        copy.join(name)
    }

    /// The file that an input is written to before it takes its place.
    pub fn temp_path(&self, job_id: &str, n: u64) -> (r: StoragePath)
        ensures
            r@ == self.root@.join("."@ + job_id@ + "."@ + text::decimal(n as nat) + ".tmp"@),
    {
        let mut name = text::join3(".", job_id, ".");
        name.push_str(text::decimal_text(n).as_str());
        name.push_str(".tmp");
        self.place(name.as_str())
    }

    /// The input of a job as it is kept, where its names and digest are valid.
    pub fn put(&self, job_id: &str, user_id: &str, input_hash: &Vec<u8>, body: &Json) -> (r: Result<
        PayloadEnvelope,
        String,
    >)
        ensures
            match r {
                Ok(envelope) => fault_of(job_id@, user_id@, input_hash@) is None && envelope@
                    == sealed(job_id@, user_id@, input_hash@, body@),
                Err(error) => fault_of(job_id@, user_id@, input_hash@) == Some(error@),
            },
    {
        validate(job_id, user_id, input_hash)?;
        Ok(
            PayloadEnvelope {
                version: PAYLOAD_VERSION,
                job_id: job_id.to_owned(),
                user_id: user_id.to_owned(),
                input_hash: input_hash.clone(),
                body: body.dup(),
            },
        )
    }

    /// What a read gives back, where `stored` is what the job's file holds.
    pub fn get(
        &self,
        job_id: &str,
        user_id: &str,
        input_hash: &Vec<u8>,
        stored: Option<PayloadEnvelope>,
    ) -> (r: Result<Option<Json>, String>)
        ensures
            opened_view(r) == opened(job_id@, user_id@, input_hash@, opt_envelope(stored)),
    {
        validate(job_id, user_id, input_hash)?;
        match stored {
            None => Ok(None),
            Some(envelope) => {
                if !text::same(envelope.job_id.as_str(), job_id) || !text::same(
                    envelope.user_id.as_str(),
                    user_id,
                ) || !same_bytes(&envelope.input_hash, input_hash) {
                    return Err("video payload ownership or digest mismatch".to_owned());
                }
                Ok(Some(envelope.body))
            },
        }
    }

    /// The file that is to be removed with its job; one that is gone already is
    /// no error.
    pub fn remove(&self, job_id: &str) -> (r: Result<StoragePath, String>)
        ensures
            match r {
                Ok(path) => valid_job(job_id@) && path@ == payload_file(self.root@, job_id@),
                Err(error) => !valid_job(job_id@) && error@
                    == "video payload job id is invalid"@,
            },
    {
        validate_job_id(job_id)?;
        Ok(self.path_for(job_id))
    }
}

/// Refuses an input that is too large to be protected.
pub fn check_plaintext(size: usize) -> (r: Result<(), String>)
    ensures
        match r {
            Ok(_) => size <= MAX_PLAINTEXT_BYTES,
            Err(error) => size > MAX_PLAINTEXT_BYTES && error@
                == "video payload exceeds the 8MB protected limit"@,
        },
{
    if size > MAX_PLAINTEXT_BYTES {
        return Err("video payload exceeds the 8MB protected limit".to_owned());
    }
    Ok(())
}

/// What is wrong with an input that was read back.
pub open spec fn read_fault(size: nat, envelope: Option<EnvelopeView>) -> Option<Seq<char>> {
    if size > MAX_PLAINTEXT_BYTES {
        Some("video payload exceeds the protected limit"@)
    } else {
        match envelope {
            None => Some("video payload is invalid"@),
            Some(envelope) => if envelope.version != PAYLOAD_VERSION || envelope.job_id.len() == 0
                || envelope.input_hash.len() != 32 {
                Some("video payload metadata is invalid"@)
            } else {
                None
            },
        }
    }
}

/// An input that was read back: `size` is its size in bytes, and `envelope`
/// what it holds, where it could be read.
pub fn check_envelope(size: usize, envelope: Option<PayloadEnvelope>) -> (r: Result<
    PayloadEnvelope,
    String,
>)
    ensures
        match r {
            Ok(found) => read_fault(size as nat, opt_envelope(envelope)) is None && envelope
                == Some(found),
            Err(error) => read_fault(size as nat, opt_envelope(envelope)) == Some(error@),
        },
{
    if size > MAX_PLAINTEXT_BYTES {
        return Err("video payload exceeds the protected limit".to_owned());
    }
    match envelope {
        None => Err("video payload is invalid".to_owned()),
        Some(envelope) => {
            if envelope.version != PAYLOAD_VERSION || envelope.job_id.as_str().is_empty()
                || envelope.input_hash.len() != 32 {
                return Err("video payload metadata is invalid".to_owned());
            }
            Ok(envelope)
        },
    }
}

/// Two inputs are the same: of the same job, user and digest, with bodies that
/// say the same.
pub open spec fn same_input(a: EnvelopeView, b: EnvelopeView) -> bool {
    &&& a.version == b.version
    &&& a.job_id == b.job_id
    &&& a.user_id == b.user_id
    &&& a.input_hash == b.input_hash
    &&& json::same_document(a.body, b.body)
}

/// An input that is kept already is left alone; another one under its name is a
/// conflict.
pub fn settle_existing(new: &PayloadEnvelope, existing: &PayloadEnvelope) -> (r: Result<(), String>)
    ensures
        match r {
            Ok(_) => same_input(existing@, new@),
            Err(error) => !same_input(existing@, new@) && error@
                == "video payload conflicts with the existing job"@,
        },
{
    if existing.version == new.version && text::same(
        existing.job_id.as_str(),
        new.job_id.as_str(),
    ) && text::same(existing.user_id.as_str(), new.user_id.as_str()) && same_bytes(
        &existing.input_hash,
        &new.input_hash,
    ) && existing.body.same(&new.body) {
        Ok(())
    } else {
        Err("video payload conflicts with the existing job".to_owned())
    }
}

/// Keeping the same input again is no conflict.
pub proof fn law_keeping_an_input_again_is_no_conflict(input: EnvelopeView)
    requires
        json::names_once(input.body),
    ensures
        same_input(input, input),
{
    json::lemma_same_as_itself(input.body);
}

/// What was kept for a job is read back by its owner under its digest, and by
/// nobody else and under no other digest.
pub proof fn law_a_kept_input_is_read_back_by_its_owner(
    job_id: Seq<char>,
    user_id: Seq<char>,
    input_hash: Seq<u8>,
    body: JsonView,
    other_user: Seq<char>,
    other_hash: Seq<u8>,
)
    requires
        fault_of(job_id, user_id, input_hash) is None,
    ensures
        ({
            let kept = Some(sealed(job_id, user_id, input_hash, body));
            &&& opened(job_id, user_id, input_hash, kept) == Ok::<Option<JsonView>, Seq<char>>(
                Some(body),
            )
            &&& other_user != user_id ==> opened(job_id, other_user, input_hash, kept) is Err
            &&& other_hash != input_hash ==> opened(job_id, user_id, other_hash, kept) is Err
        }),
{
}

/// What was kept can be read back as far as its form goes.
pub proof fn law_a_kept_input_is_well_formed(
    job_id: Seq<char>,
    user_id: Seq<char>,
    input_hash: Seq<u8>,
    body: JsonView,
    size: nat,
)
    requires
        fault_of(job_id, user_id, input_hash) is None,
        size <= MAX_PLAINTEXT_BYTES,
    ensures
        read_fault(size, Some(sealed(job_id, user_id, input_hash, body))) is None,
{
}

/// Nothing of the input stands in the name of its file, and the file stands in
/// the store's own directory.
pub proof fn law_the_file_of_a_job_is_its_own(
    root: PathView,
    a: Seq<char>,
    b: Seq<char>,
)
    ensures
        payload_file(root, a).parts.drop_last() == root.parts,
        payload_file(root, a) == payload_file(root, b) ==> a == b,
{
    assert(payload_file(root, a).parts.drop_last() =~= root.parts);
    if payload_file(root, a) == payload_file(root, b) {
        let x = payload_file(root, a).parts.last();
        let y = payload_file(root, b).parts.last();
        assert(x == a + ".bin"@ && y == b + ".bin"@);
        assert(x == y);
        assert(x.len() == a.len() + ".bin"@.len() && y.len() == b.len() + ".bin"@.len());
        assert(a.len() == b.len());
        assert(a =~= x.subrange(0, a.len() as int));
        assert(b =~= y.subrange(0, b.len() as int));
    }
}

} // verus!
