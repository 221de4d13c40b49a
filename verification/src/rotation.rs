//! The accounts of the pool that one chat request is tried on.
//!
//! A request is tried on one account after another until an account serves it,
//! the request itself turns out to be at fault, or no account is left. The
//! rules of the streamed and of the collected reply differ in what is noted
//! down on the way; what they share stands here.

use crate::reply::{self, Protocol, StreamError, StreamErrorView};
use crate::text;
use crate::video_events::ErrKind;
use vstd::prelude::*;

verus! {

/// What a request waits for.
#[derive(Clone, Copy, Debug, PartialEq, Eq, Structural)]
pub enum Stage {
    Picking,
    Binding,
    Recording,
    Sending,
    Over,
}

/// A request on its way through the pool.
#[derive(Debug)]
pub struct Rotation {
    pub protocol: Protocol,
    pub stage: Stage,
    /// The account in use.
    pub uid: String,
    /// The accounts that were used, this one among them.
    pub tried: Vec<String>,
    /// How many more accounts may be used.
    pub left: u64,
    /// How often the request was sent again to the account in use.
    pub same_attempt: u32,
}

/// The model of a [`Rotation`].
#[verifier::ext_equal]
pub struct RotationView {
    pub protocol: Protocol,
    pub stage: Stage,
    pub uid: Seq<char>,
    pub tried: Seq<Seq<char>>,
    pub left: u64,
    pub same_attempt: u32,
}

impl View for Rotation {
    type V = RotationView;

    open spec fn view(&self) -> RotationView {
        RotationView {
            protocol: self.protocol,
            stage: self.stage,
            uid: self.uid@,
            tried: text::views(self.tried@),
            left: self.left,
            same_attempt: self.same_attempt,
        }
    }
}

/// What is to be done about a request that the upstream refused.
#[derive(Clone, Copy, Debug, PartialEq, Eq, Structural)]
pub enum RetryAction {
    /// Send it again to the same account after a while.
    RetrySame(u64),
    /// Try another account.
    SwitchKey,
    /// The request is at fault.
    Fatal,
}

/// Something to be noted down, in the order in which it stands.
#[derive(Debug)]
pub enum Effect {
    /// The account is the one in use.
    Active(String),
    /// The account met an error of that kind.
    Failed(String, ErrKind),
    /// The account served the request.
    Served(String),
    /// The last error that the gateway shows.
    LastError(String),
    /// A line of the request log: the status, the account and a remark. The
    /// time to the first byte belongs to it where a stream was read.
    Log(u16, String, Option<String>),
    /// A line of the debug log, where it is switched on: the account, the text
    /// of the reply, the status and a remark.
    Debug(String, Option<String>, u16, Option<String>),
    /// The use of an account: whether it served the request, the tokens of the
    /// prompt and of the completion, and whether the key is charged.
    Usage(String, bool, u64, u64, bool),
    /// The turn of the conversation is kept.
    Remember,
    /// The event that ends the client's stream.
    Send(StreamError),
    /// Why no account of the pool can be used.
    Diagnose,
}

/// The model of an [`Effect`].
pub enum EffectView {
    Active(Seq<char>),
    Failed(Seq<char>, ErrKind),
    Served(Seq<char>),
    LastError(Seq<char>),
    Log(u16, Seq<char>, Option<Seq<char>>),
    Debug(Seq<char>, Option<Seq<char>>, u16, Option<Seq<char>>),
    Usage(Seq<char>, bool, u64, u64, bool),
    Remember,
    Send(StreamErrorView),
    Diagnose,
}

impl View for Effect {
    type V = EffectView;

    open spec fn view(&self) -> EffectView {
        match self {
            Effect::Active(uid) => EffectView::Active(uid@),
            Effect::Failed(uid, kind) => EffectView::Failed(uid@, *kind),
            Effect::Served(uid) => EffectView::Served(uid@),
            Effect::LastError(error) => EffectView::LastError(error@),
            Effect::Log(status, uid, remark) => EffectView::Log(
                *status,
                uid@,
                text::opt_view(*remark),
            ),
            Effect::Debug(uid, body, status, remark) => EffectView::Debug(
                uid@,
                text::opt_view(*body),
                *status,
                text::opt_view(*remark),
            ),
            Effect::Usage(uid, served, prompt, completion, charged) => EffectView::Usage(
                uid@,
                *served,
                *prompt,
                *completion,
                *charged,
            ),
            Effect::Remember => EffectView::Remember,
            Effect::Send(event) => EffectView::Send(event@),
            Effect::Diagnose => EffectView::Diagnose,
        }
    }
}

/// What is to be noted down, in order.
#[derive(Debug)]
pub struct Effects {
    pub list: Vec<Effect>,
}

impl View for Effects {
    type V = Seq<EffectView>;

    open spec fn view(&self) -> Seq<EffectView> {
        Seq::new(self.list@.len(), |i: int| self.list@[i]@)
    }
}

impl Effects {
    /// Nothing is to be noted down.
    pub fn nothing() -> (r: Effects)
        ensures
            r@ == Seq::<EffectView>::empty(),
    {
        let r = Effects { list: Vec::new() };
        assert(r@ =~= Seq::<EffectView>::empty());
        r
    }

    /// One thing more.
    pub fn and(self, effect: Effect) -> (r: Effects)
        ensures
            r@ == self@.push(effect@),
    {
        let ghost before = self@;
        let mut list = self.list;
        list.push(effect);
        let r = Effects { list };
        assert(r@ =~= before.push(effect@));
        r
    }
}

/// What is noted down where nothing is.
pub open spec fn quiet() -> Seq<EffectView> {
    Seq::empty()
}

/// A request before its first account. A pool without accounts is asked once.
pub open spec fn begun(protocol: Protocol, accounts: u64) -> RotationView {
    RotationView {
        protocol,
        stage: Stage::Picking,
        uid: Seq::empty(),
        tried: Seq::empty(),
        left: if accounts == 0 {
            1
        } else {
            accounts
        },
        same_attempt: 0,
    }
}

/// A request before its first account. Every account of the pool may be used
/// once; a pool without accounts is asked once.
pub fn begin(protocol: Protocol, accounts: u64) -> (r: Rotation)
    ensures
        r@ == begun(protocol, accounts),
{
    let left: u64 = if accounts == 0 {
        1
    } else {
        accounts
    };
    let r = Rotation {
        protocol,
        stage: Stage::Picking,
        uid: String::new(),
        tried: Vec::new(),
        left,
        same_attempt: 0,
    };
    assert(r@.tried =~= Seq::empty());
    assert(r@.uid =~= Seq::empty());
    r
}

/// The request with its next account.
pub open spec fn picked(r: RotationView, uid: Seq<char>) -> RotationView {
    RotationView {
        stage: Stage::Binding,
        uid,
        tried: r.tried.push(uid),
        left: (r.left - 1) as u64,
        same_attempt: 0,
        ..r
    }
}

/// Takes up the next account.
pub fn pick(rotation: &mut Rotation, uid: String)
    requires
        old(rotation)@.left > 0,
    ensures
        final(rotation)@ == picked(old(rotation)@, uid@),
{
    let ghost before = text::views(rotation.tried@);
    rotation.tried.push(uid.clone());
    assert(text::views(rotation.tried@) =~= before.push(uid@));
    rotation.uid = uid;
    rotation.left = rotation.left - 1;
    rotation.same_attempt = 0;
    rotation.stage = Stage::Binding;
}

/// How long the request rests before it is sent again, in milliseconds.
pub open spec fn resting(delay_ms: u64) -> u64 {
    if delay_ms < 60000 {
        delay_ms
    } else {
        60000
    }
}

/// How long the request rests before it is sent again, in milliseconds.
pub fn rest(delay_ms: u64) -> (r: u64)
    ensures
        r == resting(delay_ms),
{
    if delay_ms < 60000 {
        delay_ms
    } else {
        60000
    }
}

/// What the client is told where no session of its own could be bound.
pub open spec fn unbound_message() -> Seq<char> {
    "Core 请求无法建立独立的上游用量会话，已阻止未记录的上游调用"@
}

/// What the client is told where the use of an account could not be recorded.
pub open spec fn unrecorded_message() -> Seq<char> {
    "Core 请求与上游会话归因暂不可用，已阻止未记录的上游调用"@
}

/// The error that an account met while its stream was read.
pub open spec fn stream_failure(uid: Seq<char>, code: i64, message: Seq<char>) -> Seq<char> {
    "uid="@ + uid + " code="@ + reply::signed_text(code) + " msg="@ + message
}

/// The error that an account met while its stream was read.
pub fn stream_failure_text(uid: &str, code: i64, message: &str) -> (r: String)
    ensures
        r@ == stream_failure(uid@, code, message@),
{
    let mut r = text::join3("uid=", uid, " code=");
    r.push_str(reply::signed_decimal(code).as_str());
    r.push_str(" msg=");
    r.push_str(message);
    r
}

/// The status that an account was answered with.
pub open spec fn status_failure(uid: Seq<char>, status: u16) -> Seq<char> {
    "uid="@ + uid + " status="@ + text::decimal(status as nat)
}

/// The status that an account was answered with.
pub fn status_failure_text(uid: &str, status: u16) -> (r: String)
    ensures
        r@ == status_failure(uid@, status),
{
    let mut r = text::join3("uid=", uid, " status=");
    r.push_str(text::decimal_text(status as u64).as_str());
    r
}

/// The remark on a status of the upstream.
pub open spec fn status_remark(status: u16) -> Seq<char> {
    "upstream status="@ + text::decimal(status as nat)
}

/// The remark on a status of the upstream.
pub fn status_remark_text(status: u16) -> (r: String)
    ensures
        r@ == status_remark(status),
{
    text::join2("upstream status=", text::decimal_text(status as u64).as_str())
}

/// What the client is told of a request at fault: the status and the start of
/// what the upstream said.
pub open spec fn fault(status: u16, body: Seq<char>) -> Seq<char> {
    "upstream "@ + text::decimal(status as nat) + " error: "@ + reply::bounded_prefix(body, 300)
}

/// What the client is told of a request at fault.
pub fn fault_text(status: u16, body: &str) -> (r: String)
    ensures
        r@ == fault(status, body@),
{
    let mut r = text::join3("upstream ", text::decimal_text(status as u64).as_str(), " error: ");
    r.push_str(reply::safe_slice(body, 300));
    r
}

/// The name of a reply of a protocol that begins at time `now`.
pub open spec fn reply_id(protocol: Protocol, now: u64) -> Seq<char> {
    let prefix = match protocol {
        Protocol::OpenAi => "chatcmpl-"@,
        Protocol::OpenAiText => "cmpl-"@,
        Protocol::Anthropic => "msg_"@,
        Protocol::Responses => "resp_"@,
    };
    prefix + text::decimal(now as nat)
}

/// The name of a reply of a protocol that begins at time `now`.
pub fn chat_id(protocol: Protocol, now: u64) -> (r: String)
    ensures
        r@ == reply_id(protocol, now),
{
    let prefix = match protocol {
        Protocol::OpenAi => "chatcmpl-",
        Protocol::OpenAiText => "cmpl-",
        Protocol::Anthropic => "msg_",
        Protocol::Responses => "resp_",
    };
    text::join2(prefix, text::decimal_text(now).as_str())
}

/// What is known of an account that cannot be used.
#[derive(Debug)]
pub struct Diagnosis {
    pub name: String,
    pub uid: String,
    pub reason: String,
    /// The credits in whole numbers, where they are known.
    pub credits: Option<String>,
    /// When the account may be used again.
    pub until: i64,
    pub credits_expire_at: Option<i64>,
    pub disabled: bool,
}

/// The model of a [`Diagnosis`].
pub struct DiagnosisView {
    pub name: Seq<char>,
    pub uid: Seq<char>,
    pub reason: Seq<char>,
    pub credits: Option<Seq<char>>,
    pub until: i64,
    pub credits_expire_at: Option<i64>,
    pub disabled: bool,
}

impl View for Diagnosis {
    type V = DiagnosisView;

    open spec fn view(&self) -> DiagnosisView {
        DiagnosisView {
            name: self.name@,
            uid: self.uid@,
            reason: self.reason@,
            credits: text::opt_view(self.credits),
            until: self.until,
            credits_expire_at: self.credits_expire_at,
            disabled: self.disabled,
        }
    }
}

/// The difference, kept within 64 bits.
pub open spec fn bounded_difference(a: i64, b: i64) -> i64 {
    if a - b > i64::MAX {
        i64::MAX
    } else if a - b < i64::MIN {
        i64::MIN
    } else {
        (a - b) as i64
    }
}

fn difference(a: i64, b: i64) -> (r: i64)
    ensures
        r == bounded_difference(a, b),
{
    let wide: i128 = a as i128 - b as i128;
    if wide > i64::MAX as i128 {
        i64::MAX
    } else if wide < i64::MIN as i128 {
        i64::MIN
    } else {
        wide as i64
    }
}

/// The first eight bytes of an account's name, where a character ends there;
/// else the whole name.
pub open spec fn short_uid(uid: Seq<char>) -> Seq<char> {
    let bytes = vstd::utf8::encode_utf8(uid);
    if bytes.len() >= 8 && vstd::utf8::is_char_boundary(bytes, 8) {
        vstd::utf8::decode_utf8(bytes.subrange(0, 8))
    } else {
        uid
    }
}

/// Why an account cannot be used, in short.
pub open spec fn diagnosis_text(d: DiagnosisView, now: i64) -> Seq<char> {
    d.name + "("@ + short_uid(d.uid) + ":"@ + d.reason + ",cr="@ + match d.credits {
        Some(credits) => credits,
        None => "N/A"@,
    } + if d.until > 0 {
        ",cd="@ + reply::signed_text(bounded_difference(d.until, now)) + "s"@
    } else {
        Seq::empty()
    } + match d.credits_expire_at {
        Some(e) => if e > 0 {
            ",exp="@ + reply::signed_text(e)
        } else {
            Seq::empty()
        },
        None => Seq::empty(),
    } + if d.disabled {
        ",DIS"@
    } else {
        Seq::empty()
    } + ")"@
}

fn short_name(uid: &str) -> (r: &str)
    ensures
        r@ == short_uid(uid@),
{
    if uid.as_bytes().len() >= 8 && uid.is_char_boundary(8) {
        let r = uid.split_at(8).0;
        proof {
            vstd::utf8::encode_utf8_decode_utf8(r@);
        }
        r
    } else {
        uid
    }
}

/// Why an account cannot be used, in short.
pub fn diagnose(d: &Diagnosis, now: i64) -> (r: String)
    ensures
        r@ == diagnosis_text(d@, now),
{
    let mut r = text::join3(d.name.as_str(), "(", short_name(d.uid.as_str()));
    r.push_str(":");
    r.push_str(d.reason.as_str());
    r.push_str(",cr=");
    match &d.credits {
        Some(credits) => r.push_str(credits.as_str()),
        None => r.push_str("N/A"),
    }
    let mut cooldown = String::new();
    if d.until > 0 {
        let rest: i64 = difference(d.until, now);
        cooldown = text::join3(",cd=", reply::signed_decimal(rest).as_str(), "s");
    } else {
        assert(cooldown@ =~= Seq::empty());
    }
    r.push_str(cooldown.as_str());
    let mut expiry = String::new();
    assert(expiry@ =~= Seq::empty());
    if let Some(e) = d.credits_expire_at {
        if e > 0 {
            expiry = text::join2(",exp=", reply::signed_decimal(e).as_str());
        }
    }
    r.push_str(expiry.as_str());
    let mut disabled = String::new();
    assert(disabled@ =~= Seq::empty());
    if d.disabled {
        disabled = ",DIS".to_owned();
    }
    r.push_str(disabled.as_str());
    r.push_str(")");
    r
}

/// The reasons of all accounts, in short.
pub open spec fn diagnosis_list(all: Seq<DiagnosisView>, now: i64) -> Seq<char> {
    text::join(Seq::new(all.len(), |i: int| diagnosis_text(all[i], now)), ", "@)
}

fn reasons(all: &Vec<Diagnosis>, now: i64) -> (r: String)
    ensures
        r@ == diagnosis_list(Seq::new(all@.len(), |i: int| all@[i]@), now),
{
    let mut list: Vec<String> = Vec::new();
    let mut i: usize = 0;
    while i < all.len()
        invariant
            i <= all.len(),
            list.len() == i,
            forall|j: int| 0 <= j < i ==> #[trigger] list@[j]@ == diagnosis_text(all@[j]@, now),
        decreases all.len() - i,
    {
        list.push(diagnose(&all[i], now));
        i = i + 1;
    }
    let ghost views = Seq::new(all@.len(), |i: int| all@[i]@);
    assert(text::views(list@) =~= Seq::new(views.len(), |i: int| diagnosis_text(views[i], now)));
    text::joined(&list, ", ")
}

/// A number below a hundred with two digits.
pub open spec fn two_digits(n: nat) -> Seq<char> {
    if n < 10 {
        "0"@ + text::decimal(n)
    } else {
        text::decimal(n)
    }
}

fn two_digit_text(n: u64) -> (r: String)
    ensures
        r@ == two_digits(n as nat),
{
    if n < 10 {
        text::join2("0", text::decimal_text(n).as_str())
    } else {
        text::decimal_text(n)
    }
}

/// The counts and the reasons in the line on a pool without a usable account.
pub open spec fn exhausted_tail(tried: nat, all: Seq<DiagnosisView>, now: i64) -> Seq<char> {
    " tried="@ + text::decimal(tried) + " pool="@ + text::decimal(all.len()) + " reasons=["@
        + diagnosis_list(all, now) + "]"@
}

/// The line on a pool without a usable account: for a streamed reply with the
/// time of day eight hours east of Greenwich.
pub open spec fn exhausted_line(
    streamed: bool,
    now: u64,
    tried: nat,
    all: Seq<DiagnosisView>,
) -> Seq<char> {
    if streamed {
        let local = (now + 28800) as nat;
        "NO_HEALTHY_ACCOUNT ["@ + two_digits((local % 86400) / 3600) + ":"@ + two_digits(
            (local % 3600) / 60,
        ) + ":"@ + two_digits(local % 60) + "]"@ + exhausted_tail(tried, all, now as i64)
    } else {
        "NO_HEALTHY_ACCOUNT(non-stream)"@ + exhausted_tail(tried, all, now as i64)
    }
}

/// The line on a pool without a usable account.
pub fn no_healthy_account(streamed: bool, now: u64, tried: usize, all: &Vec<Diagnosis>) -> (r:
    String)
    requires
        now <= i64::MAX,
    ensures
        r@ == exhausted_line(
            streamed,
            now,
            tried as nat,
            Seq::new(all@.len(), |i: int| all@[i]@),
        ),
{
    let ghost views = Seq::new(all@.len(), |i: int| all@[i]@);
    let mut tail = text::join3(" tried=", text::decimal_text(tried as u64).as_str(), " pool=");
    tail.push_str(text::decimal_text(all.len() as u64).as_str());
    tail.push_str(" reasons=[");
    tail.push_str(reasons(all, now as i64).as_str());
    tail.push_str("]");
    assert(tail@ == exhausted_tail(tried as nat, views, now as i64));
    if streamed {
        let local: u64 = now + 28800;
        let mut r = text::join3(
            "NO_HEALTHY_ACCOUNT [",
            two_digit_text((local % 86400) / 3600).as_str(),
            ":",
        );
        r.push_str(two_digit_text((local % 3600) / 60).as_str());
        r.push_str(":");
        r.push_str(two_digit_text(local % 60).as_str());
        r.push_str("]");
        r.push_str(tail.as_str());
        r
    } else {
        text::join2("NO_HEALTHY_ACCOUNT(non-stream)", tail.as_str())
    }
}

} // verus!
