//! Who may use the gateway, and for what.

use crate::core_types::{self, CoreMode, Principal, PrincipalView};
use crate::reply::{self, Reply, ReplyView};
use crate::text;
use vstd::prelude::*;

verus! {

/// The largest body of a request, in bytes.
pub const MAX_BODY_BYTES: usize = 8388608;

/// The limits of an API key; a number of zero a day is no limit.
#[derive(Clone, Copy, Debug, PartialEq, Eq, Structural)]
pub struct KeyLimits {
    pub max_inflight: Option<u64>,
    pub max_video_jobs: Option<u64>,
    pub asset_uploads_per_minute: Option<u64>,
    pub asset_bytes_per_hour: Option<u64>,
    pub video_submissions_per_minute: Option<u64>,
    pub daily_requests: u64,
    pub daily_tokens: u64,
}

/// The limits of a key that has none of its own.
pub open spec fn no_limits() -> KeyLimits {
    KeyLimits {
        max_inflight: None,
        max_video_jobs: None,
        asset_uploads_per_minute: None,
        asset_bytes_per_hour: None,
        video_submissions_per_minute: None,
        daily_requests: 0,
        daily_tokens: 0,
    }
}

impl Default for KeyLimits {
    fn default() -> (r: KeyLimits)
        ensures
            r == no_limits(),
    {
        KeyLimits {
            max_inflight: None,
            max_video_jobs: None,
            asset_uploads_per_minute: None,
            asset_bytes_per_hour: None,
            video_submissions_per_minute: None,
            daily_requests: 0,
            daily_tokens: 0,
        }
    }
}

/// What an API key may be used for.
#[derive(Clone, Copy, Debug, PartialEq, Eq, Structural)]
pub enum Capability {
    Chat,
    Video,
    Assets,
}

/// The name of a capability.
pub open spec fn capability_name(capability: Capability) -> Seq<char> {
    match capability {
        Capability::Chat => "chat"@,
        Capability::Video => "video"@,
        Capability::Assets => "assets"@,
    }
}

impl Capability {
    /// The name of the capability.
    pub fn name(self) -> (r: &'static str)
        ensures
            r@ == capability_name(self),
    {
        match self {
            Capability::Chat => "chat",
            Capability::Video => "video",
            Capability::Assets => "assets",
        }
    }
}

/// The policy of an API key, as it was when the request was authenticated.
#[derive(Debug, PartialEq, Eq)]
pub struct ResolvedKey {
    pub id: String,
    pub capabilities: Vec<String>,
    pub limits: KeyLimits,
    pub allowed_accounts: Vec<String>,
    pub schedule_mode: String,
    pub dedicated_account: String,
}

/// The model of a [`ResolvedKey`].
pub struct KeyView {
    pub id: Seq<char>,
    pub capabilities: Seq<Seq<char>>,
    pub limits: KeyLimits,
    pub allowed_accounts: Seq<Seq<char>>,
    pub schedule_mode: Seq<char>,
    pub dedicated_account: Seq<char>,
}

impl View for ResolvedKey {
    type V = KeyView;

    open spec fn view(&self) -> KeyView {
        KeyView {
            id: self.id@,
            capabilities: text::views(self.capabilities@),
            limits: self.limits,
            allowed_accounts: text::views(self.allowed_accounts@),
            schedule_mode: self.schedule_mode@,
            dedicated_account: self.dedicated_account@,
        }
    }
}

/// The model of an optional policy.
pub open spec fn opt_key(key: Option<ResolvedKey>) -> Option<KeyView> {
    match key {
        Some(key) => Some(key@),
        None => None,
    }
}

/// Whose request it is: the key it came with, the policy of the key, and the
/// caller that Core knows.
#[derive(Debug)]
pub struct Caller {
    pub key_id: Option<String>,
    pub policy: Option<ResolvedKey>,
    pub principal: Option<Principal>,
}

/// The model of a [`Caller`].
pub struct CallerView {
    pub key_id: Option<Seq<char>>,
    pub policy: Option<KeyView>,
    pub principal: Option<PrincipalView>,
}

impl View for Caller {
    type V = CallerView;

    open spec fn view(&self) -> CallerView {
        CallerView {
            key_id: text::opt_view(self.key_id),
            policy: opt_key(self.policy),
            principal: core_types::opt_principal(self.principal),
        }
    }
}

impl CallerView {
    /// The name of the key; a request without a key is anonymous.
    pub open spec fn name(self) -> Seq<char> {
        match self.key_id {
            Some(id) => id,
            None => "anonymous"@,
        }
    }
}

impl Caller {
    /// The name of the key; a request without a key is anonymous.
    pub fn name(&self) -> (r: String)
        ensures
            r@ == self@.name(),
    {
        match &self.key_id {
            Some(id) => id.clone(),
            None => "anonymous".to_owned(),
        }
    }
}

/// Core rules every request.
pub open spec fn enforcing(core: Option<CoreMode>) -> bool {
    core == Some(CoreMode::Enforce)
}

/// Core rules every request.
pub fn core_enforcing(core: Option<CoreMode>) -> (r: bool)
    ensures
        r == enforcing(core),
{
    match core {
        Some(mode) => mode == CoreMode::Enforce,
        None => false,
    }
}

/// The limits under which a key may use a capability, or the refusal. An
/// anonymous request may chat and nothing else; any other key must come with
/// its own policy, and the policy must name the capability.
pub open spec fn admission(
    key_id: Seq<char>,
    policy: Option<KeyView>,
    capability: Capability,
) -> Result<KeyLimits, ReplyView> {
    if key_id == "anonymous"@ {
        if capability == Capability::Chat {
            Ok(no_limits())
        } else {
            Err(
                reply::openai(
                    401,
                    "api_key_required"@,
                    "此接口必须使用已启用的 API Key"@,
                ),
            )
        }
    } else {
        match policy {
            None => Err(
                reply::openai(
                    500,
                    "auth_snapshot_missing"@,
                    "authenticated API Key policy snapshot is missing"@,
                ),
            ),
            Some(policy) => if policy.id != key_id {
                Err(
                    reply::openai(
                        500,
                        "auth_snapshot_missing"@,
                        "authenticated API Key policy snapshot does not match the request key"@,
                    ),
                )
            } else if !policy.capabilities.contains(capability_name(capability)) {
                Err(
                    reply::openai(
                        403,
                        "capability_not_allowed"@,
                        "API Key 未启用能力: "@ + capability_name(capability),
                    ),
                )
            } else {
                Ok(policy.limits)
            },
        }
    }
}

/// The model of an admission.
pub open spec fn admission_view(r: Result<KeyLimits, Reply>) -> Result<KeyLimits, ReplyView> {
    match r {
        Ok(limits) => Ok(limits),
        Err(refusal) => Err(refusal@),
    }
}

fn lists(items: &Vec<String>, name: &str) -> (r: bool)
    ensures
        r == text::views(items@).contains(name@),
{
    let ghost all = text::views(items@);
    let found = text::is_one_of(name, items);
    proof {
        if found {
            let i = choose|i: int| 0 <= i < items.len() && #[trigger] items@[i]@ == name@;
            assert(all[i] == name@);
        } else if all.contains(name@) {
            let i = choose|i: int| 0 <= i < all.len() && all[i] == name@;
            assert(items@[i]@ == name@);
        }
    }
    found
}

/// The limits under which a key may use a capability, or the refusal.
pub fn require_legacy_capability(
    key_id: &str,
    policy: &Option<ResolvedKey>,
    capability: Capability,
) -> (r: Result<KeyLimits, Reply>)
    ensures
        admission_view(r) == admission(key_id@, opt_key(*policy), capability),
{
    if text::same(key_id, "anonymous") {
        if capability == Capability::Chat {
            return Ok(KeyLimits::default());
        }
        return Err(
            reply::openai_error(401, "api_key_required", "此接口必须使用已启用的 API Key"),
        );
    }
    match policy {
        None => Err(
            reply::openai_error(
                500,
                "auth_snapshot_missing",
                "authenticated API Key policy snapshot is missing",
            ),
        ),
        Some(policy) => {
            if !text::same(policy.id.as_str(), key_id) {
                Err(
                    reply::openai_error(
                        500,
                        "auth_snapshot_missing",
                        "authenticated API Key policy snapshot does not match the request key",
                    ),
                )
            } else if !lists(&policy.capabilities, capability.name()) {
                Err(
                    reply::openai_error(
                        403,
                        "capability_not_allowed",
                        text::join2("API Key 未启用能力: ", capability.name()).as_str(),
                    ),
                )
            } else {
                Ok(policy.limits)
            }
        },
    }
}

/// The value of a header without the white space around it, where anything is
/// left.
pub open spec fn header_value(value: Option<Seq<char>>) -> Option<Seq<char>> {
    match value {
        Some(value) => if text::trim(value).len() == 0 {
            None
        } else {
            Some(text::trim(value))
        },
        None => None,
    }
}

/// The value of a header without the white space around it, where anything is
/// left.
pub fn read_header(value: &Option<String>) -> (r: Option<String>)
    ensures
        text::opt_view(r) == header_value(text::opt_view(*value)),
{
    match value {
        Some(value) => {
            let trimmed = text::trimmed(value.as_str());
            if trimmed.is_empty() {
                None
            } else {
                Some(trimmed.to_owned())
            }
        },
        None => None,
    }
}

/// The accounts that a key may use: those it lists, where it lists any, and
/// the one it is bound to.
pub struct AccountRule {
    pub allowed: Option<Vec<String>>,
    pub dedicated: Option<String>,
}

/// The model of an [`AccountRule`].
pub struct AccountRuleView {
    pub allowed: Option<Seq<Seq<char>>>,
    pub dedicated: Option<Seq<char>>,
}

impl View for AccountRule {
    type V = AccountRuleView;

    open spec fn view(&self) -> AccountRuleView {
        AccountRuleView {
            allowed: match self.allowed {
                Some(list) => Some(text::views(list@)),
                None => None,
            },
            dedicated: text::opt_view(self.dedicated),
        }
    }
}

/// The accounts that a key may use. A key in dedicated mode is bound to its
/// account, or to the first of its list.
pub open spec fn account_rule(policy: Option<KeyView>, dedicated_mode: Seq<char>) -> AccountRuleView {
    match policy {
        None => AccountRuleView { allowed: None, dedicated: None },
        Some(policy) => AccountRuleView {
            allowed: if policy.allowed_accounts.len() == 0 {
                None
            } else {
                Some(policy.allowed_accounts)
            },
            dedicated: if policy.schedule_mode != dedicated_mode {
                None
            } else {
                let account = if policy.dedicated_account.len() > 0 {
                    policy.dedicated_account
                } else if policy.allowed_accounts.len() > 0 {
                    policy.allowed_accounts[0]
                } else {
                    Seq::empty()
                };
                if account.len() == 0 {
                    None
                } else {
                    Some(account)
                }
            },
        },
    }
}

fn copied(items: &Vec<String>) -> (r: Vec<String>)
    ensures
        text::views(r@) == text::views(items@),
{
    let mut r: Vec<String> = Vec::new();
    let mut i: usize = 0;
    while i < items.len()
        invariant
            i <= items.len(),
            r.len() == i,
            forall|j: int| 0 <= j < i ==> #[trigger] r@[j]@ == items@[j]@,
        decreases items.len() - i,
    {
        r.push(items[i].clone());
        i = i + 1;
    }
    assert(text::views(r@) =~= text::views(items@));
    r
}

/// The accounts that a key may use.
pub fn allowed_accounts(policy: &Option<ResolvedKey>, dedicated_mode: &str) -> (r: AccountRule)
    ensures
        r@ == account_rule(opt_key(*policy), dedicated_mode@),
{
    match policy {
        None => AccountRule { allowed: None, dedicated: None },
        Some(policy) => {
            let allowed = if policy.allowed_accounts.len() == 0 {
                None
            } else {
                Some(copied(&policy.allowed_accounts))
            };
            let dedicated = if !text::same(policy.schedule_mode.as_str(), dedicated_mode) {
                None
            } else if !policy.dedicated_account.as_str().is_empty() {
                Some(policy.dedicated_account.clone())
            } else if policy.allowed_accounts.len() > 0
                && !policy.allowed_accounts[0].as_str().is_empty() {
                Some(policy.allowed_accounts[0].clone())
            } else {
                None
            };
            AccountRule { allowed, dedicated }
        },
    }
}

/// The limits under which the jobs of a key are counted after a restart: its
/// own, where the key is still known; none for a job without a key.
pub open spec fn limits_after_restart(owner: Seq<char>, known: Option<KeyLimits>) -> KeyLimits {
    if text::trim(owner).len() == 0 || text::trim(owner) == "anonymous"@ {
        no_limits()
    } else {
        match known {
            Some(limits) => limits,
            None => no_limits(),
        }
    }
}

/// The limits under which the jobs of a key are counted after a restart.
pub fn restore_key_limits(owner: &str, known: Option<KeyLimits>) -> (r: KeyLimits)
    ensures
        r == limits_after_restart(owner@, known),
{
    let name = text::trimmed(owner);
    if name.is_empty() || text::same(name, "anonymous") {
        return KeyLimits::default();
    }
    match known {
        Some(limits) => limits,
        None => KeyLimits::default(),
    }
}

/// A key without a capability is refused whatever else its policy says, and an
/// anonymous request reaches neither videos nor material.
pub proof fn law_no_capability_no_admission(
    key_id: Seq<char>,
    policy: Option<KeyView>,
    capability: Capability,
)
    ensures
        admission(key_id, policy, capability) is Ok ==> (key_id == "anonymous"@ && capability
            == Capability::Chat) || (policy matches Some(policy) && policy.id == key_id
            && policy.capabilities.contains(capability_name(capability))),
{
}

} // verus!
