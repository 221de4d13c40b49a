//! The accounts that Core may schedule, as the account files name them.
//!
//! Core knows an account by a digest of its name. Bringing Core's directory up
//! to date never makes an account healthier than Core found it.

use crate::json::Json;
use crate::outside;
use crate::scheduler::SchedulerError;
use crate::table::{self, Table};
use crate::text;
use crate::upstream_observation::{
    self, ObservationSnapshot, SnapshotView, TauriObservationReader, Units,
};
use vstd::prelude::*;

verus! {

/// Whether an account can be used.
#[derive(Clone, Copy, Debug, PartialEq, Eq, Structural)]
pub enum UpstreamAccountState {
    Available,
    Cooling,
    Forbidden,
    Disabled,
}

/// The name of a state.
pub open spec fn state_name(state: UpstreamAccountState) -> Seq<char> {
    match state {
        UpstreamAccountState::Available => "available"@,
        UpstreamAccountState::Cooling => "cooling"@,
        UpstreamAccountState::Forbidden => "forbidden"@,
        UpstreamAccountState::Disabled => "disabled"@,
    }
}

/// The state of that name. A name that is not known is that of an account that
/// cannot be used.
pub open spec fn named_state(name: Seq<char>) -> UpstreamAccountState {
    if name == "available"@ {
        UpstreamAccountState::Available
    } else if name == "cooling"@ {
        UpstreamAccountState::Cooling
    } else if name == "forbidden"@ {
        UpstreamAccountState::Forbidden
    } else {
        UpstreamAccountState::Disabled
    }
}

impl UpstreamAccountState {
    /// The name of the state.
    pub fn as_str(self) -> (r: &'static str)
        ensures
            r@ == state_name(self),
    {
        match self {
            UpstreamAccountState::Available => "available",
            UpstreamAccountState::Cooling => "cooling",
            UpstreamAccountState::Forbidden => "forbidden",
            UpstreamAccountState::Disabled => "disabled",
        }
    }

    /// The state of that name.
    pub fn from_name(name: &str) -> (r: UpstreamAccountState)
        ensures
            r == named_state(name@),
    {
        if text::same(name, "available") {
            UpstreamAccountState::Available
        } else if text::same(name, "cooling") {
            UpstreamAccountState::Cooling
        } else if text::same(name, "forbidden") {
            UpstreamAccountState::Forbidden
        } else {
            UpstreamAccountState::Disabled
        }
    }
}

/// An account of Core's directory.
#[derive(Debug, PartialEq, Eq)]
pub struct RegisterUpstreamAccount {
    pub id: String,
    pub provider: String,
    pub credentials_ref: String,
    pub region: Option<String>,
    pub capabilities: Vec<String>,
    pub enabled: bool,
    pub max_concurrency: i64,
    pub state: UpstreamAccountState,
    pub cooldown_until_ms: Option<i64>,
    pub cooldown_reason: Option<String>,
    pub consecutive_errors: i64,
}

/// The model of a [`RegisterUpstreamAccount`].
#[verifier::ext_equal]
pub struct AccountView {
    pub id: Seq<char>,
    pub provider: Seq<char>,
    pub credentials_ref: Seq<char>,
    pub region: Option<Seq<char>>,
    pub capabilities: Seq<Seq<char>>,
    pub enabled: bool,
    pub max_concurrency: i64,
    pub state: UpstreamAccountState,
    pub cooldown_until_ms: Option<i64>,
    pub cooldown_reason: Option<Seq<char>>,
    pub consecutive_errors: i64,
}

impl View for RegisterUpstreamAccount {
    type V = AccountView;

    open spec fn view(&self) -> AccountView {
        AccountView {
            id: self.id@,
            provider: self.provider@,
            credentials_ref: self.credentials_ref@,
            region: text::opt_view(self.region),
            capabilities: text::views(self.capabilities@),
            enabled: self.enabled,
            max_concurrency: self.max_concurrency,
            state: self.state,
            cooldown_until_ms: self.cooldown_until_ms,
            cooldown_reason: text::opt_view(self.cooldown_reason),
            consecutive_errors: self.consecutive_errors,
        }
    }
}

/// The models of a list of accounts.
pub open spec fn account_views(accounts: Seq<RegisterUpstreamAccount>) -> Seq<AccountView> {
    Seq::new(accounts.len(), |i: int| accounts[i]@)
}

fn copy_list(items: &Vec<String>) -> (r: Vec<String>)
    ensures
        text::views(r@) == text::views(items@),
{
    let mut r: Vec<String> = Vec::new();
    let mut i: usize = 0;
    while i < items.len()
        invariant
            i <= items.len(),
            r.len() == i,
            forall|j: int| 0 <= j < i ==> (#[trigger] r@[j])@ == items@[j]@,
        decreases items.len() - i,
    {
        r.push(items[i].clone());
        i = i + 1;
    }
    assert(text::views(r@) =~= text::views(items@));
    r
}

fn same_list(a: &Vec<String>, b: &Vec<String>) -> (r: bool)
    ensures
        r == (text::views(a@) == text::views(b@)),
{
    let ghost x = text::views(a@);
    let ghost y = text::views(b@);
    if a.len() != b.len() {
        assert(x.len() != y.len());
        return false;
    }
    let mut i: usize = 0;
    while i < a.len()
        invariant
            i <= a.len(),
            a.len() == b.len(),
            x == text::views(a@),
            y == text::views(b@),
            forall|j: int| 0 <= j < i ==> x[j] == y[j],
        decreases a.len() - i,
    {
        if !text::same(a[i].as_str(), b[i].as_str()) {
            assert(x[i as int] != y[i as int]);
            return false;
        }
        i = i + 1;
    }
    assert(x =~= y);
    true
}

fn same_opt(a: &Option<String>, b: &Option<String>) -> (r: bool)
    ensures
        r == (text::opt_view(*a) == text::opt_view(*b)),
{
    match (a, b) {
        (Some(a), Some(b)) => text::same(a.as_str(), b.as_str()),
        (None, None) => true,
        _ => false,
    }
}

impl RegisterUpstreamAccount {
    /// A copy.
    pub fn dup(&self) -> (r: RegisterUpstreamAccount)
        ensures
            r@ == self@,
    {
        RegisterUpstreamAccount {
            id: self.id.clone(),
            provider: self.provider.clone(),
            credentials_ref: self.credentials_ref.clone(),
            region: text::dup_opt(&self.region),
            capabilities: copy_list(&self.capabilities),
            enabled: self.enabled,
            max_concurrency: self.max_concurrency,
            state: self.state,
            cooldown_until_ms: self.cooldown_until_ms,
            cooldown_reason: text::dup_opt(&self.cooldown_reason),
            consecutive_errors: self.consecutive_errors,
        }
    }

    /// The two accounts agree in everything.
    pub fn same(&self, other: &RegisterUpstreamAccount) -> (r: bool)
        ensures
            r == (self@ == other@),
    {
        text::same(self.id.as_str(), other.id.as_str()) && text::same(
            self.provider.as_str(),
            other.provider.as_str(),
        ) && text::same(self.credentials_ref.as_str(), other.credentials_ref.as_str()) && same_opt(
            &self.region,
            &other.region,
        ) && same_list(&self.capabilities, &other.capabilities) && self.enabled == other.enabled
            && self.max_concurrency == other.max_concurrency && self.state == other.state
            && same_time(self.cooldown_until_ms, other.cooldown_until_ms) && same_opt(
            &self.cooldown_reason,
            &other.cooldown_reason,
        ) && self.consecutive_errors == other.consecutive_errors
    }
}

fn same_time(a: Option<i64>, b: Option<i64>) -> (r: bool)
    ensures
        r == (a == b),
{
    match (a, b) {
        (Some(a), Some(b)) => a == b,
        (None, None) => true,
        _ => false,
    }
}

/// A cooldown as the account files hold it.
#[derive(Debug, PartialEq, Eq)]
pub struct CooldownEntry {
    pub error_type: String,
    /// When it ends, in seconds.
    pub until: i64,
    pub error_count: i32,
}

/// The model of a [`CooldownEntry`].
pub struct CooldownView {
    pub error_type: Seq<char>,
    pub until: i64,
    pub error_count: i32,
}

impl View for CooldownEntry {
    type V = CooldownView;

    open spec fn view(&self) -> CooldownView {
        CooldownView {
            error_type: self.error_type@,
            until: self.until,
            error_count: self.error_count,
        }
    }
}

/// A time in milliseconds, at the nearest that can be held.
pub open spec fn clamped_millis(seconds: i64) -> i64 {
    let ms = seconds * 1000;
    if ms > i64::MAX {
        i64::MAX
    } else if ms < i64::MIN {
        i64::MIN
    } else {
        ms as i64
    }
}

fn to_clamped_millis(seconds: i64) -> (r: i64)
    ensures
        r == clamped_millis(seconds),
{
    let ms: i128 = seconds as i128 * 1000;
    if ms > 9223372036854775807 {
        i64::MAX
    } else if ms < -9223372036854775808 {
        i64::MIN
    } else {
        ms as i64
    }
}

/// What the digest of an account's name is taken of.
pub open spec fn account_name(provider: Seq<char>, uid: Seq<char>) -> Seq<char> {
    "aiwork-scheduler-v1\0"@ + provider + "\0"@ + uid
}

/// The digest of an account's name, in hexadecimal digits.
pub open spec fn account_digest(provider: Seq<char>, uid: Seq<char>) -> Seq<char> {
    text::hex(outside::sha256_of(vstd::utf8::encode_utf8(account_name(provider, uid))))
}

/// The account before its cooldown is looked at.
pub open spec fn bare_account(
    digest: Seq<char>,
    provider: Seq<char>,
    enabled: bool,
    region: Option<Seq<char>>,
) -> AccountView {
    AccountView {
        id: "acct_"@ + digest,
        provider,
        credentials_ref: "vault://scheduler/"@ + provider + "/"@ + digest,
        region,
        capabilities: upstream_observation::chat_only(),
        enabled,
        max_concurrency: 1,
        state: if enabled {
            UpstreamAccountState::Available
        } else {
            UpstreamAccountState::Disabled
        },
        cooldown_until_ms: None,
        cooldown_reason: if enabled {
            None
        } else {
            Some("directory_disabled"@)
        },
        consecutive_errors: 0,
    }
}

/// An account as the account files name it.
pub open spec fn directory_account(
    digest: Seq<char>,
    provider: Seq<char>,
    enabled: bool,
    region: Option<Seq<char>>,
    cooldown: Option<CooldownView>,
    now_ms: i64,
) -> AccountView {
    let bare = bare_account(digest, provider, enabled, region);
    match cooldown {
        None => bare,
        Some(cd) => {
            let counted = AccountView {
                consecutive_errors: if cd.error_count < 0 {
                    0
                } else {
                    cd.error_count as i64
                },
                ..bare
            };
            if cd.error_type == "Forbidden"@ {
                AccountView {
                    enabled: false,
                    state: UpstreamAccountState::Forbidden,
                    cooldown_reason: Some("forbidden"@),
                    ..counted
                }
            } else if cd.error_type == "SessionDead"@ {
                AccountView {
                    enabled: false,
                    state: UpstreamAccountState::Disabled,
                    cooldown_reason: Some("session_dead"@),
                    ..counted
                }
            } else if cd.error_type == "HardCredit"@ {
                AccountView {
                    state: UpstreamAccountState::Cooling,
                    cooldown_reason: Some("hard_credit"@),
                    ..counted
                }
            } else if clamped_millis(cd.until) > now_ms {
                AccountView {
                    state: UpstreamAccountState::Cooling,
                    cooldown_until_ms: Some(clamped_millis(cd.until)),
                    cooldown_reason: Some("legacy_cooldown"@),
                    ..counted
                }
            } else {
                counted
            }
        },
    }
}

/// The model of a cooldown that may be there.
pub open spec fn opt_cooldown(cooldown: Option<&CooldownEntry>) -> Option<CooldownView> {
    match cooldown {
        Some(cooldown) => Some(cooldown@),
        None => None,
    }
}

/// An account as the account files name it, where its name has that digest.
pub fn account_of_digest(
    digest: &str,
    provider: &str,
    enabled: bool,
    region: Option<&str>,
    cooldown: Option<&CooldownEntry>,
    now_ms: i64,
) -> (r: RegisterUpstreamAccount)
    ensures
        r@ == directory_account(
            digest@,
            provider@,
            enabled,
            (match region {
                Some(region) => Some(region@),
                None => None,
            }),
            opt_cooldown(cooldown),
            now_ms,
        ),
{
    let place = text::join3("vault://scheduler/", provider, "/");
    let mut input = RegisterUpstreamAccount {
        id: text::join2("acct_", digest),
        provider: provider.to_owned(),
        credentials_ref: text::join2(place.as_str(), digest),
        region: match region {
            Some(region) => Some(region.to_owned()),
            None => None,
        },
        capabilities: upstream_observation::chat_capabilities(),
        enabled,
        max_concurrency: 1,
        state: UpstreamAccountState::Available,
        cooldown_until_ms: None,
        cooldown_reason: None,
        consecutive_errors: 0,
    };
    if !enabled {
        input.state = UpstreamAccountState::Disabled;
        input.cooldown_reason = Some("directory_disabled".to_owned());
    }
    if let Some(cd) = cooldown {
        input.consecutive_errors = if cd.error_count < 0 {
            0
        } else {
            cd.error_count as i64
        };
        let until_ms: i64 = to_clamped_millis(cd.until);
        if text::same(cd.error_type.as_str(), "Forbidden") {
            input.enabled = false;
            input.state = UpstreamAccountState::Forbidden;
            input.cooldown_reason = Some("forbidden".to_owned());
        } else if text::same(cd.error_type.as_str(), "SessionDead") {
            input.enabled = false;
            input.state = UpstreamAccountState::Disabled;
            input.cooldown_reason = Some("session_dead".to_owned());
        } else if text::same(cd.error_type.as_str(), "HardCredit") {
            input.state = UpstreamAccountState::Cooling;
            input.cooldown_reason = Some("hard_credit".to_owned());
        } else if until_ms > now_ms {
            input.state = UpstreamAccountState::Cooling;
            input.cooldown_until_ms = Some(until_ms);
            input.cooldown_reason = Some("legacy_cooldown".to_owned());
        }
    }
    input
}

fn digest_of(provider: &str, uid: &str) -> (r: String)
    ensures
        r@ == account_digest(provider@, uid@),
{
    let head = text::join3("aiwork-scheduler-v1\0", provider, "\0");
    let name = text::join2(head.as_str(), uid);
    let digest = outside::sha256(name.as_str().as_bytes());
    text::hex_text(digest.as_slice())
}

/// An account as the account files name it.
pub fn legacy_account(
    provider: &str,
    uid: &str,
    enabled: bool,
    region: Option<&str>,
    cooldown: Option<&CooldownEntry>,
    now_ms: i64,
) -> (r: RegisterUpstreamAccount)
    ensures
        r@ == directory_account(
            account_digest(provider@, uid@),
            provider@,
            enabled,
            (match region {
                Some(region) => Some(region@),
                None => None,
            }),
            opt_cooldown(cooldown),
            now_ms,
        ),
{
    let digest = digest_of(provider, uid);
    account_of_digest(digest.as_str(), provider, enabled, region, cooldown, now_ms)
}

/// An account of the account file.
#[derive(Debug)]
pub struct RawAccount {
    pub user_id: Option<String>,
    pub jwt: String,
}

/// The model of a [`RawAccount`].
pub struct RawView {
    pub user_id: Option<Seq<char>>,
    pub jwt: Seq<char>,
}

impl View for RawAccount {
    type V = RawView;

    open spec fn view(&self) -> RawView {
        RawView { user_id: text::opt_view(self.user_id), jwt: self.jwt@ }
    }
}

/// An account of the second pool.
#[derive(Debug)]
pub struct WbSyncAccount {
    pub uid: String,
    pub token: String,
    pub global_region: bool,
    pub credits: Units,
    pub needs_relogin: bool,
}

/// The model of a [`WbSyncAccount`].
pub struct WbView {
    pub uid: Seq<char>,
    pub token: Seq<char>,
    pub global_region: bool,
    pub credits: Units,
    pub needs_relogin: bool,
}

impl View for WbSyncAccount {
    type V = WbView;

    open spec fn view(&self) -> WbView {
        WbView {
            uid: self.uid@,
            token: self.token@,
            global_region: self.global_region,
            credits: self.credits,
            needs_relogin: self.needs_relogin,
        }
    }
}

/// What the account files say beside the accounts: which accounts and groups
/// are in use, who is in which group, and the cooldowns and balances by name.
pub struct AccountFiles {
    pub enabled_uids: Vec<String>,
    pub group_ids: Vec<String>,
    pub wb_enabled: bool,
    pub membership: Table<String>,
    pub cooldowns: Table<CooldownEntry>,
    pub general: Table<Units>,
    pub credits: Table<Units>,
    pub work: Table<Units>,
}

/// The model of [`AccountFiles`].
pub struct FilesView {
    pub enabled_uids: Seq<Seq<char>>,
    pub group_ids: Seq<Seq<char>>,
    pub wb_enabled: bool,
    pub membership: Seq<(Seq<char>, Seq<char>)>,
    pub cooldowns: Seq<(Seq<char>, CooldownView)>,
    pub general: Seq<(Seq<char>, Units)>,
    pub credits: Seq<(Seq<char>, Units)>,
    pub work: Seq<(Seq<char>, Units)>,
}

impl View for AccountFiles {
    type V = FilesView;

    open spec fn view(&self) -> FilesView {
        FilesView {
            enabled_uids: text::views(self.enabled_uids@),
            group_ids: text::views(self.group_ids@),
            wb_enabled: self.wb_enabled,
            membership: self.membership@,
            cooldowns: self.cooldowns@,
            general: self.general@,
            credits: self.credits@,
            work: self.work@,
        }
    }
}

/// The account may be used: it is listed, its group is in use or none is
/// named, and it has a token.
pub open spec fn trae_enabled(files: FilesView, uid: Seq<char>, jwt: Seq<char>) -> bool {
    &&& files.enabled_uids.contains(uid)
    &&& files.group_ids.len() == 0 || (match table::find(files.membership, uid) {
        Some(group) => files.group_ids.contains(group),
        None => false,
    })
    &&& text::trim(jwt).len() > 0
}

/// A balance out of the files: it is never fresh.
pub open spec fn from_files(snapshot: SnapshotView) -> SnapshotView {
    SnapshotView {
        source: "json_cache"@,
        summary: snapshot.summary.with(
            "source"@,
            crate::json::JsonView::Text("json_cache"@),
        ).with("status"@, crate::json::JsonView::Text("stale"@)),
        ..snapshot
    }
}

/// The general balance of an account.
pub open spec fn general_units(files: FilesView, uid: Seq<char>) -> Option<Units> {
    match table::find(files.general, uid) {
        Some(units) => Some(units),
        None => table::find(files.credits, uid),
    }
}

/// The balances with one more, where it is there.
pub open spec fn and_balance(
    so_far: Seq<SnapshotView>,
    id: Seq<char>,
    resource: Seq<char>,
    units: Option<Units>,
) -> Result<Seq<SnapshotView>, SchedulerError> {
    match units {
        None => Ok(so_far),
        Some(Units::Known(units)) => Ok(
            so_far.push(
                from_files(upstream_observation::trae_snapshot(id, resource, units, 0, 0)),
            ),
        ),
        Some(_) => Err(SchedulerError::SyncFailed),
    }
}

/// An account of the account file and its balances, where its name has that
/// digest.
pub open spec fn trae_entry(
    files: FilesView,
    uid: Seq<char>,
    jwt: Seq<char>,
    digest: Seq<char>,
    now_ms: i64,
) -> Result<(AccountView, Seq<SnapshotView>), SchedulerError> {
    let account = directory_account(
        digest,
        "trae"@,
        trae_enabled(files, uid, jwt),
        Some("cn"@),
        table::find(files.cooldowns, uid),
        now_ms,
    );
    match and_balance(Seq::empty(), account.id, "chat.general"@, general_units(files, uid)) {
        Err(error) => Err(error),
        Ok(general) => match and_balance(
            general,
            account.id,
            "chat.work"@,
            table::find(files.work, uid),
        ) {
            Err(error) => Err(error),
            Ok(all) => Ok((account, all)),
        },
    }
}

/// The region that is known of an account of the second pool.
pub open spec fn wb_region(account: WbView) -> Option<Seq<char>> {
    if account.global_region {
        Some("global"@)
    } else {
        None
    }
}

/// An account of the second pool and its balance, where its name has that
/// digest.
pub open spec fn wb_entry(files: FilesView, account: WbView, digest: Seq<char>, now_ms: i64) -> Result<
    (AccountView, Seq<SnapshotView>),
    SchedulerError,
> {
    let enabled = files.wb_enabled && files.enabled_uids.contains(account.uid) && text::trim(
        account.token,
    ).len() > 0;
    let found = directory_account(
        digest,
        "workbuddy"@,
        enabled,
        wb_region(account),
        table::find(files.cooldowns, account.uid),
        now_ms,
    );
    let input = if account.needs_relogin {
        AccountView {
            enabled: false,
            state: UpstreamAccountState::Disabled,
            cooldown_reason: Some("session_dead"@),
            ..found
        }
    } else {
        found
    };
    match account.credits {
        Units::Missing => Ok((input, Seq::empty())),
        Units::Unfit => Err(SchedulerError::SyncFailed),
        Units::Known(units) => Ok(
            (
                input,
                Seq::empty().push(
                    upstream_observation::cache_snapshot(
                        input.id,
                        "chat.work"@,
                        Some(units),
                        0,
                        wb_region(account),
                    ),
                ),
            ),
        ),
    }
}

/// The model of an account with its balances.
pub open spec fn entry_view(
    r: Result<(RegisterUpstreamAccount, Vec<ObservationSnapshot>), SchedulerError>,
) -> Result<(AccountView, Seq<SnapshotView>), SchedulerError> {
    match r {
        Ok((account, balances)) => Ok((account@, snapshot_views(balances@))),
        Err(error) => Err(error),
    }
}

/// The models of a list of observations.
pub open spec fn snapshot_views(list: Seq<ObservationSnapshot>) -> Seq<SnapshotView> {
    Seq::new(list.len(), |i: int| list[i]@)
}

fn listed(items: &Vec<String>, name: &str) -> (r: bool)
    ensures
        r == text::views(items@).contains(name@),
{
    let ghost all = text::views(items@);
    let mut i: usize = 0;
    while i < items.len()
        invariant
            i <= items.len(),
            all == text::views(items@),
            forall|j: int| 0 <= j < i ==> all[j] != name@,
        decreases items.len() - i,
    {
        if text::same(items[i].as_str(), name) {
            assert(all[i as int] == name@);
            return true;
        }
        i = i + 1;
    }
    false
}

fn add_balance(
    balances: &mut Vec<ObservationSnapshot>,
    id: &str,
    resource: &str,
    units: Option<&Units>,
) -> (r: Result<(), SchedulerError>)
    ensures
        ({
            let units = match units {
                Some(units) => Some(*units),
                None => None,
            };
            match r {
                Ok(_) => and_balance(snapshot_views(old(balances)@), id@, resource@, units) == Ok::<
                    _,
                    SchedulerError,
                >(snapshot_views(final(balances)@)),
                Err(error) => and_balance(
                    snapshot_views(old(balances)@),
                    id@,
                    resource@,
                    units,
                ) == Err::<Seq<SnapshotView>, _>(error),
            }
        }),
{
    let ghost before = snapshot_views(balances@);
    let units = match units {
        Some(units) => *units,
        None => {
            return Ok(());
        },
    };
    match TauriObservationReader::snapshot_from_trae_values(id, resource, units, 0, 0) {
        Err(_) => Err(SchedulerError::SyncFailed),
        Ok(snapshot) => {
            let summary = snapshot.summary.with("source", Json::text("json_cache")).with(
                "status",
                Json::text("stale"),
            );
            let cached = ObservationSnapshot {
                account_ref: snapshot.account_ref,
                resource_kind: snapshot.resource_kind,
                available_units: snapshot.available_units,
                value_scale: snapshot.value_scale,
                source: "json_cache".to_owned(),
                observed_at_ms: snapshot.observed_at_ms,
                stale_at_ms: snapshot.stale_at_ms,
                capabilities: snapshot.capabilities,
                region: snapshot.region,
                summary,
            };
            balances.push(cached);
            assert(snapshot_views(balances@) =~= before.push(cached@));
            Ok(())
        },
    }
}

/// An account of the account file and its balances, where its name has that
/// digest.
pub fn trae_account(files: &AccountFiles, uid: &str, jwt: &str, digest: &str, now_ms: i64) -> (r:
    Result<(RegisterUpstreamAccount, Vec<ObservationSnapshot>), SchedulerError>)
    ensures
        entry_view(r) == trae_entry(files@, uid@, jwt@, digest@, now_ms),
{
    let in_group = files.group_ids.len() == 0 || match files.membership.get(uid) {
        Some(group) => listed(&files.group_ids, group.as_str()),
        None => false,
    };
    assert(text::views(files.group_ids@).len() == files.group_ids@.len());
    let enabled = listed(&files.enabled_uids, uid) && in_group && !text::blank(jwt);
    let account = account_of_digest(
        digest,
        "trae",
        enabled,
        Some("cn"),
        files.cooldowns.get(uid),
        now_ms,
    );
    let general = match files.general.get(uid) {
        Some(units) => Some(units),
        None => files.credits.get(uid),
    };
    let mut balances: Vec<ObservationSnapshot> = Vec::new();
    assert(snapshot_views(balances@) =~= Seq::empty());
    if let Err(error) = add_balance(&mut balances, account.id.as_str(), "chat.general", general) {
        return Err(error);
    }
    if let Err(error) = add_balance(
        &mut balances,
        account.id.as_str(),
        "chat.work",
        files.work.get(uid),
    ) {
        return Err(error);
    }
    Ok((account, balances))
}

/// An account of the second pool and its balance, where its name has that
/// digest.
pub fn wb_account(files: &AccountFiles, account: &WbSyncAccount, digest: &str, now_ms: i64) -> (r:
    Result<(RegisterUpstreamAccount, Vec<ObservationSnapshot>), SchedulerError>)
    ensures
        entry_view(r) == wb_entry(files@, account@, digest@, now_ms),
{
    let uid = account.uid.as_str();
    let enabled = files.wb_enabled && listed(&files.enabled_uids, uid) && !text::blank(
        account.token.as_str(),
    );
    let region = if account.global_region {
        Some("global")
    } else {
        None
    };
    let mut input = account_of_digest(
        digest,
        "workbuddy",
        enabled,
        region,
        files.cooldowns.get(uid),
        now_ms,
    );
    if account.needs_relogin {
        input.enabled = false;
        input.state = UpstreamAccountState::Disabled;
        input.cooldown_reason = Some("session_dead".to_owned());
    }
    let mut balances: Vec<ObservationSnapshot> = Vec::new();
    assert(snapshot_views(balances@) =~= Seq::empty());
    if let Units::Missing = account.credits {
        return Ok((input, balances));
    }
    match TauriObservationReader::snapshot_from_workbuddy_cache(
        input.id.as_str(),
        "chat.work",
        account.credits,
        0,
        region,
    ) {
        Err(_) => Err(SchedulerError::SyncFailed),
        Ok(snapshot) => {
            balances.push(snapshot);
            assert(snapshot_views(balances@) =~= Seq::empty().push(snapshot@));
            Ok((input, balances))
        },
    }
}

/// The accounts that Core may schedule: the accounts, their balances, and the
/// names behind their ids.
pub struct AccountDirectory {
    pub accounts: Vec<RegisterUpstreamAccount>,
    pub cached_observations: Vec<ObservationSnapshot>,
    pub adapter_ids: Table<String>,
}

/// The model of an [`AccountDirectory`].
pub struct DirectoryView {
    pub accounts: Seq<AccountView>,
    pub cached_observations: Seq<SnapshotView>,
    pub adapter_ids: Seq<(Seq<char>, Seq<char>)>,
}

impl View for AccountDirectory {
    type V = DirectoryView;

    open spec fn view(&self) -> DirectoryView {
        DirectoryView {
            accounts: account_views(self.accounts@),
            cached_observations: snapshot_views(self.cached_observations@),
            adapter_ids: self.adapter_ids@,
        }
    }
}

/// The directory with one more account.
pub open spec fn with_entry(
    directory: DirectoryView,
    uid: Seq<char>,
    entry: (AccountView, Seq<SnapshotView>),
) -> DirectoryView {
    DirectoryView {
        accounts: directory.accounts.push(entry.0),
        cached_observations: directory.cached_observations + entry.1,
        adapter_ids: table::put(directory.adapter_ids, entry.0.id, uid),
    }
}

/// A directory without accounts.
pub open spec fn empty_directory() -> DirectoryView {
    DirectoryView {
        accounts: Seq::empty(),
        cached_observations: Seq::empty(),
        adapter_ids: Seq::empty(),
    }
}

/// The directory of the first `n` accounts of the account file.
pub open spec fn with_trae(files: FilesView, trae: Seq<RawView>, n: nat, now_ms: i64) -> Result<
    DirectoryView,
    SchedulerError,
>
    decreases n,
{
    if n == 0 || n > trae.len() {
        Ok(empty_directory())
    } else {
        match with_trae(files, trae, (n - 1) as nat, now_ms) {
            Err(error) => Err(error),
            Ok(directory) => match trae[n - 1].user_id {
                None => Ok(directory),
                Some(uid) => if uid.len() == 0 {
                    Ok(directory)
                } else {
                    match trae_entry(
                        files,
                        uid,
                        trae[n - 1].jwt,
                        account_digest("trae"@, uid),
                        now_ms,
                    ) {
                        Err(error) => Err(error),
                        Ok(entry) => Ok(with_entry(directory, uid, entry)),
                    }
                },
            },
        }
    }
}

/// The directory with the first `n` accounts of the second pool.
pub open spec fn with_wb(
    start: Result<DirectoryView, SchedulerError>,
    files: FilesView,
    wb: Seq<WbView>,
    n: nat,
    now_ms: i64,
) -> Result<DirectoryView, SchedulerError>
    decreases n,
{
    if n == 0 || n > wb.len() {
        start
    } else {
        match with_wb(start, files, wb, (n - 1) as nat, now_ms) {
            Err(error) => Err(error),
            Ok(directory) => if wb[n - 1].uid.len() == 0 {
                Ok(directory)
            } else {
                match wb_entry(
                    files,
                    wb[n - 1],
                    account_digest("workbuddy"@, wb[n - 1].uid),
                    now_ms,
                ) {
                    Err(error) => Err(error),
                    Ok(entry) => Ok(with_entry(directory, wb[n - 1].uid, entry)),
                }
            },
        }
    }
}

/// The directory that the account files describe.
pub open spec fn directory_of(
    trae: Seq<RawView>,
    wb: Seq<WbView>,
    files: FilesView,
    now_ms: i64,
) -> Result<DirectoryView, SchedulerError> {
    with_wb(with_trae(files, trae, trae.len(), now_ms), files, wb, wb.len(), now_ms)
}

/// The model of a directory or an error.
pub open spec fn directory_view(r: Result<AccountDirectory, SchedulerError>) -> Result<
    DirectoryView,
    SchedulerError,
> {
    match r {
        Ok(directory) => Ok(directory@),
        Err(error) => Err(error),
    }
}

/// The models of the accounts of the account file.
pub open spec fn raw_views(list: Seq<RawAccount>) -> Seq<RawView> {
    Seq::new(list.len(), |i: int| list[i]@)
}

/// The models of the accounts of the second pool.
pub open spec fn wb_views(list: Seq<WbSyncAccount>) -> Seq<WbView> {
    Seq::new(list.len(), |i: int| list[i]@)
}

fn add_entry(
    directory: AccountDirectory,
    uid: &str,
    account: RegisterUpstreamAccount,
    balances: Vec<ObservationSnapshot>,
) -> (r: AccountDirectory)
    ensures
        r@ == with_entry(directory@, uid@, (account@, snapshot_views(balances@))),
{
    let ghost before = directory@;
    let ghost added = snapshot_views(balances@);
    let mut directory = directory;
    directory.adapter_ids.insert(account.id.as_str(), uid.to_owned());
    directory.accounts.push(account);
    assert(account_views(directory.accounts@) =~= before.accounts.push(account@));
    let mut balances = balances;
    directory.cached_observations.append(&mut balances);
    assert(snapshot_views(directory.cached_observations@) =~= before.cached_observations + added);
    directory
}

impl AccountDirectory {
    /// The directory that the account files describe. An account without a
    /// name is passed over.
    pub fn from_legacy(
        trae: &Vec<RawAccount>,
        wb: &Vec<WbSyncAccount>,
        files: &AccountFiles,
        now_ms: i64,
    ) -> (r: Result<AccountDirectory, SchedulerError>)
        ensures
            directory_view(r) == directory_of(
                raw_views(trae@),
                wb_views(wb@),
                files@,
                now_ms,
            ),
    {
        let ghost raws = raw_views(trae@);
        let ghost wbs = wb_views(wb@);
        let mut directory = AccountDirectory {
            accounts: Vec::new(),
            cached_observations: Vec::new(),
            adapter_ids: Table::new(),
        };
        assert(directory@.accounts =~= Seq::empty());
        assert(directory@.cached_observations =~= Seq::empty());
        assert(directory@.adapter_ids =~= Seq::empty());
        let mut i: usize = 0;
        while i < trae.len()
            invariant
                i <= trae.len(),
                raws == raw_views(trae@),
                wbs == wb_views(wb@),
                with_trae(files@, raws, i as nat, now_ms) == Ok::<_, SchedulerError>(directory@),
            decreases trae.len() - i,
        {
            let account = &trae[i];
            assert(raws[i as int] == account@);
            if let Some(uid) = &account.user_id {
                if !uid.as_str().is_empty() {
                    let digest = digest_of("trae", uid.as_str());
                    match trae_account(
                        files,
                        uid.as_str(),
                        account.jwt.as_str(),
                        digest.as_str(),
                        now_ms,
                    ) {
                        Err(error) => {
                            proof {
                                assert(with_trae(files@, raws, (i + 1) as nat, now_ms) is Err);
                                lemma_trae_stops(files@, raws, (i + 1) as nat, raws.len(), now_ms);
                                lemma_wb_stops(files@, raws, wbs, wbs.len(), now_ms);
                            }
                            return Err(error);
                        },
                        Ok((input, balances)) => {
                            directory = add_entry(directory, uid.as_str(), input, balances);
                        },
                    }
                }
            }
            i = i + 1;
        }
        let ghost start = with_trae(files@, raws, raws.len(), now_ms);
        let mut j: usize = 0;
        while j < wb.len()
            invariant
                j <= wb.len(),
                wbs == wb_views(wb@),
                raws == raw_views(trae@),
                start == with_trae(files@, raws, raws.len(), now_ms),
                with_wb(start, files@, wbs, j as nat, now_ms) == Ok::<_, SchedulerError>(
                    directory@,
                ),
            decreases wb.len() - j,
        {
            let account = &wb[j];
            assert(wbs[j as int] == account@);
            if !account.uid.as_str().is_empty() {
                let digest = digest_of("workbuddy", account.uid.as_str());
                match wb_account(files, account, digest.as_str(), now_ms) {
                    Err(error) => {
                        proof {
                            assert(with_wb(start, files@, wbs, (j + 1) as nat, now_ms) is Err);
                            lemma_wb_error(start, files@, wbs, (j + 1) as nat, wbs.len(), now_ms);
                        }
                        return Err(error);
                    },
                    Ok((input, balances)) => {
                        directory = add_entry(directory, account.uid.as_str(), input, balances);
                    },
                }
            }
            j = j + 1;
        }
        Ok(directory)
    }
}

proof fn lemma_trae_stops(files: FilesView, trae: Seq<RawView>, n: nat, m: nat, now_ms: i64)
    requires
        n <= m <= trae.len(),
        with_trae(files, trae, n, now_ms) is Err,
    ensures
        with_trae(files, trae, m, now_ms) == with_trae(files, trae, n, now_ms),
    decreases m,
{
    if n < m {
        lemma_trae_stops(files, trae, n, (m - 1) as nat, now_ms);
    }
}

proof fn lemma_wb_error(
    start: Result<DirectoryView, SchedulerError>,
    files: FilesView,
    wb: Seq<WbView>,
    n: nat,
    m: nat,
    now_ms: i64,
)
    requires
        n <= m <= wb.len(),
        with_wb(start, files, wb, n, now_ms) is Err,
    ensures
        with_wb(start, files, wb, m, now_ms) == with_wb(start, files, wb, n, now_ms),
    decreases m,
{
    if n < m {
        lemma_wb_error(start, files, wb, n, (m - 1) as nat, now_ms);
    }
}

proof fn lemma_wb_stops(files: FilesView, trae: Seq<RawView>, wb: Seq<WbView>, m: nat, now_ms: i64)
    requires
        m <= wb.len(),
        with_trae(files, trae, trae.len(), now_ms) is Err,
    ensures
        with_wb(with_trae(files, trae, trae.len(), now_ms), files, wb, m, now_ms) == with_trae(
            files,
            trae,
            trae.len(),
            now_ms,
        ),
{
    lemma_wb_error(with_trae(files, trae, trae.len(), now_ms), files, wb, 0, m, now_ms);
}

/// An account that is not listed, or whose group is not in use, or that has no
/// token is out of use.
pub proof fn law_an_unconfirmed_account_is_out_of_use(
    files: FilesView,
    uid: Seq<char>,
    jwt: Seq<char>,
    digest: Seq<char>,
    now_ms: i64,
)
    requires
        !trae_enabled(files, uid, jwt),
    ensures
        trae_entry(files, uid, jwt, digest, now_ms) matches Ok(entry) ==> !entry.0.enabled,
{
}

/// The account that Core had, brought up to date. Its health stays as Core
/// found it, unless the files say that it is worse.
pub open spec fn merged(input: AccountView, old: AccountView) -> AccountView {
    let dd = Some("directory_disabled"@);
    let kept_state = old.state != UpstreamAccountState::Available && old.cooldown_reason != dd && (
    (input.state != UpstreamAccountState::Forbidden && input.state
        != UpstreamAccountState::Disabled) || old.state == UpstreamAccountState::Forbidden);
    let state = if kept_state {
        old.state
    } else {
        input.state
    };
    let reason = if kept_state {
        old.cooldown_reason
    } else {
        input.cooldown_reason
    };
    let later = later_time(old.cooldown_until_ms, input.cooldown_until_ms);
    AccountView {
        max_concurrency: old.max_concurrency,
        state,
        consecutive_errors: if input.consecutive_errors > old.consecutive_errors {
            input.consecutive_errors
        } else {
            old.consecutive_errors
        },
        cooldown_until_ms: if later {
            old.cooldown_until_ms
        } else {
            input.cooldown_until_ms
        },
        cooldown_reason: if later || (reason is None && old.cooldown_reason != dd) {
            old.cooldown_reason
        } else {
            reason
        },
        ..input
    }
}

/// The first time is later than the second; no time is before any time.
pub open spec fn later_time(a: Option<i64>, b: Option<i64>) -> bool {
    match (a, b) {
        (Some(a), Some(b)) => a > b,
        (Some(_), None) => true,
        (None, _) => false,
    }
}

fn is_later(a: Option<i64>, b: Option<i64>) -> (r: bool)
    ensures
        r == later_time(a, b),
{
    match (a, b) {
        (Some(a), Some(b)) => a > b,
        (Some(_), None) => true,
        (None, _) => false,
    }
}

fn says(reason: &Option<String>, text: &str) -> (r: bool)
    ensures
        r == (text::opt_view(*reason) == Some(text@)),
{
    match reason {
        Some(reason) => crate::text::same(reason.as_str(), text),
        None => false,
    }
}

/// The account that Core had, brought up to date.
pub fn merge_account(input: RegisterUpstreamAccount, old: &RegisterUpstreamAccount) -> (r:
    RegisterUpstreamAccount)
    ensures
        r@ == merged(input@, old@),
{
    let mut r = input;
    r.max_concurrency = old.max_concurrency;
    let by_directory = says(&old.cooldown_reason, "directory_disabled");
    if old.state != UpstreamAccountState::Available && !by_directory {
        if (r.state != UpstreamAccountState::Forbidden && r.state
            != UpstreamAccountState::Disabled) || old.state == UpstreamAccountState::Forbidden {
            r.state = old.state;
            r.cooldown_reason = text::dup_opt(&old.cooldown_reason);
        }
    }
    if old.consecutive_errors > r.consecutive_errors {
        r.consecutive_errors = old.consecutive_errors;
    }
    if is_later(old.cooldown_until_ms, r.cooldown_until_ms) {
        r.cooldown_until_ms = old.cooldown_until_ms;
        r.cooldown_reason = text::dup_opt(&old.cooldown_reason);
    } else if r.cooldown_reason.is_none() && !by_directory {
        r.cooldown_reason = text::dup_opt(&old.cooldown_reason);
    }
    r
}

/// Core's health of an account never gets better by a merge: errors and
/// cooldowns stay, a forbidden account stays forbidden, and one that Core took
/// out of use stays out of use.
pub proof fn law_a_merge_never_clears_health(input: AccountView, old: AccountView)
    ensures
        merged(input, old).consecutive_errors >= old.consecutive_errors,
        !later_time(old.cooldown_until_ms, merged(input, old).cooldown_until_ms),
        old.state != UpstreamAccountState::Available && old.cooldown_reason != Some(
            "directory_disabled"@,
        ) ==> merged(input, old).state == old.state || merged(input, old).state
            == UpstreamAccountState::Forbidden || merged(input, old).state
            == UpstreamAccountState::Disabled,
        old.state == UpstreamAccountState::Forbidden && old.cooldown_reason != Some(
            "directory_disabled"@,
        ) ==> merged(input, old).state == UpstreamAccountState::Forbidden,
        merged(input, old).max_concurrency == old.max_concurrency,
{
}

/// Merging the same entry again changes nothing.
pub proof fn law_merging_twice_is_merging_once(input: AccountView, old: AccountView)
    ensures
        merged(input, merged(input, old)) == merged(input, old),
        merged(input, input) == input,
{
}

/// Every account stands in the directory under its own id, and no id twice.
pub open spec fn well_named(entries: Seq<(Seq<char>, AccountView)>) -> bool {
    &&& table::unique(entries)
    &&& forall|id: Seq<char>|
        (#[trigger] table::find(entries, id)) matches Some(account) ==> account.id == id
}

/// No id stands in the list twice.
pub open spec fn distinct_ids(list: Seq<AccountView>) -> bool {
    forall|i: int, j: int|
        0 <= i < j < list.len() ==> (#[trigger] list[i]).id != (#[trigger] list[j]).id
}

/// All accounts of this one's id in the list are this one.
pub open spec fn sole(list: Seq<AccountView>, account: AccountView) -> bool {
    forall|j: int|
        0 <= j < list.len() && (#[trigger] list[j]).id == account.id ==> list[j] == account
}

/// Accounts of one id in the list are one account.
pub open spec fn agreeing(list: Seq<AccountView>) -> bool {
    forall|i: int| 0 <= i < list.len() ==> sole(list, #[trigger] list[i])
}

/// Some of the accounts has that id.
pub open spec fn lists_id(accounts: Seq<AccountView>, id: Seq<char>) -> bool {
    exists|i: int| 0 <= i < accounts.len() && (#[trigger] accounts[i]).id == id
}

/// The account came from the account files, and is no longer in them.
pub open spec fn is_gone(account: AccountView, accounts: Seq<AccountView>) -> bool {
    text::starts_with(account.credentials_ref, "vault://scheduler/"@) && !lists_id(
        accounts,
        account.id,
    )
}

/// The first `n` entries of the directory that are gone, taken out of use.
pub open spec fn gone(
    entries: Seq<(Seq<char>, AccountView)>,
    accounts: Seq<AccountView>,
    n: nat,
) -> Seq<AccountView>
    decreases n,
{
    if n == 0 || n > entries.len() {
        Seq::empty()
    } else {
        let before = gone(entries, accounts, (n - 1) as nat);
        let account = entries[n - 1].1;
        if is_gone(account, accounts) {
            before.push(AccountView { enabled: false, ..account })
        } else {
            before
        }
    }
}

/// What is brought up to date: the accounts of the files, and those that are
/// gone.
pub open spec fn updates(
    entries: Seq<(Seq<char>, AccountView)>,
    accounts: Seq<AccountView>,
) -> Seq<AccountView> {
    accounts + gone(entries, accounts, entries.len())
}

/// The directory and the writes to it after one update.
pub open spec fn updated(
    at: (Seq<(Seq<char>, AccountView)>, Seq<AccountView>),
    input: AccountView,
) -> (Seq<(Seq<char>, AccountView)>, Seq<AccountView>) {
    match table::find(at.0, input.id) {
        Some(old) => {
            let new = merged(input, old);
            if new == old {
                at
            } else {
                (table::put(at.0, input.id, new), at.1.push(new))
            }
        },
        None => (table::put(at.0, input.id, input), at.1.push(input)),
    }
}

/// The directory and the writes to it after the first `n` updates.
pub open spec fn after_updates(
    entries: Seq<(Seq<char>, AccountView)>,
    list: Seq<AccountView>,
    n: nat,
) -> (Seq<(Seq<char>, AccountView)>, Seq<AccountView>)
    decreases n,
{
    if n == 0 || n > list.len() {
        (entries, Seq::empty())
    } else {
        updated(after_updates(entries, list, (n - 1) as nat), list[n - 1])
    }
}

/// The directory and the writes to it once it is up to date.
pub open spec fn synced(entries: Seq<(Seq<char>, AccountView)>, accounts: Seq<AccountView>) -> (
    Seq<(Seq<char>, AccountView)>,
    Seq<AccountView>,
) {
    let list = updates(entries, accounts);
    after_updates(entries, list, list.len())
}

fn names(accounts: &Vec<RegisterUpstreamAccount>, id: &str) -> (r: bool)
    ensures
        r == lists_id(account_views(accounts@), id@),
{
    let ghost all = account_views(accounts@);
    let mut i: usize = 0;
    while i < accounts.len()
        invariant
            i <= accounts.len(),
            all == account_views(accounts@),
            forall|j: int| 0 <= j < i ==> (#[trigger] all[j]).id != id@,
        decreases accounts.len() - i,
    {
        if text::same(accounts[i].id.as_str(), id) {
            assert(all[i as int].id == id@);
            return true;
        }
        i = i + 1;
    }
    false
}

fn update_one(
    directory: &mut Table<RegisterUpstreamAccount>,
    writes: &mut Vec<RegisterUpstreamAccount>,
    input: RegisterUpstreamAccount,
)
    ensures
        (final(directory)@, account_views(final(writes)@)) == updated(
            (old(directory)@, account_views(old(writes)@)),
            input@,
        ),
{
    let ghost before = account_views(writes@);
    let id = input.id.clone();
    let new = match directory.get(id.as_str()) {
        Some(old) => {
            let new = merge_account(input, old);
            if new.same(old) {
                return;
            }
            new
        },
        None => input,
    };
    writes.push(new.dup());
    assert(account_views(writes@) =~= before.push(new@));
    directory.insert(id.as_str(), new);
}

/// Brings Core's directory up to date. Returns the writes that are to be made,
/// in order.
pub fn directory_writes(
    directory: &mut Table<RegisterUpstreamAccount>,
    accounts: &Vec<RegisterUpstreamAccount>,
) -> (r: Vec<RegisterUpstreamAccount>)
    ensures
        (final(directory)@, account_views(r@)) == synced(
            old(directory)@,
            account_views(accounts@),
        ),
{
    let ghost entries = directory@;
    let ghost wanted = account_views(accounts@);
    let mut removed: Vec<RegisterUpstreamAccount> = Vec::new();
    assert(account_views(removed@) =~= Seq::empty());
    let mut k: usize = 0;
    while k < directory.len()
        invariant
            k <= entries.len(),
            directory@ == entries,
            wanted == account_views(accounts@),
            account_views(removed@) == gone(entries, wanted, k as nat),
        decreases entries.len() - k,
    {
        let account = directory.value_at(k);
        if text::begins_with(account.credentials_ref.as_str(), "vault://scheduler/") && !names(
            accounts,
            account.id.as_str(),
        ) {
            let ghost before = account_views(removed@);
            let mut off = account.dup();
            off.enabled = false;
            removed.push(off);
            assert(account_views(removed@) =~= before.push(off@));
        }
        k = k + 1;
    }
    let ghost list = updates(entries, wanted);
    let mut writes: Vec<RegisterUpstreamAccount> = Vec::new();
    assert(account_views(writes@) =~= Seq::empty());
    let mut i: usize = 0;
    while i < accounts.len()
        invariant
            i <= accounts.len(),
            wanted == account_views(accounts@),
            account_views(removed@) == gone(entries, wanted, entries.len()),
            list == wanted + account_views(removed@),
            (directory@, account_views(writes@)) == after_updates(entries, list, i as nat),
        decreases accounts.len() - i,
    {
        assert(list[i as int] == accounts@[i as int]@);
        update_one(directory, &mut writes, accounts[i].dup());
        i = i + 1;
    }
    let mut j: usize = 0;
    while j < removed.len()
        invariant
            i == accounts.len(),
            j <= removed.len(),
            wanted == account_views(accounts@),
            list == wanted + account_views(removed@),
            (directory@, account_views(writes@)) == after_updates(entries, list, (i + j) as nat),
        decreases removed.len() - j,
    {
        assert(list[i + j] == removed@[j as int]@);
        update_one(directory, &mut writes, removed[j].dup());
        j = j + 1;
    }
    writes
}

/// An account out of use.
pub open spec fn off(account: AccountView) -> AccountView {
    AccountView { enabled: false, ..account }
}

proof fn lemma_entry(entries: Seq<(Seq<char>, AccountView)>, k: int)
    requires
        well_named(entries),
        0 <= k < entries.len(),
    ensures
        entries[k].1.id == entries[k].0,
        table::find(entries, entries[k].1.id) == Some(entries[k].1),
{
    table::lemma_find_at(entries, k);
}

proof fn lemma_gone(entries: Seq<(Seq<char>, AccountView)>, accounts: Seq<AccountView>, n: nat)
    requires
        well_named(entries),
        n <= entries.len(),
    ensures
        forall|j: int|
            0 <= j < gone(entries, accounts, n).len() ==> exists|k: int|
                0 <= k < n && is_gone((#[trigger] entries[k]).1, accounts) && #[trigger] gone(
                    entries,
                    accounts,
                    n,
                )[j] == off(entries[k].1),
        forall|k: int|
            0 <= k < n && is_gone((#[trigger] entries[k]).1, accounts) ==> lists_id(
                gone(entries, accounts, n),
                entries[k].1.id,
            ),
        distinct_ids(gone(entries, accounts, n)),
    decreases n,
{
    if n > 0 {
        let m = (n - 1) as nat;
        lemma_gone(entries, accounts, m);
        let before = gone(entries, accounts, m);
        let all = gone(entries, accounts, n);
        let last = entries[n - 1].1;
        lemma_entry(entries, n - 1);
        assert forall|j: int| 0 <= j < all.len() implies exists|k: int|
            0 <= k < n && is_gone((#[trigger] entries[k]).1, accounts) && #[trigger] all[j] == off(
                entries[k].1,
            ) by {
            if j < before.len() {
                assert(before[j] == all[j]);
                let k = choose|k: int|
                    0 <= k < m && is_gone((#[trigger] entries[k]).1, accounts) && before[j] == off(
                        entries[k].1,
                    );
                assert(is_gone(entries[k].1, accounts));
            } else {
                assert(is_gone(entries[n - 1].1, accounts));
            }
        }
        assert forall|k: int|
            0 <= k < n && is_gone((#[trigger] entries[k]).1, accounts) implies lists_id(
            all,
            entries[k].1.id,
        ) by {
            if k < m {
                assert(lists_id(before, entries[k].1.id));
                let j = choose|j: int|
                    0 <= j < before.len() && (#[trigger] before[j]).id == entries[k].1.id;
                assert(all[j].id == entries[k].1.id);
            } else {
                assert(all[all.len() - 1].id == last.id);
            }
        }
        assert forall|i: int, j: int| 0 <= i < j < all.len() implies (#[trigger] all[i]).id != (
        #[trigger] all[j]).id by {
            assert(all[i] == before[i]);
            if j < before.len() {
                assert(all[j] == before[j]);
            } else {
                let k = choose|k: int|
                    0 <= k < m && is_gone((#[trigger] entries[k]).1, accounts) && before[i] == off(
                        entries[k].1,
                    );
                lemma_entry(entries, k);
                assert(entries[k].0 != entries[n - 1].0);
            }
        }
    }
}

/// What an account is after its update.
pub open spec fn outcome(entries: Seq<(Seq<char>, AccountView)>, input: AccountView) -> AccountView {
    match table::find(entries, input.id) {
        Some(old) => merged(input, old),
        None => input,
    }
}

proof fn lemma_after_updates(
    entries: Seq<(Seq<char>, AccountView)>,
    list: Seq<AccountView>,
    n: nat,
)
    requires
        well_named(entries),
        n <= list.len(),
    ensures
        well_named(after_updates(entries, list, n).0),
        forall|i: int|
            0 <= i < n && sole(list, list[i]) ==> table::find(
                after_updates(entries, list, n).0,
                (#[trigger] list[i]).id,
            ) == Some(outcome(entries, list[i])),
        forall|id: Seq<char>|
            (forall|i: int| 0 <= i < n ==> (#[trigger] list[i]).id != id) ==> #[trigger] table::find(
                after_updates(entries, list, n).0,
                id,
            ) == table::find(entries, id),
    decreases n,
{
    if n > 0 {
        let m = (n - 1) as nat;
        lemma_after_updates(entries, list, m);
        let at = after_updates(entries, list, m);
        let input = list[n - 1];
        let new = outcome(at.0, input);
        table::lemma_find_put(at.0, input.id, new);
        table::lemma_put_unique(at.0, input.id, new);
        assert forall|i: int| 0 <= i < n && sole(list, list[i]) implies table::find(
            after_updates(entries, list, n).0,
            (#[trigger] list[i]).id,
        ) == Some(outcome(entries, list[i])) by {
            if list[i].id == input.id {
                assert(list[n - 1] == list[i]);
                if exists|j: int| 0 <= j < m && (#[trigger] list[j]).id == input.id {
                    let j = choose|j: int| 0 <= j < m && (#[trigger] list[j]).id == input.id;
                    assert(list[j] == list[i]);
                    assert(table::find(at.0, list[j].id) == Some(outcome(entries, input)));
                    match table::find(entries, input.id) {
                        Some(old) => law_merging_twice_is_merging_once(input, old),
                        None => law_merging_twice_is_merging_once(input, input),
                    }
                } else {
                    assert(table::find(at.0, input.id) == table::find(entries, input.id));
                }
            }
        }
    }
}

proof fn lemma_fixed_point(t: Seq<(Seq<char>, AccountView)>, list: Seq<AccountView>, n: nat)
    requires
        n <= list.len(),
        forall|i: int|
            0 <= i < list.len() ==> (table::find(t, (#[trigger] list[i]).id) matches Some(x)
                && merged(list[i], x) == x),
    ensures
        after_updates(t, list, n) == (t, Seq::<AccountView>::empty()),
    decreases n,
{
    if n > 0 {
        lemma_fixed_point(t, list, (n - 1) as nat);
        let x = table::find(t, list[n - 1].id);
        assert(x is Some);
    }
}

proof fn lemma_updates_agree(entries: Seq<(Seq<char>, AccountView)>, accounts: Seq<AccountView>)
    requires
        well_named(entries),
    ensures
        forall|i: int|
            accounts.len() <= i < updates(entries, accounts).len() ==> sole(
                updates(entries, accounts),
                #[trigger] updates(entries, accounts)[i],
            ),
        agreeing(accounts) ==> agreeing(updates(entries, accounts)),
{
    let g = gone(entries, accounts, entries.len());
    let list = updates(entries, accounts);
    let a = accounts.len() as int;
    lemma_gone(entries, accounts, entries.len());
    assert forall|i: int, j: int|
        0 <= i < a <= j < list.len() implies (#[trigger] list[i]).id != (#[trigger] list[j]).id by {
        assert(list[i] == accounts[i] && list[j] == g[j - a]);
        let k = choose|k: int|
            0 <= k < entries.len() && is_gone((#[trigger] entries[k]).1, accounts) && g[j - a]
                == off(entries[k].1);
        assert(is_gone(entries[k].1, accounts));
        if accounts[i].id == g[j - a].id {
            assert(lists_id(accounts, entries[k].1.id));
        }
    }
    assert forall|i: int| a <= i < list.len() implies sole(list, #[trigger] list[i]) by {
        assert forall|j: int| 0 <= j < list.len() && (#[trigger] list[j]).id
            == list[i].id implies list[j] == list[i] by {
            if j >= a {
                assert(list[i] == g[i - a] && list[j] == g[j - a]);
            }
        }
    }
    if agreeing(accounts) {
        assert forall|i: int| 0 <= i < list.len() implies sole(list, #[trigger] list[i]) by {
            if i < a {
                assert(list[i] == accounts[i]);
                assert(sole(accounts, accounts[i]));
                assert forall|j: int| 0 <= j < list.len() && (#[trigger] list[j]).id
                    == list[i].id implies list[j] == list[i] by {
                    if j < a {
                        assert(list[j] == accounts[j]);
                    }
                }
            }
        }
    }
}

/// Once the directory is up to date, every account that came from the files
/// and is no longer in them is out of use.
pub proof fn law_removed_accounts_are_disabled(
    entries: Seq<(Seq<char>, AccountView)>,
    accounts: Seq<AccountView>,
)
    requires
        well_named(entries),
    ensures
        well_named(synced(entries, accounts).0),
        forall|id: Seq<char>|
            (#[trigger] table::find(synced(entries, accounts).0, id)) matches Some(account) ==> (
            is_gone(account, accounts) ==> !account.enabled),
{
    let list = updates(entries, accounts);
    let g = gone(entries, accounts, entries.len());
    let a = accounts.len() as int;
    let t = synced(entries, accounts).0;
    lemma_updates_agree(entries, accounts);
    lemma_after_updates(entries, list, list.len());
    lemma_gone(entries, accounts, entries.len());
    assert forall|id: Seq<char>|
        (#[trigger] table::find(t, id)) is Some && is_gone(
            table::find(t, id)->0,
            accounts,
        ) implies !table::find(t, id)->0.enabled by {
        let account = table::find(t, id)->0;
        if exists|i: int| 0 <= i < list.len() && (#[trigger] list[i]).id == id {
            let i = choose|i: int| 0 <= i < list.len() && (#[trigger] list[i]).id == id;
            assert(account == outcome(entries, list[i]));
            if i < a {
                assert(list[i] == accounts[i]);
                assert(lists_id(accounts, id));
            } else {
                assert(list[i] == g[i - a]);
                let k = choose|k: int|
                    0 <= k < entries.len() && is_gone((#[trigger] entries[k]).1, accounts)
                        && g[i - a] == off(entries[k].1);
            }
        } else {
            assert(table::find(entries, id) == Some(account));
            table::lemma_find_has_key(entries, id);
            let k = choose|k: int| 0 <= k < entries.len() && (#[trigger] entries[k]).0 == id;
            lemma_entry(entries, k);
            assert(entries[k].1 == account);
            assert(lists_id(g, id));
            let j = choose|j: int| 0 <= j < g.len() && (#[trigger] g[j]).id == id;
            assert(list[a + j].id == id);
        }
    }
}

proof fn lemma_up_to_date(
    entries: Seq<(Seq<char>, AccountView)>,
    stored: Seq<(Seq<char>, AccountView)>,
    accounts: Seq<AccountView>,
)
    requires
        well_named(entries),
        well_named(stored),
        agreeing(accounts),
        forall|id: Seq<char>|
            #[trigger] table::find(stored, id) == table::find(synced(entries, accounts).0, id),
    ensures
        synced(stored, accounts) == (stored, Seq::<AccountView>::empty()),
{
    let list = updates(entries, accounts);
    let again = updates(stored, accounts);
    let g = gone(stored, accounts, stored.len());
    let a = accounts.len() as int;
    lemma_updates_agree(entries, accounts);
    lemma_after_updates(entries, list, list.len());
    law_removed_accounts_are_disabled(entries, accounts);
    lemma_gone(stored, accounts, stored.len());
    assert forall|i: int| 0 <= i < again.len() implies (table::find(
        stored,
        (#[trigger] again[i]).id,
    ) matches Some(x) && merged(again[i], x) == x) by {
        if i < a {
            assert(again[i] == accounts[i] && list[i] == accounts[i]);
            assert(table::find(stored, list[i].id) == Some(outcome(entries, list[i])));
            match table::find(entries, list[i].id) {
                Some(old) => law_merging_twice_is_merging_once(list[i], old),
                None => law_merging_twice_is_merging_once(list[i], list[i]),
            }
        } else {
            assert(again[i] == g[i - a]);
            let k = choose|k: int|
                0 <= k < stored.len() && is_gone((#[trigger] stored[k]).1, accounts) && g[i - a]
                    == off(stored[k].1);
            lemma_entry(stored, k);
            let x = stored[k].1;
            assert(table::find(stored, x.id) == Some(x));
            assert(table::find(synced(entries, accounts).0, x.id) == Some(x));
            assert(!x.enabled);
            assert(off(x) == x);
            law_merging_twice_is_merging_once(x, x);
        }
    }
    lemma_fixed_point(stored, again, again.len());
}

/// Bringing the directory up to date with the same files a second time writes
/// nothing, unless the files tell two things of one account.
pub proof fn law_syncing_again_writes_nothing(
    entries: Seq<(Seq<char>, AccountView)>,
    accounts: Seq<AccountView>,
)
    requires
        well_named(entries),
        agreeing(accounts),
    ensures
        synced(synced(entries, accounts).0, accounts) == (
            synced(entries, accounts).0,
            Seq::<AccountView>::empty(),
        ),
{
    law_removed_accounts_are_disabled(entries, accounts);
    lemma_up_to_date(entries, synced(entries, accounts).0, accounts);
}

/// The directory of the first `n` stored accounts: each under its own id, and
/// the last of an id alone.
pub open spec fn directory_of_rows(rows: Seq<AccountView>, n: nat) -> Seq<(Seq<char>, AccountView)>
    decreases n,
{
    if n == 0 || n > rows.len() {
        Seq::empty()
    } else {
        table::put(directory_of_rows(rows, (n - 1) as nat), rows[n - 1].id, rows[n - 1])
    }
}

/// Whatever accounts are stored, each stands in the directory under its own id,
/// and no id twice.
pub proof fn law_a_directory_is_well_named(rows: Seq<AccountView>, n: nat)
    ensures
        well_named(directory_of_rows(rows, n)),
    decreases n,
{
    if n > 0 && n <= rows.len() {
        law_a_directory_is_well_named(rows, (n - 1) as nat);
        let before = directory_of_rows(rows, (n - 1) as nat);
        table::lemma_find_put(before, rows[n - 1].id, rows[n - 1]);
        table::lemma_put_unique(before, rows[n - 1].id, rows[n - 1]);
    }
}

/// The directory of the stored accounts.
pub fn stored_directory(rows: &Vec<RegisterUpstreamAccount>) -> (r: Table<RegisterUpstreamAccount>)
    ensures
        r@ == directory_of_rows(account_views(rows@), rows@.len()),
        well_named(r@),
{
    let ghost all = account_views(rows@);
    let mut r: Table<RegisterUpstreamAccount> = Table::new();
    let mut i: usize = 0;
    while i < rows.len()
        invariant
            i <= rows.len(),
            all == account_views(rows@),
            r@ == directory_of_rows(all, i as nat),
        decreases rows.len() - i,
    {
        assert(all[i as int] == rows@[i as int]@);
        r.insert(rows[i].id.as_str(), rows[i].dup());
        i = i + 1;
    }
    proof {
        law_a_directory_is_well_named(all, rows@.len());
    }
    r
}

/// Once a sync is stored, the same sync writes nothing: whatever was stored
/// before, and in whatever order the stored accounts are read back. The files
/// tell one thing of each account.
pub proof fn law_a_stored_sync_is_up_to_date(
    rows: Seq<AccountView>,
    stored: Seq<AccountView>,
    accounts: Seq<AccountView>,
)
    requires
        agreeing(accounts),
        forall|id: Seq<char>|
            #[trigger] table::find(directory_of_rows(stored, stored.len()), id) == table::find(
                synced(directory_of_rows(rows, rows.len()), accounts).0,
                id,
            ),
    ensures
        synced(directory_of_rows(stored, stored.len()), accounts).1 == Seq::<AccountView>::empty(),
{
    law_a_directory_is_well_named(rows, rows.len());
    law_a_directory_is_well_named(stored, stored.len());
    lemma_up_to_date(
        directory_of_rows(rows, rows.len()),
        directory_of_rows(stored, stored.len()),
        accounts,
    );
}

} // verus!
