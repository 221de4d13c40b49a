//! The scheduler: its modes, its state, and what it tells administrators.
//!
//! Which account serves a request is Core's to say. What stands here starts the
//! scheduler, counts, and keeps observations of accounts up to date.

use crate::account_directory::{self, AccountView, RegisterUpstreamAccount};
use crate::core_types::{CoreError, CoreErrorView, CoreMode, LeaseState, Principal};
use crate::json::{Json, JsonView};
use crate::outside;
use crate::text;
use crate::upstream_observation::{ObservationRequest, RequestView};
use vstd::prelude::*;

verus! {

/// How much the scheduler may do.
#[derive(Clone, Copy, Debug, PartialEq, Eq, Structural)]
pub enum SchedulerMode {
    Off,
    Shadow,
    Enforce,
}

impl Default for SchedulerMode {
    fn default() -> (r: SchedulerMode)
        ensures
            r == SchedulerMode::Off,
    {
        SchedulerMode::Off
    }
}

/// Why the scheduler cannot serve. Nothing else is told to a client.
#[derive(Clone, Copy, Debug, PartialEq, Eq, Structural)]
pub enum SchedulerError {
    InvalidMode,
    IncompatibleModes,
    NotReady,
    AdminRequired,
    StorageUnavailable,
    ReaderUnavailable,
    SyncFailed,
    RecoveryFailed,
    EndpointNotEnabled,
}

/// The mode of that name, in any case and with any white space around it.
pub open spec fn mode_of(name: Seq<char>) -> Result<SchedulerMode, SchedulerError> {
    let name = text::lower(text::trim(name));
    if name == "off"@ {
        Ok(SchedulerMode::Off)
    } else if name == "shadow"@ {
        Ok(SchedulerMode::Shadow)
    } else if name == "enforce"@ {
        Ok(SchedulerMode::Enforce)
    } else {
        Err(SchedulerError::InvalidMode)
    }
}

impl SchedulerMode {
    /// The mode of that name.
    pub fn parse(value: &str) -> (r: Result<SchedulerMode, SchedulerError>)
        ensures
            r == mode_of(value@),
    {
        let name = text::lowered(text::trimmed(value));
        if text::same(name.as_str(), "off") {
            Ok(SchedulerMode::Off)
        } else if text::same(name.as_str(), "shadow") {
            Ok(SchedulerMode::Shadow)
        } else if text::same(name.as_str(), "enforce") {
            Ok(SchedulerMode::Enforce)
        } else {
            Err(SchedulerError::InvalidMode)
        }
    }
}

/// The code of an error.
pub open spec fn code_of(error: SchedulerError) -> Seq<char> {
    match error {
        SchedulerError::InvalidMode => "scheduler_mode_invalid"@,
        SchedulerError::IncompatibleModes => "scheduler_mode_incompatible"@,
        SchedulerError::NotReady => "scheduler_not_ready"@,
        SchedulerError::AdminRequired => "scheduler_admin_required"@,
        SchedulerError::StorageUnavailable => "scheduler_storage_unavailable"@,
        SchedulerError::ReaderUnavailable => "scheduler_reader_unavailable"@,
        SchedulerError::SyncFailed => "scheduler_sync_failed"@,
        SchedulerError::RecoveryFailed => "scheduler_recovery_failed"@,
        SchedulerError::EndpointNotEnabled => "scheduler_endpoint_not_enabled"@,
    }
}

impl SchedulerError {
    /// The code of the error.
    pub fn code(self) -> (r: &'static str)
        ensures
            r@ == code_of(self),
    {
        match self {
            SchedulerError::InvalidMode => "scheduler_mode_invalid",
            SchedulerError::IncompatibleModes => "scheduler_mode_incompatible",
            SchedulerError::NotReady => "scheduler_not_ready",
            SchedulerError::AdminRequired => "scheduler_admin_required",
            SchedulerError::StorageUnavailable => "scheduler_storage_unavailable",
            SchedulerError::ReaderUnavailable => "scheduler_reader_unavailable",
            SchedulerError::SyncFailed => "scheduler_sync_failed",
            SchedulerError::RecoveryFailed => "scheduler_recovery_failed",
            SchedulerError::EndpointNotEnabled => "scheduler_endpoint_not_enabled",
        }
    }
}

/// The mode in which the scheduler runs beside Core. A Core that enforces wants
/// a scheduler that enforces; otherwise the scheduler does no more than Core.
pub open spec fn joint_mode(core: CoreMode, scheduler: SchedulerMode) -> Result<
    SchedulerMode,
    SchedulerError,
> {
    match core {
        CoreMode::Off => Ok(SchedulerMode::Off),
        CoreMode::Shadow => if scheduler == SchedulerMode::Off {
            Ok(SchedulerMode::Off)
        } else {
            Ok(SchedulerMode::Shadow)
        },
        CoreMode::Enforce => match scheduler {
            SchedulerMode::Off => Err(SchedulerError::NotReady),
            SchedulerMode::Shadow => Err(SchedulerError::IncompatibleModes),
            SchedulerMode::Enforce => Ok(SchedulerMode::Enforce),
        },
    }
}

/// The mode in which the scheduler runs beside Core.
pub fn validate_modes(core: CoreMode, scheduler: SchedulerMode) -> (r: Result<
    SchedulerMode,
    SchedulerError,
>)
    ensures
        r == joint_mode(core, scheduler),
{
    match core {
        CoreMode::Off => Ok(SchedulerMode::Off),
        CoreMode::Shadow => match scheduler {
            SchedulerMode::Off => Ok(SchedulerMode::Off),
            _ => Ok(SchedulerMode::Shadow),
        },
        CoreMode::Enforce => match scheduler {
            SchedulerMode::Off => Err(SchedulerError::NotReady),
            SchedulerMode::Shadow => Err(SchedulerError::IncompatibleModes),
            SchedulerMode::Enforce => Ok(SchedulerMode::Enforce),
        },
    }
}

/// How far a mode of Core goes.
pub open spec fn core_reach(core: CoreMode) -> int {
    match core {
        CoreMode::Off => 0,
        CoreMode::Shadow => 1,
        CoreMode::Enforce => 2,
    }
}

/// How far a mode of the scheduler goes.
pub open spec fn reach(mode: SchedulerMode) -> int {
    match mode {
        SchedulerMode::Off => 0,
        SchedulerMode::Shadow => 1,
        SchedulerMode::Enforce => 2,
    }
}

/// The scheduler never goes further than Core, nor than it was asked to.
pub proof fn law_core_bounds_the_scheduler(core: CoreMode, scheduler: SchedulerMode)
    ensures
        joint_mode(core, scheduler) matches Ok(mode) ==> reach(mode) <= core_reach(core)
            && reach(mode) <= reach(scheduler),
        joint_mode(core, scheduler) is Err <==> core == CoreMode::Enforce && scheduler
            != SchedulerMode::Enforce,
{
}

/// The administrator whose key was given: it must be known, and be an
/// administrator's.
pub fn authenticate_sync_admin(authenticated: Option<Principal>, authorized: bool) -> (r: Result<
    Principal,
    SchedulerError,
>)
    ensures
        match r {
            Ok(principal) => authorized && authenticated == Some(principal),
            Err(error) => error == SchedulerError::AdminRequired && (authenticated is None
                || !authorized),
        },
{
    match authenticated {
        Some(principal) => if authorized {
            Ok(principal)
        } else {
            Err(SchedulerError::AdminRequired)
        },
        None => Err(SchedulerError::AdminRequired),
    }
}

/// What is known of the scheduler.
#[derive(Debug, PartialEq, Eq)]
pub struct SchedulerStatus {
    pub mode: SchedulerMode,
    pub ready: bool,
    pub accounts: u64,
    pub enabled_accounts: u64,
    pub fresh_observations: u64,
    pub stale_observations: u64,
    pub active_leases: u64,
    pub unknown_leases: u64,
    pub reader_failures: u64,
    pub dry_runs: u64,
    pub recovered_leases: u64,
    pub last_error: Option<String>,
}

/// The model of a [`SchedulerStatus`].
pub struct StatusView {
    pub mode: SchedulerMode,
    pub ready: bool,
    pub accounts: u64,
    pub enabled_accounts: u64,
    pub fresh_observations: u64,
    pub stale_observations: u64,
    pub active_leases: u64,
    pub unknown_leases: u64,
    pub reader_failures: u64,
    pub dry_runs: u64,
    pub recovered_leases: u64,
    pub last_error: Option<Seq<char>>,
}

impl View for SchedulerStatus {
    type V = StatusView;

    open spec fn view(&self) -> StatusView {
        StatusView {
            mode: self.mode,
            ready: self.ready,
            accounts: self.accounts,
            enabled_accounts: self.enabled_accounts,
            fresh_observations: self.fresh_observations,
            stale_observations: self.stale_observations,
            active_leases: self.active_leases,
            unknown_leases: self.unknown_leases,
            reader_failures: self.reader_failures,
            dry_runs: self.dry_runs,
            recovered_leases: self.recovered_leases,
            last_error: text::opt_view(self.last_error),
        }
    }
}

impl Clone for SchedulerStatus {
    fn clone(&self) -> (r: SchedulerStatus)
        ensures
            r@ == self@,
    {
        SchedulerStatus {
            mode: self.mode,
            ready: self.ready,
            accounts: self.accounts,
            enabled_accounts: self.enabled_accounts,
            fresh_observations: self.fresh_observations,
            stale_observations: self.stale_observations,
            active_leases: self.active_leases,
            unknown_leases: self.unknown_leases,
            reader_failures: self.reader_failures,
            dry_runs: self.dry_runs,
            recovered_leases: self.recovered_leases,
            last_error: text::dup_opt(&self.last_error),
        }
    }
}

/// A scheduler that has just started.
pub open spec fn started(mode: SchedulerMode, recovered_leases: u64) -> StatusView {
    StatusView {
        mode,
        ready: mode != SchedulerMode::Off,
        accounts: 0,
        enabled_accounts: 0,
        fresh_observations: 0,
        stale_observations: 0,
        active_leases: 0,
        unknown_leases: 0,
        reader_failures: 0,
        dry_runs: 0,
        recovered_leases,
        last_error: None,
    }
}

/// The scheduler met an error.
pub open spec fn failed(status: StatusView, error: SchedulerError) -> StatusView {
    StatusView { ready: false, last_error: Some(code_of(error)), ..status }
}

/// A count that Core states, or the one that is there.
pub open spec fn count_or(counts: JsonView, key: Seq<char>, other: u64) -> u64 {
    match counts.unsigned_at(key) {
        Some(count) => count,
        None => other,
    }
}

/// The status with the counts that Core states. Failures of readers are never
/// forgotten.
pub open spec fn merged_counts(status: StatusView, counts: JsonView) -> StatusView {
    let failures = count_or(counts, "reader_failures"@, 0);
    StatusView {
        accounts: count_or(counts, "accounts"@, status.accounts),
        enabled_accounts: count_or(counts, "enabled_accounts"@, status.enabled_accounts),
        fresh_observations: count_or(counts, "fresh_observations"@, status.fresh_observations),
        stale_observations: count_or(counts, "stale_observations"@, status.stale_observations),
        active_leases: count_or(counts, "active_leases"@, status.active_leases),
        unknown_leases: count_or(counts, "unknown_leases"@, status.unknown_leases),
        reader_failures: if status.reader_failures > failures {
            status.reader_failures
        } else {
            failures
        },
        ..status
    }
}

fn read_count(counts: &Json, key: &str, other: u64) -> (r: u64)
    ensures
        r == count_or(counts@, key@, other),
{
    match counts.u64_at(key) {
        Some(count) => count,
        None => other,
    }
}

/// Puts the counts that Core states into the status.
pub fn merge_core_status_counts(status: &mut SchedulerStatus, counts: &Json)
    ensures
        final(status)@ == merged_counts(old(status)@, counts@),
{
    let failures: u64 = read_count(counts, "reader_failures", 0);
    status.accounts = read_count(counts, "accounts", status.accounts);
    status.enabled_accounts = read_count(counts, "enabled_accounts", status.enabled_accounts);
    status.fresh_observations = read_count(counts, "fresh_observations", status.fresh_observations);
    status.stale_observations = read_count(counts, "stale_observations", status.stale_observations);
    status.active_leases = read_count(counts, "active_leases", status.active_leases);
    status.unknown_leases = read_count(counts, "unknown_leases", status.unknown_leases);
    if failures > status.reader_failures {
        status.reader_failures = failures;
    }
}

/// The status that is shown: with Core's counts where the scheduler runs, and
/// not ready where Core cannot state them.
pub open spec fn shown(status: StatusView, mode: SchedulerMode, counts: Option<JsonView>) -> StatusView {
    if mode == SchedulerMode::Off {
        status
    } else {
        match counts {
            Some(counts) => merged_counts(status, counts),
            None => failed(status, SchedulerError::StorageUnavailable),
        }
    }
}

/// A lease that Core could take up again.
#[derive(Debug, PartialEq, Eq)]
pub struct RecoverableLease {
    pub id: String,
    pub state: LeaseState,
}

/// The model of a [`RecoverableLease`].
pub struct LeaseView {
    pub id: Seq<char>,
    pub state: LeaseState,
}

impl View for RecoverableLease {
    type V = LeaseView;

    open spec fn view(&self) -> LeaseView {
        LeaseView { id: self.id@, state: self.state }
    }
}

/// The models of a list of leases.
pub open spec fn lease_views(leases: Seq<RecoverableLease>) -> Seq<LeaseView> {
    Seq::new(leases.len(), |i: int| leases[i]@)
}

/// The outcome of a lease is unknown.
pub open spec fn is_unknown(leases: Seq<LeaseView>, id: Seq<char>) -> bool {
    exists|i: int|
        0 <= i < leases.len() && (#[trigger] leases[i]).id == id && leases[i].state
            == LeaseState::Unknown
}

/// How many of the first `n` leases became unknown by the recovery.
pub open spec fn newly_unknown(before: Seq<LeaseView>, after: Seq<LeaseView>, n: nat) -> nat
    decreases n,
{
    if n == 0 || n > after.len() {
        0
    } else {
        newly_unknown(before, after, (n - 1) as nat) + if after[n - 1].state == LeaseState::Unknown
            && !is_unknown(before, after[n - 1].id) {
            1nat
        } else {
            0nat
        }
    }
}

fn knows(leases: &Vec<RecoverableLease>, id: &str) -> (r: bool)
    ensures
        r == is_unknown(lease_views(leases@), id@),
{
    let ghost all = lease_views(leases@);
    let mut i: usize = 0;
    while i < leases.len()
        invariant
            i <= leases.len(),
            all == lease_views(leases@),
            forall|j: int|
                0 <= j < i ==> !((#[trigger] all[j]).id == id@ && all[j].state
                    == LeaseState::Unknown),
        decreases leases.len() - i,
    {
        if leases[i].state == LeaseState::Unknown && text::same(leases[i].id.as_str(), id) {
            assert(all[i as int].id == id@);
            return true;
        }
        i = i + 1;
    }
    false
}

/// How many leases became unknown by the recovery.
pub fn count_recovered(before: &Vec<RecoverableLease>, after: &Vec<RecoverableLease>) -> (r: u64)
    ensures
        r == newly_unknown(lease_views(before@), lease_views(after@), after@.len()),
{
    let ghost earlier = lease_views(before@);
    let ghost later = lease_views(after@);
    let mut n: u64 = 0;
    let mut i: usize = 0;
    while i < after.len()
        invariant
            i <= after.len(),
            earlier == lease_views(before@),
            later == lease_views(after@),
            n == newly_unknown(earlier, later, i as nat),
            n <= i,
        decreases after.len() - i,
    {
        assert(later[i as int] == after@[i as int]@);
        if after[i].state == LeaseState::Unknown && !knows(before, after[i].id.as_str()) {
            n = n + 1;
        }
        i = i + 1;
    }
    n
}

/// The latest observation of an account.
#[derive(Debug, PartialEq, Eq)]
pub struct LatestObservation {
    pub id: String,
    pub status: ObservationStatus,
    pub source: String,
    pub observed_at_ms: i64,
    pub stale_at_ms: i64,
    pub value_scale: i64,
}

/// How an observation came about.
#[derive(Clone, Copy, Debug, PartialEq, Eq, Structural)]
pub enum ObservationStatus {
    Fresh,
    Stale,
    Failed,
}

/// The model of a [`LatestObservation`].
pub struct LatestView {
    pub id: Seq<char>,
    pub status: ObservationStatus,
    pub source: Seq<char>,
    pub observed_at_ms: i64,
    pub stale_at_ms: i64,
    pub value_scale: i64,
}

impl View for LatestObservation {
    type V = LatestView;

    open spec fn view(&self) -> LatestView {
        LatestView {
            id: self.id@,
            status: self.status,
            source: self.source@,
            observed_at_ms: self.observed_at_ms,
            stale_at_ms: self.stale_at_ms,
            value_scale: self.value_scale,
        }
    }
}

/// An observation counts now: a reader made it, and it is not stale.
pub open spec fn is_current(
    fresh: bool,
    source: Seq<char>,
    observed_at_ms: i64,
    stale_at_ms: i64,
    now_ms: i64,
) -> bool {
    fresh && source == "reader"@ && observed_at_ms <= now_ms && stale_at_ms > now_ms
}

/// What is said of the observation of an account.
pub open spec fn observation_word(found: Option<Option<LatestView>>, now_ms: i64) -> Seq<char> {
    match found {
        None => "unavailable"@,
        Some(None) => "missing"@,
        Some(Some(o)) => if is_current(
            o.status == ObservationStatus::Fresh,
            o.source,
            o.observed_at_ms,
            o.stale_at_ms,
            now_ms,
        ) {
            "fresh"@
        } else if o.status == ObservationStatus::Failed {
            "failed"@
        } else {
            "stale"@
        },
    }
}

/// The model of what was found of an observation; nothing where Core could not
/// be asked.
pub open spec fn found_view(found: Option<Option<LatestObservation>>) -> Option<Option<LatestView>> {
    match found {
        None => None,
        Some(None) => Some(None),
        Some(Some(o)) => Some(Some(o@)),
    }
}

/// What is said of the observation of an account.
pub fn observation_label(found: &Option<Option<LatestObservation>>, now_ms: i64) -> (r: &'static str)
    ensures
        r@ == observation_word(found_view(*found), now_ms),
{
    match found {
        None => "unavailable",
        Some(None) => "missing",
        Some(Some(o)) => if o.status == ObservationStatus::Fresh && text::same(
            o.source.as_str(),
            "reader",
        ) && o.observed_at_ms <= now_ms && o.stale_at_ms > now_ms {
            "fresh"
        } else if o.status == ObservationStatus::Failed {
            "failed"
        } else {
            "stale"
        },
    }
}

/// An account as an administrator sees it: no id, no credentials.
#[derive(Debug, PartialEq, Eq)]
pub struct ShadowCandidate {
    pub account_hash: String,
    pub provider: &'static str,
    pub enabled: bool,
    pub state: &'static str,
    pub chat_confirmed: bool,
    pub observation: &'static str,
}

/// The model of a [`ShadowCandidate`].
pub struct CandidateView {
    pub account_hash: Seq<char>,
    pub provider: Seq<char>,
    pub enabled: bool,
    pub state: Seq<char>,
    pub chat_confirmed: bool,
    pub observation: Seq<char>,
}

impl View for ShadowCandidate {
    type V = CandidateView;

    open spec fn view(&self) -> CandidateView {
        CandidateView {
            account_hash: self.account_hash@,
            provider: self.provider@,
            enabled: self.enabled,
            state: self.state@,
            chat_confirmed: self.chat_confirmed,
            observation: self.observation@,
        }
    }
}

/// The name of a provider, where it is a known one.
pub open spec fn provider_word(provider: Seq<char>) -> Seq<char> {
    if provider == "trae"@ || provider == "workbuddy"@ || provider == "mock"@ {
        provider
    } else {
        "other"@
    }
}

/// The account whose id has that digest, as an administrator sees it.
pub open spec fn candidate_of(
    account: AccountView,
    digest: Seq<u8>,
    found: Option<Option<LatestView>>,
    now_ms: i64,
) -> CandidateView {
    CandidateView {
        account_hash: text::hex(digest),
        provider: provider_word(account.provider),
        enabled: account.enabled,
        state: account_directory::state_name(account.state),
        chat_confirmed: account.capabilities.contains("chat"@),
        observation: observation_word(found, now_ms),
    }
}

/// The account whose id has that digest, as an administrator sees it.
pub fn shadow_candidate(
    account: &RegisterUpstreamAccount,
    digest: &Vec<u8>,
    found: &Option<Option<LatestObservation>>,
    now_ms: i64,
) -> (r: ShadowCandidate)
    ensures
        r@ == candidate_of(account@, digest@, found_view(*found), now_ms),
{
    let name = account.provider.as_str();
    let provider = if text::same(name, "trae") {
        "trae"
    } else if text::same(name, "workbuddy") {
        "workbuddy"
    } else if text::same(name, "mock") {
        "mock"
    } else {
        "other"
    };
    let chat_confirmed = text::is_one_of("chat", &account.capabilities);
    proof {
        let all = text::views(account.capabilities@);
        if chat_confirmed {
            let i = choose|i: int|
                0 <= i < account.capabilities.len() && #[trigger] account.capabilities@[i]@
                    == "chat"@;
            assert(all[i] == "chat"@);
        } else if all.contains("chat"@) {
            let i = choose|i: int| 0 <= i < all.len() && all[i] == "chat"@;
            assert(account.capabilities@[i]@ == "chat"@);
        }
    }
    ShadowCandidate {
        account_hash: text::hex_text(digest.as_slice()),
        provider,
        enabled: account.enabled,
        state: account.state.as_str(),
        chat_confirmed,
        observation: observation_label(found, now_ms),
    }
}

/// An account and what was found of its observation.
#[derive(Debug)]
pub struct ShadowInput {
    pub account: RegisterUpstreamAccount,
    pub found: Option<Option<LatestObservation>>,
}

/// The model of a [`ShadowInput`].
pub struct ShadowInputView {
    pub account: AccountView,
    pub found: Option<Option<LatestView>>,
}

impl View for ShadowInput {
    type V = ShadowInputView;

    open spec fn view(&self) -> ShadowInputView {
        ShadowInputView { account: self.account@, found: found_view(self.found) }
    }
}

/// The candidates of a list of accounts.
pub open spec fn candidates_of(inputs: Seq<ShadowInputView>, now_ms: i64) -> Seq<CandidateView> {
    Seq::new(
        inputs.len(),
        |i: int|
            candidate_of(
                inputs[i].account,
                outside::sha256_of(vstd::utf8::encode_utf8(inputs[i].account.id)),
                inputs[i].found,
                now_ms,
            ),
    )
}

/// The models of a list of inputs.
pub open spec fn input_views(inputs: Seq<ShadowInput>) -> Seq<ShadowInputView> {
    Seq::new(inputs.len(), |i: int| inputs[i]@)
}

/// The models of a list of candidates.
pub open spec fn candidate_views(list: Seq<ShadowCandidate>) -> Seq<CandidateView> {
    Seq::new(list.len(), |i: int| list[i]@)
}

/// Some observation could not be asked for.
pub open spec fn some_unavailable(inputs: Seq<ShadowInputView>) -> bool {
    exists|i: int| 0 <= i < inputs.len() && (#[trigger] inputs[i]).found is None
}

/// A stored observation: its source, its status, and its times.
#[derive(Debug)]
pub struct ObservationRow {
    pub source: String,
    pub status: String,
    pub observed_at_ms: i64,
    pub stale_at_ms: i64,
}

/// The model of an [`ObservationRow`].
pub struct RowView {
    pub source: Seq<char>,
    pub status: Seq<char>,
    pub observed_at_ms: i64,
    pub stale_at_ms: i64,
}

impl View for ObservationRow {
    type V = RowView;

    open spec fn view(&self) -> RowView {
        RowView {
            source: self.source@,
            status: self.status@,
            observed_at_ms: self.observed_at_ms,
            stale_at_ms: self.stale_at_ms,
        }
    }
}

/// The models of a list of rows.
pub open spec fn row_views(rows: Seq<ObservationRow>) -> Seq<RowView> {
    Seq::new(rows.len(), |i: int| rows[i]@)
}

/// How many of the first `n` rows count now.
pub open spec fn current_rows(rows: Seq<RowView>, n: nat, now_ms: i64) -> nat
    decreases n,
{
    if n == 0 || n > rows.len() {
        0
    } else {
        let row = rows[n - 1];
        current_rows(rows, (n - 1) as nat, now_ms) + if is_current(
            row.status == "fresh"@,
            row.source,
            row.observed_at_ms,
            row.stale_at_ms,
            now_ms,
        ) {
            1nat
        } else {
            0nat
        }
    }
}

/// How many of the rows count now, and how many do not.
pub fn diagnostic_counts(rows: &Vec<ObservationRow>, now_ms: i64) -> (r: (u64, u64))
    ensures
        r.0 == current_rows(row_views(rows@), rows@.len(), now_ms),
        r.0 + r.1 == rows@.len(),
{
    let ghost all = row_views(rows@);
    let mut fresh: u64 = 0;
    let mut stale: u64 = 0;
    let mut i: usize = 0;
    while i < rows.len()
        invariant
            i <= rows.len(),
            all == row_views(rows@),
            fresh == current_rows(all, i as nat, now_ms),
            fresh + stale == i,
        decreases rows.len() - i,
    {
        let row = &rows[i];
        assert(all[i as int] == row@);
        if text::same(row.source.as_str(), "reader") && text::same(row.status.as_str(), "fresh")
            && row.observed_at_ms <= now_ms && row.stale_at_ms > now_ms {
            fresh = fresh + 1;
        } else {
            stale = stale + 1;
        }
        i = i + 1;
    }
    (fresh, stale)
}

/// The counts of a dry run: accounts, those in use, and fresh and stale
/// observations.
#[derive(Clone, Copy, Debug, PartialEq, Eq, Structural)]
pub struct DryRun {
    pub accounts: u64,
    pub enabled_accounts: u64,
    pub fresh_observations: u64,
    pub stale_observations: u64,
}

/// The status after a dry run.
pub open spec fn after_dry_run(status: StatusView, result: Result<DryRun, SchedulerError>) -> StatusView {
    let counted = StatusView { dry_runs: (status.dry_runs + 1) as u64, ..status };
    match result {
        Ok(run) => StatusView {
            accounts: run.accounts,
            enabled_accounts: run.enabled_accounts,
            fresh_observations: run.fresh_observations,
            stale_observations: run.stale_observations,
            ..counted
        },
        Err(error) => failed(counted, error),
    }
}

/// The running scheduler.
pub struct SchedulerRuntime {
    pub mode: SchedulerMode,
    pub status: SchedulerStatus,
}

/// The model of a [`SchedulerRuntime`].
pub struct RuntimeView {
    pub mode: SchedulerMode,
    pub status: StatusView,
}

impl View for SchedulerRuntime {
    type V = RuntimeView;

    open spec fn view(&self) -> RuntimeView {
        RuntimeView { mode: self.mode, status: self.status@ }
    }
}

/// A document that may be there.
pub open spec fn opt_json(json: Option<&Json>) -> Option<JsonView> {
    match json {
        Some(json) => Some(json@),
        None => None,
    }
}

impl SchedulerRuntime {
    /// Starts the scheduler. One that enforces must know which leases became
    /// unknown by its recovery; the leases before and after it are given where
    /// Core could list them.
    pub fn new(
        mode: SchedulerMode,
        before: Option<Vec<RecoverableLease>>,
        after: Option<Vec<RecoverableLease>>,
    ) -> (r: Result<SchedulerRuntime, SchedulerError>)
        ensures
            match r {
                Ok(runtime) => runtime@.mode == mode && (if mode == SchedulerMode::Enforce {
                    before is Some && after is Some && runtime@.status == started(
                        mode,
                        newly_unknown(
                            lease_views(before->0@),
                            lease_views(after->0@),
                            after->0@.len(),
                        ) as u64,
                    )
                } else {
                    runtime@.status == started(mode, 0)
                }),
                Err(error) => error == SchedulerError::RecoveryFailed && mode
                    == SchedulerMode::Enforce && (before is None || after is None),
            },
    {
        let recovered: u64 = if mode == SchedulerMode::Enforce {
            match (&before, &after) {
                (Some(before), Some(after)) => count_recovered(before, after),
                _ => {
                    return Err(SchedulerError::RecoveryFailed);
                },
            }
        } else {
            0
        };
        let status = SchedulerStatus {
            mode,
            ready: mode != SchedulerMode::Off,
            accounts: 0,
            enabled_accounts: 0,
            fresh_observations: 0,
            stale_observations: 0,
            active_leases: 0,
            unknown_leases: 0,
            reader_failures: 0,
            dry_runs: 0,
            recovered_leases: recovered,
            last_error: None,
        };
        Ok(SchedulerRuntime { mode, status })
    }

    /// Notes an error.
    pub fn note_error(&mut self, error: SchedulerError)
        ensures
            final(self)@ == (RuntimeView {
                status: failed(old(self)@.status, error),
                ..old(self)@
            }),
    {
        self.status.ready = false;
        self.status.last_error = Some(error.code().to_owned());
    }

    /// No endpoint is served by the scheduler itself.
    pub fn require_endpoint(&self, _endpoint: &str) -> (r: Result<(), SchedulerError>)
        ensures
            r == Err::<(), SchedulerError>(
                if self@.mode == SchedulerMode::Enforce {
                    SchedulerError::EndpointNotEnabled
                } else {
                    SchedulerError::NotReady
                },
            ),
    {
        if self.mode != SchedulerMode::Enforce {
            return Err(SchedulerError::NotReady);
        }
        Err(SchedulerError::EndpointNotEnabled)
    }

    /// The status, with Core's counts where Core could state them.
    pub fn scheduler_status(&self, counts: Option<&Json>) -> (r: SchedulerStatus)
        ensures
            r@ == shown(self@.status, self@.mode, opt_json(counts)),
    {
        let mut status = self.status.clone();
        if self.mode != SchedulerMode::Off {
            match counts {
                Some(counts) => merge_core_status_counts(&mut status, counts),
                None => {
                    status.ready = false;
                    status.last_error = Some(
                        SchedulerError::StorageUnavailable.code().to_owned(),
                    );
                },
            }
        }
        status
    }

    /// The accounts as an administrator sees them, in shadow mode alone. What
    /// could not be read is noted as an error.
    pub fn shadow_candidates(
        &mut self,
        accounts: Result<Vec<ShadowInput>, SchedulerError>,
        now_ms: i64,
    ) -> (r: Vec<ShadowCandidate>)
        ensures
            final(self)@.mode == old(self)@.mode,
            if old(self)@.mode != SchedulerMode::Shadow {
                final(self)@ == old(self)@ && r@.len() == 0
            } else {
                match accounts {
                    Err(error) => final(self)@.status == failed(old(self)@.status, error) && r@.len()
                        == 0,
                    Ok(inputs) => candidate_views(r@) == candidates_of(input_views(inputs@), now_ms)
                        && final(self)@.status == (if some_unavailable(input_views(inputs@)) {
                        failed(old(self)@.status, SchedulerError::StorageUnavailable)
                    } else {
                        old(self)@.status
                    }),
                }
            },
    {
        let mut list: Vec<ShadowCandidate> = Vec::new();
        if self.mode != SchedulerMode::Shadow {
            return list;
        }
        let inputs = match accounts {
            Ok(inputs) => inputs,
            Err(error) => {
                self.note_error(error);
                return list;
            },
        };
        let ghost before = self@;
        let ghost all = input_views(inputs@);
        let ghost wanted = candidates_of(all, now_ms);
        let mut unavailable = false;
        let mut i: usize = 0;
        while i < inputs.len()
            invariant
                i <= inputs.len(),
                self@ == before,
                all == input_views(inputs@),
                wanted == candidates_of(all, now_ms),
                list.len() == i,
                forall|j: int| 0 <= j < i ==> (#[trigger] list@[j])@ == wanted[j],
                unavailable == exists|j: int| 0 <= j < i && (#[trigger] all[j]).found is None,
            decreases inputs.len() - i,
        {
            let input = &inputs[i];
            assert(all[i as int] == input@);
            if input.found.is_none() {
                unavailable = true;
            }
            let digest = outside::sha256(input.account.id.as_str().as_bytes());
            list.push(shadow_candidate(&input.account, &digest, &input.found, now_ms));
            i = i + 1;
        }
        assert(candidate_views(list@) =~= wanted);
        if unavailable {
            self.note_error(SchedulerError::StorageUnavailable);
        }
        list
    }

    /// Counts accounts and observations, in shadow mode alone. An error is
    /// noted and holds up nobody.
    pub fn shadow_dry_run(
        &mut self,
        result: Result<DryRun, SchedulerError>,
        counts: Option<&Json>,
    ) -> (r: SchedulerStatus)
        requires
            old(self)@.status.dry_runs < u64::MAX,
        ensures
            final(self)@.mode == old(self)@.mode,
            final(self)@.status == (if old(self)@.mode == SchedulerMode::Shadow {
                after_dry_run(old(self)@.status, result)
            } else {
                old(self)@.status
            }),
            r@ == shown(final(self)@.status, old(self)@.mode, opt_json(counts)),
    {
        if self.mode == SchedulerMode::Shadow {
            self.status.dry_runs = self.status.dry_runs + 1;
            match result {
                Ok(run) => {
                    self.status.accounts = run.accounts;
                    self.status.enabled_accounts = run.enabled_accounts;
                    self.status.fresh_observations = run.fresh_observations;
                    self.status.stale_observations = run.stale_observations;
                },
                Err(error) => self.note_error(error),
            }
        }
        self.scheduler_status(counts)
    }
}

/// Why an administrator is not shown the status.
pub open spec fn refusal_of(error: CoreErrorView) -> SchedulerError {
    match error {
        CoreErrorView::AdminRequired(_) => SchedulerError::AdminRequired,
        _ => SchedulerError::StorageUnavailable,
    }
}

fn status_refusal(error: &CoreError) -> (r: SchedulerError)
    ensures
        r == refusal_of(error@),
{
    match error {
        CoreError::AdminRequired(_) => SchedulerError::AdminRequired,
        _ => SchedulerError::StorageUnavailable,
    }
}

/// A document with the members of another over its own.
pub open spec fn overlaid(target: JsonView, source: Seq<(Seq<char>, JsonView)>, n: nat) -> JsonView
    decreases n,
{
    if n == 0 || n > source.len() {
        target
    } else {
        overlaid(target, source, (n - 1) as nat).with(source[n - 1].0, source[n - 1].1)
    }
}

/// What an administrator is shown: what Core says, and over it the state of the
/// scheduler. A document that is no object stays as it is.
pub open spec fn admin_status(payload: JsonView, runtime: JsonView) -> JsonView {
    match (payload, runtime) {
        (JsonView::Object(_), JsonView::Object(members)) => overlaid(
            payload,
            members,
            members.len(),
        ),
        _ => payload,
    }
}

fn overlay(payload: Json, runtime: &Json) -> (r: Json)
    ensures
        r@ == admin_status(payload@, runtime@),
{
    let is_object = match &payload {
        Json::Object(_) => true,
        _ => false,
    };
    if !is_object {
        return payload;
    }
    match runtime {
        Json::Object(members) => {
            let ghost start = payload@;
            let ghost source = runtime@->Object_0;
            let mut r = payload;
            let mut i: usize = 0;
            while i < members.len()
                invariant
                    i <= members.len(),
                    *runtime == Json::Object(*members),
                    source == runtime@->Object_0,
                    source.len() == members.len(),
                    r@ == overlaid(start, source, i as nat),
                decreases members.len() - i,
            {
                assert(source[i as int] == (members@[i as int].0@, members@[i as int].1@));
                r = r.with(members[i].0.as_str(), members[i].1.dup());
                i = i + 1;
            }
            r
        },
        _ => payload,
    }
}

impl SchedulerRuntime {
    /// What an administrator is shown: what Core answered, and over it the
    /// state of the scheduler.
    pub fn scheduler_status_for_admin(payload: Result<Json, CoreError>, runtime: &Json) -> (r: Result<
        Json,
        SchedulerError,
    >)
        ensures
            match r {
                Ok(shown) => payload matches Ok(payload) && shown@ == admin_status(
                    payload@,
                    runtime@,
                ),
                Err(error) => payload matches Err(refusal) && error == refusal_of(refusal@),
            },
    {
        match payload {
            Ok(payload) => Ok(overlay(payload, runtime)),
            Err(error) => Err(status_refusal(&error)),
        }
    }
}

/// What a refresh waits for.
#[derive(Clone, Copy, Debug, PartialEq, Eq, Structural)]
pub enum RefreshStage {
    Directory,
    Reading,
    Recording,
    Confirming,
    Reporting,
    Looking,
    Appending,
    Noting,
    Over,
}

/// An observation that is being refreshed.
#[derive(Debug)]
pub struct Refresh {
    pub request: ObservationRequest,
    pub now_ms: i64,
    /// The id of the observation that notes the failure.
    pub failed_id: String,
    pub stage: RefreshStage,
}

/// The model of a [`Refresh`].
pub struct RefreshView {
    pub request: RequestView,
    pub now_ms: i64,
    pub failed_id: Seq<char>,
    pub stage: RefreshStage,
}

impl View for Refresh {
    type V = RefreshView;

    open spec fn view(&self) -> RefreshView {
        RefreshView {
            request: self.request@,
            now_ms: self.now_ms,
            failed_id: self.failed_id@,
            stage: self.stage,
        }
    }
}

/// What came of the last action.
#[derive(Debug)]
pub enum RefreshEvent {
    /// The provider of the account of that reference, if there is one.
    Directory(Result<Option<String>, SchedulerError>),
    /// The account and the resource of the observation that a reader made.
    Read(Option<(String, String)>),
    Recorded(bool),
    /// The latest observation, where Core could be asked.
    Latest(Option<Option<LatestObservation>>),
    Appended(bool),
    Noted(bool),
}

/// The model of a [`RefreshEvent`].
pub enum RefreshEventView {
    Directory(Result<Option<Seq<char>>, SchedulerError>),
    Read(Option<(Seq<char>, Seq<char>)>),
    Recorded(bool),
    Latest(Option<Option<LatestView>>),
    Appended(bool),
    Noted(bool),
}

impl View for RefreshEvent {
    type V = RefreshEventView;

    open spec fn view(&self) -> RefreshEventView {
        match self {
            RefreshEvent::Directory(found) => RefreshEventView::Directory(
                match found {
                    Ok(provider) => Ok(text::opt_view(*provider)),
                    Err(error) => Err(*error),
                },
            ),
            RefreshEvent::Read(read) => RefreshEventView::Read(
                match read {
                    Some((account, resource)) => Some((account@, resource@)),
                    None => None,
                },
            ),
            RefreshEvent::Recorded(done) => RefreshEventView::Recorded(*done),
            RefreshEvent::Latest(found) => RefreshEventView::Latest(found_view(*found)),
            RefreshEvent::Appended(done) => RefreshEventView::Appended(*done),
            RefreshEvent::Noted(done) => RefreshEventView::Noted(*done),
        }
    }
}

/// An observation as Core keeps it.
#[derive(Debug)]
pub struct ObservationRecord {
    pub id: String,
    pub account_ref: String,
    pub resource_kind: String,
    pub value: Option<i64>,
    pub value_scale: i64,
    pub source: &'static str,
    pub status: ObservationStatus,
    pub observed_at_ms: i64,
    pub stale_at_ms: i64,
    pub summary: Json,
}

/// The model of an [`ObservationRecord`].
pub struct RecordView {
    pub id: Seq<char>,
    pub account_ref: Seq<char>,
    pub resource_kind: Seq<char>,
    pub value: Option<i64>,
    pub value_scale: i64,
    pub source: Seq<char>,
    pub status: ObservationStatus,
    pub observed_at_ms: i64,
    pub stale_at_ms: i64,
    pub summary: JsonView,
}

impl View for ObservationRecord {
    type V = RecordView;

    open spec fn view(&self) -> RecordView {
        RecordView {
            id: self.id@,
            account_ref: self.account_ref@,
            resource_kind: self.resource_kind@,
            value: self.value,
            value_scale: self.value_scale,
            source: self.source@,
            status: self.status,
            observed_at_ms: self.observed_at_ms,
            stale_at_ms: self.stale_at_ms,
            summary: self.summary@,
        }
    }
}

/// The observation that notes a failure with that scale at that time: a failed
/// one, without a value, and stale when it is made.
pub open spec fn failure_record(refresh: RefreshView, scale: i64, at: i64) -> RecordView {
    RecordView {
        id: refresh.failed_id,
        account_ref: refresh.request.account_ref,
        resource_kind: refresh.request.resource_kind,
        value: None,
        value_scale: scale,
        source: "reader"@,
        status: ObservationStatus::Failed,
        observed_at_ms: at,
        stale_at_ms: at,
        summary: JsonView::object().member("status"@, JsonView::Text("failed"@)).member(
            "reason"@,
            JsonView::Text("reader_unavailable"@),
        ),
    }
}

/// The observation that notes a failure with that scale at that time.
pub fn failed_observation(refresh: &Refresh, scale: i64, at: i64) -> (r: ObservationRecord)
    ensures
        r@ == failure_record(refresh@, scale, at),
{
    ObservationRecord {
        id: refresh.failed_id.clone(),
        account_ref: refresh.request.account_ref.clone(),
        resource_kind: refresh.request.resource_kind.clone(),
        value: None,
        value_scale: scale,
        source: "reader",
        status: ObservationStatus::Failed,
        observed_at_ms: at,
        stale_at_ms: at,
        summary: Json::object().member("status", Json::text("failed")).member(
            "reason",
            Json::text("reader_unavailable"),
        ),
    }
}

/// What is to be done next.
#[derive(Debug)]
pub enum RefreshAction {
    /// Look the account up in Core's directory.
    ReadDirectory,
    /// Have the reader of the provider observe the account.
    Read,
    /// Record the observation that was made.
    Record,
    /// Ask for the latest observation of the account.
    Latest,
    /// Append the observation that notes the failure.
    AppendFailure(ObservationRecord),
    /// Note the health of the account: the observation, and the category.
    Note(Option<String>, &'static str),
    Done(Result<(), SchedulerError>),
}

/// The model of a [`RefreshAction`].
pub enum RefreshActionView {
    ReadDirectory,
    Read,
    Record,
    Latest,
    AppendFailure(RecordView),
    Note(Option<Seq<char>>, Seq<char>),
    Done(Result<(), SchedulerError>),
}

impl View for RefreshAction {
    type V = RefreshActionView;

    open spec fn view(&self) -> RefreshActionView {
        match self {
            RefreshAction::ReadDirectory => RefreshActionView::ReadDirectory,
            RefreshAction::Read => RefreshActionView::Read,
            RefreshAction::Record => RefreshActionView::Record,
            RefreshAction::Latest => RefreshActionView::Latest,
            RefreshAction::AppendFailure(record) => RefreshActionView::AppendFailure(record@),
            RefreshAction::Note(id, category) => RefreshActionView::Note(
                text::opt_view(*id),
                category@,
            ),
            RefreshAction::Done(result) => RefreshActionView::Done(*result),
        }
    }
}

/// The scheduler, the refresh and the next action.
pub struct RefreshStepView {
    pub status: StatusView,
    pub refresh: RefreshView,
    pub action: RefreshActionView,
}

/// The refresh goes on from that stage.
pub open spec fn moves(
    status: StatusView,
    refresh: RefreshView,
    stage: RefreshStage,
    action: RefreshActionView,
) -> RefreshStepView {
    RefreshStepView { status, refresh: RefreshView { stage, ..refresh }, action }
}

/// The refresh ends.
pub open spec fn ends(
    status: StatusView,
    refresh: RefreshView,
    result: Result<(), SchedulerError>,
) -> RefreshStepView {
    moves(status, refresh, RefreshStage::Over, RefreshActionView::Done(result))
}

/// No observation was made: the failure is counted, and noted after the latest
/// observation.
pub open spec fn unread(status: StatusView, refresh: RefreshView) -> RefreshStepView {
    moves(
        StatusView { reader_failures: (status.reader_failures + 1) as u64, ..status },
        refresh,
        RefreshStage::Looking,
        RefreshActionView::Latest,
    )
}

/// When a failure is noted: now, but in any case after the latest observation.
pub open spec fn failure_time(now_ms: i64, latest: Option<i64>) -> Option<i64> {
    match latest {
        None => Some(now_ms),
        Some(observed) => if observed == i64::MAX {
            None
        } else if observed + 1 > now_ms {
            Some((observed + 1) as i64)
        } else {
            Some(now_ms)
        },
    }
}

/// When a failure is noted.
pub fn failed_at(now_ms: i64, latest: Option<i64>) -> (r: Option<i64>)
    ensures
        r == failure_time(now_ms, latest),
{
    match latest {
        None => Some(now_ms),
        Some(observed) => if observed == i64::MAX {
            None
        } else if observed + 1 > now_ms {
            Some(observed + 1)
        } else {
            Some(now_ms)
        },
    }
}

/// The event can follow the action that the refresh waits for.
pub open spec fn expected(stage: RefreshStage, event: RefreshEventView) -> bool {
    match stage {
        RefreshStage::Directory => event is Directory,
        RefreshStage::Reading => event is Read,
        RefreshStage::Recording => event is Recorded,
        RefreshStage::Confirming => event is Latest,
        RefreshStage::Reporting => event is Noted,
        RefreshStage::Looking => event is Latest,
        RefreshStage::Appending => event is Appended,
        RefreshStage::Noting => event is Noted,
        RefreshStage::Over => false,
    }
}

/// The next step of a refresh.
pub open spec fn refresh_step(
    status: StatusView,
    refresh: RefreshView,
    event: RefreshEventView,
) -> RefreshStepView {
    let storage = Err::<(), SchedulerError>(SchedulerError::StorageUnavailable);
    let reader = Err::<(), SchedulerError>(SchedulerError::ReaderUnavailable);
    match event {
        RefreshEventView::Directory(found) => match found {
            Err(error) => ends(status, refresh, Err(error)),
            Ok(provider) => if provider == Some(refresh.request.provider) {
                moves(status, refresh, RefreshStage::Reading, RefreshActionView::Read)
            } else {
                ends(status, refresh, reader)
            },
        },
        RefreshEventView::Read(read) => if read == Some(
            (refresh.request.account_ref, refresh.request.resource_kind),
        ) {
            moves(status, refresh, RefreshStage::Recording, RefreshActionView::Record)
        } else {
            unread(status, refresh)
        },
        RefreshEventView::Recorded(done) => if done {
            moves(status, refresh, RefreshStage::Confirming, RefreshActionView::Latest)
        } else {
            unread(status, refresh)
        },
        RefreshEventView::Latest(found) => match found {
            None => ends(status, refresh, storage),
            Some(latest) => if refresh.stage == RefreshStage::Confirming {
                moves(
                    status,
                    refresh,
                    RefreshStage::Reporting,
                    RefreshActionView::Note(
                        match latest {
                            Some(o) => Some(o.id),
                            None => None,
                        },
                        "success"@,
                    ),
                )
            } else {
                match failure_time(
                    refresh.now_ms,
                    match latest {
                        Some(o) => Some(o.observed_at_ms),
                        None => None,
                    },
                ) {
                    None => ends(status, refresh, storage),
                    Some(at) => moves(
                        status,
                        refresh,
                        RefreshStage::Appending,
                        RefreshActionView::AppendFailure(
                            failure_record(
                                refresh,
                                match latest {
                                    Some(o) => o.value_scale,
                                    None => 1,
                                },
                                at,
                            ),
                        ),
                    ),
                }
            },
        },
        RefreshEventView::Appended(done) => if done {
            moves(
                status,
                refresh,
                RefreshStage::Noting,
                RefreshActionView::Note(Some(refresh.failed_id), "reader_failure"@),
            )
        } else {
            ends(status, refresh, storage)
        },
        RefreshEventView::Noted(done) => if !done {
            ends(status, refresh, storage)
        } else if refresh.stage == RefreshStage::Reporting {
            ends(status, refresh, Ok(()))
        } else {
            ends(status, refresh, reader)
        },
    }
}

/// The first step of a refresh. A scheduler that is off refreshes nothing.
pub open spec fn refresh_start(mode: SchedulerMode) -> (RefreshStage, RefreshActionView) {
    if mode == SchedulerMode::Off {
        (RefreshStage::Over, RefreshActionView::Done(Err(SchedulerError::NotReady)))
    } else {
        (RefreshStage::Directory, RefreshActionView::ReadDirectory)
    }
}

/// The first step of a refresh, with the id that a failure would be noted
/// under.
pub fn start_refresh(
    mode: SchedulerMode,
    request: ObservationRequest,
    now_ms: i64,
    failed_id: String,
) -> (r: (Refresh, RefreshAction))
    ensures
        (r.0@, r.1@) == ({
            let (stage, action) = refresh_start(mode);
            (RefreshView { request: request@, now_ms, failed_id: failed_id@, stage }, action)
        }),
{
    if mode == SchedulerMode::Off {
        return (
            Refresh { request, now_ms, failed_id, stage: RefreshStage::Over },
            RefreshAction::Done(Err(SchedulerError::NotReady)),
        );
    }
    (
        Refresh { request, now_ms, failed_id, stage: RefreshStage::Directory },
        RefreshAction::ReadDirectory,
    )
}

/// A new id of an observation.
pub fn new_observation_id() -> (r: String)
    ensures
        r@.len() == "observation_"@.len() + 32,
        text::starts_with(r@, "observation_"@),
        forall|i: int|
            "observation_"@.len() <= i < r@.len() ==> text::is_hex_char(#[trigger] r@[i]),
{
    let digits = text::random_hex(32);
    let r = text::join2("observation_", digits.as_str());
    assert(r@.subrange(0, "observation_"@.len() as int) =~= "observation_"@);
    r
}

fn advance(refresh: Refresh, stage: RefreshStage, action: RefreshAction) -> (r: (
    Refresh,
    RefreshAction,
))
    ensures
        r.0@ == (RefreshView { stage, ..refresh@ }),
        r.1@ == action@,
{
    (Refresh { stage, ..refresh }, action)
}

fn finish(refresh: Refresh, result: Result<(), SchedulerError>) -> (r: (Refresh, RefreshAction))
    ensures
        r.0@ == (RefreshView { stage: RefreshStage::Over, ..refresh@ }),
        r.1@ == RefreshActionView::Done(result),
{
    advance(refresh, RefreshStage::Over, RefreshAction::Done(result))
}

impl SchedulerRuntime {
    /// The next step of a refresh.
    pub fn refresh_observation(&mut self, refresh: Refresh, event: RefreshEvent) -> (r: (
        Refresh,
        RefreshAction,
    ))
        requires
            expected(refresh@.stage, event@),
            old(self)@.status.reader_failures < u64::MAX,
        ensures
            final(self)@.mode == old(self)@.mode,
            (RefreshStepView { status: final(self)@.status, refresh: r.0@, action: r.1@ })
                == refresh_step(old(self)@.status, refresh@, event@),
    {
        match event {
            RefreshEvent::Directory(found) => match found {
                Err(error) => finish(refresh, Err(error)),
                Ok(provider) => {
                    let same = match &provider {
                        Some(provider) => text::same(
                            provider.as_str(),
                            refresh.request.provider.as_str(),
                        ),
                        None => false,
                    };
                    if same {
                        advance(refresh, RefreshStage::Reading, RefreshAction::Read)
                    } else {
                        finish(refresh, Err(SchedulerError::ReaderUnavailable))
                    }
                },
            },
            RefreshEvent::Read(read) => {
                let same = match &read {
                    Some((account, resource)) => text::same(
                        account.as_str(),
                        refresh.request.account_ref.as_str(),
                    ) && text::same(resource.as_str(), refresh.request.resource_kind.as_str()),
                    None => false,
                };
                if same {
                    advance(refresh, RefreshStage::Recording, RefreshAction::Record)
                } else {
                    self.status.reader_failures = self.status.reader_failures + 1;
                    advance(refresh, RefreshStage::Looking, RefreshAction::Latest)
                }
            },
            RefreshEvent::Recorded(done) => if done {
                advance(refresh, RefreshStage::Confirming, RefreshAction::Latest)
            } else {
                self.status.reader_failures = self.status.reader_failures + 1;
                advance(refresh, RefreshStage::Looking, RefreshAction::Latest)
            },
            RefreshEvent::Latest(found) => match found {
                None => finish(refresh, Err(SchedulerError::StorageUnavailable)),
                Some(latest) => {
                    if refresh.stage == RefreshStage::Confirming {
                        let id = match latest {
                            Some(o) => Some(o.id),
                            None => None,
                        };
                        return advance(
                            refresh,
                            RefreshStage::Reporting,
                            RefreshAction::Note(id, "success"),
                        );
                    }
                    let (scale, observed) = match &latest {
                        Some(o) => (o.value_scale, Some(o.observed_at_ms)),
                        None => (1i64, None),
                    };
                    match failed_at(refresh.now_ms, observed) {
                        None => finish(refresh, Err(SchedulerError::StorageUnavailable)),
                        Some(at) => {
                            let record = failed_observation(&refresh, scale, at);
                            advance(
                                refresh,
                                RefreshStage::Appending,
                                RefreshAction::AppendFailure(record),
                            )
                        },
                    }
                },
            },
            RefreshEvent::Appended(done) => if done {
                let id = refresh.failed_id.clone();
                advance(
                    refresh,
                    RefreshStage::Noting,
                    RefreshAction::Note(Some(id), "reader_failure"),
                )
            } else {
                finish(refresh, Err(SchedulerError::StorageUnavailable))
            },
            RefreshEvent::Noted(done) => if !done {
                finish(refresh, Err(SchedulerError::StorageUnavailable))
            } else if refresh.stage == RefreshStage::Reporting {
                finish(refresh, Ok(()))
            } else {
                finish(refresh, Err(SchedulerError::ReaderUnavailable))
            },
        }
    }
}

/// A failed refresh comes after every observation that was made, whatever the
/// clock says.
pub proof fn law_a_failure_supersedes(now_ms: i64, latest: Option<i64>)
    ensures
        failure_time(now_ms, latest) matches Some(at) ==> at >= now_ms,
        latest matches Some(observed) ==> (failure_time(now_ms, latest) matches Some(at) ==> at
            > observed),
        failure_time(now_ms, latest) is None <==> latest == Some(i64::MAX),
{
}

/// A refresh whose reader is missing, fails, or observes something else: nothing
/// that was read is recorded, the failure is counted once, and one failed
/// observation is appended, later than the latest one and with its scale. It is
/// answered that the reader is unavailable.
pub proof fn law_a_failed_refresh_is_noted_last(
    status: StatusView,
    refresh: RefreshView,
    read: Option<(Seq<char>, Seq<char>)>,
    latest: Option<LatestView>,
)
    requires
        refresh.stage == RefreshStage::Reading,
        read != Some((refresh.request.account_ref, refresh.request.resource_kind)),
        status.reader_failures < u64::MAX,
        latest matches Some(o) ==> o.observed_at_ms < i64::MAX,
    ensures
        ({
            let unread = refresh_step(status, refresh, RefreshEventView::Read(read));
            let looked = refresh_step(
                unread.status,
                unread.refresh,
                RefreshEventView::Latest(Some(latest)),
            );
            let appended = refresh_step(
                looked.status,
                looked.refresh,
                RefreshEventView::Appended(true),
            );
            let noted = refresh_step(
                appended.status,
                appended.refresh,
                RefreshEventView::Noted(true),
            );
            let at = match latest {
                Some(o) => if o.observed_at_ms + 1 > refresh.now_ms {
                    (o.observed_at_ms + 1) as i64
                } else {
                    refresh.now_ms
                },
                None => refresh.now_ms,
            };
            let scale = match latest {
                Some(o) => o.value_scale,
                None => 1,
            };
            &&& unread.action == RefreshActionView::Latest
            &&& unread.status.reader_failures == status.reader_failures + 1
            &&& looked.action == RefreshActionView::AppendFailure(
                failure_record(refresh, scale, at),
            )
            &&& latest matches Some(o) ==> at > o.observed_at_ms
            &&& appended.action == RefreshActionView::Note(
                Some(refresh.failed_id),
                "reader_failure"@,
            )
            &&& noted.action == RefreshActionView::Done(Err(SchedulerError::ReaderUnavailable))
            &&& noted.status == unread.status
        }),
{
}

/// An observation of another account or of another resource is never recorded.
pub proof fn law_a_foreign_observation_is_not_recorded(
    status: StatusView,
    refresh: RefreshView,
    read: Option<(Seq<char>, Seq<char>)>,
)
    requires
        read != Some((refresh.request.account_ref, refresh.request.resource_kind)),
    ensures
        refresh_step(status, refresh, RefreshEventView::Read(read)).action
            == RefreshActionView::Latest,
        refresh_step(status, refresh, RefreshEventView::Read(read)).refresh.stage
            == RefreshStage::Looking,
{
}

/// A refresh succeeds only where an observation was recorded, and a failure of
/// a reader is counted.
pub proof fn law_a_refresh_succeeds_on_a_recorded_observation(
    status: StatusView,
    refresh: RefreshView,
    event: RefreshEventView,
)
    requires
        expected(refresh.stage, event),
        status.reader_failures < u64::MAX,
    ensures
        refresh_step(status, refresh, event).action == RefreshActionView::Done(Ok(())) ==> refresh.stage
            == RefreshStage::Reporting,
        refresh_step(status, refresh, event).refresh.stage == RefreshStage::Reporting
            ==> refresh.stage == RefreshStage::Confirming,
        refresh_step(status, refresh, event).refresh.stage == RefreshStage::Confirming ==> event
            == RefreshEventView::Recorded(true),
        refresh_step(status, refresh, event).refresh.stage == RefreshStage::Looking
            ==> refresh_step(status, refresh, event).status.reader_failures
            == status.reader_failures + 1,
{
}

/// Failures of readers that the scheduler has seen are never forgotten.
pub proof fn law_reader_failures_are_never_forgotten(status: StatusView, counts: JsonView)
    ensures
        merged_counts(status, counts).reader_failures >= status.reader_failures,
{
}

} // verus!
