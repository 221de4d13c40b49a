//! What holds of the accounts that Core may schedule: how they are described,
//! observed, shown and brought up to date.

use crate::account_directory::{
    self, AccountView, CooldownView, DirectoryView, FilesView, RawView, UpstreamAccountState, WbView,
};
use crate::core_types::{CoreErrorView, CoreMode, LeaseState};
use crate::directory_sync::{self, SyncAction, SyncEventView, SyncStage, SyncView};
use crate::json::JsonView;
use crate::scheduler::{
    self, DryRun, LatestView, LeaseView, ObservationStatus, RefreshActionView, RefreshEventView,
    RefreshStage, RefreshView, RowView, SchedulerError, SchedulerMode, ShadowInputView, StatusView,
};
use crate::table;
use crate::text;
use crate::text_laws;
use crate::upstream_observation::{self, SnapshotView, Source, Units};
use crate::outside;
use vstd::prelude::*;

verus! {

/// A mode is known by its name, in any case and with any white space around it,
/// and by no other name.
pub proof fn law_a_mode_is_known_by_its_name(name: Seq<char>)
    ensures
        ({
            let word = text::lower(text::trim(name));
            &&& scheduler::mode_of(name) == Ok::<SchedulerMode, SchedulerError>(SchedulerMode::Off)
                <==> word == "off"@
            &&& scheduler::mode_of(name) == Ok::<SchedulerMode, SchedulerError>(
                SchedulerMode::Shadow,
            ) <==> word == "shadow"@
            &&& scheduler::mode_of(name) == Ok::<SchedulerMode, SchedulerError>(
                SchedulerMode::Enforce,
            ) <==> word == "enforce"@
            &&& scheduler::mode_of(name) matches Err(error) ==> error == SchedulerError::InvalidMode
        }),
{
    reveal_strlit("off");
    reveal_strlit("shadow");
    reveal_strlit("enforce");
    assert("off"@.len() == 3);
    assert("shadow"@.len() == 6);
    assert("enforce"@.len() == 7);
}

/// Two errors have two codes.
pub proof fn law_two_errors_have_two_codes(a: SchedulerError, b: SchedulerError)
    ensures
        scheduler::code_of(a) == scheduler::code_of(b) ==> a == b,
        text::starts_with(scheduler::code_of(a), "scheduler_"@),
{
    reveal_strlit("scheduler_");
    reveal_strlit("scheduler_mode_invalid");
    reveal_strlit("scheduler_mode_incompatible");
    reveal_strlit("scheduler_not_ready");
    reveal_strlit("scheduler_admin_required");
    reveal_strlit("scheduler_storage_unavailable");
    reveal_strlit("scheduler_reader_unavailable");
    reveal_strlit("scheduler_sync_failed");
    reveal_strlit("scheduler_recovery_failed");
    reveal_strlit("scheduler_endpoint_not_enabled");
    assert("scheduler_mode_invalid"@.len() == 22);
    assert("scheduler_mode_incompatible"@.len() == 27);
    assert("scheduler_not_ready"@.len() == 19);
    assert("scheduler_admin_required"@.len() == 24);
    assert("scheduler_storage_unavailable"@.len() == 29);
    assert("scheduler_reader_unavailable"@.len() == 28);
    assert("scheduler_sync_failed"@.len() == 21);
    assert("scheduler_recovery_failed"@.len() == 25);
    assert("scheduler_endpoint_not_enabled"@.len() == 30);
    assert(scheduler::code_of(a).subrange(0, 10) =~= "scheduler_"@);
}

/// A scheduler starts ready, unless it is off, and knows of nothing but the
/// leases that it recovered.
pub proof fn law_a_scheduler_starts_afresh(mode: SchedulerMode, recovered: u64)
    ensures
        ({
            let status = scheduler::started(mode, recovered);
            &&& status.mode == mode && status.recovered_leases == recovered
            &&& status.ready == (mode != SchedulerMode::Off) && status.last_error is None
            &&& status.accounts == 0 && status.enabled_accounts == 0
            &&& status.fresh_observations == 0 && status.stale_observations == 0
            &&& status.active_leases == 0 && status.unknown_leases == 0
            &&& status.reader_failures == 0 && status.dry_runs == 0
        }),
{
}

/// A scheduler that met an error is not ready, and says which; what it counted
/// stays.
pub proof fn law_an_error_makes_the_scheduler_unready(status: StatusView, error: SchedulerError)
    ensures
        ({
            let after = scheduler::failed(status, error);
            &&& !after.ready && after.last_error == Some(scheduler::code_of(error))
            &&& counts_of(after) == counts_of(status) && after.mode == status.mode
        }),
{
}

/// What a scheduler counts.
pub open spec fn counts_of(status: StatusView) -> Seq<u64> {
    seq![
        status.accounts,
        status.enabled_accounts,
        status.fresh_observations,
        status.stale_observations,
        status.active_leases,
        status.unknown_leases,
        status.reader_failures,
        status.dry_runs,
        status.recovered_leases,
    ]
}

/// Every count that Core states is shown; one that it does not state stays as it
/// is.
pub proof fn law_the_counts_of_core_are_shown(
    status: StatusView,
    mode: SchedulerMode,
    counts: JsonView,
)
    requires
        mode != SchedulerMode::Off,
    ensures
        ({
            let shown = scheduler::shown(status, mode, Some(counts));
            &&& is_count(shown.accounts, status.accounts, counts, "accounts"@)
            &&& is_count(
                shown.enabled_accounts,
                status.enabled_accounts,
                counts,
                "enabled_accounts"@,
            )
            &&& is_count(
                shown.fresh_observations,
                status.fresh_observations,
                counts,
                "fresh_observations"@,
            )
            &&& is_count(
                shown.stale_observations,
                status.stale_observations,
                counts,
                "stale_observations"@,
            )
            &&& is_count(shown.active_leases, status.active_leases, counts, "active_leases"@)
            &&& is_count(shown.unknown_leases, status.unknown_leases, counts, "unknown_leases"@)
            &&& shown.reader_failures >= status.reader_failures
            &&& counts.unsigned_at("reader_failures"@) matches Some(n) ==> shown.reader_failures
                >= n && (shown.reader_failures == n || shown.reader_failures
                == status.reader_failures)
            &&& counts.unsigned_at("reader_failures"@) is None ==> shown.reader_failures
                == status.reader_failures
            &&& shown.mode == status.mode && shown.ready == status.ready
            &&& shown.dry_runs == status.dry_runs
            &&& shown.recovered_leases == status.recovered_leases
            &&& shown.last_error == status.last_error
        }),
        !scheduler::shown(status, mode, None).ready,
        counts_of(scheduler::shown(status, mode, None)) == counts_of(status),
        scheduler::shown(status, SchedulerMode::Off, Some(counts)) == status,
        scheduler::shown(status, SchedulerMode::Off, None) == status,
{
}

/// The number is the one that Core states under that name, and else the one that
/// was there.
pub open spec fn is_count(shown: u64, was: u64, counts: JsonView, name: Seq<char>) -> bool {
    &&& counts.unsigned_at(name) matches Some(n) ==> shown == n
    &&& counts.unsigned_at(name) is None ==> shown == was
}

/// A lease was recovered where its outcome is unknown and was not before; every
/// such lease is counted once.
pub proof fn law_a_recovered_lease_is_counted(
    before: Seq<LeaseView>,
    after: Seq<LeaseView>,
    n: nat,
)
    requires
        n < after.len(),
    ensures
        ({
            let counted = scheduler::newly_unknown(before, after, n);
            let next = scheduler::newly_unknown(before, after, n + 1);
            let known = exists|i: int|
                0 <= i < before.len() && (#[trigger] before[i]).id == after[n as int].id
                    && before[i].state == LeaseState::Unknown;
            &&& after[n as int].state == LeaseState::Unknown && !known ==> next == counted + 1
            &&& after[n as int].state != LeaseState::Unknown || known ==> next == counted
        }),
        scheduler::newly_unknown(before, after, 0) == 0,
{
}

/// A second recovery finds nothing that the first did not find.
pub proof fn law_a_second_recovery_finds_nothing(leases: Seq<LeaseView>, n: nat)
    requires
        n <= leases.len(),
    ensures
        scheduler::newly_unknown(leases, leases, n) == 0,
    decreases n,
{
    if n > 0 {
        law_a_second_recovery_finds_nothing(leases, (n - 1) as nat);
        assert(leases[n - 1].id == leases[n - 1].id);
    }
}

/// What is said of an observation: it is fresh where a reader made it in time;
/// it has failed where the reader failed; and Core may not have one, or not tell.
pub proof fn law_an_observation_is_told_apart(
    found: Option<Option<LatestView>>,
    o: LatestView,
    now_ms: i64,
)
    ensures
        scheduler::observation_word(found, now_ms) == "unavailable"@ <==> found is None,
        scheduler::observation_word(found, now_ms) == "missing"@ <==> found == Some(
            None::<LatestView>,
        ),
        ({
            let word = scheduler::observation_word(Some(Some(o)), now_ms);
            &&& word == "fresh"@ <==> o.status == ObservationStatus::Fresh && o.source == "reader"@
                && o.observed_at_ms <= now_ms < o.stale_at_ms
            &&& word == "failed"@ <==> o.status == ObservationStatus::Failed
            &&& word == "fresh"@ || word == "failed"@ || word == "stale"@
        }),
{
    reveal_strlit("unavailable");
    reveal_strlit("missing");
    reveal_strlit("fresh");
    reveal_strlit("failed");
    reveal_strlit("stale");
    assert("unavailable"@.len() == 11);
    assert("missing"@.len() == 7);
    assert("fresh"@.len() == 5);
    assert("failed"@.len() == 6);
    assert("stale"@.len() == 5);
    assert("fresh"@[0] != "stale"@[0]);
}

/// An administrator sees whether an account can be used, and not who it is: two
/// accounts that differ in their names and credentials alone look alike.
pub proof fn law_a_candidate_hides_its_account(
    a: AccountView,
    b: AccountView,
    digest: Seq<u8>,
    found: Option<Option<LatestView>>,
    now_ms: i64,
)
    ensures
        ({
            let shown = scheduler::candidate_of(a, digest, found, now_ms);
            &&& shown.enabled == a.enabled
            &&& account_directory::named_state(shown.state) == a.state
            &&& shown.chat_confirmed == a.capabilities.contains("chat"@)
            &&& shown.observation == scheduler::observation_word(found, now_ms)
            &&& shown.account_hash == text::hex(digest)
            &&& a.provider == "trae"@ || a.provider == "workbuddy"@ || a.provider == "mock"@
                ==> shown.provider == a.provider
            &&& a.provider != "trae"@ && a.provider != "workbuddy"@ && a.provider != "mock"@
                ==> shown.provider == "other"@
            &&& a.provider == b.provider && a.enabled == b.enabled && a.state == b.state
                && a.capabilities == b.capabilities ==> shown == scheduler::candidate_of(
                b,
                digest,
                found,
                now_ms,
            )
        }),
{
    law_a_state_is_known_by_its_name(a.state, a.provider);
}

/// A row counts as fresh where a reader made it and its time has come and is not
/// over; every row counts once.
pub proof fn law_a_fresh_row_is_counted(rows: Seq<RowView>, n: nat, now_ms: i64)
    requires
        n < rows.len(),
    ensures
        ({
            let row = rows[n as int];
            let fresh = row.status == "fresh"@ && row.source == "reader"@ && row.observed_at_ms
                <= now_ms < row.stale_at_ms;
            scheduler::current_rows(rows, n + 1, now_ms) == scheduler::current_rows(rows, n, now_ms)
                + (if fresh {
                1int
            } else {
                0int
            })
        }),
        scheduler::current_rows(rows, 0, now_ms) == 0,
{
}

/// A dry run is counted. Where it went well its counts are shown; where it did
/// not the scheduler is not ready and shows what it had.
pub proof fn law_a_dry_run_is_counted(status: StatusView, result: Result<DryRun, SchedulerError>)
    requires
        status.dry_runs < u64::MAX,
    ensures
        ({
            let after = scheduler::after_dry_run(status, result);
            &&& after.dry_runs == status.dry_runs + 1
            &&& after.mode == status.mode && after.reader_failures == status.reader_failures
            &&& after.active_leases == status.active_leases
            &&& after.unknown_leases == status.unknown_leases
            &&& after.recovered_leases == status.recovered_leases
            &&& result matches Ok(run) ==> after.accounts == run.accounts && after.enabled_accounts
                == run.enabled_accounts && after.fresh_observations == run.fresh_observations
                && after.stale_observations == run.stale_observations && after.ready == status.ready
                && after.last_error == status.last_error
            &&& result matches Err(error) ==> !after.ready && after.last_error == Some(
                scheduler::code_of(error),
            ) && after.accounts == status.accounts && after.enabled_accounts
                == status.enabled_accounts && after.fresh_observations == status.fresh_observations
                && after.stale_observations == status.stale_observations
        }),
{
}

/// An administrator is shown the state of the scheduler over what Core says: a
/// member of the one hides that of the other, and none is lost.
pub proof fn law_the_scheduler_is_shown_over_core(
    payload: JsonView,
    members: Seq<(Seq<char>, JsonView)>,
    name: Seq<char>,
)
    requires
        payload is Object,
        table::unique(members),
    ensures
        scheduler::admin_status(payload, JsonView::Object(members)).get(name) == (
        match table::find(members, name) {
            Some(value) => Some(value),
            None => payload.get(name),
        }),
{
    lemma_overlaid(payload, members, members.len(), name);
    table::lemma_find_has_key(members, name);
    if table::has_key(members, name) {
        let i = choose|i: int| 0 <= i < members.len() && (#[trigger] members[i]).0 == name;
        table::lemma_find_at(members, i);
    } else {
        assert forall|i: int| 0 <= i < members.len() implies (#[trigger] members[i]).0 != name by {
        }
    }
}

proof fn lemma_overlaid(
    payload: JsonView,
    members: Seq<(Seq<char>, JsonView)>,
    n: nat,
    name: Seq<char>,
)
    requires
        payload is Object,
        table::unique(members),
        n <= members.len(),
    ensures
        scheduler::overlaid(payload, members, n) is Object,
        (forall|i: int| 0 <= i < n ==> (#[trigger] members[i]).0 != name) ==> scheduler::overlaid(
            payload,
            members,
            n,
        ).get(name) == payload.get(name),
        forall|i: int|
            0 <= i < n && (#[trigger] members[i]).0 == name ==> scheduler::overlaid(
                payload,
                members,
                n,
            ).get(name) == Some(members[i].1),
    decreases n,
{
    broadcast use crate::json::group_members;

    if n > 0 {
        lemma_overlaid(payload, members, (n - 1) as nat, name);
        assert forall|i: int| 0 <= i < n && (#[trigger] members[i]).0 == name implies
            scheduler::overlaid(payload, members, n).get(name) == Some(members[i].1) by {
            if i < n - 1 {
                assert(members[i].0 != members[n - 1].0);
            }
        }
    }
}

/// An observation is refreshed step by step: the account is looked up, read and
/// recorded, and its health noted; a failure is counted, appended behind the
/// latest observation, and noted. What is refreshed stays the same throughout.
pub proof fn law_an_observation_is_refreshed(
    status: StatusView,
    refresh: RefreshView,
    event: RefreshEventView,
)
    requires
        scheduler::expected(refresh.stage, event),
        status.reader_failures < u64::MAX,
    ensures
        ({
            let step = scheduler::refresh_step(status, refresh, event);
            let storage = Err::<(), SchedulerError>(SchedulerError::StorageUnavailable);
            let reader = Err::<(), SchedulerError>(SchedulerError::ReaderUnavailable);
            &&& step.refresh.request == refresh.request && step.refresh.now_ms == refresh.now_ms
                && step.refresh.failed_id == refresh.failed_id
            &&& event matches RefreshEventView::Directory(Err(error)) ==> step.action
                == RefreshActionView::Done(Err(error))
            &&& event matches RefreshEventView::Directory(Ok(provider)) ==> step.action == (
            if provider == Some(refresh.request.provider) {
                RefreshActionView::Read
            } else {
                RefreshActionView::Done(reader)
            })
            &&& event matches RefreshEventView::Read(Some((account, resource))) ==> (step.action
                is Record == (account == refresh.request.account_ref && resource
                == refresh.request.resource_kind))
            &&& event == RefreshEventView::Recorded(true) ==> step.action is Latest
                && step.refresh.stage == RefreshStage::Confirming
            &&& event == RefreshEventView::Recorded(false) || event == RefreshEventView::Read(None)
                ==> step.action is Latest && step.refresh.stage == RefreshStage::Looking
            &&& step.status.reader_failures == status.reader_failures + (if step.refresh.stage
                == RefreshStage::Looking {
                1int
            } else {
                0int
            })
            &&& step.status == (StatusView {
                reader_failures: step.status.reader_failures,
                ..status
            })
            &&& event == RefreshEventView::Latest(None) ==> step.action == RefreshActionView::Done(
                storage,
            )
            &&& event matches RefreshEventView::Latest(Some(latest)) ==> {
                &&& refresh.stage == RefreshStage::Confirming ==> (
                step.action matches RefreshActionView::Note(id, word) && word == "success"@ && (
                latest matches Some(o) ==> id == Some(o.id)) && (latest is None ==> id is None))
                &&& refresh.stage == RefreshStage::Looking ==> (match step.action {
                    RefreshActionView::AppendFailure(record) => {
                        &&& record.id == refresh.failed_id
                        &&& record.account_ref == refresh.request.account_ref
                        &&& record.resource_kind == refresh.request.resource_kind
                        &&& record.value is None && record.status == ObservationStatus::Failed
                        &&& record.source == "reader"@
                        &&& record.stale_at_ms == record.observed_at_ms >= refresh.now_ms
                        &&& latest matches Some(o) ==> record.observed_at_ms > o.observed_at_ms
                            && record.value_scale == o.value_scale
                        &&& latest is None ==> record.observed_at_ms == refresh.now_ms
                            && record.value_scale == 1
                        &&& record.summary.text_at("status"@) == Some("failed"@)
                        &&& record.summary.text_at("reason"@) == Some("reader_unavailable"@)
                    },
                    RefreshActionView::Done(result) => result == storage && latest is Some
                        && latest->0.observed_at_ms == i64::MAX,
                    _ => false,
                })
            }
            &&& event == RefreshEventView::Appended(true) ==> step.action == RefreshActionView::Note(
                Some(refresh.failed_id),
                "reader_failure"@,
            )
            &&& event == RefreshEventView::Appended(false) || event == RefreshEventView::Noted(
                false,
            ) ==> step.action == RefreshActionView::Done(storage)
            &&& event == RefreshEventView::Noted(true) ==> step.action == RefreshActionView::Done(
                if refresh.stage == RefreshStage::Reporting {
                    Ok(())
                } else {
                    reader
                },
            )
        }),
        scheduler::refresh_start(SchedulerMode::Off).1 == RefreshActionView::Done(
            Err(SchedulerError::NotReady),
        ),
        scheduler::refresh_start(SchedulerMode::Shadow) == (
            RefreshStage::Directory,
            RefreshActionView::ReadDirectory,
        ),
        scheduler::refresh_start(SchedulerMode::Enforce) == (
            RefreshStage::Directory,
            RefreshActionView::ReadDirectory,
        ),
{
    broadcast use crate::json::group_members;

    reveal_strlit("status");
    reveal_strlit("reason");
    assert("status"@.len() == 6);
    assert("reason"@.len() == 6);
    assert("status"@[0] != "reason"@[0]);
}

/// A state is known by its name, and an account whose state has no known name
/// cannot be used.
pub proof fn law_a_state_is_known_by_its_name(state: UpstreamAccountState, name: Seq<char>)
    ensures
        account_directory::named_state(account_directory::state_name(state)) == state,
        account_directory::named_state(name) != UpstreamAccountState::Disabled
            ==> account_directory::state_name(account_directory::named_state(name)) == name,
{
    reveal_strlit("available");
    reveal_strlit("cooling");
    reveal_strlit("forbidden");
    reveal_strlit("disabled");
    assert("available"@.len() == 9);
    assert("cooling"@.len() == 7);
    assert("forbidden"@.len() == 9);
    assert("disabled"@.len() == 8);
    assert("available"@[0] != "forbidden"@[0]);
}

/// An account is named by its digest, and two digests name two accounts. It is
/// for chat, one request at a time, and in use where the files say so and no
/// cooldown says otherwise.
pub proof fn law_an_account_is_as_its_files_say(
    digest: Seq<char>,
    other: Seq<char>,
    provider: Seq<char>,
    enabled: bool,
    region: Option<Seq<char>>,
    cooldown: Option<CooldownView>,
    now_ms: i64,
)
    ensures
        ({
            let a = account_directory::directory_account(
                digest,
                provider,
                enabled,
                region,
                cooldown,
                now_ms,
            );
            let b = account_directory::directory_account(
                other,
                provider,
                enabled,
                region,
                cooldown,
                now_ms,
            );
            &&& digest != other ==> a.id != b.id && a.credentials_ref != b.credentials_ref
            &&& text::starts_with(a.credentials_ref, "vault://scheduler/"@)
            &&& a.provider == provider && a.region == region && a.max_concurrency == 1
            &&& forall|c: Seq<char>| #[trigger] a.capabilities.contains(c) <==> c == "chat"@
            &&& a.enabled ==> enabled
            &&& a.state == UpstreamAccountState::Available ==> enabled
            &&& a.cooldown_until_ms is Some ==> a.state == UpstreamAccountState::Cooling
            &&& cooldown is None ==> {
                &&& a.enabled == enabled && a.consecutive_errors == 0
                &&& a.state == (if enabled {
                    UpstreamAccountState::Available
                } else {
                    UpstreamAccountState::Disabled
                })
                &&& a.cooldown_until_ms is None && a.cooldown_reason is None == enabled
            }
            &&& cooldown matches Some(cd) ==> {
                let over = cd.until * 1000 <= now_ms;
                &&& a.consecutive_errors == (if cd.error_count < 0 {
                    0
                } else {
                    cd.error_count as int
                })
                &&& cd.error_type == "Forbidden"@ ==> !a.enabled && a.state
                    == UpstreamAccountState::Forbidden && a.cooldown_reason == Some("forbidden"@)
                &&& cd.error_type == "SessionDead"@ ==> !a.enabled && a.state
                    == UpstreamAccountState::Disabled && a.cooldown_reason == Some("session_dead"@)
                &&& cd.error_type == "HardCredit"@ ==> a.enabled == enabled && a.state
                    == UpstreamAccountState::Cooling && a.cooldown_until_ms is None
                    && a.cooldown_reason == Some("hard_credit"@)
                &&& cd.error_type != "Forbidden"@ && cd.error_type != "SessionDead"@
                    && cd.error_type != "HardCredit"@ && i64::MIN <= cd.until * 1000 <= i64::MAX ==> {
                    &&& a.enabled == enabled
                    &&& !over ==> a.state == UpstreamAccountState::Cooling && a.cooldown_until_ms
                        == Some((cd.until * 1000) as i64) && a.cooldown_reason == Some(
                        "legacy_cooldown"@,
                    )
                    &&& over ==> a.cooldown_until_ms is None && a.state == (if enabled {
                        UpstreamAccountState::Available
                    } else {
                        UpstreamAccountState::Disabled
                    })
                }
            }
        }),
{
    reveal_strlit("acct_");
    reveal_strlit("vault://scheduler/");
    reveal_strlit("Forbidden");
    reveal_strlit("SessionDead");
    reveal_strlit("HardCredit");
    assert("Forbidden"@.len() == 9);
    assert("SessionDead"@.len() == 11);
    assert("HardCredit"@.len() == 10);
    let a = account_directory::directory_account(digest, provider, enabled, region, cooldown, now_ms);
    let b = account_directory::directory_account(other, provider, enabled, region, cooldown, now_ms);
    let head = "vault://scheduler/"@ + provider + "/"@;
    assert(a.id == "acct_"@ + digest && b.id == "acct_"@ + other);
    assert(a.credentials_ref == head + digest && b.credentials_ref == head + other);
    if a.id == b.id {
        lemma_same_tail("acct_"@, digest, other);
    }
    if a.credentials_ref == b.credentials_ref {
        lemma_same_tail(head, digest, other);
    }
    assert(a.credentials_ref.subrange(0, "vault://scheduler/"@.len() as int)
        =~= "vault://scheduler/"@);
    assert(a.capabilities[0] == "chat"@ && a.capabilities.len() == 1);
}

proof fn lemma_same_tail(head: Seq<char>, a: Seq<char>, b: Seq<char>)
    requires
        head + a == head + b,
    ensures
        a == b,
{
    let n = head.len() as int;
    assert((head + a).subrange(n, n + a.len()) =~= a);
    assert((head + b).subrange(n, n + b.len()) =~= b);
    assert((head + a).len() == n + a.len() && (head + b).len() == n + b.len());
}

/// Two accounts have two names: what the digest is taken of differs wherever the
/// provider or the account does.
pub proof fn law_two_accounts_have_two_names(
    provider: Seq<char>,
    uid: Seq<char>,
    provider2: Seq<char>,
    uid2: Seq<char>,
)
    requires
        !provider.contains('\0'),
        !provider2.contains('\0'),
        account_directory::account_name(provider, uid) == account_directory::account_name(
            provider2,
            uid2,
        ),
    ensures
        provider == provider2,
        uid == uid2,
{
    reveal_strlit("aiwork-scheduler-v1\0");
    reveal_strlit("\0");
    let head = "aiwork-scheduler-v1\0"@;
    assert("\0"@.len() == 1 && "\0"@[0] == '\0');
    let s = provider + "\0"@ + uid;
    let t = provider2 + "\0"@ + uid2;
    assert(account_directory::account_name(provider, uid) =~= head + s);
    assert(account_directory::account_name(provider2, uid2) =~= head + t);
    lemma_same_tail(head, s, t);
    let n = provider.len() as int;
    let m = provider2.len() as int;
    if n < m {
        assert(t[n] == provider2[n] && s[n] == '\0');
        assert(provider2.contains(provider2[n]));
    }
    if m < n {
        assert(s[m] == provider[m] && t[m] == '\0');
        assert(provider.contains(provider[m]));
    }
    assert(provider =~= s.subrange(0, n));
    assert(provider2 =~= t.subrange(0, n));
    assert(uid =~= s.subrange(n + 1, s.len() as int));
    assert(uid2 =~= t.subrange(n + 1, t.len() as int));
}

/// An observation says what was observed, of whom, where it comes from and until
/// when it counts, and its summary says the same.
pub proof fn law_an_observation_says_what_was_observed(
    account: Seq<char>,
    resource: Seq<char>,
    units: i64,
    expires_at_ms: i64,
    observed_at_ms: i64,
)
    ensures
        ({
            let s = upstream_observation::trae_snapshot(
                account,
                resource,
                units,
                expires_at_ms,
                observed_at_ms,
            );
            &&& s.account_ref == account && s.resource_kind == resource
            &&& s.available_units == Some(units) && s.value_scale == 100
            &&& s.source == "reader"@ && s.region == Some("cn"@)
            &&& s.observed_at_ms == observed_at_ms
            &&& s.stale_at_ms >= expires_at_ms && s.stale_at_ms >= observed_at_ms
            &&& s.stale_at_ms == expires_at_ms || s.stale_at_ms == observed_at_ms
            &&& s.capabilities.contains("chat"@) && s.capabilities.len() == 1
            &&& s.summary.get("available"@) matches Some(n) && n.as_signed() == Some(units)
            &&& s.summary.get("expires_at_ms"@) matches Some(n) && n.as_signed() == Some(
                s.stale_at_ms,
            )
            &&& s.summary.unsigned_at("value_scale"@) == Some(100u64)
            &&& s.summary.text_at("source"@) == Some("reader"@)
            &&& s.summary.text_at("resource_kind"@) == Some(resource)
            &&& s.summary.text_at("observation_kind"@) == Some("trae_entitlement"@)
        }),
{
    broadcast use crate::json::group_members;

    reveal_strlit("available");
    reveal_strlit("expires_at_ms");
    reveal_strlit("value_scale");
    reveal_strlit("source");
    reveal_strlit("resource_kind");
    reveal_strlit("observation_kind");
    assert("available"@.len() == 9);
    assert("expires_at_ms"@.len() == 13);
    assert("value_scale"@.len() == 11);
    assert("source"@.len() == 6);
    assert("resource_kind"@.len() == 13);
    assert("observation_kind"@.len() == 16);
    assert("expires_at_ms"@[0] != "resource_kind"@[0]);
    assert(upstream_observation::chat_only()[0] == "chat"@);
}

/// A cached balance says what was cached, and that it is stale.
pub proof fn law_a_cached_balance_says_what_was_cached(
    account: Seq<char>,
    resource: Seq<char>,
    units: Option<i64>,
    observed_at_ms: i64,
    region: Option<Seq<char>>,
)
    ensures
        ({
            let s = upstream_observation::cache_snapshot(
                account,
                resource,
                units,
                observed_at_ms,
                region,
            );
            &&& s.account_ref == account && s.resource_kind == resource
            &&& s.available_units == units && s.value_scale == 100
            &&& s.source == "json_cache"@ && s.region == region
            &&& s.observed_at_ms == observed_at_ms && s.stale_at_ms == observed_at_ms
            &&& s.capabilities.contains("chat"@) && s.capabilities.len() == 1
            &&& units matches Some(u) ==> (s.summary.get("available"@) matches Some(n)
                && n.as_signed() == Some(u))
            &&& units is None ==> s.summary.get("available"@) is None
            &&& s.summary.unsigned_at("value_scale"@) == Some(100u64)
            &&& s.summary.text_at("source"@) == Some("json_cache"@)
            &&& s.summary.text_at("status"@) == Some("stale"@)
            &&& s.summary.text_at("resource_kind"@) == Some(resource)
            &&& s.summary.text_at("observation_kind"@) == Some("workbuddy_cache"@)
        }),
{
    broadcast use crate::json::group_members;

    reveal_strlit("value_scale");
    reveal_strlit("source");
    reveal_strlit("resource_kind");
    reveal_strlit("status");
    reveal_strlit("observation_kind");
    reveal_strlit("available");
    assert("value_scale"@.len() == 11);
    assert("source"@.len() == 6);
    assert("resource_kind"@.len() == 13);
    assert("status"@.len() == 6);
    assert("observation_kind"@.len() == 16);
    assert("available"@.len() == 9);
    assert("source"@[1] != "status"@[1]);
    assert(upstream_observation::chat_only()[0] == "chat"@);
}

/// The balances of a provider are found in one place.
pub proof fn law_balances_are_found_by_their_provider(provider: Seq<char>)
    ensures
        upstream_observation::source_of(provider) == Some(Source::Trae) <==> provider == "trae"@,
        upstream_observation::source_of(provider) == Some(Source::WorkBuddy) <==> provider
            == "workbuddy"@,
{
    reveal_strlit("trae");
    reveal_strlit("workbuddy");
    assert("trae"@.len() == 4);
    assert("workbuddy"@.len() == 9);
}

/// Some balance says that many units of that resource, for that account, and
/// that it is out of the files.
pub open spec fn holds_balance(
    balances: Seq<SnapshotView>,
    i: int,
    account: Seq<char>,
    resource: Seq<char>,
    units: i64,
) -> bool {
    &&& 0 <= i < balances.len()
    &&& balances[i].account_ref == account && balances[i].resource_kind == resource
    &&& balances[i].available_units == Some(units) && balances[i].source == "json_cache"@
    &&& balances[i].observed_at_ms == 0 && balances[i].stale_at_ms == 0
    &&& balances[i].summary.text_at("status"@) == Some("stale"@)
    &&& balances[i].summary.text_at("source"@) == Some("json_cache"@)
}

/// An account of the account file is in use where it is listed, its group is in
/// use, and it has a token; its balances are those of the files, the general one
/// before the one for work, and a balance that does not fit fails.
pub proof fn law_an_account_of_the_file_has_its_balances(
    files: FilesView,
    uid: Seq<char>,
    jwt: Seq<char>,
    digest: Seq<char>,
    now_ms: i64,
)
    ensures
        ({
            let r = account_directory::trae_entry(files, uid, jwt, digest, now_ms);
            let general = if table::find(files.general, uid) is Some {
                table::find(files.general, uid)
            } else {
                table::find(files.credits, uid)
            };
            let work = table::find(files.work, uid);
            let fits = |u: Option<Units>| u is None || u->0 is Known;
            &&& r is Ok == (fits(general) && fits(work))
            &&& r matches Err(error) ==> error == SchedulerError::SyncFailed
            &&& r matches Ok((account, balances)) ==> {
                &&& account.id == "acct_"@ + digest && account.provider == "trae"@
                &&& account.region == Some("cn"@)
                &&& account.enabled ==> files.enabled_uids.contains(uid) && text::trim(jwt).len()
                    > 0 && (files.group_ids.len() == 0 || (table::find(files.membership, uid)
                    is Some && files.group_ids.contains(table::find(files.membership, uid)->0)))
                &&& files.enabled_uids.contains(uid) && text::trim(jwt).len() > 0
                    && files.group_ids.len() == 0 && table::find(files.cooldowns, uid) is None
                    ==> account.enabled
                &&& balances.len() == (if general is Some {
                    1int
                } else {
                    0int
                }) + (if work is Some {
                    1int
                } else {
                    0int
                })
                &&& general matches Some(Units::Known(u)) ==> holds_balance(
                    balances,
                    0,
                    account.id,
                    "chat.general"@,
                    u,
                )
                &&& work matches Some(Units::Known(u)) ==> holds_balance(
                    balances,
                    balances.len() - 1,
                    account.id,
                    "chat.work"@,
                    u,
                )
            }
        }),
{
    broadcast use crate::json::group_members;

    reveal_strlit("source");
    reveal_strlit("status");
    assert("source"@.len() == 6);
    assert("status"@.len() == 6);
    assert("source"@[1] != "status"@[1]);
}

/// An account of the second pool is in use where the pool is, it is listed and
/// has a token, and it needs no new login; its balance is for work.
pub proof fn law_an_account_of_the_pool_has_its_balance(
    files: FilesView,
    account: WbView,
    digest: Seq<char>,
    now_ms: i64,
)
    ensures
        ({
            let r = account_directory::wb_entry(files, account, digest, now_ms);
            &&& r is Err == (account.credits == Units::Unfit)
            &&& r matches Err(error) ==> error == SchedulerError::SyncFailed
            &&& r matches Ok((found, balances)) ==> {
                &&& found.id == "acct_"@ + digest && found.provider == "workbuddy"@
                &&& found.region == (if account.global_region {
                    Some("global"@)
                } else {
                    None
                })
                &&& found.enabled ==> files.wb_enabled && files.enabled_uids.contains(account.uid)
                    && text::trim(account.token).len() > 0 && !account.needs_relogin
                &&& files.wb_enabled && files.enabled_uids.contains(account.uid) && text::trim(
                    account.token,
                ).len() > 0 && !account.needs_relogin && table::find(files.cooldowns, account.uid)
                    is None ==> found.enabled
                &&& account.needs_relogin ==> found.state == UpstreamAccountState::Disabled
                    && found.cooldown_reason == Some("session_dead"@)
                &&& account.credits == Units::Missing ==> balances.len() == 0
                &&& account.credits matches Units::Known(u) ==> balances.len() == 1
                    && holds_balance(balances, 0, found.id, "chat.work"@, u)
            }
        }),
{
    if let Units::Known(u) = account.credits {
        let r = account_directory::wb_entry(files, account, digest, now_ms);
        law_a_cached_balance_says_what_was_cached(
            r->Ok_0.0.id,
            "chat.work"@,
            Some(u),
            0,
            account_directory::wb_region(account),
        );
    }
}

/// An account that is added stands last, and is found by its id; all others stay.
pub proof fn law_an_added_account_is_found(
    directory: DirectoryView,
    uid: Seq<char>,
    account: AccountView,
    balances: Seq<SnapshotView>,
    other: Seq<char>,
)
    ensures
        ({
            let after = account_directory::with_entry(directory, uid, (account, balances));
            &&& after.accounts.len() == directory.accounts.len() + 1
            &&& after.accounts.last() == account
            &&& forall|i: int|
                0 <= i < directory.accounts.len() ==> #[trigger] after.accounts[i]
                    == directory.accounts[i]
            &&& after.cached_observations == directory.cached_observations + balances
            &&& table::find(after.adapter_ids, account.id) == Some(uid)
            &&& other != account.id ==> table::find(after.adapter_ids, other) == table::find(
                directory.adapter_ids,
                other,
            )
        }),
{
    table::lemma_find_put(directory.adapter_ids, account.id, uid);
}

/// Some account of the directory has that id.
pub open spec fn listed(directory: DirectoryView, id: Seq<char>) -> bool {
    account_directory::lists_id(directory.accounts, id)
}

/// Every account of the files that has a name stands in the directory, and none
/// that has no name does.
pub proof fn law_every_named_account_is_listed(
    trae: Seq<RawView>,
    wb: Seq<WbView>,
    files: FilesView,
    now_ms: i64,
)
    ensures
        account_directory::directory_of(trae, wb, files, now_ms) matches Ok(d) ==> {
            &&& forall|i: int|
                0 <= i < trae.len() && ((#[trigger] trae[i]).user_id matches Some(uid) && uid.len()
                    > 0) ==> listed(
                    d,
                    "acct_"@ + account_directory::account_digest("trae"@, trae[i].user_id->0),
                )
            &&& forall|i: int|
                0 <= i < wb.len() && (#[trigger] wb[i]).uid.len() > 0 ==> listed(
                    d,
                    "acct_"@ + account_directory::account_digest("workbuddy"@, wb[i].uid),
                )
            &&& d.accounts.len() <= trae.len() + wb.len()
        },
{
    lemma_trae_listed(trae, files, trae.len(), now_ms);
    lemma_wb_listed(trae, wb, files, wb.len(), now_ms);
}

proof fn lemma_still_listed(
    directory: DirectoryView,
    uid: Seq<char>,
    entry: (AccountView, Seq<SnapshotView>),
    id: Seq<char>,
)
    ensures
        listed(account_directory::with_entry(directory, uid, entry), entry.0.id),
        listed(directory, id) ==> listed(account_directory::with_entry(directory, uid, entry), id),
{
    let after = account_directory::with_entry(directory, uid, entry);
    assert(after.accounts[directory.accounts.len() as int].id == entry.0.id);
    if listed(directory, id) {
        let i = choose|i: int|
            0 <= i < directory.accounts.len() && (#[trigger] directory.accounts[i]).id == id;
        assert(after.accounts[i].id == id);
    }
}

proof fn lemma_trae_listed(trae: Seq<RawView>, files: FilesView, n: nat, now_ms: i64)
    requires
        n <= trae.len(),
    ensures
        account_directory::with_trae(files, trae, n, now_ms) matches Ok(d) ==> {
            &&& forall|i: int|
                0 <= i < n && ((#[trigger] trae[i]).user_id matches Some(uid) && uid.len() > 0)
                    ==> listed(
                    d,
                    "acct_"@ + account_directory::account_digest("trae"@, trae[i].user_id->0),
                )
            &&& d.accounts.len() <= n
        },
    decreases n,
{
    if n > 0 && account_directory::with_trae(files, trae, n, now_ms) is Ok {
        lemma_trae_listed(trae, files, (n - 1) as nat, now_ms);
        let before = account_directory::with_trae(files, trae, (n - 1) as nat, now_ms)->Ok_0;
        let d = account_directory::with_trae(files, trae, n, now_ms)->Ok_0;
        if let Some(uid) = trae[n - 1].user_id {
            if uid.len() > 0 {
                let digest = account_directory::account_digest("trae"@, uid);
                let entry = account_directory::trae_entry(
                    files,
                    uid,
                    trae[n - 1].jwt,
                    digest,
                    now_ms,
                )->Ok_0;
                law_an_account_of_the_file_has_its_balances(
                    files,
                    uid,
                    trae[n - 1].jwt,
                    digest,
                    now_ms,
                );
                assert forall|i: int|
                    0 <= i < n && ((#[trigger] trae[i]).user_id matches Some(uid) && uid.len() > 0)
                    implies listed(
                    d,
                    "acct_"@ + account_directory::account_digest("trae"@, trae[i].user_id->0),
                ) by {
                    lemma_still_listed(
                        before,
                        uid,
                        entry,
                        "acct_"@ + account_directory::account_digest("trae"@, trae[i].user_id->0),
                    );
                }
            }
        }
    }
}

proof fn lemma_wb_listed(
    trae: Seq<RawView>,
    wb: Seq<WbView>,
    files: FilesView,
    n: nat,
    now_ms: i64,
)
    requires
        n <= wb.len(),
    ensures
        ({
            let start = account_directory::with_trae(files, trae, trae.len(), now_ms);
            account_directory::with_wb(start, files, wb, n, now_ms) matches Ok(d) ==> {
                &&& start matches Ok(first)
                &&& forall|id: Seq<char>| #[trigger] listed(first, id) ==> listed(d, id)
                &&& forall|i: int|
                    0 <= i < n && (#[trigger] wb[i]).uid.len() > 0 ==> listed(
                        d,
                        "acct_"@ + account_directory::account_digest("workbuddy"@, wb[i].uid),
                    )
                &&& d.accounts.len() <= first.accounts.len() + n
            }
        }),
    decreases n,
{
    let start = account_directory::with_trae(files, trae, trae.len(), now_ms);
    if n > 0 && account_directory::with_wb(start, files, wb, n, now_ms) is Ok {
        lemma_wb_listed(trae, wb, files, (n - 1) as nat, now_ms);
        let before = account_directory::with_wb(start, files, wb, (n - 1) as nat, now_ms)->Ok_0;
        let d = account_directory::with_wb(start, files, wb, n, now_ms)->Ok_0;
        let uid = wb[n - 1].uid;
        if uid.len() > 0 {
            let digest = account_directory::account_digest("workbuddy"@, uid);
            let entry = account_directory::wb_entry(files, wb[n - 1], digest, now_ms)->Ok_0;
            law_an_account_of_the_pool_has_its_balance(files, wb[n - 1], digest, now_ms);
            assert forall|id: Seq<char>| #[trigger] listed(before, id) implies listed(d, id) by {
                lemma_still_listed(before, uid, entry, id);
            }
            assert forall|id: Seq<char>| #[trigger] listed(start->Ok_0, id) implies listed(d, id) by {
                assert(listed(before, id));
            }
            assert forall|i: int| 0 <= i < n && (#[trigger] wb[i]).uid.len() > 0 implies listed(
                d,
                "acct_"@ + account_directory::account_digest("workbuddy"@, wb[i].uid),
            ) by {
                if i == n - 1 {
                    lemma_still_listed(before, uid, entry, entry.0.id);
                } else {
                    assert(listed(
                        before,
                        "acct_"@ + account_directory::account_digest("workbuddy"@, wb[i].uid),
                    ));
                }
            }
        }
    }
}

/// A merged account is who the files say and in use where they say so; it keeps
/// how many requests it takes, has the more errors of the two, and cools down
/// until the later time.
pub proof fn law_a_merged_account_is_who_the_files_say(input: AccountView, old: AccountView)
    ensures
        ({
            let m = account_directory::merged(input, old);
            &&& m.id == input.id && m.provider == input.provider && m.credentials_ref
                == input.credentials_ref
            &&& m.region == input.region && m.capabilities == input.capabilities
            &&& m.enabled == input.enabled && m.max_concurrency == old.max_concurrency
            &&& m.consecutive_errors >= input.consecutive_errors && m.consecutive_errors
                >= old.consecutive_errors
            &&& m.consecutive_errors == input.consecutive_errors || m.consecutive_errors
                == old.consecutive_errors
            &&& m.cooldown_until_ms == input.cooldown_until_ms || m.cooldown_until_ms
                == old.cooldown_until_ms
            &&& input.cooldown_until_ms matches Some(t) ==> m.cooldown_until_ms is Some
                && m.cooldown_until_ms->0 >= t
            &&& old.cooldown_until_ms matches Some(t) ==> m.cooldown_until_ms is Some
                && m.cooldown_until_ms->0 >= t
            &&& m.state == input.state || m.state == old.state
            &&& old.state == UpstreamAccountState::Available || old.cooldown_reason == Some(
                "directory_disabled"@,
            ) ==> m.state == input.state
            &&& input.state == UpstreamAccountState::Forbidden ==> m.state
                == UpstreamAccountState::Forbidden
            &&& old.state == UpstreamAccountState::Forbidden && old.cooldown_reason != Some(
                "directory_disabled"@,
            ) ==> m.state == UpstreamAccountState::Forbidden
            &&& input.state == UpstreamAccountState::Available && old.cooldown_reason != Some(
                "directory_disabled"@,
            ) ==> m.state == old.state
        }),
{
}

/// A directory holds, of every id, the account that was stored last.
pub proof fn law_the_last_stored_account_counts(rows: Seq<AccountView>, n: nat, i: int)
    requires
        n <= rows.len(),
        0 <= i < n,
        forall|j: int| i < j < n ==> (#[trigger] rows[j]).id != rows[i].id,
    ensures
        table::find(account_directory::directory_of_rows(rows, n), rows[i].id) == Some(rows[i]),
    decreases n,
{
    let before = account_directory::directory_of_rows(rows, (n - 1) as nat);
    table::lemma_find_put(before, rows[n - 1].id, rows[n - 1]);
    if i < n - 1 {
        law_the_last_stored_account_counts(rows, (n - 1) as nat, i);
    }
}

/// A sync writes first, then brings over the balances that Core lacks, each in
/// turn; it ends with the number of its writes, or with the first thing that
/// went wrong.
pub proof fn law_a_sync_goes_in_turn(s: SyncView, event: SyncEventView)
    requires
        directory_sync::in_step(s),
        directory_sync::expected(s.stage, event),
        s.writes.len() <= usize::MAX,
        s.target.cached_observations.len() <= usize::MAX,
    ensures
        ({
            let (next, action) = directory_sync::sync_step(s, event);
            let done = event == SyncEventView::Done(true);
            let known = event == SyncEventView::Latest(Some(true));
            &&& next.target == s.target
            &&& !(event is Known) ==> next.writes == s.writes
            &&& event == SyncEventView::Authorized(true) ==> action == SyncAction::ReadDirectory
            &&& event == SyncEventView::Authorized(false) ==> action == SyncAction::Fail(
                SchedulerError::AdminRequired,
            )
            &&& event == SyncEventView::Known(None) ==> action == SyncAction::Fail(
                SchedulerError::StorageUnavailable,
            )
            &&& event == SyncEventView::Done(false) || event == SyncEventView::Latest(None)
                ==> action == SyncAction::Fail(SchedulerError::SyncFailed)
            &&& event == SyncEventView::Latest(Some(false)) ==> action == SyncAction::Import(
                s.compared as usize,
            ) && next.compared == s.compared
            &&& event matches SyncEventView::Known(Some(_)) ==> next.written == 0 && next.compared
                == 0
            &&& done && s.stage == SyncStage::Writing ==> next.written == s.written + 1
                && next.compared == s.compared
            &&& (done && s.stage == SyncStage::Importing) || known ==> next.compared == s.compared
                + 1 && next.written == s.written
            &&& action matches SyncAction::Write(i) ==> i == next.written && i < next.writes.len()
            &&& action matches SyncAction::LookUp(i) ==> i == next.compared && next.written
                == next.writes.len()
            &&& action matches SyncAction::Finish(n) ==> n == next.writes.len() && next.compared
                == s.target.cached_observations.len()
            &&& done || known ==> action is Write || action is LookUp || action is Finish
        }),
{
}

/// Who may not see the status is told so; anything else is told as a failure of
/// the storage. Core alone decides how far the scheduler goes.
pub proof fn law_core_decides_how_far_the_scheduler_goes(
    core: CoreMode,
    mode: SchedulerMode,
    error: CoreErrorView,
)
    ensures
        error is AdminRequired <==> scheduler::refusal_of(error) == SchedulerError::AdminRequired,
        !(error is AdminRequired) ==> scheduler::refusal_of(error)
            == SchedulerError::StorageUnavailable,
        scheduler::joint_mode(core, mode) matches Err(refusal) ==> core == CoreMode::Enforce && mode
            != SchedulerMode::Enforce && refusal == (if mode == SchedulerMode::Off {
            SchedulerError::NotReady
        } else {
            SchedulerError::IncompatibleModes
        }),
        core == CoreMode::Enforce && mode != SchedulerMode::Enforce ==> scheduler::joint_mode(
            core,
            mode,
        ) is Err,
        scheduler::joint_mode(core, mode) matches Ok(joint) ==> scheduler::reach(joint)
            == scheduler::reach(mode) || scheduler::reach(joint) == scheduler::core_reach(core),
        scheduler::joint_mode(core, mode) matches Ok(joint) ==> scheduler::reach(joint)
            <= scheduler::reach(mode) && scheduler::reach(joint) <= scheduler::core_reach(core),
{
}

/// Every account is shown once, in order; and whether some observation could not
/// be asked for is known.
pub proof fn law_every_account_is_shown(inputs: Seq<ShadowInputView>, now_ms: i64)
    ensures
        ({
            let shown = scheduler::candidates_of(inputs, now_ms);
            &&& shown.len() == inputs.len()
            &&& forall|i: int|
                0 <= i < inputs.len() ==> (#[trigger] shown[i]).enabled == inputs[i].account.enabled
                    && shown[i].observation == scheduler::observation_word(
                    inputs[i].found,
                    now_ms,
                ) && shown[i].account_hash == text::hex(
                    outside::sha256_of(vstd::utf8::encode_utf8(inputs[i].account.id)),
                )
        }),
        scheduler::some_unavailable(inputs) <==> exists|i: int|
            0 <= i < inputs.len() && (#[trigger] inputs[i]).found is None,
{
}

/// A sync starts with all that it is to bring about, and with nothing done.
pub proof fn law_a_sync_starts_with_nothing_done(target: DirectoryView)
    ensures
        ({
            let s = directory_sync::sync_start(target);
            &&& s.target == target && s.stage == SyncStage::Authorizing
            &&& s.written == 0 && s.compared == 0 && s.writes.len() == 0
            &&& directory_sync::in_step(s)
        }),
{
}

} // verus!
