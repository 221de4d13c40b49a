//! The scheduler, its directory of accounts, and observations.

use aiwork_gateway::account_directory::{
    account_of_digest, directory_writes, legacy_account, merge_account, stored_directory,
    AccountDirectory, AccountFiles, CooldownEntry, RawAccount, RegisterUpstreamAccount,
    UpstreamAccountState, WbSyncAccount,
};
use aiwork_gateway::core_types::{CoreError, CoreMode, LeaseState, Principal};
use aiwork_gateway::directory_sync::{
    start_sync, sync_upstream_accounts, SyncAction, SyncEvent, SyncStage,
};
use aiwork_gateway::json::Json;
use aiwork_gateway::outside;
use aiwork_gateway::scheduler::{
    authenticate_sync_admin, diagnostic_counts, failed_at, merge_core_status_counts,
    new_observation_id, shadow_candidate, start_refresh, validate_modes, DryRun, LatestObservation,
    ObservationRow, ObservationStatus, RecoverableLease, RefreshAction, RefreshEvent, SchedulerError,
    SchedulerMode, SchedulerRuntime, ShadowInput,
};
use aiwork_gateway::table::Table;
use aiwork_gateway::upstream_observation::{
    adapter_request, under_core_reference, ObservationError, ObservationRequest, Source,
    TauriObservationReader, Units,
};

const NOW: i64 = 1_725_000_000_000;

fn doc(text: &str) -> Json {
    outside::parse_text(text).unwrap()
}

fn files(enabled: &[&str]) -> AccountFiles {
    AccountFiles {
        enabled_uids: enabled.iter().map(|s| s.to_string()).collect(),
        group_ids: Vec::new(),
        wb_enabled: true,
        membership: Table::new(),
        cooldowns: Table::new(),
        general: Table::new(),
        credits: Table::new(),
        work: Table::new(),
    }
}

fn raw(uid: &str) -> RawAccount {
    RawAccount { user_id: Some(uid.into()), jwt: "fixture-jwt-secret".into() }
}

fn wb(uid: &str) -> WbSyncAccount {
    WbSyncAccount {
        uid: uid.into(),
        token: "fixture-wb-secret".into(),
        global_region: false,
        credits: Units::Known(625),
        needs_relogin: false,
    }
}

fn directory() -> AccountDirectory {
    let mut files = files(&["fixture-user-sensitive", "fixture-wb-sensitive"]);
    files.general.insert("fixture-user-sensitive", Units::Known(1250));
    files.work.insert("fixture-user-sensitive", Units::Known(300));
    AccountDirectory::from_legacy(
        &vec![raw("fixture-user-sensitive")],
        &vec![wb("fixture-wb-sensitive")],
        &files,
        NOW,
    )
    .unwrap()
}

fn by_id(table: &Table<RegisterUpstreamAccount>, id: &str) -> RegisterUpstreamAccount {
    table.get(id).unwrap().dup()
}

#[test]
fn sync_writes_opaque_account_refs_without_credentials_or_user_grants() {
    let directory = directory();
    let mut known: Table<RegisterUpstreamAccount> = Table::new();
    assert_eq!(directory_writes(&mut known, &directory.accounts).len(), 2);
    assert_eq!(directory_writes(&mut known, &directory.accounts).len(), 0);
    assert_eq!(known.len(), 2);
    assert_eq!(directory.cached_observations.len(), 3);
    for account in &directory.accounts {
        assert!(account.enabled && account.max_concurrency == 1);
        assert_eq!(account.capabilities, vec!["chat".to_string()]);
        assert!(account.id.starts_with("acct_"));
        assert!(account.credentials_ref.starts_with("vault://scheduler/"));
    }
    let text = format!("{:?}", directory.accounts);
    for secret in [
        "fixture-user-sensitive",
        "fixture-wb-sensitive",
        "fixture-jwt-secret",
        "fixture-wb-secret",
    ] {
        assert!(!text.contains(secret));
    }
    for observation in &directory.cached_observations {
        assert_eq!(observation.source, "json_cache");
        assert_eq!(observation.summary.str_at("status"), Some("stale"));
        assert_eq!(observation.stale_at_ms, 0);
    }
    assert_eq!(
        directory.adapter_ids.get(&directory.accounts[0].id).map(String::as_str),
        Some("fixture-user-sensitive")
    );
}

#[test]
fn scheduler_sync_preserves_core_health_and_disables_removed_accounts() {
    let directory = directory();
    let mut known: Table<RegisterUpstreamAccount> = Table::new();
    directory_writes(&mut known, &directory.accounts);
    let mut existing = directory.accounts[0].dup();
    existing.state = UpstreamAccountState::Forbidden;
    existing.consecutive_errors = 4;
    let id = existing.id.clone();
    known.insert(&id, existing);
    directory_writes(&mut known, &directory.accounts);
    assert_eq!(by_id(&known, &id).state, UpstreamAccountState::Forbidden);
    directory_writes(&mut known, &Vec::new());
    for i in 0..known.len() {
        assert!(!known.value_at(i).enabled);
    }
}

#[test]
fn scheduler_sync_preserves_available_core_health_metadata() {
    let mut directory = directory();
    let mut known: Table<RegisterUpstreamAccount> = Table::new();
    directory_writes(&mut known, &directory.accounts);
    let mut account = directory.accounts[0].dup();
    account.state = UpstreamAccountState::Available;
    account.consecutive_errors = 4;
    account.cooldown_until_ms = Some(NOW + 60000);
    account.cooldown_reason = Some("transport_timeout".into());
    let id = account.id.clone();
    known.insert(&id, account.dup());
    assert_eq!(directory_writes(&mut known, &directory.accounts).len(), 0);
    assert_eq!(by_id(&known, &id), account);
    directory.accounts[0].state = UpstreamAccountState::Cooling;
    directory.accounts[0].consecutive_errors = 1;
    directory.accounts[0].cooldown_until_ms = Some(NOW + 1000);
    directory.accounts[0].cooldown_reason = Some("legacy_cooldown".into());
    directory_writes(&mut known, &directory.accounts);
    let actual = by_id(&known, &id);
    assert_eq!(actual.consecutive_errors, 4);
    assert_eq!(actual.cooldown_until_ms, Some(NOW + 60000));
    assert_eq!(actual.cooldown_reason.as_deref(), Some("transport_timeout"));
}

#[test]
fn scheduler_legacy_filters_disable_unconfirmed_or_excluded_accounts() {
    let mut files = files(&["fixture-a"]);
    files.group_ids = vec!["allowed".into()];
    let accounts = vec![raw("fixture-a")];
    let none: Vec<WbSyncAccount> = Vec::new();
    let excluded = AccountDirectory::from_legacy(&accounts, &none, &files, NOW).unwrap();
    assert!(!excluded.accounts[0].enabled);
    files.membership.insert("fixture-a", "allowed".into());
    files.cooldowns.insert(
        "fixture-a",
        CooldownEntry { error_type: "HardCredit".into(), until: 0, error_count: 2 },
    );
    let cooling = AccountDirectory::from_legacy(&accounts, &none, &files, NOW).unwrap();
    assert_eq!(cooling.accounts[0].state, UpstreamAccountState::Cooling);
    assert_eq!(cooling.accounts[0].consecutive_errors, 2);
    files.enabled_uids.clear();
    let disabled = AccountDirectory::from_legacy(&accounts, &none, &files, NOW).unwrap();
    assert!(!disabled.accounts[0].enabled);
}

#[test]
fn unfit_balances_stop_the_directory_and_nameless_accounts_are_passed_over() {
    let mut unfit = files(&["a"]);
    unfit.credits.insert("a", Units::Unfit);
    let none: Vec<WbSyncAccount> = Vec::new();
    assert!(matches!(
        AccountDirectory::from_legacy(&vec![raw("a")], &none, &unfit, NOW),
        Err(SchedulerError::SyncFailed)
    ));
    let nameless = vec![RawAccount { user_id: None, jwt: "j".into() }, raw("")];
    let empty = AccountDirectory::from_legacy(&nameless, &vec![wb("")], &files(&[]), NOW).unwrap();
    assert!(empty.accounts.is_empty());
    let mut relogin = wb("b");
    relogin.needs_relogin = true;
    let found =
        AccountDirectory::from_legacy(&Vec::new(), &vec![relogin], &files(&["b"]), NOW).unwrap();
    assert!(!found.accounts[0].enabled);
    assert_eq!(found.accounts[0].cooldown_reason.as_deref(), Some("session_dead"));
}

#[test]
fn an_account_is_known_by_the_digest_of_its_name() {
    let account = legacy_account("trae", "uid-1", true, Some("cn"), None, NOW);
    assert_eq!(account.id.len(), "acct_".len() + 64);
    assert!(!account.id.contains("uid-1"));
    let other = legacy_account("workbuddy", "uid-1", true, None, None, NOW);
    assert_ne!(account.id, other.id);
    let plain = account_of_digest("abc", "trae", false, None, None, NOW);
    assert_eq!(plain.id, "acct_abc");
    assert_eq!(plain.credentials_ref, "vault://scheduler/trae/abc");
    assert_eq!(plain.state, UpstreamAccountState::Disabled);
    assert_eq!(plain.cooldown_reason.as_deref(), Some("directory_disabled"));
}

fn cooldown(kind: &str, until: i64) -> CooldownEntry {
    CooldownEntry { error_type: kind.into(), until, error_count: -3 }
}

#[test]
fn cooldowns_take_accounts_out_of_use() {
    let with = |entry: &CooldownEntry| account_of_digest("d", "trae", true, None, Some(entry), NOW);
    let forbidden = with(&cooldown("Forbidden", 0));
    assert_eq!(forbidden.state, UpstreamAccountState::Forbidden);
    assert_eq!(forbidden.consecutive_errors, 0);
    assert!(!forbidden.enabled);
    assert_eq!(with(&cooldown("SessionDead", 0)).state, UpstreamAccountState::Disabled);
    let later = with(&cooldown("SoftRate", i64::MAX));
    assert_eq!(later.cooldown_until_ms, Some(i64::MAX));
    assert_eq!(with(&cooldown("SoftRate", 0)).state, UpstreamAccountState::Available);
}

#[test]
fn merging_keeps_the_worse_health() {
    let input = account_of_digest("d", "trae", true, None, None, NOW);
    let mut old = input.dup();
    old.state = UpstreamAccountState::Cooling;
    old.cooldown_reason = Some("hard_credit".into());
    old.max_concurrency = 5;
    let merged = merge_account(input.dup(), &old);
    assert_eq!(merged.state, UpstreamAccountState::Cooling);
    assert_eq!(merged.max_concurrency, 5);
    assert!(merge_account(input, &merged).same(&merged));
}

#[test]
fn scheduler_mode_compatibility_matrix_and_startup_authorization() {
    for core in [CoreMode::Off, CoreMode::Shadow, CoreMode::Enforce] {
        for scheduler in [SchedulerMode::Off, SchedulerMode::Shadow, SchedulerMode::Enforce] {
            let result = validate_modes(core, scheduler);
            assert_eq!(
                result.is_err(),
                core == CoreMode::Enforce && scheduler != SchedulerMode::Enforce
            );
            if core == CoreMode::Off {
                assert_eq!(result.unwrap(), SchedulerMode::Off);
            }
            if core == CoreMode::Shadow && scheduler != SchedulerMode::Off {
                assert_eq!(result.unwrap(), SchedulerMode::Shadow);
            }
        }
    }
    let admin = || Principal { user_id: "admin".into(), key_id: "k".into() };
    assert_eq!(
        authenticate_sync_admin(None, false).unwrap_err().code(),
        "scheduler_admin_required"
    );
    assert_eq!(
        authenticate_sync_admin(Some(admin()), false).unwrap_err().code(),
        "scheduler_admin_required"
    );
    assert_eq!(authenticate_sync_admin(Some(admin()), true).unwrap().user_id, "admin");
}

#[test]
fn modes_are_read_in_any_case() {
    assert_eq!(SchedulerMode::parse(" Shadow "), Ok(SchedulerMode::Shadow));
    assert_eq!(SchedulerMode::parse("ENFORCE"), Ok(SchedulerMode::Enforce));
    assert_eq!(SchedulerMode::parse("off"), Ok(SchedulerMode::Off));
    assert_eq!(SchedulerMode::parse("on"), Err(SchedulerError::InvalidMode));
    assert_eq!(SchedulerMode::default(), SchedulerMode::Off);
}

#[test]
fn every_scheduler_error_has_a_code() {
    for (error, code) in [
        (SchedulerError::InvalidMode, "scheduler_mode_invalid"),
        (SchedulerError::IncompatibleModes, "scheduler_mode_incompatible"),
        (SchedulerError::NotReady, "scheduler_not_ready"),
        (SchedulerError::AdminRequired, "scheduler_admin_required"),
        (SchedulerError::StorageUnavailable, "scheduler_storage_unavailable"),
        (SchedulerError::ReaderUnavailable, "scheduler_reader_unavailable"),
        (SchedulerError::SyncFailed, "scheduler_sync_failed"),
        (SchedulerError::RecoveryFailed, "scheduler_recovery_failed"),
        (SchedulerError::EndpointNotEnabled, "scheduler_endpoint_not_enabled"),
    ] {
        assert_eq!(error.code(), code);
    }
}

fn runtime(mode: SchedulerMode) -> SchedulerRuntime {
    SchedulerRuntime::new(mode, Some(Vec::new()), Some(Vec::new())).unwrap()
}

fn lease(id: &str, state: LeaseState) -> RecoverableLease {
    RecoverableLease { id: id.into(), state }
}

#[test]
fn scheduler_startup_recovers_expired_lease_without_releasing_quota() {
    let shadow = SchedulerRuntime::new(SchedulerMode::Shadow, None, None).unwrap();
    assert_eq!(shadow.status.recovered_leases, 0);
    let before = vec![lease("a", LeaseState::Other), lease("b", LeaseState::Unknown)];
    let after = vec![lease("a", LeaseState::Unknown), lease("b", LeaseState::Unknown)];
    let runtime =
        SchedulerRuntime::new(SchedulerMode::Enforce, Some(before), Some(after)).unwrap();
    assert_eq!(runtime.status.recovered_leases, 1);
    let shown = runtime.scheduler_status(Some(&doc(r#"{"unknown_leases":1}"#)));
    assert_eq!(shown.unknown_leases, 1);
    let known = || Some(vec![lease("a", LeaseState::Unknown)]);
    let again = SchedulerRuntime::new(SchedulerMode::Enforce, known(), known()).unwrap();
    assert_eq!(again.status.recovered_leases, 0);
    assert_eq!(
        runtime.require_endpoint("chat").unwrap_err().code(),
        "scheduler_endpoint_not_enabled"
    );
    assert!(matches!(
        SchedulerRuntime::new(SchedulerMode::Enforce, None, known()),
        Err(SchedulerError::RecoveryFailed)
    ));
}

#[test]
fn shadow_records_dry_run_but_enforce_rejects_missing_scheduler() {
    let mut runtime = runtime(SchedulerMode::Shadow);
    let run = DryRun {
        accounts: 2,
        enabled_accounts: 2,
        fresh_observations: 0,
        stale_observations: 3,
    };
    let diagnostics = runtime.shadow_dry_run(Ok(run), Some(&doc("{}")));
    assert_eq!(diagnostics.stale_observations, 3);
    assert_eq!(runtime.status.dry_runs, 1);
    assert_eq!(
        validate_modes(CoreMode::Enforce, SchedulerMode::Off).unwrap_err().code(),
        "scheduler_not_ready"
    );
}

#[test]
fn scheduler_shadow_storage_failure_is_diagnostic_only() {
    let mut runtime = runtime(SchedulerMode::Shadow);
    let report = runtime.shadow_dry_run(Err(SchedulerError::StorageUnavailable), Some(&doc("{}")));
    assert_eq!(report.last_error.as_deref(), Some("scheduler_storage_unavailable"));
    assert!(!report.ready);
}

#[test]
fn observations_are_counted_as_fresh_or_stale() {
    let row = |source: &str, status: &str, observed: i64, stale: i64| ObservationRow {
        source: source.into(),
        status: status.into(),
        observed_at_ms: observed,
        stale_at_ms: stale,
    };
    let rows = vec![
        row("reader", "fresh", NOW, NOW + 1),
        row("reader", "fresh", NOW, NOW),
        row("json_cache", "fresh", NOW, NOW + 1),
        row("reader", "failed", NOW, NOW + 1),
    ];
    assert_eq!(diagnostic_counts(&rows, NOW), (1, 3));
}

fn request() -> ObservationRequest {
    ObservationRequest {
        account_ref: "acct_1".into(),
        provider: "trae".into(),
        resource_kind: "chat.general".into(),
    }
}

fn latest(at: i64, scale: i64) -> LatestObservation {
    LatestObservation {
        id: "observation_1".into(),
        status: ObservationStatus::Fresh,
        source: "reader".into(),
        observed_at_ms: at,
        stale_at_ms: at + 60000,
        value_scale: scale,
    }
}

#[test]
fn scheduler_mock_registry_records_snapshot_and_failure_without_execution() {
    let mut runtime = runtime(SchedulerMode::Shadow);
    let (r, action) = start_refresh(SchedulerMode::Shadow, request(), NOW, "observation_f".into());
    assert!(matches!(action, RefreshAction::ReadDirectory));
    let (r, action) =
        runtime.refresh_observation(r, RefreshEvent::Directory(Ok(Some("trae".into()))));
    assert!(matches!(action, RefreshAction::Read));
    let read = RefreshEvent::Read(Some(("acct_1".into(), "chat.general".into())));
    let (r, action) = runtime.refresh_observation(r, read);
    assert!(matches!(action, RefreshAction::Record));
    let (r, action) = runtime.refresh_observation(r, RefreshEvent::Recorded(true));
    assert!(matches!(action, RefreshAction::Latest));
    let (r, action) =
        runtime.refresh_observation(r, RefreshEvent::Latest(Some(Some(latest(NOW, 100)))));
    assert!(matches!(
        action,
        RefreshAction::Note(Some(id), "success") if id == "observation_1"
    ));
    let (_, action) = runtime.refresh_observation(r, RefreshEvent::Noted(true));
    assert!(matches!(action, RefreshAction::Done(Ok(()))));
    let (r, _) = start_refresh(SchedulerMode::Shadow, request(), NOW + 1, "observation_f".into());
    let (r, _) = runtime.refresh_observation(r, RefreshEvent::Directory(Ok(Some("trae".into()))));
    let (r, action) = runtime.refresh_observation(r, RefreshEvent::Read(None));
    assert!(matches!(action, RefreshAction::Latest));
    assert_eq!(runtime.status.reader_failures, 1);
    let (r, action) = runtime.refresh_observation(r, RefreshEvent::Latest(Some(None)));
    let RefreshAction::AppendFailure(record) = action else {
        panic!("the failure is kept");
    };
    assert_eq!(record.id, "observation_f");
    assert_eq!((record.account_ref.as_str(), record.source), ("acct_1", "reader"));
    assert_eq!(record.resource_kind, "chat.general");
    assert_eq!(record.status, ObservationStatus::Failed);
    assert_eq!((record.value, record.value_scale), (None, 1));
    assert_eq!((record.observed_at_ms, record.stale_at_ms), (NOW + 1, NOW + 1));
    assert!(record.summary.same(&doc(r#"{"reason":"reader_unavailable","status":"failed"}"#)));
    let (r, action) = runtime.refresh_observation(r, RefreshEvent::Appended(true));
    assert!(matches!(
        action,
        RefreshAction::Note(Some(id), "reader_failure") if id == "observation_f"
    ));
    let (_, action) = runtime.refresh_observation(r, RefreshEvent::Noted(true));
    assert!(matches!(action, RefreshAction::Done(Err(SchedulerError::ReaderUnavailable))));
}

#[test]
fn scheduler_reader_identity_mismatch_never_reaches_storage() {
    let mut runtime = runtime(SchedulerMode::Shadow);
    let (r, _) = start_refresh(SchedulerMode::Shadow, request(), NOW, "observation_f".into());
    let (r, _) = runtime.refresh_observation(r, RefreshEvent::Directory(Ok(Some("trae".into()))));
    let foreign = RefreshEvent::Read(Some(("different-account".into(), "chat.general".into())));
    let (_, action) = runtime.refresh_observation(r, foreign);
    assert!(matches!(action, RefreshAction::Latest));
    let (r, _) = start_refresh(SchedulerMode::Shadow, request(), NOW, "observation_f".into());
    let (_, action) =
        runtime.refresh_observation(r, RefreshEvent::Directory(Ok(Some("workbuddy".into()))));
    assert!(matches!(action, RefreshAction::Done(Err(SchedulerError::ReaderUnavailable))));
    let (_, action) = start_refresh(SchedulerMode::Off, request(), NOW, "observation_f".into());
    assert!(matches!(action, RefreshAction::Done(Err(SchedulerError::NotReady))));
}

#[test]
fn scheduler_reader_failure_at_same_timestamp_supersedes_fresh_snapshot() {
    let mut runtime = runtime(SchedulerMode::Shadow);
    let (r, _) = start_refresh(SchedulerMode::Shadow, request(), NOW, "observation_f".into());
    let (r, _) = runtime.refresh_observation(r, RefreshEvent::Directory(Ok(Some("trae".into()))));
    let (r, _) = runtime.refresh_observation(r, RefreshEvent::Read(None));
    let (_, action) =
        runtime.refresh_observation(r, RefreshEvent::Latest(Some(Some(latest(NOW, 100)))));
    let RefreshAction::AppendFailure(record) = action else {
        panic!("the failure is kept");
    };
    assert_eq!((record.value_scale, record.observed_at_ms), (100, NOW + 1));
    assert_eq!(failed_at(NOW, Some(i64::MAX)), None);
    assert_eq!(failed_at(NOW, Some(NOW - 5)), Some(NOW));
}

#[test]
fn scheduler_failed_refresh_preserves_value_and_scale_from_same_fresh_row() {
    for now_ms in [NOW + 2, NOW + 3] {
        let mut runtime = runtime(SchedulerMode::Shadow);
        let (r, _) = start_refresh(SchedulerMode::Shadow, request(), now_ms, "f".into());
        let (r, _) =
            runtime.refresh_observation(r, RefreshEvent::Directory(Ok(Some("trae".into()))));
        let (r, _) = runtime.refresh_observation(r, RefreshEvent::Read(None));
        let (_, action) =
            runtime.refresh_observation(r, RefreshEvent::Latest(Some(Some(latest(NOW, 100)))));
        let RefreshAction::AppendFailure(record) = action else {
            panic!("the failure is kept");
        };
        assert_eq!((record.value_scale, record.observed_at_ms), (100, now_ms));
    }
}

#[test]
fn new_observation_ids_are_hexadecimal_and_differ() {
    let id = new_observation_id();
    assert_eq!(id.len(), "observation_".len() + 32);
    assert!(id["observation_".len()..].chars().all(|c| c.is_ascii_hexdigit()));
    assert_ne!(id, new_observation_id());
}

#[test]
fn scheduler_shadow_candidate_diagnostics_are_redacted_and_never_authorize_execution() {
    let directory = directory();
    let inputs = || {
        directory
            .accounts
            .iter()
            .map(|a| ShadowInput { account: a.dup(), found: Some(None) })
            .collect::<Vec<_>>()
    };
    let mut runtime = runtime(SchedulerMode::Shadow);
    let candidates = runtime.shadow_candidates(Ok(inputs()), NOW);
    assert_eq!(candidates.len(), 2);
    assert!(candidates.iter().all(|c| c.observation != "fresh"));
    assert!(candidates.iter().all(|c| c.account_hash.len() == 64 && c.chat_confirmed));
    let text = format!("{candidates:?}");
    assert!(!text.contains("fixture-user-sensitive") && !text.contains("vault://"));
    assert!(!text.contains(&directory.accounts[0].id));
    assert!(runtime.require_endpoint("chat").is_err());
    assert!(runtime.shadow_candidates(Err(SchedulerError::StorageUnavailable), NOW).is_empty());
    assert_eq!(runtime.status.last_error.as_deref(), Some("scheduler_storage_unavailable"));
    let fresh = shadow_candidate(
        &directory.accounts[0],
        &vec![1, 2],
        &Some(Some(latest(NOW, 1))),
        NOW,
    );
    assert_eq!((fresh.account_hash.as_str(), fresh.observation), ("0102", "fresh"));
    assert_eq!((fresh.provider, fresh.state), ("trae", "available"));
}

#[test]
fn counts_of_core_are_merged_into_the_status() {
    let mut status = runtime(SchedulerMode::Shadow).status;
    status.reader_failures = 3;
    merge_core_status_counts(&mut status, &doc(r#"{"accounts":9,"reader_failures":2}"#));
    assert_eq!((status.accounts, status.reader_failures), (9, 3));
    merge_core_status_counts(&mut status, &doc(r#"{"reader_failures":7}"#));
    assert_eq!((status.accounts, status.reader_failures), (9, 7));
    let shown = SchedulerRuntime::scheduler_status_for_admin(
        Ok(doc(r#"{"core":1,"mode":"x"}"#)),
        &doc(r#"{"mode":"shadow"}"#),
    )
    .unwrap();
    assert_eq!(shown.str_at("mode"), Some("shadow"));
    assert_eq!(shown.u64_at("core"), Some(1));
    let refused = |error| SchedulerRuntime::scheduler_status_for_admin(Err(error), &Json::Null);
    assert_eq!(
        refused(CoreError::AdminRequired("x".into())).unwrap_err(),
        SchedulerError::AdminRequired
    );
    assert_eq!(
        refused(CoreError::Other("x".into())).unwrap_err(),
        SchedulerError::StorageUnavailable
    );
}

#[test]
fn trae_fixture_keeps_scale_resource_and_redacts_credentials() {
    let snapshot = TauriObservationReader::snapshot_from_trae_values(
        "trae-account",
        "chat.general",
        Units::Known(1250),
        NOW + 300_000,
        NOW,
    )
    .unwrap();
    assert_eq!(snapshot.available_units, Some(1_250));
    assert_eq!(snapshot.value_scale, 100);
    assert_eq!(snapshot.resource_kind, "chat.general");
    assert_eq!(snapshot.source, "reader");
    assert_eq!(snapshot.stale_at_ms, NOW + 300_000);
    let stored = format!("{:?}", snapshot.summary);
    assert!(!stored.contains("jwt") && !stored.contains("token") && !stored.contains("cookie"));
    assert_eq!(
        TauriObservationReader::snapshot_from_trae_values("a", "r", Units::Unfit, 0, 0).unwrap_err(),
        ObservationError::Unavailable
    );
}

#[test]
fn workbuddy_cache_fixture_is_explicitly_stale_without_network() {
    let snapshot = TauriObservationReader::snapshot_from_workbuddy_cache(
        "wb-account",
        "chat.work",
        Units::Known(625),
        NOW - 60_000,
        Some("us"),
    )
    .unwrap();
    assert_eq!(snapshot.available_units, Some(625));
    assert_eq!(snapshot.value_scale, 100);
    assert_eq!(snapshot.source, "json_cache");
    assert_eq!(snapshot.stale_at_ms, snapshot.observed_at_ms);
    assert_eq!(snapshot.region.as_deref(), Some("us"));
}

#[test]
fn workbuddy_cache_without_a_balance_keeps_a_redacted_valid_summary() {
    let snapshot = TauriObservationReader::snapshot_from_workbuddy_cache(
        "wb-account",
        "chat.work",
        Units::Missing,
        NOW - 60_000,
        None,
    )
    .unwrap();
    assert_eq!(snapshot.available_units, None);
    assert!(snapshot.summary.get("available").is_none());
    assert_eq!(snapshot.summary.str_at("status"), Some("stale"));
}

#[test]
fn observations_go_by_the_name_outside_core_and_come_back_under_cores() {
    let mut ids: Table<String> = Table::new();
    ids.insert("acct_1", "uid-1".into());
    let outside = adapter_request(&ids, request()).unwrap();
    assert_eq!(outside.account_ref, "uid-1");
    let mut other = request();
    other.account_ref = "acct_2".into();
    assert!(adapter_request(&ids, other).is_err());
    let reader = TauriObservationReader::new(NOW);
    assert_eq!(reader.read(&outside), Ok(Source::Trae));
    let snapshot = TauriObservationReader::snapshot_from_trae_values(
        "uid-1",
        "chat.general",
        Units::Known(1),
        0,
        NOW,
    )
    .unwrap();
    assert_eq!(under_core_reference(snapshot, "acct_1".into()).account_ref, "acct_1");
}

#[test]
fn scheduler_sync_rejects_unvalidated_admin_without_writes() {
    let (run, action) = start_sync(directory());
    assert_eq!(action, SyncAction::Authorize);
    let (run, action) = sync_upstream_accounts(run, SyncEvent::Authorized(false));
    assert_eq!(action, SyncAction::Fail(SchedulerError::AdminRequired));
    assert_eq!(run.stage, SyncStage::Over);
    assert_eq!(run.writes.len(), 0);
}

#[test]
fn a_sync_writes_then_imports_what_core_does_not_know() {
    let (mut run, mut action) = start_sync(directory());
    let mut seen = Vec::new();
    loop {
        let event = match action {
            SyncAction::Authorize => SyncEvent::Authorized(true),
            SyncAction::ReadDirectory => SyncEvent::Known(Some(Vec::new())),
            SyncAction::Write(i) => {
                seen.push(format!("write {i}"));
                SyncEvent::Done(true)
            }
            SyncAction::LookUp(i) => SyncEvent::Latest(Some(i == 1)),
            SyncAction::Import(i) => {
                seen.push(format!("import {i}"));
                SyncEvent::Done(true)
            }
            SyncAction::Finish(changed) => {
                assert_eq!(changed, 2);
                break;
            }
            SyncAction::Fail(error) => panic!("{}", error.code()),
        };
        let (next_run, next_action) = sync_upstream_accounts(run, event);
        run = next_run;
        action = next_action;
    }
    assert_eq!(seen, vec!["write 0", "write 1", "import 0", "import 2"]);
}

#[test]
fn a_sync_ends_at_the_first_failure() {
    let reading = || sync_upstream_accounts(start_sync(directory()).0, SyncEvent::Authorized(true)).0;
    let (_, action) = sync_upstream_accounts(reading(), SyncEvent::Known(None));
    assert_eq!(action, SyncAction::Fail(SchedulerError::StorageUnavailable));
    let (writing, action) =
        sync_upstream_accounts(reading(), SyncEvent::Known(Some(Vec::new())));
    assert_eq!(action, SyncAction::Write(0));
    let (over, action) = sync_upstream_accounts(writing, SyncEvent::Done(false));
    assert_eq!(action, SyncAction::Fail(SchedulerError::SyncFailed));
    assert_eq!(over.stage, SyncStage::Over);
}

#[test]
fn a_second_sync_of_what_is_stored_changes_nothing() {
    let known = directory();
    let mut stored: Vec<RegisterUpstreamAccount> = known.accounts.iter().map(|a| a.dup()).collect();
    stored.reverse();
    let (run, _) = start_sync(directory());
    let (run, _) = sync_upstream_accounts(run, SyncEvent::Authorized(true));
    let (mut run, mut action) = sync_upstream_accounts(run, SyncEvent::Known(Some(stored)));
    while let SyncAction::LookUp(_) = action {
        (run, action) = sync_upstream_accounts(run, SyncEvent::Latest(Some(true)));
    }
    assert_eq!(action, SyncAction::Finish(0));
    assert!(run.writes.is_empty());
}

#[test]
fn stored_accounts_stand_under_their_ids() {
    let mut rows: Vec<RegisterUpstreamAccount> =
        directory().accounts.iter().map(|a| a.dup()).collect();
    let mut later = rows[0].dup();
    later.enabled = false;
    rows.push(later);
    let table = stored_directory(&rows);
    assert_eq!(table.len(), 2);
    for i in 0..table.len() {
        assert_eq!(table.key_at(i), table.value_at(i).id);
    }
    assert!(!table.get(&rows[0].id).unwrap().enabled);
}
