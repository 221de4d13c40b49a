//! The endpoints that show what the gateway can serve: whether it lives, the
//! state of its accounts, and its models.

use crate::access;
use crate::core_routes;
use crate::core_types::{CoreMode, Principal, PrincipalView};
use crate::json::{Json, JsonView};
use crate::reply::{self, Reply, ReplyView};
use crate::scheduler::{self, SchedulerError};
use crate::text;
use vstd::prelude::*;

verus! {

/// The gateway lives.
pub open spec fn liveness() -> JsonView {
    JsonView::object().member("status"@, JsonView::Text("ok"@)).member(
        "running"@,
        JsonView::Bool(true),
    )
}

/// The gateway lives.
pub fn public_health_payload() -> (r: Json)
    ensures
        r@ == liveness(),
{
    Json::object().member("status", Json::text("ok")).member("running", Json::Bool(true))
}

/// The answer to whether the gateway lives.
pub fn health() -> (r: Reply)
    ensures
        r@ == reply::json_answer(200, liveness()),
{
    Reply::json(200, public_health_payload())
}

/// Some account can serve a request: one of the first pool, or one of the
/// second where that pool is in use.
pub open spec fn serviceable(solo_ok: bool, wb_enabled: bool, wb_ok: bool) -> bool {
    solo_ok || (wb_enabled && wb_ok)
}

/// The answer to whether the gateway can serve.
pub open spec fn readiness(solo_ok: bool, wb_enabled: bool, wb_ok: bool) -> (u16, JsonView) {
    if serviceable(solo_ok, wb_enabled, wb_ok) {
        (200, liveness())
    } else {
        (
            503,
            JsonView::object().member("status"@, JsonView::Text("unavailable"@)).member(
                "running"@,
                JsonView::Bool(true),
            ).member("reason"@, JsonView::Text("no healthy account"@)),
        )
    }
}

/// The answer to whether the gateway can serve.
pub fn healthz_payload(solo_ok: bool, wb_enabled: bool, wb_ok: bool) -> (r: (u16, Json))
    ensures
        (r.0, r.1@) == readiness(solo_ok, wb_enabled, wb_ok),
{
    if solo_ok || (wb_enabled && wb_ok) {
        (200, public_health_payload())
    } else {
        (
            503,
            Json::object().member("status", Json::text("unavailable")).member(
                "running",
                Json::Bool(true),
            ).member("reason", Json::text("no healthy account")),
        )
    }
}

/// An account of a pool. What is only shown is a document as it is.
#[derive(Debug)]
pub struct PoolAccount {
    pub uid: String,
    pub name: String,
    pub disabled: bool,
    pub cooling: bool,
    /// The credits are known, and there are none.
    pub spent: bool,
    pub credits_expire_at: Option<i64>,
    pub err_count: u64,
    pub credits: Json,
    pub general_credits: Json,
    pub work_credits: Json,
    pub total_credits: Json,
    pub cooldown_until: Json,
    pub cooldown_reason: Json,
    pub state: Json,
}

/// The model of a [`PoolAccount`].
pub struct PoolView {
    pub uid: Seq<char>,
    pub name: Seq<char>,
    pub disabled: bool,
    pub cooling: bool,
    pub spent: bool,
    pub credits_expire_at: Option<i64>,
    pub err_count: u64,
    pub credits: JsonView,
    pub general_credits: JsonView,
    pub work_credits: JsonView,
    pub total_credits: JsonView,
    pub cooldown_until: JsonView,
    pub cooldown_reason: JsonView,
    pub state: JsonView,
}

impl View for PoolAccount {
    type V = PoolView;

    open spec fn view(&self) -> PoolView {
        PoolView {
            uid: self.uid@,
            name: self.name@,
            disabled: self.disabled,
            cooling: self.cooling,
            spent: self.spent,
            credits_expire_at: self.credits_expire_at,
            err_count: self.err_count,
            credits: self.credits@,
            general_credits: self.general_credits@,
            work_credits: self.work_credits@,
            total_credits: self.total_credits@,
            cooldown_until: self.cooldown_until@,
            cooldown_reason: self.cooldown_reason@,
            state: self.state@,
        }
    }
}

/// The models of a list of accounts.
pub open spec fn pool_views(accounts: Seq<PoolAccount>) -> Seq<PoolView> {
    Seq::new(accounts.len(), |i: int| accounts[i]@)
}

/// The account can be used now.
pub open spec fn usable(account: PoolView) -> bool {
    !account.disabled && !account.cooling
}

/// Some account can be used now.
pub open spec fn some_usable(accounts: Seq<PoolView>) -> bool {
    exists|i: int| 0 <= i < accounts.len() && usable(#[trigger] accounts[i])
}

/// Some account can be used now.
pub fn any_usable(accounts: &Vec<PoolAccount>) -> (r: bool)
    ensures
        r == some_usable(pool_views(accounts@)),
{
    let ghost all = pool_views(accounts@);
    let mut i: usize = 0;
    while i < accounts.len()
        invariant
            i <= accounts.len(),
            all == pool_views(accounts@),
            forall|j: int| 0 <= j < i ==> !usable(#[trigger] all[j]),
        decreases accounts.len() - i,
    {
        if !accounts[i].disabled && !accounts[i].cooling {
            assert(usable(all[i as int]));
            return true;
        }
        i = i + 1;
    }
    false
}

/// The answer to whether the gateway can serve.
pub fn healthz(pool: &Vec<PoolAccount>, wb_enabled: bool, wb_pool: &Vec<PoolAccount>) -> (r: Reply)
    ensures
        r@ == ({
            let (status, body) = readiness(
                some_usable(pool_views(pool@)),
                wb_enabled,
                some_usable(pool_views(wb_pool@)),
            );
            reply::json_answer(status, body)
        }),
{
    let (status, body) = healthz_payload(any_usable(pool), wb_enabled, any_usable(wb_pool));
    Reply::json(status, body)
}

/// The state of an account in one word.
pub open spec fn account_word(account: PoolView, now: i64) -> Seq<char> {
    if account.disabled {
        "disabled"@
    } else if account.cooling {
        "cooling"@
    } else if account.credits_expire_at matches Some(expires) && expires < now {
        "expired"@
    } else if account.spent {
        "no_credits"@
    } else {
        "available"@
    }
}

/// The state of an account in one word.
pub fn account_status(account: &PoolAccount, now: i64) -> (r: &'static str)
    ensures
        r@ == account_word(account@, now),
{
    let expired = match account.credits_expire_at {
        Some(expires) => expires < now,
        None => false,
    };
    if account.disabled {
        "disabled"
    } else if account.cooling {
        "cooling"
    } else if expired {
        "expired"
    } else if account.spent {
        "no_credits"
    } else {
        "available"
    }
}

/// A time that may be there.
pub open spec fn opt_time(time: Option<i64>) -> JsonView {
    match time {
        Some(time) => reply::signed_json(time),
        None => JsonView::Null,
    }
}

fn time_json(time: Option<i64>) -> (r: Json)
    ensures
        r@ == opt_time(time),
{
    match time {
        Some(time) => reply::signed_number(time),
        None => Json::Null,
    }
}

/// An account as the status shows it.
pub open spec fn account_document(a: PoolView, now: i64) -> JsonView {
    JsonView::object().member("uid"@, JsonView::Text(a.uid)).member(
        "name"@,
        JsonView::Text(a.name),
    ).member("status"@, JsonView::Text(account_word(a, now))).member(
        "credits"@,
        a.credits,
    ).member("general_credits"@, a.general_credits).member("work_credits"@, a.work_credits).member(
        "total_credits"@,
        a.total_credits,
    ).member("credits_expire_at"@, opt_time(a.credits_expire_at)).member(
        "cooling"@,
        JsonView::Bool(a.cooling),
    ).member("cooldown_until"@, a.cooldown_until).member(
        "cooldown_reason"@,
        a.cooldown_reason,
    ).member("disabled"@, JsonView::Bool(a.disabled)).member(
        "err_count"@,
        JsonView::Number(crate::json::number(a.err_count)),
    ).member("state"@, a.state)
}

fn account_json(a: &PoolAccount, now: i64) -> (r: Json)
    ensures
        r@ == account_document(a@, now),
{
    Json::object().member("uid", Json::text(a.uid.as_str())).member(
        "name",
        Json::text(a.name.as_str()),
    ).member("status", Json::text(account_status(a, now))).member(
        "credits",
        a.credits.dup(),
    ).member("general_credits", a.general_credits.dup()).member(
        "work_credits",
        a.work_credits.dup(),
    ).member("total_credits", a.total_credits.dup()).member(
        "credits_expire_at",
        time_json(a.credits_expire_at),
    ).member("cooling", Json::Bool(a.cooling)).member(
        "cooldown_until",
        a.cooldown_until.dup(),
    ).member("cooldown_reason", a.cooldown_reason.dup()).member(
        "disabled",
        Json::Bool(a.disabled),
    ).member("err_count", Json::unsigned(a.err_count)).member("state", a.state.dup())
}

/// An account of the second pool as the status shows it.
pub open spec fn wb_document(a: PoolView) -> JsonView {
    JsonView::object().member("uid"@, JsonView::Text(a.uid)).member(
        "name"@,
        JsonView::Text(a.name),
    ).member("credits"@, a.credits).member("cooling"@, JsonView::Bool(a.cooling)).member(
        "cooldown_until"@,
        a.cooldown_until,
    ).member("cooldown_reason"@, a.cooldown_reason).member(
        "disabled"@,
        JsonView::Bool(a.disabled),
    ).member("general_credits"@, a.general_credits).member("work_credits"@, a.work_credits).member(
        "total_credits"@,
        a.total_credits,
    ).member("err_count"@, JsonView::Number(crate::json::number(a.err_count))).member(
        "state"@,
        a.state,
    )
}

fn wb_json(a: &PoolAccount) -> (r: Json)
    ensures
        r@ == wb_document(a@),
{
    Json::object().member("uid", Json::text(a.uid.as_str())).member(
        "name",
        Json::text(a.name.as_str()),
    ).member("credits", a.credits.dup()).member("cooling", Json::Bool(a.cooling)).member(
        "cooldown_until",
        a.cooldown_until.dup(),
    ).member("cooldown_reason", a.cooldown_reason.dup()).member(
        "disabled",
        Json::Bool(a.disabled),
    ).member("general_credits", a.general_credits.dup()).member(
        "work_credits",
        a.work_credits.dup(),
    ).member("total_credits", a.total_credits.dup()).member(
        "err_count",
        Json::unsigned(a.err_count),
    ).member("state", a.state.dup())
}

/// The accounts of the first pool as the status shows them.
pub open spec fn accounts_document(accounts: Seq<PoolView>, now: i64) -> JsonView {
    JsonView::Array(Seq::new(accounts.len(), |i: int| account_document(accounts[i], now)))
}

/// The accounts of the second pool as the status shows them.
pub open spec fn wb_accounts_document(accounts: Seq<PoolView>) -> JsonView {
    JsonView::Array(Seq::new(accounts.len(), |i: int| wb_document(accounts[i])))
}

fn accounts_json(accounts: &Vec<PoolAccount>, now: i64) -> (r: Json)
    ensures
        r@ == accounts_document(pool_views(accounts@), now),
{
    let ghost all = accounts_document(pool_views(accounts@), now)->Array_0;
    let mut list: Vec<Json> = Vec::new();
    let mut i: usize = 0;
    while i < accounts.len()
        invariant
            i <= accounts.len(),
            all == accounts_document(pool_views(accounts@), now)->Array_0,
            list.len() == i,
            forall|j: int| 0 <= j < i ==> (#[trigger] list@[j])@ == all[j],
        decreases accounts.len() - i,
    {
        list.push(account_json(&accounts[i], now));
        i = i + 1;
    }
    let r = Json::array(list);
    assert(r@->Array_0 =~= all);
    r
}

fn wb_accounts_json(accounts: &Vec<PoolAccount>) -> (r: Json)
    ensures
        r@ == wb_accounts_document(pool_views(accounts@)),
{
    let ghost all = wb_accounts_document(pool_views(accounts@))->Array_0;
    let mut list: Vec<Json> = Vec::new();
    let mut i: usize = 0;
    while i < accounts.len()
        invariant
            i <= accounts.len(),
            all == wb_accounts_document(pool_views(accounts@))->Array_0,
            list.len() == i,
            forall|j: int| 0 <= j < i ==> (#[trigger] list@[j])@ == all[j],
        decreases accounts.len() - i,
    {
        list.push(wb_json(&accounts[i]));
        i = i + 1;
    }
    let r = Json::array(list);
    assert(r@->Array_0 =~= all);
    r
}

/// The kinds under which accounts are counted.
#[derive(Clone, Copy, Debug, PartialEq, Eq, Structural)]
pub enum Tally {
    Available,
    Cooling,
    Disabled,
}

/// The account counts under that kind.
pub open spec fn counts_as(account: PoolView, tally: Tally) -> bool {
    match tally {
        Tally::Available => usable(account),
        Tally::Cooling => account.cooling,
        Tally::Disabled => account.disabled,
    }
}

/// How many of the first `n` accounts count under that kind.
pub open spec fn counted(accounts: Seq<PoolView>, tally: Tally, n: nat) -> nat
    decreases n,
{
    if n == 0 || n > accounts.len() {
        0
    } else {
        counted(accounts, tally, (n - 1) as nat) + if counts_as(accounts[n - 1], tally) {
            1nat
        } else {
            0nat
        }
    }
}

/// How many accounts count under that kind.
pub fn count_accounts(accounts: &Vec<PoolAccount>, tally: Tally) -> (r: u64)
    ensures
        r == counted(pool_views(accounts@), tally, accounts@.len()),
{
    let ghost all = pool_views(accounts@);
    let mut n: u64 = 0;
    let mut i: usize = 0;
    while i < accounts.len()
        invariant
            i <= accounts.len(),
            all == pool_views(accounts@),
            n == counted(all, tally, i as nat),
            n <= i,
        decreases accounts.len() - i,
    {
        let a = &accounts[i];
        assert(all[i as int] == a@);
        let counts = match tally {
            Tally::Available => !a.disabled && !a.cooling,
            Tally::Cooling => a.cooling,
            Tally::Disabled => a.disabled,
        };
        if counts {
            n = n + 1;
        }
        i = i + 1;
    }
    n
}

/// A model that is cooling down.
#[derive(Debug)]
pub struct ModelCooldown {
    pub model: String,
    pub until: i64,
    pub fails: u64,
}

/// The model of a [`ModelCooldown`].
pub struct CoolingView {
    pub model: Seq<char>,
    pub until: i64,
    pub fails: u64,
}

impl View for ModelCooldown {
    type V = CoolingView;

    open spec fn view(&self) -> CoolingView {
        CoolingView { model: self.model@, until: self.until, fails: self.fails }
    }
}

/// The models of a list of cooldowns.
pub open spec fn cooling_views(list: Seq<ModelCooldown>) -> Seq<CoolingView> {
    Seq::new(list.len(), |i: int| list[i]@)
}

/// A cooldown as the status shows it.
pub open spec fn cooling_document(c: CoolingView, now: i64) -> JsonView {
    JsonView::object().member("model"@, JsonView::Text(c.model)).member(
        "until"@,
        reply::signed_json(c.until),
    ).member("remaining_s"@, reply::signed_json((c.until - now) as i64)).member(
        "fails"@,
        JsonView::Number(crate::json::number(c.fails)),
    )
}

/// The cooldowns among the first `n` that have not ended.
pub open spec fn cooling_models(list: Seq<CoolingView>, n: nat, now: i64) -> Seq<JsonView>
    decreases n,
{
    if n == 0 || n > list.len() {
        Seq::empty()
    } else {
        let before = cooling_models(list, (n - 1) as nat, now);
        if list[n - 1].until > now {
            before.push(cooling_document(list[n - 1], now))
        } else {
            before
        }
    }
}

fn cooling_json(list: &Vec<ModelCooldown>, now: i64) -> (r: Json)
    requires
        now >= 0,
    ensures
        r@ == JsonView::Array(cooling_models(cooling_views(list@), list@.len(), now)),
{
    let ghost all = cooling_views(list@);
    let mut out: Vec<Json> = Vec::new();
    let ghost mut shown: Seq<JsonView> = Seq::empty();
    let mut i: usize = 0;
    while i < list.len()
        invariant
            i <= list.len(),
            now >= 0,
            all == cooling_views(list@),
            shown == cooling_models(all, i as nat, now),
            out.len() == shown.len(),
            forall|j: int| 0 <= j < out.len() ==> (#[trigger] out@[j])@ == shown[j],
        decreases list.len() - i,
    {
        let c = &list[i];
        assert(all[i as int] == c@);
        if c.until > now {
            let item = Json::object().member("model", Json::text(c.model.as_str())).member(
                "until",
                reply::signed_number(c.until),
            ).member("remaining_s", reply::signed_number(c.until - now)).member(
                "fails",
                Json::unsigned(c.fails),
            );
            proof {
                shown = shown.push(item@);
            }
            out.push(item);
        }
        i = i + 1;
    }
    let r = Json::array(out);
    assert(r@->Array_0 =~= shown);
    r
}

/// What the status is made of.
#[derive(Debug)]
pub struct PoolStatus {
    pub total_requests: u64,
    pub inflight: u64,
    pub active_uid: Option<String>,
    pub last_error: Option<String>,
    pub accounts: Vec<PoolAccount>,
    /// The sums of all credits, of the general ones and of those for work.
    pub total_credits: Json,
    pub general_credits: Json,
    pub work_credits: Json,
    pub wb_enabled: bool,
    pub wb_accounts: Vec<PoolAccount>,
    pub model_cooldowns: Vec<ModelCooldown>,
    pub sticky_sessions: u64,
    pub probe_ok: i64,
    pub probe_ts_ms: i64,
}

/// The model of a [`PoolStatus`].
pub struct PoolStatusView {
    pub total_requests: u64,
    pub inflight: u64,
    pub active_uid: Option<Seq<char>>,
    pub last_error: Option<Seq<char>>,
    pub accounts: Seq<PoolView>,
    pub total_credits: JsonView,
    pub general_credits: JsonView,
    pub work_credits: JsonView,
    pub wb_enabled: bool,
    pub wb_accounts: Seq<PoolView>,
    pub model_cooldowns: Seq<CoolingView>,
    pub sticky_sessions: u64,
    pub probe_ok: i64,
    pub probe_ts_ms: i64,
}

impl View for PoolStatus {
    type V = PoolStatusView;

    open spec fn view(&self) -> PoolStatusView {
        PoolStatusView {
            total_requests: self.total_requests,
            inflight: self.inflight,
            active_uid: text::opt_view(self.active_uid),
            last_error: text::opt_view(self.last_error),
            accounts: pool_views(self.accounts@),
            total_credits: self.total_credits@,
            general_credits: self.general_credits@,
            work_credits: self.work_credits@,
            wb_enabled: self.wb_enabled,
            wb_accounts: pool_views(self.wb_accounts@),
            model_cooldowns: cooling_views(self.model_cooldowns@),
            sticky_sessions: self.sticky_sessions,
            probe_ok: self.probe_ok,
            probe_ts_ms: self.probe_ts_ms,
        }
    }
}

/// The numbers of the first pool.
pub open spec fn summary(s: PoolStatusView) -> JsonView {
    let n = s.accounts.len();
    JsonView::object().member(
        "total_accounts"@,
        JsonView::Number(crate::json::number(n as u64)),
    ).member(
        "available"@,
        JsonView::Number(crate::json::number(counted(s.accounts, Tally::Available, n) as u64)),
    ).member(
        "cooling"@,
        JsonView::Number(crate::json::number(counted(s.accounts, Tally::Cooling, n) as u64)),
    ).member(
        "disabled"@,
        JsonView::Number(crate::json::number(counted(s.accounts, Tally::Disabled, n) as u64)),
    ).member("total_credits"@, s.total_credits).member(
        "general_credits"@,
        s.general_credits,
    ).member("work_credits"@, s.work_credits)
}

/// The second pool as the status shows it.
pub open spec fn wb_summary(s: PoolStatusView, now: i64) -> JsonView {
    JsonView::object().member("enabled"@, JsonView::Bool(s.wb_enabled)).member(
        "total_accounts"@,
        JsonView::Number(crate::json::number(s.wb_accounts.len() as u64)),
    ).member("accounts"@, wb_accounts_document(s.wb_accounts)).member(
        "model_cooldowns"@,
        JsonView::Array(cooling_models(s.model_cooldowns, s.model_cooldowns.len(), now)),
    ).member(
        "sticky_sessions"@,
        JsonView::Number(crate::json::number(s.sticky_sessions)),
    ).member("probe_ok"@, reply::signed_json(s.probe_ok)).member(
        "probe_ts_ms"@,
        reply::signed_json(s.probe_ts_ms),
    )
}

/// The status of the pools.
pub open spec fn status_document(s: PoolStatusView, now: i64) -> JsonView {
    JsonView::object().member("running"@, JsonView::Bool(true)).member(
        "total_requests"@,
        JsonView::Number(crate::json::number(s.total_requests)),
    ).member("inflight"@, JsonView::Number(crate::json::number(s.inflight))).member(
        "active_uid"@,
        crate::json::opt_text_json(s.active_uid),
    ).member("last_error"@, crate::json::opt_text_json(s.last_error)).member(
        "summary"@,
        summary(s),
    ).member("accounts"@, accounts_document(s.accounts, now)).member("wb"@, wb_summary(s, now))
}

/// The status of the pools.
pub fn pool_status(s: &PoolStatus, now: i64) -> (r: Json)
    requires
        now >= 0,
    ensures
        r@ == status_document(s@, now),
{
    let summary = Json::object().member(
        "total_accounts",
        Json::unsigned(s.accounts.len() as u64),
    ).member(
        "available",
        Json::unsigned(count_accounts(&s.accounts, Tally::Available)),
    ).member("cooling", Json::unsigned(count_accounts(&s.accounts, Tally::Cooling))).member(
        "disabled",
        Json::unsigned(count_accounts(&s.accounts, Tally::Disabled)),
    ).member("total_credits", s.total_credits.dup()).member(
        "general_credits",
        s.general_credits.dup(),
    ).member("work_credits", s.work_credits.dup());
    let wb = Json::object().member("enabled", Json::Bool(s.wb_enabled)).member(
        "total_accounts",
        Json::unsigned(s.wb_accounts.len() as u64),
    ).member("accounts", wb_accounts_json(&s.wb_accounts)).member(
        "model_cooldowns",
        cooling_json(&s.model_cooldowns, now),
    ).member("sticky_sessions", Json::unsigned(s.sticky_sessions)).member(
        "probe_ok",
        reply::signed_number(s.probe_ok),
    ).member("probe_ts_ms", reply::signed_number(s.probe_ts_ms));
    Json::object().member("running", Json::Bool(true)).member(
        "total_requests",
        Json::unsigned(s.total_requests),
    ).member("inflight", Json::unsigned(s.inflight)).member(
        "active_uid",
        Json::text_or_null(&s.active_uid),
    ).member("last_error", Json::text_or_null(&s.last_error)).member("summary", summary).member(
        "accounts",
        accounts_json(&s.accounts, now),
    ).member("wb", wb)
}

/// The answer with the status. Where Core rules, an administrator is shown the
/// scheduler, and nobody the pools.
pub open spec fn status_reply(
    core: Option<CoreMode>,
    principal: Option<PrincipalView>,
    is_admin: bool,
    scheduler: Result<JsonView, SchedulerError>,
    pools: PoolStatusView,
    now: i64,
) -> ReplyView {
    if access::enforcing(core) {
        if principal is None {
            core_routes::unauthorized_reply()
        } else if !is_admin {
            reply::openai(
                403,
                "scheduler_admin_required"@,
                "scheduler status requires an administrator principal"@,
            )
        } else {
            match scheduler {
                Ok(scheduler) => reply::json_answer(
                    200,
                    JsonView::object().member("running"@, JsonView::Bool(true)).member(
                        "scheduler"@,
                        scheduler,
                    ),
                ),
                Err(error) => reply::openai(
                    503,
                    scheduler::code_of(error),
                    "scheduler status is unavailable"@,
                ),
            }
        }
    } else {
        reply::json_answer(200, status_document(pools, now))
    }
}

/// The answer with the status.
pub fn status(
    core: Option<CoreMode>,
    principal: Option<Principal>,
    is_admin: bool,
    scheduler: Result<Json, SchedulerError>,
    pools: &PoolStatus,
    now: i64,
) -> (r: Reply)
    requires
        now >= 0,
    ensures
        r@ == status_reply(
            core,
            crate::core_types::opt_principal(principal),
            is_admin,
            (match scheduler {
                Ok(scheduler) => Ok::<JsonView, SchedulerError>(scheduler@),
                Err(error) => Err(error),
            }),
            pools@,
            now,
        ),
{
    if !access::core_enforcing(core) {
        return Reply::json(200, pool_status(pools, now));
    }
    if let Err(reply) = core_routes::core_principal_or_unauthorized(principal) {
        return reply;
    }
    if !is_admin {
        return reply::openai_error(
            403,
            "scheduler_admin_required",
            "scheduler status requires an administrator principal",
        );
    }
    match scheduler {
        Ok(scheduler) => Reply::json(
            200,
            Json::object().member("running", Json::Bool(true)).member("scheduler", scheduler),
        ),
        Err(error) => reply::openai_error(503, error.code(), "scheduler status is unavailable"),
    }
}

/// A pool that serves a model: its name, and the pool as it is shown.
#[derive(Debug)]
pub struct ModelSource {
    pub pool: String,
    pub document: Json,
}

/// The model of a [`ModelSource`].
pub struct SourceView {
    pub pool: Seq<char>,
    pub document: JsonView,
}

impl View for ModelSource {
    type V = SourceView;

    open spec fn view(&self) -> SourceView {
        SourceView { pool: self.pool@, document: self.document@ }
    }
}

/// A model of the catalogue. What is only shown is a document as it is.
#[derive(Debug)]
pub struct UnifiedModel {
    pub id: String,
    pub vendor: String,
    pub display: Json,
    pub rate: Json,
    pub context_length: Json,
    pub max_tokens: Json,
    pub supports_image: Json,
    pub efforts: Json,
    pub sources: Vec<ModelSource>,
    pub manual: Json,
}

/// The model of a [`UnifiedModel`].
pub struct ModelView {
    pub id: Seq<char>,
    pub vendor: Seq<char>,
    pub display: JsonView,
    pub rate: JsonView,
    pub context_length: JsonView,
    pub max_tokens: JsonView,
    pub supports_image: JsonView,
    pub efforts: JsonView,
    pub sources: Seq<SourceView>,
    pub manual: JsonView,
}

impl View for UnifiedModel {
    type V = ModelView;

    open spec fn view(&self) -> ModelView {
        ModelView {
            id: self.id@,
            vendor: self.vendor@,
            display: self.display@,
            rate: self.rate@,
            context_length: self.context_length@,
            max_tokens: self.max_tokens@,
            supports_image: self.supports_image@,
            efforts: self.efforts@,
            sources: Seq::new(self.sources@.len(), |i: int| self.sources@[i]@),
            manual: self.manual@,
        }
    }
}

/// The models of a list of models.
pub open spec fn model_views(models: Seq<UnifiedModel>) -> Seq<ModelView> {
    Seq::new(models.len(), |i: int| models[i]@)
}

/// The pools of a model as they are shown.
pub open spec fn sources_document(sources: Seq<SourceView>) -> JsonView {
    JsonView::Array(Seq::new(sources.len(), |i: int| sources[i].document))
}

/// A model as a client sees it.
pub open spec fn model_document(
    m: ModelView,
    owner: Seq<char>,
    capability: Seq<char>,
    endpoint: Seq<char>,
    later: bool,
) -> JsonView {
    JsonView::object().member("id"@, JsonView::Text(m.id)).member(
        "object"@,
        JsonView::Text("model"@),
    ).member("created"@, JsonView::Number(crate::json::number(1753600000))).member(
        "owned_by"@,
        JsonView::Text(owner),
    ).member("display"@, m.display).member("rate"@, m.rate).member(
        "context_length"@,
        m.context_length,
    ).member("max_tokens"@, m.max_tokens).member("supports_image"@, m.supports_image).member(
        "supported_efforts"@,
        m.efforts,
    ).member(
        "capabilities"@,
        JsonView::Array(Seq::empty().push(JsonView::Text(capability))),
    ).member("endpoint"@, JsonView::Text(endpoint)).member("async"@, JsonView::Bool(later)).member(
        "sources"@,
        sources_document(m.sources),
    ).member("manual"@, m.manual)
}

fn sources_json(sources: &Vec<ModelSource>) -> (r: Json)
    ensures
        r@ == sources_document(Seq::new(sources@.len(), |i: int| sources@[i]@)),
{
    let ghost all = sources_document(Seq::new(sources@.len(), |i: int| sources@[i]@))->Array_0;
    let mut list: Vec<Json> = Vec::new();
    let mut i: usize = 0;
    while i < sources.len()
        invariant
            i <= sources.len(),
            all == sources_document(Seq::new(sources@.len(), |i: int| sources@[i]@))->Array_0,
            list.len() == i,
            forall|j: int| 0 <= j < i ==> (#[trigger] list@[j])@ == all[j],
        decreases sources.len() - i,
    {
        list.push(sources[i].document.dup());
        i = i + 1;
    }
    let r = Json::array(list);
    assert(r@->Array_0 =~= all);
    r
}

fn model_json(m: &UnifiedModel, owner: &str, capability: &str, endpoint: &str, later: bool) -> (r: Json)
    ensures
        r@ == model_document(m@, owner@, capability@, endpoint@, later),
{
    let mut one: Vec<Json> = Vec::new();
    one.push(Json::text(capability));
    let capabilities = Json::array(one);
    assert(capabilities@->Array_0 =~= Seq::empty().push(JsonView::Text(capability@)));
    Json::object().member("id", Json::text(m.id.as_str())).member(
        "object",
        Json::text("model"),
    ).member("created", Json::unsigned(1753600000)).member("owned_by", Json::text(owner)).member(
        "display",
        m.display.dup(),
    ).member("rate", m.rate.dup()).member("context_length", m.context_length.dup()).member(
        "max_tokens",
        m.max_tokens.dup(),
    ).member("supports_image", m.supports_image.dup()).member(
        "supported_efforts",
        m.efforts.dup(),
    ).member("capabilities", capabilities).member("endpoint", Json::text(endpoint)).member(
        "async",
        Json::Bool(later),
    ).member("sources", sources_json(&m.sources)).member("manual", m.manual.dup())
}

/// A text model as a client sees it.
pub open spec fn text_model(m: ModelView) -> JsonView {
    model_document(m, "unified"@, "text"@, "/v1/chat/completions"@, false)
}

/// A text model as a client sees it.
pub fn public_unified_model_value(model: &UnifiedModel) -> (r: Json)
    ensures
        r@ == text_model(model@),
{
    model_json(model, "unified", "text", "/v1/chat/completions", false)
}

/// The video model as a client sees it.
pub open spec fn video_model(m: ModelView) -> JsonView {
    model_document(m, m.vendor, "video"@, "/v1/videos/generations"@, true)
}

/// The video model as a client sees it.
pub fn public_seedance_model_value(model: &UnifiedModel) -> (r: Json)
    ensures
        r@ == video_model(model@),
{
    model_json(model, model.vendor.as_str(), "video", "/v1/videos/generations", true)
}

/// Only the second pool serves the model.
pub open spec fn buddy_only(m: ModelView) -> bool {
    forall|i: int| 0 <= i < m.sources.len() ==> (#[trigger] m.sources[i]).pool == "buddy"@
}

fn only_buddy(m: &UnifiedModel) -> (r: bool)
    ensures
        r == buddy_only(m@),
{
    let mut i: usize = 0;
    while i < m.sources.len()
        invariant
            i <= m.sources.len(),
            forall|j: int| 0 <= j < i ==> (#[trigger] m@.sources[j]).pool == "buddy"@,
        decreases m.sources.len() - i,
    {
        if !text::same(m.sources[i].pool.as_str(), "buddy") {
            assert(m@.sources[i as int].pool != "buddy"@);
            return false;
        }
        i = i + 1;
    }
    true
}

/// The text models among the first `n` that can be served.
pub open spec fn served_models(models: Seq<ModelView>, wb_enabled: bool, n: nat) -> Seq<JsonView>
    decreases n,
{
    if n == 0 || n > models.len() {
        Seq::empty()
    } else {
        let before = served_models(models, wb_enabled, (n - 1) as nat);
        if wb_enabled || !buddy_only(models[n - 1]) {
            before.push(text_model(models[n - 1]))
        } else {
            before
        }
    }
}

/// The list of models: the text models that can be served, and the video model.
pub open spec fn model_list(models: Seq<ModelView>, seedance: ModelView, wb_enabled: bool) -> JsonView {
    JsonView::object().member("object"@, JsonView::Text("list"@)).member(
        "data"@,
        JsonView::Array(
            served_models(models, wb_enabled, models.len()).push(video_model(seedance)),
        ),
    )
}

/// The answer with the models. Where Core rules, the caller needs the scope.
pub open spec fn models_reply(
    core: Option<CoreMode>,
    principal: Option<PrincipalView>,
    has_scope: bool,
    models: Seq<ModelView>,
    seedance: ModelView,
    wb_enabled: bool,
) -> ReplyView {
    if access::enforcing(core) && principal is None {
        core_routes::unauthorized_reply()
    } else if access::enforcing(core) && !has_scope {
        core_routes::scope_reply("models:read"@)
    } else {
        reply::json_answer(200, model_list(models, seedance, wb_enabled))
    }
}

/// The answer with the models.
pub fn models(
    core: Option<CoreMode>,
    principal: Option<Principal>,
    has_scope: bool,
    list: &Vec<UnifiedModel>,
    seedance: &UnifiedModel,
    wb_enabled: bool,
) -> (r: Reply)
    ensures
        r@ == models_reply(
            core,
            crate::core_types::opt_principal(principal),
            has_scope,
            model_views(list@),
            seedance@,
            wb_enabled,
        ),
{
    if access::core_enforcing(core) {
        if let Err(reply) = core_routes::core_principal_or_unauthorized(principal) {
            return reply;
        }
        if !has_scope {
            return core_routes::core_scope_error("models:read");
        }
    }
    let ghost all = model_views(list@);
    let ghost mut shown: Seq<JsonView> = Seq::empty();
    let mut data: Vec<Json> = Vec::new();
    let mut i: usize = 0;
    while i < list.len()
        invariant
            i <= list.len(),
            all == model_views(list@),
            shown == served_models(all, wb_enabled, i as nat),
            data.len() == shown.len(),
            forall|j: int| 0 <= j < data.len() ==> (#[trigger] data@[j])@ == shown[j],
        decreases list.len() - i,
    {
        assert(all[i as int] == list@[i as int]@);
        if wb_enabled || !only_buddy(&list[i]) {
            let item = public_unified_model_value(&list[i]);
            proof {
                shown = shown.push(item@);
            }
            data.push(item);
        }
        i = i + 1;
    }
    data.push(public_seedance_model_value(seedance));
    let array = Json::array(data);
    assert(array@->Array_0 =~= shown.push(video_model(seedance@)));
    Reply::json(200, Json::object().member("object", Json::text("list")).member("data", array))
}

/// The model that serves a request, and the effort it is served with.
#[derive(Debug)]
pub struct WbTarget {
    pub model: String,
    pub effort_hint: Option<String>,
}

/// The model of a [`WbTarget`].
pub struct WbTargetView {
    pub model: Seq<char>,
    pub effort_hint: Option<Seq<char>>,
}

impl View for WbTarget {
    type V = WbTargetView;

    open spec fn view(&self) -> WbTargetView {
        WbTargetView { model: self.model@, effort_hint: text::opt_view(self.effort_hint) }
    }
}

/// The model of the second pool that serves a request: the one that its name
/// was resolved to, if the catalogue has it; for a task in the background the
/// cheapest one, where that is wanted and there is one.
pub open spec fn wb_target(
    resolved: WbTargetView,
    in_catalogue: bool,
    downgrade: bool,
    background: bool,
    cheapest: Option<Seq<char>>,
) -> Option<WbTargetView> {
    if !in_catalogue {
        None
    } else if downgrade && background && cheapest is Some {
        Some(WbTargetView { model: cheapest->0, ..resolved })
    } else {
        Some(resolved)
    }
}

/// The model of the second pool that serves a request.
pub fn resolve_wb_target(
    resolved: WbTarget,
    in_catalogue: bool,
    downgrade: bool,
    background: bool,
    cheapest: Option<String>,
) -> (r: Option<WbTarget>)
    ensures
        (match r {
            Some(target) => Some(target@),
            None => None,
        }) == wb_target(
            resolved@,
            in_catalogue,
            downgrade,
            background,
            text::opt_view(cheapest),
        ),
{
    if !in_catalogue {
        return None;
    }
    if downgrade && background {
        if let Some(model) = cheapest {
            return Some(WbTarget { model, effort_hint: resolved.effort_hint });
        }
    }
    Some(resolved)
}

/// Where Core rules, the status shows nobody the accounts of the pools: it does
/// not depend on them.
pub proof fn law_core_status_hides_the_pools(
    principal: Option<PrincipalView>,
    is_admin: bool,
    scheduler: Result<JsonView, SchedulerError>,
    pools: PoolStatusView,
    other: PoolStatusView,
    now: i64,
)
    ensures
        status_reply(Some(CoreMode::Enforce), principal, is_admin, scheduler, pools, now)
            == status_reply(Some(CoreMode::Enforce), principal, is_admin, scheduler, other, now),
{
}

/// An account is counted as available exactly where it is counted neither as
/// cooling nor as disabled, so that the gateway can serve from the first pool
/// exactly where the status counts an available account.
pub proof fn law_available_accounts_make_the_pool_usable(accounts: Seq<PoolView>, n: nat)
    requires
        n <= accounts.len(),
    ensures
        (counted(accounts, Tally::Available, n) > 0) == some_usable(accounts.subrange(0, n as int)),
    decreases n,
{
    let part = accounts.subrange(0, n as int);
    if n > 0 {
        let m = (n - 1) as nat;
        let before = accounts.subrange(0, m as int);
        law_available_accounts_make_the_pool_usable(accounts, m);
        if some_usable(before) {
            let i = choose|i: int| 0 <= i < before.len() && usable(#[trigger] before[i]);
            assert(usable(part[i]));
        }
        if usable(accounts[n - 1]) {
            assert(usable(part[n - 1]));
        }
        if some_usable(part) && !usable(accounts[n - 1]) {
            let i = choose|i: int| 0 <= i < part.len() && usable(#[trigger] part[i]);
            assert(usable(before[i]));
        }
    }
}

} // verus!
