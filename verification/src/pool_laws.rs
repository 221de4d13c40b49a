//! What holds of the pools of accounts, of the models that they serve, and of
//! the endpoints at which both are asked for.

use crate::core_types::{CoreMode, PrincipalView};
use crate::json::JsonView;
use crate::pool_routes::{
    self, CoolingView, ModelView, PoolStatusView, PoolView, Tally, WbTargetView,
};
use crate::scheduler::{self, SchedulerError};
use crate::server::{self, Handler, Method, Probe, RouteView};
use crate::text;
use crate::text_chat_laws;
use crate::reply::{self, Protocol};
use vstd::prelude::*;

verus! {

/// The gateway can serve where an account of the first pool can be used, or one
/// of the second where that pool is in use; it says so, and that it runs.
pub proof fn law_the_gateway_says_whether_it_can_serve(
    pool: Seq<PoolView>,
    wb_enabled: bool,
    wb_pool: Seq<PoolView>,
)
    ensures
        ({
            let (status, body) = pool_routes::readiness(
                pool_routes::some_usable(pool),
                wb_enabled,
                pool_routes::some_usable(wb_pool),
            );
            let first = exists|i: int|
                0 <= i < pool.len() && !(#[trigger] pool[i]).disabled && !pool[i].cooling;
            let second = exists|i: int|
                0 <= i < wb_pool.len() && !(#[trigger] wb_pool[i]).disabled && !wb_pool[i].cooling;
            &&& status == 200 <==> first || (wb_enabled && second)
            &&& status == 200 || status == 503
            &&& body.get("running"@) == Some(JsonView::Bool(true))
            &&& status == 200 ==> body.text_at("status"@) == Some("ok"@)
            &&& status == 503 ==> body.text_at("status"@) == Some("unavailable"@)
                && body.text_at("reason"@) is Some
        }),
        pool_routes::liveness().text_at("status"@) == Some("ok"@),
        pool_routes::liveness().get("running"@) == Some(JsonView::Bool(true)),
{
    broadcast use crate::json::group_members;

    reveal_strlit("status");
    reveal_strlit("running");
    reveal_strlit("reason");
    assert("status"@.len() == 6);
    assert("running"@.len() == 7);
    assert("reason"@.len() == 6);
    assert("status"@[0] != "reason"@[0]);
    if pool_routes::some_usable(pool) {
        let i = choose|i: int| 0 <= i < pool.len() && pool_routes::usable(#[trigger] pool[i]);
        assert(!pool[i].disabled && !pool[i].cooling);
    }
    if pool_routes::some_usable(wb_pool) {
        let i = choose|i: int| 0 <= i < wb_pool.len() && pool_routes::usable(#[trigger] wb_pool[i]);
        assert(!wb_pool[i].disabled && !wb_pool[i].cooling);
    }
}

/// An account is said to be available where nothing keeps it from use, and else
/// the first thing that does is said.
pub proof fn law_an_account_is_said_to_be_what_it_is(a: PoolView, now: i64)
    ensures
        ({
            let word = pool_routes::account_word(a, now);
            let expired = a.credits_expire_at is Some && a.credits_expire_at->0 < now;
            &&& word == "disabled"@ <==> a.disabled
            &&& word == "cooling"@ <==> !a.disabled && a.cooling
            &&& word == "expired"@ <==> !a.disabled && !a.cooling && expired
            &&& word == "no_credits"@ <==> !a.disabled && !a.cooling && !expired && a.spent
            &&& word == "available"@ <==> !a.disabled && !a.cooling && !expired && !a.spent
        }),
{
    reveal_strlit("disabled");
    reveal_strlit("cooling");
    reveal_strlit("expired");
    reveal_strlit("no_credits");
    reveal_strlit("available");
    assert("disabled"@.len() == 8);
    assert("cooling"@.len() == 7);
    assert("expired"@.len() == 7);
    assert("no_credits"@.len() == 10);
    assert("available"@.len() == 9);
    assert("cooling"@[0] != "expired"@[0]);
}

/// An account is shown as it is, and its number of errors and its state with it.
pub proof fn law_an_account_is_shown_as_it_is(a: PoolView, now: i64)
    ensures
        ({
            let d = pool_routes::account_document(a, now);
            &&& d.text_at("uid"@) == Some(a.uid) && d.text_at("name"@) == Some(a.name)
            &&& d.text_at("status"@) == Some(pool_routes::account_word(a, now))
            &&& d.get("credits"@) == Some(a.credits)
            &&& d.get("general_credits"@) == Some(a.general_credits)
            &&& d.get("work_credits"@) == Some(a.work_credits)
            &&& d.get("total_credits"@) == Some(a.total_credits)
            &&& d.get("credits_expire_at"@) matches Some(at)
            &&& a.credits_expire_at matches Some(time) ==> at.as_signed() == Some(time)
            &&& a.credits_expire_at is None ==> at == JsonView::Null
            &&& d.get("cooling"@) == Some(JsonView::Bool(a.cooling))
            &&& d.get("cooldown_until"@) == Some(a.cooldown_until)
            &&& d.get("cooldown_reason"@) == Some(a.cooldown_reason)
            &&& d.get("disabled"@) == Some(JsonView::Bool(a.disabled))
            &&& d.unsigned_at("err_count"@) == Some(a.err_count)
            &&& d.get("state"@) == Some(a.state)
        }),
        ({
            let d = pool_routes::wb_document(a);
            &&& d.text_at("uid"@) == Some(a.uid) && d.text_at("name"@) == Some(a.name)
            &&& d.get("credits"@) == Some(a.credits)
            &&& d.get("general_credits"@) == Some(a.general_credits)
            &&& d.get("work_credits"@) == Some(a.work_credits)
            &&& d.get("total_credits"@) == Some(a.total_credits)
            &&& d.get("cooling"@) == Some(JsonView::Bool(a.cooling))
            &&& d.get("cooldown_until"@) == Some(a.cooldown_until)
            &&& d.get("cooldown_reason"@) == Some(a.cooldown_reason)
            &&& d.get("disabled"@) == Some(JsonView::Bool(a.disabled))
            &&& d.unsigned_at("err_count"@) == Some(a.err_count)
            &&& d.get("state"@) == Some(a.state)
        }),
{
    broadcast use crate::json::group_members;

    reveal_strlit("uid");
    reveal_strlit("name");
    reveal_strlit("status");
    reveal_strlit("credits");
    reveal_strlit("general_credits");
    reveal_strlit("work_credits");
    reveal_strlit("total_credits");
    reveal_strlit("credits_expire_at");
    reveal_strlit("cooling");
    reveal_strlit("cooldown_until");
    reveal_strlit("cooldown_reason");
    reveal_strlit("disabled");
    reveal_strlit("err_count");
    reveal_strlit("state");
    assert("uid"@.len() == 3);
    assert("name"@.len() == 4);
    assert("status"@.len() == 6);
    assert("credits"@.len() == 7);
    assert("general_credits"@.len() == 15);
    assert("work_credits"@.len() == 12);
    assert("total_credits"@.len() == 13);
    assert("credits_expire_at"@.len() == 17);
    assert("cooling"@.len() == 7);
    assert("cooldown_until"@.len() == 14);
    assert("cooldown_reason"@.len() == 15);
    assert("disabled"@.len() == 8);
    assert("err_count"@.len() == 9);
    assert("state"@.len() == 5);
    assert("credits"@[1] != "cooling"@[1]);
    assert("general_credits"@[0] != "cooldown_reason"@[0]);
}

/// Every account is counted once under each kind that it is of.
pub proof fn law_every_account_is_counted_once(accounts: Seq<PoolView>, n: nat)
    requires
        n < accounts.len(),
    ensures
        ({
            let a = accounts[n as int];
            let one = |is: bool|
                if is {
                    1int
                } else {
                    0int
                };
            &&& pool_routes::counted(accounts, Tally::Available, n + 1) == pool_routes::counted(
                accounts,
                Tally::Available,
                n,
            ) + one(!a.disabled && !a.cooling)
            &&& pool_routes::counted(accounts, Tally::Cooling, n + 1) == pool_routes::counted(
                accounts,
                Tally::Cooling,
                n,
            ) + one(a.cooling)
            &&& pool_routes::counted(accounts, Tally::Disabled, n + 1) == pool_routes::counted(
                accounts,
                Tally::Disabled,
                n,
            ) + one(a.disabled)
        }),
        forall|tally: Tally| #[trigger] pool_routes::counted(accounts, tally, 0) == 0,
{
}

/// The cooldowns that have not ended are shown, in order, with how long they
/// still last.
pub proof fn law_a_cooldown_is_shown_until_it_ends(list: Seq<CoolingView>, n: nat, now: i64)
    requires
        n < list.len(),
        now >= 0,
    ensures
        ({
            let c = list[n as int];
            let before = pool_routes::cooling_models(list, n, now);
            let after = pool_routes::cooling_models(list, n + 1, now);
            &&& c.until <= now ==> after == before
            &&& c.until > now ==> {
                &&& after.len() == before.len() + 1 && after.drop_last() =~= before
                &&& after.last().text_at("model"@) == Some(c.model)
                &&& after.last().get("until"@) matches Some(at) && at.as_signed() == Some(c.until)
                &&& after.last().get("remaining_s"@) matches Some(left) && left.as_signed() == Some(
                    (c.until - now) as i64,
                )
                &&& after.last().unsigned_at("fails"@) == Some(c.fails)
            }
        }),
        pool_routes::cooling_models(list, 0, now).len() == 0,
{
    broadcast use crate::json::group_members;

    reveal_strlit("model");
    reveal_strlit("until");
    reveal_strlit("remaining_s");
    reveal_strlit("fails");
    assert("model"@.len() == 5);
    assert("until"@.len() == 5);
    assert("remaining_s"@.len() == 11);
    assert("fails"@.len() == 5);
    assert("model"@[0] != "until"@[0]);
    assert("model"@[0] != "fails"@[0]);
    assert("until"@[0] != "fails"@[0]);
}

/// The status shows the pools as they are: how many accounts there are and how
/// many are of each kind, all accounts in order, and the numbers of the gateway.
pub proof fn law_the_status_shows_the_pools(s: PoolStatusView, now: i64)
    requires
        s.accounts.len() <= u64::MAX,
        s.wb_accounts.len() <= u64::MAX,
    ensures
        ({
            let d = pool_routes::status_document(s, now);
            let n = s.accounts.len();
            &&& d.get("running"@) == Some(JsonView::Bool(true))
            &&& d.unsigned_at("total_requests"@) == Some(s.total_requests)
            &&& d.unsigned_at("inflight"@) == Some(s.inflight)
            &&& d.text_at("active_uid"@) == s.active_uid
            &&& d.text_at("last_error"@) == s.last_error
            &&& d.get("summary"@) matches Some(sum)
            &&& sum.unsigned_at("total_accounts"@) == Some(n as u64)
            &&& sum.unsigned_at("available"@) == Some(
                pool_routes::counted(s.accounts, Tally::Available, n) as u64,
            )
            &&& sum.unsigned_at("cooling"@) == Some(
                pool_routes::counted(s.accounts, Tally::Cooling, n) as u64,
            )
            &&& sum.unsigned_at("disabled"@) == Some(
                pool_routes::counted(s.accounts, Tally::Disabled, n) as u64,
            )
            &&& sum.get("total_credits"@) == Some(s.total_credits)
            &&& sum.get("general_credits"@) == Some(s.general_credits)
            &&& sum.get("work_credits"@) == Some(s.work_credits)
            &&& d.get("accounts"@) matches Some(JsonView::Array(accounts))
            &&& accounts.len() == n
            &&& forall|i: int|
                0 <= i < n ==> (#[trigger] accounts[i]).text_at("uid"@) == Some(s.accounts[i].uid)
            &&& d.get("wb"@) matches Some(wb)
            &&& wb.get("enabled"@) == Some(JsonView::Bool(s.wb_enabled))
            &&& wb.unsigned_at("total_accounts"@) == Some(s.wb_accounts.len() as u64)
            &&& wb.get("accounts"@) matches Some(JsonView::Array(second))
            &&& second.len() == s.wb_accounts.len()
            &&& forall|i: int|
                0 <= i < second.len() ==> (#[trigger] second[i]).text_at("uid"@) == Some(
                    s.wb_accounts[i].uid,
                )
            &&& wb.get("model_cooldowns"@) == Some(
                JsonView::Array(
                    pool_routes::cooling_models(s.model_cooldowns, s.model_cooldowns.len(), now),
                ),
            )
            &&& wb.unsigned_at("sticky_sessions"@) == Some(s.sticky_sessions)
            &&& wb.get("probe_ok"@) matches Some(ok) && ok.as_signed() == Some(s.probe_ok)
            &&& wb.get("probe_ts_ms"@) matches Some(at) && at.as_signed() == Some(s.probe_ts_ms)
        }),
{
    broadcast use crate::json::group_members;

    reveal_strlit("running");
    reveal_strlit("total_requests");
    reveal_strlit("inflight");
    reveal_strlit("active_uid");
    reveal_strlit("last_error");
    reveal_strlit("summary");
    reveal_strlit("accounts");
    reveal_strlit("wb");
    reveal_strlit("total_accounts");
    reveal_strlit("available");
    reveal_strlit("cooling");
    reveal_strlit("disabled");
    reveal_strlit("total_credits");
    reveal_strlit("general_credits");
    reveal_strlit("work_credits");
    reveal_strlit("enabled");
    reveal_strlit("model_cooldowns");
    reveal_strlit("sticky_sessions");
    reveal_strlit("probe_ok");
    reveal_strlit("probe_ts_ms");
    assert("running"@.len() == 7);
    assert("total_requests"@.len() == 14);
    assert("inflight"@.len() == 8);
    assert("active_uid"@.len() == 10);
    assert("last_error"@.len() == 10);
    assert("summary"@.len() == 7);
    assert("accounts"@.len() == 8);
    assert("wb"@.len() == 2);
    assert("total_accounts"@.len() == 14);
    assert("available"@.len() == 9);
    assert("cooling"@.len() == 7);
    assert("disabled"@.len() == 8);
    assert("total_credits"@.len() == 13);
    assert("general_credits"@.len() == 15);
    assert("work_credits"@.len() == 12);
    assert("enabled"@.len() == 7);
    assert("model_cooldowns"@.len() == 15);
    assert("sticky_sessions"@.len() == 15);
    assert("probe_ok"@.len() == 8);
    assert("probe_ts_ms"@.len() == 11);
    assert("running"@[0] != "summary"@[0]);
    assert("running"@[0] != "cooling"@[0]);
    assert("running"@[0] != "enabled"@[0]);
    assert("total_requests"@[6] != "total_accounts"@[6]);
    assert("inflight"@[0] != "accounts"@[0]);
    assert("inflight"@[0] != "disabled"@[0]);
    assert("inflight"@[0] != "probe_ok"@[0]);
    assert("active_uid"@[0] != "last_error"@[0]);
    assert("summary"@[0] != "cooling"@[0]);
    assert("summary"@[0] != "enabled"@[0]);
    assert("accounts"@[0] != "disabled"@[0]);
    assert("accounts"@[0] != "probe_ok"@[0]);
    assert("cooling"@[0] != "enabled"@[0]);
    assert("disabled"@[0] != "probe_ok"@[0]);
    assert("general_credits"@[0] != "model_cooldowns"@[0]);
    assert("general_credits"@[0] != "sticky_sessions"@[0]);
    assert("model_cooldowns"@[0] != "sticky_sessions"@[0]);
    assert forall|i: int| 0 <= i < s.accounts.len() implies (
    #[trigger] pool_routes::accounts_document(s.accounts, now)->Array_0[i]).text_at("uid"@) == Some(
        s.accounts[i].uid,
    ) by {
        law_an_account_is_shown_as_it_is(s.accounts[i], now);
    }
    assert forall|i: int| 0 <= i < s.wb_accounts.len() implies (
    #[trigger] pool_routes::wb_accounts_document(s.wb_accounts)->Array_0[i]).text_at("uid"@) == Some(
        s.wb_accounts[i].uid,
    ) by {
        law_an_account_is_shown_as_it_is(s.wb_accounts[i], now);
    }
}

/// Where Core rules, the status is for administrators, who are shown the
/// scheduler; where it does not, the pools are shown.
pub proof fn law_the_status_is_for_those_who_may_see_it(
    core: Option<CoreMode>,
    principal: Option<PrincipalView>,
    is_admin: bool,
    shown: Result<JsonView, SchedulerError>,
    pools: PoolStatusView,
    now: i64,
)
    ensures
        ({
            let answer = pool_routes::status_reply(core, principal, is_admin, shown, pools, now);
            let rules = core == Some(CoreMode::Enforce);
            &&& !rules ==> answer.status == 200 && answer.body == pool_routes::status_document(
                pools,
                now,
            )
            &&& rules && principal is None ==> text_chat_laws::is_error(answer, 401, "unauthorized"@)
            &&& rules && principal is Some && !is_admin ==> text_chat_laws::is_error(
                answer,
                403,
                "scheduler_admin_required"@,
            )
            &&& rules && principal is Some && is_admin ==> (match shown {
                Ok(document) => answer.status == 200 && answer.body.get("scheduler"@) == Some(
                    document,
                ) && answer.body.get("running"@) == Some(JsonView::Bool(true)),
                Err(error) => text_chat_laws::is_error(answer, 503, scheduler::code_of(error)),
            })
        }),
{
    broadcast use {crate::json::group_members, text_chat_laws::lemma_openai_error};

    reveal_strlit("running");
    reveal_strlit("scheduler");
    assert("running"@.len() == 7);
    assert("scheduler"@.len() == 9);
}

/// A model is shown as it is, with its capability, its endpoint, and the pools
/// that serve it in order.
pub proof fn law_a_model_is_shown_as_it_is(
    m: ModelView,
    owner: Seq<char>,
    capability: Seq<char>,
    endpoint: Seq<char>,
    later: bool,
)
    ensures
        ({
            let d = pool_routes::model_document(m, owner, capability, endpoint, later);
            &&& d.text_at("id"@) == Some(m.id) && d.text_at("object"@) == Some("model"@)
            &&& d.unsigned_at("created"@) == Some(1753600000u64)
            &&& d.text_at("owned_by"@) == Some(owner)
            &&& d.get("display"@) == Some(m.display) && d.get("rate"@) == Some(m.rate)
            &&& d.get("context_length"@) == Some(m.context_length)
            &&& d.get("max_tokens"@) == Some(m.max_tokens)
            &&& d.get("supports_image"@) == Some(m.supports_image)
            &&& d.get("supported_efforts"@) == Some(m.efforts)
            &&& d.get("capabilities"@) matches Some(JsonView::Array(capabilities))
            &&& capabilities.len() == 1 && capabilities[0] == JsonView::Text(capability)
            &&& d.text_at("endpoint"@) == Some(endpoint)
            &&& d.get("async"@) == Some(JsonView::Bool(later))
            &&& d.get("sources"@) matches Some(JsonView::Array(sources))
            &&& sources.len() == m.sources.len()
            &&& forall|i: int|
                0 <= i < sources.len() ==> #[trigger] sources[i] == m.sources[i].document
            &&& d.get("manual"@) == Some(m.manual)
        }),
{
    broadcast use crate::json::group_members;

    reveal_strlit("id");
    reveal_strlit("object");
    reveal_strlit("created");
    reveal_strlit("owned_by");
    reveal_strlit("display");
    reveal_strlit("rate");
    reveal_strlit("context_length");
    reveal_strlit("max_tokens");
    reveal_strlit("supports_image");
    reveal_strlit("supported_efforts");
    reveal_strlit("capabilities");
    reveal_strlit("endpoint");
    reveal_strlit("async");
    reveal_strlit("sources");
    reveal_strlit("manual");
    assert("id"@.len() == 2);
    assert("object"@.len() == 6);
    assert("created"@.len() == 7);
    assert("owned_by"@.len() == 8);
    assert("display"@.len() == 7);
    assert("rate"@.len() == 4);
    assert("context_length"@.len() == 14);
    assert("max_tokens"@.len() == 10);
    assert("supports_image"@.len() == 14);
    assert("supported_efforts"@.len() == 17);
    assert("capabilities"@.len() == 12);
    assert("endpoint"@.len() == 8);
    assert("async"@.len() == 5);
    assert("sources"@.len() == 7);
    assert("manual"@.len() == 6);
    assert("object"@[0] != "manual"@[0]);
    assert("created"@[0] != "display"@[0]);
    assert("created"@[0] != "sources"@[0]);
    assert("owned_by"@[0] != "endpoint"@[0]);
    assert("display"@[0] != "sources"@[0]);
    assert("context_length"@[0] != "supports_image"@[0]);
}

/// A text model is served at once by the chat endpoint, the video model later by
/// the video endpoint.
pub proof fn law_a_model_is_served_at_its_endpoint(m: ModelView)
    ensures
        ({
            let t = pool_routes::text_model(m);
            let v = pool_routes::video_model(m);
            &&& t.text_at("id"@) == Some(m.id) && v.text_at("id"@) == Some(m.id)
            &&& t.text_at("owned_by"@) == Some("unified"@) && v.text_at("owned_by"@) == Some(
                m.vendor,
            )
            &&& t.text_at("endpoint"@) == Some("/v1/chat/completions"@)
            &&& v.text_at("endpoint"@) == Some("/v1/videos/generations"@)
            &&& t.get("async"@) == Some(JsonView::Bool(false))
            &&& v.get("async"@) == Some(JsonView::Bool(true))
            &&& t.get("capabilities"@) matches Some(JsonView::Array(a)) && a[0] == JsonView::Text(
                "text"@,
            )
            &&& v.get("capabilities"@) matches Some(JsonView::Array(a)) && a[0] == JsonView::Text(
                "video"@,
            )
        }),
{
    law_a_model_is_shown_as_it_is(m, "unified"@, "text"@, "/v1/chat/completions"@, false);
    law_a_model_is_shown_as_it_is(m, m.vendor, "video"@, "/v1/videos/generations"@, true);
}

/// The list of models ends with the video model. Before it stand, in order, the
/// text models: all of them where the second pool is in use, and else those that
/// another pool serves too.
pub proof fn law_a_served_model_is_listed(
    models: Seq<ModelView>,
    seedance: ModelView,
    wb_enabled: bool,
    n: nat,
)
    requires
        n < models.len(),
    ensures
        ({
            let before = pool_routes::served_models(models, wb_enabled, n);
            let after = pool_routes::served_models(models, wb_enabled, n + 1);
            let elsewhere = exists|i: int|
                0 <= i < models[n as int].sources.len() && (
                #[trigger] models[n as int].sources[i]).pool != "buddy"@;
            &&& wb_enabled || elsewhere ==> after == before.push(
                pool_routes::text_model(models[n as int]),
            )
            &&& !wb_enabled && !elsewhere ==> after == before
        }),
        pool_routes::served_models(models, wb_enabled, 0).len() == 0,
        ({
            let list = pool_routes::model_list(models, seedance, wb_enabled);
            let texts = pool_routes::served_models(models, wb_enabled, models.len());
            &&& list.text_at("object"@) == Some("list"@)
            &&& list.get("data"@) matches Some(JsonView::Array(data))
            &&& data.len() == texts.len() + 1
            &&& data.last() == pool_routes::video_model(seedance)
            &&& data.drop_last() =~= texts
        }),
{
    broadcast use crate::json::group_members;

    reveal_strlit("object");
    reveal_strlit("data");
    assert("object"@.len() == 6);
    assert("data"@.len() == 4);
}

/// The models are listed for whom Core lets read them, and for everyone where
/// Core does not rule.
pub proof fn law_the_models_are_for_those_who_may_read_them(
    core: Option<CoreMode>,
    principal: Option<PrincipalView>,
    scoped: bool,
    models: Seq<ModelView>,
    seedance: ModelView,
    wb_enabled: bool,
)
    ensures
        ({
            let answer = pool_routes::models_reply(
                core,
                principal,
                scoped,
                models,
                seedance,
                wb_enabled,
            );
            let rules = core == Some(CoreMode::Enforce);
            &&& rules && principal is None ==> text_chat_laws::is_error(answer, 401, "unauthorized"@)
            &&& rules && principal is Some && !scoped ==> text_chat_laws::is_error(
                answer,
                403,
                "insufficient_scope"@,
            )
            &&& !rules || (principal is Some && scoped) ==> answer.status == 200 && answer.body
                == pool_routes::model_list(models, seedance, wb_enabled)
        }),
{
    broadcast use text_chat_laws::lemma_openai_error;

}

/// A request is served by the model that its name stands for; a task in the
/// background by the cheapest one, where that is wanted. The effort stays.
pub proof fn law_a_request_is_served_by_its_model(
    resolved: WbTargetView,
    in_catalogue: bool,
    downgrade: bool,
    background: bool,
    cheapest: Option<Seq<char>>,
)
    ensures
        ({
            let target = pool_routes::wb_target(
                resolved,
                in_catalogue,
                downgrade,
                background,
                cheapest,
            );
            &&& target is Some == in_catalogue
            &&& target matches Some(t) ==> {
                &&& t.effort_hint == resolved.effort_hint
                &&& !downgrade || !background || cheapest is None ==> t.model == resolved.model
                &&& downgrade && background && cheapest is Some ==> Some(t.model) == cheapest
            }
        }),
{
}

/// The endpoint is served: by that method, under that path, with that limit.
pub open spec fn serves(
    path: Seq<char>,
    method: Method,
    handler: Handler,
    body_limit: Option<usize>,
) -> bool {
    server::endpoints().contains(RouteView { path, method, handler, body_limit })
}

/// The gateway serves the endpoints that its clients know, and no two alike.
pub proof fn law_the_endpoints_are_served()
    ensures
        serves("/health"@, Method::Get, Handler::Health, None),
        serves("/healthz"@, Method::Get, Handler::Healthz, None),
        serves("/status"@, Method::Get, Handler::Status, None),
        serves("/v1/models"@, Method::Get, Handler::Models, None),
        serves("/v1/usage"@, Method::Get, Handler::Usage, None),
        serves("/v1/chat/completions"@, Method::Post, Handler::ChatCompletions, None),
        serves("/v1/completions"@, Method::Post, Handler::Completions, None),
        serves("/v1/embeddings"@, Method::Post, Handler::Embeddings, None),
        serves("/v1/messages"@, Method::Post, Handler::Messages, None),
        serves("/v1/responses"@, Method::Post, Handler::Responses, None),
        serves("/v1/images/generations"@, Method::Post, Handler::ImagesGenerations, None),
        serves("/v1/images/edits"@, Method::Post, Handler::ImagesEdits, None),
        serves("/v1/assets"@, Method::Post, Handler::AssetsUpload, Some(48234496)),
        serves("/v1/assets/:asset_id/content"@, Method::Get, Handler::AssetsContent, None),
        serves("/internal/bridge/status"@, Method::Get, Handler::BridgeStatus, None),
        serves("/internal/bridge/models"@, Method::Get, Handler::BridgeModels, None),
        serves("/internal/bridge/summary"@, Method::Get, Handler::BridgeSummary, None),
        serves("/internal/bridge/quotes"@, Method::Post, Handler::BridgeQuote, None),
        serves(
            "/internal/bridge/key-registry"@,
            Method::Put,
            Handler::BridgeKeyRegistry,
            Some(8388608),
        ),
        serves("/internal/bridge/key-usage"@, Method::Get, Handler::BridgeKeyUsage, None),
        serves(
            "/internal/bridge/requests/:request_id/billing"@,
            Method::Get,
            Handler::BridgeBilling,
            None,
        ),
        serves(
            "/internal/bridge/requests/:request_id/billing/finalize"@,
            Method::Post,
            Handler::BridgeFinalizeVideo,
            None,
        ),
        serves(
            "/internal/bridge/requests/:request_id/billing/finalize-chat"@,
            Method::Post,
            Handler::BridgeFinalizeChat,
            None,
        ),
        serves("/v1/videos/generations"@, Method::Post, Handler::VideosGenerations, None),
        serves("/v1/videos/:task_id"@, Method::Get, Handler::VideoTask, None),
        serves("/v1/videos/:task_id/cancel"@, Method::Post, Handler::VideoCancel, None),
        serves("/v1/videos/:task_id/content"@, Method::Get, Handler::VideoContent, None),
        server::endpoints().len() == 27,
        forall|i: int, j: int|
            0 <= i < j < 27 ==> (#[trigger] server::endpoints()[i]).handler != (
            #[trigger] server::endpoints()[j]).handler,
{
    let all = server::endpoints();
    assert(all.contains(all[0]));
    assert(all.contains(all[1]));
    assert(all.contains(all[2]));
    assert(all.contains(all[3]));
    assert(all.contains(all[4]));
    assert(all.contains(all[5]));
    assert(all.contains(all[6]));
    assert(all.contains(all[7]));
    assert(all.contains(all[8]));
    assert(all.contains(all[9]));
    assert(all.contains(all[10]));
    assert(all.contains(all[11]));
    assert(all.contains(all[12]));
    assert(all.contains(all[13]));
    assert(all.contains(all[14]));
    assert(all.contains(all[15]));
    assert(all.contains(all[16]));
    assert(all.contains(all[17]));
    assert(all.contains(all[18]));
    assert(all.contains(all[19]));
    assert(all.contains(all[20]));
    assert(all.contains(all[21]));
    assert(all.contains(all[22]));
    assert(all.contains(all[23]));
    assert(all.contains(all[24]));
    assert(all.contains(all[25]));
    assert(all.contains(all[26]));
}

/// A request is logged under the path of the endpoint that serves it.
pub proof fn law_a_protocol_has_its_endpoint(protocol: Protocol)
    ensures
        serves(
            reply::protocol_path(protocol),
            Method::Post,
            (match protocol {
                Protocol::OpenAi => Handler::ChatCompletions,
                Protocol::OpenAiText => Handler::Completions,
                Protocol::Anthropic => Handler::Messages,
                Protocol::Responses => Handler::Responses,
            }),
            None,
        ),
{
    law_the_endpoints_are_served();
}

/// Any answer to a probe shows that the upstream lives.
pub proof fn law_any_answer_shows_life(status: u16)
    ensures
        server::is_alive(Probe::Answered),
        server::is_alive(Probe::Refused(status)),
        !server::is_alive(Probe::Unreachable),
{
}

} // verus!
