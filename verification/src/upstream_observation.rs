//! What is known of the balance of an account, and how fresh it is.

use crate::json::{Json, JsonView};
use crate::reply;
use crate::table::{self, Table};
use crate::text;
use vstd::prelude::*;

verus! {

/// Why an account could not be observed.
#[derive(Clone, Copy, Debug, PartialEq, Eq, Structural)]
pub enum ObservationError {
    Unavailable,
}

/// A balance in hundredths.
#[derive(Clone, Copy, Debug, PartialEq, Eq, Structural)]
pub enum Units {
    /// No balance is known.
    Missing,
    /// The balance is negative, not finite, or does not fit.
    Unfit,
    Known(i64),
}

impl View for Units {
    type V = Units;

    open spec fn view(&self) -> Units {
        *self
    }
}

/// The account and the resource to be observed.
#[derive(Debug, PartialEq, Eq)]
pub struct ObservationRequest {
    pub account_ref: String,
    pub provider: String,
    pub resource_kind: String,
}

/// The model of an [`ObservationRequest`].
pub struct RequestView {
    pub account_ref: Seq<char>,
    pub provider: Seq<char>,
    pub resource_kind: Seq<char>,
}

impl View for ObservationRequest {
    type V = RequestView;

    open spec fn view(&self) -> RequestView {
        RequestView {
            account_ref: self.account_ref@,
            provider: self.provider@,
            resource_kind: self.resource_kind@,
        }
    }
}

/// An observation of an account.
#[derive(Debug, PartialEq, Eq)]
pub struct ObservationSnapshot {
    pub account_ref: String,
    pub resource_kind: String,
    pub available_units: Option<i64>,
    pub value_scale: i64,
    pub source: String,
    pub observed_at_ms: i64,
    pub stale_at_ms: i64,
    pub capabilities: Vec<String>,
    pub region: Option<String>,
    pub summary: Json,
}

/// The model of an [`ObservationSnapshot`].
pub struct SnapshotView {
    pub account_ref: Seq<char>,
    pub resource_kind: Seq<char>,
    pub available_units: Option<i64>,
    pub value_scale: i64,
    pub source: Seq<char>,
    pub observed_at_ms: i64,
    pub stale_at_ms: i64,
    pub capabilities: Seq<Seq<char>>,
    pub region: Option<Seq<char>>,
    pub summary: JsonView,
}

impl View for ObservationSnapshot {
    type V = SnapshotView;

    open spec fn view(&self) -> SnapshotView {
        SnapshotView {
            account_ref: self.account_ref@,
            resource_kind: self.resource_kind@,
            available_units: self.available_units,
            value_scale: self.value_scale,
            source: self.source@,
            observed_at_ms: self.observed_at_ms,
            stale_at_ms: self.stale_at_ms,
            capabilities: text::views(self.capabilities@),
            region: text::opt_view(self.region),
            summary: self.summary@,
        }
    }
}

/// The model of an observation, or of its failure.
pub open spec fn snapshot_view(r: Result<ObservationSnapshot, ObservationError>) -> Result<
    SnapshotView,
    ObservationError,
> {
    match r {
        Ok(snapshot) => Ok(snapshot@),
        Err(error) => Err(error),
    }
}

/// The capabilities of an account whose balance is for chat.
pub open spec fn chat_only() -> Seq<Seq<char>> {
    Seq::empty().push("chat"@)
}

/// The capabilities of an account whose balance is for chat.
pub fn chat_capabilities() -> (r: Vec<String>)
    ensures
        text::views(r@) == chat_only(),
{
    let mut r: Vec<String> = Vec::new();
    r.push("chat".to_owned());
    assert(text::views(r@) =~= chat_only());
    r
}

/// When an entitlement that ends at `expires_at_ms` is no longer fresh.
pub open spec fn stale_at(expires_at_ms: i64, observed_at_ms: i64) -> i64 {
    if expires_at_ms > observed_at_ms {
        expires_at_ms
    } else {
        observed_at_ms
    }
}

/// An observation of an entitlement.
pub open spec fn trae_snapshot(
    account_ref: Seq<char>,
    resource_kind: Seq<char>,
    units: i64,
    expires_at_ms: i64,
    observed_at_ms: i64,
) -> SnapshotView {
    let stale_at_ms = stale_at(expires_at_ms, observed_at_ms);
    SnapshotView {
        account_ref,
        resource_kind,
        available_units: Some(units),
        value_scale: 100,
        source: "reader"@,
        observed_at_ms,
        stale_at_ms,
        capabilities: chat_only(),
        region: Some("cn"@),
        summary: JsonView::object().member("available"@, reply::signed_json(units)).member(
            "expires_at_ms"@,
            reply::signed_json(stale_at_ms),
        ).member("value_scale"@, JsonView::Number(crate::json::number(100))).member(
            "source"@,
            JsonView::Text("reader"@),
        ).member("resource_kind"@, JsonView::Text(resource_kind)).member(
            "observation_kind"@,
            JsonView::Text("trae_entitlement"@),
        ),
    }
}

/// An observation of a cached balance. It is stale from the start.
pub open spec fn cache_snapshot(
    account_ref: Seq<char>,
    resource_kind: Seq<char>,
    units: Option<i64>,
    observed_at_ms: i64,
    region: Option<Seq<char>>,
) -> SnapshotView {
    let head = JsonView::object().member(
        "value_scale"@,
        JsonView::Number(crate::json::number(100)),
    ).member("source"@, JsonView::Text("json_cache"@)).member(
        "resource_kind"@,
        JsonView::Text(resource_kind),
    ).member("status"@, JsonView::Text("stale"@)).member(
        "observation_kind"@,
        JsonView::Text("workbuddy_cache"@),
    );
    SnapshotView {
        account_ref,
        resource_kind,
        available_units: units,
        value_scale: 100,
        source: "json_cache"@,
        observed_at_ms,
        stale_at_ms: observed_at_ms,
        capabilities: chat_only(),
        region,
        summary: match units {
            Some(units) => head.member("available"@, reply::signed_json(units)),
            None => head,
        },
    }
}

/// Reads balances for Core. It holds no credentials and writes nothing.
#[derive(Debug)]
pub struct TauriObservationReader {
    pub observed_at_ms: i64,
}

/// The places where balances are found.
#[derive(Clone, Copy, Debug, PartialEq, Eq, Structural)]
pub enum Source {
    Trae,
    WorkBuddy,
}

/// Where the balances of a provider are found.
pub open spec fn source_of(provider: Seq<char>) -> Option<Source> {
    if provider == "trae"@ {
        Some(Source::Trae)
    } else if provider == "workbuddy"@ {
        Some(Source::WorkBuddy)
    } else {
        None
    }
}

impl TauriObservationReader {
    /// A reader at that time.
    pub fn new(observed_at_ms: i64) -> (r: TauriObservationReader)
        ensures
            r.observed_at_ms == observed_at_ms,
    {
        TauriObservationReader { observed_at_ms }
    }

    /// An observation of an entitlement, if its balance is known.
    pub fn snapshot_from_trae_values(
        account_ref: &str,
        resource_kind: &str,
        available: Units,
        expires_at_ms: i64,
        observed_at_ms: i64,
    ) -> (r: Result<ObservationSnapshot, ObservationError>)
        ensures
            snapshot_view(r) == (match available {
                Units::Known(units) => Ok::<_, ObservationError>(
                    trae_snapshot(
                        account_ref@,
                        resource_kind@,
                        units,
                        expires_at_ms,
                        observed_at_ms,
                    ),
                ),
                _ => Err(ObservationError::Unavailable),
            }),
    {
        let units: i64 = match available {
            Units::Known(units) => units,
            _ => {
                return Err(ObservationError::Unavailable);
            },
        };
        let stale_at_ms: i64 = if expires_at_ms > observed_at_ms {
            expires_at_ms
        } else {
            observed_at_ms
        };
        let summary = Json::object().member("available", reply::signed_number(units)).member(
            "expires_at_ms",
            reply::signed_number(stale_at_ms),
        ).member("value_scale", Json::unsigned(100)).member(
            "source",
            Json::text("reader"),
        ).member("resource_kind", Json::text(resource_kind)).member(
            "observation_kind",
            Json::text("trae_entitlement"),
        );
        Ok(
            ObservationSnapshot {
                account_ref: account_ref.to_owned(),
                resource_kind: resource_kind.to_owned(),
                available_units: Some(units),
                value_scale: 100,
                source: "reader".to_owned(),
                observed_at_ms,
                stale_at_ms,
                capabilities: chat_capabilities(),
                region: Some("cn".to_owned()),
                summary,
            },
        )
    }

    /// An observation of a cached balance, unless the balance is unfit.
    pub fn snapshot_from_workbuddy_cache(
        account_ref: &str,
        resource_kind: &str,
        available: Units,
        observed_at_ms: i64,
        region: Option<&str>,
    ) -> (r: Result<ObservationSnapshot, ObservationError>)
        ensures
            snapshot_view(r) == ({
                let region = match region {
                    Some(region) => Some(region@),
                    None => None,
                };
                match available {
                    Units::Known(units) => Ok::<_, ObservationError>(
                        cache_snapshot(
                            account_ref@,
                            resource_kind@,
                            Some(units),
                            observed_at_ms,
                            region,
                        ),
                    ),
                    Units::Missing => Ok(
                        cache_snapshot(account_ref@, resource_kind@, None, observed_at_ms, region),
                    ),
                    Units::Unfit => Err(ObservationError::Unavailable),
                }
            }),
    {
        let available_units = match available {
            Units::Known(units) => Some(units),
            Units::Missing => None,
            Units::Unfit => {
                return Err(ObservationError::Unavailable);
            },
        };
        let head = Json::object().member("value_scale", Json::unsigned(100)).member(
            "source",
            Json::text("json_cache"),
        ).member("resource_kind", Json::text(resource_kind)).member(
            "status",
            Json::text("stale"),
        ).member("observation_kind", Json::text("workbuddy_cache"));
        let summary = match available_units {
            Some(units) => head.member("available", reply::signed_number(units)),
            None => head,
        };
        Ok(
            ObservationSnapshot {
                account_ref: account_ref.to_owned(),
                resource_kind: resource_kind.to_owned(),
                available_units,
                value_scale: 100,
                source: "json_cache".to_owned(),
                observed_at_ms,
                stale_at_ms: observed_at_ms,
                capabilities: chat_capabilities(),
                region: match region {
                    Some(region) => Some(region.to_owned()),
                    None => None,
                },
                summary,
            },
        )
    }

    /// Where the balance of a request is found.
    pub fn read(&self, request: &ObservationRequest) -> (r: Result<Source, ObservationError>)
        ensures
            r == (match source_of(request@.provider) {
                Some(source) => Ok::<Source, ObservationError>(source),
                None => Err(ObservationError::Unavailable),
            }),
    {
        if text::same(request.provider.as_str(), "trae") {
            Ok(Source::Trae)
        } else if text::same(request.provider.as_str(), "workbuddy") {
            Ok(Source::WorkBuddy)
        } else {
            Err(ObservationError::Unavailable)
        }
    }
}

/// The request under the name by which the account is known outside Core.
pub fn adapter_request(ids: &Table<String>, request: ObservationRequest) -> (r: Result<
    ObservationRequest,
    ObservationError,
>)
    ensures
        (match r {
            Ok(request) => Ok::<RequestView, ObservationError>(request@),
            Err(error) => Err(error),
        }) == (match table::find(ids@, request@.account_ref) {
            Some(id) => Ok::<RequestView, ObservationError>(
                RequestView { account_ref: id, ..request@ },
            ),
            None => Err(ObservationError::Unavailable),
        }),
{
    match ids.get(request.account_ref.as_str()) {
        Some(id) => Ok(ObservationRequest { account_ref: id.clone(), ..request }),
        None => Err(ObservationError::Unavailable),
    }
}

/// The observation under the name by which Core knows the account.
pub fn under_core_reference(snapshot: ObservationSnapshot, account_ref: String) -> (r:
    ObservationSnapshot)
    ensures
        r@ == (SnapshotView { account_ref: account_ref@, ..snapshot@ }),
{
    ObservationSnapshot { account_ref, ..snapshot }
}

/// A cached balance is never fresh: it is stale when it is observed.
pub proof fn law_a_cached_balance_is_never_fresh(
    account_ref: Seq<char>,
    resource_kind: Seq<char>,
    units: Option<i64>,
    observed_at_ms: i64,
    region: Option<Seq<char>>,
)
    ensures
        cache_snapshot(account_ref, resource_kind, units, observed_at_ms, region).stale_at_ms
            == observed_at_ms,
        cache_snapshot(account_ref, resource_kind, units, observed_at_ms, region).source
            != "reader"@,
{
    reveal_strlit("reader");
    reveal_strlit("json_cache");
    assert("reader"@.len() != "json_cache"@.len());
}

} // verus!
