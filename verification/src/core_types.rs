//! What the gateway sees of Core, the ledger of users, quotas, leases and jobs.
//!
//! Core itself is a service of its own. Its values stand here as far as the
//! gateway's rules read them.

use crate::json::{Json, JsonView};
use crate::text;
use vstd::prelude::*;

verus! {

/// How far Core rules the gateway.
#[derive(Clone, Copy, Debug, PartialEq, Eq, Structural)]
pub enum CoreMode {
    Off,
    Shadow,
    Enforce,
}

/// An authenticated caller.
#[derive(Debug, PartialEq, Eq)]
pub struct Principal {
    pub user_id: String,
    pub key_id: String,
}

/// The model of a [`Principal`].
pub struct PrincipalView {
    pub user_id: Seq<char>,
    pub key_id: Seq<char>,
}

impl View for Principal {
    type V = PrincipalView;

    open spec fn view(&self) -> PrincipalView {
        PrincipalView { user_id: self.user_id@, key_id: self.key_id@ }
    }
}

impl Clone for Principal {
    fn clone(&self) -> (r: Principal)
        ensures
            r == *self,
    {
        Principal { user_id: self.user_id.clone(), key_id: self.key_id.clone() }
    }
}

/// The model of an optional caller.
pub open spec fn opt_principal(principal: Option<Principal>) -> Option<PrincipalView> {
    match principal {
        Some(principal) => Some(principal@),
        None => None,
    }
}

/// How far a request has come. `Open` is any state before an outcome.
#[derive(Clone, Copy, Debug, PartialEq, Eq, Structural)]
pub enum RequestState {
    Open,
    Settled,
    Succeeded,
    Failed,
    Unknown,
}

/// How far a lease has come. `Other` is any state that no rule reads.
#[derive(Clone, Copy, Debug, PartialEq, Eq, Structural)]
pub enum LeaseState {
    Succeeded,
    Unknown,
    Other,
}

/// How far a job has come.
#[derive(Clone, Copy, Debug, PartialEq, Eq, Structural)]
pub enum JobState {
    Created,
    Queued,
    Running,
    CancelRequested,
    Canceled,
    Succeeded,
    Failed,
    Unknown,
}

/// An error of Core. The errors that no rule tells apart carry their text.
#[derive(Debug, PartialEq, Eq)]
pub enum CoreError {
    MissingScope(String),
    BudgetPolicyMissing,
    QuotaInsufficient,
    KeyQuotaNotConfigured,
    QuotaMigrationPending,
    IdempotencyConflict,
    InvalidRequestIdentity,
    CoreModeNotEnforcing,
    RequestNotFound(String),
    AdminRequired(String),
    Other(String),
}

/// The model of a [`CoreError`].
pub enum CoreErrorView {
    MissingScope(Seq<char>),
    BudgetPolicyMissing,
    QuotaInsufficient,
    KeyQuotaNotConfigured,
    QuotaMigrationPending,
    IdempotencyConflict,
    InvalidRequestIdentity,
    CoreModeNotEnforcing,
    RequestNotFound(Seq<char>),
    AdminRequired(Seq<char>),
    Other(Seq<char>),
}

impl View for CoreError {
    type V = CoreErrorView;

    open spec fn view(&self) -> CoreErrorView {
        match self {
            CoreError::MissingScope(scope) => CoreErrorView::MissingScope(scope@),
            CoreError::BudgetPolicyMissing => CoreErrorView::BudgetPolicyMissing,
            CoreError::QuotaInsufficient => CoreErrorView::QuotaInsufficient,
            CoreError::KeyQuotaNotConfigured => CoreErrorView::KeyQuotaNotConfigured,
            CoreError::QuotaMigrationPending => CoreErrorView::QuotaMigrationPending,
            CoreError::IdempotencyConflict => CoreErrorView::IdempotencyConflict,
            CoreError::InvalidRequestIdentity => CoreErrorView::InvalidRequestIdentity,
            CoreError::CoreModeNotEnforcing => CoreErrorView::CoreModeNotEnforcing,
            CoreError::RequestNotFound(text) => CoreErrorView::RequestNotFound(text@),
            CoreError::AdminRequired(text) => CoreErrorView::AdminRequired(text@),
            CoreError::Other(text) => CoreErrorView::Other(text@),
        }
    }
}

/// Why no upstream account was leased.
#[derive(Debug, PartialEq, Eq)]
pub enum ScheduleError {
    NoFreshObservation,
    NoUpstreamCapacity,
    CapabilityMismatch,
    AccountCooling,
    MissingScope(String),
    InvalidRequestIdentity,
    IdempotencyConflict,
    Core(CoreError),
    Other,
}

/// The model of a [`ScheduleError`].
pub enum ScheduleErrorView {
    NoFreshObservation,
    NoUpstreamCapacity,
    CapabilityMismatch,
    AccountCooling,
    MissingScope(Seq<char>),
    InvalidRequestIdentity,
    IdempotencyConflict,
    Core(CoreErrorView),
    Other,
}

impl View for ScheduleError {
    type V = ScheduleErrorView;

    open spec fn view(&self) -> ScheduleErrorView {
        match self {
            ScheduleError::NoFreshObservation => ScheduleErrorView::NoFreshObservation,
            ScheduleError::NoUpstreamCapacity => ScheduleErrorView::NoUpstreamCapacity,
            ScheduleError::CapabilityMismatch => ScheduleErrorView::CapabilityMismatch,
            ScheduleError::AccountCooling => ScheduleErrorView::AccountCooling,
            ScheduleError::MissingScope(scope) => ScheduleErrorView::MissingScope(scope@),
            ScheduleError::InvalidRequestIdentity => ScheduleErrorView::InvalidRequestIdentity,
            ScheduleError::IdempotencyConflict => ScheduleErrorView::IdempotencyConflict,
            ScheduleError::Core(error) => ScheduleErrorView::Core(error@),
            ScheduleError::Other => ScheduleErrorView::Other,
        }
    }
}

/// Why a request was not admitted to an upstream account.
#[derive(Debug, PartialEq, Eq)]
pub enum CoreLeaseError {
    EndpointNotEnabled,
    Core(CoreError),
    Schedule(ScheduleError),
}

/// The model of a [`CoreLeaseError`].
pub enum LeaseErrorView {
    EndpointNotEnabled,
    Core(CoreErrorView),
    Schedule(ScheduleErrorView),
}

impl View for CoreLeaseError {
    type V = LeaseErrorView;

    open spec fn view(&self) -> LeaseErrorView {
        match self {
            CoreLeaseError::EndpointNotEnabled => LeaseErrorView::EndpointNotEnabled,
            CoreLeaseError::Core(error) => LeaseErrorView::Core(error@),
            CoreLeaseError::Schedule(error) => LeaseErrorView::Schedule(error@),
        }
    }
}

/// The recorded outcome of a request.
#[derive(Debug, PartialEq, Eq)]
pub struct RequestResult {
    pub status: Option<u16>,
    pub error_code: Option<String>,
}

/// The model of a [`RequestResult`].
pub struct RequestResultView {
    pub status: Option<u16>,
    pub error_code: Option<Seq<char>>,
}

impl View for RequestResult {
    type V = RequestResultView;

    open spec fn view(&self) -> RequestResultView {
        RequestResultView { status: self.status, error_code: text::opt_view(self.error_code) }
    }
}

/// The model of an optional outcome.
pub open spec fn opt_result(result: Option<RequestResult>) -> Option<RequestResultView> {
    match result {
        Some(result) => Some(result@),
        None => None,
    }
}

/// What became of a chat request at a leased account.
#[derive(Debug, PartialEq, Eq)]
pub enum UpstreamOutcome {
    Success { body: Json, actual_units: Option<i64>, upstream_request_ref: Option<String> },
    TransportUnknown { reason: String, upstream_request_ref: Option<String> },
    Rejected { status: u16, code: String, accepted: bool },
}

/// The model of an [`UpstreamOutcome`].
pub enum OutcomeView {
    Success {
        body: JsonView,
        actual_units: Option<i64>,
        upstream_request_ref: Option<Seq<char>>,
    },
    TransportUnknown { reason: Seq<char>, upstream_request_ref: Option<Seq<char>> },
    Rejected { status: u16, code: Seq<char>, accepted: bool },
}

impl View for UpstreamOutcome {
    type V = OutcomeView;

    open spec fn view(&self) -> OutcomeView {
        match self {
            UpstreamOutcome::Success { body, actual_units, upstream_request_ref } =>
                OutcomeView::Success {
                    body: body@,
                    actual_units: *actual_units,
                    upstream_request_ref: text::opt_view(*upstream_request_ref),
                },
            UpstreamOutcome::TransportUnknown { reason, upstream_request_ref } =>
                OutcomeView::TransportUnknown {
                    reason: reason@,
                    upstream_request_ref: text::opt_view(*upstream_request_ref),
                },
            UpstreamOutcome::Rejected { status, code, accepted } => OutcomeView::Rejected {
                status: *status,
                code: code@,
                accepted: *accepted,
            },
        }
    }
}

/// What a reservation of a chat request is settled with.
#[derive(Clone, Copy, Debug, PartialEq, Eq, Structural)]
pub enum ChatOutcome {
    /// The request was served: the status, and the amount it took, where the
    /// answer says it.
    Success(u16, Option<i64>),
    /// What became of the request is unknown.
    Disconnected,
    /// The upstream refused the request.
    Rejected(u16),
}

/// What became of a video at an adapter.
#[allow(inconsistent_fields)]
#[derive(Debug, PartialEq, Eq)]
pub enum VideoAdapterOutcome {
    Accepted { upstream_request_ref: String },
    Succeeded {
        actual_units: Option<i64>,
        upstream_request_ref: Option<String>,
        output_ref: Option<String>,
        artifact_ref: Option<String>,
    },
    Canceled { upstream_request_ref: Option<String> },
    TransportUnknown { reason: String, upstream_request_ref: Option<String> },
    Rejected { status: u16, code: String, accepted: bool },
}

/// The model of a [`VideoAdapterOutcome`].
#[allow(inconsistent_fields)]
pub enum VideoOutcomeView {
    Accepted { upstream_request_ref: Seq<char> },
    Succeeded {
        actual_units: Option<i64>,
        upstream_request_ref: Option<Seq<char>>,
        output_ref: Option<Seq<char>>,
        artifact_ref: Option<Seq<char>>,
    },
    Canceled { upstream_request_ref: Option<Seq<char>> },
    TransportUnknown { reason: Seq<char>, upstream_request_ref: Option<Seq<char>> },
    Rejected { status: u16, code: Seq<char>, accepted: bool },
}

impl View for VideoAdapterOutcome {
    type V = VideoOutcomeView;

    open spec fn view(&self) -> VideoOutcomeView {
        match self {
            VideoAdapterOutcome::Accepted { upstream_request_ref } => VideoOutcomeView::Accepted {
                upstream_request_ref: upstream_request_ref@,
            },
            VideoAdapterOutcome::Succeeded {
                actual_units,
                upstream_request_ref,
                output_ref,
                artifact_ref,
            } => VideoOutcomeView::Succeeded {
                actual_units: *actual_units,
                upstream_request_ref: text::opt_view(*upstream_request_ref),
                output_ref: text::opt_view(*output_ref),
                artifact_ref: text::opt_view(*artifact_ref),
            },
            VideoAdapterOutcome::Canceled { upstream_request_ref } => VideoOutcomeView::Canceled {
                upstream_request_ref: text::opt_view(*upstream_request_ref),
            },
            VideoAdapterOutcome::TransportUnknown { reason, upstream_request_ref } =>
                VideoOutcomeView::TransportUnknown {
                    reason: reason@,
                    upstream_request_ref: text::opt_view(*upstream_request_ref),
                },
            VideoAdapterOutcome::Rejected { status, code, accepted } =>
                VideoOutcomeView::Rejected { status: *status, code: code@, accepted: *accepted },
        }
    }
}

impl VideoAdapterOutcome {
    /// A copy.
    pub fn dup(&self) -> (r: VideoAdapterOutcome)
        ensures
            r@ == self@,
    {
        match self {
            VideoAdapterOutcome::Accepted { upstream_request_ref } =>
                VideoAdapterOutcome::Accepted {
                    upstream_request_ref: upstream_request_ref.clone(),
                },
            VideoAdapterOutcome::Succeeded {
                actual_units,
                upstream_request_ref,
                output_ref,
                artifact_ref,
            } => VideoAdapterOutcome::Succeeded {
                actual_units: *actual_units,
                upstream_request_ref: text::dup_opt(upstream_request_ref),
                output_ref: text::dup_opt(output_ref),
                artifact_ref: text::dup_opt(artifact_ref),
            },
            VideoAdapterOutcome::Canceled { upstream_request_ref } =>
                VideoAdapterOutcome::Canceled {
                    upstream_request_ref: text::dup_opt(upstream_request_ref),
                },
            VideoAdapterOutcome::TransportUnknown { reason, upstream_request_ref } =>
                VideoAdapterOutcome::TransportUnknown {
                    reason: reason.clone(),
                    upstream_request_ref: text::dup_opt(upstream_request_ref),
                },
            VideoAdapterOutcome::Rejected { status, code, accepted } =>
                VideoAdapterOutcome::Rejected {
                    status: *status,
                    code: code.clone(),
                    accepted: *accepted,
                },
        }
    }
}

/// What became of the cancellation of a video.
#[derive(Debug, PartialEq, Eq)]
pub enum VideoCancelOutcome {
    Confirmed { upstream_request_ref: Option<String> },
    Unsupported,
    Unknown { reason: String, upstream_request_ref: Option<String> },
}

/// The model of a [`VideoCancelOutcome`].
pub enum CancelView {
    Confirmed { upstream_request_ref: Option<Seq<char>> },
    Unsupported,
    Unknown { reason: Seq<char>, upstream_request_ref: Option<Seq<char>> },
}

impl View for VideoCancelOutcome {
    type V = CancelView;

    open spec fn view(&self) -> CancelView {
        match self {
            VideoCancelOutcome::Confirmed { upstream_request_ref } => CancelView::Confirmed {
                upstream_request_ref: text::opt_view(*upstream_request_ref),
            },
            VideoCancelOutcome::Unsupported => CancelView::Unsupported,
            VideoCancelOutcome::Unknown { reason, upstream_request_ref } => CancelView::Unknown {
                reason: reason@,
                upstream_request_ref: text::opt_view(*upstream_request_ref),
            },
        }
    }
}

/// A video job.
#[derive(Debug, PartialEq, Eq)]
pub struct CoreJob {
    pub id: String,
    pub user_id: String,
    pub request_id: String,
    pub model: String,
    pub state: JobState,
    pub input_hash: Vec<u8>,
    pub created_at_ms: i64,
    pub updated_at_ms: i64,
    pub error_code: Option<String>,
    pub reconcile_required: bool,
    pub artifact_ref: Option<String>,
}

/// The model of a [`CoreJob`].
pub struct JobView {
    pub id: Seq<char>,
    pub user_id: Seq<char>,
    pub request_id: Seq<char>,
    pub model: Seq<char>,
    pub state: JobState,
    pub input_hash: Seq<u8>,
    pub created_at_ms: i64,
    pub updated_at_ms: i64,
    pub error_code: Option<Seq<char>>,
    pub reconcile_required: bool,
    pub artifact_ref: Option<Seq<char>>,
}

impl View for CoreJob {
    type V = JobView;

    open spec fn view(&self) -> JobView {
        JobView {
            id: self.id@,
            user_id: self.user_id@,
            request_id: self.request_id@,
            model: self.model@,
            state: self.state,
            input_hash: self.input_hash@,
            created_at_ms: self.created_at_ms,
            updated_at_ms: self.updated_at_ms,
            error_code: text::opt_view(self.error_code),
            reconcile_required: self.reconcile_required,
            artifact_ref: text::opt_view(self.artifact_ref),
        }
    }
}

} // verus!
