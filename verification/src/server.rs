//! The server: its endpoints, where it listens, and what it does beside
//! answering requests.

use crate::text;
use vstd::prelude::*;

verus! {

/// The methods of the endpoints.
#[derive(Clone, Copy, Debug, PartialEq, Eq, Structural)]
pub enum Method {
    Get,
    Post,
    Put,
}

/// What serves an endpoint.
#[derive(Clone, Copy, Debug, PartialEq, Eq, Structural)]
pub enum Handler {
    Health,
    Healthz,
    Status,
    Models,
    Usage,
    ChatCompletions,
    Completions,
    Embeddings,
    Messages,
    Responses,
    ImagesGenerations,
    ImagesEdits,
    AssetsUpload,
    AssetsContent,
    BridgeStatus,
    BridgeModels,
    BridgeSummary,
    BridgeQuote,
    BridgeKeyRegistry,
    BridgeKeyUsage,
    BridgeBilling,
    BridgeFinalizeVideo,
    BridgeFinalizeChat,
    VideosGenerations,
    VideoTask,
    VideoCancel,
    VideoContent,
}

/// An endpoint, with the largest body it takes, where that is not the usual
/// one.
#[derive(Debug)]
pub struct Route {
    pub path: &'static str,
    pub method: Method,
    pub handler: Handler,
    pub body_limit: Option<usize>,
}

/// The model of a [`Route`].
pub struct RouteView {
    pub path: Seq<char>,
    pub method: Method,
    pub handler: Handler,
    pub body_limit: Option<usize>,
}

impl View for Route {
    type V = RouteView;

    open spec fn view(&self) -> RouteView {
        RouteView {
            path: self.path@,
            method: self.method,
            handler: self.handler,
            body_limit: self.body_limit,
        }
    }
}

/// The endpoints of a server, in order.
#[derive(Debug)]
pub struct Router {
    pub routes: Vec<Route>,
}

impl View for Router {
    type V = Seq<RouteView>;

    open spec fn view(&self) -> Seq<RouteView> {
        Seq::new(self.routes@.len(), |i: int| self.routes@[i]@)
    }
}

/// An endpoint with the usual limit.
pub open spec fn route_at(path: Seq<char>, method: Method, handler: Handler) -> RouteView {
    RouteView { path, method, handler, body_limit: None }
}

/// An endpoint with a limit of its own.
pub open spec fn limited_at(
    path: Seq<char>,
    method: Method,
    handler: Handler,
    limit: usize,
) -> RouteView {
    RouteView { path, method, handler, body_limit: Some(limit) }
}

/// The largest upload, in bytes.
pub const MAX_UPLOAD_BYTES: usize = 48234496;

/// The largest registry of keys, in bytes.
pub const MAX_REGISTRY_BYTES: usize = 8388608;

/// The endpoints of the gateway.
pub open spec fn endpoints() -> Seq<RouteView> {
    Seq::empty().push(route_at("/health"@, Method::Get, Handler::Health)).push(
        route_at("/healthz"@, Method::Get, Handler::Healthz),
    ).push(route_at("/status"@, Method::Get, Handler::Status)).push(
        route_at("/v1/models"@, Method::Get, Handler::Models),
    ).push(route_at("/v1/usage"@, Method::Get, Handler::Usage)).push(
        route_at("/v1/chat/completions"@, Method::Post, Handler::ChatCompletions),
    ).push(route_at("/v1/completions"@, Method::Post, Handler::Completions)).push(
        route_at("/v1/embeddings"@, Method::Post, Handler::Embeddings),
    ).push(route_at("/v1/messages"@, Method::Post, Handler::Messages)).push(
        route_at("/v1/responses"@, Method::Post, Handler::Responses),
    ).push(route_at("/v1/images/generations"@, Method::Post, Handler::ImagesGenerations)).push(
        route_at("/v1/images/edits"@, Method::Post, Handler::ImagesEdits),
    ).push(
        limited_at("/v1/assets"@, Method::Post, Handler::AssetsUpload, MAX_UPLOAD_BYTES),
    ).push(route_at("/v1/assets/:asset_id/content"@, Method::Get, Handler::AssetsContent)).push(
        route_at("/internal/bridge/status"@, Method::Get, Handler::BridgeStatus),
    ).push(route_at("/internal/bridge/models"@, Method::Get, Handler::BridgeModels)).push(
        route_at("/internal/bridge/summary"@, Method::Get, Handler::BridgeSummary),
    ).push(route_at("/internal/bridge/quotes"@, Method::Post, Handler::BridgeQuote)).push(
        limited_at(
            "/internal/bridge/key-registry"@,
            Method::Put,
            Handler::BridgeKeyRegistry,
            MAX_REGISTRY_BYTES,
        ),
    ).push(route_at("/internal/bridge/key-usage"@, Method::Get, Handler::BridgeKeyUsage)).push(
        route_at(
            "/internal/bridge/requests/:request_id/billing"@,
            Method::Get,
            Handler::BridgeBilling,
        ),
    ).push(
        route_at(
            "/internal/bridge/requests/:request_id/billing/finalize"@,
            Method::Post,
            Handler::BridgeFinalizeVideo,
        ),
    ).push(
        route_at(
            "/internal/bridge/requests/:request_id/billing/finalize-chat"@,
            Method::Post,
            Handler::BridgeFinalizeChat,
        ),
    ).push(route_at("/v1/videos/generations"@, Method::Post, Handler::VideosGenerations)).push(
        route_at("/v1/videos/:task_id"@, Method::Get, Handler::VideoTask),
    ).push(route_at("/v1/videos/:task_id/cancel"@, Method::Post, Handler::VideoCancel)).push(
        route_at("/v1/videos/:task_id/content"@, Method::Get, Handler::VideoContent),
    )
}

impl Router {
    /// A server without endpoints.
    pub fn new() -> (r: Router)
        ensures
            r@ == Seq::<RouteView>::empty(),
    {
        let r = Router { routes: Vec::new() };
        assert(r@ =~= Seq::<RouteView>::empty());
        r
    }

    fn add(self, route: Route) -> (r: Router)
        ensures
            r@ == self@.push(route@),
    {
        let ghost before = self@;
        let mut routes = self.routes;
        routes.push(route);
        let r = Router { routes };
        assert(r@ =~= before.push(route@));
        r
    }

    /// One endpoint more.
    pub fn route(self, path: &'static str, method: Method, handler: Handler) -> (r: Router)
        ensures
            r@ == self@.push(route_at(path@, method, handler)),
    {
        self.add(Route { path, method, handler, body_limit: None })
    }

    /// One endpoint more, with a limit of its own.
    pub fn limited(self, path: &'static str, method: Method, handler: Handler, limit: usize) -> (r:
        Router)
        ensures
            r@ == self@.push(limited_at(path@, method, handler, limit)),
    {
        self.add(Route { path, method, handler, body_limit: Some(limit) })
    }
}

/// The endpoints of the gateway.
pub fn build_router() -> (r: Router)
    ensures
        r@ == endpoints(),
{
    Router::new().route("/health", Method::Get, Handler::Health).route(
        "/healthz",
        Method::Get,
        Handler::Healthz,
    ).route("/status", Method::Get, Handler::Status).route(
        "/v1/models",
        Method::Get,
        Handler::Models,
    ).route("/v1/usage", Method::Get, Handler::Usage).route(
        "/v1/chat/completions",
        Method::Post,
        Handler::ChatCompletions,
    ).route("/v1/completions", Method::Post, Handler::Completions).route(
        "/v1/embeddings",
        Method::Post,
        Handler::Embeddings,
    ).route("/v1/messages", Method::Post, Handler::Messages).route(
        "/v1/responses",
        Method::Post,
        Handler::Responses,
    ).route("/v1/images/generations", Method::Post, Handler::ImagesGenerations).route(
        "/v1/images/edits",
        Method::Post,
        Handler::ImagesEdits,
    ).limited("/v1/assets", Method::Post, Handler::AssetsUpload, MAX_UPLOAD_BYTES).route(
        "/v1/assets/:asset_id/content",
        Method::Get,
        Handler::AssetsContent,
    ).route("/internal/bridge/status", Method::Get, Handler::BridgeStatus).route(
        "/internal/bridge/models",
        Method::Get,
        Handler::BridgeModels,
    ).route("/internal/bridge/summary", Method::Get, Handler::BridgeSummary).route(
        "/internal/bridge/quotes",
        Method::Post,
        Handler::BridgeQuote,
    ).limited(
        "/internal/bridge/key-registry",
        Method::Put,
        Handler::BridgeKeyRegistry,
        MAX_REGISTRY_BYTES,
    ).route("/internal/bridge/key-usage", Method::Get, Handler::BridgeKeyUsage).route(
        "/internal/bridge/requests/:request_id/billing",
        Method::Get,
        Handler::BridgeBilling,
    ).route(
        "/internal/bridge/requests/:request_id/billing/finalize",
        Method::Post,
        Handler::BridgeFinalizeVideo,
    ).route(
        "/internal/bridge/requests/:request_id/billing/finalize-chat",
        Method::Post,
        Handler::BridgeFinalizeChat,
    ).route("/v1/videos/generations", Method::Post, Handler::VideosGenerations).route(
        "/v1/videos/:task_id",
        Method::Get,
        Handler::VideoTask,
    ).route("/v1/videos/:task_id/cancel", Method::Post, Handler::VideoCancel).route(
        "/v1/videos/:task_id/content",
        Method::Get,
        Handler::VideoContent,
    )
}

/// The address at which the server listens.
pub fn listen_address(host: &str, port: u16) -> (r: String)
    ensures
        r@ == text::trim(host@) + ":"@ + text::decimal(port as nat),
{
    let number = text::decimal_text(port as u64);
    text::join3(text::trimmed(host), ":", number.as_str())
}

/// Why the server cannot listen.
pub fn bind_failure(port: u16, error: &str) -> (r: String)
    ensures
        r@ == "端口 "@ + text::decimal(port as nat) + " 绑定失败: "@ + error@,
{
    let number = text::decimal_text(port as u64);
    let head = text::join3("端口 ", number.as_str(), " 绑定失败: ");
    text::join2(head.as_str(), error)
}

/// What waiting for a task comes to.
#[derive(Clone, Copy, Debug, PartialEq, Eq, Structural)]
pub enum Wait {
    Finished,
    TimedOut,
    /// Look again after that many milliseconds.
    Again(u64),
}

/// Whether a task is waited for any longer. It is looked at every 50
/// milliseconds, and once more when the time is over.
pub fn wait_task_finished(finished: bool, waited_ms: u64, max_ms: u64) -> (r: Wait)
    ensures
        r == (if finished {
            Wait::Finished
        } else if waited_ms >= max_ms {
            Wait::TimedOut
        } else {
            Wait::Again(50)
        }),
{
    if finished {
        Wait::Finished
    } else if waited_ms >= max_ms {
        Wait::TimedOut
    } else {
        Wait::Again(50)
    }
}

/// What came of a probe of the upstream.
#[derive(Clone, Copy, Debug, PartialEq, Eq, Structural)]
pub enum Probe {
    Answered,
    /// It was answered with that status of failure.
    Refused(u16),
    Unreachable,
}

/// The upstream lives: any answer shows it.
pub open spec fn is_alive(probe: Probe) -> bool {
    probe != Probe::Unreachable
}

/// The number under which the outcome of a probe is kept.
pub fn probe_value(probe: Probe) -> (r: i64)
    ensures
        r == (if is_alive(probe) {
            1i64
        } else {
            0i64
        }),
{
    match probe {
        Probe::Answered => 1,
        Probe::Refused(_) => 1,
        Probe::Unreachable => 0,
    }
}

/// How long the next probe waits, in seconds: five minutes, and up to a minute
/// more by the clock.
pub fn probe_delay(subsec_nanos: u32) -> (r: u64)
    ensures
        r == 300 + subsec_nanos % 60,
        300 <= r < 360,
{
    300 + (subsec_nanos % 60) as u64
}

/// What a poll of usage does.
#[derive(Debug, PartialEq, Eq)]
pub enum UsagePoll {
    Nothing,
    Log(&'static str),
    /// Fetch the usage of these accounts.
    Fetch(Vec<String>),
}

/// The model of a [`UsagePoll`].
pub enum UsagePollView {
    Nothing,
    Log(Seq<char>),
    Fetch(Seq<Seq<char>>),
}

impl View for UsagePoll {
    type V = UsagePollView;

    open spec fn view(&self) -> UsagePollView {
        match self {
            UsagePoll::Nothing => UsagePollView::Nothing,
            UsagePoll::Log(message) => UsagePollView::Log(message@),
            UsagePoll::Fetch(accounts) => UsagePollView::Fetch(text::views(accounts@)),
        }
    }
}

/// The accounts of pairs of an account and a session.
pub open spec fn accounts_of(pending: Seq<(String, String)>) -> Seq<Seq<char>> {
    Seq::new(pending.len(), |i: int| pending[i].0@)
}

/// What a poll of usage does with the accounts and sessions that wait for
/// their usage: nothing where none does.
pub fn poll_usage(pending: Option<&Vec<(String, String)>>) -> (r: UsagePoll)
    ensures
        r@ == (match pending {
            None => UsagePollView::Log("Core 用量轮询失败：待核验请求索引不可用"@),
            Some(list) => if list@.len() == 0 {
                UsagePollView::Nothing
            } else {
                UsagePollView::Fetch(accounts_of(list@))
            },
        }),
{
    let list = match pending {
        Some(list) => list,
        None => {
            return UsagePoll::Log("Core 用量轮询失败：待核验请求索引不可用");
        },
    };
    if list.len() == 0 {
        return UsagePoll::Nothing;
    }
    let ghost all = accounts_of(list@);
    let mut accounts: Vec<String> = Vec::new();
    let mut i: usize = 0;
    while i < list.len()
        invariant
            i <= list.len(),
            all == accounts_of(list@),
            accounts.len() == i,
            forall|j: int| 0 <= j < i ==> (#[trigger] accounts@[j])@ == all[j],
        decreases list.len() - i,
    {
        accounts.push(list[i].0.clone());
        i = i + 1;
    }
    assert(text::views(accounts@) =~= all);
    UsagePoll::Fetch(accounts)
}

} // verus!
