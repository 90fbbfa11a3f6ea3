use vstd::prelude::*;
use crate::config::Config;
use crate::message::{
    BackendResponse, ClientResponse, Destination, DestinationView, InboundRequest, OutboundRequest,
};
use crate::routes::RouteTable;
use crate::target::{clone_opt_string, opt_view, BackendTarget, TargetView};

verus! {

/// Status sent for a path that has no route.
pub const STATUS_NOT_FOUND: u16 = 404;

/// Status sent when the backend cannot be used or answered badly.
pub const STATUS_BAD_GATEWAY: u16 = 502;

/// Status sent when the backend did not answer in time.
pub const STATUS_GATEWAY_TIMEOUT: u16 = 504;

/// The transport a backend is reached over.
#[derive(Clone, Copy, Debug, PartialEq, Eq, Structural)]
pub enum Transport {
    Plain,
    Tls,
}

/// Why sending a request to its backend failed.
#[derive(Clone, Copy, Debug, PartialEq, Eq, Structural)]
pub enum DispatchError {
    /// The connection was refused or the name did not resolve.
    Unreachable,
    /// The backend did not answer within the time allowed.
    Timeout,
    /// The backend sent something that is not a valid response.
    BadUpstream,
    /// The TLS handshake with the backend failed.
    TlsFailure,
}

/// The kind of a failed dispatch, from what is known of the failure: whether
/// the time allowed ran out, whether the connection could not be made, and
/// whether that came from the socket itself (an I/O error) rather than from
/// the TLS layer above it.
pub open spec fn failure_kind(transport: Transport, timed_out: bool, connect_failed: bool, io_cause: bool) -> DispatchError {
    if timed_out {
        DispatchError::Timeout
    } else if connect_failed && transport == Transport::Tls && !io_cause {
        DispatchError::TlsFailure
    } else if connect_failed {
        DispatchError::Unreachable
    } else {
        DispatchError::BadUpstream
    }
}

impl DispatchError {
    /// Classifies a failed dispatch over `transport`.
    pub fn classify(transport: Transport, timed_out: bool, connect_failed: bool, io_cause: bool) -> (r: DispatchError)
        ensures
            r == failure_kind(transport, timed_out, connect_failed, io_cause),
    {
        if timed_out {
            DispatchError::Timeout
        } else if connect_failed && transport == Transport::Tls && !io_cause {
            DispatchError::TlsFailure
        } else if connect_failed {
            DispatchError::Unreachable
        } else {
            DispatchError::BadUpstream
        }
    }
}

/// Why a request was answered by the proxy itself.
#[derive(Clone, Copy, Debug, PartialEq, Eq, Structural)]
pub enum ProxyError {
    /// No route has the request's path.
    RouteNotFound,
    /// The route's target has no scheme or no authority to send to.
    Transform,
    /// Sending to the backend failed.
    Dispatch(DispatchError),
}

/// The status a client sees for each failure.
pub open spec fn status_for(e: ProxyError) -> u16 {
    match e {
        ProxyError::RouteNotFound => STATUS_NOT_FOUND,
        ProxyError::Transform => STATUS_BAD_GATEWAY,
        ProxyError::Dispatch(DispatchError::Timeout) => STATUS_GATEWAY_TIMEOUT,
        ProxyError::Dispatch(_) => STATUS_BAD_GATEWAY,
    }
}

impl ProxyError {
    /// The status a client sees for this failure.
    pub fn status(&self) -> (r: u16)
        ensures
            r == status_for(*self),
    {
        match self {
            ProxyError::RouteNotFound => STATUS_NOT_FOUND,
            ProxyError::Transform => STATUS_BAD_GATEWAY,
            ProxyError::Dispatch(DispatchError::Timeout) => STATUS_GATEWAY_TIMEOUT,
            ProxyError::Dispatch(_) => STATUS_BAD_GATEWAY,
        }
    }
}

/// The target's scheme is `https`.
pub open spec fn scheme_is_https(t: TargetView) -> bool {
    t.scheme == Some("https"@)
}

/// The transport for a target, which depends on its scheme alone.
pub open spec fn transport_for(t: TargetView) -> Transport {
    if scheme_is_https(t) {
        Transport::Tls
    } else {
        Transport::Plain
    }
}

/// Whether the target must be reached over TLS: its scheme is `https`.
pub fn is_tls(uri: &BackendTarget) -> (r: bool)
    ensures
        r == scheme_is_https(uri@),
{
    match &uri.scheme {
        None => false,
        Some(scheme) => *scheme == String::from_str("https"),
    }
}

/// The transport over which the target is reached.
pub fn select_transport(target: &BackendTarget) -> (r: Transport)
    ensures
        r == transport_for(target@),
{
    if is_tls(target) {
        Transport::Tls
    } else {
        Transport::Plain
    }
}

/// The target names a path of its own, which then replaces the request's:
/// its path is neither empty nor the root.
pub open spec fn carries_path(t: TargetView) -> bool {
    t.path.len() > 0 && t.path != "/"@
}

/// A request can be sent to the target: it has a scheme and an authority.
pub open spec fn forwardable(t: TargetView) -> bool {
    t.scheme is Some && t.authority is Some
}

/// Where a request for `path` and `query` goes when its route is `t`.
pub open spec fn destination_for(t: TargetView, path: Seq<char>, query: Option<Seq<char>>) -> DestinationView {
    DestinationView {
        scheme: t.scheme->0,
        authority: t.authority->0,
        path: if carries_path(t) { t.path } else { path },
        query: if carries_path(t) { t.query } else { query },
    }
}

/// `out` is `req` sent to `t`: method, version, headers and body are those
/// of `req`, and only the destination is new.
pub open spec fn forwards<B>(out: OutboundRequest<B>, req: InboundRequest<B>, t: TargetView) -> bool {
    &&& out.method == req.method
    &&& out.version == req.version
    &&& out.headers == req.headers
    &&& out.body == req.body
    &&& out.destination@ == destination_for(t, req.path@, opt_view(req.query))
}

/// `resp` is the proxy's own answer with the given status: no headers and an
/// empty body.
pub open spec fn is_status_only<B>(resp: ClientResponse<B>, status: u16) -> bool {
    &&& resp.status == status
    &&& resp.headers@.len() == 0
    &&& resp.body is None
}

/// `out` passes the backend's response on as it came.
pub open spec fn relays<B>(out: ClientResponse<B>, resp: BackendResponse<B>) -> bool {
    &&& out.status == resp.status
    &&& out.headers == resp.headers
    &&& out.body == Some(resp.body)
}

/// The client's response once the backend has answered or failed.
pub open spec fn completes<B>(out: ClientResponse<B>, outcome: Result<BackendResponse<B>, DispatchError>) -> bool {
    match outcome {
        Ok(resp) => relays(out, resp),
        Err(e) => is_status_only(out, status_for(ProxyError::Dispatch(e))),
    }
}

/// What to do with a request that has arrived.
pub enum Action<B> {
    /// Answer the client at once; no backend is contacted.
    Respond(ClientResponse<B>),
    /// Send `request` over `transport` and wait for the backend.
    Dispatch { request: OutboundRequest<B>, transport: Transport },
}

/// `act` is what the proxy does with `req` under the route table `routes`.
pub open spec fn routed<B>(routes: Map<Seq<char>, TargetView>, req: InboundRequest<B>, act: Action<B>) -> bool {
    if !routes.contains_key(req.path@) {
        act matches Action::Respond(resp) && is_status_only(resp, STATUS_NOT_FOUND)
    } else if !forwardable(routes[req.path@]) {
        act matches Action::Respond(resp) && is_status_only(resp, STATUS_BAD_GATEWAY)
    } else {
        act matches Action::Dispatch { request, transport } && forwards(request, req, routes[req.path@])
            && transport == transport_for(routes[req.path@])
    }
}

/// A response that carries only a status.
pub fn status_response<B>(status: u16) -> (r: ClientResponse<B>)
    ensures
        is_status_only(r, status),
{
    ClientResponse { status, headers: Vec::new(), body: None }
}

/// The proxy's answer to a failure.
pub fn error_response<B>(e: ProxyError) -> (r: ClientResponse<B>)
    ensures
        is_status_only(r, status_for(e)),
{
    status_response(e.status())
}

/// The backend's response turned into the client's: status, headers and
/// body as they came.
pub fn relay<B>(resp: BackendResponse<B>) -> (r: ClientResponse<B>)
    ensures
        relays(r, resp),
{
    ClientResponse { status: resp.status, headers: resp.headers, body: Some(resp.body) }
}

/// The client's response for the outcome of a dispatch: the backend's
/// response relayed, or the status that the failure calls for.
pub fn complete<B>(outcome: Result<BackendResponse<B>, DispatchError>) -> (r: ClientResponse<B>)
    ensures
        completes(r, outcome),
{
    match outcome {
        Ok(resp) => relay(resp),
        Err(e) => error_response(ProxyError::Dispatch(e)),
    }
}

/// The service of one connection: it holds the shared route table and
/// decides, request by request, what is to be done.
pub struct ProxyService<'a> {
    routes: &'a RouteTable,
}

impl<'a> ProxyService<'a> {
    /// The route table the service reads.
    pub closed spec fn routes(&self) -> Map<Seq<char>, TargetView> {
        self.routes@
    }

    pub closed spec fn wf(&self) -> bool {
        self.routes.wf()
    }

    /// A service over the shared table `routes`.
    pub fn new(routes: &'a RouteTable) -> (r: ProxyService<'a>)
        requires
            routes.wf(),
        ensures
            r.wf(),
            r.routes() == routes@,
    {
        ProxyService { routes }
    }

    /// The request `req` addressed to `route`: method, version, headers and
    /// body kept, destination taken from the route. Fails where the route
    /// has no scheme or no authority.
    pub fn build_request<B>(&self, req: InboundRequest<B>, route: &BackendTarget) -> (r: Result<OutboundRequest<B>, ProxyError>)
        ensures
            r is Ok <==> forwardable(route@),
            r matches Ok(out) ==> forwards(out, req, route@),
            r matches Err(e) ==> e == ProxyError::Transform,
    {
        let scheme = match &route.scheme {
            Some(s) => s.clone(),
            None => return Err(ProxyError::Transform),
        };
        let authority = match &route.authority {
            Some(a) => a.clone(),
            None => return Err(ProxyError::Transform),
        };
        let own_path = !route.path.as_str().is_empty() && !(route.path == String::from_str("/"));
        let (path, query) = if own_path {
            (route.path.clone(), clone_opt_string(&route.query))
        } else {
            (req.path, req.query)
        };
        let destination = Destination { scheme, authority, path, query };
        Ok(OutboundRequest {
            method: req.method,
            destination,
            version: req.version,
            headers: req.headers,
            body: req.body,
        })
    }

    /// What to do with `req`: answer 404 where its path has no route, 502
    /// where the route cannot be sent to, and otherwise send the transformed
    /// request over the transport of the route's scheme.
    pub fn route<B>(&self, req: InboundRequest<B>) -> (r: Action<B>)
        requires
            self.wf(),
        ensures
            routed(self.routes(), req, r),
    {
        match self.routes.resolve(&req.path) {
            None => Action::Respond(error_response(ProxyError::RouteNotFound)),
            Some(target) => {
                let transport = select_transport(&target);
                match self.build_request(req, &target) {
                    Ok(request) => Action::Dispatch { request, transport },
                    Err(e) => Action::Respond(error_response(e)),
                }
            },
        }
    }
}

/// Transport selection is a function of the scheme alone: targets with the
/// same scheme get the same transport, TLS exactly for `https`.
pub proof fn lemma_transport_depends_on_scheme_only(a: TargetView, b: TargetView)
    requires
        a.scheme == b.scheme,
    ensures
        transport_for(a) == transport_for(b),
        transport_for(a) == Transport::Tls <==> a.scheme == Some("https"@),
        transport_for(a) == Transport::Plain <==> a.scheme != Some("https"@),
{
}

/// A request whose path has no route is answered 404, with no headers and an
/// empty body, and nothing is sent to any backend.
pub proof fn lemma_unrouted_path_is_not_found<B>(routes: Map<Seq<char>, TargetView>, req: InboundRequest<B>, act: Action<B>)
    requires
        routed(routes, req, act),
        !routes.contains_key(req.path@),
    ensures
        act is Respond,
        act->Respond_0.status == STATUS_NOT_FOUND,
        act->Respond_0.body is None,
{
}

/// A request whose path has a route to a target with a scheme and an
/// authority is sent on with the same method, version, headers and body; its
/// destination takes the target's scheme and authority, and the target's own
/// path where it has one.
pub proof fn lemma_routed_request_is_kept<B>(routes: Map<Seq<char>, TargetView>, req: InboundRequest<B>, act: Action<B>)
    requires
        routed(routes, req, act),
        routes.contains_key(req.path@),
        forwardable(routes[req.path@]),
    ensures
        act matches Action::Dispatch { request, transport } && {
            let t = routes[req.path@];
            &&& request.method == req.method
            &&& request.version == req.version
            &&& request.headers == req.headers
            &&& request.body == req.body
            &&& Some(request.destination.scheme@) == t.scheme
            &&& Some(request.destination.authority@) == t.authority
            &&& request.destination.path@ == (if carries_path(t) { t.path } else { req.path@ })
            &&& transport == transport_for(t)
        },
{
}

/// On success the client gets the backend's status, headers and body; on a
/// failed connection it gets 502 and on a timeout 504, with no headers and an
/// empty body.
pub proof fn lemma_outcome_reaches_client<B>(outcome: Result<BackendResponse<B>, DispatchError>, out: ClientResponse<B>)
    requires
        completes(out, outcome),
    ensures
        outcome matches Ok(resp) ==> out.status == resp.status && out.headers == resp.headers
            && out.body == Some(resp.body),
        outcome matches Err(DispatchError::Unreachable) ==> out.status == STATUS_BAD_GATEWAY
            && out.headers@.len() == 0 && out.body is None,
        outcome matches Err(DispatchError::Timeout) ==> out.status == STATUS_GATEWAY_TIMEOUT
            && out.headers@.len() == 0 && out.body is None,
{
}

/// The proxy: its validated configuration, from which each connection gets
/// a service.
pub struct Proxy {
    pub config: Config,
}

impl Proxy {
    pub open spec fn wf(&self) -> bool {
        self.config.routes.wf()
    }

    /// A proxy over a validated configuration.
    pub fn new(config: Config) -> (r: Proxy)
        requires
            config.routes.wf(),
        ensures
            r.wf(),
            r.config == config,
    {
        Proxy { config }
    }

    /// The service for a newly accepted connection, reading the proxy's
    /// route table in place.
    pub fn service(&self) -> (r: ProxyService<'_>)
        requires
            self.wf(),
        ensures
            r.wf(),
            r.routes() == self.config.routes@,
    {
        ProxyService::new(&self.config.routes)
    }
}

} // verus!
