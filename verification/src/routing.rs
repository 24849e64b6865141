//! Which HTTP routes the JSON-RPC server answers on, and whether the
//! backward-compatible method routing is switched off.
use vstd::prelude::*;
use vstd::string::StringExecFns;

verus! {

/// The transports a server can be started with.
#[derive(Debug, Clone, Copy, PartialEq, Eq)]
pub enum ServerType {
    WebSocket,
    Http,
}

/// The HTTP methods that the server routes or allows.
#[derive(Debug, Clone, Copy, PartialEq, Eq)]
pub enum HttpMethod {
    Get,
    Post,
}

/// What answers a route.
#[derive(Debug, Clone, Copy, PartialEq, Eq)]
pub enum RouteHandler {
    /// Plain JSON-RPC requests over HTTP.
    JsonRpc,
    /// The upgrade of the connection to a WebSocket carrying JSON-RPC.
    WebSocketUpgrade,
}

/// One route of the server: requests with `method` on `path` go to `handler`.
#[derive(Debug, Clone)]
pub struct Route {
    pub method: HttpMethod,
    pub path: String,
    pub handler: RouteHandler,
}

/// The path on which every route of the server stands.
pub open spec fn root_path() -> Seq<char> {
    "/"@
}

/// The (method, handler) pairs of the routes for a choice of transport, in
/// the order in which they are added; all stand on the root path. No choice
/// means both transports, HTTP first.
pub open spec fn route_plan(server_type: Option<ServerType>) -> Seq<(HttpMethod, RouteHandler)> {
    match server_type {
        Some(ServerType::WebSocket) => seq![(HttpMethod::Get, RouteHandler::WebSocketUpgrade)],
        Some(ServerType::Http) => seq![(HttpMethod::Post, RouteHandler::JsonRpc)],
        None => seq![
            (HttpMethod::Post, RouteHandler::JsonRpc),
            (HttpMethod::Get, RouteHandler::WebSocketUpgrade),
        ],
    }
}

/// `routes` are exactly the routes of `route_plan(server_type)`, on the root path.
pub open spec fn routes_match(routes: Seq<Route>, server_type: Option<ServerType>) -> bool {
    &&& routes.len() == route_plan(server_type).len()
    &&& forall|i: int|
        0 <= i < routes.len() ==> {
            &&& #[trigger] routes[i].method == route_plan(server_type)[i].0
            &&& routes[i].handler == route_plan(server_type)[i].1
            &&& routes[i].path@ == root_path()
        }
}

fn root_route(method: HttpMethod, handler: RouteHandler) -> (r: Route)
    ensures
        r.method == method,
        r.handler == handler,
        r.path@ == root_path(),
{
    Route { method, path: String::from_str("/"), handler }
}

/// The routes that a server of the given transport answers on.
pub fn routes_for(server_type: Option<ServerType>) -> (routes: Vec<Route>)
    ensures
        routes_match(routes@, server_type),
{
    let mut routes: Vec<Route> = Vec::new();
    match server_type {
        Some(ServerType::WebSocket) => {
            routes.push(root_route(HttpMethod::Get, RouteHandler::WebSocketUpgrade));
        },
        Some(ServerType::Http) => {
            routes.push(root_route(HttpMethod::Post, RouteHandler::JsonRpc));
        },
        None => {
            routes.push(root_route(HttpMethod::Post, RouteHandler::JsonRpc));
            routes.push(root_route(HttpMethod::Get, RouteHandler::WebSocketUpgrade));
        },
    }
    routes
}

/// Without a choice of transport the server answers on the routes of HTTP
/// and then on those of WebSocket.
pub proof fn lemma_no_choice_serves_both()
    ensures
        route_plan(None) == route_plan(Some(ServerType::Http)) + route_plan(
            Some(ServerType::WebSocket),
        ),
{
    assert(route_plan(None) =~= route_plan(Some(ServerType::Http)) + route_plan(
        Some(ServerType::WebSocket),
    ));
}

/// `<bool as FromStr>::from_str`, with the error dropped: `true` and `false`
/// parse to the matching value, every other string fails, as std documents.
#[verifier::external_body]
fn parse_bool(s: &str) -> (r: Option<bool>)
    ensures
        r == (if s@ == "true"@ {
            Some(true)
        } else if s@ == "false"@ {
            Some(false)
        } else {
            None
        }),
{
    <bool as std::str::FromStr>::from_str(s).ok()
}

/// The view of an optional owned string.
pub open spec fn opt_view(value: Option<String>) -> Option<Seq<char>> {
    match value {
        Some(v) => Some(v@),
        None => None,
    }
}

/// Whether the setting that switches the backward-compatible method routing
/// off holds: only the exact value `true` does; an absent, unparsable or
/// `false` value leaves the routing on.
pub open spec fn routing_disabled(value: Option<Seq<char>>) -> bool {
    value == Some("true"@)
}

/// Only the exact text `true` switches the method routing off: an unset
/// setting leaves it on, and so does every other text, `True` among them.
pub proof fn lemma_only_true_disables_routing(v: Seq<char>)
    ensures
        routing_disabled(Some(v)) <==> v == "true"@,
        !routing_disabled(None),
        !routing_disabled(Some("True"@)),
{
    reveal_strlit("true");
    reveal_strlit("True");
    assert("True"@[0] != "true"@[0]);
}

/// Reads the setting that switches the backward-compatible method routing off.
pub fn disable_routing_flag(value: &Option<String>) -> (disabled: bool)
    ensures
        disabled == routing_disabled(opt_view(*value)),
        disabled <==> (value matches Some(v) && v@ == "true"@),
{
    match value {
        Some(v) => match parse_bool(v.as_str()) {
            Some(b) => b,
            None => false,
        },
        None => false,
    }
}

} // verus!
