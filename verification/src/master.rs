//! Master mode: a master looks where the datasource of a request lives and
//! passes requests for datasources of other nodes on to their owners.
use vstd::prelude::*;
use crate::datasource::{
    DataSourceInfo, DataSourceInfoView, Home, HomeView, address, address_of, home, home_of,
};
use crate::http::{
    HttpResponse, Method, ResponseView, text_response, timeout_response, timeout_text,
    unreachable_response,
};
use crate::json::{
    document_error, get_text, json_document, json_member, member, member_text, parse,
    single_member_text,
};
use crate::router::{Dispatch, MasterCheck, Route, dispatch_of};
use crate::structs::EndPoints;
use crate::utils::{datasource_id_from_uri, datasource_id_of};

verus! {

/// What a master does with a request before it looks anything up.
#[derive(Debug, Clone)]
pub enum MasterPlan {
    /// Handle the request on this node.
    PassOn,
    /// Ask the registry where the datasource lives.
    Lookup { datasource_id: String },
}

/// `MasterPlan` over mathematical text.
pub enum MasterPlanView {
    PassOn,
    Lookup { datasource_id: Seq<char> },
}

impl View for MasterPlan {
    type V = MasterPlanView;

    open spec fn view(&self) -> MasterPlanView {
        match self {
            MasterPlan::PassOn => MasterPlanView::PassOn,
            MasterPlan::Lookup { datasource_id } => MasterPlanView::Lookup {
                datasource_id: datasource_id@,
            },
        }
    }
}

/// Why a master cannot read a pyramid request. Each is answered with 500.
#[derive(Debug, Clone)]
pub enum MasterError {
    /// The body is no JSON document; the parser's message.
    Malformed { message: String },
    /// The document names no datasource.
    MissingId,
}

/// `MasterError` over mathematical text.
pub enum MasterFault {
    Malformed(Seq<char>),
    MissingId,
}

impl View for MasterError {
    type V = MasterFault;

    open spec fn view(&self) -> MasterFault {
        match self {
            MasterError::Malformed { message } => MasterFault::Malformed(message@),
            MasterError::MissingId => MasterFault::MissingId,
        }
    }
}

impl MasterFault {
    /// The sentence that reports this error.
    pub open spec fn text(self) -> Seq<char> {
        match self {
            MasterFault::Malformed(m) => m,
            MasterFault::MissingId => "datasource_id is undefined"@,
        }
    }
}

impl MasterError {
    /// The sentence that reports this error.
    pub fn message(&self) -> (r: String)
        ensures
            r@ == self@.text(),
    {
        match self {
            MasterError::Malformed { message } => message.clone(),
            MasterError::MissingId => String::from_str("datasource_id is undefined"),
        }
    }
}

/// What a master does first. For a tile, the datasource is the one the path
/// names; a path that names none is left to the tile handler. For a pyramid
/// build, it is the one the body names; a build that is scheduled for later
/// is left to the pyramid handler.
pub open spec fn master_plan_of(check: MasterCheck, path: Seq<char>, body: Seq<u8>) -> Result<
    MasterPlanView,
    MasterFault,
> {
    match check {
        MasterCheck::Tile => match datasource_id_of(path) {
            Ok(datasource_id) => Ok(MasterPlanView::Lookup { datasource_id }),
            Err(_) => Ok(MasterPlanView::PassOn),
        },
        MasterCheck::Pyramid => match json_document(body) {
            Err(_) => Err(MasterFault::Malformed(document_error(body)->Some_0)),
            Ok(v) => match member_text(v, "datasource_id"@) {
                None => Err(MasterFault::MissingId),
                Some(datasource_id) => if json_member(v, "scheduled_for"@) is Some {
                    Ok(MasterPlanView::PassOn)
                } else {
                    Ok(MasterPlanView::Lookup { datasource_id })
                },
            },
        },
    }
}

/// What a master does first with a request it looks at.
pub fn master_plan(check: MasterCheck, path: &str, body: &[u8]) -> (r: Result<
    MasterPlan,
    MasterError,
>)
    ensures
        r matches Ok(p) ==> master_plan_of(check, path@, body@) == Ok::<
            MasterPlanView,
            MasterFault,
        >(p@),
        r matches Err(e) ==> master_plan_of(check, path@, body@) == Err::<
            MasterPlanView,
            MasterFault,
        >(e@),
{
    match check {
        MasterCheck::Tile => match datasource_id_from_uri(path) {
            Ok(id) => Ok(MasterPlan::Lookup { datasource_id: id.to_owned() }),
            Err(_) => Ok(MasterPlan::PassOn),
        },
        MasterCheck::Pyramid => {
            let v = match parse(body) {
                Ok(v) => v,
                Err(message) => {
                    return Err(MasterError::Malformed { message });
                },
            };
            let datasource_id = match get_text(&v, "datasource_id") {
                Some(id) => id,
                None => {
                    return Err(MasterError::MissingId);
                },
            };
            if member(&v, "scheduled_for").is_some() {
                Ok(MasterPlan::PassOn)
            } else {
                Ok(MasterPlan::Lookup { datasource_id })
            }
        },
    }
}

/// What a master does once the registry answered.
#[derive(Debug, Clone)]
pub enum MasterDecision {
    /// The datasource lives here: handle the request on this node.
    PassOn,
    /// The datasource lives on a peer: pass the request on to it as it came,
    /// with its method, its headers and its body, and answer with what the
    /// peer answers.
    Forward { host: String, port: i32 },
    /// The datasource is unknown: answer 404.
    NotFound,
}

/// `MasterDecision` over mathematical text.
pub enum MasterDecisionView {
    PassOn,
    Forward { host: Seq<char>, port: i32 },
    NotFound,
}

impl View for MasterDecision {
    type V = MasterDecisionView;

    open spec fn view(&self) -> MasterDecisionView {
        match self {
            MasterDecision::PassOn => MasterDecisionView::PassOn,
            MasterDecision::Forward { host, port } => MasterDecisionView::Forward {
                host: host@,
                port: *port,
            },
            MasterDecision::NotFound => MasterDecisionView::NotFound,
        }
    }
}

/// The decision for what the registry knows of the datasource.
pub open spec fn master_decision_of(
    info: Option<DataSourceInfoView>,
    own_address: Option<Seq<char>>,
) -> MasterDecisionView {
    match info {
        None => MasterDecisionView::NotFound,
        Some(i) => match home_of(i, own_address) {
            HomeView::Local => MasterDecisionView::PassOn,
            HomeView::Remote { host, port } => MasterDecisionView::Forward { host, port },
        },
    }
}

/// What a master does once the registry answered.
pub fn master_decision(info: &Option<DataSourceInfo>, own_address: Option<&str>) -> (r:
    MasterDecision)
    ensures
        r@ == master_decision_of(
            match info {
                Some(i) => Some(i@),
                None => None,
            },
            match own_address {
                Some(a) => Some(a@),
                None => None,
            },
        ),
{
    match info {
        None => MasterDecision::NotFound,
        Some(i) => match home(i, own_address) {
            Home::Local => MasterDecision::PassOn,
            Home::Remote { host, port } => MasterDecision::Forward { host, port },
        },
    }
}

/// The URL of a request on a peer: the peer's address before the request's
/// own URI.
pub open spec fn forward_url_of(host: Seq<char>, port: i32, uri: Seq<char>) -> Seq<char> {
    "http://"@ + address_of(host, port) + uri
}

/// The URL of a request on the peer `host:port`.
pub fn forward_url(host: &str, port: i32, uri: &str) -> (r: String)
    ensures
        r@ == forward_url_of(host@, port, uri@),
{
    let mut out = String::from_str("http://");
    let addr = address(host, port);
    out.append(addr.as_str());
    out.append(uri);
    out
}

/// How a request that was passed on to a peer ended.
#[derive(Debug, Clone, Copy, PartialEq, Eq, Structural)]
pub enum ForwardOutcome {
    /// The peer answered: its answer is the answer.
    Replied,
    /// The peer did not answer in time: 503.
    TimedOut,
    /// The peer could not be reached: 503.
    Failed,
}

/// What the proxy answers itself for a request that was passed on: nothing
/// where the peer answered, 503 with the time waited where it did not answer
/// in time, 503 with the transport's description where it could not be
/// reached.
pub open spec fn forward_reply_of(
    outcome: ForwardOutcome,
    ct: Seq<char>,
    timeout: u64,
    error: Seq<char>,
) -> Option<ResponseView> {
    match outcome {
        ForwardOutcome::Replied => None,
        ForwardOutcome::TimedOut => Some(text_response(503, ct, timeout_text(timeout))),
        ForwardOutcome::Failed => Some(text_response(503, ct, single_member_text("error"@, error))),
    }
}

/// The answer for a request that was passed on to a peer, after waiting up
/// to `timeout` seconds; `error` describes the failure of the transport and
/// is read only for an outcome that failed.
pub fn forward_reply(outcome: ForwardOutcome, ct: &str, timeout: u64, error: &str) -> (r: Option<
    HttpResponse,
>)
    ensures
        r is Some <==> forward_reply_of(outcome, ct@, timeout, error@) is Some,
        r matches Some(a) ==> forward_reply_of(outcome, ct@, timeout, error@) == Some(a@),
{
    match outcome {
        ForwardOutcome::Replied => None,
        ForwardOutcome::TimedOut => Some(timeout_response(ct, timeout)),
        ForwardOutcome::Failed => Some(unreachable_response(ct, error)),
    }
}

/// Master forwarding: on a master, a tile request and a posted pyramid
/// request are looked at before any handler runs, and where the datasource
/// names a peer other than this node the decision is to pass the request on
/// to that peer; no handler of this node runs for it.
pub proof fn lemma_master_forwards(
    path: Seq<char>,
    method: Method,
    info: DataSourceInfoView,
    own_address: Option<Seq<char>>,
)
    requires
        info.host is Some,
        info.port is Some,
        own_address != Some(address_of(info.host->Some_0, info.port->Some_0)),
    ensures
        master_decision_of(Some(info), own_address) == (MasterDecisionView::Forward {
            host: info.host->Some_0,
            port: info.port->Some_0,
        }),
        EndPoints::Tile.path().is_prefix_of(path) ==> dispatch_of(path, method, true) == (
        Dispatch::Routed { check: Some(MasterCheck::Tile), route: Route::Tile }),
        EndPoints::Pyramid.path().is_prefix_of(path) && !EndPoints::Tile.path().is_prefix_of(path)
            && method == Method::Post && crate::router::maintenance_of(path, method) is None
            ==> dispatch_of(path, method, true) == (Dispatch::Routed {
            check: Some(MasterCheck::Pyramid),
            route: Route::Pyramid,
        }),
{
    reveal_strlit("/api/tile");
    reveal_strlit("/maintenance/add_workers");
    reveal_strlit("/maintenance/reload_workers");
    reveal_strlit("/maintenance/terminate_workers");
    reveal_strlit("/maintenance/info_workers");
    reveal_strlit("/maintenance/increase_limit_cr");
    reveal_strlit("/maintenance/decrease_limit_cr");
    if EndPoints::Tile.path().is_prefix_of(path) {
        let t = "/api/tile"@;
        assert(path[1] == t[1]);
        assert(path[1] == 'a');
        assert("/maintenance/add_workers"@[1] == 'm');
        assert("/maintenance/reload_workers"@[1] == 'm');
        assert("/maintenance/terminate_workers"@[1] == 'm');
        assert("/maintenance/info_workers"@[1] == 'm');
        assert("/maintenance/increase_limit_cr"@[1] == 'm');
        assert("/maintenance/decrease_limit_cr"@[1] == 'm');
        assert forall|p: Seq<char>| p.len() >= 2 && p[1] == 'm' implies !p.is_prefix_of(path) by {
            if p.is_prefix_of(path) {
                assert(path[1] == p[1]);
            }
        }
    }
}

/// A datasource that lives here is never passed on: not one without host or
/// port, and not one whose address is this node's own.
pub proof fn lemma_local_stays(info: DataSourceInfoView, own_address: Option<Seq<char>>)
    requires
        info.host is None || info.port is None || own_address == Some(
            address_of(info.host->Some_0, info.port->Some_0),
        ),
    ensures
        master_decision_of(Some(info), own_address) == MasterDecisionView::PassOn,
{
}

} // verus!
