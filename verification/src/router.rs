//! The request router: which handler a request belongs to, decided from its
//! path and method alone. Prefixes are tried in a fixed order; the control
//! plane comes first, because it must answer while the pool is empty.
use vstd::prelude::*;
use crate::http::{
    HttpResponse, Method, response_with_body_and_code, status_report, status_response,
    text_response,
};
use crate::json::{get_u64, json_document, member_u64, parse, document_error};
use crate::structs::{ContentType, EndPoints};
use crate::text::{decimal, push_decimal, split, split_str, starts_with, str_views};

verus! {

/// A command of the control plane.
#[derive(Debug, Clone, Copy, PartialEq, Eq, Structural)]
pub enum MaintenanceCommand {
    AddWorkers,
    ReloadWorkers,
    TerminateWorkers,
    InfoWorkers,
    IncreaseLimit,
    DecreaseLimit,
}

/// The control-plane command that a request names, if any. Adding workers
/// and moving the limit of concurrent requests take `POST`; the others take
/// any method.
pub open spec fn maintenance_of(path: Seq<char>, method: Method) -> Option<MaintenanceCommand> {
    if EndPoints::AddWorkers.path().is_prefix_of(path) && method == Method::Post {
        Some(MaintenanceCommand::AddWorkers)
    } else if EndPoints::ReloadWorkers.path().is_prefix_of(path) {
        Some(MaintenanceCommand::ReloadWorkers)
    } else if EndPoints::TerminateWorkers.path().is_prefix_of(path) {
        Some(MaintenanceCommand::TerminateWorkers)
    } else if EndPoints::InfoWorkers.path().is_prefix_of(path) {
        Some(MaintenanceCommand::InfoWorkers)
    } else if EndPoints::IncreaseLimitConcurrentRequests.path().is_prefix_of(path) && method
        == Method::Post {
        Some(MaintenanceCommand::IncreaseLimit)
    } else if EndPoints::DecreaseLimitConcurrentRequests.path().is_prefix_of(path) && method
        == Method::Post {
        Some(MaintenanceCommand::DecreaseLimit)
    } else {
        None
    }
}

/// The control-plane command that a request names, if any.
pub fn maintenance_command(path: &str, method: Method) -> (r: Option<MaintenanceCommand>)
    ensures
        r == maintenance_of(path@, method),
{
    if starts_with(path, EndPoints::AddWorkers.as_ref()) && method == Method::Post {
        Some(MaintenanceCommand::AddWorkers)
    } else if starts_with(path, EndPoints::ReloadWorkers.as_ref()) {
        Some(MaintenanceCommand::ReloadWorkers)
    } else if starts_with(path, EndPoints::TerminateWorkers.as_ref()) {
        Some(MaintenanceCommand::TerminateWorkers)
    } else if starts_with(path, EndPoints::InfoWorkers.as_ref()) {
        Some(MaintenanceCommand::InfoWorkers)
    } else if starts_with(path, EndPoints::IncreaseLimitConcurrentRequests.as_ref()) && method
        == Method::Post {
        Some(MaintenanceCommand::IncreaseLimit)
    } else if starts_with(path, EndPoints::DecreaseLimitConcurrentRequests.as_ref()) && method
        == Method::Post {
        Some(MaintenanceCommand::DecreaseLimit)
    } else {
        None
    }
}

/// A control-plane command with what its body carries.
#[derive(Debug, Clone, Copy, PartialEq, Eq, Structural)]
pub enum MaintenanceStep {
    AddWorkers { count: u64 },
    ReloadWorkers,
    TerminateWorkers,
    InfoWorkers,
    AddPermits { n: u64 },
    ForgetPermits { n: u64 },
}

/// Why the body of a control-plane request cannot be used.
#[derive(Debug, Clone)]
pub enum BodyError {
    /// The body is no JSON document; the parser's message.
    Malformed { message: String },
    /// The document lacks the number the command needs.
    Missing { what: MissingNumber },
}

/// The number a command needs.
#[derive(Debug, Clone, Copy, PartialEq, Eq, Structural)]
pub enum MissingNumber {
    /// `count`, the number of workers to add.
    Count,
    /// `n`, the number of permits.
    Permits,
}

/// `BodyError` over mathematical text.
pub enum BodyFault {
    Malformed(Seq<char>),
    Missing(MissingNumber),
}

impl View for BodyError {
    type V = BodyFault;

    open spec fn view(&self) -> BodyFault {
        match self {
            BodyError::Malformed { message } => BodyFault::Malformed(message@),
            BodyError::Missing { what } => BodyFault::Missing(*what),
        }
    }
}

impl BodyFault {
    /// The sentence that reports this error.
    pub open spec fn text(self) -> Seq<char> {
        match self {
            BodyFault::Malformed(m) => m,
            BodyFault::Missing(MissingNumber::Count) => "Count workers is undefined"@,
            BodyFault::Missing(MissingNumber::Permits) => "Count permits is undefined"@,
        }
    }
}

impl BodyError {
    /// The sentence that reports this error.
    pub fn message(&self) -> (r: String)
        ensures
            r@ == self@.text(),
    {
        match self {
            BodyError::Malformed { message } => message.clone(),
            BodyError::Missing { what: MissingNumber::Count } => String::from_str(
                "Count workers is undefined",
            ),
            BodyError::Missing { what: MissingNumber::Permits } => String::from_str(
                "Count permits is undefined",
            ),
        }
    }
}

/// The number `key` of the JSON document `body`.
pub open spec fn body_number(body: Seq<u8>, key: Seq<char>, what: MissingNumber) -> Result<
    u64,
    BodyFault,
> {
    match json_document(body) {
        Err(_) => Err(BodyFault::Malformed(document_error(body)->Some_0)),
        Ok(v) => match member_u64(v, key) {
            Some(n) => Ok(n),
            None => Err(BodyFault::Missing(what)),
        },
    }
}

/// What a control-plane command asks for, read from the request body where
/// the command has an argument.
pub open spec fn maintenance_step_of(command: MaintenanceCommand, body: Seq<u8>) -> Result<
    MaintenanceStep,
    BodyFault,
> {
    match command {
        MaintenanceCommand::AddWorkers => match body_number(body, "count"@, MissingNumber::Count) {
            Ok(count) => Ok(MaintenanceStep::AddWorkers { count }),
            Err(e) => Err(e),
        },
        MaintenanceCommand::ReloadWorkers => Ok(MaintenanceStep::ReloadWorkers),
        MaintenanceCommand::TerminateWorkers => Ok(MaintenanceStep::TerminateWorkers),
        MaintenanceCommand::InfoWorkers => Ok(MaintenanceStep::InfoWorkers),
        MaintenanceCommand::IncreaseLimit => match body_number(
            body,
            "n"@,
            MissingNumber::Permits,
        ) {
            Ok(n) => Ok(MaintenanceStep::AddPermits { n }),
            Err(e) => Err(e),
        },
        MaintenanceCommand::DecreaseLimit => match body_number(
            body,
            "n"@,
            MissingNumber::Permits,
        ) {
            Ok(n) => Ok(MaintenanceStep::ForgetPermits { n }),
            Err(e) => Err(e),
        },
    }
}

fn read_number(body: &[u8], key: &str, what: MissingNumber) -> (r: Result<u64, BodyError>)
    ensures
        r matches Ok(n) ==> body_number(body@, key@, what) == Ok::<u64, BodyFault>(n),
        r matches Err(e) ==> body_number(body@, key@, what) == Err::<u64, BodyFault>(e@),
{
    match parse(body) {
        Err(message) => Err(BodyError::Malformed { message }),
        Ok(v) => match get_u64(&v, key) {
            Some(n) => Ok(n),
            None => Err(BodyError::Missing { what }),
        },
    }
}

/// Reads the argument of a control-plane command from the request body.
pub fn maintenance_step(command: MaintenanceCommand, body: &[u8]) -> (r: Result<
    MaintenanceStep,
    BodyError,
>)
    ensures
        r matches Ok(s) ==> maintenance_step_of(command, body@) == Ok::<
            MaintenanceStep,
            BodyFault,
        >(s),
        r matches Err(e) ==> maintenance_step_of(command, body@) == Err::<
            MaintenanceStep,
            BodyFault,
        >(e@),
{
    match command {
        MaintenanceCommand::AddWorkers => match read_number(body, "count", MissingNumber::Count) {
            Ok(count) => Ok(MaintenanceStep::AddWorkers { count }),
            Err(e) => Err(e),
        },
        MaintenanceCommand::ReloadWorkers => Ok(MaintenanceStep::ReloadWorkers),
        MaintenanceCommand::TerminateWorkers => Ok(MaintenanceStep::TerminateWorkers),
        MaintenanceCommand::InfoWorkers => Ok(MaintenanceStep::InfoWorkers),
        MaintenanceCommand::IncreaseLimit => match read_number(
            body,
            "n",
            MissingNumber::Permits,
        ) {
            Ok(n) => Ok(MaintenanceStep::AddPermits { n }),
            Err(e) => Err(e),
        },
        MaintenanceCommand::DecreaseLimit => match read_number(
            body,
            "n",
            MissingNumber::Permits,
        ) {
            Ok(n) => Ok(MaintenanceStep::ForgetPermits { n }),
            Err(e) => Err(e),
        },
    }
}

/// What the control plane answers once a command was passed on. The answer
/// to a query for the workers' process trees is written by the caller from
/// what the pool manager reports.
pub open spec fn maintenance_text(step: MaintenanceStep) -> Seq<char> {
    match step {
        MaintenanceStep::AddWorkers { count } => "Workers successfully added"@,
        MaintenanceStep::ReloadWorkers => "Workers successfully reloaded"@,
        MaintenanceStep::TerminateWorkers => "Workers successfully terminated"@,
        MaintenanceStep::InfoWorkers => "Workers info is None"@,
        MaintenanceStep::AddPermits { n } =>
            "Limit of concurrent requests successfully increased by "@ + decimal(n as nat),
        MaintenanceStep::ForgetPermits { n } =>
            "Limit of concurrent requests successfully decreased by "@ + decimal(n as nat),
    }
}

/// The status of that answer: a query that got no report fails.
pub open spec fn maintenance_status(step: MaintenanceStep) -> u16 {
    match step {
        MaintenanceStep::InfoWorkers => 500,
        _ => 200,
    }
}

/// The answer to a control-plane command that was passed on. For
/// `InfoWorkers` this is the answer for a pool manager that reported
/// nothing.
pub fn maintenance_response(step: MaintenanceStep) -> (r: HttpResponse)
    ensures
        r@ == text_response(
            maintenance_status(step),
            ContentType::ApplicationJson.value(),
            maintenance_text(step),
        ),
{
    match step {
        MaintenanceStep::AddWorkers { count } => response_with_body_and_code(
            String::from_str("Workers successfully added"),
            200,
        ),
        MaintenanceStep::ReloadWorkers => response_with_body_and_code(
            String::from_str("Workers successfully reloaded"),
            200,
        ),
        MaintenanceStep::TerminateWorkers => response_with_body_and_code(
            String::from_str("Workers successfully terminated"),
            200,
        ),
        MaintenanceStep::InfoWorkers => response_with_body_and_code(
            String::from_str("Workers info is None"),
            500,
        ),
        MaintenanceStep::AddPermits { n } => {
            let mut body = String::from_str(
                "Limit of concurrent requests successfully increased by ",
            );
            push_decimal(&mut body, n);
            response_with_body_and_code(body, 200)
        },
        MaintenanceStep::ForgetPermits { n } => {
            let mut body = String::from_str(
                "Limit of concurrent requests successfully decreased by ",
            );
            push_decimal(&mut body, n);
            response_with_body_and_code(body, 200)
        },
    }
}

/// The handler of a request that is no control-plane command.
#[derive(Debug, Clone, Copy, PartialEq, Eq, Structural)]
pub enum Route {
    /// A tile: caches first, then a worker.
    Tile,
    /// A pyramid build or its scheduling.
    Pyramid,
    /// A datasource is deleted on every worker.
    DataSourceDelete,
    /// A datasource is written on one worker and reloaded on the others.
    DataSourceWrite,
    /// The health of every worker.
    Health,
    /// The request is echoed.
    Echo,
    /// The request goes to the worker whose turn it is.
    Proxy,
}

/// Whether a method reads or writes datasources.
pub open spec fn datasource_method(method: Method) -> bool {
    method == Method::Post || method == Method::Put || method == Method::Patch || method
        == Method::Get
}

/// Whether a path addresses the datasource collection, one datasource in it
/// (`/api/datasources/{id}`), or one of the two file operations.
pub open spec fn datasource_path(path: Seq<char>) -> bool {
    ||| EndPoints::DataSources.path().is_prefix_of(path) && 3 <= split(path, '/').len() <= 4
    ||| EndPoints::DataSourcesLoadFiles.path().is_prefix_of(path)
    ||| EndPoints::DataSourcesReloadFiles.path().is_prefix_of(path)
}

/// The handler that a path and a method select: the first row that matches.
pub open spec fn route_of(path: Seq<char>, method: Method) -> Route {
    if EndPoints::Tile.path().is_prefix_of(path) {
        Route::Tile
    } else if EndPoints::Pyramid.path().is_prefix_of(path) && method == Method::Post {
        Route::Pyramid
    } else if EndPoints::DataSources.path().is_prefix_of(path) && method == Method::Delete {
        Route::DataSourceDelete
    } else if datasource_path(path) && datasource_method(method) {
        Route::DataSourceWrite
    } else if EndPoints::Health.path().is_prefix_of(path) {
        Route::Health
    } else if EndPoints::Jobs.path().is_prefix_of(path) || EndPoints::Debug.path().is_prefix_of(
        path,
    ) {
        Route::Echo
    } else {
        Route::Proxy
    }
}

/// The handler that a path and a method select.
pub fn route(path: &str, method: Method) -> (r: Route)
    ensures
        r == route_of(path@, method),
{
    if starts_with(path, EndPoints::Tile.as_ref()) {
        return Route::Tile;
    }
    if starts_with(path, EndPoints::Pyramid.as_ref()) && method == Method::Post {
        return Route::Pyramid;
    }
    let datasources = starts_with(path, EndPoints::DataSources.as_ref());
    if datasources && method == Method::Delete {
        return Route::DataSourceDelete;
    }
    let elements = split_str(path, '/');
    assert(str_views(elements@).len() == elements@.len());
    let addressed = (datasources && 3 <= elements.len() && elements.len() <= 4) || starts_with(
        path,
        EndPoints::DataSourcesLoadFiles.as_ref(),
    ) || starts_with(path, EndPoints::DataSourcesReloadFiles.as_ref());
    let writes = method == Method::Post || method == Method::Put || method == Method::Patch
        || method == Method::Get;
    if addressed && writes {
        Route::DataSourceWrite
    } else if starts_with(path, EndPoints::Health.as_ref()) {
        Route::Health
    } else if starts_with(path, EndPoints::Jobs.as_ref()) || starts_with(
        path,
        EndPoints::Debug.as_ref(),
    ) {
        Route::Echo
    } else {
        Route::Proxy
    }
}

/// The sentence that reports a pool without workers.
pub open spec fn no_worker_text() -> Seq<char> {
    "WorkerData is None"@
}

/// The answer to a request that needs a worker while the pool has none:
/// 500. Only the control plane answers without a worker.
pub fn no_worker_response() -> (r: HttpResponse)
    ensures
        r@ == status_report(500, no_worker_text()),
{
    status_response(500, "WorkerData is None")
}

/// The requests that a master looks at before it handles them itself: tiles,
/// and pyramid builds that are posted.
#[derive(Debug, Clone, Copy, PartialEq, Eq, Structural)]
pub enum MasterCheck {
    Tile,
    Pyramid,
}

/// The check that a master makes for a request, if any.
pub open spec fn master_check_of(path: Seq<char>, method: Method) -> Option<MasterCheck> {
    if EndPoints::Tile.path().is_prefix_of(path) {
        Some(MasterCheck::Tile)
    } else if EndPoints::Pyramid.path().is_prefix_of(path) && method == Method::Post {
        Some(MasterCheck::Pyramid)
    } else {
        None
    }
}

/// The check that a master makes for a request, if any.
pub fn master_check(path: &str, method: Method) -> (r: Option<MasterCheck>)
    ensures
        r == master_check_of(path@, method),
{
    if starts_with(path, EndPoints::Tile.as_ref()) {
        Some(MasterCheck::Tile)
    } else if starts_with(path, EndPoints::Pyramid.as_ref()) && method == Method::Post {
        Some(MasterCheck::Pyramid)
    } else {
        None
    }
}

/// The order in which a request is looked at.
#[derive(Debug, Clone, Copy, PartialEq, Eq, Structural)]
pub enum Dispatch {
    /// A control-plane command: answered without a worker.
    Maintenance { command: MaintenanceCommand },
    /// Any other request: it needs a worker, a master may first look where
    /// its datasource lives, then the handler runs.
    Routed { check: Option<MasterCheck>, route: Route },
}

/// How a request is dispatched on a node that is a master or not.
pub open spec fn dispatch_of(path: Seq<char>, method: Method, master: bool) -> Dispatch {
    match maintenance_of(path, method) {
        Some(command) => Dispatch::Maintenance { command },
        None => Dispatch::Routed {
            check: if master {
                master_check_of(path, method)
            } else {
                None
            },
            route: route_of(path, method),
        },
    }
}

/// Classifies a request.
pub fn dispatch(path: &str, method: Method, master: bool) -> (r: Dispatch)
    ensures
        r == dispatch_of(path@, method, master),
{
    match maintenance_command(path, method) {
        Some(command) => Dispatch::Maintenance { command },
        None => {
            let check = if master {
                master_check(path, method)
            } else {
                None
            };
            Dispatch::Routed { check, route: route(path, method) }
        },
    }
}

/// The control plane does not depend on the pool: a request that names a
/// command is dispatched to it whatever else holds.
pub proof fn lemma_maintenance_first(path: Seq<char>, method: Method, master: bool)
    ensures
        maintenance_of(path, method) is Some <==> dispatch_of(path, method, master)
            is Maintenance,
{
}

/// Only a master looks where a datasource lives, and only for tiles and
/// posted pyramid builds.
pub proof fn lemma_master_checks(path: Seq<char>, method: Method, master: bool)
    ensures
        dispatch_of(path, method, master) matches Dispatch::Routed { check: Some(c), route }
            ==> master && (route == Route::Tile <==> c == MasterCheck::Tile) && (route
            == Route::Pyramid <==> c == MasterCheck::Pyramid),
{
}

} // verus!
