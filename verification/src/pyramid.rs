//! Pyramid builds: a posted request is either put in the job queue for a
//! later moment or carried out at once, and carrying it out follows a fixed
//! sequence around the datasource's cache database.
use vstd::prelude::*;
use crate::http::{
    HttpResponse, ResponseView, bare_response, error_response, status_report, status_response,
};
use crate::tile::{unknown_datasource_response, unknown_datasource_text};
use crate::job::{JobDetail, JobDetailView, JobType, JobTypeView};
use crate::json::{
    document_error, get_text, json_document, json_member, json_string, member, member_text, parse,
    string_of,
};
use crate::time::{Instant, moment_of, parse_rfc3339};

verus! {

/// What a posted pyramid request asks for.
pub enum PyramidPlan {
    /// Put the job in the queue.
    Schedule { job: JobDetail },
    /// Rebuild the pyramid of the datasource now.
    Rebuild { datasource_id: String },
}

/// `PyramidPlan` over mathematical text.
pub enum PyramidPlanView {
    Schedule { job: JobDetailView },
    Rebuild { datasource_id: Seq<char> },
}

impl View for PyramidPlan {
    type V = PyramidPlanView;

    open spec fn view(&self) -> PyramidPlanView {
        match self {
            PyramidPlan::Schedule { job } => PyramidPlanView::Schedule { job: job@ },
            PyramidPlan::Rebuild { datasource_id } => PyramidPlanView::Rebuild {
                datasource_id: datasource_id@,
            },
        }
    }
}

/// Why a pyramid request cannot be used. Each is answered with 500.
#[derive(Debug, Clone)]
pub enum PyramidError {
    /// The body is no JSON document; the parser's message.
    Malformed { message: String },
    /// The document names no datasource.
    MissingId,
    /// `scheduled_for` is no RFC 3339 moment; the reader's message.
    BadDate { message: String },
}

/// `PyramidError` over mathematical text.
pub enum PyramidFault {
    Malformed(Seq<char>),
    MissingId,
    BadDate(Seq<char>),
}

impl View for PyramidError {
    type V = PyramidFault;

    open spec fn view(&self) -> PyramidFault {
        match self {
            PyramidError::Malformed { message } => PyramidFault::Malformed(message@),
            PyramidError::MissingId => PyramidFault::MissingId,
            PyramidError::BadDate { message } => PyramidFault::BadDate(message@),
        }
    }
}

impl PyramidFault {
    /// The sentence that reports this error.
    pub open spec fn text(self) -> Seq<char> {
        match self {
            PyramidFault::Malformed(m) => m,
            PyramidFault::MissingId => "datasource_id is undefined"@,
            PyramidFault::BadDate(m) => m,
        }
    }
}

impl PyramidError {
    /// The answer to the request: 500 with the error's text.
    pub fn response(&self) -> (r: HttpResponse)
        ensures
            r@ == status_report(500, self@.text()),
    {
        match self {
            PyramidError::Malformed { message } => status_response(500, message.as_str()),
            PyramidError::MissingId => status_response(500, "datasource_id is undefined"),
            PyramidError::BadDate { message } => status_response(500, message.as_str()),
        }
    }
}

/// The moment for which a document schedules its job: the member
/// `scheduled_for` where it is a string.
pub open spec fn schedule_text(v: serde_json::Value) -> Option<Seq<char>> {
    match json_member(v, "scheduled_for"@) {
        Some(m) => json_string(m),
        None => None,
    }
}

/// The job that a scheduling request stands for.
pub open spec fn pyramid_job(datasource_id: Seq<char>, at: Instant, data: serde_json::Value) -> JobDetailView {
    JobDetailView {
        jt: JobTypeView::Pyramid { datasource_id },
        name: "Pyramid"@,
        scheduled_for: Some(at),
        data,
    }
}

/// What the body of a posted pyramid request asks for. The body must be a
/// JSON document that names a datasource. On a node with a job queue, a
/// document with a string `scheduled_for` schedules the build for that
/// moment; every other request rebuilds at once.
pub open spec fn pyramid_plan_of(body: Seq<u8>, has_queue: bool) -> Result<
    PyramidPlanView,
    PyramidFault,
> {
    match json_document(body) {
        Err(_) => Err(PyramidFault::Malformed(document_error(body)->Some_0)),
        Ok(v) => match member_text(v, "datasource_id"@) {
            None => Err(PyramidFault::MissingId),
            Some(datasource_id) => match schedule_text(v) {
                Some(date) => if has_queue {
                    match moment_of(date) {
                        Ok(at) => Ok(
                            PyramidPlanView::Schedule { job: pyramid_job(datasource_id, at, v) },
                        ),
                        Err(m) => Err(PyramidFault::BadDate(m)),
                    }
                } else {
                    Ok(PyramidPlanView::Rebuild { datasource_id })
                },
                None => Ok(PyramidPlanView::Rebuild { datasource_id }),
            },
        },
    }
}

/// Reads a posted pyramid request.
pub fn pyramid_plan(body: &[u8], has_queue: bool) -> (r: Result<PyramidPlan, PyramidError>)
    ensures
        r matches Ok(p) ==> pyramid_plan_of(body@, has_queue) == Ok::<
            PyramidPlanView,
            PyramidFault,
        >(p@),
        r matches Err(e) ==> pyramid_plan_of(body@, has_queue) == Err::<
            PyramidPlanView,
            PyramidFault,
        >(e@),
{
    let v = match parse(body) {
        Ok(v) => v,
        Err(message) => {
            return Err(PyramidError::Malformed { message });
        },
    };
    let datasource_id = match get_text(&v, "datasource_id") {
        Some(id) => id,
        None => {
            return Err(PyramidError::MissingId);
        },
    };
    if has_queue {
        let date = match member(&v, "scheduled_for") {
            Some(m) => match string_of(m) {
                Some(s) => Some(s.to_owned()),
                None => None,
            },
            None => None,
        };
        match date {
            Some(date) => {
                return match parse_rfc3339(date.as_str()) {
                    Ok(at) => Ok(
                        PyramidPlan::Schedule {
                            job: JobDetail {
                                jt: JobType::Pyramid { datasource_id },
                                name: String::from_str("Pyramid"),
                                scheduled_for: Some(at),
                                data: v,
                            },
                        },
                    ),
                    Err(message) => Err(PyramidError::BadDate { message }),
                };
            },
            None => {},
        }
    }
    Ok(PyramidPlan::Rebuild { datasource_id })
}

/// The sentence that confirms a scheduled build.
pub open spec fn scheduled_text(datasource_id: Seq<char>) -> Seq<char> {
    "Pyramid for DataSource '"@ + datasource_id + "' successfully scheduled"@
}

/// The answer to a request whose job was put in the queue: 202.
pub fn scheduled_response(datasource_id: &str) -> (r: HttpResponse)
    ensures
        r@ == status_report(202, scheduled_text(datasource_id@)),
{
    let mut m = String::from_str("Pyramid for DataSource '");
    m.append(datasource_id);
    m.append("' successfully scheduled");
    status_response(202, m.as_str())
}

/// The sentence that reports a job the queue did not take.
pub open spec fn not_queued_text(datasource_id: Seq<char>, error: Seq<char>) -> Seq<char> {
    "Error send job detail for DataSource "@ + datasource_id + ": "@ + error
}

/// The answer to a request whose job the queue did not take: 500.
pub fn not_queued_response(datasource_id: &str, error: &str) -> (r: HttpResponse)
    ensures
        r@ == status_report(500, not_queued_text(datasource_id@, error@)),
{
    let mut m = String::from_str("Error send job detail for DataSource ");
    m.append(datasource_id);
    m.append(": ");
    m.append(error);
    assert(m@ =~= not_queued_text(datasource_id@, error@));
    status_response(500, m.as_str())
}

/// Who rebuilds a pyramid.
#[derive(Debug, Clone, Copy, PartialEq, Eq, Structural)]
pub enum Builder {
    /// The handler of a posted request.
    Endpoint,
    /// The job runner.
    Runner,
}

/// Where a rebuild stands.
#[derive(Debug, Clone, Copy, PartialEq, Eq, Structural)]
pub enum RebuildState {
    Start,
    /// The handle of the cache database is being closed and removed.
    Closing,
    /// The three files of the cache database are being looked for.
    Probing,
    /// The three files are being deleted.
    Removing,
    /// The datasource's tile directory is being set up.
    Init,
    /// The first worker is building.
    Worker,
    Done,
}

/// What the caller found.
#[derive(Debug, Clone, Copy, PartialEq, Eq, Structural)]
pub enum RebuildEvent {
    Begin,
    /// The registry of handles was told to drop the database's handle.
    Closed,
    /// Which of the database, its write-ahead log and its shared-memory
    /// file exist.
    Files { database: bool, wal: bool, shm: bool },
    /// The files were deleted, as far as they could be.
    Removed,
    /// The tile directory is set up, or was there already.
    InitDone,
    /// The relational store does not know the datasource.
    InitUnknown,
    WorkerReplied,
    WorkerFailed,
}

/// How a rebuild ends.
#[derive(Debug, Clone, Copy, PartialEq, Eq, Structural)]
pub enum RebuildReply {
    /// The worker's reply, as it came.
    Worker,
    /// Status 500 without content: the worker could not be reached.
    WorkerUnreachable,
    /// Status 404: the datasource is unknown.
    UnknownDatasource,
    /// Status 500 without content: an event that the state does not await.
    OutOfTurn,
}

/// What the caller does next.
#[derive(Debug, Clone, Copy, PartialEq, Eq, Structural)]
pub enum RebuildAction {
    /// Tell the registry of handles to close the handle of the cache
    /// database and to delete the database file.
    CloseHandle,
    /// Wait a tenth of a second, then look which of the three files exist.
    ProbeFiles,
    /// Delete the database, its write-ahead log and its shared-memory file.
    RemoveFiles,
    /// Set up the datasource's tile directory.
    InitCache,
    /// Pass the request to the first worker of the pool.
    CallFirstWorker,
    Finish { reply: RebuildReply },
}

/// The three files of a cache database are deleted together or not at all.
pub open spec fn removes_files(database: bool, wal: bool, shm: bool) -> bool {
    database && wal && shm
}

/// One step of a rebuild. The handler of a request deletes the files of the
/// cache database and gives up on an unknown datasource; the job runner
/// does neither.
pub open spec fn rebuild_next(builder: Builder, state: RebuildState, event: RebuildEvent) -> (
    RebuildState,
    RebuildAction,
) {
    match (state, event) {
        (RebuildState::Start, RebuildEvent::Begin) => (
            RebuildState::Closing,
            RebuildAction::CloseHandle,
        ),
        (RebuildState::Closing, RebuildEvent::Closed) => match builder {
            Builder::Endpoint => (RebuildState::Probing, RebuildAction::ProbeFiles),
            Builder::Runner => (RebuildState::Init, RebuildAction::InitCache),
        },
        (RebuildState::Probing, RebuildEvent::Files { database, wal, shm }) => if removes_files(
            database,
            wal,
            shm,
        ) {
            (RebuildState::Removing, RebuildAction::RemoveFiles)
        } else {
            (RebuildState::Init, RebuildAction::InitCache)
        },
        (RebuildState::Removing, RebuildEvent::Removed) => (
            RebuildState::Init,
            RebuildAction::InitCache,
        ),
        (RebuildState::Init, RebuildEvent::InitDone) => (
            RebuildState::Worker,
            RebuildAction::CallFirstWorker,
        ),
        (RebuildState::Init, RebuildEvent::InitUnknown) => match builder {
            Builder::Endpoint => (
                RebuildState::Done,
                RebuildAction::Finish { reply: RebuildReply::UnknownDatasource },
            ),
            Builder::Runner => (RebuildState::Worker, RebuildAction::CallFirstWorker),
        },
        (RebuildState::Worker, RebuildEvent::WorkerReplied) => (
            RebuildState::Done,
            RebuildAction::Finish { reply: RebuildReply::Worker },
        ),
        (RebuildState::Worker, RebuildEvent::WorkerFailed) => (
            RebuildState::Done,
            RebuildAction::Finish { reply: RebuildReply::WorkerUnreachable },
        ),
        _ => (RebuildState::Done, RebuildAction::Finish { reply: RebuildReply::OutOfTurn }),
    }
}

/// One step of a rebuild.
pub fn rebuild_step(builder: Builder, state: RebuildState, event: RebuildEvent) -> (r: (
    RebuildState,
    RebuildAction,
))
    ensures
        r == rebuild_next(builder, state, event),
{
    let out_of_turn = (
        RebuildState::Done,
        RebuildAction::Finish { reply: RebuildReply::OutOfTurn },
    );
    match state {
        RebuildState::Start => match event {
            RebuildEvent::Begin => (RebuildState::Closing, RebuildAction::CloseHandle),
            _ => out_of_turn,
        },
        RebuildState::Closing => match event {
            RebuildEvent::Closed => match builder {
                Builder::Endpoint => (RebuildState::Probing, RebuildAction::ProbeFiles),
                Builder::Runner => (RebuildState::Init, RebuildAction::InitCache),
            },
            _ => out_of_turn,
        },
        RebuildState::Probing => match event {
            RebuildEvent::Files { database, wal, shm } => if database && wal && shm {
                (RebuildState::Removing, RebuildAction::RemoveFiles)
            } else {
                (RebuildState::Init, RebuildAction::InitCache)
            },
            _ => out_of_turn,
        },
        RebuildState::Removing => match event {
            RebuildEvent::Removed => (RebuildState::Init, RebuildAction::InitCache),
            _ => out_of_turn,
        },
        RebuildState::Init => match event {
            RebuildEvent::InitDone => (RebuildState::Worker, RebuildAction::CallFirstWorker),
            RebuildEvent::InitUnknown => match builder {
                Builder::Endpoint => (
                    RebuildState::Done,
                    RebuildAction::Finish { reply: RebuildReply::UnknownDatasource },
                ),
                Builder::Runner => (RebuildState::Worker, RebuildAction::CallFirstWorker),
            },
            _ => out_of_turn,
        },
        RebuildState::Worker => match event {
            RebuildEvent::WorkerReplied => (
                RebuildState::Done,
                RebuildAction::Finish { reply: RebuildReply::Worker },
            ),
            RebuildEvent::WorkerFailed => (
                RebuildState::Done,
                RebuildAction::Finish { reply: RebuildReply::WorkerUnreachable },
            ),
            _ => out_of_turn,
        },
        RebuildState::Done => out_of_turn,
    }
}

/// What the proxy writes itself for the end of a rebuild: nothing where the
/// worker's answer is the answer, 404 for an unknown datasource, 500 without
/// content where the worker could not be reached.
pub open spec fn rebuild_answer_of(reply: RebuildReply, datasource_id: Seq<char>) -> Option<
    ResponseView,
> {
    match reply {
        RebuildReply::Worker => None,
        RebuildReply::UnknownDatasource => Some(
            status_report(404, unknown_datasource_text(datasource_id)),
        ),
        RebuildReply::WorkerUnreachable | RebuildReply::OutOfTurn => Some(bare_response(500)),
    }
}

/// The answer that ends a rebuild.
pub fn rebuild_answer(reply: RebuildReply, datasource_id: &str) -> (r: Option<HttpResponse>)
    ensures
        r is Some <==> rebuild_answer_of(reply, datasource_id@) is Some,
        r matches Some(a) ==> rebuild_answer_of(reply, datasource_id@) == Some(a@),
{
    match reply {
        RebuildReply::Worker => None,
        RebuildReply::UnknownDatasource => Some(unknown_datasource_response(datasource_id)),
        RebuildReply::WorkerUnreachable => Some(error_response(500)),
        RebuildReply::OutOfTurn => Some(error_response(500)),
    }
}

/// The worker that builds pyramids: the first of the pool, so that all build
/// traffic meets on one worker.
pub fn pyramid_worker(ports: &Vec<u16>) -> (r: Option<u16>)
    ensures
        r == (if ports@.len() > 0 {
            Some(ports@[0])
        } else {
            None
        }),
{
    if ports.len() > 0 {
        Some(ports[0])
    } else {
        None
    }
}

/// The files of a cache database are deleted only if all three exist, and
/// the worker is called only after the handle was closed and the tile
/// directory was looked after.
pub proof fn lemma_rebuild_order(builder: Builder, state: RebuildState, event: RebuildEvent)
    ensures
        rebuild_next(builder, state, event).1 == RebuildAction::RemoveFiles ==> state
            == RebuildState::Probing && event == (RebuildEvent::Files {
            database: true,
            wal: true,
            shm: true,
        }),
        builder == Builder::Runner ==> rebuild_next(builder, state, event).0
            != RebuildState::Probing,
        rebuild_next(builder, state, event).1 == RebuildAction::CallFirstWorker ==> state
            == RebuildState::Init,
        rebuild_next(builder, state, event).1 == RebuildAction::InitCache ==> state
            != RebuildState::Start,
{
}

} // verus!
