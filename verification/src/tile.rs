//! The tile path: a tile URI is resolved to a request, and the request is
//! answered from the disk cache, from the cache database, or by a worker
//! under an admission permit. The caller does the reading and the sending;
//! every decision in between is taken here.
use vstd::prelude::*;
use crate::datasource::{DataSourceInfo, DataSourceInfoView};
use crate::http::{
    HttpResponse, ResponseView, bare_response, empty_file_response, error_response,
    hollow_response, no_content_response, served_tile, status_report, status_response,
    tile_response,
};
use crate::structs::ContentType;
use crate::text::{decimal, push_decimal, split, split_str, str_views};
use crate::utils::{
    DiskPath, UriError, UriFault, dataset_dir_from_uri, dataset_dir_of, extension_of,
    file_extension, file_path_from_uri, file_path_of, joined, zxy_from_uri, zxy_of,
};

verus! {

/// The deepest zoom level that is served.
pub const MAXZOOM: u8 = 24;

/// A tile request, resolved.
#[derive(Debug, Clone)]
pub struct TileRequest {
    pub datasource_id: String,
    /// The directory of the datasource's tiles.
    pub dataset_dir: DiskPath,
    /// The file that caches the tile on disk.
    pub file: DiskPath,
    pub content_type: ContentType,
    pub x: u64,
    pub y: u64,
    pub z: u8,
}

/// `TileRequest` over mathematical text.
pub struct TileRequestView {
    pub datasource_id: Seq<char>,
    pub dataset_dir: Seq<Seq<char>>,
    pub file: Seq<Seq<char>>,
    pub content_type: ContentType,
    pub x: u64,
    pub y: u64,
    pub z: u8,
}

impl View for TileRequest {
    type V = TileRequestView;

    open spec fn view(&self) -> TileRequestView {
        TileRequestView {
            datasource_id: self.datasource_id@,
            dataset_dir: self.dataset_dir@,
            file: self.file@,
            content_type: self.content_type,
            x: self.x,
            y: self.y,
            z: self.z,
        }
    }
}

/// Why a tile URI is turned down.
#[derive(Debug, Clone)]
pub enum TileReject {
    /// The URI names no tile: answered with 400.
    BadRequest { error: UriError },
    /// The tile's file name has no extension: answered with 500.
    NoExtension { file: DiskPath },
    /// The zoom level is above the maximum: answered with 400.
    Zoom { z: u8, max_zoom: u8 },
}

/// `TileReject` over mathematical text.
pub enum TileRejectView {
    BadRequest(UriFault),
    NoExtension(Seq<Seq<char>>),
    Zoom { z: u8, max_zoom: u8 },
}

impl View for TileReject {
    type V = TileRejectView;

    open spec fn view(&self) -> TileRejectView {
        match self {
            TileReject::BadRequest { error } => TileRejectView::BadRequest(error@),
            TileReject::NoExtension { file } => TileRejectView::NoExtension(file@),
            TileReject::Zoom { z, max_zoom } => TileRejectView::Zoom { z: *z, max_zoom: *max_zoom },
        }
    }
}

impl TileRejectView {
    /// The status that answers the request.
    pub open spec fn status(self) -> u16 {
        match self {
            TileRejectView::NoExtension(_) => 500,
            _ => 400,
        }
    }

    /// The sentence that reports the error.
    pub open spec fn text(self) -> Seq<char> {
        match self {
            TileRejectView::BadRequest(e) => e.text(),
            TileRejectView::NoExtension(file) => "Extension of tile file '"@ + joined(file)
                + "' is None"@,
            TileRejectView::Zoom { z, max_zoom } => "Requested zoom '"@ + decimal(z as nat)
                + "' must be in range 0-"@ + decimal(max_zoom as nat),
        }
    }
}

impl TileReject {
    /// The answer to the request that was turned down.
    pub fn response(&self) -> (r: HttpResponse)
        ensures
            r@ == status_report(self@.status(), self@.text()),
    {
        match self {
            TileReject::BadRequest { error } => {
                let m = error.message();
                status_response(400, m.as_str())
            },
            TileReject::NoExtension { file } => {
                let mut m = String::from_str("Extension of tile file '");
                let p = file.to_string();
                m.append(p.as_str());
                m.append("' is None");
                status_response(500, m.as_str())
            },
            TileReject::Zoom { z, max_zoom } => {
                let mut m = String::from_str("Requested zoom '");
                push_decimal(&mut m, *z as u64);
                m.append("' must be in range 0-");
                push_decimal(&mut m, *max_zoom as u64);
                assert(m@ =~= self@.text());
                status_response(400, m.as_str())
            },
        }
    }
}

/// What a tile URI asks for, under the working directory `cwd` and with
/// zoom levels up to `max_zoom`. The checks are made in this order: the
/// path has seven elements; `z` and `x` are numbers; the file name has an
/// extension; `z`, `x`, `y` fit their types and the extension is a tile
/// format; the zoom level is within bounds.
pub open spec fn tile_request_of(cwd: Seq<char>, path: Seq<char>, max_zoom: u8) -> Result<
    TileRequestView,
    TileRejectView,
> {
    match dataset_dir_of(cwd, path) {
        Err(e) => Err(TileRejectView::BadRequest(e)),
        Ok(dataset_dir) => match file_path_of(cwd, path) {
            Err(e) => Err(TileRejectView::BadRequest(e)),
            Ok(file) => match extension_of(split(path, '/')[6]) {
                None => Err(TileRejectView::NoExtension(file)),
                Some(ext) => match zxy_of(path) {
                    Err(e) => Err(TileRejectView::BadRequest(e)),
                    Ok((x, y, z)) => if z > max_zoom {
                        Err(TileRejectView::Zoom { z, max_zoom })
                    } else {
                        Ok(
                            TileRequestView {
                                datasource_id: split(path, '/')[3],
                                dataset_dir,
                                file,
                                content_type: ContentType::of_extension(ext),
                                x,
                                y,
                                z,
                            },
                        )
                    },
                },
            },
        },
    }
}

/// Resolves a tile URI.
pub fn tile_request(cwd: &str, path: &str, max_zoom: u8) -> (r: Result<TileRequest, TileReject>)
    ensures
        r matches Ok(t) ==> tile_request_of(cwd@, path@, max_zoom) == Ok::<
            TileRequestView,
            TileRejectView,
        >(t@),
        r matches Err(e) ==> tile_request_of(cwd@, path@, max_zoom) == Err::<
            TileRequestView,
            TileRejectView,
        >(e@),
{
    let dataset_dir = match dataset_dir_from_uri(cwd, path) {
        Ok(d) => d,
        Err(error) => {
            return Err(TileReject::BadRequest { error });
        },
    };
    let file = match file_path_from_uri(cwd, path) {
        Ok(f) => f,
        Err(error) => {
            return Err(TileReject::BadRequest { error });
        },
    };
    let elements = split_str(path, '/');
    assert(str_views(elements@).len() == elements@.len());
    let ext = match file_extension(elements[6]) {
        Some(e) => e,
        None => {
            return Err(TileReject::NoExtension { file });
        },
    };
    let content_type = ContentType::for_extension(ext);
    let (x, y, z) = match zxy_from_uri(path) {
        Ok(v) => v,
        Err(error) => {
            return Err(TileReject::BadRequest { error });
        },
    };
    if z > max_zoom {
        return Err(TileReject::Zoom { z, max_zoom });
    }
    Ok(
        TileRequest {
            datasource_id: elements[3].to_owned(),
            dataset_dir,
            file,
            content_type,
            x,
            y,
            z,
        },
    )
}

/// The two front ends that serve tiles.
#[derive(Debug, Clone, Copy, PartialEq, Eq, Structural)]
pub enum Front {
    /// The proxy: disk cache, cache database, then a worker.
    Proxy,
    /// The cache-only front end: the cache database alone.
    CacheOnly,
}

/// Where the handling of a tile request stands.
#[derive(Debug, Clone, Copy, PartialEq, Eq, Structural)]
pub enum TileState {
    Start,
    /// The tile's file is being read.
    Disk,
    /// The cache database is being asked.
    Cache,
    /// The datasource's tile directory is being set up.
    Init,
    /// The registry is being asked for the datasource.
    Registry,
    /// A permit for the worker's port is awaited.
    Permit,
    /// The worker is working, under the permit that was granted.
    Worker,
    Done,
}

/// What the caller found.
#[derive(Debug, Clone, Copy, PartialEq, Eq, Structural)]
pub enum TileEvent {
    /// The request was resolved.
    Begin,
    /// The tile's file is not there or cannot be read.
    DiskMissing,
    /// The tile's file is empty.
    DiskEmpty,
    /// The tile's file was read.
    DiskContent,
    /// The datasource has no cache database.
    CacheAbsent,
    /// The cache database does not hold the tile, or could not be asked.
    CacheMiss,
    /// The cache database holds the tile.
    CacheHit,
    /// The tile directory is set up, or was there already.
    InitDone,
    /// The relational store does not know the datasource.
    InitUnknown,
    /// The registry answered; `use_cache_only` is the datasource's setting,
    /// false where it has none or the datasource is unknown.
    Registry { use_cache_only: bool },
    /// The wait for a permit ended, with a permit or without one.
    Permit { granted: bool },
    /// The worker replied.
    WorkerReplied,
    /// The worker could not be reached.
    WorkerFailed,
}

/// What the proxy writes itself at the end of a tile request.
#[derive(Debug, Clone, Copy, PartialEq, Eq, Structural)]
pub enum TileReply {
    /// The tile that was read, with its content type: status 200.
    Tile,
    /// Status 400 without content: the tile's file is empty.
    EmptyFile,
    /// Status 204: no cache holds the tile and no worker is asked.
    NoContent,
    /// Status 404: the datasource is unknown.
    UnknownDatasource,
    /// Status 400: the datasource has no cache database.
    CacheUnavailable,
    /// The worker's reply, as it came.
    Worker,
    /// Status 500 without content: the worker could not be reached.
    WorkerUnreachable,
    /// Status 500 without content: the wait for a permit ended without one,
    /// so the worker is not called.
    NoPermit,
    /// Status 500 without content: an event that the state does not await.
    OutOfTurn,
}

/// What the caller does next.
#[derive(Debug, Clone, Copy, PartialEq, Eq, Structural)]
pub enum TileAction {
    /// Read the tile's file.
    ReadDisk,
    /// Ask the cache database for the tile.
    QueryCache,
    /// Set up the datasource's tile directory.
    InitCache,
    /// Ask the registry for the datasource.
    AskRegistry,
    /// Ask for a permit of the worker's port and wait for it.
    AcquirePermit,
    /// Pass the request to the worker.
    CallWorker,
    /// Answer, after dropping the permit where `release` is set.
    Finish { release: bool, reply: TileReply },
}

/// An answer that holds no permit.
pub open spec fn finish(reply: TileReply) -> (TileState, TileAction) {
    (TileState::Done, TileAction::Finish { release: false, reply })
}

/// One step of a tile request: from where it stands and what was found, to
/// where it stands next and what is to be done.
pub open spec fn tile_next(front: Front, state: TileState, event: TileEvent) -> (
    TileState,
    TileAction,
) {
    match (state, event) {
        (TileState::Start, TileEvent::Begin) => match front {
            Front::Proxy => (TileState::Disk, TileAction::ReadDisk),
            Front::CacheOnly => (TileState::Cache, TileAction::QueryCache),
        },
        (TileState::Disk, TileEvent::DiskContent) => finish(TileReply::Tile),
        (TileState::Disk, TileEvent::DiskEmpty) => finish(TileReply::EmptyFile),
        (TileState::Disk, TileEvent::DiskMissing) => (TileState::Cache, TileAction::QueryCache),
        (TileState::Cache, TileEvent::CacheHit) => finish(TileReply::Tile),
        (TileState::Cache, TileEvent::CacheMiss) => match front {
            Front::Proxy => (TileState::Registry, TileAction::AskRegistry),
            Front::CacheOnly => finish(TileReply::NoContent),
        },
        (TileState::Cache, TileEvent::CacheAbsent) => match front {
            Front::Proxy => (TileState::Init, TileAction::InitCache),
            Front::CacheOnly => finish(TileReply::CacheUnavailable),
        },
        (TileState::Init, TileEvent::InitDone) => (TileState::Registry, TileAction::AskRegistry),
        (TileState::Init, TileEvent::InitUnknown) => finish(TileReply::UnknownDatasource),
        (TileState::Registry, TileEvent::Registry { use_cache_only }) => if use_cache_only {
            finish(TileReply::NoContent)
        } else {
            (TileState::Permit, TileAction::AcquirePermit)
        },
        (TileState::Permit, TileEvent::Permit { granted }) => if granted {
            (TileState::Worker, TileAction::CallWorker)
        } else {
            finish(TileReply::NoPermit)
        },
        (TileState::Worker, TileEvent::WorkerReplied) => (
            TileState::Done,
            TileAction::Finish { release: true, reply: TileReply::Worker },
        ),
        (TileState::Worker, _) => (
            TileState::Done,
            TileAction::Finish { release: true, reply: TileReply::WorkerUnreachable },
        ),
        _ => finish(TileReply::OutOfTurn),
    }
}

/// One step of a tile request.
pub fn tile_step(front: Front, state: TileState, event: TileEvent) -> (r: (TileState, TileAction))
    ensures
        r == tile_next(front, state, event),
{
    let out_of_turn = (
        TileState::Done,
        TileAction::Finish { release: false, reply: TileReply::OutOfTurn },
    );
    match state {
        TileState::Start => match event {
            TileEvent::Begin => match front {
                Front::Proxy => (TileState::Disk, TileAction::ReadDisk),
                Front::CacheOnly => (TileState::Cache, TileAction::QueryCache),
            },
            _ => out_of_turn,
        },
        TileState::Disk => match event {
            TileEvent::DiskContent => (
                TileState::Done,
                TileAction::Finish { release: false, reply: TileReply::Tile },
            ),
            TileEvent::DiskEmpty => (
                TileState::Done,
                TileAction::Finish { release: false, reply: TileReply::EmptyFile },
            ),
            TileEvent::DiskMissing => (TileState::Cache, TileAction::QueryCache),
            _ => out_of_turn,
        },
        TileState::Cache => match event {
            TileEvent::CacheHit => (
                TileState::Done,
                TileAction::Finish { release: false, reply: TileReply::Tile },
            ),
            TileEvent::CacheMiss => match front {
                Front::Proxy => (TileState::Registry, TileAction::AskRegistry),
                Front::CacheOnly => (
                    TileState::Done,
                    TileAction::Finish { release: false, reply: TileReply::NoContent },
                ),
            },
            TileEvent::CacheAbsent => match front {
                Front::Proxy => (TileState::Init, TileAction::InitCache),
                Front::CacheOnly => (
                    TileState::Done,
                    TileAction::Finish { release: false, reply: TileReply::CacheUnavailable },
                ),
            },
            _ => out_of_turn,
        },
        TileState::Init => match event {
            TileEvent::InitDone => (TileState::Registry, TileAction::AskRegistry),
            TileEvent::InitUnknown => (
                TileState::Done,
                TileAction::Finish { release: false, reply: TileReply::UnknownDatasource },
            ),
            _ => out_of_turn,
        },
        TileState::Registry => match event {
            TileEvent::Registry { use_cache_only } => if use_cache_only {
                (
                    TileState::Done,
                    TileAction::Finish { release: false, reply: TileReply::NoContent },
                )
            } else {
                (TileState::Permit, TileAction::AcquirePermit)
            },
            _ => out_of_turn,
        },
        TileState::Permit => match event {
            TileEvent::Permit { granted } => if granted {
                (TileState::Worker, TileAction::CallWorker)
            } else {
                (
                    TileState::Done,
                    TileAction::Finish { release: false, reply: TileReply::NoPermit },
                )
            },
            _ => out_of_turn,
        },
        TileState::Worker => match event {
            TileEvent::WorkerReplied => (
                TileState::Done,
                TileAction::Finish { release: true, reply: TileReply::Worker },
            ),
            _ => (
                TileState::Done,
                TileAction::Finish { release: true, reply: TileReply::WorkerUnreachable },
            ),
        },
        TileState::Done => out_of_turn,
    }
}

/// What a look at the tile's file amounts to: a file that is not there, or
/// that is there with content but cannot be read, is missing; a file of
/// length zero is empty.
pub open spec fn disk_event_of(length: Option<u64>, readable: bool) -> TileEvent {
    match length {
        None => TileEvent::DiskMissing,
        Some(n) => if n == 0 {
            TileEvent::DiskEmpty
        } else if readable {
            TileEvent::DiskContent
        } else {
            TileEvent::DiskMissing
        },
    }
}

/// The event for a look at the tile's file: `length` is its length where it
/// exists, `readable` whether its content could be read.
pub fn disk_event(length: Option<u64>, readable: bool) -> (e: TileEvent)
    ensures
        e == disk_event_of(length, readable),
{
    match length {
        None => TileEvent::DiskMissing,
        Some(n) => if n == 0 {
            TileEvent::DiskEmpty
        } else if readable {
            TileEvent::DiskContent
        } else {
            TileEvent::DiskMissing
        },
    }
}

/// Whether a datasource is served from its caches alone: its setting, and
/// false for a datasource without the setting and for an unknown one.
pub open spec fn cache_only_of(info: Option<DataSourceInfoView>) -> bool {
    match info {
        Some(i) => match i.use_cache_only {
            Some(b) => b,
            None => false,
        },
        None => false,
    }
}

/// The event for what the registry answered.
pub fn registry_event(info: &Option<DataSourceInfo>) -> (e: TileEvent)
    ensures
        e == (TileEvent::Registry {
            use_cache_only: cache_only_of(
                match info {
                    Some(i) => Some(i@),
                    None => None,
                },
            ),
        }),
{
    let use_cache_only = match info {
        Some(i) => match i.use_cache_only {
            Some(b) => b,
            None => false,
        },
        None => false,
    };
    TileEvent::Registry { use_cache_only }
}

/// The sentence that reports a datasource the relational store lacks.
pub open spec fn unknown_datasource_text(datasource_id: Seq<char>) -> Seq<char> {
    "DataSource with id '"@ + datasource_id + "' does not exists"@
}

/// The answer for a datasource the relational store lacks: 404.
pub fn unknown_datasource_response(datasource_id: &str) -> (r: HttpResponse)
    ensures
        r@ == status_report(404, unknown_datasource_text(datasource_id@)),
{
    let mut m = String::from_str("DataSource with id '");
    m.append(datasource_id);
    m.append("' does not exists");
    status_response(404, m.as_str())
}

/// The answer of the cache-only front end for a datasource without a cache
/// database: 400 with the path and the error that the search gave.
pub fn cache_unavailable_response(path: &str, error: &str) -> (r: HttpResponse)
    ensures
        r@ == status_report(400, path@ + ": "@ + error@),
{
    let mut m = path.to_owned();
    m.append(": ");
    m.append(error);
    status_response(400, m.as_str())
}

/// Whether a datasource gets a cache database when its tile directory is
/// set up: only where its `mbtiles` flag is set.
pub fn wants_cache_database(mbtiles: Option<bool>) -> (r: bool)
    ensures
        r == (mbtiles == Some(true)),
{
    match mbtiles {
        Some(b) => b,
        None => false,
    }
}

/// Cache-only short-circuit: for a datasource that is served from its caches
/// alone, a miss is answered with 204, and no step that follows a miss asks
/// for a permit or calls a worker. A permit is asked for in one place only:
/// after the registry said that the datasource is not cache-only.
pub proof fn lemma_cache_only_short_circuit(front: Front, state: TileState, event: TileEvent)
    ensures
        tile_next(front, TileState::Registry, TileEvent::Registry { use_cache_only: true })
            == finish(TileReply::NoContent),
        tile_next(front, state, event).1 == TileAction::AcquirePermit ==> state
            == TileState::Registry && event == (TileEvent::Registry { use_cache_only: false }),
        tile_next(front, state, event).1 == TileAction::CallWorker ==> state == TileState::Permit,
        tile_next(front, state, event).0 == TileState::Permit ==> tile_next(front, state, event).1
            == TileAction::AcquirePermit,
        tile_next(front, TileState::Done, event).0 == TileState::Done,
        front == Front::CacheOnly && (state == TileState::Start || state == TileState::Cache)
            ==> tile_next(front, state, event).0 == TileState::Cache || tile_next(
            front,
            state,
            event,
        ).0 == TileState::Done,
{
}

/// What the caller is told to do, step by step, as the events of `events`
/// come in from the state `state`.
pub open spec fn tile_trace(front: Front, state: TileState, events: Seq<TileEvent>) -> Seq<
    TileAction,
>
    decreases events.len(),
{
    if events.len() == 0 {
        Seq::<TileAction>::empty()
    } else {
        let step = tile_next(front, state, events[0]);
        seq![step.1] + tile_trace(front, step.0, events.drop_first())
    }
}

/// Every answer of the registry among `events` says that the datasource is
/// served from its caches alone.
pub open spec fn registry_says_cache_only(events: Seq<TileEvent>) -> bool {
    forall|i: int|
        0 <= i < events.len() ==> (#[trigger] events[i] matches TileEvent::Registry {
            use_cache_only,
        } ==> use_cache_only)
}

/// For a datasource that is served from its caches alone, no course of
/// events leads to a permit or to a worker: whatever the caller finds, from
/// the start of the request on it is never told to ask for a permit or to
/// call a worker.
pub proof fn lemma_cache_only_never_reaches_a_worker(
    front: Front,
    state: TileState,
    events: Seq<TileEvent>,
)
    requires
        state !is Permit,
        state !is Worker,
        registry_says_cache_only(events),
    ensures
        tile_trace(front, state, events).len() == events.len(),
        forall|i: int|
            0 <= i < events.len() ==> (#[trigger] tile_trace(front, state, events)[i])
                != TileAction::AcquirePermit && tile_trace(front, state, events)[i]
                != TileAction::CallWorker,
    decreases events.len(),
{
    if events.len() > 0 {
        let step = tile_next(front, state, events[0]);
        let rest = events.drop_first();
        assert(events[0] matches TileEvent::Registry { use_cache_only } ==> use_cache_only);
        assert forall|i: int| 0 <= i < rest.len() implies (#[trigger] rest[i] matches TileEvent::Registry {
            use_cache_only,
        } ==> use_cache_only) by {
            assert(rest[i] == events[i + 1]);
        }
        lemma_cache_only_never_reaches_a_worker(front, step.0, rest);
        let trace = tile_trace(front, state, events);
        let tail = tile_trace(front, step.0, rest);
        assert forall|i: int| 0 <= i < events.len() implies (#[trigger] trace[i])
            != TileAction::AcquirePermit && trace[i] != TileAction::CallWorker by {
            if i > 0 {
                assert(trace[i] == tail[i - 1]);
            }
        }
    }
}

/// A worker is called only under a permit, and the permit is released
/// exactly when the request ends: the call follows a wait that ended with a
/// permit, and whatever comes of the call, the step that follows finishes
/// the request and releases the permit. A wait that ended without a permit
/// ends the request with 500 and calls no worker.
pub proof fn lemma_permit_released(front: Front, state: TileState, event: TileEvent)
    ensures
        tile_next(front, TileState::Permit, TileEvent::Permit { granted: true }) == (
            TileState::Worker,
            TileAction::CallWorker,
        ),
        tile_next(front, TileState::Permit, TileEvent::Permit { granted: false }) == finish(
            TileReply::NoPermit,
        ),
        tile_next(front, state, event).1 == TileAction::CallWorker ==> state == TileState::Permit
            && event == (TileEvent::Permit { granted: true }),
        tile_next(front, TileState::Worker, event).0 == TileState::Done,
        tile_next(front, TileState::Worker, event).1 is Finish,
        tile_next(front, TileState::Worker, event).1->release,
{
}

/// A request holds a permit only while the worker works: every step that
/// finishes from another state releases nothing.
pub proof fn lemma_no_permit_elsewhere(front: Front, state: TileState, event: TileEvent)
    ensures
        tile_next(front, state, event).1 matches TileAction::Finish { release: true, reply }
            ==> state == TileState::Worker,
{
}

/// What the proxy writes itself for the end of a tile request: nothing
/// where the worker's answer is the answer.
pub open spec fn tile_answer_of(
    reply: TileReply,
    request: TileRequestView,
    tile: Seq<u8>,
    path: Seq<char>,
    search_error: Seq<char>,
) -> Option<ResponseView> {
    match reply {
        TileReply::Tile => Some(served_tile(tile, request.content_type.value())),
        TileReply::EmptyFile => Some(hollow_response(400)),
        TileReply::NoContent => Some(hollow_response(204)),
        TileReply::UnknownDatasource => Some(
            status_report(404, unknown_datasource_text(request.datasource_id)),
        ),
        TileReply::CacheUnavailable => Some(status_report(400, path + ": "@ + search_error)),
        TileReply::Worker => None,
        TileReply::WorkerUnreachable | TileReply::NoPermit | TileReply::OutOfTurn => Some(
            bare_response(500),
        ),
    }
}

/// The answer that ends a tile request. `tile` is the tile that was read,
/// `path` the path of the request, `search_error` what the search for the
/// cache database gave; each is read only by the reply that shows it.
pub fn tile_answer(
    reply: TileReply,
    request: &TileRequest,
    tile: Vec<u8>,
    path: &str,
    search_error: &str,
) -> (r: Option<HttpResponse>)
    ensures
        r is Some <==> tile_answer_of(reply, request@, tile@, path@, search_error@) is Some,
        r matches Some(a) ==> tile_answer_of(reply, request@, tile@, path@, search_error@) == Some(
            a@,
        ),
{
    match reply {
        TileReply::Tile => Some(tile_response(tile, request.content_type.as_ref())),
        TileReply::EmptyFile => Some(empty_file_response()),
        TileReply::NoContent => Some(no_content_response()),
        TileReply::UnknownDatasource => Some(
            unknown_datasource_response(request.datasource_id.as_str()),
        ),
        TileReply::CacheUnavailable => Some(cache_unavailable_response(path, search_error)),
        TileReply::Worker => None,
        TileReply::WorkerUnreachable => Some(error_response(500)),
        TileReply::NoPermit => Some(error_response(500)),
        TileReply::OutOfTurn => Some(error_response(500)),
    }
}

} // verus!
