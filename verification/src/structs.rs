//! The fixed vocabularies of the HTTP surface: endpoint prefixes, tile file
//! extensions and content types.
use vstd::prelude::*;
use crate::text::str_eq;

verus! {

/// The URI prefixes the router knows.
#[derive(Debug, Clone, Copy, PartialEq, Eq, Structural)]
pub enum EndPoints {
    Tile,
    Pyramid,
    DataSources,
    DataSourcesLoadFiles,
    DataSourcesReloadFiles,
    Health,
    Jobs,
    Debug,
    AddWorkers,
    ReloadWorkers,
    TerminateWorkers,
    InfoWorkers,
    IncreaseLimitConcurrentRequests,
    DecreaseLimitConcurrentRequests,
    Static,
}

impl EndPoints {
    /// The prefix that selects this endpoint.
    pub open spec fn path(self) -> Seq<char> {
        match self {
            EndPoints::Tile => "/api/tile"@,
            EndPoints::Pyramid => "/api/pyramid"@,
            EndPoints::DataSources => "/api/datasources"@,
            EndPoints::DataSourcesLoadFiles => "/api/datasources/load_files"@,
            EndPoints::DataSourcesReloadFiles => "/api/datasources/reload_files"@,
            EndPoints::Health => "/api/health"@,
            EndPoints::Jobs => "/api/jobs"@,
            EndPoints::Debug => "/debug"@,
            EndPoints::AddWorkers => "/maintenance/add_workers"@,
            EndPoints::ReloadWorkers => "/maintenance/reload_workers"@,
            EndPoints::TerminateWorkers => "/maintenance/terminate_workers"@,
            EndPoints::InfoWorkers => "/maintenance/info_workers"@,
            EndPoints::IncreaseLimitConcurrentRequests => "/maintenance/increase_limit_cr"@,
            EndPoints::DecreaseLimitConcurrentRequests => "/maintenance/decrease_limit_cr"@,
            EndPoints::Static => "/static"@,
        }
    }

    /// The prefix that selects this endpoint.
    pub fn as_ref(&self) -> (r: &'static str)
        ensures
            r@ == self.path(),
    {
        match self {
            EndPoints::Tile => "/api/tile",
            EndPoints::Pyramid => "/api/pyramid",
            EndPoints::DataSources => "/api/datasources",
            EndPoints::DataSourcesLoadFiles => "/api/datasources/load_files",
            EndPoints::DataSourcesReloadFiles => "/api/datasources/reload_files",
            EndPoints::Health => "/api/health",
            EndPoints::Jobs => "/api/jobs",
            EndPoints::Debug => "/debug",
            EndPoints::AddWorkers => "/maintenance/add_workers",
            EndPoints::ReloadWorkers => "/maintenance/reload_workers",
            EndPoints::TerminateWorkers => "/maintenance/terminate_workers",
            EndPoints::InfoWorkers => "/maintenance/info_workers",
            EndPoints::IncreaseLimitConcurrentRequests => "/maintenance/increase_limit_cr",
            EndPoints::DecreaseLimitConcurrentRequests => "/maintenance/decrease_limit_cr",
            EndPoints::Static => "/static",
        }
    }
}

/// The tile file extensions that are served.
#[derive(Debug, Clone, Copy, PartialEq, Eq, Structural)]
pub enum Extension {
    Png,
    Pbf,
    Mvt,
}

impl Extension {
    /// The extension as it stands in a file name.
    pub open spec fn name(self) -> Seq<char> {
        match self {
            Extension::Png => "png"@,
            Extension::Pbf => "pbf"@,
            Extension::Mvt => "mvt"@,
        }
    }

    /// The extension as it stands in a file name.
    pub fn as_ref(&self) -> (r: &'static str)
        ensures
            r@ == self.name(),
    {
        match self {
            Extension::Png => "png",
            Extension::Pbf => "pbf",
            Extension::Mvt => "mvt",
        }
    }

    /// The extension that `s` names exactly; `None` for any other text.
    pub open spec fn named(s: Seq<char>) -> Option<Extension> {
        if s == "png"@ {
            Some(Extension::Png)
        } else if s == "pbf"@ {
            Some(Extension::Pbf)
        } else if s == "mvt"@ {
            Some(Extension::Mvt)
        } else {
            None
        }
    }

    /// The extension that `s` names exactly.
    pub fn from_str(s: &str) -> (r: Option<Extension>)
        ensures
            r == Extension::named(s@),
    {
        if str_eq(s, "png") {
            Some(Extension::Png)
        } else if str_eq(s, "pbf") {
            Some(Extension::Pbf)
        } else if str_eq(s, "mvt") {
            Some(Extension::Mvt)
        } else {
            None
        }
    }
}

/// The content types the proxy itself sets.
#[derive(Debug, Clone, Copy, PartialEq, Eq, Structural)]
pub enum ContentType {
    Png,
    MvtPbf,
    ApplicationJson,
    Empty,
}

impl ContentType {
    /// The value of the `Content-Type` header.
    pub open spec fn value(self) -> Seq<char> {
        match self {
            ContentType::Png => "image/png"@,
            ContentType::MvtPbf => "application/vnd.mapbox-vector-tile"@,
            ContentType::ApplicationJson => "application/json"@,
            ContentType::Empty => ""@,
        }
    }

    /// The value of the `Content-Type` header.
    pub fn as_ref(&self) -> (r: &'static str)
        ensures
            r@ == self.value(),
    {
        match self {
            ContentType::Png => "image/png",
            ContentType::MvtPbf => "application/vnd.mapbox-vector-tile",
            ContentType::ApplicationJson => "application/json",
            ContentType::Empty => "",
        }
    }

    /// The content type of a tile whose file has the extension `ext`:
    /// `image/png` for `png`, the vector tile type for `mvt` and `pbf`, the
    /// empty one for anything else.
    pub open spec fn of_extension(ext: Seq<char>) -> ContentType {
        match Extension::named(ext) {
            Some(Extension::Png) => ContentType::Png,
            Some(_) => ContentType::MvtPbf,
            None => ContentType::Empty,
        }
    }

    /// The content type of a tile whose file has the extension `ext`.
    pub fn for_extension(ext: &str) -> (r: ContentType)
        ensures
            r == ContentType::of_extension(ext@),
    {
        match Extension::from_str(ext) {
            Some(Extension::Png) => ContentType::Png,
            Some(_) => ContentType::MvtPbf,
            None => ContentType::Empty,
        }
    }
}

} // verus!
