//! The datasource registry: what a node knows of each datasource, where a
//! datasource lives, and which peers hear of a change.
use vstd::prelude::*;
use crate::json::{get_bool, member_bool};
use crate::text::{push_signed_decimal, signed_decimal};

verus! {

/// What request handlers need to know of a datasource.
#[derive(Debug, Clone)]
pub struct DataSourceInfo {
    pub host: Option<String>,
    pub port: Option<i32>,
    pub use_cache_only: Option<bool>,
    pub compress_tiles: Option<bool>,
}

/// `DataSourceInfo` over mathematical text.
pub struct DataSourceInfoView {
    pub host: Option<Seq<char>>,
    pub port: Option<i32>,
    pub use_cache_only: Option<bool>,
    pub compress_tiles: Option<bool>,
}

/// The view of an optional string.
pub open spec fn option_view(s: Option<String>) -> Option<Seq<char>> {
    match s {
        Some(s) => Some(s@),
        None => None,
    }
}

impl View for DataSourceInfo {
    type V = DataSourceInfoView;

    open spec fn view(&self) -> DataSourceInfoView {
        DataSourceInfoView {
            host: option_view(self.host),
            port: self.port,
            use_cache_only: self.use_cache_only,
            compress_tiles: self.compress_tiles,
        }
    }
}

/// A datasource as the relational store holds it, as far as the proxy reads
/// it.
pub struct DataSource {
    pub identifier: String,
    pub host: Option<String>,
    pub port: Option<i32>,
    /// Whether the datasource has a cache database.
    pub mbtiles: Option<bool>,
    /// Free-form settings.
    pub data: serde_json::Value,
}

impl DataSource {
    /// What handlers are told of this datasource: its home, and the two
    /// settings `use_cache_only` and `compress_tiles` where `data` holds them
    /// as booleans.
    pub open spec fn info_view(&self) -> DataSourceInfoView {
        DataSourceInfoView {
            host: option_view(self.host),
            port: self.port,
            use_cache_only: member_bool(self.data, "use_cache_only"@),
            compress_tiles: member_bool(self.data, "compress_tiles"@),
        }
    }

    /// What handlers are told of this datasource.
    pub fn info(&self) -> (r: DataSourceInfo)
        ensures
            r@ == self.info_view(),
    {
        let host = match &self.host {
            Some(h) => Some(h.clone()),
            None => None,
        };
        DataSourceInfo {
            host,
            port: self.port,
            use_cache_only: get_bool(&self.data, "use_cache_only"),
            compress_tiles: get_bool(&self.data, "compress_tiles"),
        }
    }
}

/// The datasources of the relational store, in the order they were read.
/// Where two rows share an identifier, the later one counts.
pub struct MapDataSources {
    pub datasources: Vec<DataSource>,
}

/// The place of the last of the first `n` rows that is named `id`; -1 where
/// there is none.
pub open spec fn last_named(rows: Seq<DataSource>, n: int, id: Seq<char>) -> int
    decreases n,
{
    if n <= 0 {
        -1
    } else if rows[n - 1].identifier@ == id {
        n - 1
    } else {
        last_named(rows, n - 1, id)
    }
}

/// `last_named` finds a row of that name, and no later row has it.
pub proof fn lemma_last_named(rows: Seq<DataSource>, n: int, id: Seq<char>)
    requires
        0 <= n <= rows.len(),
    ensures
        -1 <= last_named(rows, n, id) < n,
        last_named(rows, n, id) >= 0 ==> rows[last_named(rows, n, id)].identifier@ == id,
        forall|j: int| last_named(rows, n, id) < j < n ==> rows[j].identifier@ != id,
    decreases n,
{
    if n > 0 && rows[n - 1].identifier@ != id {
        lemma_last_named(rows, n - 1, id);
    }
}

impl MapDataSources {
    /// What the registry tells of the datasource `id`; `None` for an unknown
    /// one.
    pub open spec fn lookup(&self, id: Seq<char>) -> Option<DataSourceInfoView> {
        let at = last_named(self.datasources@, self.datasources@.len() as int, id);
        if at >= 0 {
            Some(self.datasources@[at].info_view())
        } else {
            None
        }
    }

    /// What the registry tells of the datasource `datasource_id`.
    pub fn get(&self, datasource_id: &str) -> (r: Option<DataSourceInfo>)
        ensures
            r is Some <==> self.lookup(datasource_id@) is Some,
            r matches Some(info) ==> self.lookup(datasource_id@) == Some(info@),
    {
        let wanted = datasource_id.to_owned();
        let mut n: usize = self.datasources.len();
        while n > 0
            invariant
                n <= self.datasources.len(),
                wanted@ == datasource_id@,
                last_named(self.datasources@, self.datasources@.len() as int, datasource_id@)
                    == last_named(self.datasources@, n as int, datasource_id@),
            decreases n,
        {
            if self.datasources[n - 1].identifier == wanted {
                return Some(self.datasources[n - 1].info());
            }
            n -= 1;
        }
        None
    }
}

/// Where a datasource lives.
#[derive(Debug, Clone)]
pub enum Home {
    /// On this node.
    Local,
    /// On the peer at `host:port`.
    Remote { host: String, port: i32 },
}

/// `Home` over mathematical text.
pub enum HomeView {
    Local,
    Remote { host: Seq<char>, port: i32 },
}

impl View for Home {
    type V = HomeView;

    open spec fn view(&self) -> HomeView {
        match self {
            Home::Local => HomeView::Local,
            Home::Remote { host, port } => HomeView::Remote { host: host@, port: *port },
        }
    }
}

/// The address `host:port`.
pub open spec fn address_of(host: Seq<char>, port: i32) -> Seq<char> {
    host + ":"@ + signed_decimal(port as int)
}

/// The address `host:port`.
pub fn address(host: &str, port: i32) -> (r: String)
    ensures
        r@ == address_of(host@, port),
{
    let mut out = host.to_owned();
    out.append(":");
    push_signed_decimal(&mut out, port as i64);
    assert(out@ =~= address_of(host@, port));
    out
}

/// A datasource without host or port lives here; so does one whose
/// `host:port` is this node's own address; any other lives on that peer.
pub open spec fn home_of(info: DataSourceInfoView, own_address: Option<Seq<char>>) -> HomeView {
    match (info.host, info.port) {
        (Some(host), Some(port)) => if own_address == Some(address_of(host, port)) {
            HomeView::Local
        } else {
            HomeView::Remote { host, port }
        },
        _ => HomeView::Local,
    }
}

/// Where the datasource described by `info` lives, seen from a node whose
/// own address is `own_address`.
pub fn home(info: &DataSourceInfo, own_address: Option<&str>) -> (r: Home)
    ensures
        r@ == home_of(info@, match own_address {
            Some(a) => Some(a@),
            None => None,
        }),
{
    match (&info.host, info.port) {
        (Some(host), Some(port)) => {
            let here = match own_address {
                Some(a) => {
                    let addr = address(host.as_str(), port);
                    addr == a.to_owned()
                },
                None => false,
            };
            if here {
                Home::Local
            } else {
                Home::Remote { host: host.clone(), port }
            }
        },
        _ => Home::Local,
    }
}

/// The URL under which a peer lists its datasources.
pub open spec fn peer_uri(host: Seq<char>, port: i32) -> Seq<char> {
    "http://"@ + address_of(host, port) + "/api/datasources"@
}

/// The peer that is told of a change of `ds`, if `ds` lives on one.
pub open spec fn peer_of(ds: DataSource, own_address: Option<Seq<char>>) -> Option<Seq<char>> {
    match home_of(ds.info_view(), own_address) {
        HomeView::Remote { host, port } => Some(peer_uri(host, port)),
        HomeView::Local => None,
    }
}

/// The peers that are told of a change: the peer of every datasource that
/// lives elsewhere, each peer once, in the order of first mention.
pub open spec fn peers_of(rows: Seq<DataSource>, own_address: Option<Seq<char>>) -> Seq<Seq<char>>
    decreases rows.len(),
{
    if rows.len() == 0 {
        Seq::<Seq<char>>::empty()
    } else {
        let before = peers_of(rows.drop_last(), own_address);
        match peer_of(rows.last(), own_address) {
            Some(uri) => if before.contains(uri) {
                before
            } else {
                before.push(uri)
            },
            None => before,
        }
    }
}

/// A master tells its peers of a change unless the change came from a peer:
/// a request that carries the header `Master-Server` is not passed on.
pub open spec fn tells_peers(master: bool, is_header_master: bool) -> bool {
    master && !is_header_master
}

/// Whether a change is passed on to the peers.
pub fn refreshes_peers(master: bool, is_header_master: bool) -> (r: bool)
    ensures
        r == tells_peers(master, is_header_master),
{
    master && !is_header_master
}

/// The value of the `Master-Server` header on a message to a peer: this
/// node's address, or `isone` where it has none.
pub fn master_header_value(own_address: Option<&str>) -> (r: String)
    ensures
        r@ == (match own_address {
            Some(a) => a@,
            None => "isone"@,
        }),
{
    match own_address {
        Some(a) => a.to_owned(),
        None => String::from_str("isone"),
    }
}

fn listed(uris: &Vec<String>, uri: &String) -> (r: bool)
    ensures
        r == crate::utils::string_views(uris@).contains(uri@),
{
    let mut i: usize = 0;
    while i < uris.len()
        invariant
            i <= uris.len(),
            forall|j: int| 0 <= j < i ==> uris@[j]@ != uri@,
        decreases uris.len() - i,
    {
        if uris[i] == *uri {
            assert(crate::utils::string_views(uris@)[i as int] == uri@);
            return true;
        }
        i += 1;
    }
    false
}

impl MapDataSources {
    /// The URLs of the peers that are told of a change, seen from a node
    /// whose own address is `own_address`.
    pub fn peer_uris(&self, own_address: Option<&str>) -> (r: Vec<String>)
        ensures
            crate::utils::string_views(r@) == peers_of(self.datasources@, match own_address {
                Some(a) => Some(a@),
                None => None,
            }),
    {
        let ghost own: Option<Seq<char>> = match own_address {
            Some(a) => Some(a@),
            None => None,
        };
        let mut uris: Vec<String> = Vec::new();
        let mut i: usize = 0;
        assert(self.datasources@.take(0) =~= Seq::<DataSource>::empty());
        assert(crate::utils::string_views(uris@) =~= Seq::<Seq<char>>::empty());
        while i < self.datasources.len()
            invariant
                i <= self.datasources.len(),
                own == (match own_address {
                    Some(a) => Some(a@),
                    None => None,
                }),
                crate::utils::string_views(uris@) == peers_of(
                    self.datasources@.take(i as int),
                    own,
                ),
            decreases self.datasources.len() - i,
        {
            proof {
                assert(self.datasources@.take(i + 1).drop_last() =~= self.datasources@.take(
                    i as int,
                ));
            }
            let ds = &self.datasources[i];
            let info = ds.info();
            match home(&info, own_address) {
                Home::Remote { host, port } => {
                    let mut uri = String::from_str("http://");
                    let addr = address(host.as_str(), port);
                    uri.append(addr.as_str());
                    uri.append("/api/datasources");
                    assert(uri@ =~= peer_uri(host@, port));
                    if !listed(&uris, &uri) {
                        let ghost before = crate::utils::string_views(uris@);
                        uris.push(uri);
                        assert(crate::utils::string_views(uris@) =~= before.push(uri@));
                    }
                },
                Home::Local => {},
            }
            i += 1;
        }
        assert(self.datasources@.take(self.datasources.len() as int) =~= self.datasources@);
        uris
    }
}

/// Master-loop suppression: a change that a peer reported is never reported
/// on, whatever the node is.
pub proof fn lemma_peer_changes_stop_here(master: bool)
    ensures
        !tells_peers(master, true),
        tells_peers(master, false) == master,
{
}

/// No peer is told twice of one change.
pub proof fn lemma_peers_once(rows: Seq<DataSource>, own_address: Option<Seq<char>>)
    ensures
        peers_of(rows, own_address).no_duplicates(),
    decreases rows.len(),
{
    if rows.len() > 0 {
        lemma_peers_once(rows.drop_last(), own_address);
    }
}

} // verus!
