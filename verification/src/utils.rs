//! Tile URIs and the places on disk they stand for.
//!
//! A tile URI has the form `/api/tile/{datasource}/{z}/{x}/{y}.{ext}`: split
//! on `/` it has at least seven elements, the first of them empty.
use vstd::prelude::*;
use crate::structs::Extension;
use crate::text::{
    IntErrorKind, i64_to_string, lemma_split_nonempty, parse_decimal, parse_i64, str_eq, to_chars,
    parse_u64, parse_u8, signed_decimal, split, split_str, str_views,
};

verus! {

/// A path on disk as the list of its components, outermost first. The
/// caller joins them with the separator of its platform.
#[derive(Debug, Clone)]
pub struct DiskPath {
    pub parts: Vec<String>,
}

/// The views of a sequence of strings.
pub open spec fn string_views(parts: Seq<String>) -> Seq<Seq<char>> {
    parts.map_values(|p: String| p@)
}

impl View for DiskPath {
    type V = Seq<Seq<char>>;

    open spec fn view(&self) -> Seq<Seq<char>> {
        string_views(self.parts@)
    }
}

/// Why a URI names no tile.
#[derive(Debug, Clone)]
pub enum UriError {
    /// The path has fewer than seven elements.
    InvalidPath { elements: Vec<String> },
    /// The zoom level is no number of its type.
    ParseZ(IntErrorKind),
    /// The column is no number of its type.
    ParseX(IntErrorKind),
    /// The row is no number of its type.
    ParseY(IntErrorKind),
    /// The extension is none of `png`, `mvt`, `pbf`.
    Extension { got: String },
}

/// `UriError` over mathematical text.
pub enum UriFault {
    InvalidPath(Seq<Seq<char>>),
    ParseZ(IntErrorKind),
    ParseX(IntErrorKind),
    ParseY(IntErrorKind),
    Extension(Seq<char>),
}

impl View for UriError {
    type V = UriFault;

    open spec fn view(&self) -> UriFault {
        match self {
            UriError::InvalidPath { elements } => UriFault::InvalidPath(string_views(elements@)),
            UriError::ParseZ(k) => UriFault::ParseZ(*k),
            UriError::ParseX(k) => UriFault::ParseX(*k),
            UriError::ParseY(k) => UriFault::ParseY(*k),
            UriError::Extension { got } => UriFault::Extension(got@),
        }
    }
}

/// What `{:?}` prints for a list of strings.
pub uninterp spec fn debug_list(elements: Seq<Seq<char>>) -> Seq<char>;

/// `Debug` of `Vec<String>`, through `format!`: a function of the strings
/// alone.
#[verifier::external_body]
fn format_debug_list(elements: &Vec<String>) -> (r: String)
    ensures
        r@ == debug_list(string_views(elements@)),
{
    format!("{:?}", elements)
}

impl UriFault {
    /// The sentence that reports this error.
    pub open spec fn text(self) -> Seq<char> {
        match self {
            UriFault::InvalidPath(elements) => "Path of URI is invalid: "@ + debug_list(elements),
            UriFault::ParseZ(k) => "Error parse Z: "@ + k.text(),
            UriFault::ParseX(k) => "Error parse X: "@ + k.text(),
            UriFault::ParseY(k) => "Error parse Y: "@ + k.text(),
            UriFault::Extension(got) => "Extension of tile must be 'png', 'mvt' or 'pbf'. Got "@
                + got,
        }
    }
}

impl UriError {
    /// The sentence that reports this error.
    pub fn message(&self) -> (r: String)
        ensures
            r@ == self@.text(),
    {
        let mut out;
        match self {
            UriError::InvalidPath { elements } => {
                out = String::from_str("Path of URI is invalid: ");
                let list = format_debug_list(elements);
                out.append(list.as_str());
            },
            UriError::ParseZ(k) => {
                out = String::from_str("Error parse Z: ");
                out.append(k.message());
            },
            UriError::ParseX(k) => {
                out = String::from_str("Error parse X: ");
                out.append(k.message());
            },
            UriError::ParseY(k) => {
                out = String::from_str("Error parse Y: ");
                out.append(k.message());
            },
            UriError::Extension { got } => {
                out = String::from_str("Extension of tile must be 'png', 'mvt' or 'pbf'. Got ");
                out.append(got.as_str());
            },
        }
        out
    }
}

fn to_owned_all(parts: &Vec<&str>) -> (r: Vec<String>)
    ensures
        string_views(r@) == str_views(parts@),
{
    let mut r: Vec<String> = Vec::new();
    let mut i: usize = 0;
    while i < parts.len()
        invariant
            i <= parts.len(),
            r.len() == i,
            forall|j: int| 0 <= j < i ==> r@[j]@ == parts@[j]@,
        decreases parts.len() - i,
    {
        r.push(parts[i].to_owned());
        i += 1;
    }
    assert(string_views(r@) =~= str_views(parts@));
    r
}

/// The elements of a tile URI, or the error for a path that is too short.
fn tile_elements<'a>(uri: &'a str) -> (r: Result<Vec<&'a str>, UriError>)
    ensures
        r matches Ok(el) ==> str_views(el@) == split(uri@, '/') && el.len() >= 7,
        r matches Err(e) ==> split(uri@, '/').len() < 7 && e@ == UriFault::InvalidPath(
            split(uri@, '/'),
        ),
{
    let el = split_str(uri, '/');
    if el.len() < 7 {
        let elements = to_owned_all(&el);
        Err(UriError::InvalidPath { elements })
    } else {
        Ok(el)
    }
}

/// The datasource that a tile URI names: its fourth element.
pub open spec fn datasource_id_of(uri: Seq<char>) -> Result<Seq<char>, UriFault> {
    let el = split(uri, '/');
    if el.len() < 7 {
        Err(UriFault::InvalidPath(el))
    } else {
        Ok(el[3])
    }
}

/// The datasource that a tile URI names.
pub fn datasource_id_from_uri(uri: &str) -> (r: Result<&str, UriError>)
    ensures
        r matches Ok(id) ==> datasource_id_of(uri@) == Ok::<Seq<char>, UriFault>(id@),
        r matches Err(e) ==> datasource_id_of(uri@) == Err::<Seq<char>, UriFault>(e@),
{
    match tile_elements(uri) {
        Ok(el) => Ok(el[3]),
        Err(e) => Err(e),
    }
}

/// The directory that holds a datasource's tiles: `{cwd}/tiles/{id}`.
pub open spec fn dataset_dir(cwd: Seq<char>, datasource_id: Seq<char>) -> Seq<Seq<char>> {
    seq![cwd, "tiles"@, datasource_id]
}

/// A datasource's cache database: `{cwd}/tiles/{id}/{id}{suffix}`, where the
/// suffix is `.mbtiles` for the database and `.mbtiles-wal`, `.mbtiles-shm`
/// for its two companions.
pub open spec fn mbtiles_file(cwd: Seq<char>, datasource_id: Seq<char>, suffix: Seq<char>) -> Seq<
    Seq<char>,
> {
    seq![cwd, "tiles"@, datasource_id, datasource_id + suffix]
}

/// The directory that holds the tiles of a datasource.
pub fn dataset_dir_from_ds_id(cwd: &str, datasource_id: &str) -> (r: Result<DiskPath, UriError>)
    ensures
        r matches Ok(p) && p@ == dataset_dir(cwd@, datasource_id@),
{
    let mut parts: Vec<String> = Vec::new();
    parts.push(cwd.to_owned());
    parts.push("tiles".to_owned());
    parts.push(datasource_id.to_owned());
    let p = DiskPath { parts };
    assert(p@ =~= dataset_dir(cwd@, datasource_id@));
    Ok(p)
}

/// The tile directory of the datasource that a tile URI names.
pub open spec fn dataset_dir_of(cwd: Seq<char>, uri: Seq<char>) -> Result<Seq<Seq<char>>, UriFault> {
    match datasource_id_of(uri) {
        Ok(id) => Ok(dataset_dir(cwd, id)),
        Err(e) => Err(e),
    }
}

/// The tile directory of the datasource that a tile URI names.
pub fn dataset_dir_from_uri(cwd: &str, uri: &str) -> (r: Result<DiskPath, UriError>)
    ensures
        r matches Ok(p) ==> dataset_dir_of(cwd@, uri@) == Ok::<Seq<Seq<char>>, UriFault>(p@),
        r matches Err(e) ==> dataset_dir_of(cwd@, uri@) == Err::<Seq<Seq<char>>, UriFault>(e@),
{
    match datasource_id_from_uri(uri) {
        Ok(id) => dataset_dir_from_ds_id(cwd, id),
        Err(e) => Err(e),
    }
}

fn mbtiles_sibling(cwd: &str, datasource_id: &str, suffix: &str) -> (p: DiskPath)
    ensures
        p@ == mbtiles_file(cwd@, datasource_id@, suffix@),
{
    let mut name = datasource_id.to_owned();
    name.append(suffix);
    let mut parts: Vec<String> = Vec::new();
    parts.push(cwd.to_owned());
    parts.push("tiles".to_owned());
    parts.push(datasource_id.to_owned());
    parts.push(name);
    let p = DiskPath { parts };
    assert(p@ =~= mbtiles_file(cwd@, datasource_id@, suffix@));
    p
}

/// The cache database of a datasource.
pub fn mbtiles_path_from_ds_id(cwd: &str, datasource_id: &str) -> (r: Result<DiskPath, UriError>)
    ensures
        r matches Ok(p) && p@ == mbtiles_file(cwd@, datasource_id@, ".mbtiles"@),
{
    Ok(mbtiles_sibling(cwd, datasource_id, ".mbtiles"))
}

/// The write-ahead log beside a datasource's cache database.
pub fn mbtiles_wal_path(cwd: &str, datasource_id: &str) -> (p: DiskPath)
    ensures
        p@ == mbtiles_file(cwd@, datasource_id@, ".mbtiles-wal"@),
{
    mbtiles_sibling(cwd, datasource_id, ".mbtiles-wal")
}

/// The shared-memory file beside a datasource's cache database.
pub fn mbtiles_shm_path(cwd: &str, datasource_id: &str) -> (p: DiskPath)
    ensures
        p@ == mbtiles_file(cwd@, datasource_id@, ".mbtiles-shm"@),
{
    mbtiles_sibling(cwd, datasource_id, ".mbtiles-shm")
}

/// The embedded pyramid tracker: `{cwd}/data/tiler.db`.
pub fn db_tiler(cwd: &str) -> (r: Result<DiskPath, UriError>)
    ensures
        r matches Ok(p) && p@ == seq![cwd@, "data"@, "tiler.db"@],
{
    let mut parts: Vec<String> = Vec::new();
    parts.push(cwd.to_owned());
    parts.push("data".to_owned());
    parts.push("tiler.db".to_owned());
    let p = DiskPath { parts };
    assert(p@ =~= seq![cwd@, "data"@, "tiler.db"@]);
    Ok(p)
}

/// The file that caches a tile: `{cwd}/tiles/{id}/{z}/{x}/{y}.{ext}`, with
/// `z` and `x` read as signed numbers and written back in plain decimal, and
/// the last element of the URI kept as it stands.
pub open spec fn file_path_of(cwd: Seq<char>, uri: Seq<char>) -> Result<Seq<Seq<char>>, UriFault> {
    let el = split(uri, '/');
    if el.len() < 7 {
        Err(UriFault::InvalidPath(el))
    } else {
        match parse_decimal(el[4], i64::MIN as int, i64::MAX as int) {
            Err(k) => Err(UriFault::ParseZ(k)),
            Ok(z) => match parse_decimal(el[5], i64::MIN as int, i64::MAX as int) {
                Err(k) => Err(UriFault::ParseX(k)),
                Ok(x) => Ok(
                    seq![cwd, "tiles"@, el[3], signed_decimal(z), signed_decimal(x), el[6]],
                ),
            },
        }
    }
}

/// The file that caches the tile a URI names.
pub fn file_path_from_uri(cwd: &str, uri: &str) -> (r: Result<DiskPath, UriError>)
    ensures
        r matches Ok(p) ==> file_path_of(cwd@, uri@) == Ok::<Seq<Seq<char>>, UriFault>(p@),
        r matches Err(e) ==> file_path_of(cwd@, uri@) == Err::<Seq<Seq<char>>, UriFault>(e@),
{
    let el = match tile_elements(uri) {
        Ok(el) => el,
        Err(e) => {
            return Err(e);
        },
    };
    let z = match parse_i64(el[4]) {
        Ok(v) => v,
        Err(k) => {
            return Err(UriError::ParseZ(k));
        },
    };
    let x = match parse_i64(el[5]) {
        Ok(v) => v,
        Err(k) => {
            return Err(UriError::ParseX(k));
        },
    };
    let mut parts: Vec<String> = Vec::new();
    parts.push(cwd.to_owned());
    parts.push("tiles".to_owned());
    parts.push(el[3].to_owned());
    parts.push(i64_to_string(z));
    parts.push(i64_to_string(x));
    parts.push(el[6].to_owned());
    let p = DiskPath { parts };
    assert(p@ =~= seq![
        cwd@,
        "tiles"@,
        el@[3]@,
        signed_decimal(z as int),
        signed_decimal(x as int),
        el@[6]@,
    ]);
    Ok(p)
}

/// The extension of a tile's file name: what stands between its first and
/// its second dot; empty where the name has no dot.
pub open spec fn extension_piece(name: Seq<char>) -> Seq<char> {
    let pieces = split(name, '.');
    if pieces.len() >= 2 {
        pieces[1]
    } else {
        Seq::<char>::empty()
    }
}

/// A letter of the three extensions in lower case, whichever case it is
/// written in; any other character as it stands.
pub open spec fn fold_case(c: char) -> char {
    if c == 'P' {
        'p'
    } else if c == 'N' {
        'n'
    } else if c == 'G' {
        'g'
    } else if c == 'M' {
        'm'
    } else if c == 'V' {
        'v'
    } else if c == 'T' {
        't'
    } else if c == 'B' {
        'b'
    } else if c == 'F' {
        'f'
    } else {
        c
    }
}

/// An extension with its letters in lower case.
pub open spec fn folded(ext: Seq<char>) -> Seq<char> {
    ext.map_values(|c: char| fold_case(c))
}

/// An extension is accepted if it names one of the three tile formats,
/// written in upper or lower case or any mix of them.
pub open spec fn accepted_extension(ext: Seq<char>) -> bool {
    Extension::named(folded(ext)) is Some
}

fn fold(c: char) -> (r: char)
    ensures
        r == fold_case(c),
{
    if c == 'P' {
        'p'
    } else if c == 'N' {
        'n'
    } else if c == 'G' {
        'g'
    } else if c == 'M' {
        'm'
    } else if c == 'V' {
        'v'
    } else if c == 'T' {
        't'
    } else if c == 'B' {
        'b'
    } else if c == 'F' {
        'f'
    } else {
        c
    }
}

fn names_format(ext: &str, name: &str) -> (r: bool)
    ensures
        r == (folded(ext@) == name@),
{
    let x = to_chars(ext);
    let y = to_chars(name);
    if x.len() != y.len() {
        return false;
    }
    let mut i: usize = 0;
    while i < x.len()
        invariant
            x@ == ext@,
            y@ == name@,
            x.len() == y.len(),
            i <= x.len(),
            forall|j: int| 0 <= j < i ==> fold_case(x@[j]) == y@[j],
        decreases x.len() - i,
    {
        if fold(x[i]) != y[i] {
            assert(folded(ext@)[i as int] != name@[i as int]);
            return false;
        }
        i += 1;
    }
    assert(folded(ext@) =~= name@);
    true
}

/// Whether an extension is accepted.
pub fn is_accepted_extension(ext: &str) -> (r: bool)
    ensures
        r == accepted_extension(ext@),
{
    names_format(ext, "png") || names_format(ext, "pbf") || names_format(ext, "mvt")
}

/// The coordinates of the tile that a URI names, as `(x, y, z)`.
pub open spec fn zxy_of(uri: Seq<char>) -> Result<(u64, u64, u8), UriFault> {
    let el = split(uri, '/');
    if el.len() < 7 {
        Err(UriFault::InvalidPath(el))
    } else {
        match parse_decimal(el[4], 0, u8::MAX as int) {
            Err(k) => Err(UriFault::ParseZ(k)),
            Ok(z) => match parse_decimal(el[5], 0, u64::MAX as int) {
                Err(k) => Err(UriFault::ParseX(k)),
                Ok(x) => match parse_decimal(split(el[6], '.')[0], 0, u64::MAX as int) {
                    Err(k) => Err(UriFault::ParseY(k)),
                    Ok(y) => if accepted_extension(extension_piece(el[6])) {
                        Ok((x as u64, y as u64, z as u8))
                    } else {
                        Err(UriFault::Extension(extension_piece(el[6])))
                    },
                },
            },
        }
    }
}

/// The coordinates of the tile that a URI names, as `(x, y, z)`.
pub fn zxy_from_uri(uri: &str) -> (r: Result<(u64, u64, u8), UriError>)
    ensures
        r matches Ok(v) ==> zxy_of(uri@) == Ok::<(u64, u64, u8), UriFault>(v),
        r matches Err(e) ==> zxy_of(uri@) == Err::<(u64, u64, u8), UriFault>(e@),
{
    let el = match tile_elements(uri) {
        Ok(el) => el,
        Err(e) => {
            return Err(e);
        },
    };
    let z = match parse_u8(el[4]) {
        Ok(v) => v,
        Err(k) => {
            return Err(UriError::ParseZ(k));
        },
    };
    let x = match parse_u64(el[5]) {
        Ok(v) => v,
        Err(k) => {
            return Err(UriError::ParseX(k));
        },
    };
    let y_ext = split_str(el[6], '.');
    proof {
        lemma_split_nonempty(el@[6]@, '.');
    }
    let y = match parse_u64(y_ext[0]) {
        Ok(v) => v,
        Err(k) => {
            return Err(UriError::ParseY(k));
        },
    };
    let ext: &str = if y_ext.len() >= 2 {
        y_ext[1]
    } else {
        ""
    };
    proof {
        reveal_strlit("");
        assert(ext@ =~= extension_piece(el@[6]@));
    }
    if !is_accepted_extension(ext) {
        return Err(UriError::Extension { got: ext.to_owned() });
    }
    Ok((x, y, z))
}

/// A path as one string, its components joined by `/`.
pub open spec fn joined(parts: Seq<Seq<char>>) -> Seq<char>
    decreases parts.len(),
{
    if parts.len() == 0 {
        Seq::<char>::empty()
    } else if parts.len() == 1 {
        parts[0]
    } else {
        joined(parts.drop_last()) + "/"@ + parts.last()
    }
}

impl DiskPath {
    /// The path as one string, its components joined by `/`.
    pub fn to_string(&self) -> (r: String)
        ensures
            r@ == joined(self@),
    {
        let mut out = String::new();
        let mut i: usize = 0;
        while i < self.parts.len()
            invariant
                i <= self.parts.len(),
                out@ == joined(self@.take(i as int)),
            decreases self.parts.len() - i,
        {
            proof {
                assert(self@.take(i + 1).drop_last() =~= self@.take(i as int));
                assert(self@.take(i + 1).last() == self.parts@[i as int]@);
            }
            if i > 0 {
                out.append("/");
            }
            out.append(self.parts[i].as_str());
            proof {
                if i == 0 {
                    assert(out@ =~= self.parts@[0]@);
                }
            }
            i += 1;
        }
        assert(self@.take(self.parts.len() as int) =~= self@);
        out
    }
}

/// The place of the last `c` among the first `n` characters of `s`; -1 where
/// there is none.
pub open spec fn last_index(s: Seq<char>, n: int, c: char) -> int
    decreases n,
{
    if n <= 0 {
        -1
    } else if s[n - 1] == c {
        n - 1
    } else {
        last_index(s, n - 1, c)
    }
}

/// The extension of a file name as `Path::extension` gives it: what follows
/// the last dot, unless the name is `..`, has no dot, or has its only dot in
/// front.
pub open spec fn extension_of(name: Seq<char>) -> Option<Seq<char>> {
    let dot = last_index(name, name.len() as int, '.');
    if name == ".."@ || dot <= 0 {
        None
    } else {
        Some(name.skip(dot + 1))
    }
}

/// The extension of a file name, as `Path::extension` gives it.
pub fn file_extension(name: &str) -> (r: Option<&str>)
    ensures
        r is Some <==> extension_of(name@) is Some,
        r matches Some(e) ==> extension_of(name@) == Some(e@),
{
    let chars = to_chars(name);
    let len = chars.len();
    proof {
        reveal_strlit("..");
    }
    if len == 2 && chars[0] == '.' && chars[1] == '.' {
        assert(name@ =~= ".."@);
        return None;
    }
    let mut n: usize = len;
    while n > 0
        invariant
            n <= len,
            len == chars.len(),
            chars@ == name@,
            !(len == 2 && chars@[0] == '.' && chars@[1] == '.'),
            last_index(name@, len as int, '.') == last_index(name@, n as int, '.'),
        decreases n,
    {
        if chars[n - 1] == '.' {
            if n - 1 == 0 {
                return None;
            }
            let ext = name.substring_char(n, len);
            proof {
                assert(ext@ =~= name@.skip(n as int));
                assert(last_index(name@, n as int, '.') == n - 1);
                reveal_strlit("..");
                if name@ == ".."@ {
                    assert(name@.len() == 2 && name@[0] == '.' && name@[1] == '.');
                }
            }
            return Some(ext);
        }
        n -= 1;
    }
    None
}

/// Why no cache database was found for a tile URI.
#[derive(Debug, Clone)]
pub enum MbtilesError {
    /// The URI names no tile.
    Uri { error: UriError },
    /// The datasource's tile directory holds no cache database.
    NotFound { datasource_id: String },
}

/// `MbtilesError` over mathematical text.
pub enum MbtilesFault {
    Uri(UriFault),
    NotFound(Seq<char>),
}

impl View for MbtilesError {
    type V = MbtilesFault;

    open spec fn view(&self) -> MbtilesFault {
        match self {
            MbtilesError::Uri { error } => MbtilesFault::Uri(error@),
            MbtilesError::NotFound { datasource_id } => MbtilesFault::NotFound(datasource_id@),
        }
    }
}

impl MbtilesFault {
    /// The sentence that reports this error.
    pub open spec fn text(self) -> Seq<char> {
        match self {
            MbtilesFault::Uri(e) => e.text(),
            MbtilesFault::NotFound(id) => "DataBase of MBTiles for DataSource ID '"@ + id
                + "' not found"@,
        }
    }
}

impl MbtilesError {
    /// The sentence that reports this error.
    pub fn message(&self) -> (r: String)
        ensures
            r@ == self@.text(),
    {
        match self {
            MbtilesError::Uri { error } => error.message(),
            MbtilesError::NotFound { datasource_id } => {
                let mut m = String::from_str("DataBase of MBTiles for DataSource ID '");
                m.append(datasource_id.as_str());
                m.append("' not found");
                m
            },
        }
    }
}

/// Whether a file name is that of a cache database: its extension is
/// `mbtiles`.
pub open spec fn is_mbtiles(name: Seq<char>) -> bool {
    extension_of(name) == Some("mbtiles"@)
}

/// The place of the first cache database among the names from `from` on; -1
/// where there is none.
pub open spec fn first_mbtiles(names: Seq<Seq<char>>, from: int) -> int
    decreases names.len() - from,
{
    if from < 0 || from >= names.len() {
        -1
    } else if is_mbtiles(names[from]) {
        from
    } else {
        first_mbtiles(names, from + 1)
    }
}

/// The cache database that serves a tile URI: the first file with the
/// extension `mbtiles` among the entries of the datasource's tile
/// directory, in the order in which the directory lists them.
pub open spec fn mbtiles_path_of(cwd: Seq<char>, uri: Seq<char>, entries: Seq<Seq<char>>) -> Result<
    Seq<Seq<char>>,
    MbtilesFault,
> {
    match datasource_id_of(uri) {
        Err(e) => Err(MbtilesFault::Uri(e)),
        Ok(id) => {
            let at = first_mbtiles(entries, 0);
            if at >= 0 {
                Ok(dataset_dir(cwd, id).push(entries[at]))
            } else {
                Err(MbtilesFault::NotFound(id))
            }
        },
    }
}

/// Picks the cache database for a tile URI from the names that the
/// datasource's tile directory holds.
pub fn mbtiles_path_from_uri(cwd: &str, uri: &str, entries: &Vec<String>) -> (r: Result<
    DiskPath,
    MbtilesError,
>)
    ensures
        r matches Ok(p) ==> mbtiles_path_of(cwd@, uri@, string_views(entries@)) == Ok::<
            Seq<Seq<char>>,
            MbtilesFault,
        >(p@),
        r matches Err(e) ==> mbtiles_path_of(cwd@, uri@, string_views(entries@)) == Err::<
            Seq<Seq<char>>,
            MbtilesFault,
        >(e@),
{
    let id = match datasource_id_from_uri(uri) {
        Ok(id) => id,
        Err(error) => {
            return Err(MbtilesError::Uri { error });
        },
    };
    let ghost names = string_views(entries@);
    let mut i: usize = 0;
    while i < entries.len()
        invariant
            i <= entries.len(),
            names == string_views(entries@),
            datasource_id_of(uri@) == Ok::<Seq<char>, UriFault>(id@),
            first_mbtiles(names, 0) == first_mbtiles(names, i as int),
        decreases entries.len() - i,
    {
        assert(names[i as int] == entries@[i as int]@);
        let found = match file_extension(entries[i].as_str()) {
            Some(ext) => str_eq(ext, "mbtiles"),
            None => false,
        };
        if found {
            let mut parts: Vec<String> = Vec::new();
            parts.push(cwd.to_owned());
            parts.push("tiles".to_owned());
            parts.push(id.to_owned());
            parts.push(entries[i].clone());
            let p = DiskPath { parts };
            proof {
                assert(is_mbtiles(names[i as int]));
                assert(first_mbtiles(names, i as int) == i);
                assert(p@ =~= dataset_dir(cwd@, id@).push(names[i as int]));
            }
            return Ok(p);
        }
        i += 1;
    }
    Err(MbtilesError::NotFound { datasource_id: id.to_owned() })
}

/// The file that lists the processes of the node: `{cwd}/scripts/PIDs`.
pub fn pid_file_path(cwd: &str) -> (p: DiskPath)
    ensures
        p@ == seq![cwd@, "scripts"@, "PIDs"@],
{
    let mut parts: Vec<String> = Vec::new();
    parts.push(cwd.to_owned());
    parts.push("scripts".to_owned());
    parts.push("PIDs".to_owned());
    let p = DiskPath { parts };
    assert(p@ =~= seq![cwd@, "scripts"@, "PIDs"@]);
    p
}

/// One process per line.
pub open spec fn pid_line(pid: u32) -> Seq<char> {
    crate::text::decimal(pid as nat) + "\n"@
}

/// The lines of the children of a worker, in order.
pub open spec fn child_lines(children: Seq<(u32, u32)>) -> Seq<char>
    decreases children.len(),
{
    if children.len() == 0 {
        Seq::<char>::empty()
    } else {
        child_lines(children.drop_last()) + pid_line(children.last().0)
    }
}

/// What is written to the list of processes, from the worker at place `i`
/// on: each worker followed by its children, then this process. Writing
/// stops at the first worker that has no child yet, and the list is then
/// not complete.
pub open spec fn pid_text_from(workers: Seq<(u32, Vec<(u32, u32)>)>, i: int, own_pid: u32) -> (
    Seq<char>,
    bool,
)
    decreases workers.len() - i,
{
    if i < 0 || i >= workers.len() {
        (pid_line(own_pid), true)
    } else if workers[i].1@.len() == 0 {
        (Seq::<char>::empty(), false)
    } else {
        let rest = pid_text_from(workers, i + 1, own_pid);
        (pid_line(workers[i].0) + child_lines(workers[i].1@) + rest.0, rest.1)
    }
}

/// The list of processes as far as it can be written.
#[derive(Debug, Clone)]
pub struct PidFile {
    pub text: String,
    /// Whether every worker had a child, so that the list is complete.
    pub complete: bool,
}

fn push_pid_line(out: &mut String, pid: u32)
    ensures
        final(out)@ == old(out)@ + pid_line(pid),
{
    crate::text::push_decimal(out, pid as u64);
    out.append("\n");
    assert(out@ =~= old(out)@ + pid_line(pid));
}

/// The list of processes for the workers and their children found, and for
/// this process.
pub fn save_process_pid(worker_childs: &Vec<(u32, Vec<(u32, u32)>)>, own_pid: u32) -> (r: PidFile)
    ensures
        (r.text@, r.complete) == pid_text_from(worker_childs@, 0, own_pid),
{
    let mut text = String::new();
    let mut i: usize = 0;
    assert(text@ + pid_text_from(worker_childs@, 0, own_pid).0 =~= pid_text_from(
        worker_childs@,
        0,
        own_pid,
    ).0);
    while i < worker_childs.len()
        invariant
            i <= worker_childs.len(),
            pid_text_from(worker_childs@, 0, own_pid).0 == text@ + pid_text_from(
                worker_childs@,
                i as int,
                own_pid,
            ).0,
            pid_text_from(worker_childs@, 0, own_pid).1 == pid_text_from(
                worker_childs@,
                i as int,
                own_pid,
            ).1,
        decreases worker_childs.len() - i,
    {
        let children = &worker_childs[i].1;
        if children.len() == 0 {
            assert(text@ + Seq::<char>::empty() =~= text@);
            return PidFile { text, complete: false };
        }
        let ghost before = text@;
        push_pid_line(&mut text, worker_childs[i].0);
        let mut j: usize = 0;
        assert(children@.take(0) =~= Seq::<(u32, u32)>::empty());
        assert(text@ =~= before + pid_line(worker_childs@[i as int].0) + child_lines(
            children@.take(0),
        ));
        while j < children.len()
            invariant
                j <= children.len(),
                text@ == before + pid_line(worker_childs@[i as int].0) + child_lines(
                    children@.take(j as int),
                ),
            decreases children.len() - j,
        {
            proof {
                assert(children@.take(j + 1).drop_last() =~= children@.take(j as int));
            }
            push_pid_line(&mut text, children[j].0);
            assert(text@ =~= before + pid_line(worker_childs@[i as int].0) + child_lines(
                children@.take(j + 1),
            ));
            j += 1;
        }
        proof {
            assert(children@.take(children.len() as int) =~= children@);
            let rest = pid_text_from(worker_childs@, i + 1, own_pid);
            assert(before + (pid_line(worker_childs@[i as int].0) + child_lines(children@)
                + rest.0) =~= text@ + rest.0);
        }
        i += 1;
    }
    push_pid_line(&mut text, own_pid);
    PidFile { text, complete: true }
}

/// What follows an attempt to write the list of processes.
#[derive(Debug, Clone, Copy, PartialEq, Eq, Structural)]
pub enum SaveStep {
    /// The list is complete.
    Done,
    /// Try again in a second.
    Retry,
    /// No worker has shown a child in ten attempts: give up.
    GiveUp,
}

/// The list of processes is written up to ten times, a second apart, until
/// every worker has shown a child. `attempt` counts from zero.
pub fn try_save_process_pid(attempt: u32, complete: bool) -> (r: SaveStep)
    ensures
        r == (if complete {
            SaveStep::Done
        } else if attempt >= 9 {
            SaveStep::GiveUp
        } else {
            SaveStep::Retry
        }),
{
    if complete {
        SaveStep::Done
    } else if attempt >= 9 {
        SaveStep::GiveUp
    } else {
        SaveStep::Retry
    }
}

} // verus!
