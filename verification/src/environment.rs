//! The surroundings of a node: the directories it keeps below its working
//! directory, and the search paths with which its workers are started.
use vstd::prelude::*;
use crate::utils::{DiskPath, string_views};

verus! {

/// The views of a sequence of paths.
pub open spec fn path_views(paths: Seq<DiskPath>) -> Seq<Seq<Seq<char>>> {
    paths.map_values(|p: DiskPath| p@)
}

/// Each entry of a search path as a path of one component.
pub open spec fn as_entries(existing: Seq<Seq<char>>) -> Seq<Seq<Seq<char>>> {
    existing.map_values(|e: Seq<char>| seq![e])
}

fn one(a: &str) -> (p: DiskPath)
    ensures
        p@ == seq![a@],
{
    let mut parts: Vec<String> = Vec::new();
    parts.push(a.to_owned());
    let p = DiskPath { parts };
    assert(p@ =~= seq![a@]);
    p
}

fn two(a: &str, b: &str) -> (p: DiskPath)
    ensures
        p@ == seq![a@, b@],
{
    let mut parts: Vec<String> = Vec::new();
    parts.push(a.to_owned());
    parts.push(b.to_owned());
    let p = DiskPath { parts };
    assert(p@ =~= seq![a@, b@]);
    p
}

fn three(a: &str, b: &str, c: &str) -> (p: DiskPath)
    ensures
        p@ == seq![a@, b@, c@],
{
    let mut parts: Vec<String> = Vec::new();
    parts.push(a.to_owned());
    parts.push(b.to_owned());
    parts.push(c.to_owned());
    let p = DiskPath { parts };
    assert(p@ =~= seq![a@, b@, c@]);
    p
}

fn four(a: &str, b: &str, c: &str, d: &str) -> (p: DiskPath)
    ensures
        p@ == seq![a@, b@, c@, d@],
{
    let mut parts: Vec<String> = Vec::new();
    parts.push(a.to_owned());
    parts.push(b.to_owned());
    parts.push(c.to_owned());
    parts.push(d.to_owned());
    let p = DiskPath { parts };
    assert(p@ =~= seq![a@, b@, c@, d@]);
    p
}

fn append_entries(out: &mut Vec<DiskPath>, existing: &Vec<String>)
    ensures
        path_views(final(out)@) == path_views(old(out)@) + as_entries(string_views(existing@)),
{
    let mut i: usize = 0;
    assert(path_views(out@) =~= path_views(old(out)@) + as_entries(
        string_views(existing@).take(0),
    ));
    while i < existing.len()
        invariant
            i <= existing.len(),
            path_views(out@) == path_views(old(out)@) + as_entries(
                string_views(existing@).take(i as int),
            ),
        decreases existing.len() - i,
    {
        let ghost before = path_views(out@);
        let entry = one(existing[i].as_str());
        out.push(entry);
        proof {
            assert(path_views(out@) =~= before.push(seq![existing@[i as int]@]));
            assert(as_entries(string_views(existing@).take(i + 1)) =~= as_entries(
                string_views(existing@).take(i as int),
            ).push(seq![existing@[i as int]@]));
        }
        i += 1;
    }
    assert(string_views(existing@).take(existing.len() as int) =~= string_views(existing@));
}

/// The directories of a node, each before those inside it: `data` with
/// `mosaics`, `logs`, `datasources` with `vector` and `raster`, and `tiles`.
pub open spec fn node_directories_of(cwd: Seq<char>) -> Seq<Seq<Seq<char>>> {
    seq![
        seq![cwd, "data"@],
        seq![cwd, "data"@, "mosaics"@],
        seq![cwd, "logs"@],
        seq![cwd, "datasources"@],
        seq![cwd, "datasources"@, "vector"@],
        seq![cwd, "datasources"@, "raster"@],
        seq![cwd, "tiles"@],
    ]
}

/// The directories that the set-up of a node creates where they are
/// missing, in the order in which it creates them.
pub fn init_dirs(cwd: &str) -> (r: Vec<DiskPath>)
    ensures
        path_views(r@) == node_directories_of(cwd@),
{
    let mut r: Vec<DiskPath> = Vec::new();
    r.push(two(cwd, "data"));
    r.push(three(cwd, "data", "mosaics"));
    r.push(two(cwd, "logs"));
    r.push(two(cwd, "datasources"));
    r.push(three(cwd, "datasources", "vector"));
    r.push(three(cwd, "datasources", "raster"));
    r.push(two(cwd, "tiles"));
    assert(path_views(r@) =~= node_directories_of(cwd@));
    r
}

/// The program search path of the workers on Unix: Python's `bin`, Python,
/// GDAL's `bin` and GDAL come before what was there.
pub open spec fn unix_path_of(gdal_home: Seq<char>, python_path: Seq<char>, existing: Seq<Seq<char>>) -> Seq<
    Seq<Seq<char>>,
> {
    seq![seq![python_path, "bin"@], seq![python_path], seq![gdal_home, "bin"@], seq![gdal_home]]
        + as_entries(existing)
}

/// The program search path of the workers on Unix.
pub fn unix_path(gdal_home: &str, python_path: &str, existing: &Vec<String>) -> (r: Vec<DiskPath>)
    ensures
        path_views(r@) == unix_path_of(gdal_home@, python_path@, string_views(existing@)),
{
    let mut r: Vec<DiskPath> = Vec::new();
    r.push(two(python_path, "bin"));
    r.push(one(python_path));
    r.push(two(gdal_home, "bin"));
    r.push(one(gdal_home));
    assert(path_views(r@) =~= seq![
        seq![python_path@, "bin"@],
        seq![python_path@],
        seq![gdal_home@, "bin"@],
        seq![gdal_home@],
    ]);
    append_entries(&mut r, existing);
    r
}

/// The library search path of the workers on Unix: Python's `lib` comes
/// before what was there, GDAL's `lib` after it.
pub open spec fn unix_library_path_of(
    gdal_home: Seq<char>,
    python_path: Seq<char>,
    existing: Seq<Seq<char>>,
) -> Seq<Seq<Seq<char>>> {
    (seq![seq![python_path, "lib"@]] + as_entries(existing)).push(seq![gdal_home, "lib"@])
}

/// The library search path of the workers on Unix.
pub fn unix_library_path(gdal_home: &str, python_path: &str, existing: &Vec<String>) -> (r: Vec<
    DiskPath,
>)
    ensures
        path_views(r@) == unix_library_path_of(gdal_home@, python_path@, string_views(existing@)),
{
    let mut r: Vec<DiskPath> = Vec::new();
    r.push(two(python_path, "lib"));
    assert(path_views(r@) =~= seq![seq![python_path@, "lib"@]]);
    append_entries(&mut r, existing);
    let ghost before = path_views(r@);
    r.push(two(gdal_home, "lib"));
    assert(path_views(r@) =~= before.push(seq![gdal_home@, "lib"@]));
    r
}

/// Where the workers find the projection data on Unix: `share/proj` below
/// GDAL.
pub fn unix_proj_lib(gdal_home: &str) -> (p: DiskPath)
    ensures
        p@ == seq![gdal_home@, "share"@, "proj"@],
{
    three(gdal_home, "share", "proj")
}

/// The program search path of the workers on Windows: GDAL's `bin` and its
/// `bin/gdal/apps` come before what was there, Python and its `Scripts`
/// after it.
pub open spec fn windows_path_of(
    gdal_home: Seq<char>,
    python_path: Seq<char>,
    existing: Seq<Seq<char>>,
) -> Seq<Seq<Seq<char>>> {
    seq![seq![gdal_home, "bin"@], seq![gdal_home, "bin"@, "gdal"@, "apps"@]] + as_entries(existing)
        + seq![seq![python_path], seq![python_path, "Scripts"@]]
}

/// The program search path of the workers on Windows.
pub fn windows_path(gdal_home: &str, python_path: &str, existing: &Vec<String>) -> (r: Vec<
    DiskPath,
>)
    ensures
        path_views(r@) == windows_path_of(gdal_home@, python_path@, string_views(existing@)),
{
    let mut r: Vec<DiskPath> = Vec::new();
    r.push(two(gdal_home, "bin"));
    r.push(four(gdal_home, "bin", "gdal", "apps"));
    assert(path_views(r@) =~= seq![
        seq![gdal_home@, "bin"@],
        seq![gdal_home@, "bin"@, "gdal"@, "apps"@],
    ]);
    append_entries(&mut r, existing);
    let ghost before = path_views(r@);
    r.push(one(python_path));
    r.push(two(python_path, "Scripts"));
    assert(path_views(r@) =~= before + seq![seq![python_path@], seq![python_path@, "Scripts"@]]);
    r
}

} // verus!
