//! The registry of cache-database handles: at most one open handle per
//! database path, and what is deleted when a handle is removed.
use vstd::prelude::*;

verus! {

/// One entry of the registry: the path of a cache database and its handle.
pub struct Entry<H> {
    pub path: String,
    pub handle: H,
}

/// The registry of handles. `H` is the type of a handle.
pub struct Registry<H> {
    pub entries: Vec<Entry<H>>,
}

impl<H> Registry<H> {
    /// No two entries name the same path.
    pub open spec fn wf(&self) -> bool {
        forall|i: int, j: int|
            0 <= i < j < self.entries@.len() ==> self.entries@[i].path@ != self.entries@[j].path@
    }

    /// Whether the entry at `i` is the one for `path`.
    pub open spec fn at(&self, i: int, path: Seq<char>) -> bool {
        0 <= i < self.entries@.len() && self.entries@[i].path@ == path
    }

    /// Whether the registry holds a handle for `path`.
    pub open spec fn holds(&self, path: Seq<char>) -> bool {
        exists|i: int| self.at(i, path)
    }

    /// The handle for `path`.
    pub open spec fn handle_of(&self, path: Seq<char>) -> H
        recommends
            self.holds(path),
    {
        self.entries@[choose|i: int| self.at(i, path)].handle
    }

    /// An empty registry.
    pub fn new() -> (r: Registry<H>)
        ensures
            r.wf(),
            r.entries@.len() == 0,
            forall|p: Seq<char>| !r.holds(p),
    {
        Registry { entries: Vec::new() }
    }

    /// How many handles are open.
    pub fn len(&self) -> (n: usize)
        ensures
            n == self.entries@.len(),
    {
        self.entries.len()
    }

    fn position(&self, path: &str) -> (r: Option<usize>)
        requires
            self.wf(),
        ensures
            r matches Some(i) ==> self.at(i as int, path@),
            r is None ==> !self.holds(path@),
    {
        let wanted = path.to_owned();
        let mut i: usize = 0;
        while i < self.entries.len()
            invariant
                i <= self.entries.len(),
                wanted@ == path@,
                forall|j: int| 0 <= j < i ==> !self.at(j, path@),
            decreases self.entries.len() - i,
        {
            if self.entries[i].path == wanted {
                return Some(i);
            }
            i += 1;
        }
        None
    }

    /// The handle for `path`, if one is open.
    pub fn get(&self, path: &str) -> (r: Option<&H>)
        requires
            self.wf(),
        ensures
            r is Some <==> self.holds(path@),
            r matches Some(h) ==> *h == self.handle_of(path@),
    {
        match self.position(path) {
            Some(i) => {
                proof {
                    let c = choose|k: int| self.at(k, path@);
                    assert(self.at(i as int, path@));
                    assert(c == i);
                }
                Some(&self.entries[i].handle)
            },
            None => None,
        }
    }

    /// Registers `handle` for `path`. A handle that was registered for the
    /// same path is replaced and handed back.
    pub fn add(&mut self, path: String, handle: H) -> (replaced: Option<H>)
        requires
            old(self).wf(),
        ensures
            final(self).wf(),
            final(self).holds(path@),
            final(self).handle_of(path@) == handle,
            replaced is Some <==> old(self).holds(path@),
            replaced matches Some(h) ==> h == old(self).handle_of(path@),
            forall|q: Seq<char>|
                q != path@ ==> (final(self).holds(q) <==> old(self).holds(q)) && (old(self).holds(
                    q,
                ) ==> final(self).handle_of(q) == old(self).handle_of(q)),
            final(self).entries@.len() == old(self).entries@.len() + (if old(self).holds(path@) {
                0int
            } else {
                1int
            }),
    {
        let ghost before = *self;
        let replaced = match self.position(path.as_str()) {
            Some(i) => {
                proof {
                    let c = choose|k: int| before.at(k, path@);
                    assert(before.at(i as int, path@));
                    assert(c == i);
                }
                let old_entry = self.entries.remove(i);
                Some(old_entry.handle)
            },
            None => None,
        };
        let ghost middle = *self;
        proof {
            assert forall|q: Seq<char>| q != path@ implies (middle.holds(q) <==> before.holds(q))
                && (before.holds(q) ==> middle.handle_of(q) == before.handle_of(q)) by {
                lemma_removed(before, middle, path@, q);
            }
            assert(!middle.holds(path@)) by {
                if middle.holds(path@) {
                    let k = choose|k: int| middle.at(k, path@);
                    if replaced is Some {
                        let i = choose|i: int| before.at(i, path@);
                        if k < i {
                            assert(before.at(k, path@));
                        } else {
                            assert(before.at(k + 1, path@));
                        }
                    } else {
                        assert(before.at(k, path@));
                    }
                }
            }
            assert(middle.wf()) by {
                if replaced is Some {
                    let i = choose|i: int| before.at(i, path@);
                    assert forall|a: int, b: int|
                        0 <= a < b < middle.entries@.len() implies middle.entries@[a].path@
                        != middle.entries@[b].path@ by {
                        let a0 = if a < i {
                            a
                        } else {
                            a + 1
                        };
                        let b0 = if b < i {
                            b
                        } else {
                            b + 1
                        };
                        assert(middle.entries@[a] == before.entries@[a0]);
                        assert(middle.entries@[b] == before.entries@[b0]);
                    }
                }
            }
        }
        self.entries.push(Entry { path, handle });
        proof {
            let after = *self;
            let n = middle.entries@.len() as int;
            assert(after.at(n, path@));
            assert(after.wf()) by {
                assert forall|a: int, b: int|
                    0 <= a < b < after.entries@.len() implies after.entries@[a].path@
                    != after.entries@[b].path@ by {
                    if b == n {
                        if after.entries@[a].path@ == path@ {
                            assert(middle.at(a, path@));
                        }
                    }
                }
            }
            assert(after.handle_of(path@) == handle) by {
                let c = choose|k: int| after.at(k, path@);
                if c != n {
                    assert(middle.at(c, path@));
                }
            }
            assert forall|q: Seq<char>| q != path@ implies (after.holds(q) <==> middle.holds(q))
                && (middle.holds(q) ==> after.handle_of(q) == middle.handle_of(q)) by {
                if middle.holds(q) {
                    let k = choose|k: int| middle.at(k, q);
                    assert(after.at(k, q));
                    let c = choose|c: int| after.at(c, q);
                    assert(c < n);
                    assert(middle.at(c, q));
                    assert(c == k);
                }
                if after.holds(q) {
                    let c = choose|c: int| after.at(c, q);
                    assert(middle.at(c, q));
                }
            }
        }
        replaced
    }

    /// Removes the handle for `path` and hands it back; `None` where none
    /// is open.
    pub fn remove(&mut self, path: &str) -> (removed: Option<H>)
        requires
            old(self).wf(),
        ensures
            final(self).wf(),
            !final(self).holds(path@),
            removed is Some <==> old(self).holds(path@),
            removed matches Some(h) ==> h == old(self).handle_of(path@),
            forall|q: Seq<char>|
                q != path@ ==> (final(self).holds(q) <==> old(self).holds(q)) && (old(self).holds(
                    q,
                ) ==> final(self).handle_of(q) == old(self).handle_of(q)),
    {
        let ghost before = *self;
        match self.position(path) {
            Some(i) => {
                proof {
                    let c = choose|k: int| before.at(k, path@);
                    assert(before.at(i as int, path@));
                    assert(c == i);
                }
                let entry = self.entries.remove(i);
                proof {
                    let after = *self;
                    assert forall|q: Seq<char>| q != path@ implies (after.holds(q)
                        <==> before.holds(q)) && (before.holds(q) ==> after.handle_of(q)
                        == before.handle_of(q)) by {
                        lemma_removed(before, after, path@, q);
                    }
                    assert(!after.holds(path@)) by {
                        if after.holds(path@) {
                            let k = choose|k: int| after.at(k, path@);
                            if k < i {
                                assert(before.at(k, path@));
                            } else {
                                assert(before.at(k + 1, path@));
                            }
                        }
                    }
                    assert(after.wf()) by {
                        assert forall|a: int, b: int|
                            0 <= a < b < after.entries@.len() implies after.entries@[a].path@
                            != after.entries@[b].path@ by {
                            let a0 = if a < i {
                                a
                            } else {
                                a + 1
                            };
                            let b0 = if b < i {
                                b
                            } else {
                                b + 1
                            };
                            assert(after.entries@[a] == before.entries@[a0]);
                            assert(after.entries@[b] == before.entries@[b0]);
                        }
                    }
                }
                Some(entry.handle)
            },
            None => None,
        }
    }
}

/// Taking the entry of one path out of a registry leaves every other path
/// as it was.
proof fn lemma_removed<H>(before: Registry<H>, after: Registry<H>, path: Seq<char>, q: Seq<char>)
    requires
        before.wf(),
        q != path,
        before.holds(path) ==> after.entries@ == before.entries@.remove(
            choose|i: int| before.at(i, path),
        ),
        !before.holds(path) ==> after.entries@ == before.entries@,
    ensures
        after.holds(q) <==> before.holds(q),
        before.holds(q) ==> after.handle_of(q) == before.handle_of(q),
{
    if before.holds(path) {
        let i = choose|i: int| before.at(i, path);
        if before.holds(q) {
            let k = choose|k: int| before.at(k, q);
            let k1 = if k < i {
                k
            } else {
                k - 1
            };
            assert(after.entries@[k1] == before.entries@[k]);
            assert(after.at(k1, q));
            let c = choose|c: int| after.at(c, q);
            let c0 = if c < i {
                c
            } else {
                c + 1
            };
            assert(after.entries@[c] == before.entries@[c0]);
            assert(before.at(c0, q));
            assert(c0 == k);
        }
        if after.holds(q) {
            let c = choose|c: int| after.at(c, q);
            let c0 = if c < i {
                c
            } else {
                c + 1
            };
            assert(after.entries@[c] == before.entries@[c0]);
            assert(before.at(c0, q));
        }
    } else {
        if before.holds(q) {
            let k = choose|k: int| before.at(k, q);
            assert(after.at(k, q));
        }
        if after.holds(q) {
            let c = choose|c: int| after.at(c, q);
            assert(before.at(c, q));
        }
    }
}

/// What goes from disk when a handle is asked to be removed.
#[derive(Debug, Clone, Copy, PartialEq, Eq, Structural)]
pub enum Removal {
    /// Nothing is deleted.
    Nothing,
    /// The directory that holds the database, with all that is in it.
    Folder,
    /// The database file with its write-ahead log and its shared-memory
    /// file.
    Database,
}

/// What is deleted once the handle of a database was closed and taken out
/// of the registry, whether or not one was open: the enclosing directory if
/// that was asked for; else the database with its two companions if that was
/// asked for; else nothing.
pub open spec fn removal_of(remove_tiles_folder: Option<bool>, remove_tiles_db: Option<bool>) -> Removal {
    if remove_tiles_folder == Some(true) {
        Removal::Folder
    } else if remove_tiles_db == Some(true) {
        Removal::Database
    } else {
        Removal::Nothing
    }
}

/// What is deleted from disk after a handle was asked to be removed.
pub fn removal(remove_tiles_folder: Option<bool>, remove_tiles_db: Option<bool>) -> (r: Removal)
    ensures
        r == removal_of(remove_tiles_folder, remove_tiles_db),
{
    match remove_tiles_folder {
        Some(true) => {
            return Removal::Folder;
        },
        _ => {},
    }
    match remove_tiles_db {
        Some(true) => Removal::Database,
        _ => Removal::Nothing,
    }
}

/// The files of a cache database: the database itself, its write-ahead log
/// and its shared-memory file.
pub open spec fn database_files_of(mbtiles_db: Seq<char>) -> Seq<Seq<char>> {
    seq![mbtiles_db, mbtiles_db + "-wal"@, mbtiles_db + "-shm"@]
}

/// The files that go with `Removal::Database`.
pub fn database_files(mbtiles_db: &str) -> (r: Vec<String>)
    ensures
        crate::utils::string_views(r@) == database_files_of(mbtiles_db@),
{
    let mut wal = mbtiles_db.to_owned();
    wal.append("-wal");
    let mut shm = mbtiles_db.to_owned();
    shm.append("-shm");
    let mut r: Vec<String> = Vec::new();
    r.push(mbtiles_db.to_owned());
    r.push(wal);
    r.push(shm);
    assert(crate::utils::string_views(r@) =~= database_files_of(mbtiles_db@));
    r
}

/// The tile directory of a deleted datasource goes whether or not its cache
/// database was ever opened.
pub proof fn lemma_folder_goes(remove_tiles_db: Option<bool>)
    ensures
        removal_of(Some(true), remove_tiles_db) == Removal::Folder,
{
}

/// Whether a cache database is opened once with its journal off before it
/// is used: when its write-ahead log or its shared-memory file was left
/// behind.
pub fn merges_journal(wal_exists: bool, shm_exists: bool) -> (r: bool)
    ensures
        r == (wal_exists || shm_exists),
{
    wal_exists || shm_exists
}

/// At most one handle per path: after a handle was added, the registry
/// holds one handle for the path, the one added last, and as many entries
/// as there are paths.
pub proof fn lemma_one_handle_per_path<H>(r: Registry<H>, i: int, j: int)
    requires
        r.wf(),
        0 <= i < r.entries@.len(),
        0 <= j < r.entries@.len(),
        r.entries@[i].path@ == r.entries@[j].path@,
    ensures
        i == j,
{
}

} // verus!
