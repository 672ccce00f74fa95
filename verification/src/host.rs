//! What the machine said: a record of the paths that were looked at.
//!
//! The library never touches the file system. Its caller looks at the paths
//! the library may ask about and writes down, for each one that exists, what
//! is there and what its canonical form is. Every decision that depends on
//! the file system is then a function of such a record, and is proved for
//! all records.

use vstd::prelude::*;
use crate::text::same_text;

verus! {

/// What exists at a path, with links followed.
#[derive(Clone, Copy, Debug, PartialEq, Eq, Structural)]
pub enum EntryKind {
    /// A regular file.
    File,
    /// A directory.
    Dir,
    /// Something else: a socket, a device, a pipe.
    Other,
}

/// One path that exists.
#[derive(Debug, PartialEq, Eq)]
pub struct Entry {
    /// The text the path was asked about with.
    pub path: String,
    /// What is there.
    pub kind: EntryKind,
    /// The canonical, absolute form of the path.
    pub canonical: String,
}

/// The platform and the paths that exist. A path without an entry does not
/// exist, or cannot be reached; of several entries for one path the first
/// counts.
#[derive(Debug, PartialEq, Eq)]
pub struct Host {
    /// Whether executables carry the suffix `exe` and names ignore case.
    pub windows: bool,
    /// The paths that exist.
    pub entries: Vec<Entry>,
}

/// The first entry for `path` at or after index `start`.
pub open spec fn find_from(entries: Seq<Entry>, path: Seq<char>, start: int) -> Option<Entry>
    decreases entries.len() - start,
{
    if start < 0 || start >= entries.len() {
        None
    } else if entries[start].path@ == path {
        Some(entries[start])
    } else {
        find_from(entries, path, start + 1)
    }
}

impl Host {
    /// The entry that counts for `path`, if the path exists.
    pub open spec fn entry(&self, path: Seq<char>) -> Option<Entry> {
        find_from(self.entries@, path, 0)
    }

    /// Whether `path` exists.
    pub open spec fn has(&self, path: Seq<char>) -> bool {
        self.entry(path) is Some
    }

    /// Whether `path` is a regular file.
    pub open spec fn has_file(&self, path: Seq<char>) -> bool {
        self.entry(path) matches Some(e) && e.kind == EntryKind::File
    }

    /// Whether `path` is a directory.
    pub open spec fn has_dir(&self, path: Seq<char>) -> bool {
        self.entry(path) matches Some(e) && e.kind == EntryKind::Dir
    }

    /// The canonical form of `path`, if the path exists.
    pub open spec fn canonical(&self, path: Seq<char>) -> Option<Seq<char>> {
        match self.entry(path) {
            Some(e) => Some(e.canonical@),
            None => None,
        }
    }

    /// A record of a machine on which no path exists.
    pub fn new(windows: bool) -> (host: Host)
        ensures
            host.windows == windows,
            host.entries@.len() == 0,
            forall|path: Seq<char>| !host.has(path),
    {
        Host { windows, entries: Vec::new() }
    }

    /// Writes down that `path` exists. An earlier entry for the same path
    /// stays the one that counts.
    pub fn record(&mut self, path: &str, kind: EntryKind, canonical: &str)
        ensures
            final(self).windows == old(self).windows,
            final(self).entries@.len() == old(self).entries@.len() + 1,
            final(self).entries@.subrange(0, old(self).entries@.len() as int) == old(self).entries@,
            final(self).entries@.last().path@ == path@,
            final(self).entries@.last().kind == kind,
            final(self).entries@.last().canonical@ == canonical@,
    {
        self.entries.push(Entry { path: path.to_owned(), kind, canonical: canonical.to_owned() });
    }

    /// The entry that counts for `path`.
    pub fn lookup(&self, path: &str) -> (found: Option<&Entry>)
        ensures
            match found {
                Some(e) => self.entry(path@) == Some(*e),
                None => self.entry(path@) is None,
            },
    {
        let mut i: usize = 0;
        while i < self.entries.len()
            invariant
                i <= self.entries@.len(),
                self.entry(path@) == find_from(self.entries@, path@, i as int),
            decreases self.entries@.len() - i,
        {
            if same_text(self.entries[i].path.as_str(), path) {
                return Some(&self.entries[i]);
            }
            i += 1;
        }
        None
    }

    /// Whether `path` exists.
    pub fn is_present(&self, path: &str) -> (r: bool)
        ensures
            r == self.has(path@),
    {
        self.lookup(path).is_some()
    }

    /// Whether `path` is a regular file.
    pub fn is_file(&self, path: &str) -> (r: bool)
        ensures
            r == self.has_file(path@),
    {
        match self.lookup(path) {
            Some(e) => matches!(e.kind, EntryKind::File),
            None => false,
        }
    }

    /// Whether `path` is a directory.
    pub fn is_dir(&self, path: &str) -> (r: bool)
        ensures
            r == self.has_dir(path@),
    {
        match self.lookup(path) {
            Some(e) => matches!(e.kind, EntryKind::Dir),
            None => false,
        }
    }

    /// The canonical form of `path`, if the path exists.
    pub fn canonicalize(&self, path: &str) -> (r: Option<String>)
        ensures
            r.deep_view() == self.canonical(path@),
    {
        match self.lookup(path) {
            Some(e) => Some(e.canonical.clone()),
            None => None,
        }
    }
}

} // verus!
