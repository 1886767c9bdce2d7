//! A value-level picture of one directory: the names of its immediate
//! children and the kind of filesystem object each one is.
//!
//! Every query of this library is evaluated against such a snapshot, so the
//! matching and resolution logic is a pure function of its inputs. Reading a
//! snapshot off a real directory is the caller's concern; a missing or
//! unreadable directory is represented by an empty snapshot.

use vstd::prelude::*;

verus! {

/// The kind of one filesystem object, as symlink-aware inspection reports
/// it: a symbolic link is reported as `Symlink`, never as the kind of its
/// target, and anything that is neither a regular file, a directory nor a
/// symlink (a device, a socket) is `Other`.
#[derive(Clone, Copy, Debug, PartialEq, Eq, Structural)]
pub enum EntryKind {
    File,
    Folder,
    Symlink,
    Other,
}

/// One immediate child of a directory: its name (a single path component,
/// no separators) and its kind.
#[derive(Debug)]
pub struct DirEntry {
    name: String,
    kind: EntryKind,
}

impl View for DirEntry {
    type V = (Seq<char>, EntryKind);

    closed spec fn view(&self) -> (Seq<char>, EntryKind) {
        (self.name@, self.kind)
    }
}

impl Clone for DirEntry {
    fn clone(&self) -> (r: Self)
        ensures
            r@ == self@,
    {
        DirEntry { name: self.name.clone(), kind: self.kind }
    }
}

impl DirEntry {
    pub fn new(name: String, kind: EntryKind) -> (r: DirEntry)
        ensures
            r@ == (name@, kind),
    {
        DirEntry { name, kind }
    }

    pub fn name(&self) -> (r: &String)
        ensures
            r@ == self@.0,
    {
        &self.name
    }

    pub fn kind(&self) -> (r: EntryKind)
        ensures
            r == self@.1,
    {
        self.kind
    }
}

/// The immediate children of one directory, in listing order.
#[derive(Debug)]
pub struct DirSnapshot {
    entries: Vec<DirEntry>,
}

impl View for DirSnapshot {
    type V = Seq<(Seq<char>, EntryKind)>;

    closed spec fn view(&self) -> Seq<(Seq<char>, EntryKind)> {
        self.entries@.map(|i: int, e: DirEntry| e@)
    }
}

impl DirSnapshot {
    pub fn new(entries: Vec<DirEntry>) -> (r: DirSnapshot)
        ensures
            r@ == entries@.map(|i: int, e: DirEntry| e@),
    {
        DirSnapshot { entries }
    }

    /// An empty snapshot: what a missing or unreadable directory looks like.
    pub fn empty() -> (r: DirSnapshot)
        ensures
            r@ == Seq::<(Seq<char>, EntryKind)>::empty(),
    {
        let r = DirSnapshot { entries: Vec::new() };
        proof {
            assert(r@ =~= Seq::<(Seq<char>, EntryKind)>::empty());
        }
        r
    }

    pub fn len(&self) -> (r: usize)
        ensures
            r == self@.len(),
    {
        self.entries.len()
    }

    pub fn entry_at(&self, i: usize) -> (r: &DirEntry)
        requires
            i < self@.len(),
        ensures
            r@ == self@[i as int],
    {
        &self.entries[i]
    }
}

} // verus!
