//! The copy and move actions: resolving the source, deciding the
//! destination name (alias over physical name), computing the final
//! destination path, and branching between single-file and
//! recursive-directory semantics. The result is a fully decided
//! [`TransferPlan`]; executing it against the filesystem is the caller's
//! concern. A move is a copy whose plan additionally removes the source
//! after the copy; a failure during that removal leaves the destination
//! copy in place — moves are not transactional.

use vstd::prelude::*;

use crate::error::FileMatcherError;
use crate::finder::{resolution, Resolution};
use crate::one::{OneEntry, OneEntryView};
use crate::paths::{file_name_of, join, spec_file_name, spec_join};
use crate::snapshot::{DirSnapshot, EntryKind};

verus! {

/// Which filesystem operation a transfer plan calls for.
#[derive(Clone, Copy, Debug, PartialEq, Eq, Structural)]
pub enum TransferKind {
    /// A byte-level copy of one file; overwrites an existing destination.
    FileCopy,
    /// A recursive copy of a directory's contents under the destination
    /// path: the destination subtree is created, the contents go below it,
    /// without a second wrapper named after the source.
    FolderCopy,
}

/// Spec-level mirror of [`TransferPlan`].
pub struct TransferPlanView {
    pub source: Seq<char>,
    pub destination: Seq<char>,
    pub kind: TransferKind,
    pub removes_source: bool,
}

/// The fully decided filesystem action of a copy or move: what to copy,
/// where to, how, and whether the source is removed after a successful
/// copy.
#[derive(Debug)]
pub struct TransferPlan {
    source: String,
    destination: String,
    kind: TransferKind,
    removes_source: bool,
}

impl View for TransferPlan {
    type V = TransferPlanView;

    closed spec fn view(&self) -> TransferPlanView {
        TransferPlanView {
            source: self.source@,
            destination: self.destination@,
            kind: self.kind,
            removes_source: self.removes_source,
        }
    }
}

impl Clone for TransferPlan {
    fn clone(&self) -> (r: Self)
        ensures
            r@ == self@,
    {
        TransferPlan {
            source: self.source.clone(),
            destination: self.destination.clone(),
            kind: self.kind,
            removes_source: self.removes_source,
        }
    }
}

impl TransferPlan {
    pub fn source(&self) -> (r: &str)
        ensures
            r@ == self@.source,
    {
        self.source.as_str()
    }

    pub fn destination(&self) -> (r: &str)
        ensures
            r@ == self@.destination,
    {
        self.destination.as_str()
    }

    pub fn kind(&self) -> (r: TransferKind)
        ensures
            r == self@.kind,
    {
        self.kind
    }

    pub fn removes_source(&self) -> (r: bool)
        ensures
            r == self@.removes_source,
    {
        self.removes_source
    }
}

/// The final destination path of a transfer: inside an existing destination
/// directory the entry keeps its logical name; any other destination is
/// taken verbatim as the target path.
pub open spec fn spec_destination(
    name: Seq<char>,
    destination: Seq<char>,
    destination_is_dir: bool,
) -> Seq<char> {
    if destination_is_dir {
        spec_join(destination, name)
    } else {
        destination
    }
}

/// What a planned transfer must be, given the query, the snapshot, the
/// destination argument and whether it is an existing directory: the source
/// resolves to exactly one entry, the destination name is the alias when one
/// is present and the source's own final name component otherwise, and the
/// plan's operation follows the resolved entry's kind. A source that is
/// neither file nor folder, or a resolved path without a name component and
/// no alias to stand in for it, is not readable.
pub open spec fn transfer_spec(
    q: OneEntryView,
    s: Seq<(Seq<char>, EntryKind)>,
    destination: Seq<char>,
    destination_is_dir: bool,
    removes_source: bool,
    r: Result<TransferPlan, FileMatcherError>,
) -> bool {
    match resolution(s, q.entry_type, q.name) {
        Resolution::InvalidPattern => r matches Err(e) && e is RegexError,
        Resolution::NotFound => r matches Err(e) && (e matches FileMatcherError::NotExists(o) && o@
            == q),
        Resolution::Ambiguous => r matches Err(e) && (e matches FileMatcherError::TooMany(o) && o@
            == q),
        Resolution::Unique(nm, k) => {
            let path = spec_join(q.directory, nm);
            if q.alias is None && spec_file_name(path).len() == 0 {
                r matches Err(e) && (e matches FileMatcherError::NotReadable(p) && p@ == path)
            } else {
                let dname = match q.alias {
                    Some(a) => a,
                    None => spec_file_name(path),
                };
                if k == EntryKind::File {
                    r matches Ok(plan) && plan@ == (TransferPlanView {
                        source: path,
                        destination: spec_destination(dname, destination, destination_is_dir),
                        kind: TransferKind::FileCopy,
                        removes_source,
                    })
                } else if k == EntryKind::Folder {
                    r matches Ok(plan) && plan@ == (TransferPlanView {
                        source: path,
                        destination: spec_destination(dname, destination, destination_is_dir),
                        kind: TransferKind::FolderCopy,
                        removes_source,
                    })
                } else {
                    r matches Err(e) && (e matches FileMatcherError::NotReadable(p) && p@ == path)
                }
            }
        },
    }
}

/// Plan the copy of one resolved entry: a file source is a byte-level file
/// copy, a folder source a recursive directory copy; anything else is not
/// readable.
pub fn copy_entry(
    source: &str,
    source_kind: EntryKind,
    name: &str,
    destination: &str,
    destination_is_dir: bool,
) -> (r: Result<TransferPlan, FileMatcherError>)
    ensures
        source_kind == EntryKind::File ==> (r matches Ok(plan) && plan@ == (TransferPlanView {
            source: source@,
            destination: spec_destination(name@, destination@, destination_is_dir),
            kind: TransferKind::FileCopy,
            removes_source: false,
        })),
        source_kind == EntryKind::Folder ==> (r matches Ok(plan) && plan@ == (TransferPlanView {
            source: source@,
            destination: spec_destination(name@, destination@, destination_is_dir),
            kind: TransferKind::FolderCopy,
            removes_source: false,
        })),
        (source_kind == EntryKind::Symlink || source_kind == EntryKind::Other) ==> (r matches Err(e)
            && (e matches FileMatcherError::NotReadable(p) && p@ == source@)),
{
    plan_transfer(source, source_kind, name, destination, destination_is_dir, false)
}

/// Plan the move of one resolved entry: the same copy as [`copy_entry`],
/// with the source removed after a successful copy.
pub fn move_entry(
    source: &str,
    source_kind: EntryKind,
    name: &str,
    destination: &str,
    destination_is_dir: bool,
) -> (r: Result<TransferPlan, FileMatcherError>)
    ensures
        source_kind == EntryKind::File ==> (r matches Ok(plan) && plan@ == (TransferPlanView {
            source: source@,
            destination: spec_destination(name@, destination@, destination_is_dir),
            kind: TransferKind::FileCopy,
            removes_source: true,
        })),
        source_kind == EntryKind::Folder ==> (r matches Ok(plan) && plan@ == (TransferPlanView {
            source: source@,
            destination: spec_destination(name@, destination@, destination_is_dir),
            kind: TransferKind::FolderCopy,
            removes_source: true,
        })),
        (source_kind == EntryKind::Symlink || source_kind == EntryKind::Other) ==> (r matches Err(e)
            && (e matches FileMatcherError::NotReadable(p) && p@ == source@)),
{
    plan_transfer(source, source_kind, name, destination, destination_is_dir, true)
}

fn plan_transfer(
    source: &str,
    source_kind: EntryKind,
    name: &str,
    destination: &str,
    destination_is_dir: bool,
    removes_source: bool,
) -> (r: Result<TransferPlan, FileMatcherError>)
    ensures
        source_kind == EntryKind::File ==> (r matches Ok(plan) && plan@ == (TransferPlanView {
            source: source@,
            destination: spec_destination(name@, destination@, destination_is_dir),
            kind: TransferKind::FileCopy,
            removes_source,
        })),
        source_kind == EntryKind::Folder ==> (r matches Ok(plan) && plan@ == (TransferPlanView {
            source: source@,
            destination: spec_destination(name@, destination@, destination_is_dir),
            kind: TransferKind::FolderCopy,
            removes_source,
        })),
        (source_kind == EntryKind::Symlink || source_kind == EntryKind::Other) ==> (r matches Err(e)
            && (e matches FileMatcherError::NotReadable(p) && p@ == source@)),
{
    let kind = match source_kind {
        EntryKind::File => TransferKind::FileCopy,
        EntryKind::Folder => TransferKind::FolderCopy,
        EntryKind::Symlink | EntryKind::Other => {
            return Err(FileMatcherError::NotReadable(source.to_owned()));
        },
    };
    let target = if destination_is_dir {
        join(destination, name)
    } else {
        destination.to_owned()
    };
    Ok(TransferPlan { source: source.to_owned(), destination: target, kind, removes_source })
}

/// A query whose one resolved entry can be copied somewhere.
pub trait OneEntryCopier {
    /// The query the copy resolves.
    spec fn copied_query(&self) -> OneEntryView;

    /// Resolve the source against the snapshot and decide the complete copy
    /// plan for the given destination; `destination_is_dir` says whether the
    /// destination argument is an existing directory.
    fn copy(&self, listing: &DirSnapshot, destination: &str, destination_is_dir: bool) -> (r: Result<
        TransferPlan,
        FileMatcherError,
    >)
        ensures
            transfer_spec(
                self.copied_query(),
                listing@,
                destination@,
                destination_is_dir,
                false,
                r,
            ),
    ;
}

/// A query whose one resolved entry can be moved somewhere.
pub trait OneEntryMover {
    /// The query the move resolves.
    spec fn moved_query(&self) -> OneEntryView;

    /// Resolve the source against the snapshot and decide the complete move
    /// plan for the given destination: the copy plan of [`OneEntryCopier`],
    /// with the source removed after a successful copy.
    fn move_to(&self, listing: &DirSnapshot, destination: &str, destination_is_dir: bool) -> (r:
        Result<TransferPlan, FileMatcherError>)
        ensures
            transfer_spec(self.moved_query(), listing@, destination@, destination_is_dir, true, r),
    ;
}

impl OneEntryCopier for OneEntry {
    open spec fn copied_query(&self) -> OneEntryView {
        self@
    }

    fn copy(&self, listing: &DirSnapshot, destination: &str, destination_is_dir: bool) -> (r: Result<
        TransferPlan,
        FileMatcherError,
    >) {
        let d = match self.find_entry(listing) {
            Ok(d) => d,
            Err(e) => {
                return Err(e);
            },
        };
        let path = join(self.directory(), d.name().as_str());
        let name: String = match self.name_alias() {
            Some(a) => a.to_owned(),
            None => match file_name_of(path.as_str()) {
                Some(n) => n,
                None => {
                    return Err(FileMatcherError::NotReadable(path));
                },
            },
        };
        copy_entry(path.as_str(), d.kind(), name.as_str(), destination, destination_is_dir)
    }
}

impl OneEntryMover for OneEntry {
    open spec fn moved_query(&self) -> OneEntryView {
        self@
    }

    fn move_to(&self, listing: &DirSnapshot, destination: &str, destination_is_dir: bool) -> (r:
        Result<TransferPlan, FileMatcherError>) {
        let d = match self.find_entry(listing) {
            Ok(d) => d,
            Err(e) => {
                return Err(e);
            },
        };
        let path = join(self.directory(), d.name().as_str());
        let name: String = match self.name_alias() {
            Some(a) => a.to_owned(),
            None => match file_name_of(path.as_str()) {
                Some(n) => n,
                None => {
                    return Err(FileMatcherError::NotReadable(path));
                },
            },
        };
        move_entry(path.as_str(), d.kind(), name.as_str(), destination, destination_is_dir)
    }
}

} // verus!
