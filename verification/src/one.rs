//! The single-entry resolver: a named description bound to a base
//! directory, enforcing the "exactly one" cardinality.

use vstd::prelude::*;

use crate::entry::{EntryName, EntryNamed, EntryNameView, EntryType};
use crate::error::FileMatcherError;
use crate::finder::{candidates, find_candidates, resolution, views_of, Resolution};
use crate::paths::{file_name_of, join, spec_file_name, spec_join};
use crate::snapshot::{DirEntry, DirSnapshot, EntryKind};

verus! {

/// What a named description says: its name, its type constraint, and the
/// alias it presents for destination naming, if any.
pub struct DescView {
    pub name: EntryNameView,
    pub entry_type: EntryType,
    pub alias: Option<Seq<char>>,
}

/// A description that an "exactly one" query can be built from.
pub trait OneEntryNamed {
    /// What the description says.
    spec fn desc(&self) -> DescView;

    fn within_path_buf(&self, directory: String) -> (r: OneEntry)
        ensures
            r@.name == self.desc().name,
            r@.entry_type == self.desc().entry_type,
            r@.alias == self.desc().alias,
            r@.directory == directory@,
    ;

    fn entry_name(&self) -> (r: &EntryName)
        ensures
            r@ == self.desc().name,
    ;

    fn entry_type(&self) -> (r: &EntryType)
        ensures
            *r == self.desc().entry_type,
    ;

    fn name_alias(&self) -> (r: Option<&str>)
        ensures
            match r {
                Some(a) => self.desc().alias == Some(a@),
                None => self.desc().alias is None,
            },
    ;
}

/// What [`OneEntry::find`] must return, given the query and the snapshot:
/// the joined path of the one candidate, or the typed failure the
/// resolution outcome dictates.
pub open spec fn find_spec(
    q: OneEntryView,
    s: Seq<(Seq<char>, EntryKind)>,
    r: Result<String, FileMatcherError>,
) -> bool {
    match resolution(s, q.entry_type, q.name) {
        Resolution::InvalidPattern => r matches Err(e) && e is RegexError,
        Resolution::NotFound => r matches Err(e) && (e matches FileMatcherError::NotExists(o) && o@
            == q),
        Resolution::Unique(nm, k) => r matches Ok(p) && p@ == spec_join(q.directory, nm),
        Resolution::Ambiguous => r matches Err(e) && (e matches FileMatcherError::TooMany(o) && o@
            == q),
    }
}

/// What [`OneEntry::is_present`] must return: `true` for a unique match,
/// `false` when nothing matches, and the failure itself when the pattern is
/// broken or the match ambiguous.
pub open spec fn presence_spec(
    q: OneEntryView,
    s: Seq<(Seq<char>, EntryKind)>,
    r: Result<bool, FileMatcherError>,
) -> bool {
    match resolution(s, q.entry_type, q.name) {
        Resolution::InvalidPattern => r matches Err(e) && e is RegexError,
        Resolution::NotFound => r matches Ok(b) && !b,
        Resolution::Unique(nm, k) => r matches Ok(b) && b,
        Resolution::Ambiguous => r matches Err(e) && (e matches FileMatcherError::TooMany(o) && o@
            == q),
    }
}

/// Spec-level mirror of [`OneEntry`].
pub struct OneEntryView {
    pub name: EntryNameView,
    pub entry_type: EntryType,
    pub alias: Option<Seq<char>>,
    pub directory: Seq<char>,
}

/// An "exactly one" query: a named description bound to a base directory,
/// with an optional alias standing in for the physical name when a
/// destination is computed. Evaluation is lazy: each call takes the
/// snapshot to evaluate against, so it always reflects the caller's latest
/// reading of the directory.
#[derive(Debug)]
pub struct OneEntry {
    entry: EntryNamed,
    alias: Option<String>,
    directory: String,
}

impl View for OneEntry {
    type V = OneEntryView;

    closed spec fn view(&self) -> OneEntryView {
        OneEntryView {
            name: self.entry@.name,
            entry_type: self.entry@.entry_type,
            alias: match self.alias {
                Some(a) => Some(a@),
                None => None,
            },
            directory: self.directory@,
        }
    }
}

impl Clone for OneEntry {
    fn clone(&self) -> (r: Self)
        ensures
            r@ == self@,
    {
        OneEntry {
            entry: self.entry.clone(),
            alias: match &self.alias {
                Some(a) => Some(a.clone()),
                None => None,
            },
            directory: self.directory.clone(),
        }
    }
}

impl OneEntry {
    pub fn new(entry: EntryNamed, alias: Option<String>, directory: String) -> (r: Self)
        ensures
            r@.name == entry@.name,
            r@.entry_type == entry@.entry_type,
            r@.alias == (match alias {
                Some(a) => Some(a@),
                None => None::<Seq<char>>,
            }),
            r@.directory == directory@,
    {
        OneEntry { entry, alias, directory }
    }

    pub fn entry(&self) -> (r: &EntryNamed)
        ensures
            r@.name == self@.name,
            r@.entry_type == self@.entry_type,
    {
        &self.entry
    }

    pub fn entry_type(&self) -> (r: &EntryType)
        ensures
            *r == self@.entry_type,
    {
        self.entry.entry_type()
    }

    pub fn entry_name(&self) -> (r: &EntryName)
        ensures
            r@ == self@.name,
    {
        self.entry.entry_name()
    }

    pub fn directory(&self) -> (r: &str)
        ensures
            r@ == self@.directory,
    {
        self.directory.as_str()
    }

    pub fn name_alias(&self) -> (r: Option<&str>)
        ensures
            match r {
                Some(a) => self@.alias == Some(a@),
                None => self@.alias is None,
            },
    {
        match &self.alias {
            Some(a) => Some(a.as_str()),
            None => None,
        }
    }

    /// The one listing entry this query denotes: its name and kind. Exactly
    /// one candidate resolves; none, several, or a broken pattern are the
    /// typed failures.
    pub fn find_entry(&self, listing: &DirSnapshot) -> (r: Result<DirEntry, FileMatcherError>)
        ensures
            match resolution(listing@, self@.entry_type, self@.name) {
                Resolution::InvalidPattern => r matches Err(e) && e is RegexError,
                Resolution::NotFound => r matches Err(e) && (e matches FileMatcherError::NotExists(
                    o,
                ) && o@ == self@),
                Resolution::Unique(nm, k) => r matches Ok(d) && d@ == (nm, k),
                Resolution::Ambiguous => r matches Err(e) && (e matches FileMatcherError::TooMany(
                    o,
                ) && o@ == self@),
            },
    {
        match find_candidates(listing, self.entry.entry_type(), self.entry.entry_name()) {
            Err(e) => Err(e),
            Ok(mut v) => {
                proof {
                    let c = candidates(listing@, self@.entry_type, self@.name);
                    assert(views_of(v@).len() == v@.len());
                    if v@.len() >= 1 {
                        assert(views_of(v@)[0] == v@[0]@);
                    }
                }
                if v.len() == 0 {
                    Err(FileMatcherError::NotExists(self.clone()))
                } else if v.len() == 1 {
                    match v.pop() {
                        Some(d) => Ok(d),
                        None => Err(FileMatcherError::NotExists(self.clone())),
                    }
                } else {
                    Err(FileMatcherError::TooMany(self.clone()))
                }
            },
        }
    }

    /// Try to find an exactly one entry of the specified type and name:
    /// the path of the one match, or a typed failure.
    pub fn find(&self, listing: &DirSnapshot) -> (r: Result<String, FileMatcherError>)
        ensures
            find_spec(self@, listing@, r),
    {
        match self.find_entry(listing) {
            Err(e) => Err(e),
            Ok(d) => Ok(join(self.directory.as_str(), d.name().as_str())),
        }
    }

    /// Return true if there exists exactly one entry of the specified type
    /// and name, false when there is none. A broken pattern or an ambiguous
    /// match is not absence: those failures are passed through, never turned
    /// into `false`.
    pub fn is_present(&self, listing: &DirSnapshot) -> (r: Result<bool, FileMatcherError>)
        ensures
            presence_spec(self@, listing@, r),
    {
        match self.find(listing) {
            Ok(_) => Ok(true),
            Err(e) => match e {
                FileMatcherError::NotExists(_) => Ok(false),
                other => Err(other),
            },
        }
    }

    /// The resolved path, as [`Self::find`].
    pub fn as_path_buf(&self, listing: &DirSnapshot) -> (r: Result<String, FileMatcherError>)
        ensures
            find_spec(self@, listing@, r),
    {
        self.find(listing)
    }

    /// The file name of the resolved path, as text.
    pub fn as_string(&self, listing: &DirSnapshot) -> (r: Result<String, FileMatcherError>)
        ensures
            match resolution(listing@, self@.entry_type, self@.name) {
                Resolution::InvalidPattern => r matches Err(e) && e is RegexError,
                Resolution::NotFound => r matches Err(e) && (e matches FileMatcherError::NotExists(
                    o,
                ) && o@ == self@),
                Resolution::Unique(nm, k) => {
                    let p = spec_join(self@.directory, nm);
                    if spec_file_name(p).len() > 0 {
                        r matches Ok(s) && s@ == spec_file_name(p)
                    } else {
                        r matches Err(e) && (e matches FileMatcherError::NotReadable(q) && q@ == p)
                    }
                },
                Resolution::Ambiguous => r matches Err(e) && (e matches FileMatcherError::TooMany(
                    o,
                ) && o@ == self@),
            },
    {
        match self.find(listing) {
            Err(e) => Err(e),
            Ok(p) => match file_name_of(p.as_str()) {
                Some(s) => Ok(s),
                None => Err(FileMatcherError::NotReadable(p)),
            },
        }
    }
}

/// Checking presence answers exactly "does `find` succeed": a unique match
/// gives `Ok(true)`, nothing found gives `Ok(false)`, and any other failure
/// of `find` — an ambiguous match or a broken pattern — is passed through,
/// never turned into `false`.
pub proof fn lemma_presence_follows_find(
    q: OneEntryView,
    s: Seq<(Seq<char>, EntryKind)>,
    fr: Result<String, FileMatcherError>,
    pr: Result<bool, FileMatcherError>,
)
    requires
        find_spec(q, s, fr),
        presence_spec(q, s, pr),
    ensures
        (pr matches Ok(b) && b) <==> fr is Ok,
        (pr matches Ok(b) && !b) <==> (fr matches Err(e) && e is NotExists),
        pr is Err ==> (fr matches Err(e) && (e is TooMany || e is RegexError)),
{
}

/// Resolving the same query twice against an unchanged snapshot returns the
/// same answer both times: success or the same failure kind, and on success
/// the same path.
pub proof fn lemma_find_idempotent(
    q: OneEntryView,
    s: Seq<(Seq<char>, EntryKind)>,
    r1: Result<String, FileMatcherError>,
    r2: Result<String, FileMatcherError>,
)
    requires
        find_spec(q, s, r1),
        find_spec(q, s, r2),
    ensures
        r1 is Ok <==> r2 is Ok,
        r1 matches Ok(p1) ==> (r2 matches Ok(p2) && p1@ == p2@),
{
}

/// An alias overrides only the logical name a copy or move uses at the
/// destination: which physical entry a query matches never depends on it.
pub proof fn lemma_alias_ignored_by_resolution(
    a: OneEntryView,
    b: OneEntryView,
    s: Seq<(Seq<char>, EntryKind)>,
)
    requires
        a.name == b.name,
        a.entry_type == b.entry_type,
        a.directory == b.directory,
    ensures
        resolution(s, a.entry_type, a.name) == resolution(s, b.entry_type, b.name),
{
}

} // verus!
