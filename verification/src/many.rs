//! The multi-entry resolver: the same matching machinery as the single-entry
//! resolver, but returning every candidate with no cardinality check. An
//! empty result is success, not failure.

use vstd::prelude::*;

use crate::entry::{EntryName, EntryNamed, EntryNameView, EntryType};
use crate::error::FileMatcherError;
use crate::finder::{candidates, find_candidates, name_valid, views_of};
use crate::one::DescView;
use crate::paths::{join, spec_join};
use crate::snapshot::{DirSnapshot, EntryKind};

verus! {

/// The paths of a row of candidate entries under a base directory.
pub open spec fn joined_paths(dir: Seq<char>, cs: Seq<(Seq<char>, EntryKind)>) -> Seq<Seq<char>> {
    cs.map(|i: int, c: (Seq<char>, EntryKind)| spec_join(dir, c.0))
}

/// The single-entry resolver is the cardinality rule applied to the
/// multi-entry resolver's list: for the same description and snapshot,
/// exactly one candidate path means `find` returns that path, an empty list
/// means it reports nothing found, and two or more mean it reports too many.
pub proof fn lemma_one_is_cardinality_of_many(
    q: crate::one::OneEntryView,
    s: Seq<(Seq<char>, EntryKind)>,
    paths: Seq<Seq<char>>,
    fr: Result<String, FileMatcherError>,
)
    requires
        name_valid(q.name),
        paths == joined_paths(q.directory, candidates(s, q.entry_type, q.name)),
        crate::one::find_spec(q, s, fr),
    ensures
        paths.len() == 1 ==> (fr matches Ok(p) && p@ == paths[0]),
        paths.len() == 0 ==> (fr matches Err(e) && e is NotExists),
        paths.len() >= 2 ==> (fr matches Err(e) && e is TooMany),
{
}

/// Spec-level mirror of [`ManyEntries`].
pub struct ManyEntriesView {
    pub name: EntryNameView,
    pub entry_type: EntryType,
    pub directory: Seq<char>,
}

/// A "give me all of them" query: a named description bound to a base
/// directory, resolved to the full candidate list.
#[derive(Debug)]
pub struct ManyEntries {
    entry: EntryNamed,
    directory: String,
}

/// A description that a [`ManyEntries`] query can be built from.
pub trait ManyEntriesNamed {
    /// What the description says: its name, its type constraint, and its
    /// alias, if any.
    spec fn desc(&self) -> DescView;

    fn within_path_buf(&self, directory: String) -> (r: ManyEntries)
        ensures
            r@.name == self.desc().name,
            r@.entry_type == self.desc().entry_type,
            r@.directory == directory@,
    ;

    fn entry_name(&self) -> (r: &EntryName)
        ensures
            r@ == self.desc().name,
    ;

    fn entry_type(&self) -> (r: &EntryType)
        ensures
            *r == self.desc().entry_type,
    ;

    fn name_alias(&self) -> (r: Option<&str>)
        ensures
            match r {
                Some(a) => self.desc().alias == Some(a@),
                None => self.desc().alias is None,
            },
    ;
}

impl View for ManyEntries {
    type V = ManyEntriesView;

    closed spec fn view(&self) -> ManyEntriesView {
        ManyEntriesView {
            name: self.entry@.name,
            entry_type: self.entry@.entry_type,
            directory: self.directory@,
        }
    }
}

impl Clone for ManyEntries {
    fn clone(&self) -> (r: Self)
        ensures
            r@ == self@,
    {
        ManyEntries { entry: self.entry.clone(), directory: self.directory.clone() }
    }
}

impl ManyEntries {
    pub fn new(entry: EntryNamed, directory: String) -> (r: Self)
        ensures
            r@.name == entry@.name,
            r@.entry_type == entry@.entry_type,
            r@.directory == directory@,
    {
        ManyEntries { entry, directory }
    }

    /// Every candidate path of the description against the snapshot, in
    /// candidate order; the empty list when nothing matches.
    pub fn find(&self, listing: &DirSnapshot) -> (r: Result<Vec<String>, FileMatcherError>)
        ensures
            r is Ok <==> name_valid(self@.name),
            r matches Ok(v) ==> v.deep_view() == joined_paths(
                self@.directory,
                candidates(listing@, self@.entry_type, self@.name),
            ),
            r matches Err(e) ==> e is RegexError,
    {
        match find_candidates(listing, self.entry.entry_type(), self.entry.entry_name()) {
            Err(e) => Err(e),
            Ok(found) => {
                let ghost cs = candidates(listing@, self@.entry_type, self@.name);
                let mut out: Vec<String> = Vec::new();
                let mut j: usize = 0;
                proof {
                    assert(views_of(found@).len() == found@.len());
                    assert(out.deep_view() =~= joined_paths(self@.directory, cs.take(0)));
                }
                while j < found.len()
                    invariant
                        j <= found.len(),
                        found@.len() == cs.len(),
                        views_of(found@) == cs,
                        out.deep_view() == joined_paths(self@.directory, cs.take(j as int)),
                        self.directory@ == self@.directory,
                    decreases found.len() - j,
                {
                    let ghost out_old = out.deep_view();
                    let p = join(self.directory.as_str(), found[j].name().as_str());
                    out.push(p);
                    proof {
                        assert(views_of(found@)[j as int] == found@[j as int]@);
                        assert(out.deep_view() =~= out_old.push(spec_join(
                            self@.directory,
                            cs[j as int].0,
                        )));
                        assert(joined_paths(self@.directory, cs.take(j + 1)) =~= out_old.push(
                            spec_join(self@.directory, cs[j as int].0),
                        ));
                    }
                    j = j + 1;
                }
                proof {
                    assert(cs.take(cs.len() as int) =~= cs);
                }
                Ok(out)
            },
        }
    }
}

} // verus!
