//! Resolves symbolic descriptions of filesystem entries ("the file named
//! cat.txt", "any file matching cat*") into concrete paths within a given
//! directory, and plans copy/move actions on the resolved entries.
//!
//! The library itself performs no filesystem access: callers hand it a
//! [`DirSnapshot`] describing the immediate children of the base directory,
//! and the library resolves descriptions against that value and returns
//! paths or transfer plans.

use vstd::prelude::*;

mod actions;
mod alias;
mod entry;
mod error;
mod finder;
mod many;
mod matchers;
mod one;
mod paths;
mod snapshot;

pub use crate::actions::{copy_entry, move_entry, spec_destination, transfer_spec, OneEntryCopier,
    OneEntryMover, TransferKind, TransferPlan, TransferPlanView};
pub use crate::alias::{EntityAlias, EntityAliasView};
pub use crate::entry::{name_text, name_view, names_view, spec_list_text, spec_name_text,
    spec_named_list_text, spec_type_text, type_text, EntryName, EntryNameView, EntryNamed,
    EntryNamedView, EntryType};
pub use crate::error::{spec_message, FileMatcherError};
pub use crate::finder::{candidates, find_candidates, is_readable_entry, kind_matches,
    lemma_all_names_valid_iff, lemma_candidates_are_matching_entries, lemma_cardinality,
    lemma_exact_resolution, lemma_names_view_index, name_valid, resolution, views_of, Resolution};
pub use crate::many::{joined_paths, lemma_one_is_cardinality_of_many, ManyEntries, ManyEntriesNamed,
    ManyEntriesView};
pub use crate::matchers::{regex_match, regex_valid, wild_match};
pub use crate::one::{find_spec, lemma_alias_ignored_by_resolution, lemma_find_idempotent,
    lemma_presence_follows_find, presence_spec, DescView, OneEntry, OneEntryNamed, OneEntryView};
pub use crate::paths::{file_name_of, join, spec_file_name, spec_join};
pub use crate::snapshot::{DirEntry, DirSnapshot, EntryKind};

verus! {

/// Owned copies of a row of borrowed names, views preserved.
fn to_strings(names: Vec<&str>) -> (r: Vec<String>)
    ensures
        r.deep_view() == names.deep_view(),
{
    let mut out: Vec<String> = Vec::new();
    let mut j: usize = 0;
    proof {
        assert(out.deep_view() =~= names.deep_view().take(0));
    }
    while j < names.len()
        invariant
            j <= names.len(),
            out.deep_view() == names.deep_view().take(j as int),
        decreases names.len() - j,
    {
        let ghost out_old = out.deep_view();
        out.push(names[j].to_owned());
        proof {
            assert(out.deep_view() =~= out_old.push(names@[j as int]@));
            assert(names.deep_view().take(j + 1) =~= out_old.push(names@[j as int]@));
        }
        j = j + 1;
    }
    proof {
        assert(names.deep_view().take(names@.len() as int) =~= names.deep_view());
    }
    out
}

/// Defines a file with various name types.
/// It is required that there exists exactly one file with a given name
/// description.
#[derive(Debug)]
pub struct FileNamed(EntryNamed);

/// Defines a folder with various name types.
/// It is required that there exists exactly one folder with a given name
/// description.
#[derive(Debug)]
pub struct FolderNamed(EntryNamed);

/// Defines a file or a folder with various name types.
/// It is required that there exists exactly one file or folder with a given
/// name description.
#[derive(Debug)]
pub struct FileOrFolderNamed(EntryNamed);

/// Defines any number of files with various name types.
#[derive(Debug)]
pub struct FilesNamed(EntryNamed);

impl View for FileNamed {
    type V = EntryNamedView;

    closed spec fn view(&self) -> EntryNamedView {
        self.0@
    }
}

impl Clone for FileNamed {
    fn clone(&self) -> (r: Self)
        ensures
            r@ == self@,
    {
        FileNamed(self.0.clone())
    }
}

impl crate::one::OneEntryNamed for FileNamed {
    open spec fn desc(&self) -> crate::one::DescView {
        crate::one::DescView { name: self@.name, entry_type: self@.entry_type, alias: None }
    }

    fn within_path_buf(&self, directory: String) -> (r: OneEntry) {
        OneEntry::new(self.0.clone(), None, directory)
    }

    fn entry_name(&self) -> (r: &EntryName) {
        self.0.entry_name()
    }

    fn entry_type(&self) -> (r: &EntryType) {
        self.0.entry_type()
    }

    fn name_alias(&self) -> (r: Option<&str>) {
        None
    }
}

impl FileNamed {
    pub fn exact(name: &str) -> (r: Self)
        ensures
            r@.name == EntryNameView::Exact(name@),
            r@.entry_type == EntryType::File,
    {
        FileNamed(EntryNamed::file(EntryName::Exact(name.to_owned())))
    }

    pub fn any(names: Vec<&str>) -> (r: Self)
        ensures
            r@.name == EntryNameView::Any(names.deep_view()),
            r@.entry_type == EntryType::File,
    {
        FileNamed(EntryNamed::file(EntryName::Any(to_strings(names))))
    }

    pub fn any_named(names: Vec<FileNamed>) -> (r: Self)
        ensures
            r@.name == EntryNameView::AnyNamed(
                names@.map(|i: int, f: FileNamed| f@.name),
            ),
            r@.entry_type == EntryType::File,
    {
        let list = nested_names(&names);
        proof {
            assert(names@.map(|i: int, f: FileNamed| f.desc().name) =~= names@.map(
                |i: int, f: FileNamed| f@.name,
            ));
        }
        FileNamed(EntryNamed::file(EntryName::AnyNamed(list)))
    }

    pub fn regex(pattern: &str) -> (r: Self)
        ensures
            r@.name == EntryNameView::Regex(pattern@),
            r@.entry_type == EntryType::File,
    {
        FileNamed(EntryNamed::file(EntryName::Regex(pattern.to_owned())))
    }

    pub fn wildmatch(pattern: &str) -> (r: Self)
        ensures
            r@.name == EntryNameView::Wildmatch(pattern@),
            r@.entry_type == EntryType::File,
    {
        FileNamed(EntryNamed::file(EntryName::Wildmatch(pattern.to_owned())))
    }

    pub fn within(&self, directory: &str) -> (r: OneEntry)
        ensures
            r@.name == self@.name,
            r@.entry_type == self@.entry_type,
            r@.alias is None,
            r@.directory == directory@,
    {
        crate::one::OneEntryNamed::within_path_buf(self, directory.to_owned())
    }

    pub fn alias(&self, name: &str) -> (r: EntityAlias)
        ensures
            r@.name == self@.name,
            r@.entry_type == self@.entry_type,
            r@.alias == name@,
    {
        EntityAlias::new(self.0.clone(), name.to_owned())
    }
}

impl View for FolderNamed {
    type V = EntryNamedView;

    closed spec fn view(&self) -> EntryNamedView {
        self.0@
    }
}

impl Clone for FolderNamed {
    fn clone(&self) -> (r: Self)
        ensures
            r@ == self@,
    {
        FolderNamed(self.0.clone())
    }
}

impl crate::one::OneEntryNamed for FolderNamed {
    open spec fn desc(&self) -> crate::one::DescView {
        crate::one::DescView { name: self@.name, entry_type: self@.entry_type, alias: None }
    }

    fn within_path_buf(&self, directory: String) -> (r: OneEntry) {
        OneEntry::new(self.0.clone(), None, directory)
    }

    fn entry_name(&self) -> (r: &EntryName) {
        self.0.entry_name()
    }

    fn entry_type(&self) -> (r: &EntryType) {
        self.0.entry_type()
    }

    fn name_alias(&self) -> (r: Option<&str>) {
        None
    }
}

impl FolderNamed {
    pub fn exact(name: &str) -> (r: Self)
        ensures
            r@.name == EntryNameView::Exact(name@),
            r@.entry_type == EntryType::Folder,
    {
        FolderNamed(EntryNamed::folder(EntryName::Exact(name.to_owned())))
    }

    pub fn any(names: Vec<&str>) -> (r: Self)
        ensures
            r@.name == EntryNameView::Any(names.deep_view()),
            r@.entry_type == EntryType::Folder,
    {
        FolderNamed(EntryNamed::folder(EntryName::Any(to_strings(names))))
    }

    pub fn any_named(names: Vec<FolderNamed>) -> (r: Self)
        ensures
            r@.name == EntryNameView::AnyNamed(names@.map(|i: int, f: FolderNamed| f@.name)),
            r@.entry_type == EntryType::Folder,
    {
        let list = nested_names(&names);
        proof {
            assert(names@.map(|i: int, f: FolderNamed| f.desc().name) =~= names@.map(
                |i: int, f: FolderNamed| f@.name,
            ));
        }
        FolderNamed(EntryNamed::folder(EntryName::AnyNamed(list)))
    }

    pub fn regex(pattern: &str) -> (r: Self)
        ensures
            r@.name == EntryNameView::Regex(pattern@),
            r@.entry_type == EntryType::Folder,
    {
        FolderNamed(EntryNamed::folder(EntryName::Regex(pattern.to_owned())))
    }

    pub fn wildmatch(pattern: &str) -> (r: Self)
        ensures
            r@.name == EntryNameView::Wildmatch(pattern@),
            r@.entry_type == EntryType::Folder,
    {
        FolderNamed(EntryNamed::folder(EntryName::Wildmatch(pattern.to_owned())))
    }

    pub fn within(&self, directory: &str) -> (r: OneEntry)
        ensures
            r@.name == self@.name,
            r@.entry_type == self@.entry_type,
            r@.alias is None,
            r@.directory == directory@,
    {
        crate::one::OneEntryNamed::within_path_buf(self, directory.to_owned())
    }

    pub fn alias(&self, name: &str) -> (r: EntityAlias)
        ensures
            r@.name == self@.name,
            r@.entry_type == self@.entry_type,
            r@.alias == name@,
    {
        EntityAlias::new(self.0.clone(), name.to_owned())
    }
}

impl View for FileOrFolderNamed {
    type V = EntryNamedView;

    closed spec fn view(&self) -> EntryNamedView {
        self.0@
    }
}

impl Clone for FileOrFolderNamed {
    fn clone(&self) -> (r: Self)
        ensures
            r@ == self@,
    {
        FileOrFolderNamed(self.0.clone())
    }
}

impl crate::one::OneEntryNamed for FileOrFolderNamed {
    open spec fn desc(&self) -> crate::one::DescView {
        crate::one::DescView { name: self@.name, entry_type: self@.entry_type, alias: None }
    }

    fn within_path_buf(&self, directory: String) -> (r: OneEntry) {
        OneEntry::new(self.0.clone(), None, directory)
    }

    fn entry_name(&self) -> (r: &EntryName) {
        self.0.entry_name()
    }

    fn entry_type(&self) -> (r: &EntryType) {
        self.0.entry_type()
    }

    fn name_alias(&self) -> (r: Option<&str>) {
        None
    }
}

impl FileOrFolderNamed {
    pub fn exact(name: &str) -> (r: Self)
        ensures
            r@.name == EntryNameView::Exact(name@),
            r@.entry_type == EntryType::Any,
    {
        FileOrFolderNamed(EntryNamed::any(EntryName::Exact(name.to_owned())))
    }

    pub fn any(names: Vec<&str>) -> (r: Self)
        ensures
            r@.name == EntryNameView::Any(names.deep_view()),
            r@.entry_type == EntryType::Any,
    {
        FileOrFolderNamed(EntryNamed::any(EntryName::Any(to_strings(names))))
    }

    pub fn any_named(names: Vec<FileOrFolderNamed>) -> (r: Self)
        ensures
            r@.name == EntryNameView::AnyNamed(
                names@.map(|i: int, f: FileOrFolderNamed| f@.name),
            ),
            r@.entry_type == EntryType::Any,
    {
        let list = nested_names(&names);
        proof {
            assert(names@.map(|i: int, f: FileOrFolderNamed| f.desc().name) =~= names@.map(
                |i: int, f: FileOrFolderNamed| f@.name,
            ));
        }
        FileOrFolderNamed(EntryNamed::any(EntryName::AnyNamed(list)))
    }

    pub fn regex(pattern: &str) -> (r: Self)
        ensures
            r@.name == EntryNameView::Regex(pattern@),
            r@.entry_type == EntryType::Any,
    {
        FileOrFolderNamed(EntryNamed::any(EntryName::Regex(pattern.to_owned())))
    }

    pub fn wildmatch(pattern: &str) -> (r: Self)
        ensures
            r@.name == EntryNameView::Wildmatch(pattern@),
            r@.entry_type == EntryType::Any,
    {
        FileOrFolderNamed(EntryNamed::any(EntryName::Wildmatch(pattern.to_owned())))
    }

    pub fn within(&self, directory: &str) -> (r: OneEntry)
        ensures
            r@.name == self@.name,
            r@.entry_type == self@.entry_type,
            r@.alias is None,
            r@.directory == directory@,
    {
        crate::one::OneEntryNamed::within_path_buf(self, directory.to_owned())
    }

    pub fn alias(&self, name: &str) -> (r: EntityAlias)
        ensures
            r@.name == self@.name,
            r@.entry_type == self@.entry_type,
            r@.alias == name@,
    {
        EntityAlias::new(self.0.clone(), name.to_owned())
    }
}

impl View for FilesNamed {
    type V = EntryNamedView;

    closed spec fn view(&self) -> EntryNamedView {
        self.0@
    }
}

impl Clone for FilesNamed {
    fn clone(&self) -> (r: Self)
        ensures
            r@ == self@,
    {
        FilesNamed(self.0.clone())
    }
}

impl crate::many::ManyEntriesNamed for FilesNamed {
    open spec fn desc(&self) -> crate::one::DescView {
        crate::one::DescView { name: self@.name, entry_type: self@.entry_type, alias: None }
    }

    fn within_path_buf(&self, directory: String) -> (r: ManyEntries) {
        ManyEntries::new(self.0.clone(), directory)
    }

    fn entry_name(&self) -> (r: &EntryName) {
        self.0.entry_name()
    }

    fn entry_type(&self) -> (r: &EntryType) {
        self.0.entry_type()
    }

    fn name_alias(&self) -> (r: Option<&str>) {
        None
    }
}

impl FilesNamed {
    pub fn exact(name: &str) -> (r: Self)
        ensures
            r@.name == EntryNameView::Exact(name@),
            r@.entry_type == EntryType::File,
    {
        FilesNamed(EntryNamed::file(EntryName::Exact(name.to_owned())))
    }

    pub fn any(names: Vec<&str>) -> (r: Self)
        ensures
            r@.name == EntryNameView::Any(names.deep_view()),
            r@.entry_type == EntryType::File,
    {
        FilesNamed(EntryNamed::file(EntryName::Any(to_strings(names))))
    }

    pub fn regex(pattern: &str) -> (r: Self)
        ensures
            r@.name == EntryNameView::Regex(pattern@),
            r@.entry_type == EntryType::File,
    {
        FilesNamed(EntryNamed::file(EntryName::Regex(pattern.to_owned())))
    }

    pub fn wildmatch(pattern: &str) -> (r: Self)
        ensures
            r@.name == EntryNameView::Wildmatch(pattern@),
            r@.entry_type == EntryType::File,
    {
        FilesNamed(EntryNamed::file(EntryName::Wildmatch(pattern.to_owned())))
    }

    pub fn within(&self, directory: &str) -> (r: ManyEntries)
        ensures
            r@.name == self@.name,
            r@.entry_type == self@.entry_type,
            r@.directory == directory@,
    {
        crate::many::ManyEntriesNamed::within_path_buf(self, directory.to_owned())
    }
}

/// The name descriptions inside a row of `FileNamed`-like wrappers, cloned
/// into one nested-alternatives list.
fn nested_names<T: crate::one::OneEntryNamed>(names: &Vec<T>) -> (r: Vec<EntryName>)
    ensures
        names_view(r@) == names@.map(|i: int, f: T| f.desc().name),
{
    let mut out: Vec<EntryName> = Vec::new();
    let mut j: usize = 0;
    let ghost target = names@.map(|i: int, f: T| f.desc().name);
    proof {
        assert(names_view(out@) =~= target.take(0));
    }
    while j < names.len()
        invariant
            j <= names.len(),
            target == names@.map(|i: int, f: T| f.desc().name),
            names_view(out@) == target.take(j as int),
        decreases names.len() - j,
    {
        let c = names[j].entry_name().clone();
        let ghost out_old = out@;
        out.push(c);
        proof {
            assert(out@.drop_last() =~= out_old);
            assert(names_view(out@) == names_view(out_old).push(name_view(c)));
            assert(target.take(j + 1).drop_last() =~= target.take(j as int));
            assert(target.take(j + 1).last() == target[j as int]);
        }
        j = j + 1;
    }
    proof {
        assert(target.take(names@.len() as int) =~= target);
    }
    out
}

} // verus!
