//! The alias overlay: wraps a named description and substitutes the logical
//! name used when a copy or move computes its destination. It never changes
//! which physical entry is matched.

use vstd::prelude::*;

use crate::entry::{EntryName, EntryNamed, EntryNameView, EntryType};
use crate::one::{DescView, OneEntry, OneEntryNamed};

verus! {

/// Spec-level mirror of [`EntityAlias`].
pub struct EntityAliasView {
    pub name: EntryNameView,
    pub entry_type: EntryType,
    pub alias: Seq<char>,
}

/// A named description together with the logical name it presents in place
/// of the matched physical name.
#[derive(Debug)]
pub struct EntityAlias {
    entity: EntryNamed,
    alias: String,
}

impl View for EntityAlias {
    type V = EntityAliasView;

    closed spec fn view(&self) -> EntityAliasView {
        EntityAliasView {
            name: self.entity@.name,
            entry_type: self.entity@.entry_type,
            alias: self.alias@,
        }
    }
}

impl Clone for EntityAlias {
    fn clone(&self) -> (r: Self)
        ensures
            r@ == self@,
    {
        EntityAlias { entity: self.entity.clone(), alias: self.alias.clone() }
    }
}

impl EntityAlias {
    pub fn new(entity: EntryNamed, alias: String) -> (r: Self)
        ensures
            r@.name == entity@.name,
            r@.entry_type == entity@.entry_type,
            r@.alias == alias@,
    {
        EntityAlias { entity, alias }
    }

    pub fn within(&self, directory: &str) -> (r: OneEntry)
        ensures
            r@.name == self@.name,
            r@.entry_type == self@.entry_type,
            r@.alias == Some(self@.alias),
            r@.directory == directory@,
    {
        self.within_path_buf(directory.to_owned())
    }
}

impl OneEntryNamed for EntityAlias {
    open spec fn desc(&self) -> DescView {
        DescView { name: self@.name, entry_type: self@.entry_type, alias: Some(self@.alias) }
    }

    fn within_path_buf(&self, directory: String) -> (r: OneEntry)
    {
        OneEntry::new(self.entity.clone(), Some(self.alias.clone()), directory)
    }

    fn entry_name(&self) -> (r: &EntryName)
    {
        self.entity.entry_name()
    }

    fn entry_type(&self) -> (r: &EntryType)
    {
        self.entity.entry_type()
    }

    fn name_alias(&self) -> (r: Option<&str>)
    {
        Some(self.alias.as_str())
    }
}

} // verus!
