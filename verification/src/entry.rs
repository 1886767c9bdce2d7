//! The vocabulary for describing which entries a query is after: a name
//! description (exact, alternatives, nested alternatives, or a pattern) and
//! a type constraint (file, folder, or either).

use vstd::prelude::*;

verus! {

/// Spec-level mirror of [`EntryName`], with every string as a `Seq<char>`.
pub enum EntryNameView {
    Exact(Seq<char>),
    Any(Seq<Seq<char>>),
    AnyNamed(Seq<EntryNameView>),
    Regex(Seq<char>),
    Wildmatch(Seq<char>),
}

/// Represents an entry name that can be of different types
#[derive(Debug, PartialEq, Eq)]
pub enum EntryName {
    Exact(String),
    Any(Vec<String>),
    AnyNamed(Vec<EntryName>),
    Regex(String),
    Wildmatch(String),
}

pub open spec fn name_view(n: EntryName) -> EntryNameView
    decreases n,
{
    match n {
        EntryName::Exact(s) => EntryNameView::Exact(s@),
        EntryName::Any(v) => EntryNameView::Any(v.deep_view()),
        EntryName::AnyNamed(v) => EntryNameView::AnyNamed(names_view(v@)),
        EntryName::Regex(s) => EntryNameView::Regex(s@),
        EntryName::Wildmatch(s) => EntryNameView::Wildmatch(s@),
    }
}

pub open spec fn names_view(ns: Seq<EntryName>) -> Seq<EntryNameView>
    decreases ns,
{
    if ns.len() == 0 {
        Seq::empty()
    } else {
        names_view(ns.drop_last()).push(name_view(ns.last()))
    }
}

impl View for EntryName {
    type V = EntryNameView;

    open spec fn view(&self) -> EntryNameView {
        name_view(*self)
    }
}

/// Represents a type of the entry such as file, folder or both
#[derive(Clone, Copy, Debug, PartialEq, Eq, Structural)]
pub enum EntryType {
    File,
    Folder,
    Any,
}

impl Clone for EntryName {
    #[verifier::loop_isolation(false)]
    fn clone(&self) -> (r: Self)
        ensures
            r@ == self@,
        decreases self,
    {
        match self {
            EntryName::Exact(s) => EntryName::Exact(s.clone()),
            EntryName::Regex(s) => EntryName::Regex(s.clone()),
            EntryName::Wildmatch(s) => EntryName::Wildmatch(s.clone()),
            EntryName::Any(v) => {
                let w = v.clone();
                proof {
                    assert(w@ =~= v@);
                    assert(w.deep_view() =~= v.deep_view());
                }
                EntryName::Any(w)
            },
            EntryName::AnyNamed(v) => {
                let mut out: Vec<EntryName> = Vec::new();
                let mut j: usize = 0;
                proof {
                    assert(v@.take(0) =~= Seq::<EntryName>::empty());
                }
                while j < v.len()
                    invariant
                        j <= v.len(),
                        out@.len() == j,
                        names_view(out@) == names_view(v@.take(j as int)),
                    decreases v.len() - j,
                {
                    let c = v[j].clone();
                    let ghost out_old = out@;
                    out.push(c);
                    proof {
                        assert(out@.drop_last() =~= out_old);
                        assert(names_view(out@) == names_view(out_old).push(name_view(c)));
                        assert(v@.take(j + 1).drop_last() =~= v@.take(j as int));
                        assert(v@.take(j + 1).last() == v@[j as int]);
                        assert(names_view(v@.take(j + 1)) == names_view(v@.take(j as int)).push(
                            name_view(v@[j as int]),
                        ));
                    }
                    j = j + 1;
                }
                proof {
                    assert(v@.take(v@.len() as int) =~= v@);
                }
                EntryName::AnyNamed(out)
            },
        }
    }
}

/// Spec-level mirror of [`EntryNamed`].
pub struct EntryNamedView {
    pub name: EntryNameView,
    pub entry_type: EntryType,
}

/// Represents a named entry of some type (file/folder/both)
#[derive(Debug)]
pub struct EntryNamed {
    entry_name: EntryName,
    entry_type: EntryType,
}

impl View for EntryNamed {
    type V = EntryNamedView;

    closed spec fn view(&self) -> EntryNamedView {
        EntryNamedView { name: self.entry_name@, entry_type: self.entry_type }
    }
}

impl Clone for EntryNamed {
    fn clone(&self) -> (r: Self)
        ensures
            r@ == self@,
    {
        EntryNamed { entry_name: self.entry_name.clone(), entry_type: self.entry_type }
    }
}

impl EntryNamed {
    pub fn new(entry_name: EntryName, entry_type: EntryType) -> (r: Self)
        ensures
            r@ == (EntryNamedView { name: entry_name@, entry_type }),
    {
        EntryNamed { entry_name, entry_type }
    }

    pub fn file(name: EntryName) -> (r: Self)
        ensures
            r@ == (EntryNamedView { name: name@, entry_type: EntryType::File }),
    {
        Self::new(name, EntryType::File)
    }

    pub fn folder(name: EntryName) -> (r: Self)
        ensures
            r@ == (EntryNamedView { name: name@, entry_type: EntryType::Folder }),
    {
        Self::new(name, EntryType::Folder)
    }

    pub fn any(name: EntryName) -> (r: Self)
        ensures
            r@ == (EntryNamedView { name: name@, entry_type: EntryType::Any }),
    {
        Self::new(name, EntryType::Any)
    }

    pub fn entry_name(&self) -> (r: &EntryName)
        ensures
            r@ == self@.name,
    {
        &self.entry_name
    }

    pub fn entry_type(&self) -> (r: &EntryType)
        ensures
            *r == self@.entry_type,
    {
        &self.entry_type
    }
}

/// The wording of a type constraint in a diagnostic message.
pub open spec fn spec_type_text(t: EntryType) -> Seq<char> {
    match t {
        EntryType::File => "file"@,
        EntryType::Folder => "folder"@,
        EntryType::Any => "file or folder"@,
    }
}

/// The wording of a name description in a diagnostic message: the literal
/// names themselves, alternatives bracketed and comma-separated, patterns
/// with the pattern kind in front.
pub open spec fn spec_name_text(n: EntryNameView) -> Seq<char>
    decreases n,
{
    match n {
        EntryNameView::Exact(s) => s,
        EntryNameView::Any(names) => "one of ["@ + spec_list_text(names) + "]"@,
        EntryNameView::AnyNamed(list) => "one of ["@ + spec_named_list_text(list) + "]"@,
        EntryNameView::Regex(p) => "regex "@ + p,
        EntryNameView::Wildmatch(p) => "wildcard "@ + p,
    }
}

pub open spec fn spec_list_text(names: Seq<Seq<char>>) -> Seq<char>
    decreases names.len(),
{
    if names.len() == 0 {
        Seq::empty()
    } else if names.len() == 1 {
        names[0]
    } else {
        spec_list_text(names.drop_last()) + ", "@ + names.last()
    }
}

pub open spec fn spec_named_list_text(list: Seq<EntryNameView>) -> Seq<char>
    decreases list,
{
    if list.len() == 0 {
        Seq::empty()
    } else if list.len() == 1 {
        spec_name_text(list[0])
    } else {
        spec_named_list_text(list.drop_last()) + ", "@ + spec_name_text(list.last())
    }
}

pub fn type_text(t: &EntryType) -> (r: String)
    ensures
        r@ == spec_type_text(*t),
{
    match t {
        EntryType::File => "file".to_owned(),
        EntryType::Folder => "folder".to_owned(),
        EntryType::Any => "file or folder".to_owned(),
    }
}

#[verifier::loop_isolation(false)]
pub fn name_text(n: &EntryName) -> (r: String)
    ensures
        r@ == spec_name_text(n@),
    decreases n,
{
    match n {
        EntryName::Exact(s) => s.clone(),
        EntryName::Regex(p) => {
            let mut r = "regex ".to_owned();
            r.append(p.as_str());
            r
        },
        EntryName::Wildmatch(p) => {
            let mut r = "wildcard ".to_owned();
            r.append(p.as_str());
            r
        },
        EntryName::Any(names) => {
            let mut r = "one of [".to_owned();
            let mut j: usize = 0;
            while j < names.len()
                invariant
                    j <= names.len(),
                    r@ == "one of ["@ + spec_list_text(names.deep_view().take(j as int)),
                decreases names.len() - j,
            {
                if j > 0 {
                    r.append(", ");
                }
                r.append(names[j].as_str());
                proof {
                    let nv = names.deep_view();
                    assert(nv.take(j + 1).drop_last() =~= nv.take(j as int));
                    assert(nv.take(j + 1).last() == nv[j as int]);
                    assert(names[j as int]@ == nv[j as int]);
                    if j == 0 {
                        assert(r@ =~= "one of ["@ + spec_list_text(nv.take(1)));
                    } else {
                        assert(r@ =~= "one of ["@ + (spec_list_text(nv.take(j as int)) + ", "@
                            + nv[j as int]));
                    }
                }
                j = j + 1;
            }
            proof {
                assert(names.deep_view().take(names@.len() as int) =~= names.deep_view());
            }
            r.append("]");
            r
        },
        EntryName::AnyNamed(list) => {
            let mut r = "one of [".to_owned();
            let mut j: usize = 0;
            while j < list.len()
                invariant
                    j <= list.len(),
                    r@ == "one of ["@ + spec_named_list_text(names_view(list@.take(j as int))),
                decreases list.len() - j,
            {
                if j > 0 {
                    r.append(", ");
                }
                let part = name_text(&list[j]);
                r.append(part.as_str());
                proof {
                    let x = names_view(list@.take(j as int));
                    let c = list@[j as int]@;
                    assert(list@.take(j + 1).drop_last() =~= list@.take(j as int));
                    assert(list@.take(j + 1).last() == list@[j as int]);
                    assert(names_view(list@.take(j + 1)) == x.push(c));
                    assert(x.push(c).drop_last() =~= x);
                    assert(x.push(c).last() == c);
                    crate::finder::lemma_names_view_index(list@.take(j as int));
                    if j == 0 {
                        assert(x.push(c).len() == 1);
                        assert(spec_named_list_text(x.push(c)) == spec_name_text(x.push(c)[0]));
                        assert(x.push(c)[0] == c);
                        assert(r@ =~= "one of ["@ + spec_named_list_text(x.push(c)));
                    } else {
                        assert(x.push(c).len() >= 2);
                        assert(r@ =~= "one of ["@ + (spec_named_list_text(x) + ", "@
                            + spec_name_text(c)));
                    }
                }
                j = j + 1;
            }
            proof {
                assert(list@.take(list@.len() as int) =~= list@);
            }
            r.append("]");
            r
        },
    }
}

} // verus!
