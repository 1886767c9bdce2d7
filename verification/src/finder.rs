//! The matching engine: evaluating a name description plus a type
//! constraint against a directory snapshot, yielding the ordered candidate
//! entries, and the cardinality rule that reduces candidates to a single
//! resolution outcome.

use vstd::prelude::*;

use crate::entry::{names_view, EntryName, EntryNameView, EntryType};
use crate::error::FileMatcherError;
use crate::matchers::{regex_check, regex_match, regex_matches, regex_valid, wild_match,
    wildcard_matches};
use crate::snapshot::{DirEntry, DirSnapshot, EntryKind};

verus! {

/// True when an entry of kind `k` satisfies the type constraint `t`.
/// Symlinks and special files satisfy no constraint, for any `t`: this is a
/// deliberate policy, not an oversight.
pub open spec fn kind_matches(t: EntryType, k: EntryKind) -> bool {
    match t {
        EntryType::File => k == EntryKind::File,
        EntryType::Folder => k == EntryKind::Folder,
        EntryType::Any => k == EntryKind::File || k == EntryKind::Folder,
    }
}

/// The views of a vector of directory entries.
pub open spec fn views_of(v: Seq<DirEntry>) -> Seq<(Seq<char>, EntryKind)> {
    v.map(|i: int, e: DirEntry| e@)
}

/// The first entry of `s` that bears the name `n` and satisfies `t`, if any.
pub open spec fn first_matching(
    s: Seq<(Seq<char>, EntryKind)>,
    t: EntryType,
    n: Seq<char>,
) -> Option<(Seq<char>, EntryKind)>
    decreases s.len(),
{
    if s.len() == 0 {
        None
    } else if s.first().0 == n && kind_matches(t, s.first().1) {
        Some(s.first())
    } else {
        first_matching(s.drop_first(), t, n)
    }
}

/// The candidates of a list of literal names: for each name, in input
/// order, the listing entry bearing it, if one of the right kind exists.
pub open spec fn literal_candidates(
    s: Seq<(Seq<char>, EntryKind)>,
    t: EntryType,
    names: Seq<Seq<char>>,
) -> Seq<(Seq<char>, EntryKind)>
    decreases names.len(),
{
    if names.len() == 0 {
        Seq::empty()
    } else {
        let rest = literal_candidates(s, t, names.drop_last());
        match first_matching(s, t, names.last()) {
            Some(e) => rest.push(e),
            None => rest,
        }
    }
}

/// The entries of the listing, in listing order, whose kind satisfies `t`
/// and whose name the regex `p` matches.
pub open spec fn regex_candidates(
    s: Seq<(Seq<char>, EntryKind)>,
    t: EntryType,
    p: Seq<char>,
) -> Seq<(Seq<char>, EntryKind)>
    decreases s.len(),
{
    if s.len() == 0 {
        Seq::empty()
    } else {
        let rest = regex_candidates(s.drop_last(), t, p);
        if kind_matches(t, s.last().1) && regex_match(p, s.last().0) {
            rest.push(s.last())
        } else {
            rest
        }
    }
}

/// The entries of the listing, in listing order, whose kind satisfies `t`
/// and whose name the wildcard `p` matches.
pub open spec fn wild_candidates(
    s: Seq<(Seq<char>, EntryKind)>,
    t: EntryType,
    p: Seq<char>,
) -> Seq<(Seq<char>, EntryKind)>
    decreases s.len(),
{
    if s.len() == 0 {
        Seq::empty()
    } else {
        let rest = wild_candidates(s.drop_last(), t, p);
        if kind_matches(t, s.last().1) && wild_match(p, s.last().0) {
            rest.push(s.last())
        } else {
            rest
        }
    }
}

/// Whether every regex pattern inside a name description compiles.
pub open spec fn name_valid(n: EntryNameView) -> bool
    decreases n,
{
    match n {
        EntryNameView::Exact(_) => true,
        EntryNameView::Any(_) => true,
        EntryNameView::AnyNamed(list) => all_names_valid(list),
        EntryNameView::Regex(p) => regex_valid(p),
        EntryNameView::Wildmatch(_) => true,
    }
}

pub open spec fn all_names_valid(list: Seq<EntryNameView>) -> bool
    decreases list,
{
    if list.len() == 0 {
        true
    } else {
        all_names_valid(list.drop_last()) && name_valid(list.last())
    }
}

/// The ordered candidate entries of a name description against a listing:
/// which entries the description denotes, before any cardinality rule.
pub open spec fn candidates(
    s: Seq<(Seq<char>, EntryKind)>,
    t: EntryType,
    n: EntryNameView,
) -> Seq<(Seq<char>, EntryKind)>
    decreases n,
{
    match n {
        EntryNameView::Exact(name) => match first_matching(s, t, name) {
            Some(e) => seq![e],
            None => Seq::empty(),
        },
        EntryNameView::Any(names) => literal_candidates(s, t, names),
        EntryNameView::AnyNamed(list) => list_candidates(s, t, list),
        EntryNameView::Regex(p) => regex_candidates(s, t, p),
        EntryNameView::Wildmatch(p) => wild_candidates(s, t, p),
    }
}

/// The concatenated candidates of a list of name descriptions, in
/// description order.
pub open spec fn list_candidates(
    s: Seq<(Seq<char>, EntryKind)>,
    t: EntryType,
    list: Seq<EntryNameView>,
) -> Seq<(Seq<char>, EntryKind)>
    decreases list,
{
    if list.len() == 0 {
        Seq::empty()
    } else {
        list_candidates(s, t, list.drop_last()) + candidates(s, t, list.last())
    }
}

/// The outcome of an "exactly one" query: a pattern that does not compile,
/// no candidate, exactly one candidate, or more than one.
pub enum Resolution {
    InvalidPattern,
    NotFound,
    Unique(Seq<char>, EntryKind),
    Ambiguous,
}

/// The cardinality rule: exactly one candidate resolves, zero or several
/// are typed failures.
pub open spec fn resolution(
    s: Seq<(Seq<char>, EntryKind)>,
    t: EntryType,
    n: EntryNameView,
) -> Resolution {
    if !name_valid(n) {
        Resolution::InvalidPattern
    } else {
        let c = candidates(s, t, n);
        if c.len() == 0 {
            Resolution::NotFound
        } else if c.len() == 1 {
            Resolution::Unique(c[0].0, c[0].1)
        } else {
            Resolution::Ambiguous
        }
    }
}

/// `names_view` maps `name_view` over the list, element by element.
pub proof fn lemma_names_view_index(ns: Seq<EntryName>)
    ensures
        names_view(ns).len() == ns.len(),
        forall|i: int|
            0 <= i < ns.len() ==> #[trigger] names_view(ns)[i] == crate::entry::name_view(ns[i]),
    decreases ns.len(),
{
    if ns.len() > 0 {
        lemma_names_view_index(ns.drop_last());
    }
}

/// A list of name descriptions is valid exactly when each of its members is.
pub proof fn lemma_all_names_valid_iff(list: Seq<EntryNameView>)
    ensures
        all_names_valid(list) <==> (forall|i: int|
            0 <= i < list.len() ==> name_valid(#[trigger] list[i])),
    decreases list.len(),
{
    if list.len() > 0 {
        let prefix = list.drop_last();
        lemma_all_names_valid_iff(prefix);
        assert(list.last() == list[list.len() - 1]);
        if all_names_valid(list) {
            assert forall|i: int| 0 <= i < list.len() implies name_valid(#[trigger] list[i]) by {
                if i < list.len() - 1 {
                    assert(list[i] == prefix[i]);
                }
            }
        }
        if forall|i: int| 0 <= i < list.len() ==> name_valid(#[trigger] list[i]) {
            assert forall|i: int| 0 <= i < prefix.len() implies name_valid(
                #[trigger] prefix[i],
            ) by {
                assert(prefix[i] == list[i]);
            }
        }
    }
}

proof fn lemma_first_matching_properties(s: Seq<(Seq<char>, EntryKind)>, t: EntryType, n: Seq<char>)
    ensures
        match first_matching(s, t, n) {
            Some(e) => e.0 == n && kind_matches(t, e.1) && exists|i: int|
                0 <= i < s.len() && s[i] == e,
            None => forall|i: int|
                0 <= i < s.len() ==> !((#[trigger] s[i]).0 == n && kind_matches(t, s[i].1)),
        },
    decreases s.len(),
{
    if s.len() > 0 {
        if !(s.first().0 == n && kind_matches(t, s.first().1)) {
            lemma_first_matching_properties(s.drop_first(), t, n);
            match first_matching(s.drop_first(), t, n) {
                Some(e) => {
                    let i = choose|i: int|
                        0 <= i < s.drop_first().len() && s.drop_first()[i] == e;
                    assert(s[i + 1] == e);
                },
                None => {
                    assert forall|i: int|
                        0 <= i < s.len() implies !((#[trigger] s[i]).0 == n && kind_matches(
                        t,
                        s[i].1,
                    )) by {
                        if i > 0 {
                            assert(s.drop_first()[i - 1] == s[i]);
                        }
                    }
                },
            }
        }
    }
}

/// Every candidate is an entry of the listing whose kind satisfies the type
/// constraint. In particular a symlink, which satisfies no constraint, is
/// never a candidate, whatever the description.
pub proof fn lemma_candidates_are_matching_entries(
    s: Seq<(Seq<char>, EntryKind)>,
    t: EntryType,
    n: EntryNameView,
)
    ensures
        forall|j: int|
            0 <= j < candidates(s, t, n).len() ==> {
                let c = #[trigger] candidates(s, t, n)[j];
                &&& kind_matches(t, c.1)
                &&& c.1 != EntryKind::Symlink
                &&& exists|i: int| 0 <= i < s.len() && s[i] == c
            },
    decreases n,
{
    let whole = candidates(s, t, n);
    match n {
        EntryNameView::Exact(name) => {
            lemma_first_matching_properties(s, t, name);
            assert forall|j: int|
                0 <= j < whole.len() implies (kind_matches(t, (#[trigger] whole[j]).1) && exists|
                i: int,
            | 0 <= i < s.len() && s[i] == whole[j]) by {
                match first_matching(s, t, name) {
                    Some(e) => {
                        assert(whole == seq![e]);
                        assert(whole[j] == e);
                    },
                    None => {
                        assert(whole.len() == 0);
                    },
                }
            }
        },
        EntryNameView::Any(names) => {
            lemma_literal_candidates_entries(s, t, names);
            assert forall|j: int|
                0 <= j < whole.len() implies (kind_matches(t, (#[trigger] whole[j]).1) && exists|
                i: int,
            | 0 <= i < s.len() && s[i] == whole[j]) by {
                assert(whole[j] == literal_candidates(s, t, names)[j]);
            }
        },
        EntryNameView::AnyNamed(list) => {
            lemma_list_candidates_entries(s, t, list);
            assert forall|j: int|
                0 <= j < whole.len() implies (kind_matches(t, (#[trigger] whole[j]).1) && exists|
                i: int,
            | 0 <= i < s.len() && s[i] == whole[j]) by {
                assert(whole[j] == list_candidates(s, t, list)[j]);
            }
        },
        EntryNameView::Regex(p) => {
            lemma_regex_candidates_entries(s, t, p);
            assert forall|j: int|
                0 <= j < whole.len() implies (kind_matches(t, (#[trigger] whole[j]).1) && exists|
                i: int,
            | 0 <= i < s.len() && s[i] == whole[j]) by {
                assert(whole[j] == regex_candidates(s, t, p)[j]);
            }
        },
        EntryNameView::Wildmatch(p) => {
            lemma_wild_candidates_entries(s, t, p);
            assert forall|j: int|
                0 <= j < whole.len() implies (kind_matches(t, (#[trigger] whole[j]).1) && exists|
                i: int,
            | 0 <= i < s.len() && s[i] == whole[j]) by {
                assert(whole[j] == wild_candidates(s, t, p)[j]);
            }
        },
    }
}

proof fn lemma_literal_candidates_entries(
    s: Seq<(Seq<char>, EntryKind)>,
    t: EntryType,
    names: Seq<Seq<char>>,
)
    ensures
        forall|j: int|
            0 <= j < literal_candidates(s, t, names).len() ==> {
                let c = #[trigger] literal_candidates(s, t, names)[j];
                &&& kind_matches(t, c.1)
                &&& exists|i: int| 0 <= i < s.len() && s[i] == c
            },
    decreases names.len(),
{
    if names.len() > 0 {
        lemma_literal_candidates_entries(s, t, names.drop_last());
        lemma_first_matching_properties(s, t, names.last());
        let rest = literal_candidates(s, t, names.drop_last());
        let whole = literal_candidates(s, t, names);
        assert forall|j: int|
            0 <= j < whole.len() implies (kind_matches(t, (#[trigger] whole[j]).1) && exists|i: int|
            0 <= i < s.len() && s[i] == whole[j]) by {
            match first_matching(s, t, names.last()) {
                Some(e) => {
                    assert(whole == rest.push(e));
                    if j < rest.len() {
                        assert(whole[j] == rest[j]);
                    } else {
                        assert(whole[j] == e);
                    }
                },
                None => {
                    assert(whole == rest);
                    assert(whole[j] == rest[j]);
                },
            }
        }
    }
}

proof fn lemma_regex_candidates_entries(s: Seq<(Seq<char>, EntryKind)>, t: EntryType, p: Seq<char>)
    ensures
        forall|j: int|
            0 <= j < regex_candidates(s, t, p).len() ==> {
                let c = #[trigger] regex_candidates(s, t, p)[j];
                &&& kind_matches(t, c.1)
                &&& exists|i: int| 0 <= i < s.len() && s[i] == c
            },
    decreases s.len(),
{
    if s.len() > 0 {
        let prefix = s.drop_last();
        lemma_regex_candidates_entries(prefix, t, p);
        let rest = regex_candidates(prefix, t, p);
        let whole = regex_candidates(s, t, p);
        assert(s[s.len() - 1] == s.last());
        assert forall|j: int|
            0 <= j < whole.len() implies (kind_matches(t, (#[trigger] whole[j]).1) && exists|i: int|
            0 <= i < s.len() && s[i] == whole[j]) by {
            if kind_matches(t, s.last().1) && regex_match(p, s.last().0) {
                assert(whole == rest.push(s.last()));
                if j < rest.len() {
                    assert(whole[j] == rest[j]);
                    let i = choose|i: int| 0 <= i < prefix.len() && prefix[i] == rest[j];
                    assert(prefix[i] == s[i]);
                    assert(s[i] == whole[j]);
                } else {
                    assert(whole[j] == s.last());
                }
            } else {
                assert(whole == rest);
                assert(whole[j] == rest[j]);
                let i = choose|i: int| 0 <= i < prefix.len() && prefix[i] == rest[j];
                assert(prefix[i] == s[i]);
                assert(s[i] == whole[j]);
            }
        }
    }
}

proof fn lemma_wild_candidates_entries(s: Seq<(Seq<char>, EntryKind)>, t: EntryType, p: Seq<char>)
    ensures
        forall|j: int|
            0 <= j < wild_candidates(s, t, p).len() ==> {
                let c = #[trigger] wild_candidates(s, t, p)[j];
                &&& kind_matches(t, c.1)
                &&& exists|i: int| 0 <= i < s.len() && s[i] == c
            },
    decreases s.len(),
{
    if s.len() > 0 {
        let prefix = s.drop_last();
        lemma_wild_candidates_entries(prefix, t, p);
        let rest = wild_candidates(prefix, t, p);
        let whole = wild_candidates(s, t, p);
        assert(s[s.len() - 1] == s.last());
        assert forall|j: int|
            0 <= j < whole.len() implies (kind_matches(t, (#[trigger] whole[j]).1) && exists|i: int|
            0 <= i < s.len() && s[i] == whole[j]) by {
            if kind_matches(t, s.last().1) && wild_match(p, s.last().0) {
                assert(whole == rest.push(s.last()));
                if j < rest.len() {
                    assert(whole[j] == rest[j]);
                    let i = choose|i: int| 0 <= i < prefix.len() && prefix[i] == rest[j];
                    assert(prefix[i] == s[i]);
                    assert(s[i] == whole[j]);
                } else {
                    assert(whole[j] == s.last());
                }
            } else {
                assert(whole == rest);
                assert(whole[j] == rest[j]);
                let i = choose|i: int| 0 <= i < prefix.len() && prefix[i] == rest[j];
                assert(prefix[i] == s[i]);
                assert(s[i] == whole[j]);
            }
        }
    }
}

proof fn lemma_list_candidates_entries(
    s: Seq<(Seq<char>, EntryKind)>,
    t: EntryType,
    list: Seq<EntryNameView>,
)
    ensures
        forall|j: int|
            0 <= j < list_candidates(s, t, list).len() ==> {
                let c = #[trigger] list_candidates(s, t, list)[j];
                &&& kind_matches(t, c.1)
                &&& exists|i: int| 0 <= i < s.len() && s[i] == c
            },
    decreases list,
{
    if list.len() > 0 {
        lemma_list_candidates_entries(s, t, list.drop_last());
        lemma_candidates_are_matching_entries(s, t, list.last());
        let rest = list_candidates(s, t, list.drop_last());
        let tail = candidates(s, t, list.last());
        let whole = list_candidates(s, t, list);
        assert(whole == rest + tail);
        assert forall|j: int|
            0 <= j < whole.len() implies (kind_matches(t, (#[trigger] whole[j]).1) && whole[j].1
            != EntryKind::Symlink && exists|i: int| 0 <= i < s.len() && s[i] == whole[j]) by {
            if j < rest.len() {
                assert(whole[j] == rest[j]);
            } else {
                assert(whole[j] == tail[j - rest.len()]);
            }
        }
    }
}

/// For an exact name `n`: when an entry named `n` of a compatible kind
/// stands in the listing, the description resolves uniquely to it; when
/// none does, resolution reports that nothing was found.
pub proof fn lemma_exact_resolution(s: Seq<(Seq<char>, EntryKind)>, t: EntryType, n: Seq<char>)
    ensures
        (exists|i: int| 0 <= i < s.len() && (#[trigger] s[i]).0 == n && kind_matches(t, s[i].1))
            ==> (resolution(s, t, EntryNameView::Exact(n)) matches Resolution::Unique(m, k) && m
            == n && kind_matches(t, k)),
        !(exists|i: int| 0 <= i < s.len() && (#[trigger] s[i]).0 == n && kind_matches(t, s[i].1))
            ==> resolution(s, t, EntryNameView::Exact(n)) == Resolution::NotFound,
{
    lemma_first_matching_properties(s, t, n);
}

/// The cardinality rule itself: one candidate resolves to that candidate,
/// none or several are the two typed failures.
pub proof fn lemma_cardinality(s: Seq<(Seq<char>, EntryKind)>, t: EntryType, n: EntryNameView)
    requires
        name_valid(n),
    ensures
        candidates(s, t, n).len() == 0 ==> resolution(s, t, n) == Resolution::NotFound,
        candidates(s, t, n).len() == 1 ==> resolution(s, t, n) == Resolution::Unique(
            candidates(s, t, n)[0].0,
            candidates(s, t, n)[0].1,
        ),
        candidates(s, t, n).len() >= 2 ==> resolution(s, t, n) == Resolution::Ambiguous,
{
}

/// True when an entry of kind `kind` is acceptable for `entry_type`: a
/// readable file, a readable folder, or either. Symlinks and special files
/// are acceptable for no entry type.
pub fn is_readable_entry(entry_type: &EntryType, kind: EntryKind) -> (r: bool)
    ensures
        r == kind_matches(*entry_type, kind),
{
    match entry_type {
        EntryType::File => kind == EntryKind::File,
        EntryType::Folder => kind == EntryKind::Folder,
        EntryType::Any => kind == EntryKind::File || kind == EntryKind::Folder,
    }
}

/// The index of the first listing entry bearing `name` with an acceptable
/// kind, if any.
fn find_first_matching(listing: &DirSnapshot, entry_type: &EntryType, name: &String) -> (r: Option<
    usize,
>)
    ensures
        match r {
            Some(i) => i < listing@.len() && first_matching(listing@, *entry_type, name@) == Some(
                listing@[i as int],
            ),
            None => first_matching(listing@, *entry_type, name@) is None,
        },
{
    let n = listing.len();
    let mut i: usize = 0;
    proof {
        assert(listing@.skip(0) =~= listing@);
    }
    while i < n
        invariant
            i <= n,
            n == listing@.len(),
            first_matching(listing@, *entry_type, name@) == first_matching(
                listing@.skip(i as int),
                *entry_type,
                name@,
            ),
        decreases n - i,
    {
        let e = listing.entry_at(i);
        proof {
            assert(listing@.skip(i as int).first() == listing@[i as int]);
            assert(listing@.skip(i as int).drop_first() =~= listing@.skip(i + 1));
        }
        if e.name().eq(name) && is_readable_entry(entry_type, e.kind()) {
            return Some(i);
        }
        i = i + 1;
    }
    proof {
        assert(listing@.skip(n as int) =~= Seq::<(Seq<char>, EntryKind)>::empty());
    }
    None
}

/// The entries an exact name denotes: the first listing entry bearing it
/// with an acceptable kind, if any.
fn exact_scan(listing: &DirSnapshot, entry_type: &EntryType, name: &String) -> (r: Vec<DirEntry>)
    ensures
        views_of(r@) == candidates(listing@, *entry_type, EntryNameView::Exact(name@)),
{
    match find_first_matching(listing, entry_type, name) {
        Some(i) => {
            let mut out: Vec<DirEntry> = Vec::new();
            out.push(listing.entry_at(i).clone());
            proof {
                assert(views_of(out@) =~= seq![listing@[i as int]]);
            }
            out
        },
        None => {
            let out: Vec<DirEntry> = Vec::new();
            proof {
                assert(views_of(out@) =~= Seq::<(Seq<char>, EntryKind)>::empty());
            }
            out
        },
    }
}

/// The entries a list of literal names denotes, in input order.
fn literal_scan(listing: &DirSnapshot, entry_type: &EntryType, names: &Vec<String>) -> (r: Vec<
    DirEntry,
>)
    ensures
        views_of(r@) == literal_candidates(listing@, *entry_type, names.deep_view()),
{
    let mut out: Vec<DirEntry> = Vec::new();
    let mut j: usize = 0;
    proof {
        assert(names.deep_view().take(0) =~= Seq::<Seq<char>>::empty());
        assert(views_of(out@) =~= Seq::<(Seq<char>, EntryKind)>::empty());
    }
    while j < names.len()
        invariant
            j <= names.len(),
            views_of(out@) == literal_candidates(
                listing@,
                *entry_type,
                names.deep_view().take(j as int),
            ),
        decreases names.len() - j,
    {
        let ghost out_old = out@;
        match find_first_matching(listing, entry_type, &names[j]) {
            Some(i) => {
                out.push(listing.entry_at(i).clone());
                proof {
                    assert(views_of(out@) =~= views_of(out_old).push(listing@[i as int]));
                }
            },
            None => {},
        }
        proof {
            let nv = names.deep_view();
            assert(nv.take(j + 1).drop_last() =~= nv.take(j as int));
            assert(nv.take(j + 1).last() == nv[j as int]);
            assert(names[j as int]@ == nv[j as int]);
        }
        j = j + 1;
    }
    proof {
        assert(names.deep_view().take(names@.len() as int) =~= names.deep_view());
    }
    out
}

/// Evaluate a name description plus a type constraint against a snapshot:
/// the ordered candidate entries, or the pattern error when a regex inside
/// the description does not compile.
#[verifier::loop_isolation(false)]
pub fn find_candidates(listing: &DirSnapshot, entry_type: &EntryType, entry_name: &EntryName) -> (r:
    Result<Vec<DirEntry>, FileMatcherError>)
    ensures
        r is Ok <==> name_valid(entry_name@),
        r matches Ok(v) ==> views_of(v@) == candidates(listing@, *entry_type, entry_name@),
        r matches Err(e) ==> e is RegexError,
    decreases entry_name,
{
    match entry_name {
        EntryName::Exact(name) => Ok(exact_scan(listing, entry_type, name)),
        EntryName::Any(names) => Ok(literal_scan(listing, entry_type, names)),
        EntryName::AnyNamed(list) => {
            let mut out: Vec<DirEntry> = Vec::new();
            let mut j: usize = 0;
            proof {
                assert(list@.take(0) =~= Seq::<EntryName>::empty());
                assert(views_of(out@) =~= Seq::<(Seq<char>, EntryKind)>::empty());
            }
            while j < list.len()
                invariant
                    j <= list.len(),
                    views_of(out@) == list_candidates(
                        listing@,
                        *entry_type,
                        names_view(list@.take(j as int)),
                    ),
                    all_names_valid(names_view(list@.take(j as int))),
                decreases list.len() - j,
            {
                let mut sub = match find_candidates(listing, entry_type, &list[j]) {
                    Ok(v) => v,
                    Err(e) => {
                        proof {
                            lemma_names_view_index(list@);
                            lemma_all_names_valid_iff(names_view(list@));
                            assert(names_view(list@)[j as int] == list@[j as int]@);
                        }
                        return Err(e);
                    },
                };
                let ghost out_old = out@;
                let ghost sub_v = sub@;
                out.append(&mut sub);
                proof {
                    assert(views_of(out@) =~= views_of(out_old) + views_of(sub_v));
                    let x = names_view(list@.take(j as int));
                    let c = list@[j as int]@;
                    assert(list@.take(j + 1).drop_last() =~= list@.take(j as int));
                    assert(list@.take(j + 1).last() == list@[j as int]);
                    assert(names_view(list@.take(j + 1)) == x.push(c));
                    assert(x.push(c).drop_last() =~= x);
                    assert(x.push(c).last() == c);
                }
                j = j + 1;
            }
            proof {
                assert(list@.take(list@.len() as int) =~= list@);
            }
            Ok(out)
        },
        EntryName::Regex(pattern) => {
            match regex_check(pattern.as_str()) {
                Err(e) => Err(FileMatcherError::RegexError(e)),
                Ok(_) => Ok(regex_scan(listing, entry_type, pattern)),
            }
        },
        EntryName::Wildmatch(pattern) => Ok(wild_scan(listing, entry_type, pattern)),
    }
}

/// The listing entries whose kind is acceptable and whose name the regex
/// matches, in listing order.
fn regex_scan(listing: &DirSnapshot, entry_type: &EntryType, pattern: &String) -> (r: Vec<DirEntry>)
    requires
        regex_valid(pattern@),
    ensures
        views_of(r@) == regex_candidates(listing@, *entry_type, pattern@),
{
    let mut out: Vec<DirEntry> = Vec::new();
    let n = listing.len();
    let mut i: usize = 0;
    proof {
        assert(listing@.take(0) =~= Seq::<(Seq<char>, EntryKind)>::empty());
        assert(views_of(out@) =~= Seq::<(Seq<char>, EntryKind)>::empty());
    }
    while i < n
        invariant
            i <= n,
            n == listing@.len(),
            regex_valid(pattern@),
            views_of(out@) == regex_candidates(listing@.take(i as int), *entry_type, pattern@),
        decreases n - i,
    {
        let e = listing.entry_at(i);
        let ghost out_old = out@;
        if is_readable_entry(entry_type, e.kind()) && regex_matches(
            pattern.as_str(),
            e.name().as_str(),
        ) {
            out.push(e.clone());
            proof {
                assert(views_of(out@) =~= views_of(out_old).push(listing@[i as int]));
            }
        }
        proof {
            assert(listing@.take(i + 1).drop_last() =~= listing@.take(i as int));
            assert(listing@.take(i + 1).last() == listing@[i as int]);
        }
        i = i + 1;
    }
    proof {
        assert(listing@.take(n as int) =~= listing@);
    }
    out
}

/// The listing entries whose kind is acceptable and whose name the wildcard
/// matches, in listing order.
fn wild_scan(listing: &DirSnapshot, entry_type: &EntryType, pattern: &String) -> (r: Vec<DirEntry>)
    ensures
        views_of(r@) == wild_candidates(listing@, *entry_type, pattern@),
{
    let mut out: Vec<DirEntry> = Vec::new();
    let n = listing.len();
    let mut i: usize = 0;
    proof {
        assert(listing@.take(0) =~= Seq::<(Seq<char>, EntryKind)>::empty());
        assert(views_of(out@) =~= Seq::<(Seq<char>, EntryKind)>::empty());
    }
    while i < n
        invariant
            i <= n,
            n == listing@.len(),
            views_of(out@) == wild_candidates(listing@.take(i as int), *entry_type, pattern@),
        decreases n - i,
    {
        let e = listing.entry_at(i);
        let ghost out_old = out@;
        if is_readable_entry(entry_type, e.kind()) && wildcard_matches(
            pattern.as_str(),
            e.name().as_str(),
        ) {
            out.push(e.clone());
            proof {
                assert(views_of(out@) =~= views_of(out_old).push(listing@[i as int]));
            }
        }
        proof {
            assert(listing@.take(i + 1).drop_last() =~= listing@.take(i as int));
            assert(listing@.take(i + 1).last() == listing@[i as int]);
        }
        i = i + 1;
    }
    proof {
        assert(listing@.take(n as int) =~= listing@);
    }
    out
}

} // verus!
