//! Path arithmetic on plain strings: joining a directory with a child name,
//! and taking the final name component of a path.

use vstd::prelude::*;
use vstd::string::StrSliceExecFns;

verus! {

/// The path of the child `name` of the directory `dir`: the two joined with
/// a single separator, or `name` alone when `dir` is empty.
pub open spec fn spec_join(dir: Seq<char>, name: Seq<char>) -> Seq<char> {
    if dir.len() == 0 {
        name
    } else if dir.last() == '/' {
        dir + name
    } else {
        dir + seq!['/'] + name
    }
}

/// The final name component of a path: everything after the last separator.
/// Empty when the path is empty or ends in a separator.
pub open spec fn spec_file_name(p: Seq<char>) -> Seq<char>
    decreases p.len(),
{
    if p.len() == 0 {
        Seq::empty()
    } else if p.last() == '/' {
        Seq::empty()
    } else {
        spec_file_name(p.drop_last()).push(p.last())
    }
}

pub fn join(dir: &str, name: &str) -> (r: String)
    ensures
        r@ == spec_join(dir@, name@),
{
    let len = dir.unicode_len();
    if len == 0 {
        name.to_owned()
    } else if dir.get_char(len - 1) == '/' {
        let mut r = dir.to_owned();
        r.append(name);
        r
    } else {
        let mut r = dir.to_owned();
        r.append("/");
        r.append(name);
        proof {
            reveal_strlit("/");
            assert("/"@ =~= seq!['/']);
            assert(r@ =~= dir@ + seq!['/'] + name@);
        }
        r
    }
}

/// The final name component of `path`, or `None` when it has none (an empty
/// path, or one ending in a separator).
pub fn file_name_of(path: &str) -> (r: Option<String>)
    ensures
        match r {
            Option::Some(s) => s@ == spec_file_name(path@) && spec_file_name(path@).len() > 0,
            Option::None => spec_file_name(path@).len() == 0,
        },
{
    let len = path.unicode_len();
    let mut i = len;
    proof {
        assert(path@.take(len as int) =~= path@);
        assert(spec_file_name(path@) + path@.skip(len as int) =~= spec_file_name(path@));
    }
    while i > 0 && path.get_char(i - 1) != '/'
        invariant
            i <= len,
            len == path@.len(),
            forall|j: int| i <= j < len ==> path@[j] != '/',
            spec_file_name(path@) == spec_file_name(path@.take(i as int)) + path@.skip(i as int),
        decreases i,
    {
        proof {
            let p = path@;
            let k = i - 1;
            assert(p.take(i as int).drop_last() =~= p.take(k));
            assert(p.take(i as int).last() == p[k]);
            if p[k] != '/' {
                assert(spec_file_name(p.take(i as int)) == spec_file_name(p.take(k)).push(p[k]));
                assert(spec_file_name(p.take(k)) + p.skip(k) =~= spec_file_name(p.take(k)).push(
                    p[k],
                ) + p.skip(i as int));
            }
        }
        i = i - 1;
    }
    proof {
        let p = path@;
        if i == 0 {
            assert(p.take(0) =~= Seq::<char>::empty());
            assert(spec_file_name(p.take(0)) + p.skip(0) =~= p);
        } else {
            assert(p.take(i as int).last() == p[i - 1]);
            assert(spec_file_name(p.take(i as int)) =~= Seq::<char>::empty());
            assert(Seq::<char>::empty() + p.skip(i as int) =~= p.skip(i as int));
        }
        assert(spec_file_name(p) == p.skip(i as int));
    }
    if i == len {
        proof {
            assert(path@.skip(len as int) =~= Seq::<char>::empty());
        }
        Option::None
    } else {
        let s = path.substring_char(i, len);
        proof {
            assert(path@.subrange(i as int, len as int) == path@.skip(i as int));
        }
        Option::Some(s.to_owned())
    }
}

} // verus!
