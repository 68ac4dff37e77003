//! Path text: joining a root with a relative path, and splitting off the
//! directory part of a path.  Paths are plain strings whose components are
//! separated by `/`.

use vstd::prelude::*;
use vstd::string::*;

verus! {

/// `base` and `rel` joined with a single separator: `rel` alone when `base`
/// is empty, and no separator added when `base` already ends with one.
pub open spec fn spec_join(base: Seq<char>, rel: Seq<char>) -> Seq<char> {
    if base.len() == 0 {
        rel
    } else if base.last() == '/' {
        base + rel
    } else {
        base + seq!['/'] + rel
    }
}

/// A joined path keeps the base as its prefix: everything resolved against
/// a root stays textually under that root.
pub proof fn lemma_join_keeps_base(base: Seq<char>, rel: Seq<char>)
    ensures
        spec_join(base, rel).take(base.len() as int) == base,
{
    if base.len() == 0 {
        assert(spec_join(base, rel).take(0) =~= base);
    } else if base.last() == '/' {
        assert((base + rel).take(base.len() as int) =~= base);
    } else {
        assert((base + seq!['/'] + rel).take(base.len() as int) =~= base);
    }
}

/// The index of the last separator in `p`, or `-1` when `p` holds none.
pub open spec fn last_sep(p: Seq<char>) -> int
    decreases p.len(),
{
    if p.len() == 0 {
        -1
    } else if p.last() == '/' {
        p.len() - 1
    } else {
        last_sep(p.drop_last())
    }
}

/// The directory part of `p`: everything before the last separator, or the
/// empty text when `p` holds no separator.
pub open spec fn spec_parent(p: Seq<char>) -> Seq<char> {
    if last_sep(p) < 0 {
        Seq::empty()
    } else {
        p.take(last_sep(p))
    }
}

/// `last_sep` points at the last separator: it is one itself when it exists,
/// and nothing after it is one.
pub proof fn lemma_last_sep(p: Seq<char>)
    ensures
        -1 <= last_sep(p) < p.len(),
        last_sep(p) >= 0 ==> p[last_sep(p)] == '/',
        forall|j: int| last_sep(p) < j < p.len() ==> p[j] != '/',
    decreases p.len(),
{
    if p.len() == 0 {
    } else if p.last() == '/' {
    } else {
        lemma_last_sep(p.drop_last());
        assert forall|j: int| last_sep(p) < j < p.len() implies p[j] != '/' by {
            if j < p.len() - 1 {
                assert(p.drop_last()[j] == p[j]);
            }
        }
    }
}

/// Whether two path strings hold the same text.
pub fn str_eq(a: &str, b: &str) -> (r: bool)
    ensures
        r == (a@ == b@),
{
    let alen = a.unicode_len();
    let blen = b.unicode_len();
    if alen != blen {
        return false;
    }
    let mut i: usize = 0;
    while i < alen
        invariant
            i <= alen,
            alen as nat == a@.len(),
            blen as nat == b@.len(),
            alen == blen,
            forall|j: int| 0 <= j < i ==> a@[j] == b@[j],
        decreases alen - i,
    {
        if a.get_char(i) != b.get_char(i) {
            return false;
        }
        i += 1;
    }
    proof {
        assert(a@ =~= b@);
    }
    true
}

/// `base` and `rel` joined as `spec_join` says.
pub fn join_paths(base: &str, rel: &str) -> (r: String)
    ensures
        r@ == spec_join(base@, rel@),
{
    let n = base.unicode_len();
    if n == 0 {
        return rel.to_owned();
    }
    let mut s = base.to_owned();
    if base.get_char(n - 1) != '/' {
        s.append("/");
        proof {
            reveal_strlit("/");
            assert(s@ =~= base@ + seq!['/']);
        }
    }
    s.append(rel);
    proof {
        assert(s@ =~= spec_join(base@, rel@));
    }
    s
}

/// The directory part of `p`, as `spec_parent` says.
pub fn parent_dir(p: &str) -> (r: String)
    ensures
        r@ == spec_parent(p@),
{
    let n = p.unicode_len();
    let mut i: usize = n;
    while i > 0
        invariant
            i <= n,
            n as nat == p@.len(),
            forall|j: int| i <= j < n ==> p@[j] != '/',
        decreases i,
    {
        if p.get_char(i - 1) == '/' {
            proof {
                lemma_last_sep(p@);
            }
            let d = p.substring_char(0, i - 1);
            proof {
                assert(d@ =~= spec_parent(p@));
            }
            return d.to_owned();
        }
        i -= 1;
    }
    proof {
        lemma_last_sep(p@);
    }
    String::new()
}

} // verus!
