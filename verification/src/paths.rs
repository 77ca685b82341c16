//! Path strings: joining an entry name onto the destination root, and the
//! parent of a joined path.  A path here is a plain string; joining follows
//! the host's semantics (an absolute name replaces the root, any other is
//! appended after a separator), and the parent is everything before the
//! last separator.  No normalization or traversal check is performed.

use vstd::prelude::*;

verus! {

/// The path under which an archive entry is written, following the host's
/// join semantics: an absolute entry name replaces the destination root
/// entirely (inherited behaviour, deliberately left unsanitized); any other
/// name is appended to the root after a separator.  A root that already
/// ends in a separator yields a doubled separator, which names the same
/// node on the host.
pub open spec fn join_spec(dest: Seq<char>, name: Seq<char>) -> Seq<char> {
    if name.len() > 0 && name[0] == '/' {
        name
    } else {
        dest + seq!['/'] + name
    }
}

/// Joins an entry name onto the destination root.
pub fn join_path(dest: &str, name: &str) -> (r: String)
    ensures
        r@ == join_spec(dest@, name@),
{
    proof {
        reveal_strlit("/");
        assert("/"@ =~= seq!['/']);
    }
    let n: usize = name.unicode_len();
    if n > 0 && name.get_char(0) == '/' {
        return String::from_str(name);
    }
    let mut s = String::from_str(dest);
    s.append("/");
    s.append(name);
    proof {
        assert(s@ =~= join_spec(dest@, name@));
    }
    s
}

/// The index of the last separator in `s`, or `-1` if there is none.
pub open spec fn last_slash(s: Seq<char>) -> int
    decreases s.len(),
{
    if s.len() == 0 {
        -1
    } else if s[s.len() - 1] == '/' {
        s.len() - 1
    } else {
        last_slash(s.drop_last())
    }
}

/// Everything before the last separator; empty if there is no separator.
pub open spec fn parent_spec(s: Seq<char>) -> Seq<char> {
    if last_slash(s) >= 0 {
        s.subrange(0, last_slash(s))
    } else {
        Seq::empty()
    }
}

/// `last_slash` is in range, points at a separator, and nothing after it
/// is a separator.
pub proof fn lemma_last_slash_props(s: Seq<char>)
    ensures
        -1 <= last_slash(s) < s.len(),
        last_slash(s) >= 0 ==> s[last_slash(s)] == '/',
        forall|k: int| last_slash(s) < k < s.len() ==> s[k] != '/',
    decreases s.len(),
{
    if s.len() == 0 {
    } else if s[s.len() - 1] == '/' {
    } else {
        lemma_last_slash_props(s.drop_last());
        assert forall|k: int| last_slash(s) < k < s.len() implies s[k] != '/' by {
            if k < s.len() - 1 {
                assert(s.drop_last()[k] == s[k]);
            }
        }
    }
}

/// A separator with none after it is the last one.
pub proof fn lemma_last_slash_at(s: Seq<char>, j: int)
    requires
        0 <= j < s.len(),
        s[j] == '/',
        forall|k: int| j < k < s.len() ==> s[k] != '/',
    ensures
        last_slash(s) == j,
{
    lemma_last_slash_props(s);
}

/// Without any separator, `last_slash` reports none.
pub proof fn lemma_last_slash_none(s: Seq<char>)
    requires
        forall|k: int| 0 <= k < s.len() ==> s[k] != '/',
    ensures
        last_slash(s) == -1,
{
    lemma_last_slash_props(s);
}

/// The parent of a non-empty path is strictly shorter.
pub proof fn lemma_parent_shorter(s: Seq<char>)
    requires
        s.len() > 0,
    ensures
        parent_spec(s).len() < s.len(),
{
    lemma_last_slash_props(s);
}

/// The parent of `p`: everything before its last separator, or the empty
/// string when `p` holds no separator.
pub fn parent_path(p: &str) -> (r: String)
    ensures
        r@ == parent_spec(p@),
{
    let n: usize = p.unicode_len();
    let mut i: usize = n;
    while i > 0
        invariant
            i <= n,
            n == p@.len(),
            forall|k: int| i <= k < n ==> p@[k] != '/',
        decreases i,
    {
        if p.get_char(i - 1) == '/' {
            proof {
                lemma_last_slash_at(p@, i - 1);
            }
            return String::from_str(p.substring_char(0, i - 1));
        }
        i = i - 1;
    }
    proof {
        lemma_last_slash_none(p@);
    }
    String::new()
}

} // verus!
