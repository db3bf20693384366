//! File-name extraction from package paths: the test context carries
//! the bare file names of the resolved packages, not their full paths.

use vstd::prelude::*;

verus! {

/// The part of a path after its last separator. A path ending in a
/// separator has no file name, spelled here as the empty sequence.
pub open spec fn basename_of(s: Seq<char>) -> Seq<char>
    decreases s.len(),
{
    if s.len() == 0 {
        Seq::<char>::empty()
    } else if s[s.len() - 1] == '/' {
        Seq::<char>::empty()
    } else {
        basename_of(s.drop_last()).push(s[s.len() - 1])
    }
}

/// When no separator occurs at or after position `j`, the file name is
/// exactly the suffix starting at `j`.
proof fn lemma_basename_suffix(s: Seq<char>, j: int)
    requires
        0 <= j <= s.len(),
        forall|k: int| j <= k < s.len() ==> s[k] != '/',
        j == 0 || s[j - 1] == '/',
    ensures
        basename_of(s) == s.subrange(j, s.len() as int),
    decreases s.len() - j,
{
    if j == s.len() {
        if s.len() == 0 {
        } else {
            assert(s[s.len() - 1] == '/');
        }
        assert(s.subrange(j, s.len() as int) =~= Seq::<char>::empty());
    } else {
        let t = s.drop_last();
        assert(s[s.len() - 1] != '/');
        assert(forall|k: int| j <= k < t.len() ==> t[k] == s[k]);
        lemma_basename_suffix(t, j);
        assert(basename_of(s) == t.subrange(j, t.len() as int).push(s[s.len() - 1]));
        assert(t.subrange(j, t.len() as int).push(s[s.len() - 1]) =~= s.subrange(
            j,
            s.len() as int,
        ));
    }
}

/// The file name of a path: everything after the last `/`, or the
/// whole path when it has none.
pub fn file_name(path: &String) -> (r: String)
    ensures
        r@ == basename_of(path@),
{
    let s = path.as_str();
    let n = s.unicode_len();
    let mut j: usize = n;
    while j > 0
        invariant
            s@ == path@,
            n == s@.len(),
            0 <= j <= n,
            forall|k: int| j <= k < n ==> s@[k] != '/',
        decreases j,
    {
        if s.get_char(j - 1) == '/' {
            proof {
                lemma_basename_suffix(s@, j as int);
            }
            let tail = s.substring_char(j, n);
            return String::from_str(tail);
        }
        j -= 1;
    }
    proof {
        lemma_basename_suffix(s@, 0);
        assert(s@.subrange(0, n as int) =~= s@);
    }
    String::from_str(s.substring_char(0, n))
}

} // verus!
