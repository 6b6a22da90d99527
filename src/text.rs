//! Small text operations on paths and names.
use vstd::prelude::*;

verus! {

/// `s` with every ':' turned into '-'.
pub open spec fn colons_to_dashes(s: Seq<char>) -> Seq<char> {
    Seq::new(s.len(), |i: int| if s[i] == ':' { '-' } else { s[i] })
}

pub fn replace_colons(s: &str) -> (r: String)
    ensures
        r@ == colons_to_dashes(s@),
{
    let n = s.unicode_len();
    let mut r = String::new();
    let mut i: usize = 0;
    while i < n
        invariant
            n == s@.len(),
            i <= n,
            r@ == colons_to_dashes(s@.subrange(0, i as int)),
        decreases n - i,
    {
        let c = s.get_char(i);
        let ghost before = r@;
        if c == ':' {
            r.append("-");
            proof {
                reveal_strlit("-");
            }
            assert("-"@ =~= seq!['-']);
        } else {
            let one = s.substring_char(i, i + 1);
            assert(one@ =~= seq![c]);
            r.append(one);
        }
        assert(r@ =~= before.push(colons_to_dashes(s@)[i as int]));
        assert(colons_to_dashes(s@.subrange(0, i + 1)) =~= colons_to_dashes(
            s@.subrange(0, i as int),
        ).push(colons_to_dashes(s@)[i as int]));
        i = i + 1;
    }
    assert(s@.subrange(0, n as int) =~= s@);
    r
}

/// `dir` is the directory part of `path`: what stands before its last '/',
/// or nothing where it has none.
pub open spec fn is_parent_of(dir: Seq<char>, path: Seq<char>) -> bool {
    ||| exists|k: int|
        0 <= k < path.len() && path[k] == '/' && (forall|j: int| k < j < path.len() ==> path[j]
            != '/') && dir == path.subrange(0, k)
    ||| (forall|j: int| 0 <= j < path.len() ==> path[j] != '/') && dir.len() == 0
}

pub fn parent_dir(path: &str) -> (r: String)
    ensures
        is_parent_of(r@, path@),
{
    let n = path.unicode_len();
    let mut i: usize = n;
    while i > 0
        invariant
            n == path@.len(),
            i <= n,
            forall|j: int| i <= j < n ==> path@[j] != '/',
        decreases i,
    {
        if path.get_char(i - 1) == '/' {
            let d = path.substring_char(0, i - 1);
            let r = String::from_str(d);
            assert(is_parent_of(r@, path@)) by {
                let k = i - 1;
                assert(0 <= k < path@.len() && path@[k as int] == '/');
            }
            return r;
        }
        i = i - 1;
    }
    String::new()
}

} // verus!
