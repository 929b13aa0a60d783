use vstd::prelude::*;
use vstd::string::StrSliceExecFns;

verus! {

/// A trailing '/' marks a directory path.
pub open spec fn spec_ends_with_slash(s: Seq<char>) -> bool {
    s.len() > 0 && s.last() == '/'
}

/// The root path.
pub open spec fn spec_root() -> Seq<char> {
    seq!['/']
}

/// The substring up to and including the last '/', or empty for a bare name.
pub open spec fn spec_parent(s: Seq<char>) -> Seq<char>
    decreases s.len(),
{
    if s.len() == 0 {
        s
    } else if s.last() == '/' {
        s
    } else {
        spec_parent(s.drop_last())
    }
}

/// Exact string prefix, not path-component-aware.
pub open spec fn spec_starts_with(s: Seq<char>, prefix: Seq<char>) -> bool {
    prefix.len() <= s.len() && s.subrange(0, prefix.len() as int) == prefix
}

pub fn ends_with_slash(s: &str) -> (b: bool)
    ensures
        b == spec_ends_with_slash(s@),
{
    let n = s.unicode_len();
    if n == 0 {
        false
    } else {
        s.get_char(n - 1) == '/'
    }
}

pub fn is_root(s: &str) -> (b: bool)
    ensures
        b == (s@ == spec_root()),
{
    let n = s.unicode_len();
    if n == 1 && s.get_char(0) == '/' {
        proof {
            assert(s@ =~= spec_root());
        }
        true
    } else {
        proof {
            if s@ == spec_root() {
                assert(s@.len() == 1);
                assert(s@[0] == '/');
            }
        }
        false
    }
}

pub fn str_starts_with(s: &str, prefix: &str) -> (b: bool)
    ensures
        b == spec_starts_with(s@, prefix@),
{
    let np = prefix.unicode_len();
    let ns = s.unicode_len();
    if np > ns {
        return false;
    }
    let mut i: usize = 0;
    while i < np
        invariant
            0 <= i <= np,
            np <= ns,
            np as nat == prefix@.len(),
            ns as nat == s@.len(),
            forall|j: int| 0 <= j < i ==> s@[j] == prefix@[j],
        decreases np - i,
    {
        if s.get_char(i) != prefix.get_char(i) {
            proof {
                assert(s@.subrange(0, np as int).len() == np);
                assert(s@.subrange(0, np as int)[i as int] == s@[i as int]);
            }
            return false;
        }
        i += 1;
    }
    proof {
        assert(s@.subrange(0, np as int) =~= prefix@);
    }
    true
}

pub fn str_eq(a: &str, b: &str) -> (r: bool)
    ensures
        r == (a@ == b@),
{
    let na = a.unicode_len();
    let nb = b.unicode_len();
    if na != nb {
        return false;
    }
    if str_starts_with(a, b) {
        proof {
            assert(a@.subrange(0, nb as int) =~= a@);
        }
        true
    } else {
        proof {
            if a@ == b@ {
                assert(a@.subrange(0, nb as int) =~= b@);
            }
        }
        false
    }
}

/// Returns the parent of `path`: everything up to and including the last '/',
/// or the empty string when the path is a bare name.
pub fn get_parent<'a>(path: &'a str) -> (p: &'a str)
    ensures
        p@ == spec_parent(path@),
{
    let n = path.unicode_len();
    let mut i: usize = n;
    proof {
        assert(path@.subrange(0, n as int) =~= path@);
    }
    while i > 0 && path.get_char(i - 1) != '/'
        invariant
            0 <= i <= n,
            n as nat == path@.len(),
            spec_parent(path@) == spec_parent(path@.subrange(0, i as int)),
        decreases i,
    {
        proof {
            let t = path@.subrange(0, i as int);
            assert(t.last() == path@[i - 1]);
            assert(t.drop_last() =~= path@.subrange(0, i - 1));
        }
        i -= 1;
    }
    if i == 0 {
        let e = "";
        proof {
            reveal_strlit("");
            assert(e@ =~= path@.subrange(0, 0));
        }
        e
    } else {
        let p = path.substring_char(0, i);
        proof {
            let t = path@.subrange(0, i as int);
            assert(t.last() == path@[i - 1]);
        }
        p
    }
}

} // verus!
