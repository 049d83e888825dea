//! Verified helpers on character sequences: suffix tests and the
//! before-the-first-dot prefix used to infer an executable name.

use vstd::prelude::*;
use vstd::string::*;

verus! {

/// `s` ends with `suffix`.
pub open spec fn ends_with(s: Seq<char>, suffix: Seq<char>) -> bool {
    s.len() >= suffix.len() && s.subrange(s.len() - suffix.len(), s.len() as int) == suffix
}

/// Index of the first `'.'` in `s`, or `s.len()` if there is none.
pub open spec fn first_dot(s: Seq<char>) -> int
    decreases s.len(),
{
    if s.len() == 0 {
        0
    } else if s[0] == '.' {
        0
    } else {
        1 + first_dot(s.subrange(1, s.len() as int))
    }
}

/// The portion of a file name before its first `'.'`; the whole name if it
/// has no dot.
pub open spec fn prefix_before_dot(s: Seq<char>) -> Seq<char> {
    s.subrange(0, first_dot(s))
}

/// `first_dot` is the unique cut: no dot before `k`, and a dot at `k` unless
/// `k` is the length.
pub proof fn lemma_first_dot_at(s: Seq<char>, k: int)
    requires
        0 <= k <= s.len(),
        forall|j: int| 0 <= j < k ==> s[j] != '.',
        k < s.len() ==> s[k] == '.',
    ensures
        first_dot(s) == k,
    decreases s.len(),
{
    if s.len() == 0 {
    } else if k == 0 {
    } else {
        let tail = s.subrange(1, s.len() as int);
        assert(s[0] != '.');
        assert forall|j: int| 0 <= j < k - 1 implies tail[j] != '.' by {
            assert(tail[j] == s[j + 1]);
        }
        assert(k - 1 < tail.len() ==> tail[k - 1] == s[k]);
        lemma_first_dot_at(tail, k - 1);
    }
}

/// Whether `s` ends with `suffix`, checked character by character.
pub fn str_ends_with(s: &str, suffix: &str) -> (r: bool)
    ensures
        r == ends_with(s@, suffix@),
{
    let n = s.unicode_len();
    let m = suffix.unicode_len();
    if m > n {
        return false;
    }
    let mut i: usize = 0;
    while i < m
        invariant
            i <= m <= n,
            n == s@.len(),
            m == suffix@.len(),
            forall|j: int| 0 <= j < i ==> s@[n - m + j] == suffix@[j],
        decreases m - i,
    {
        if s.get_char(n - m + i) != suffix.get_char(i) {
            proof {
                let sub = s@.subrange(n - m, n as int);
                assert(sub[i as int] == s@[n - m + i]);
            }
            return false;
        }
        i += 1;
    }
    proof {
        assert(s@.subrange(n - m, n as int) =~= suffix@);
    }
    true
}

/// `name` has a `..` path component beginning at index `i`.
pub open spec fn dotdot_at(name: Seq<char>, i: int) -> bool {
    &&& 0 <= i
    &&& i + 2 <= name.len()
    &&& name[i] == '.'
    &&& name[i + 1] == '.'
    &&& (i == 0 || name[i - 1] == '/')
    &&& (i + 2 == name.len() || name[i + 2] == '/')
}

/// `name` has a `..` path component somewhere.
pub open spec fn has_dotdot_component(name: Seq<char>) -> bool {
    exists|i: int| dotdot_at(name, i)
}

/// A relative name that cannot climb out of the directory it is joined to:
/// not absolute, and without a `..` component.
pub open spec fn is_confined_name(name: Seq<char>) -> bool {
    &&& name.len() > 0 ==> name[0] != '/'
    &&& !has_dotdot_component(name)
}

/// Whether `name` stays inside the directory it is joined to.
pub fn name_is_confined(name: &str) -> (r: bool)
    ensures
        r == is_confined_name(name@),
{
    let n = name.unicode_len();
    if n > 0 && name.get_char(0) == '/' {
        return false;
    }
    if n < 2 {
        proof {
            assert forall|j: int| !dotdot_at(name@, j) by {}
        }
        return true;
    }
    let mut i: usize = 0;
    while i <= n - 2
        invariant
            2 <= n,
            i <= n,
            n == name@.len(),
            forall|j: int| 0 <= j < i ==> !dotdot_at(name@, j),
        decreases n - i,
    {
        let starts_component = i == 0 || name.get_char(i - 1) == '/';
        let ends_component = i + 2 == n || name.get_char(i + 2) == '/';
        if name.get_char(i) == '.' && name.get_char(i + 1) == '.' && starts_component
            && ends_component {
            proof {
                assert(dotdot_at(name@, i as int));
            }
            return false;
        }
        proof {
            assert(!dotdot_at(name@, i as int));
        }
        i += 1;
    }
    proof {
        assert forall|j: int| !dotdot_at(name@, j) by {
            if 0 <= j && j + 2 <= name@.len() {
                assert(j < i);
            }
        }
    }
    true
}

/// The owned prefix of `name` before its first `'.'`.
pub fn prefix_before_dot_of(name: &str) -> (r: String)
    ensures
        r@ == prefix_before_dot(name@),
{
    let n = name.unicode_len();
    let mut i: usize = 0;
    while i < n
        invariant
            i <= n,
            n == name@.len(),
            forall|j: int| 0 <= j < i ==> name@[j] != '.',
        decreases n - i,
    {
        if name.get_char(i) == '.' {
            proof {
                lemma_first_dot_at(name@, i as int);
            }
            return name.substring_char(0, i).to_owned();
        }
        i += 1;
    }
    proof {
        lemma_first_dot_at(name@, n as int);
    }
    name.substring_char(0, n).to_owned()
}

} // verus!
