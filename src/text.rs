use vstd::prelude::*;
use vstd::string::StrSliceExecFns;

verus! {

/// `p` occurs in `s` starting at character `k`.
pub open spec fn occurs_at(s: Seq<char>, p: Seq<char>, k: int) -> bool {
    0 <= k && k + p.len() <= s.len() && s.subrange(k, k + p.len()) == p
}

/// `s` starts with `p`.
pub open spec fn has_prefix(s: Seq<char>, p: Seq<char>) -> bool {
    occurs_at(s, p, 0)
}

/// `p` occurs somewhere in `s`.
pub open spec fn has_infix(s: Seq<char>, p: Seq<char>) -> bool {
    exists|k: int| occurs_at(s, p, k)
}

/// A condition on a window's text.
pub enum TextMatch {
    StartsWith(String),
    Contains(String),
}

impl TextMatch {
    pub open spec fn spec_accepts(&self, text: Seq<char>) -> bool {
        match self {
            TextMatch::StartsWith(p) => has_prefix(text, p@),
            TextMatch::Contains(p) => has_infix(text, p@),
        }
    }

    /// Whether `text` meets this condition.
    pub fn accepts(&self, text: &str) -> (r: bool)
        ensures
            r == self.spec_accepts(text@),
    {
        match self {
            TextMatch::StartsWith(p) => matches_at(text, p.as_str(), 0),
            TextMatch::Contains(p) => contains(text, p.as_str()),
        }
    }
}

/// Whether `p` occurs in `s` starting at character `k`.
pub fn matches_at(s: &str, p: &str, k: usize) -> (r: bool)
    ensures
        r == occurs_at(s@, p@, k as int),
{
    let n = s.unicode_len();
    let m = p.unicode_len();
    if m > n || k > n - m {
        return false;
    }
    let mut i: usize = 0;
    while i < m
        invariant
            n == s@.len(),
            m == p@.len(),
            k + m <= n,
            i <= m,
            forall|j: int| 0 <= j < i ==> s@[k + j] == p@[j],
        decreases m - i,
    {
        if s.get_char(k + i) != p.get_char(i) {
            assert(s@.subrange(k as int, k + m)[i as int] != p@[i as int]);
            return false;
        }
        i = i + 1;
    }
    assert(s@.subrange(k as int, k + m) =~= p@);
    true
}

/// Whether `p` occurs anywhere in `s`.
pub fn contains(s: &str, p: &str) -> (r: bool)
    ensures
        r == has_infix(s@, p@),
{
    let n = s.unicode_len();
    let m = p.unicode_len();
    if m > n {
        return false;
    }
    if m == 0 {
        assert(s@.subrange(0, 0) =~= p@);
        assert(occurs_at(s@, p@, 0));
        return true;
    }
    let mut k: usize = 0;
    while k <= n - m
        invariant
            n == s@.len(),
            m == p@.len(),
            1 <= m <= n,
            k <= n - m + 1,
            forall|j: int| 0 <= j < k ==> !occurs_at(s@, p@, j),
        decreases n - m + 1 - k,
    {
        if matches_at(s, p, k) {
            return true;
        }
        k = k + 1;
    }
    false
}

} // verus!
