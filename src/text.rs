use vstd::prelude::*;

verus! {

/// `pat` occurs in `s` starting at index `i`.
pub open spec fn occurs_at(s: Seq<char>, pat: Seq<char>, i: int) -> bool {
    0 <= i && i + pat.len() <= s.len() && s.subrange(i, i + pat.len()) == pat
}

/// `s` begins with `pat`.
pub open spec fn has_prefix(s: Seq<char>, pat: Seq<char>) -> bool {
    occurs_at(s, pat, 0)
}

/// `pat` occurs somewhere in `s`.
pub open spec fn has_infix(s: Seq<char>, pat: Seq<char>) -> bool {
    exists|i: int| occurs_at(s, pat, i)
}

/// What is left of `s` once every leading copy of `pat` is removed.
pub open spec fn trim_leading(s: Seq<char>, pat: Seq<char>) -> Seq<char>
    decreases s.len(),
{
    if pat.len() > 0 && has_prefix(s, pat) {
        trim_leading(s.subrange(pat.len() as int, s.len() as int), pat)
    } else {
        s
    }
}

proof fn lemma_occurs_in_suffix(s: Seq<char>, pat: Seq<char>, start: int)
    requires
        0 <= start <= s.len(),
    ensures
        occurs_at(s, pat, start) == has_prefix(s.subrange(start, s.len() as int), pat),
{
    let t = s.subrange(start, s.len() as int);
    if start + pat.len() <= s.len() {
        assert(t.subrange(0, pat.len() as int) =~= s.subrange(start, start + pat.len()));
    }
}

/// Whether `pat` occurs in `s` starting at index `i`.
pub fn occurs_at_index(s: &str, pat: &str, i: usize) -> (r: bool)
    ensures
        r == occurs_at(s@, pat@, i as int),
{
    let n = s.unicode_len();
    let m = pat.unicode_len();
    if i > n || m > n - i {
        return false;
    }
    let mut k: usize = 0;
    while k < m
        invariant
            n == s@.len(),
            m == pat@.len(),
            i + m <= n,
            k <= m,
            forall|j: int| 0 <= j < k ==> s@[i + j] == pat@[j],
        decreases m - k,
    {
        if s.get_char(i + k) != pat.get_char(k) {
            assert(s@.subrange(i as int, i + m)[k as int] != pat@[k as int]);
            return false;
        }
        k = k + 1;
    }
    assert(s@.subrange(i as int, i + m) =~= pat@);
    true
}

/// Whether `pat` occurs anywhere in `s`.
pub fn contains_text(s: &str, pat: &str) -> (r: bool)
    ensures
        r == has_infix(s@, pat@),
{
    let n = s.unicode_len();
    let m = pat.unicode_len();
    if m > n {
        return false;
    }
    let mut i: usize = 0;
    loop
        invariant
            n == s@.len(),
            m == pat@.len(),
            m <= n,
            i <= n - m,
            forall|j: int| 0 <= j < i ==> !occurs_at(s@, pat@, j),
        decreases n - m - i,
    {
        if occurs_at_index(s, pat, i) {
            return true;
        }
        if i == n - m {
            assert forall|j: int| !occurs_at(s@, pat@, j) by {
                if 0 <= j && j < i {
                }
            }
            return false;
        }
        i = i + 1;
    }
}

/// The index at which `s` continues once every leading copy of `pat` is skipped.
pub fn trimmed_start(s: &str, pat: &str) -> (r: usize)
    ensures
        r <= s@.len(),
        s@.subrange(r as int, s@.len() as int) == trim_leading(s@, pat@),
{
    let n = s.unicode_len();
    let m = pat.unicode_len();
    let mut start: usize = 0;
    assert(s@.subrange(0, n as int) =~= s@);
    if m == 0 {
        return 0;
    }
    while occurs_at_index(s, pat, start)
        invariant
            n == s@.len(),
            m == pat@.len(),
            m > 0,
            start <= n,
            trim_leading(s@.subrange(start as int, n as int), pat@) == trim_leading(s@, pat@),
        decreases n - start,
    {
        proof {
            lemma_occurs_in_suffix(s@, pat@, start as int);
            let t = s@.subrange(start as int, n as int);
            assert(t.subrange(m as int, t.len() as int) =~= s@.subrange(start + m, n as int));
        }
        start = start + m;
    }
    proof {
        lemma_occurs_in_suffix(s@, pat@, start as int);
    }
    start
}

} // verus!
