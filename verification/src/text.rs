use vstd::prelude::*;

verus! {

/// Character-by-character equality of two strings.
pub fn str_equals(a: &str, b: &str) -> (r: bool)
    ensures
        r == (a@ == b@),
{
    let n = a.unicode_len();
    if n != b.unicode_len() {
        return false;
    }
    let mut i: usize = 0;
    while i < n
        invariant
            n == a@.len(),
            n == b@.len(),
            i <= n,
            forall|j: int| 0 <= j < i ==> a@[j] == b@[j],
        decreases n - i,
    {
        if a.get_char(i) != b.get_char(i) {
            return false;
        }
        i = i + 1;
    }
    assert(a@ =~= b@);
    true
}

} // verus!

verus! {

/// Whether `needle` occurs as a contiguous part of `hay`.
pub open spec fn seq_contains_run(hay: Seq<char>, needle: Seq<char>) -> bool {
    exists|i: int| 0 <= i && i + needle.len() <= hay.len() && #[trigger] hay.subrange(i, i + needle.len()) == needle
}

/// The characters of `s` as a vector.
pub fn chars_of(s: &str) -> (v: Vec<char>)
    ensures
        v@ == s@,
{
    let n = s.unicode_len();
    let mut v: Vec<char> = Vec::new();
    let mut i: usize = 0;
    while i < n
        invariant
            n == s@.len(),
            i <= n,
            v@ == s@.subrange(0, i as int),
        decreases n - i,
    {
        v.push(s.get_char(i));
        i = i + 1;
        assert(v@ =~= s@.subrange(0, i as int));
    }
    assert(s@.subrange(0, n as int) =~= s@);
    v
}

/// Whether `needle` occurs in `hay` (as `str::contains` with a string
/// pattern).
pub fn str_contains(hay: &str, needle: &str) -> (r: bool)
    ensures
        r == seq_contains_run(hay@, needle@),
{
    let h = chars_of(hay);
    let p = chars_of(needle);
    let hn = h.len();
    let pn = p.len();
    if pn > hn {
        assert forall|i: int| 0 <= i && i + pn <= hn implies #[trigger] hay@.subrange(i, i + pn) != needle@ by {}
        return false;
    }
    let mut i: usize = 0;
    while i <= hn - pn
        invariant
            h@ == hay@,
            p@ == needle@,
            hn == h@.len(),
            pn == p@.len(),
            pn <= hn,
            i <= hn - pn + 1,
            forall|k: int| 0 <= k < i ==> #[trigger] hay@.subrange(k, k + pn) != needle@,
        decreases hn - pn + 1 - i,
    {
        let mut j: usize = 0;
        let mut same = true;
        while j < pn
            invariant
                h@ == hay@,
                p@ == needle@,
                hn == h@.len(),
                pn == p@.len(),
                i + pn <= hn,
                j <= pn,
                same == (forall|m: int| 0 <= m < j ==> h@[i + m] == p@[m]),
            decreases pn - j,
        {
            if h[i + j] != p[j] {
                same = false;
            }
            j = j + 1;
        }
        if same {
            assert(hay@.subrange(i as int, i + pn) =~= needle@);
            return true;
        }
        assert(hay@.subrange(i as int, i + pn) != needle@) by {
            let m = choose|m: int| 0 <= m < pn && h@[i + m] != p@[m];
            assert(hay@.subrange(i as int, i + pn)[m] == h@[i + m]);
        }
        i = i + 1;
    }
    false
}

} // verus!
