//! Small verified string helpers: equality, substring search, path joining.

use vstd::prelude::*;

verus! {

/// Character-wise string equality.
pub fn str_eq(a: &str, b: &str) -> (r: bool)
    ensures
        r == (a@ == b@),
{
    let alen = a.unicode_len();
    let blen = b.unicode_len();
    if alen != blen {
        return false;
    }
    let mut i: usize = 0;
    while i < alen
        invariant
            0 <= i <= alen,
            alen == a@.len(),
            alen == b@.len(),
            forall|j: int| 0 <= j < i ==> a@[j] == b@[j],
        decreases alen - i,
    {
        if a.get_char(i) != b.get_char(i) {
            return false;
        }
        i = i + 1;
    }
    proof {
        assert(a@ =~= b@);
    }
    true
}

/// `needle` occurs in `hay` starting at position `i`.
pub open spec fn occurs_at(hay: Seq<char>, needle: Seq<char>, i: int) -> bool {
    0 <= i && i + needle.len() <= hay.len() && hay.subrange(i, i + needle.len()) == needle
}

/// `needle` occurs somewhere in `hay`.
pub open spec fn contains_seq(hay: Seq<char>, needle: Seq<char>) -> bool {
    exists|i: int| occurs_at(hay, needle, i)
}

/// Substring search.
pub fn str_contains(hay: &str, needle: &str) -> (r: bool)
    ensures
        r == contains_seq(hay@, needle@),
{
    let hlen = hay.unicode_len();
    let nlen = needle.unicode_len();
    if nlen > hlen {
        proof {
            assert(forall|i: int| !occurs_at(hay@, needle@, i));
        }
        return false;
    }
    let mut start: usize = 0;
    while start <= hlen - nlen
        invariant
            0 <= start <= hlen - nlen + 1,
            nlen <= hlen,
            hlen == hay@.len(),
            nlen == needle@.len(),
            forall|i: int| 0 <= i < start ==> !occurs_at(hay@, needle@, i),
        decreases hlen + 1 - nlen - start,
    {
        let mut k: usize = 0;
        let mut matches = true;
        while k < nlen
            invariant
                0 <= k <= nlen,
                0 <= start <= hlen - nlen,
                hlen == hay@.len(),
                nlen == needle@.len(),
                matches == (forall|j: int|
                    0 <= j < k ==> hay@[start + j] == needle@[j]),
            decreases nlen - k,
        {
            if hay.get_char(start + k) != needle.get_char(k) {
                matches = false;
                k = nlen;
            } else {
                k = k + 1;
            }
        }
        if matches {
            proof {
                assert(hay@.subrange(start as int, start + nlen) =~= needle@);
                assert(occurs_at(hay@, needle@, start as int));
            }
            return true;
        }
        proof {
            if occurs_at(hay@, needle@, start as int) {
                assert(exists|j: int| 0 <= j < nlen && hay@[start + j] != needle@[j]);
                let j = choose|j: int| 0 <= j < nlen && hay@[start + j] != needle@[j];
                assert(hay@.subrange(start as int, start + nlen)[j] == needle@[j]);
                assert(false);
            }
        }
        start = start + 1;
    }
    proof {
        assert forall|i: int| !occurs_at(hay@, needle@, i) by {
            if occurs_at(hay@, needle@, i) {
                assert(0 <= i < start);
            }
        }
    }
    false
}

/// Join a directory and a file name with a single separator.
pub fn path_join(dir: &str, name: &str) -> (r: String)
    ensures
        r@ == dir@ + "/"@ + name@,
{
    proof {
        reveal_strlit("/");
    }
    let mut r = String::from_str(dir);
    r.append("/");
    r.append(name);
    r
}

} // verus!
