//! Substring and suffix tests over character sequences, the string reasoning
//! that asset selection and the PATH update are specified with.

use vstd::prelude::*;
use vstd::string::StrSliceExecFns;

verus! {

/// `needle` occurs in `hay` starting at position `i`.
pub open spec fn matches_at(hay: Seq<char>, needle: Seq<char>, i: int) -> bool {
    0 <= i && i + needle.len() <= hay.len() && hay.subrange(i, i + needle.len()) == needle
}

/// `needle` occurs somewhere in `hay`.
pub open spec fn contains_seq(hay: Seq<char>, needle: Seq<char>) -> bool {
    exists|i: int| matches_at(hay, needle, i)
}

/// `hay` ends with `suffix`.
pub open spec fn ends_with_seq(hay: Seq<char>, suffix: Seq<char>) -> bool {
    suffix.len() <= hay.len() && hay.subrange(hay.len() - suffix.len(), hay.len() as int)
        == suffix
}

/// Character-by-character comparison of `needle` against `hay` at offset `i`.
fn match_at(hay: &str, needle: &str, i: usize) -> (r: bool)
    requires
        i + needle@.len() <= hay@.len(),
    ensures
        r == matches_at(hay@, needle@, i as int),
{
    let hlen = hay.unicode_len();
    let nlen = needle.unicode_len();
    let mut j: usize = 0;
    while j < nlen
        invariant
            hlen == hay@.len(),
            nlen == needle@.len(),
            j <= nlen,
            i + nlen <= hlen,
            forall|k: int| 0 <= k < j ==> hay@[i + k] == needle@[k],
        decreases nlen - j,
    {
        if hay.get_char(i + j) != needle.get_char(j) {
            proof {
                assert(!matches_at(hay@, needle@, i as int)) by {
                    if hay@.subrange(i as int, i + needle@.len()) == needle@ {
                        assert(hay@.subrange(i as int, i + needle@.len())[j as int]
                            == needle@[j as int]);
                    }
                }
            }
            return false;
        }
        j += 1;
    }
    proof {
        assert(hay@.subrange(i as int, i + needle@.len()) =~= needle@);
    }
    true
}

/// Substring test: true exactly when `needle` occurs somewhere in `hay`.
pub fn str_contains(hay: &str, needle: &str) -> (r: bool)
    ensures
        r == contains_seq(hay@, needle@),
{
    let hlen = hay.unicode_len();
    let nlen = needle.unicode_len();
    if nlen > hlen {
        proof {
            assert(forall|k: int| !matches_at(hay@, needle@, k));
        }
        return false;
    }
    let last = hlen - nlen;
    let mut i: usize = 0;
    loop
        invariant_except_break
            hlen == hay@.len(),
            nlen == needle@.len(),
            nlen <= hlen,
            last == hlen - nlen,
            i <= last,
            forall|k: int| 0 <= k < i ==> !matches_at(hay@, needle@, k),
        ensures
            forall|k: int| 0 <= k <= last ==> !matches_at(hay@, needle@, k),
        decreases last - i,
    {
        if match_at(hay, needle, i) {
            return true;
        }
        if i == last {
            break;
        }
        i += 1;
    }
    proof {
        assert(forall|k: int| matches_at(hay@, needle@, k) ==> 0 <= k <= last);
    }
    false
}

/// Suffix test: true exactly when `hay` ends with `suffix`.
pub fn str_ends_with(hay: &str, suffix: &str) -> (r: bool)
    ensures
        r == ends_with_seq(hay@, suffix@),
{
    let hlen = hay.unicode_len();
    let slen = suffix.unicode_len();
    if slen > hlen {
        return false;
    }
    let r = match_at(hay, suffix, hlen - slen);
    proof {
        assert(hay@.subrange(hlen - slen, (hlen - slen) + suffix@.len())
            == hay@.subrange(hay@.len() - suffix@.len(), hay@.len() as int));
    }
    r
}

} // verus!
