//! Case-insensitive text matching.
//!
//! Window titles, process names and key names are compared after Unicode
//! lowercasing; matching is substring containment over the lowercased
//! characters. The lowercasing itself is the standard library's; the
//! substring search over the lowercased strings is verified here.

use vstd::prelude::*;
use vstd::string::StrSliceExecFns;

verus! {

/// The Unicode lowercase of a string, character by character as
/// `str::to_lowercase` produces it: a function of the characters alone.
pub uninterp spec fn lower_of(s: Seq<char>) -> Seq<char>;

/// Relies on `str::to_lowercase`: returns the lowercase equivalent of the
/// string, a function of its characters alone; an empty string stays
/// empty.
#[verifier::external_body]
pub(crate) fn lowercase(s: &str) -> (r: String)
    ensures
        r@ == lower_of(s@),
        s@.len() == 0 ==> r@.len() == 0,
{
    s.to_lowercase()
}

/// The needle occurs in the haystack at offset `i`.
pub open spec fn match_at(hay: Seq<char>, needle: Seq<char>, i: int) -> bool {
    forall|j: int| 0 <= j < needle.len() ==> hay[i + j] == needle[j]
}

/// Exact substring containment: the needle occurs somewhere in the
/// haystack.
pub open spec fn contains_sub(hay: Seq<char>, needle: Seq<char>) -> bool {
    exists|i: int| 0 <= i && i + needle.len() <= hay.len() && match_at(hay, needle, i)
}

/// Case-insensitive substring containment: the needle occurs in the
/// haystack once both are lowercased.
pub open spec fn contains_ci(hay: Seq<char>, needle: Seq<char>) -> bool {
    contains_sub(lower_of(hay), lower_of(needle))
}

/// Exact string equality, character by character.
pub fn str_eq(a: &str, b: &str) -> (r: bool)
    ensures
        r == (a@ == b@),
{
    let alen: usize = a.unicode_len();
    let blen: usize = b.unicode_len();
    if alen != blen {
        return false;
    }
    let mut i: usize = 0;
    while i < alen
        invariant
            alen == a@.len(),
            blen == b@.len(),
            alen == blen,
            i <= alen,
            forall|j: int| 0 <= j < i ==> a@[j] == b@[j],
        decreases alen - i,
    {
        if a.get_char(i) != b.get_char(i) {
            return false;
        }
        i += 1;
    }
    proof {
        assert(a@ =~= b@);
    }
    true
}

/// The needle matches the haystack at the given offset.
fn match_at_exec(hay: &str, needle: &str, i: usize) -> (r: bool)
    requires
        i + needle@.len() <= hay@.len(),
    ensures
        r == match_at(hay@, needle@, i as int),
{
    let hlen: usize = hay.unicode_len();
    let nlen: usize = needle.unicode_len();
    let mut j: usize = 0;
    while j < nlen
        invariant
            hlen == hay@.len(),
            nlen == needle@.len(),
            i + nlen <= hlen,
            j <= nlen,
            forall|t: int| 0 <= t < j ==> hay@[i + t] == needle@[t],
        decreases nlen - j,
    {
        if hay.get_char(i + j) != needle.get_char(j) {
            assert(!match_at(hay@, needle@, i as int));
            return false;
        }
        j += 1;
    }
    true
}

/// Exact substring search.
pub fn contains_str(hay: &str, needle: &str) -> (r: bool)
    ensures
        r == contains_sub(hay@, needle@),
{
    let hlen: usize = hay.unicode_len();
    let nlen: usize = needle.unicode_len();
    if nlen > hlen {
        return false;
    }
    let mut i: usize = 0;
    while i <= hlen - nlen
        invariant
            hlen == hay@.len(),
            nlen == needle@.len(),
            nlen <= hlen,
            i <= hlen - nlen + 1,
            forall|k: int| 0 <= k < i ==> !match_at(hay@, needle@, k),
        decreases hlen - nlen - i + 1,
    {
        if match_at_exec(hay, needle, i) {
            return true;
        }
        i += 1;
    }
    false
}

/// Case-insensitive substring search: lowercase both strings, then run
/// the exact search over the lowercased characters.
pub fn contains_fold(hay: &str, needle: &str) -> (r: bool)
    ensures
        r == contains_ci(hay@, needle@),
{
    let h = lowercase(hay);
    let n = lowercase(needle);
    contains_str(h.as_str(), n.as_str())
}

/// An empty needle occurs in every haystack: matching against an empty
/// filter accepts everything.
pub proof fn lemma_empty_needle_matches(hay: Seq<char>, needle: Seq<char>)
    requires
        needle.len() == 0,
    ensures
        contains_sub(hay, needle),
{
    assert(0 <= 0 && 0 + needle.len() <= hay.len() && match_at(hay, needle, 0));
}

} // verus!
