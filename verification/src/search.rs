//! Substring search over byte strings.
//!
//! Everything the log grammar needs from a text line is phrased here over
//! its bytes: where a pattern first occurs, whether a line ends with a
//! pattern, and how a line falls apart around a separator.

use vstd::prelude::*;

verus! {

/// `pat` stands in `hay` at index `i`.
pub open spec fn occurs_at(hay: Seq<u8>, pat: Seq<u8>, i: int) -> bool {
    &&& 0 <= i
    &&& i + pat.len() <= hay.len()
    &&& hay.subrange(i, i + pat.len()) == pat
}

/// `pat` stands somewhere in `hay`.
pub open spec fn contains(hay: Seq<u8>, pat: Seq<u8>) -> bool {
    exists|i: int| occurs_at(hay, pat, i)
}

/// `pat` stands in `hay` at `i` and nowhere before `i`.
pub open spec fn is_first_occurrence(hay: Seq<u8>, pat: Seq<u8>, i: int) -> bool {
    &&& occurs_at(hay, pat, i)
    &&& forall|j: int| 0 <= j < i ==> !occurs_at(hay, pat, j)
}

/// The least index at which `pat` stands in `hay`, if there is one.
pub open spec fn first_occurrence(hay: Seq<u8>, pat: Seq<u8>) -> Option<int> {
    if contains(hay, pat) {
        Some(choose|i: int| is_first_occurrence(hay, pat, i))
    } else {
        None
    }
}

/// The last `suffix.len()` bytes of `hay` are `suffix`.
pub open spec fn ends_with(hay: Seq<u8>, suffix: Seq<u8>) -> bool {
    &&& suffix.len() <= hay.len()
    &&& hay.subrange(hay.len() - suffix.len(), hay.len() as int) == suffix
}

/// The two parts of `hay` around the first occurrence of `sep`.
pub open spec fn split_once(hay: Seq<u8>, sep: Seq<u8>) -> Option<(Seq<u8>, Seq<u8>)> {
    match first_occurrence(hay, sep) {
        Some(i) => Some((hay.subrange(0, i), hay.subrange(i + sep.len(), hay.len() as int))),
        None => None,
    }
}

/// An index that is a first occurrence is the first occurrence.
pub proof fn lemma_first_occurrence_is(hay: Seq<u8>, pat: Seq<u8>, i: int)
    requires
        is_first_occurrence(hay, pat, i),
    ensures
        first_occurrence(hay, pat) == Some(i),
{
    let c = choose|c: int| is_first_occurrence(hay, pat, c);
    assert(is_first_occurrence(hay, pat, c));
    if c < i {
        assert(!occurs_at(hay, pat, c));
    } else if i < c {
        assert(!occurs_at(hay, pat, i));
    }
}

/// Where a first occurrence is reported, it is one.
pub proof fn lemma_first_occurrence_found(hay: Seq<u8>, pat: Seq<u8>)
    requires
        contains(hay, pat),
    ensures
        first_occurrence(hay, pat) is Some,
        is_first_occurrence(hay, pat, first_occurrence(hay, pat)->Some_0),
{
    let w = choose|i: int| occurs_at(hay, pat, i);
    lemma_least_occurrence(hay, pat, w);
}

/// Below any occurrence lies a first one.
proof fn lemma_least_occurrence(hay: Seq<u8>, pat: Seq<u8>, w: int)
    requires
        occurs_at(hay, pat, w),
    ensures
        exists|i: int| 0 <= i <= w && is_first_occurrence(hay, pat, i),
    decreases w,
{
    if exists|j: int| 0 <= j < w && occurs_at(hay, pat, j) {
        let j = choose|j: int| 0 <= j < w && occurs_at(hay, pat, j);
        lemma_least_occurrence(hay, pat, j);
    } else {
        assert(is_first_occurrence(hay, pat, w));
    }
}

/// Bytes added behind `hay` leave the first occurrence of `pat` where it was.
pub proof fn lemma_first_occurrence_extends(hay: Seq<u8>, pat: Seq<u8>, more: Seq<u8>)
    requires
        contains(hay, pat),
    ensures
        first_occurrence(hay + more, pat) == first_occurrence(hay, pat),
{
    lemma_first_occurrence_found(hay, pat);
    let i = first_occurrence(hay, pat)->Some_0;
    let longer = hay + more;
    assert(longer.subrange(i, i + pat.len()) =~= hay.subrange(i, i + pat.len()));
    assert(occurs_at(hay, pat, i));
    assert forall|j: int| 0 <= j < i implies !occurs_at(longer, pat, j) by {
        assert(!occurs_at(hay, pat, j));
        assert(longer.subrange(j, j + pat.len()) =~= hay.subrange(j, j + pat.len()));
    }
    lemma_first_occurrence_is(longer, pat, i);
}

/// What ends the part of `hay` from `k` on ends `hay`.
pub proof fn lemma_ends_with_tail(hay: Seq<u8>, k: int, suffix: Seq<u8>)
    requires
        0 <= k <= hay.len(),
        ends_with(hay.subrange(k, hay.len() as int), suffix),
    ensures
        ends_with(hay, suffix),
{
    let tail = hay.subrange(k, hay.len() as int);
    assert(hay.subrange(hay.len() - suffix.len(), hay.len() as int) =~= tail.subrange(
        tail.len() - suffix.len(),
        tail.len() as int,
    ));
}

/// Whether `pat` stands in `hay` at index `at`.
pub fn matches_at(hay: &[u8], pat: &[u8], at: usize) -> (r: bool)
    ensures
        r == occurs_at(hay@, pat@, at as int),
{
    if pat.len() > hay.len() || at > hay.len() - pat.len() {
        return false;
    }
    let mut k: usize = 0;
    while k < pat.len()
        invariant
            k <= pat.len(),
            at + pat.len() <= hay.len(),
            forall|j: int| 0 <= j < k ==> hay@[at + j] == pat@[j],
        decreases pat.len() - k,
    {
        if hay[at + k] != pat[k] {
            assert(hay@.subrange(at as int, at + pat.len())[k as int] == hay@[at + k]);
            return false;
        }
        k += 1;
    }
    assert(hay@.subrange(at as int, at + pat.len()) =~= pat@);
    true
}

/// The index of the first occurrence of `pat` in `hay`.
pub fn find(hay: &[u8], pat: &[u8]) -> (r: Option<usize>)
    ensures
        match r {
            Some(i) => is_first_occurrence(hay@, pat@, i as int) && first_occurrence(hay@, pat@)
                == Some(i as int),
            None => !contains(hay@, pat@) && first_occurrence(hay@, pat@) is None,
        },
{
    if pat.len() > hay.len() {
        return None;
    }
    let last: usize = hay.len() - pat.len();
    let mut i: usize = 0;
    loop
        invariant
            last == hay.len() - pat.len(),
            i <= last,
            forall|j: int| 0 <= j < i ==> !occurs_at(hay@, pat@, j),
        decreases last - i,
    {
        if matches_at(hay, pat, i) {
            proof {
                lemma_first_occurrence_is(hay@, pat@, i as int);
            }
            return Some(i);
        }
        if i == last {
            return None;
        }
        i += 1;
    }
}

/// Whether `pat` stands somewhere in `hay`.
pub fn includes(hay: &[u8], pat: &[u8]) -> (r: bool)
    ensures
        r == contains(hay@, pat@),
{
    find(hay, pat).is_some()
}

/// Whether `hay` ends with `suffix`.
pub fn has_suffix(hay: &[u8], suffix: &[u8]) -> (r: bool)
    ensures
        r == ends_with(hay@, suffix@),
{
    if suffix.len() > hay.len() {
        return false;
    }
    matches_at(hay, suffix, hay.len() - suffix.len())
}

/// The parts of `hay` before and after the first occurrence of `sep`.
pub fn cut<'a>(hay: &'a [u8], sep: &[u8]) -> (r: Option<(&'a [u8], &'a [u8])>)
    ensures
        match r {
            Some((head, tail)) => split_once(hay@, sep@) == Some((head@, tail@)),
            None => split_once(hay@, sep@) is None,
        },
{
    match find(hay, sep) {
        Some(i) => {
            let end: usize = hay.len();
            let head = vstd::slice::slice_subrange(hay, 0, i);
            let tail = vstd::slice::slice_subrange(hay, i + sep.len(), end);
            Some((head, tail))
        },
        None => None,
    }
}

} // verus!
