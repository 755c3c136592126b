//! Byte strings: comparing, joining and searching.

use vstd::prelude::*;
use crate::text::occurs_at;

verus! {

/// A copy of the bytes.
pub fn to_vec(data: &[u8]) -> (r: Vec<u8>)
    ensures
        r@ == data@,
{
    let mut r: Vec<u8> = Vec::new();
    let mut i: usize = 0;
    while i < data.len()
        invariant
            i <= data.len(),
            r@ == data@.take(i as int),
        decreases data.len() - i,
    {
        r.push(data[i]);
        i = i + 1;
    }
    r
}

/// The bytes from `from` up to `to`.
pub fn slice_of(data: &[u8], from: usize, to: usize) -> (r: Vec<u8>)
    requires
        from <= to <= data.len(),
    ensures
        r@ == data@.subrange(from as int, to as int),
{
    let mut r: Vec<u8> = Vec::new();
    let mut i: usize = from;
    while i < to
        invariant
            from <= i <= to <= data.len(),
            r@ == data@.subrange(from as int, i as int),
        decreases to - i,
    {
        r.push(data[i]);
        i = i + 1;
    }
    r
}

/// The two byte strings joined.
pub fn join(a: &[u8], b: &[u8]) -> (r: Vec<u8>)
    ensures
        r@ == a@ + b@,
{
    let mut r = to_vec(a);
    let mut i: usize = 0;
    while i < b.len()
        invariant
            i <= b.len(),
            r@ == a@ + b@.take(i as int),
        decreases b.len() - i,
    {
        r.push(b[i]);
        i = i + 1;
    }
    r
}

/// Whether two byte strings are the same.
pub fn same(a: &[u8], b: &[u8]) -> (r: bool)
    ensures
        r == (a@ == b@),
{
    if a.len() != b.len() {
        return false;
    }
    let mut i: usize = 0;
    while i < a.len()
        invariant
            a.len() == b.len(),
            i <= a.len(),
            forall|j: int| 0 <= j < i ==> a@[j] == b@[j],
        decreases a.len() - i,
    {
        if a[i] != b[i] {
            return false;
        }
        i = i + 1;
    }
    assert(a@ =~= b@);
    true
}

/// Whether `pat` stands in `data` at position `i`.
pub fn matches_at(data: &[u8], pat: &[u8], i: usize) -> (r: bool)
    requires
        i + pat.len() <= data.len(),
    ensures
        r == occurs_at(data@, pat@, i as int),
{
    let mut k: usize = 0;
    while k < pat.len()
        invariant
            i + pat.len() <= data.len(),
            k <= pat.len(),
            forall|j: int| 0 <= j < k ==> data@[i + j] == pat@[j],
        decreases pat.len() - k,
    {
        if data[i + k] != pat[k] {
            assert(data@.subrange(i as int, i + pat.len())[k as int] == data@[i + k]);
            return false;
        }
        k = k + 1;
    }
    assert(data@.subrange(i as int, i + pat.len()) =~= pat@);
    true
}

/// The first position at which `pat` stands in `data`.
pub fn find(data: &[u8], pat: &[u8]) -> (r: Option<usize>)
    ensures
        match r {
            Some(i) => occurs_at(data@, pat@, i as int) && forall|j: int|
                0 <= j < i ==> !occurs_at(data@, pat@, j),
            None => forall|j: int| !occurs_at(data@, pat@, j),
        },
{
    if pat.len() > data.len() {
        return None;
    }
    let last = data.len() - pat.len();
    let mut i: usize = 0;
    while i < last
        invariant
            last == data.len() - pat.len(),
            i <= last,
            forall|j: int| 0 <= j < i ==> !occurs_at(data@, pat@, j),
        decreases last - i,
    {
        if matches_at(data, pat, i) {
            return Some(i);
        }
        i = i + 1;
    }
    if matches_at(data, pat, last) {
        Some(last)
    } else {
        None
    }
}

/// The last position at which `pat` stands in `data`.
pub fn find_last(data: &[u8], pat: &[u8]) -> (r: Option<usize>)
    ensures
        match r {
            Some(i) => occurs_at(data@, pat@, i as int) && forall|j: int|
                i < j ==> !occurs_at(data@, pat@, j),
            None => forall|j: int| !occurs_at(data@, pat@, j),
        },
{
    if pat.len() > data.len() {
        return None;
    }
    let last = data.len() - pat.len();
    if matches_at(data, pat, last) {
        return Some(last);
    }
    let mut i: usize = last;
    while i > 0
        invariant
            last == data.len() - pat.len(),
            i <= last,
            forall|j: int| i <= j ==> !occurs_at(data@, pat@, j),
        decreases i,
    {
        i = i - 1;
        if matches_at(data, pat, i) {
            return Some(i);
        }
    }
    None
}

/// The first position at which `pat` stands in `data`.
pub open spec fn first_occurrence(data: Seq<u8>, pat: Seq<u8>) -> Option<int> {
    if exists|i: int| occurs_at(data, pat, i) {
        Some(
            choose|i: int|
                occurs_at(data, pat, i) && forall|j: int| 0 <= j < i ==> !occurs_at(data, pat, j),
        )
    } else {
        None
    }
}

/// The last position at which `pat` stands in `data`.
pub open spec fn last_occurrence(data: Seq<u8>, pat: Seq<u8>) -> Option<int> {
    if exists|i: int| occurs_at(data, pat, i) {
        Some(
            choose|i: int|
                occurs_at(data, pat, i) && forall|j: int| i < j ==> !occurs_at(data, pat, j),
        )
    } else {
        None
    }
}

/// A position at which `pat` stands and before which it does not is the first.
pub proof fn lemma_first_occurrence(data: Seq<u8>, pat: Seq<u8>, i: int)
    requires
        occurs_at(data, pat, i),
        forall|j: int| 0 <= j < i ==> !occurs_at(data, pat, j),
    ensures
        first_occurrence(data, pat) == Some(i),
{
    let c = choose|c: int|
        occurs_at(data, pat, c) && forall|j: int| 0 <= j < c ==> !occurs_at(data, pat, j);
    assert(occurs_at(data, pat, c) && forall|j: int| 0 <= j < c ==> !occurs_at(data, pat, j));
    if c < i {
        assert(!occurs_at(data, pat, c));
    }
    if i < c {
        assert(!occurs_at(data, pat, i));
    }
}

/// A position at which `pat` stands and after which it does not is the last.
pub proof fn lemma_last_occurrence(data: Seq<u8>, pat: Seq<u8>, i: int)
    requires
        occurs_at(data, pat, i),
        forall|j: int| i < j ==> !occurs_at(data, pat, j),
    ensures
        last_occurrence(data, pat) == Some(i),
{
    let c = choose|c: int|
        occurs_at(data, pat, c) && forall|j: int| c < j ==> !occurs_at(data, pat, j);
    assert(occurs_at(data, pat, c) && forall|j: int| c < j ==> !occurs_at(data, pat, j));
    if c < i {
        assert(!occurs_at(data, pat, i));
    }
    if i < c {
        assert(!occurs_at(data, pat, c));
    }
}

/// The first position at which `pat` stands in `data`.
pub fn find_first(data: &[u8], pat: &[u8]) -> (r: Option<usize>)
    ensures
        match r {
            Some(i) => first_occurrence(data@, pat@) == Some(i as int) && i + pat@.len()
                <= data@.len(),
            None => first_occurrence(data@, pat@) is None,
        },
{
    let r = find(data, pat);
    proof {
        match r {
            Some(i) => {
                lemma_first_occurrence(data@, pat@, i as int);
            },
            None => {},
        }
    }
    r
}

/// The last position at which `pat` stands in `data`.
pub fn find_final(data: &[u8], pat: &[u8]) -> (r: Option<usize>)
    ensures
        match r {
            Some(i) => last_occurrence(data@, pat@) == Some(i as int) && i + pat@.len()
                <= data@.len(),
            None => last_occurrence(data@, pat@) is None,
        },
{
    let r = find_last(data, pat);
    proof {
        match r {
            Some(i) => {
                lemma_last_occurrence(data@, pat@, i as int);
            },
            None => {},
        }
    }
    r
}

} // verus!
