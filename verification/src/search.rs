//! First-occurrence search for a byte pattern inside a byte sequence, the
//! ground the metadata extractor stands on.

use vstd::prelude::*;

verus! {

/// `pat` occurs in `h` at position `i`.
pub open spec fn occurs_at(h: Seq<u8>, pat: Seq<u8>, i: int) -> bool {
    0 <= i && i + pat.len() <= h.len() && h.subrange(i, i + pat.len() as int) == pat
}

/// The position of the first occurrence of `pat` in `h`, if there is one.
pub open spec fn find_first(h: Seq<u8>, pat: Seq<u8>) -> Option<int>
    decreases h.len(),
{
    if pat.len() == 0 {
        Some(0)
    } else if h.len() < pat.len() {
        None
    } else if h.subrange(0, pat.len() as int) == pat {
        Some(0)
    } else {
        match find_first(h.drop_first(), pat) {
            Some(i) => Some(i + 1),
            None => None,
        }
    }
}

/// An occurrence one step into `h` is an occurrence in `h.drop_first()`.
proof fn lemma_occurs_shift(h: Seq<u8>, pat: Seq<u8>, i: int)
    requires
        h.len() >= 1,
        i >= 1,
    ensures
        occurs_at(h, pat, i) == occurs_at(h.drop_first(), pat, i - 1),
{
    if i + pat.len() <= h.len() {
        assert(h.subrange(i, i + pat.len() as int) =~= h.drop_first().subrange(
            i - 1,
            i - 1 + pat.len() as int,
        ));
    }
}

/// `find_first` returns exactly the first occurrence: a position where the
/// pattern occurs and before which it does not, or `None` when it occurs
/// nowhere.
pub proof fn lemma_find_first(h: Seq<u8>, pat: Seq<u8>)
    ensures
        match find_first(h, pat) {
            Some(i) => occurs_at(h, pat, i) && forall|j: int| 0 <= j < i ==> !occurs_at(h, pat, j),
            None => forall|j: int| !occurs_at(h, pat, j),
        },
    decreases h.len(),
{
    if pat.len() == 0 {
        assert(h.subrange(0, 0) =~= pat);
        assert(occurs_at(h, pat, 0));
    } else if h.len() < pat.len() {
        assert(forall|j: int| !occurs_at(h, pat, j));
    } else if h.subrange(0, pat.len() as int) == pat {
        assert(occurs_at(h, pat, 0));
    } else {
        lemma_find_first(h.drop_first(), pat);
        assert(!occurs_at(h, pat, 0));
        match find_first(h.drop_first(), pat) {
            Some(i) => {
                lemma_occurs_shift(h, pat, i + 1);
                assert(occurs_at(h, pat, i + 1));
                assert forall|j: int| 0 <= j < i + 1 implies !occurs_at(h, pat, j) by {
                    if j >= 1 {
                        lemma_occurs_shift(h, pat, j);
                    }
                }
            },
            None => {
                assert forall|j: int| !occurs_at(h, pat, j) by {
                    if j >= 1 {
                        lemma_occurs_shift(h, pat, j);
                    }
                }
            },
        }
    }
}

/// The first occurrence is pinned down by occurring with none before it.
pub proof fn lemma_first_occurrence_unique(h: Seq<u8>, pat: Seq<u8>, i: int)
    requires
        occurs_at(h, pat, i),
        forall|j: int| 0 <= j < i ==> !occurs_at(h, pat, j),
    ensures
        find_first(h, pat) == Some(i),
{
    lemma_find_first(h, pat);
    match find_first(h, pat) {
        Some(k) => {
            if k < i {
                assert(!occurs_at(h, pat, k));
            }
            if i < k {
                assert(!occurs_at(h, pat, i));
            }
        },
        None => {
            assert(!occurs_at(h, pat, i));
        },
    }
}

/// Whether `pat` occurs in `h` starting at `at`.
fn matches_at(h: &[u8], pat: &[u8], at: usize) -> (r: bool)
    requires
        at + pat@.len() <= h@.len(),
    ensures
        r == occurs_at(h@, pat@, at as int),
{
    proof {
        vstd::slice::axiom_spec_len(h);
    }
    let mut j: usize = 0;
    while j < pat.len()
        invariant
            at + pat@.len() <= h@.len(),
            h@.len() <= usize::MAX,
            j <= pat@.len(),
            forall|t: int| 0 <= t < j ==> h@[at + t] == pat@[t],
        decreases pat@.len() - j,
    {
        if h[at + j] != pat[j] {
            assert(h@.subrange(at as int, at + pat@.len() as int)[j as int] != pat@[j as int]);
            return false;
        }
        j = j + 1;
    }
    assert(h@.subrange(at as int, at + pat@.len() as int) =~= pat@);
    true
}

/// Finds the first occurrence of `pat` in `h`.
pub fn find(h: &[u8], pat: &[u8]) -> (r: Option<usize>)
    requires
        pat@.len() >= 1,
    ensures
        match r {
            Some(i) => find_first(h@, pat@) == Some(i as int),
            None => find_first(h@, pat@) is None,
        },
{
    if pat.len() > h.len() {
        proof {
            lemma_find_first(h@, pat@);
            if find_first(h@, pat@) is Some {
                assert(occurs_at(h@, pat@, find_first(h@, pat@)->Some_0));
            }
        }
        return None;
    }
    let last: usize = h.len() - pat.len();
    let mut i: usize = 0;
    while i <= last
        invariant
            1 <= pat@.len() <= h@.len() <= usize::MAX,
            last == h@.len() - pat@.len(),
            i <= last + 1,
            forall|j: int| 0 <= j < i ==> !occurs_at(h@, pat@, j),
        decreases last + 1 - i,
    {
        if matches_at(h, pat, i) {
            proof {
                lemma_first_occurrence_unique(h@, pat@, i as int);
            }
            return Some(i);
        }
        i = i + 1;
    }
    proof {
        lemma_find_first(h@, pat@);
        if find_first(h@, pat@) is Some {
            let k = find_first(h@, pat@)->Some_0;
            assert(occurs_at(h@, pat@, k));
            assert(k <= last);
        }
    }
    None
}

/// The position of the first occurrence of the byte `b` in `h` at or after
/// position `from`, if there is one.
pub open spec fn find_byte_from(h: Seq<u8>, b: u8, from: int) -> Option<int>
    decreases h.len() - from,
{
    if from < 0 || from >= h.len() {
        None
    } else if h[from] == b {
        Some(from)
    } else {
        find_byte_from(h, b, from + 1)
    }
}

/// `find_byte_from` returns exactly the first position at or after `from`
/// holding `b`, or `None` when none does.
pub proof fn lemma_find_byte_from(h: Seq<u8>, b: u8, from: int)
    requires
        0 <= from,
    ensures
        match find_byte_from(h, b, from) {
            Some(i) => from <= i < h.len() && h[i] == b && forall|j: int|
                from <= j < i ==> h[j] != b,
            None => forall|j: int| from <= j < h.len() ==> h[j] != b,
        },
    decreases h.len() - from,
{
    if from < h.len() && h[from] != b {
        lemma_find_byte_from(h, b, from + 1);
    }
}

/// Finds the first occurrence of `b` in `h` at or after `from`.
pub fn find_byte(h: &[u8], b: u8, from: usize) -> (r: Option<usize>)
    ensures
        match r {
            Some(i) => find_byte_from(h@, b, from as int) == Some(i as int),
            None => find_byte_from(h@, b, from as int) is None,
        },
{
    let mut i: usize = from;
    while i < h.len()
        invariant
            from <= i,
            forall|j: int| from <= j < i ==> h@[j] != b,
        decreases h@.len() - i,
    {
        if h[i] == b {
            proof {
                lemma_find_byte_from(h@, b, from as int);
                match find_byte_from(h@, b, from as int) {
                    Some(k) => {
                        if k < i {
                            assert(h@[k] != b);
                        }
                        if (i as int) < k {
                            assert(h@[i as int] != b);
                        }
                    },
                    None => {
                        assert(h@[i as int] != b);
                    },
                }
            }
            return Some(i);
        }
        i = i + 1;
    }
    proof {
        lemma_find_byte_from(h@, b, from as int);
    }
    None
}

/// Copies `h[start..end]` into a fresh vector.
pub fn copy_range(h: &[u8], start: usize, end: usize) -> (v: Vec<u8>)
    requires
        start <= end <= h@.len(),
    ensures
        v@ == h@.subrange(start as int, end as int),
{
    let mut v: Vec<u8> = Vec::new();
    let mut i: usize = start;
    while i < end
        invariant
            start <= i <= end <= h@.len(),
            v@ == h@.subrange(start as int, i as int),
        decreases end - i,
    {
        v.push(h[i]);
        i = i + 1;
        assert(v@ =~= h@.subrange(start as int, i as int));
    }
    v
}

} // verus!
