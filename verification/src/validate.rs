use crate::errors::TryIndicesError;
use crate::errors::TryIndicesOrderedError;
use crate::sort::insertion_sort;
use crate::sort::sorted;
use vstd::prelude::*;

verus! {

/// Every requested position is smaller than the collection length.
pub open spec fn all_in_bounds(length: nat, positions: Seq<usize>) -> bool {
    forall|k: int| 0 <= k < positions.len() ==> (positions[k] as nat) < length
}

/// Some position occurs at least twice.
pub open spec fn has_duplicate(positions: Seq<usize>) -> bool {
    exists|i: int, j: int| 0 <= i < j < positions.len() && positions[i] == positions[j]
}

/// The positions grow strictly from left to right.
pub open spec fn strictly_increasing(positions: Seq<usize>) -> bool {
    forall|i: int, j: int| 0 <= i < j < positions.len() ==> positions[i] < positions[j]
}

/// What unordered-mode validation decides for the given collection length and
/// requested positions: a bound violation is reported first, a duplicate is
/// reported only when every position is in bounds, and anything else passes.
pub open spec fn unordered_outcome(length: nat, positions: Seq<usize>) -> Result<
    (),
    TryIndicesError,
> {
    if !all_in_bounds(length, positions) {
        Err(TryIndicesError::IndexOutOfBounds)
    } else if has_duplicate(positions) {
        Err(TryIndicesError::DuplicateIndex)
    } else {
        Ok(())
    }
}

/// What ordered-mode validation decides: a sequence that is not strictly
/// increasing is invalid regardless of bounds, and a bound violation is
/// reported only when the ordering itself holds.
pub open spec fn ordered_outcome(length: nat, positions: Seq<usize>) -> Result<
    (),
    TryIndicesOrderedError,
> {
    if !strictly_increasing(positions) {
        Err(TryIndicesOrderedError::InvalidIndex)
    } else if !all_in_bounds(length, positions) {
        Err(TryIndicesOrderedError::IndexOutOfBounds)
    } else {
        Ok(())
    }
}

/// Two sequences holding the same elements with the same multiplicities
/// either both contain a duplicate or neither does.
proof fn lemma_multiset_eq_preserves_duplicates(a: Seq<usize>, b: Seq<usize>)
    requires
        a.to_multiset() == b.to_multiset(),
    ensures
        has_duplicate(a) <==> has_duplicate(b),
{
    lemma_duplicate_or_distinct(a);
    lemma_duplicate_or_distinct(b);
    if !has_duplicate(a) {
        a.lemma_multiset_has_no_duplicates();
        b.lemma_multiset_has_no_duplicates_conv();
    }
    if !has_duplicate(b) {
        b.lemma_multiset_has_no_duplicates();
        a.lemma_multiset_has_no_duplicates_conv();
    }
}

/// A sequence has a duplicate exactly when it does not satisfy
/// `Seq::no_duplicates`.
proof fn lemma_duplicate_or_distinct(s: Seq<usize>)
    ensures
        has_duplicate(s) <==> !s.no_duplicates(),
{
    if has_duplicate(s) {
        let (i, j) = choose|i: int, j: int|
            0 <= i < j < s.len() && s[i] == s[j];
        assert(!s.no_duplicates());
    }
    if !s.no_duplicates() {
        let (i, j) = choose|i: int, j: int|
            0 <= i < s.len() && 0 <= j < s.len() && i != j && s[i] == s[j];
        if i < j {
            assert(has_duplicate(s));
        } else {
            assert(0 <= j < i < s.len() && s[j] == s[i]);
            assert(has_duplicate(s));
        }
    }
}

/// Unordered-mode validation: succeeds exactly when the positions are
/// pairwise distinct and all in bounds; otherwise reports the error that
/// `unordered_outcome` assigns.  The caller's `positions` are never reordered;
/// the sort happens on a working copy.
#[verifier::rlimit(60)]
pub fn validate_unordered(length: usize, positions: &Vec<usize>) -> (r: Result<
    (),
    TryIndicesError,
>)
    ensures
        r == unordered_outcome(length as nat, positions@),
{
    let n = positions.len();
    let mut k: usize = 0;
    while k < n
        invariant
            0 <= k <= n,
            n == positions@.len(),
            forall|m: int| 0 <= m < k ==> (positions@[m] as nat) < length,
        decreases n - k,
    {
        if positions[k] >= length {
            return Err(TryIndicesError::IndexOutOfBounds);
        }
        k = k + 1;
    }
    assert(all_in_bounds(length as nat, positions@));

    let mut check: Vec<usize> = Vec::new();
    let mut c: usize = 0;
    while c < n
        invariant
            0 <= c <= n,
            n == positions@.len(),
            check@ == positions@.subrange(0, c as int),
        decreases n - c,
    {
        check.push(positions[c]);
        assert(check@ =~= positions@.subrange(0, c + 1 as int));
        c = c + 1;
    }
    assert(check@ =~= positions@);
    insertion_sort(&mut check);

    if n > 0 {
        let mut d: usize = 0;
        while d < n - 1
            invariant
                0 < n == check@.len(),
                0 <= d <= n - 1,
                n == positions@.len(),
                all_in_bounds(length as nat, positions@),
                sorted(check@),
                check@.to_multiset() == positions@.to_multiset(),
                forall|m: int, p: int| 0 <= m < p <= d ==> check@[m] < check@[p],
            decreases n - d,
        {
            if check[d] == check[d + 1] {
                proof {
                    assert(has_duplicate(check@));
                    lemma_multiset_eq_preserves_duplicates(check@, positions@);
                }
                return Err(TryIndicesError::DuplicateIndex);
            }
            d = d + 1;
        }
        proof {
            assert(!has_duplicate(check@));
            lemma_multiset_eq_preserves_duplicates(check@, positions@);
        }
    }
    Ok(())
}

/// Ordered-mode validation: succeeds exactly when the positions are strictly
/// increasing and all in bounds; otherwise reports the error that
/// `ordered_outcome` assigns.
pub fn validate_ordered(length: usize, positions: &Vec<usize>) -> (r: Result<
    (),
    TryIndicesOrderedError,
>)
    ensures
        r == ordered_outcome(length as nat, positions@),
{
    let n = positions.len();
    if n > 0 {
        let mut k: usize = 0;
        while k < n - 1
            invariant
                0 < n == positions@.len(),
                0 <= k <= n - 1,
                forall|i: int, j: int| 0 <= i < j <= k ==> positions@[i] < positions@[j],
            decreases n - k,
        {
            if positions[k] >= positions[k + 1] {
                return Err(TryIndicesOrderedError::InvalidIndex);
            }
            k = k + 1;
        }
    }
    assert(strictly_increasing(positions@));

    let mut k: usize = 0;
    while k < n
        invariant
            0 <= k <= n,
            n == positions@.len(),
            strictly_increasing(positions@),
            forall|m: int| 0 <= m < k ==> (positions@[m] as nat) < length,
        decreases n - k,
    {
        if positions[k] >= length {
            return Err(TryIndicesOrderedError::IndexOutOfBounds);
        }
        k = k + 1;
    }
    Ok(())
}

/// Validation is a function of the collection length and the requested
/// positions alone: two runs on the same input decide the same way, in both
/// modes.
pub proof fn lemma_validation_idempotent(
    length: nat,
    positions: Seq<usize>,
    r1: Result<(), TryIndicesError>,
    r2: Result<(), TryIndicesError>,
    s1: Result<(), TryIndicesOrderedError>,
    s2: Result<(), TryIndicesOrderedError>,
)
    requires
        r1 == unordered_outcome(length, positions),
        r2 == unordered_outcome(length, positions),
        s1 == ordered_outcome(length, positions),
        s2 == ordered_outcome(length, positions),
    ensures
        r1 == r2,
        s1 == s2,
{
}

/// Bounds law: unordered-mode validation fails with `IndexOutOfBounds`
/// exactly when some requested position reaches past the collection, and
/// ordered-mode validation does the same once the positions are strictly
/// increasing.
pub proof fn lemma_bounds_law(length: nat, positions: Seq<usize>)
    ensures
        unordered_outcome(length, positions) == Err::<(), TryIndicesError>(
            TryIndicesError::IndexOutOfBounds,
        ) <==> exists|k: int| 0 <= k < positions.len() && (positions[k] as nat) >= length,
        strictly_increasing(positions) ==> (ordered_outcome(length, positions) == Err::<
            (),
            TryIndicesOrderedError,
        >(TryIndicesOrderedError::IndexOutOfBounds) <==> exists|k: int|
            0 <= k < positions.len() && (positions[k] as nat) >= length),
{
}

/// Duplicate law: unordered-mode validation fails with `DuplicateIndex`
/// exactly when some position occurs at least twice and every position is in
/// bounds.
pub proof fn lemma_duplicate_law(length: nat, positions: Seq<usize>)
    ensures
        unordered_outcome(length, positions) == Err::<(), TryIndicesError>(
            TryIndicesError::DuplicateIndex,
        ) <==> (has_duplicate(positions) && all_in_bounds(length, positions)),
{
}

/// Order law: ordered-mode validation fails with `InvalidIndex` exactly when
/// the positions are not strictly increasing, whatever the bounds;
/// `IndexOutOfBounds` is reported only when the ordering holds and some
/// position still reaches past the collection.
pub proof fn lemma_order_law(length: nat, positions: Seq<usize>)
    ensures
        ordered_outcome(length, positions) == Err::<(), TryIndicesOrderedError>(
            TryIndicesOrderedError::InvalidIndex,
        ) <==> !strictly_increasing(positions),
        ordered_outcome(length, positions) == Err::<(), TryIndicesOrderedError>(
            TryIndicesOrderedError::IndexOutOfBounds,
        ) <==> (strictly_increasing(positions) && !all_in_bounds(length, positions)),
{
}

/// Empty law: requesting no positions passes validation in both modes, for
/// any collection length including zero.
pub proof fn lemma_empty_law(length: nat, positions: Seq<usize>)
    requires
        positions.len() == 0,
    ensures
        unordered_outcome(length, positions) == Ok::<(), TryIndicesError>(()),
        ordered_outcome(length, positions) == Ok::<(), TryIndicesOrderedError>(()),
{
}

} // verus!
