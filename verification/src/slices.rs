use crate::errors::TryIndicesError;
use crate::handles::Handle;
use crate::handles::materialize;
use crate::validate::all_in_bounds;
use crate::validate::has_duplicate;
use crate::validate::unordered_outcome;
use crate::validate::validate_unordered;
use vstd::prelude::*;

verus! {

/// Handles for any number of requested positions, which must be pairwise
/// distinct and in bounds; the k-th handle targets the k-th requested
/// position.
pub fn indices_slice<T>(collection: &Vec<T>, positions: &Vec<usize>) -> (handles: Vec<Handle>)
    requires
        all_in_bounds(collection@.len(), positions@),
        !has_duplicate(positions@),
    ensures
        handles@.len() == positions@.len(),
        forall|k: int| 0 <= k < positions@.len() ==> handles@[k].target() == positions@[k],
        forall|k: int|
            0 <= k < positions@.len() ==> (handles@[k].target() as nat) < collection@.len(),
        forall|i: int, j: int|
            0 <= i < j < positions@.len() ==> handles@[i].target() != handles@[j].target(),
{
    match try_indices_slice(collection, positions) {
        Ok(handles) => handles,
        Err(_) => vstd::pervasive::unreached(),
    }
}

/// Fallible form of [`indices_slice`]: reports what unordered-mode validation
/// decides instead of demanding valid positions up front.
pub fn try_indices_slice<T>(collection: &Vec<T>, positions: &Vec<usize>) -> (r: Result<
    Vec<Handle>,
    TryIndicesError,
>)
    ensures
        match r {
            Ok(handles) => {
                &&& unordered_outcome(collection@.len(), positions@) == Ok::<(), TryIndicesError>(
                    (),
                )
                &&& handles@.len() == positions@.len()
                &&& forall|k: int|
                    0 <= k < positions@.len() ==> handles@[k].target() == positions@[k]
                &&& forall|k: int|
                    0 <= k < positions@.len() ==> (handles@[k].target() as nat) < collection@.len()
                &&& forall|i: int, j: int|
                    0 <= i < j < positions@.len() ==> handles@[i].target() != handles@[j].target()
            },
            Err(e) => unordered_outcome(collection@.len(), positions@) == Err::<
                (),
                TryIndicesError,
            >(e),
        },
{
    match validate_unordered(collection.len(), positions) {
        Ok(()) => Ok(materialize(collection, positions)),
        Err(e) => Err(e),
    }
}

/// Handles for exactly `N` requested positions, which must be pairwise
/// distinct and in bounds; the k-th handle targets the k-th requested
/// position.
pub fn indices_array<T, const N: usize>(collection: &Vec<T>, positions: &[usize; N]) -> (handles:
    [Handle; N])
    requires
        all_in_bounds(collection@.len(), positions@),
        !has_duplicate(positions@),
    ensures
        forall|k: int| 0 <= k < N ==> handles@[k].target() == positions@[k],
        forall|k: int| 0 <= k < N ==> (handles@[k].target() as nat) < collection@.len(),
        forall|i: int, j: int|
            0 <= i < j < N ==> handles@[i].target() != handles@[j].target(),
{
    match try_indices_array(collection, positions) {
        Ok(handles) => handles,
        Err(_) => vstd::pervasive::unreached(),
    }
}

/// Fallible form of [`indices_array`].
pub fn try_indices_array<T, const N: usize>(collection: &Vec<T>, positions: &[usize; N]) -> (r:
    Result<[Handle; N], TryIndicesError>)
    ensures
        match r {
            Ok(handles) => {
                &&& unordered_outcome(collection@.len(), positions@) == Ok::<(), TryIndicesError>(
                    (),
                )
                &&& forall|k: int| 0 <= k < N ==> handles@[k].target() == positions@[k]
                &&& forall|k: int|
                    0 <= k < N ==> (handles@[k].target() as nat) < collection@.len()
                &&& forall|i: int, j: int|
                    0 <= i < j < N ==> handles@[i].target() != handles@[j].target()
            },
            Err(e) => unordered_outcome(collection@.len(), positions@) == Err::<
                (),
                TryIndicesError,
            >(e),
        },
{
    broadcast use vstd::array::group_array_axioms;

    let mut requested: Vec<usize> = Vec::new();
    let mut k: usize = 0;
    while k < N
        invariant
            0 <= k <= N,
            requested@ == positions@.subrange(0, k as int),
        decreases N - k,
    {
        requested.push(positions[k]);
        assert(requested@ =~= positions@.subrange(0, k + 1 as int));
        k = k + 1;
    }
    assert(requested@ =~= positions@);
    match validate_unordered(collection.len(), &requested) {
        Ok(()) => {},
        Err(e) => {
            return Err(e);
        },
    }
    let mut handles: [Handle; N] = vstd::array::array_fill_for_copy_types(Handle::at(0));
    let mut k: usize = 0;
    while k < N
        invariant
            0 <= k <= N,
            forall|m: int| 0 <= m < k ==> handles@[m].target() == positions@[m],
        decreases N - k,
    {
        handles[k] = Handle::at(positions[k]);
        k = k + 1;
    }
    proof {
        assert forall|k: int|
            0 <= k < N implies (handles@[k].target() as nat) < collection@.len() by {
            assert((positions@[k] as nat) < collection@.len());
        }
        assert forall|i: int, j: int|
            0 <= i < j < N implies handles@[i].target() != handles@[j].target() by {
            if handles@[i].target() == handles@[j].target() {
                assert(positions@[i] == positions@[j]);
                assert(has_duplicate(positions@));
            }
        }
    }
    Ok(handles)
}

} // verus!
