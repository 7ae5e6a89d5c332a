use crate::validate::all_in_bounds;
use crate::validate::has_duplicate;
use vstd::prelude::*;

verus! {

/// A mutable view onto exactly one element of a collection, keyed by a
/// position that validation has proven distinct from every other handle of
/// the same call and smaller than the collection length.  The handle does not
/// hold a borrow itself: reads and writes go through [`Handle::read`] and
/// [`Handle::write`], which demand the target to be in bounds.
#[derive(Debug, Clone, Copy, PartialEq, Eq, Structural)]
pub struct Handle {
    pos: usize,
}

impl Handle {
    /// The position of the element this handle gives access to.
    pub closed spec fn target(&self) -> usize {
        self.pos
    }

    /// Builds the handle for one already-validated position.
    pub(crate) fn at(pos: usize) -> (h: Handle)
        ensures
            h.target() == pos,
    {
        Handle { pos }
    }

    /// The position of the element this handle gives access to.
    pub fn position(&self) -> (r: usize)
        ensures
            r == self.target(),
    {
        self.pos
    }

    /// Reads the element this handle targets.
    pub fn read<'a, T>(&self, collection: &'a Vec<T>) -> (r: &'a T)
        requires
            (self.target() as nat) < collection@.len(),
        ensures
            *r == collection@[self.target() as int],
    {
        &collection[self.pos]
    }

    /// Overwrites the element this handle targets; every other element stays
    /// as it was.
    pub fn write<T>(&self, collection: &mut Vec<T>, value: T)
        requires
            (self.target() as nat) < old(collection)@.len(),
        ensures
            final(collection)@ == old(collection)@.update(self.target() as int, value),
    {
        collection[self.pos] = value;
    }
}

/// Turns positions that have already passed unordered validation into
/// handles: one handle per requested position, in the caller's order, all
/// targets pairwise distinct and in bounds.  Never call this on positions
/// that did not just pass validation against this collection's length.
pub fn materialize<T>(collection: &Vec<T>, positions: &Vec<usize>) -> (handles: Vec<Handle>)
    requires
        all_in_bounds(collection@.len(), positions@),
        !has_duplicate(positions@),
    ensures
        handles@.len() == positions@.len(),
        forall|k: int| 0 <= k < positions@.len() ==> handles@[k].target() == positions@[k],
        forall|k: int|
            0 <= k < positions@.len() ==> (handles@[k].target() as nat) < collection@.len(),
        forall|i: int, j: int|
            0 <= i < j < positions@.len() ==> handles@[i].target() != handles@[j].target(),
{
    let n = positions.len();
    let mut handles: Vec<Handle> = Vec::new();
    let mut k: usize = 0;
    while k < n
        invariant
            0 <= k <= n,
            n == positions@.len(),
            handles@.len() == k,
            forall|m: int| 0 <= m < k ==> handles@[m].target() == positions@[m],
        decreases n - k,
    {
        handles.push(Handle::at(positions[k]));
        k = k + 1;
    }
    proof {
        assert forall|k: int|
            0 <= k < positions@.len() implies (handles@[k].target() as nat)
            < collection@.len() by {
            assert((positions@[k] as nat) < collection@.len());
        }
        assert forall|i: int, j: int|
            0 <= i < j < positions@.len() implies handles@[i].target() != handles@[j].target() by {
            if handles@[i].target() == handles@[j].target() {
                assert(positions@[i] == positions@[j]);
                assert(has_duplicate(positions@));
            }
        }
    }
    handles
}

/// The collection contents after writing `values[k]` at `positions[k]`, one
/// position after the other from left to right.
pub open spec fn write_all<T>(s: Seq<T>, positions: Seq<usize>, values: Seq<T>) -> Seq<T>
    decreases positions.len(),
{
    if positions.len() == 0 {
        s
    } else {
        write_all(
            s.update(positions[0] as int, values[0]),
            positions.drop_first(),
            values.drop_first(),
        )
    }
}

/// Whether `q` is one of the requested positions.
pub open spec fn is_target(positions: Seq<usize>, q: int) -> bool {
    exists|k: int| 0 <= k < positions.len() && positions[k] == q
}

/// Disjointness law: writing through handles whose targets are pairwise
/// distinct and in bounds loses and duplicates nothing.  Every written
/// position holds exactly the value written for it, every other position is
/// untouched, and the length never changes — so the outcome is the same as
/// updating the collection directly at those positions, and (because the
/// outcome is pinned for every cell) the same whatever order the writes
/// happen in.
pub proof fn lemma_disjoint_writes<T>(s: Seq<T>, positions: Seq<usize>, values: Seq<T>)
    requires
        positions.len() == values.len(),
        all_in_bounds(s.len(), positions),
        !has_duplicate(positions),
    ensures
        write_all(s, positions, values).len() == s.len(),
        forall|k: int|
            0 <= k < positions.len() ==> write_all(s, positions, values)[positions[k] as int]
                == values[k],
        forall|q: int|
            0 <= q < s.len() && !is_target(positions, q) ==> write_all(s, positions, values)[q]
                == s[q],
    decreases positions.len(),
{
    if positions.len() > 0 {
        let s1 = s.update(positions[0] as int, values[0]);
        let ptail = positions.drop_first();
        let vtail = values.drop_first();
        assert(forall|k: int| 0 <= k < ptail.len() ==> ptail[k] == positions[k + 1]);
        assert(!has_duplicate(ptail)) by {
            if has_duplicate(ptail) {
                let (i, j) = choose|i: int, j: int|
                    0 <= i < j < ptail.len() && ptail[i] == ptail[j];
                assert(positions[i + 1] == positions[j + 1]);
            }
        }
        lemma_disjoint_writes(s1, ptail, vtail);
        assert(!is_target(ptail, positions[0] as int)) by {
            if is_target(ptail, positions[0] as int) {
                let k = choose|k: int|
                    0 <= k < ptail.len() && ptail[k] == positions[0] as int;
                assert(positions[k + 1] == positions[0]);
            }
        }
        assert forall|k: int|
            0 <= k < positions.len() implies write_all(s, positions, values)[positions[k] as int]
            == values[k] by {
            if k == 0 {
                assert(write_all(s, positions, values) == write_all(s1, ptail, vtail));
                assert(write_all(s1, ptail, vtail)[positions[0] as int] == s1[positions[0] as int]);
            } else {
                assert(ptail[k - 1] == positions[k] && vtail[k - 1] == values[k]);
            }
        }
        assert forall|q: int|
            0 <= q < s.len() && !is_target(positions, q) implies write_all(s, positions, values)[q]
            == s[q] by {
            assert(!is_target(ptail, q)) by {
                if is_target(ptail, q) {
                    let k = choose|k: int| 0 <= k < ptail.len() && ptail[k] == q;
                    assert(positions[k + 1] == q);
                }
            }
            assert(positions[0] != q);
            assert(write_all(s1, ptail, vtail)[q] == s1[q]);
        }
    }
}

/// Two writes at distinct positions commute: the collection ends up the same
/// whichever happens first.
pub proof fn lemma_writes_commute<T>(s: Seq<T>, p: int, q: int, a: T, b: T)
    requires
        0 <= p < s.len(),
        0 <= q < s.len(),
        p != q,
    ensures
        s.update(p, a).update(q, b) == s.update(q, b).update(p, a),
{
    assert(s.update(p, a).update(q, b) =~= s.update(q, b).update(p, a));
}

} // verus!
