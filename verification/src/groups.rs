use crate::errors::TryIndicesError;
use crate::handles::Handle;
use crate::validate::all_in_bounds;
use crate::validate::has_duplicate;
use crate::validate::unordered_outcome;
use crate::validate::validate_unordered;
use vstd::prelude::*;

verus! {

/// The views of the position lists of every group.
pub open spec fn group_views(groups: Seq<Vec<usize>>) -> Seq<Seq<usize>> {
    groups.map_values(|g: Vec<usize>| g@)
}

/// The union of all groups' positions, group after group, each group in its
/// own order.  Multi-group validation runs on this one combined list, so a
/// duplicate across two groups is rejected like a duplicate within one.
pub open spec fn combined_positions(groups: Seq<Vec<usize>>) -> Seq<usize> {
    group_views(groups).flatten()
}

/// Where group `g` starts within the flattened sequence.
spec fn flat_offset<A>(gs: Seq<Seq<A>>, g: int) -> int
    decreases g,
{
    if g <= 0 {
        0
    } else {
        gs.first().len() + flat_offset(gs.drop_first(), g - 1)
    }
}

/// Element `k` of group `g` appears in the flattened sequence at the group's
/// offset plus `k`.
proof fn lemma_flatten_index<A>(gs: Seq<Seq<A>>, g: int, k: int)
    requires
        0 <= g < gs.len(),
        0 <= k < gs[g].len(),
    ensures
        0 <= flat_offset(gs, g),
        flat_offset(gs, g) + k < gs.flatten().len(),
        gs.flatten()[flat_offset(gs, g) + k] == gs[g][k],
    decreases g,
{
    assert(gs.flatten() == gs.first() + gs.drop_first().flatten());
    if g > 0 {
        lemma_flatten_index(gs.drop_first(), g - 1, k);
        assert(gs.drop_first()[g - 1] == gs[g]);
    }
}

/// Each group's offset advances by exactly that group's length.
proof fn lemma_flat_offset_step<A>(gs: Seq<Seq<A>>, g: int)
    requires
        0 <= g < gs.len(),
    ensures
        flat_offset(gs, g + 1) == flat_offset(gs, g) + gs[g].len(),
    decreases g,
{
    if g == 0 {
        assert(flat_offset(gs.drop_first(), 0) == 0);
        assert(flat_offset(gs, 1) == gs.first().len() + flat_offset(gs.drop_first(), 0));
    } else {
        lemma_flat_offset_step(gs.drop_first(), g - 1);
        assert(gs.drop_first()[g - 1] == gs[g]);
        assert(flat_offset(gs, g + 1) == gs.first().len() + flat_offset(gs.drop_first(), g));
        assert(flat_offset(gs, g) == gs.first().len() + flat_offset(gs.drop_first(), g - 1));
    }
}

/// Offsets never decrease from one group to a later one.
proof fn lemma_flat_offset_mono<A>(gs: Seq<Seq<A>>, g1: int, g2: int)
    requires
        0 <= g1 <= g2 <= gs.len(),
    ensures
        flat_offset(gs, g1) <= flat_offset(gs, g2),
    decreases g2 - g1,
{
    if g1 < g2 {
        lemma_flat_offset_step(gs, g2 - 1);
        lemma_flat_offset_mono(gs, g1, g2 - 1);
    }
}

/// Distinct (group, slot) pairs land on distinct flattened indices.
proof fn lemma_flat_index_injective<A>(gs: Seq<Seq<A>>, g1: int, k1: int, g2: int, k2: int)
    requires
        0 <= g1 < gs.len(),
        0 <= k1 < gs[g1].len(),
        0 <= g2 < gs.len(),
        0 <= k2 < gs[g2].len(),
        g1 != g2 || k1 != k2,
    ensures
        flat_offset(gs, g1) + k1 != flat_offset(gs, g2) + k2,
{
    if g1 < g2 {
        lemma_flat_offset_step(gs, g1);
        lemma_flat_offset_mono(gs, g1 + 1, g2);
    } else if g2 < g1 {
        lemma_flat_offset_step(gs, g2);
        lemma_flat_offset_mono(gs, g2 + 1, g1);
    }
}

/// Copies every group's positions into one combined list.
fn collect_combined(groups: &Vec<Vec<usize>>) -> (combined: Vec<usize>)
    ensures
        combined@ == combined_positions(groups@),
{
    let mut combined: Vec<usize> = Vec::new();
    let n = groups.len();
    let mut g: usize = 0;
    while g < n
        invariant
            0 <= g <= n,
            n == groups@.len(),
            combined@ == combined_positions(groups@.subrange(0, g as int)),
        decreases n - g,
    {
        let group = &groups[g];
        let m = group.len();
        let mut k: usize = 0;
        while k < m
            invariant
                0 <= k <= m,
                0 <= g < n,
                n == groups@.len(),
                m == groups@[g as int]@.len(),
                combined@ == combined_positions(groups@.subrange(0, g as int))
                    + groups@[g as int]@.subrange(0, k as int),
            decreases m - k,
        {
            combined.push(groups[g][k]);
            proof {
                assert(groups@[g as int]@.subrange(0, k + 1 as int) =~= groups@[g as int]@.subrange(
                    0,
                    k as int,
                ).push(groups@[g as int]@[k as int]));
                assert(combined@ =~= combined_positions(groups@.subrange(0, g as int))
                    + groups@[g as int]@.subrange(0, k + 1 as int));
            }
            k = k + 1;
        }
        proof {
            assert(groups@[g as int]@.subrange(0, m as int) =~= groups@[g as int]@);
            assert(group_views(groups@.subrange(0, g + 1 as int)) =~= group_views(
                groups@.subrange(0, g as int),
            ).push(groups@[g as int]@));
            group_views(groups@.subrange(0, g as int)).lemma_flatten_push(groups@[g as int]@);
        }
        g = g + 1;
    }
    proof {
        assert(groups@.subrange(0, n as int) =~= groups@);
    }
    combined
}

/// One list of handles per group: handle `k` of list `g` targets position `k`
/// of group `g`, and no two handles — of one group or of two different groups
/// — target the same cell.  The union of all groups must be pairwise distinct
/// and in bounds.
pub fn indices_slices<T>(collection: &Vec<T>, groups: &Vec<Vec<usize>>) -> (handle_groups: Vec<
    Vec<Handle>,
>)
    requires
        all_in_bounds(collection@.len(), combined_positions(groups@)),
        !has_duplicate(combined_positions(groups@)),
    ensures
        handle_groups@.len() == groups@.len(),
        forall|g: int|
            0 <= g < groups@.len() ==> handle_groups@[g]@.len() == groups@[g]@.len(),
        forall|g: int, k: int|
            0 <= g < groups@.len() && 0 <= k < groups@[g]@.len()
                ==> handle_groups@[g]@[k].target() == groups@[g]@[k],
        forall|g: int, k: int|
            0 <= g < groups@.len() && 0 <= k < groups@[g]@.len()
                ==> (handle_groups@[g]@[k].target() as nat) < collection@.len(),
        forall|g1: int, k1: int, g2: int, k2: int|
            0 <= g1 < groups@.len() && 0 <= k1 < groups@[g1]@.len() && 0 <= g2 < groups@.len() && 0
                <= k2 < groups@[g2]@.len() && (g1 != g2 || k1 != k2)
                ==> handle_groups@[g1]@[k1].target() != handle_groups@[g2]@[k2].target(),
{
    match try_indices_slices(collection, groups) {
        Ok(handle_groups) => handle_groups,
        Err(_) => vstd::pervasive::unreached(),
    }
}

/// Fallible form of [`indices_slices`]: reports what unordered-mode
/// validation decides for the combined positions instead of demanding them
/// valid up front.
pub fn try_indices_slices<T>(collection: &Vec<T>, groups: &Vec<Vec<usize>>) -> (r: Result<
    Vec<Vec<Handle>>,
    TryIndicesError,
>)
    ensures
        match r {
            Ok(handle_groups) => {
                &&& unordered_outcome(collection@.len(), combined_positions(groups@)) == Ok::<
                    (),
                    TryIndicesError,
                >(())
                &&& handle_groups@.len() == groups@.len()
                &&& forall|g: int|
                    0 <= g < groups@.len() ==> handle_groups@[g]@.len() == groups@[g]@.len()
                &&& forall|g: int, k: int|
                    0 <= g < groups@.len() && 0 <= k < groups@[g]@.len()
                        ==> handle_groups@[g]@[k].target() == groups@[g]@[k]
                &&& forall|g: int, k: int|
                    0 <= g < groups@.len() && 0 <= k < groups@[g]@.len()
                        ==> (handle_groups@[g]@[k].target() as nat) < collection@.len()
                &&& forall|g1: int, k1: int, g2: int, k2: int|
                    0 <= g1 < groups@.len() && 0 <= k1 < groups@[g1]@.len() && 0 <= g2
                        < groups@.len() && 0 <= k2 < groups@[g2]@.len() && (g1 != g2 || k1 != k2)
                        ==> handle_groups@[g1]@[k1].target() != handle_groups@[g2]@[k2].target()
            },
            Err(e) => unordered_outcome(collection@.len(), combined_positions(groups@)) == Err::<
                (),
                TryIndicesError,
            >(e),
        },
{
    let combined = collect_combined(groups);
    match validate_unordered(collection.len(), &combined) {
        Ok(()) => {},
        Err(e) => {
            return Err(e);
        },
    }
    let n = groups.len();
    let mut handle_groups: Vec<Vec<Handle>> = Vec::new();
    let mut g: usize = 0;
    while g < n
        invariant
            0 <= g <= n,
            n == groups@.len(),
            handle_groups@.len() == g,
            forall|m: int|
                0 <= m < g ==> handle_groups@[m]@.len() == groups@[m]@.len(),
            forall|m: int, k: int|
                0 <= m < g && 0 <= k < groups@[m]@.len() ==> handle_groups@[m]@[k].target()
                    == groups@[m]@[k],
        decreases n - g,
    {
        let group = &groups[g];
        let m = group.len();
        let mut current: Vec<Handle> = Vec::new();
        let mut k: usize = 0;
        while k < m
            invariant
                0 <= k <= m,
                0 <= g < n,
                n == groups@.len(),
                m == groups@[g as int]@.len(),
                current@.len() == k,
                forall|kk: int|
                    0 <= kk < k ==> current@[kk].target() == groups@[g as int]@[kk],
            decreases m - k,
        {
            current.push(Handle::at(groups[g][k]));
            k = k + 1;
        }
        handle_groups.push(current);
        g = g + 1;
    }
    proof {
        let gv = group_views(groups@);
        let combined_view = combined_positions(groups@);
        assert forall|g: int, k: int|
            0 <= g < groups@.len() && 0 <= k < groups@[g]@.len() implies (handle_groups@[g]@[
            k
        ].target() as nat) < collection@.len() by {
            lemma_flatten_index(gv, g, k);
            assert(combined_view[flat_offset(gv, g) + k] == groups@[g]@[k]);
        }
        assert forall|g1: int, k1: int, g2: int, k2: int|
            0 <= g1 < groups@.len() && 0 <= k1 < groups@[g1]@.len() && 0 <= g2 < groups@.len() && 0
                <= k2 < groups@[g2]@.len() && (g1 != g2 || k1 != k2) implies handle_groups@[g1]@[
            k1
        ].target() != handle_groups@[g2]@[k2].target() by {
            lemma_flatten_index(gv, g1, k1);
            lemma_flatten_index(gv, g2, k2);
            lemma_flat_index_injective(gv, g1, k1, g2, k2);
            let n1 = flat_offset(gv, g1) + k1;
            let n2 = flat_offset(gv, g2) + k2;
            if combined_view[n1] == combined_view[n2] {
                if n1 < n2 {
                    assert(has_duplicate(combined_view));
                } else {
                    assert(has_duplicate(combined_view));
                }
            }
        }
    }
    Ok(handle_groups)
}

} // verus!
