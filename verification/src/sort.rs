use vstd::prelude::*;

verus! {

/// Every element of `s` is at most every later element.
pub open spec fn sorted(s: Seq<usize>) -> bool {
    forall|i: int, j: int| 0 <= i <= j < s.len() ==> s[i] <= s[j]
}

/// Exchanging two elements of a sequence does not change its multiset.
proof fn lemma_swap_preserves_multiset(s: Seq<usize>, i: int, j: int)
    requires
        0 <= i < s.len(),
        0 <= j < s.len(),
    ensures
        s.update(i, s[j]).update(j, s[i]).to_multiset() == s.to_multiset(),
{
    broadcast use vstd::seq_lib::group_to_multiset_ensures;

    if i == j {
        assert(s.update(i, s[j]).update(j, s[i]) =~= s);
    } else {
        let t = s.update(i, s[j]);
        assert(t[j] == s[j]);
        assert(t.to_multiset() == s.to_multiset().insert(s[j]).remove(s[i]));
        assert(t.update(j, s[i]).to_multiset() == t.to_multiset().insert(s[i]).remove(s[j]));
        assert(s.to_multiset().count(s[i]) > 0);
        assert(s.update(i, s[j]).update(j, s[i]).to_multiset() =~= s.to_multiset());
    }
}

/// Sorts the elements ascending, in place, by straight insertion.
pub fn insertion_sort(s: &mut Vec<usize>)
    ensures
        sorted(final(s)@),
        final(s)@.to_multiset() == old(s)@.to_multiset(),
        final(s)@.len() == old(s)@.len(),
{
    broadcast use vstd::seq_lib::group_to_multiset_ensures;

    let n = s.len();
    if n < 2 {
        return ;
    }
    let mut i: usize = 1;
    while i < n
        invariant
            1 <= i <= n,
            n == s@.len(),
            s@.to_multiset() == old(s)@.to_multiset(),
            forall|a: int, b: int| 0 <= a <= b < i ==> s@[a] <= s@[b],
        decreases n - i,
    {
        let mut j: usize = i;
        while j > 0 && s[j - 1] > s[j]
            invariant
                0 <= j <= i < n,
                n == s@.len(),
                s@.to_multiset() == old(s)@.to_multiset(),
                forall|a: int, b: int| 0 <= a <= b <= i && b != j ==> s@[a] <= s@[b],
            decreases j,
        {
            let x = s[j - 1];
            let y = s[j];
            let ghost before = s@;
            s[j - 1] = y;
            s[j] = x;
            proof {
                assert(s@ == before.update(j - 1, before[j as int]).update(
                    j as int,
                    before[j - 1],
                ));
                lemma_swap_preserves_multiset(before, j - 1, j as int);
                assert forall|a: int, b: int|
                    0 <= a <= b <= i && b != j - 1 implies s@[a] <= s@[b] by {
                    if b == j {
                        if a < j {
                            if a == j - 1 {
                                assert(s@[a] == before[j as int] && s@[b] == before[j - 1]);
                            } else {
                                assert(before[a] <= before[j - 1]);
                            }
                        }
                    } else {
                        if a == j - 1 {
                            assert(s@[a] == before[j as int] && before[j as int] <= before[b]);
                        } else if a == j {
                            assert(s@[a] == before[j - 1] && before[j - 1] <= before[b]);
                        } else {
                            assert(before[a] <= before[b]);
                        }
                    }
                }
            }
            j = j - 1;
        }
        proof {
            assert forall|a: int, b: int| 0 <= a <= b <= i implies s@[a] <= s@[b] by {
                if b == j && a < b {
                    assert(s@[a] <= s@[j - 1]);
                    assert(s@[j - 1] <= s@[j as int]);
                }
            }
        }
        i = i + 1;
    }
}

} // verus!
