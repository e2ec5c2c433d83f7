//! Choosing providers one at a time without choosing any twice.

use vstd::prelude::*;

verus! {

/// The smaller of two counts.
pub open spec fn min_count(a: nat, b: nat) -> nat {
    if a <= b {
        a
    } else {
        b
    }
}

/// Positions `0..n` in order.
fn positions(n: usize) -> (v: Vec<usize>)
    ensures
        v@.len() == n,
        forall|k: int| 0 <= k < n ==> v@[k] == k,
{
    let mut v: Vec<usize> = Vec::new();
    let mut i: usize = 0;
    while i < n
        invariant
            i <= n,
            v@.len() == i,
            forall|k: int| 0 <= k < i ==> v@[k] == k,
        decreases n - i,
    {
        v.push(i);
        i = i + 1;
    }
    v
}

/// The record of a draw: `pools[j]` is the pool handed to `pick` in round
/// `j` (the first holds `0..n` in order), `draws[j]` is what `pick` returned
/// for it, `chosen[j]` the position at that index, and the next pool is the
/// same pool with that index taken out.
pub open spec fn draw_trace<F: Fn(&Vec<usize>) -> usize>(
    pick: F,
    n: usize,
    pools: Seq<Vec<usize>>,
    draws: Seq<usize>,
    chosen: Seq<usize>,
) -> bool {
    &&& pools.len() == chosen.len() + 1
    &&& draws.len() == chosen.len()
    &&& pools[0]@ == Seq::new(n as nat, |i: int| i as usize)
    &&& forall|j: int|
        #![trigger draws[j]]
        0 <= j < chosen.len() ==> {
            &&& call_ensures(pick, (&pools[j],), draws[j])
            &&& draws[j] < pools[j]@.len()
            &&& chosen[j] == pools[j]@[draws[j] as int]
            &&& pools[j + 1]@ == pools[j]@.remove(draws[j] as int)
        }
}

/// Draws up to `count` of the positions `0..n` without replacement. Each
/// round hands `pick` the positions still in the pool, in their original
/// order, takes the position at the index `pick` returns out of the pool and
/// appends it to the result; drawing stops when `count` positions are drawn
/// or the pool is empty.
pub fn draw_without_replacement<F: Fn(&Vec<usize>) -> usize>(
    n: usize,
    count: usize,
    pick: F,
) -> (chosen: Vec<usize>)
    requires
        forall|pool: &Vec<usize>| pool@.len() > 0 ==> call_requires(pick, (pool,)),
        forall|pool: &Vec<usize>, r: usize|
            pool@.len() > 0 && call_ensures(pick, (pool,), r) ==> r < pool@.len(),
    ensures
        chosen@.len() == min_count(count as nat, n as nat),
        chosen@.no_duplicates(),
        forall|i: int| 0 <= i < chosen@.len() ==> chosen@[i] < n,
        exists|pools: Seq<Vec<usize>>, draws: Seq<usize>|
            draw_trace(pick, n, pools, draws, chosen@),
{
    let mut pool = positions(n);
    let mut chosen: Vec<usize> = Vec::new();
    assert(pool@.no_duplicates());
    let ghost mut pools: Seq<Vec<usize>> = seq![pool];
    let ghost mut draws: Seq<usize> = Seq::empty();
    assert(pools[0]@ =~= Seq::new(n as nat, |i: int| i as usize));
    while chosen.len() < count && pool.len() > 0
        invariant
            forall|p: &Vec<usize>| p@.len() > 0 ==> call_requires(pick, (p,)),
            forall|p: &Vec<usize>, r: usize|
                p@.len() > 0 && call_ensures(pick, (p,), r) ==> r < p@.len(),
            pool@.len() + chosen@.len() == n,
            chosen@.len() <= count,
            pool@.no_duplicates(),
            chosen@.no_duplicates(),
            forall|i: int, j: int|
                0 <= i < pool@.len() && 0 <= j < chosen@.len() ==> pool@[i] != chosen@[j],
            forall|i: int| 0 <= i < pool@.len() ==> pool@[i] < n,
            forall|i: int| 0 <= i < chosen@.len() ==> chosen@[i] < n,
            draw_trace(pick, n, pools, draws, chosen@),
            pools.last() == pool,
        decreases pool@.len(),
    {
        let idx = pick(&pool);
        let ghost old_pool = pool@;
        let ghost old_vec = pool;
        let ghost old_chosen = chosen@;
        let ghost old_pools = pools;
        let ghost old_draws = draws;
        let x = pool.remove(idx);
        chosen.push(x);
        proof {
            pools = pools.push(pool);
            draws = draws.push(idx);
            assert forall|j: int| #![trigger draws[j]] 0 <= j < chosen@.len() implies {
                &&& call_ensures(pick, (&pools[j],), draws[j])
                &&& draws[j] < pools[j]@.len()
                &&& chosen@[j] == pools[j]@[draws[j] as int]
                &&& pools[j + 1]@ == pools[j]@.remove(draws[j] as int)
            } by {
                if j < old_chosen.len() {
                    assert(old_draws[j] == draws[j]);
                    assert(old_pools[j] == pools[j]);
                    assert(old_pools[j + 1] == pools[j + 1]);
                    assert(chosen@[j] == old_chosen[j]);
                } else {
                    assert(j == old_chosen.len());
                    assert(pools[j] == old_vec);
                    assert(draws[j] == idx);
                }
            }
        }
        assert forall|i: int, j: int|
            0 <= i < pool@.len() && 0 <= j < pool@.len() && i != j implies pool@[i] != pool@[j] by {
            let a = if i < idx { i } else { i + 1 };
            let b = if j < idx { j } else { j + 1 };
            assert(pool@[i] == old_pool[a]);
            assert(pool@[j] == old_pool[b]);
        }
        assert forall|i: int, j: int|
            0 <= i < chosen@.len() && 0 <= j < chosen@.len() && i != j implies chosen@[i]
            != chosen@[j] by {
            if i < old_chosen.len() && j < old_chosen.len() {
                assert(chosen@[i] == old_chosen[i]);
                assert(chosen@[j] == old_chosen[j]);
            } else if i < old_chosen.len() {
                assert(chosen@[j] == old_pool[idx as int]);
                assert(chosen@[i] == old_chosen[i]);
            } else {
                assert(chosen@[i] == old_pool[idx as int]);
                assert(chosen@[j] == old_chosen[j]);
            }
        }
        assert forall|i: int, j: int|
            0 <= i < pool@.len() && 0 <= j < chosen@.len() implies pool@[i] != chosen@[j] by {
            let a = if i < idx { i } else { i + 1 };
            assert(pool@[i] == old_pool[a]);
            if j < old_chosen.len() {
                assert(chosen@[j] == old_chosen[j]);
            } else {
                assert(chosen@[j] == old_pool[idx as int]);
            }
        }
        assert forall|i: int| 0 <= i < pool@.len() implies pool@[i] < n by {
            let a = if i < idx { i } else { i + 1 };
            assert(pool@[i] == old_pool[a]);
        }
        assert forall|i: int| 0 <= i < chosen@.len() implies chosen@[i] < n by {
            if i < old_chosen.len() {
                assert(chosen@[i] == old_chosen[i]);
            }
        }
    }
    assert(draw_trace(pick, n, pools, draws, chosen@));
    chosen
}

} // verus!
