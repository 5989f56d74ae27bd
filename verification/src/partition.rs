//! The static partition plan: the discovered modules are dealt out to
//! `procs * threads` workers as contiguous index ranges of one uniform
//! chunk size, the final worker absorbing the division remainder, so the
//! ranges cover `[0, total)` exactly once.
use vstd::prelude::*;

use vstd::arithmetic::div_mod::{lemma_fundamental_div_mod, lemma_mod_bound};
use vstd::arithmetic::mul::lemma_mul_inequality;

verus! {

/// The range of module indices worker `k` owns, out of `shards` workers.
pub open spec fn shard_range(k: int, total: int, shards: int) -> (int, int)
    recommends
        shards >= 1,
{
    let c = total / shards;
    (k * c, if k == shards - 1 {
        total
    } else {
        (k + 1) * c
    })
}

/// A plan is the sequence of all workers' ranges.
pub open spec fn is_plan(r: Seq<(usize, usize)>, total: int, shards: int) -> bool {
    &&& r.len() == shards
    &&& forall|k: int|
        0 <= k < shards ==> ((#[trigger] r[k]).0 == shard_range(k, total, shards).0 && r[k].1
            == shard_range(k, total, shards).1)
}

/// Deal `total` module indices out to `procs * threads` workers.
#[verifier::loop_isolation(false)]
pub fn partition_plan(total: usize, procs: usize, threads: usize) -> (r: Vec<(usize, usize)>)
    requires
        procs >= 1,
        threads >= 1,
        procs * threads <= usize::MAX,
    ensures
        is_plan(r@, total as int, procs as int * threads as int),
{
    proof {
        lemma_mul_inequality(1, procs as int, threads as int);
    }
    let shards = procs * threads;
    let c = total / shards;
    proof {
        lemma_fundamental_div_mod(total as int, shards as int);
        lemma_mod_bound(total as int, shards as int);
    }
    let mut out: Vec<(usize, usize)> = Vec::new();
    let mut k: usize = 0;
    while k < shards
        invariant
            out@.len() == k,
            0 <= k <= shards,
            forall|j: int|
                0 <= j < k ==> ((#[trigger] out@[j]).0 == shard_range(
                    j,
                    total as int,
                    shards as int,
                ).0 && out@[j].1 == shard_range(j, total as int, shards as int).1),
        decreases shards - k,
    {
        proof {
            lemma_mul_inequality(k as int, shards as int, c as int);
            lemma_mul_inequality(k as int + 1, shards as int, c as int);
        }
        let start = k * c;
        let end = if k == shards - 1 {
            total
        } else {
            (k + 1) * c
        };
        out.push((start, end));
        k += 1;
    }
    out
}

/// The plan covers `[0, total)` exactly once: ranges are contiguous from
/// `0` to `total`, every index falls in one range, indices in one range
/// fall in no later range, and the final worker's range is the uniform
/// chunk plus the remainder.
pub proof fn lemma_plan_covers(r: Seq<(usize, usize)>, total: int, shards: int)
    requires
        shards >= 1,
        total >= 0,
        is_plan(r, total, shards),
    ensures
        r[0].0 == 0,
        r[shards - 1].1 == total,
        forall|k: int| 0 <= k < shards - 1 ==> (#[trigger] r[k]).1 == r[k + 1].0,
        forall|k: int| 0 <= k < shards ==> (#[trigger] r[k]).0 <= r[k].1,
        forall|k1: int, k2: int|
            0 <= k1 < k2 < shards ==> (#[trigger] r[k1]).1 <= (#[trigger] r[k2]).0,
        r[shards - 1].1 - r[shards - 1].0 == total / shards + total % shards,
{
    let c = total / shards;
    lemma_fundamental_div_mod(total, shards);
    lemma_mod_bound(total, shards);
    assert(c >= 0) by {
        if c < 0 {
            lemma_mul_inequality(c, -1, shards);
        }
    }
    assert(forall|k: int| 0 <= k < shards - 1 ==> (#[trigger] r[k]).1 == r[k + 1].0);
    assert forall|k1: int, k2: int| 0 <= k1 < k2 < shards implies (#[trigger] r[k1]).1 <= (
    #[trigger] r[k2]).0 by {
        lemma_mul_inequality(k1 + 1, k2, c);
        if k2 == shards - 1 {
            lemma_mul_inequality(k2, shards, c);
        }
    }
    assert forall|k: int| 0 <= k < shards implies (#[trigger] r[k]).0 <= r[k].1 by {
        lemma_mul_inequality(k, k + 1, c);
        if k == shards - 1 {
            lemma_mul_inequality(k, shards, c);
        }
    }
    assert((shards - 1) * c + c == shards * c) by {
        vstd::arithmetic::mul::lemma_mul_is_distributive_sub_other_way(c, shards, 1);
    }
}

/// Each module index falls inside some worker's range.
pub proof fn lemma_plan_covers_index(r: Seq<(usize, usize)>, total: int, shards: int, i: int)
    requires
        shards >= 1,
        total >= 0,
        is_plan(r, total, shards),
        0 <= i < total,
    ensures
        exists|k: int| 0 <= k < shards && (#[trigger] r[k]).0 <= i < r[k].1,
{
    let c = total / shards;
    lemma_fundamental_div_mod(total, shards);
    lemma_mod_bound(total, shards);
    assert(c >= 0) by {
        if c < 0 {
            lemma_mul_inequality(c, -1, shards);
        }
    }
    if c == 0 {
        assert(r[shards - 1].0 == (shards - 1) * 0);
        assert((shards - 1) * 0 == 0) by {
            lemma_mul_inequality(shards - 1, shards - 1, 0);
        }
        assert(r[shards - 1].0 <= i < r[shards - 1].1);
    } else {
        let q = i / c;
        lemma_fundamental_div_mod(i, c);
        lemma_mod_bound(i, c);
        vstd::arithmetic::mul::lemma_mul_is_commutative(c, q);
        vstd::arithmetic::mul::lemma_mul_is_distributive_add(c, q, 1);
        vstd::arithmetic::mul::lemma_mul_is_commutative(c, q + 1);
        assert(q >= 0) by {
            if q < 0 {
                lemma_mul_inequality(q, -1, c);
            }
        }
        if q < shards - 1 {
            assert(r[q].0 <= i < r[q].1);
        } else {
            lemma_mul_inequality(shards - 1, q, c);
            assert(r[shards - 1].0 <= i < r[shards - 1].1);
        }
    }
}

} // verus!
