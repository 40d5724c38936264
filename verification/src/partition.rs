//! Partitioning a fixed amount of work across workers.
//!
//! The total transaction count is split into equal per-worker shares by
//! ceiling division, so the workers together produce at least the total,
//! and overshoot it by at most one share's rounding: `workers - 1`.
//! Worker results are concatenated in worker-index order, never in
//! completion order, with each worker's internal sequence preserved.

use vstd::prelude::*;
use vstd::arithmetic::div_mod::lemma_fundamental_div_mod;

verus! {

/// The per-worker share: the total divided by the workers, rounded up.
pub open spec fn spec_share(total: nat, workers: nat) -> nat
    recommends
        workers >= 1,
{
    (((total + workers - 1) as int) / (workers as int)) as nat
}

/// The share times the workers covers the total, and overshoots it by
/// less than one worker's worth.
pub proof fn lemma_share_bounds(total: nat, workers: nat)
    requires
        workers >= 1,
    ensures
        total <= spec_share(total, workers) * workers,
        spec_share(total, workers) * workers <= total + workers - 1,
{
    let sum: int = (total + workers - 1) as int;
    let w: int = workers as int;
    let q: int = sum / w;
    lemma_fundamental_div_mod(sum, w);
    assert(sum == w * q + sum % w);
    assert(0 <= sum % w < w);
    assert(spec_share(total, workers) * workers == w * q) by (nonlinear_arith)
        requires
            spec_share(total, workers) == q,
            w == workers as int,
            q >= 0,
    ;
}

/// Computes the per-worker share by ceiling division.
pub fn work_per_worker(total: usize, workers: usize) -> (share: usize)
    requires
        1 <= workers,
        total + workers - 1 <= usize::MAX,
    ensures
        share == spec_share(total as nat, workers as nat),
        total <= share * workers,
        share * workers <= total + workers - 1,
{
    let sum: usize = total + (workers - 1);
    let share: usize = sum / workers;
    proof {
        lemma_share_bounds(total as nat, workers as nat);
    }
    share
}

/// The flattening of uniformly sized batches has their combined length.
pub proof fn lemma_flatten_len_uniform<A>(batches: Seq<Seq<A>>, k: nat)
    requires
        forall|i: int| 0 <= i < batches.len() ==> (#[trigger] batches[i]).len() == k,
    ensures
        batches.flatten().len() == batches.len() * k,
    decreases batches.len(),
{
    if batches.len() == 0 {
    } else {
        let rest = batches.drop_first();
        assert forall|i: int| 0 <= i < rest.len() implies (#[trigger] rest[i]).len() == k by {
            assert(rest[i] == batches[i + 1]);
        }
        lemma_flatten_len_uniform(rest, k);
        assert(batches.len() * k == k + (batches.len() - 1) * k) by (nonlinear_arith);
    }
}

/// Partition coverage: when every one of `workers` batches holds exactly
/// one share, the concatenation holds at least the requested total and
/// at most `workers - 1` more.
pub proof fn lemma_partition_coverage<A>(batches: Seq<Seq<A>>, total: nat, workers: nat)
    requires
        workers >= 1,
        batches.len() == workers,
        forall|i: int|
            0 <= i < batches.len() ==> (#[trigger] batches[i]).len() == spec_share(
                total,
                workers,
            ),
    ensures
        total <= batches.flatten().len(),
        batches.flatten().len() <= total + workers - 1,
{
    let share = spec_share(total, workers);
    lemma_flatten_len_uniform(batches, share);
    lemma_share_bounds(total, workers);
    assert(workers * share == share * workers) by (nonlinear_arith);
}

/// Order preservation: in the concatenation of uniformly sized batches,
/// batch `i` stands exactly at offset `i` times the share, with its
/// internal order intact.
pub proof fn lemma_order_preservation<A>(batches: Seq<Seq<A>>, k: nat)
    requires
        forall|i: int| 0 <= i < batches.len() ==> (#[trigger] batches[i]).len() == k,
    ensures
        forall|i: int|
            0 <= i < batches.len() ==> #[trigger] batches.flatten().subrange(
                i * (k as int),
                i * (k as int) + (k as int),
            ) == batches[i],
    decreases batches.len(),
{
    lemma_flatten_len_uniform(batches, k);
    if batches.len() > 0 {
        let first = batches.first();
        let rest = batches.drop_first();
        assert forall|i: int| 0 <= i < rest.len() implies (#[trigger] rest[i]).len() == k by {
            assert(rest[i] == batches[i + 1]);
        }
        lemma_order_preservation(rest, k);
        lemma_flatten_len_uniform(rest, k);
        assert(batches.flatten() == first + rest.flatten());
        assert forall|i: int|
            0 <= i < batches.len() implies #[trigger] batches.flatten().subrange(
            i * (k as int),
            i * (k as int) + (k as int),
        ) == batches[i] by {
            let flat = batches.flatten();
            let ki: int = k as int;
            if i == 0 {
                assert(flat.subrange(0, ki) =~= first);
            } else {
                assert(i * ki == (i - 1) * ki + ki) by (nonlinear_arith);
                assert((i - 1) * ki >= 0 && (i - 1) * ki + ki <= rest.len() * ki)
                    by (nonlinear_arith)
                    requires
                        1 <= i <= rest.len(),
                        ki >= 0,
                ;
                assert(rest.flatten().subrange((i - 1) * ki, (i - 1) * ki + ki) == rest[i - 1]);
                assert(flat.subrange(i * ki, i * ki + ki) =~= rest.flatten().subrange(
                    (i - 1) * ki,
                    (i - 1) * ki + ki,
                ));
                assert(rest[i - 1] == batches[i]);
            }
        }
    }
}

/// Concatenates worker result batches in worker-index order, preserving
/// each batch's internal order: the result is exactly the flattening of
/// the batches.
pub fn concat_worker_results<A>(batches: Vec<Vec<A>>) -> (out: Vec<A>)
    ensures
        out@ == batches@.map_values(|b: Vec<A>| b@).flatten(),
{
    let ghost orig: Seq<Seq<A>> = batches@.map_values(|b: Vec<A>| b@);
    let mut rest = batches;
    let mut out: Vec<A> = Vec::new();
    while rest.len() > 0
        invariant
            orig == batches@.map_values(|b: Vec<A>| b@),
            out@ + rest@.map_values(|b: Vec<A>| b@).flatten() == orig.flatten(),
        decreases rest@.len(),
    {
        let ghost prev_rest = rest@;
        let ghost prev_out = out@;
        let mut b = rest.remove(0);
        let ghost bv = b@;
        out.append(&mut b);
        proof {
            let f = |b: Vec<A>| b@;
            assert(rest@ =~= prev_rest.drop_first());
            assert(prev_rest.map_values(f).drop_first() =~= rest@.map_values(f));
            assert(prev_rest.map_values(f).first() == f(prev_rest[0]));
            assert(prev_rest.map_values(f).first() == bv);
            assert(prev_rest.map_values(f).flatten() == bv + rest@.map_values(f).flatten());
            assert((prev_out + bv) + rest@.map_values(f).flatten() =~= prev_out + (bv + rest@.map_values(
                f,
            ).flatten()));
        }
    }
    proof {
        assert(rest@.map_values(|b: Vec<A>| b@) =~= Seq::<Seq<A>>::empty());
        assert(out@ + Seq::<A>::empty() =~= out@);
    }
    out
}

} // verus!
