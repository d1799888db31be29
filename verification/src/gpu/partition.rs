//! Sharing baselines out over devices.

use vstd::arithmetic::div_mod::lemma_fundamental_div_mod;
use vstd::prelude::*;

verus! {

/// How many devices get work: extra devices beyond the baselines are unused.
pub open spec fn shard_total(num_baselines: nat, num_devices: nat) -> nat {
    if num_devices <= num_baselines {
        num_devices
    } else {
        num_baselines
    }
}

/// The number of baselines in shard `k` of `total`: an even share, and one of
/// the left-over baselines for each of the first shards.
pub open spec fn shard_count(num_baselines: nat, total: nat, k: nat) -> nat {
    num_baselines / total + if k < num_baselines % total {
        1nat
    } else {
        0nat
    }
}

/// The first baseline of shard `k` of `total`.
pub open spec fn shard_offset(num_baselines: nat, total: nat, k: nat) -> nat {
    k * (num_baselines / total) + if k < num_baselines % total {
        k
    } else {
        num_baselines % total
    }
}

/// The shards as `(device, offset, count)`, in the order of the devices.
pub open spec fn shards(num_baselines: usize, devices: Seq<i32>) -> Seq<(i32, usize, usize)> {
    let total = shard_total(num_baselines as nat, devices.len());
    Seq::new(
        total,
        |k: int|
            (
                devices[k],
                shard_offset(num_baselines as nat, total, k as nat) as usize,
                shard_count(num_baselines as nat, total, k as nat) as usize,
            ),
    )
}

/// Does shard `shard` hold baseline `baseline`?
pub open spec fn holds(shard: (i32, usize, usize), baseline: int) -> bool {
    shard.1 <= baseline < shard.1 + shard.2
}

/// Shards follow one another without gaps or overlaps, and end at the last
/// baseline.
proof fn lemma_offsets(num_baselines: nat, total: nat, k: nat)
    requires
        0 < total <= num_baselines,
        k <= total,
    ensures
        shard_offset(num_baselines, total, 0) == 0,
        shard_offset(num_baselines, total, total) == num_baselines,
        k < total ==> shard_offset(num_baselines, total, k + 1) == shard_offset(
            num_baselines,
            total,
            k,
        ) + shard_count(num_baselines, total, k),
        shard_offset(num_baselines, total, k) <= num_baselines,
        k < total ==> 1 <= shard_count(num_baselines, total, k) <= num_baselines,
        k < total ==> shard_offset(num_baselines, total, k) + shard_count(
            num_baselines,
            total,
            k,
        ) <= num_baselines,
{
    let base = num_baselines / total;
    let rem = num_baselines % total;
    lemma_fundamental_div_mod(num_baselines as int, total as int);
    assert(num_baselines == total * base + rem);
    assert(base >= 1) by (nonlinear_arith)
        requires
            num_baselines == total * base + rem,
            rem < total,
            total <= num_baselines,
    ;
    assert((k + 1) * base == k * base + base) by (nonlinear_arith);
    assert(0 * base == 0);
    if k < total {
        assert((k + 1) * base <= total * base) by (nonlinear_arith)
            requires
                k + 1 <= total,
        ;
    }
    assert(k * base <= total * base) by (nonlinear_arith)
        requires
            k <= total,
    ;
}

/// Partition `num_baselines` into contiguous shards, one per device.
///
/// Returns `(device_id, baseline_offset, baseline_count)` triples. Empty input
/// yields an empty vec. Extra devices beyond `num_baselines` are unused.
pub fn partition_baselines_across_devices(num_baselines: usize, devices: &[i32]) -> (out: Vec<
    (i32, usize, usize),
>)
    ensures
        out@ == shards(num_baselines, devices@),
{
    let mut out: Vec<(i32, usize, usize)> = Vec::new();
    if num_baselines == 0 || devices.len() == 0 {
        assert(out@ =~= shards(num_baselines, devices@));
        return out;
    }
    let n_shards: usize = if devices.len() <= num_baselines {
        devices.len()
    } else {
        num_baselines
    };
    let base: usize = num_baselines / n_shards;
    let rem: usize = num_baselines % n_shards;
    let mut offset: usize = 0;
    let mut i: usize = 0;
    proof {
        lemma_offsets(num_baselines as nat, n_shards as nat, 0);
    }
    while i < n_shards
        invariant
            0 < n_shards <= num_baselines,
            n_shards <= devices@.len(),
            n_shards == shard_total(num_baselines as nat, devices@.len()),
            base == num_baselines as nat / n_shards as nat,
            rem == num_baselines as nat % n_shards as nat,
            i <= n_shards,
            offset == shard_offset(num_baselines as nat, n_shards as nat, i as nat),
            out@ =~= shards(num_baselines, devices@).subrange(0, i as int),
        decreases n_shards - i,
    {
        proof {
            lemma_offsets(num_baselines as nat, n_shards as nat, i as nat);
        }
        let count: usize = base + if i < rem {
            1
        } else {
            0
        };
        out.push((devices[i], offset, count));
        offset = offset + count;
        i = i + 1;
    }
    out
}

/// The shards cover the baselines: they are numbered from 0, each is non-empty,
/// each starts where the one before it ends, and the last one ends at the last
/// baseline. There is one per device, in the order of the devices, as far as
/// there are baselines.
pub proof fn lemma_shards_are_contiguous(num_baselines: usize, devices: Seq<i32>)
    requires
        num_baselines > 0,
        devices.len() > 0,
    ensures
        ({
            let s = shards(num_baselines, devices);
            &&& s.len() == shard_total(num_baselines as nat, devices.len())
            &&& s.len() > 0
            &&& s[0].1 == 0
            &&& s[s.len() - 1].1 + s[s.len() - 1].2 == num_baselines
            &&& forall|k: int|
                #![trigger s[k]]
                0 <= k < s.len() ==> s[k].0 == devices[k] && s[k].2 >= 1
            &&& forall|k: int, j: int|
                #![trigger s[k], s[j]]
                0 <= k < s.len() && j == k + 1 && j < s.len() ==> s[k].1 + s[k].2 == s[j].1
        }),
{
    let s = shards(num_baselines, devices);
    let total = shard_total(num_baselines as nat, devices.len());
    lemma_offsets(num_baselines as nat, total, 0);
    lemma_offsets(num_baselines as nat, total, (total - 1) as nat);
    assert forall|k: int| #![trigger s[k]] 0 <= k < s.len() implies s[k].0 == devices[k] && s[k].2
        >= 1 by {
        lemma_offsets(num_baselines as nat, total, k as nat);
    }
    assert forall|k: int, j: int|
        #![trigger s[k], s[j]]
        0 <= k < s.len() && j == k + 1 && j < s.len() implies s[k].1 + s[k].2 == s[j].1 by {
        lemma_offsets(num_baselines as nat, total, k as nat);
        lemma_offsets(num_baselines as nat, total, j as nat);
    }
}

/// Every baseline lies in exactly one shard.
pub proof fn lemma_each_baseline_in_one_shard(num_baselines: usize, devices: Seq<i32>, baseline: int)
    requires
        0 <= baseline < num_baselines,
        devices.len() > 0,
    ensures
        exists|k: int|
            0 <= k < shards(num_baselines, devices).len() && holds(
                #[trigger] shards(num_baselines, devices)[k],
                baseline,
            ),
        forall|k: int, j: int|
            0 <= k < shards(num_baselines, devices).len() && 0 <= j < shards(
                num_baselines,
                devices,
            ).len() && holds(#[trigger] shards(num_baselines, devices)[k], baseline) && holds(
                #[trigger] shards(num_baselines, devices)[j],
                baseline,
            ) ==> k == j,
{
    let s = shards(num_baselines, devices);
    lemma_shards_are_contiguous(num_baselines, devices);
    let k = lemma_find_shard(num_baselines, devices, baseline, s.len() as int);
    assert(holds(s[k], baseline));
    assert forall|k: int, j: int|
        0 <= k < s.len() && 0 <= j < s.len() && holds(#[trigger] s[k], baseline) && holds(
            #[trigger] s[j],
            baseline,
        ) implies k == j by {
        if k < j {
            lemma_shards_in_order(num_baselines, devices, k, j);
        }
        if j < k {
            lemma_shards_in_order(num_baselines, devices, j, k);
        }
    }
}

/// A baseline before the end of the first `n` shards lies in one of them.
proof fn lemma_find_shard(num_baselines: usize, devices: Seq<i32>, baseline: int, n: int) -> (k: int)
    requires
        0 <= baseline,
        devices.len() > 0,
        num_baselines > 0,
        1 <= n <= shards(num_baselines, devices).len(),
        baseline < shards(num_baselines, devices)[n - 1].1 + shards(num_baselines, devices)[n
            - 1].2,
    ensures
        0 <= k < n,
        holds(shards(num_baselines, devices)[k], baseline),
    decreases n,
{
    let s = shards(num_baselines, devices);
    lemma_shards_are_contiguous(num_baselines, devices);
    if s[n - 1].1 <= baseline {
        n - 1
    } else {
        assert(s[n - 2].1 + s[n - 2].2 == s[n - 1].1);
        lemma_find_shard(num_baselines, devices, baseline, n - 1)
    }
}

/// A later shard starts no earlier than an earlier one ends.
proof fn lemma_shards_in_order(num_baselines: usize, devices: Seq<i32>, k: int, j: int)
    requires
        num_baselines > 0,
        devices.len() > 0,
        0 <= k < j < shards(num_baselines, devices).len(),
    ensures
        shards(num_baselines, devices)[k].1 + shards(num_baselines, devices)[k].2 <= shards(
            num_baselines,
            devices,
        )[j].1,
    decreases j,
{
    let s = shards(num_baselines, devices);
    lemma_shards_are_contiguous(num_baselines, devices);
    if k < j - 1 {
        lemma_shards_in_order(num_baselines, devices, k, j - 1);
        assert(s[j - 1].1 + s[j - 1].2 == s[j].1);
    } else {
        assert(s[k].1 + s[k].2 == s[j].1);
    }
}

/// The work is balanced: no shard holds over one baseline more than another,
/// and the larger shards come first.
pub proof fn lemma_shards_are_balanced(num_baselines: usize, devices: Seq<i32>, k: int, j: int)
    requires
        0 <= k <= j < shards(num_baselines, devices).len(),
    ensures
        shards(num_baselines, devices)[j].2 <= shards(num_baselines, devices)[k].2 <= shards(
            num_baselines,
            devices,
        )[j].2 + 1,
{
    let total = shard_total(num_baselines as nat, devices.len());
    lemma_offsets(num_baselines as nat, total, k as nat);
    lemma_offsets(num_baselines as nat, total, j as nat);
}

} // verus!
