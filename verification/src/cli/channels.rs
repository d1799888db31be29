//! Frequency channels.

use vec1::Vec1;
use vstd::prelude::*;

use crate::binary64::Binary64;
use crate::non_empty::{quantities_as_vec, quantities_of, quantities_try_from_vec};

verus! {

/// Are both numbers, and the same?
pub open spec fn same(a: Binary64, b: Binary64) -> bool {
    a.spec_at_most(b) && b.spec_at_most(a)
}

/// The quantities without those that equal the one before them.
pub open spec fn without_repeats(all: Seq<Binary64>) -> Seq<Binary64>
    decreases all.len(),
{
    if all.len() == 0 {
        seq![]
    } else {
        let before = without_repeats(all.drop_last());
        if before.len() > 0 && same(before.last(), all.last()) {
            before
        } else {
            before.push(all.last())
        }
    }
}

/// Remove quantities that equal the one before them.
pub fn dedup(all: &Vec<Binary64>) -> (r: Vec<Binary64>)
    ensures
        r@ == without_repeats(all@),
{
    let mut r: Vec<Binary64> = Vec::new();
    let mut i: usize = 0;
    while i < all.len()
        invariant
            i <= all@.len(),
            r@ == without_repeats(all@.subrange(0, i as int)),
        decreases all@.len() - i,
    {
        assert(all@.subrange(0, i + 1).drop_last() =~= all@.subrange(0, i as int));
        let value: Binary64 = all[i];
        let len: usize = r.len();
        if !(len > 0 && r[len - 1].at_most(value) && value.at_most(r[len - 1])) {
            r.push(value);
        }
        i = i + 1;
    }
    assert(all@.subrange(0, all@.len() as int) =~= all@);
    r
}

/// Is each quantity at most all that come after it?
pub open spec fn sorted(all: Seq<Binary64>) -> bool {
    forall|i: int, j: int| 0 <= i <= j < all.len() ==> (#[trigger] all[i]).spec_at_most(
        #[trigger] all[j],
    )
}

/// Without repeats, sorted quantities are all different: each is below all that
/// come after it. None is lost.
pub proof fn lemma_without_repeats_of_sorted(all: Seq<Binary64>)
    requires
        sorted(all),
    ensures
        forall|i: int, j: int|
            0 <= i < j < without_repeats(all).len() ==> (#[trigger] without_repeats(
                all,
            )[i]).spec_below(#[trigger] without_repeats(all)[j]),
        forall|i: int|
            0 <= i < all.len() ==> exists|k: int|
                0 <= k < without_repeats(all).len() && same(
                    #[trigger] without_repeats(all)[k],
                    #[trigger] all[i],
                ),
        all.len() > 0 ==> same(without_repeats(all).last(), all.last()) && without_repeats(
            all,
        ).len() > 0,
    decreases all.len(),
{
    if all.len() > 0 {
        let init = all.drop_last();
        let before = without_repeats(init);
        let after = without_repeats(all);
        assert forall|i: int, j: int| 0 <= i <= j < init.len() implies (
        #[trigger] init[i]).spec_at_most(#[trigger] init[j]) by {
            assert(all[i].spec_at_most(all[j]));
        }
        lemma_without_repeats_of_sorted(init);
        assert(all[all.len() - 1].spec_at_most(all[all.len() - 1]));
        if init.len() > 0 {
            assert(all[init.len() - 1].spec_at_most(all[all.len() - 1]));
            assert(before.last().spec_at_most(all.last()));
        }
        assert forall|i: int, j: int| 0 <= i < j < after.len() implies (
        #[trigger] after[i]).spec_below(#[trigger] after[j]) by {
            if j < before.len() {
                assert(before[i].spec_below(before[j]));
            } else if before.len() > 0 {
                assert(i <= before.len() - 1);
                assert(before[i].spec_at_most(before[before.len() - 1]));
            }
        }
        assert forall|i: int| 0 <= i < all.len() implies exists|k: int|
            0 <= k < after.len() && same(#[trigger] after[k], #[trigger] all[i]) by {
            if i < init.len() {
                assert(init[i] == all[i]);
                let k = choose|k: int|
                    0 <= k < before.len() && same(#[trigger] before[k], #[trigger] init[i]);
                assert(after[k] == before[k]);
                assert(same(after[k], all[i]));
            } else {
                assert(same(after[after.len() - 1], all[i]));
            }
        }
    }
}

/// The frequencies of `num_fine_channels` channels, as `channel` has them. There
/// has to be one.
pub fn fine_channels<C: Fn(usize) -> Binary64>(num_fine_channels: usize, channel: &C) -> (r: Option<
    Vec1<Binary64>,
>)
    requires
        forall|i: usize| i < num_fine_channels ==> #[trigger] channel.requires((i,)),
    ensures
        match r {
            None => num_fine_channels == 0,
            Some(freqs) => {
                &&& num_fine_channels > 0
                &&& quantities_of(freqs).len() == num_fine_channels
                &&& forall|i: int|
                    0 <= i < num_fine_channels ==> channel.ensures(
                        (i as usize,),
                        #[trigger] quantities_of(freqs)[i],
                    )
            },
        },
{
    let mut freqs: Vec<Binary64> = Vec::new();
    let mut i: usize = 0;
    while i < num_fine_channels
        invariant
            i <= num_fine_channels,
            forall|i: usize| i < num_fine_channels ==> #[trigger] channel.requires((i,)),
            freqs@.len() == i,
            forall|k: int|
                0 <= k < i ==> channel.ensures((k as usize,), #[trigger] freqs@[k]),
        decreases num_fine_channels - i,
    {
        freqs.push(channel(i));
        i = i + 1;
    }
    match quantities_try_from_vec(freqs) {
        Ok(list) => Some(list),
        Err(_) => None,
    }
}

/// The coarse channel of each fine channel, as `coarse` has it.
pub open spec fn coarse_of<R: Fn(Binary64) -> Binary64>(
    fine: Seq<Binary64>,
    coarse: R,
    all: Seq<Binary64>,
) -> bool {
    &&& all.len() == fine.len()
    &&& forall|i: int| 0 <= i < all.len() ==> coarse.ensures((fine[i],), #[trigger] all[i])
}

/// Are these the coarse channels that the fine channels are in, without repeats?
pub open spec fn groups<R: Fn(Binary64) -> Binary64>(
    fine: Seq<Binary64>,
    coarse: R,
    channels: Seq<Binary64>,
) -> bool {
    exists|all: Seq<Binary64>|
        #[trigger] coarse_of(fine, coarse, all) && channels == without_repeats(all)
}

/// The coarse channels that the fine channels are in, without repeats.
pub fn coarse_channels<R: Fn(Binary64) -> Binary64>(fine: &Vec1<Binary64>, coarse: &R) -> (r: Vec<
    Binary64,
>)
    requires
        forall|f: Binary64| #[trigger] coarse.requires((f,)),
    ensures
        groups(quantities_of(*fine), *coarse, r@),
{
    let freqs: &Vec<Binary64> = quantities_as_vec(fine);
    let mut all: Vec<Binary64> = Vec::new();
    let mut i: usize = 0;
    while i < freqs.len()
        invariant
            i <= freqs@.len(),
            forall|f: Binary64| #[trigger] coarse.requires((f,)),
            all@.len() == i,
            forall|k: int| 0 <= k < i ==> coarse.ensures((freqs@[k],), #[trigger] all@[k]),
        decreases freqs@.len() - i,
    {
        all.push(coarse(freqs[i]));
        i = i + 1;
    }
    assert(coarse_of(quantities_of(*fine), *coarse, all@));
    dedup(&all)
}

} // verus!
