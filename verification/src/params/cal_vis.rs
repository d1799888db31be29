//! The visibilities that calibration works on.

use vstd::prelude::*;

use super::cubes::{
    in_shape, vis_cells, vis_shape, weight_cells, weight_shape, Shape, VisCube, VisJones, WeightCube,
};
use super::input::Polarisations;
use crate::binary64::{Binary64, ONE_BITS, ZERO_BITS};

verus! {

/// Visibilities for calibration.
#[derive(Debug)]
pub struct CalVis {
    /// Visibilites read from input data.
    pub vis_data: VisCube,

    /// The weights on the visibilites read from input data.
    pub vis_weights: WeightCube,

    /// Visibilites generated from the sky-model source list.
    pub vis_model: VisCube,

    /// The available polarisations within the data.
    pub pols: Polarisations,
}

/// The Jones matrix of zeros.
pub open spec fn zero_jones() -> Seq<u32> {
    Seq::new(8, |i: int| 0u32)
}

/// The weights of the baselines, where they are given.
pub open spec fn weights_view(baseline_weights: Option<&Vec<Binary64>>) -> Option<Seq<Binary64>> {
    match baseline_weights {
        Some(w) => Some(w@),
        None => None,
    }
}

/// The weight of a baseline; all weigh the same where none are given.
pub open spec fn baseline_weight(baseline_weights: Option<Seq<Binary64>>, b: int) -> Binary64 {
    match baseline_weights {
        Some(w) => w[b],
        None => Binary64 { bits: ONE_BITS },
    }
}

/// Is `after` the visibility `before` under `weight`? One whose weight is at most
/// 0 is flagged: it becomes zero.
pub open spec fn weighted<S: Fn(VisJones, Binary64) -> VisJones>(
    scale: S,
    weight: Binary64,
    before: VisJones,
    after: VisJones,
) -> bool {
    if weight.spec_at_most(Binary64 { bits: ZERO_BITS }) {
        after@ == zero_jones()
    } else {
        scale.ensures((before, weight), after)
    }
}

impl CalVis {
    /// Data, weights and model have the same shape.
    pub open spec fn wf(self) -> bool {
        &&& vis_shape(self.vis_data) == vis_shape(self.vis_model)
        &&& vis_shape(self.vis_data) == weight_shape(self.vis_weights)
    }

    /// These visibilities, with other polarisations.
    pub open spec fn with_pols(self, pols: Polarisations) -> CalVis {
        CalVis {
            vis_data: self.vis_data,
            vis_weights: self.vis_weights,
            vis_model: self.vis_model,
            pols,
        }
    }

    /// Is cell (t, c, b) of `self` that cell of `before`, multiplied by its
    /// weights?
    pub open spec fn scaled_cell<
        P: Fn(u32, Binary64) -> Binary64,
        S: Fn(VisJones, Binary64) -> VisJones,
    >(
        self,
        before: CalVis,
        baseline_weights: Option<Seq<Binary64>>,
        product: P,
        scale: S,
        t: int,
        c: int,
        b: int,
    ) -> bool {
        exists|weight: Binary64|
            {
                &&& product.ensures(
                    (
                        weight_cells(before.vis_weights)[(t, c, b)],
                        baseline_weight(baseline_weights, b),
                    ),
                    weight,
                )
                &&& #[trigger] weighted(
                    scale,
                    weight,
                    vis_cells(before.vis_data)[(t, c, b)],
                    vis_cells(self.vis_data)[(t, c, b)],
                )
                &&& weighted(
                    scale,
                    weight,
                    vis_cells(before.vis_model)[(t, c, b)],
                    vis_cells(self.vis_model)[(t, c, b)],
                )
            }
    }

    /// Are these the visibilities of `before`, multiplied by their weights?
    pub open spec fn scaled_from<
        P: Fn(u32, Binary64) -> Binary64,
        S: Fn(VisJones, Binary64) -> VisJones,
    >(
        self,
        before: CalVis,
        baseline_weights: Option<Seq<Binary64>>,
        product: P,
        scale: S,
    ) -> bool {
        &&& self.wf()
        &&& vis_shape(self.vis_data) == vis_shape(before.vis_data)
        &&& self.vis_weights == before.vis_weights
        &&& self.pols == before.pols
        &&& forall|t: int, c: int, b: int| #[trigger]
            in_shape(vis_shape(before.vis_data), t, c, b) ==> self.scaled_cell(
                before,
                baseline_weights,
                product,
                scale,
                t,
                c,
                b,
            )
    }

    /// Multiply the data and model visibilities by the weights (and baseline
    /// weights that could be e.g. based on UVW cuts). If a weight is negative,
    /// it means the corresponding visibility should be flagged, so that
    /// visibility is set to 0; this means it does not affect calibration. Not
    /// iterating over weights during calibration makes makes calibration run
    /// significantly faster.
    ///
    /// `product` multiplies the weight of a visibility by that of its baseline,
    /// and `scale` multiplies a visibility by a weight.
    pub fn scale_by_weights<
        P: Fn(u32, Binary64) -> Binary64,
        S: Fn(VisJones, Binary64) -> VisJones,
    >(&mut self, baseline_weights: Option<&Vec<Binary64>>, product: &P, scale: &S)
        requires
            old(self).wf(),
            baseline_weights matches Some(w) ==> w@.len() == vis_shape(old(self).vis_data).2,
            forall|w: u32, b: Binary64| #[trigger] product.requires((w, b)),
            forall|v: VisJones, w: Binary64| #[trigger] scale.requires((v, w)),
        ensures
            final(self).scaled_from(
                *old(self),
                weights_view(baseline_weights),
                *product,
                *scale,
            ),
    {
        let (timesteps, channels, baselines) = self.vis_data.shape();
        let ghost before = *self;
        let ghost shape = vis_shape(self.vis_data);
        let ghost weights = weights_view(baseline_weights);
        let mut t: usize = 0;
        while t < timesteps
            invariant
                shape == (timesteps, channels, baselines),
                t <= timesteps,
                weights == weights_view(baseline_weights),
                weights matches Some(w) ==> w.len() == baselines,
                forall|w: u32, b: Binary64| #[trigger] product.requires((w, b)),
                forall|v: VisJones, w: Binary64| #[trigger] scale.requires((v, w)),
                before.wf(),
                vis_shape(before.vis_data) == shape,
                scaled_up_to(*self, before, shape, weights, *product, *scale, t as int, 0, 0),
            decreases timesteps - t,
        {
            let mut c: usize = 0;
            while c < channels
                invariant
                    shape == (timesteps, channels, baselines),
                    t < timesteps,
                    c <= channels,
                    weights == weights_view(baseline_weights),
                    weights matches Some(w) ==> w.len() == baselines,
                    forall|w: u32, b: Binary64| #[trigger] product.requires((w, b)),
                    forall|v: VisJones, w: Binary64| #[trigger] scale.requires((v, w)),
                    before.wf(),
                    vis_shape(before.vis_data) == shape,
                    scaled_up_to(
                        *self,
                        before,
                        shape,
                        weights,
                        *product,
                        *scale,
                        t as int,
                        c as int,
                        0,
                    ),
                decreases channels - c,
            {
                let mut b: usize = 0;
                while b < baselines
                    invariant
                        shape == (timesteps, channels, baselines),
                        t < timesteps,
                        c < channels,
                        b <= baselines,
                        weights == weights_view(baseline_weights),
                        weights matches Some(w) ==> w.len() == baselines,
                        forall|w: u32, b: Binary64| #[trigger] product.requires((w, b)),
                        forall|v: VisJones, w: Binary64| #[trigger] scale.requires((v, w)),
                        before.wf(),
                        vis_shape(before.vis_data) == shape,
                        scaled_up_to(
                            *self,
                            before,
                            shape,
                            weights,
                            *product,
                            *scale,
                            t as int,
                            c as int,
                            b as int,
                        ),
                    decreases baselines - b,
                {
                    let ghost middle = *self;
                    let own: Binary64 = match baseline_weights {
                        Some(w) => w[b],
                        None => Binary64::from_bits(ONE_BITS),
                    };
                    assert(own == baseline_weight(weights, b as int));
                    let weight: Binary64 = product(self.vis_weights.cell(t, c, b), own);
                    let data: VisJones = apply_weight(scale, weight, self.vis_data.cell(t, c, b));
                    let model: VisJones = apply_weight(
                        scale,
                        weight,
                        self.vis_model.cell(t, c, b),
                    );
                    self.vis_data.set_cell(t, c, b, data);
                    self.vis_model.set_cell(t, c, b, model);
                    proof {
                        assert(in_shape(shape, t as int, c as int, b as int));
                        assert(weighted(
                            *scale,
                            weight,
                            vis_cells(before.vis_data)[(t as int, c as int, b as int)],
                            vis_cells(self.vis_data)[(t as int, c as int, b as int)],
                        ));
                        lemma_one_more_scaled(
                            middle,
                            *self,
                            before,
                            shape,
                            weights,
                            *product,
                            *scale,
                            (t as int, c as int, b as int),
                        );
                    }
                    b = b + 1;
                }
                c = c + 1;
            }
            t = t + 1;
        }
    }
}

/// `n` weights of one.
pub open spec fn ones(n: nat) -> Seq<Binary64> {
    Seq::new(n, |i: int| Binary64 { bits: ONE_BITS })
}

/// To give no baseline weights means that all of them are one.
pub proof fn lemma_no_weights_are_ones<
    P: Fn(u32, Binary64) -> Binary64,
    S: Fn(VisJones, Binary64) -> VisJones,
>(before: CalVis, after: CalVis, product: P, scale: S)
    ensures
        after.scaled_from(before, None, product, scale) <==> after.scaled_from(
            before,
            Some(ones(vis_shape(before.vis_data).2 as nat)),
            product,
            scale,
        ),
{
    let weights = Some(ones(vis_shape(before.vis_data).2 as nat));
    assert forall|t: int, c: int, b: int| #[trigger]
        in_shape(vis_shape(before.vis_data), t, c, b) implies after.scaled_cell(
        before,
        None,
        product,
        scale,
        t,
        c,
        b,
    ) == after.scaled_cell(before, weights, product, scale, t, c, b) by {
        assert(baseline_weight(None, b) == baseline_weight(weights, b));
    }
}

fn apply_weight<S: Fn(VisJones, Binary64) -> VisJones>(
    scale: &S,
    weight: Binary64,
    value: VisJones,
) -> (r: VisJones)
    requires
        scale.requires((value, weight)),
    ensures
        weighted(*scale, weight, value, r),
{
    if weight.at_most(Binary64::from_bits(ZERO_BITS)) {
        let zero: VisJones = [0; 8];
        assert(zero@ =~= zero_jones());
        zero
    } else {
        scale(value, weight)
    }
}

/// Does the first index come before the second?
spec fn earlier(i: (int, int, int), j: (int, int, int)) -> bool {
    i.0 < j.0 || (i.0 == j.0 && (i.1 < j.1 || (i.1 == j.1 && i.2 < j.2)))
}

/// The cells before an index have been scaled, and the others not yet.
spec fn scaled_up_to<P: Fn(u32, Binary64) -> Binary64, S: Fn(VisJones, Binary64) -> VisJones>(
    now: CalVis,
    before: CalVis,
    shape: Shape,
    weights: Option<Seq<Binary64>>,
    product: P,
    scale: S,
    t0: int,
    c0: int,
    b0: int,
) -> bool {
    &&& now.wf()
    &&& vis_shape(now.vis_data) == shape
    &&& now.vis_weights == before.vis_weights
    &&& now.pols == before.pols
    &&& forall|t: int, c: int, b: int| #[trigger]
        in_shape(shape, t, c, b) ==> if earlier((t, c, b), (t0, c0, b0)) {
            now.scaled_cell(before, weights, product, scale, t, c, b)
        } else {
            &&& vis_cells(now.vis_data)[(t, c, b)] == vis_cells(before.vis_data)[(t, c, b)]
            &&& vis_cells(now.vis_model)[(t, c, b)] == vis_cells(before.vis_model)[(t, c, b)]
        }
}

proof fn lemma_one_more_scaled<
    P: Fn(u32, Binary64) -> Binary64,
    S: Fn(VisJones, Binary64) -> VisJones,
>(
    middle: CalVis,
    now: CalVis,
    before: CalVis,
    shape: Shape,
    weights: Option<Seq<Binary64>>,
    product: P,
    scale: S,
    i: (int, int, int),
)
    requires
        scaled_up_to(middle, before, shape, weights, product, scale, i.0, i.1, i.2),
        now.wf(),
        vis_shape(now.vis_data) == shape,
        now.vis_weights == before.vis_weights,
        now.pols == before.pols,
        vis_cells(now.vis_data) == vis_cells(middle.vis_data).insert(
            i,
            vis_cells(now.vis_data)[i],
        ),
        vis_cells(now.vis_model) == vis_cells(middle.vis_model).insert(
            i,
            vis_cells(now.vis_model)[i],
        ),
        now.scaled_cell(before, weights, product, scale, i.0, i.1, i.2),
    ensures
        scaled_up_to(now, before, shape, weights, product, scale, i.0, i.1, i.2 + 1),
{
    assert forall|t: int, c: int, b: int| #[trigger] in_shape(shape, t, c, b) implies if earlier(
        (t, c, b),
        (i.0, i.1, i.2 + 1),
    ) {
        now.scaled_cell(before, weights, product, scale, t, c, b)
    } else {
        &&& vis_cells(now.vis_data)[(t, c, b)] == vis_cells(before.vis_data)[(t, c, b)]
        &&& vis_cells(now.vis_model)[(t, c, b)] == vis_cells(before.vis_model)[(t, c, b)]
    } by {
        let j = (t, c, b);
        if j != i {
            assert(vis_cells(now.vis_data)[j] == vis_cells(middle.vis_data)[j]);
            assert(vis_cells(now.vis_model)[j] == vis_cells(middle.vis_model)[j]);
            if earlier(j, i) {
                assert(middle.scaled_cell(before, weights, product, scale, t, c, b));
                let weight = choose|weight: Binary64|
                    {
                        &&& product.ensures(
                            (
                                weight_cells(before.vis_weights)[j],
                                baseline_weight(weights, b),
                            ),
                            weight,
                        )
                        &&& #[trigger] weighted(
                            scale,
                            weight,
                            vis_cells(before.vis_data)[j],
                            vis_cells(middle.vis_data)[j],
                        )
                        &&& weighted(
                            scale,
                            weight,
                            vis_cells(before.vis_model)[j],
                            vis_cells(middle.vis_model)[j],
                        )
                    };
                assert(weighted(
                    scale,
                    weight,
                    vis_cells(before.vis_data)[j],
                    vis_cells(now.vis_data)[j],
                ));
            }
        }
    }
}

} // verus!
