//! Aggregate neural-risk summary over the seven fixed risk axes.

use vstd::arithmetic::div_mod::{lemma_div_nonincreasing, lemma_div_pos_is_pos};
use vstd::prelude::*;

use crate::MAG;
use crate::SCALE;

verus! {

/// Normalized risk coordinates along the seven monitored axes.
#[derive(Clone, Copy, Debug)]
pub struct BeeRiskCoords {
    pub r_rf: i64,
    pub r_noise: i64,
    pub r_vib: i64,
    pub r_thermal: i64,
    pub r_light: i64,
    pub r_chem: i64,
    pub r_sigma: i64,
}

/// Weights of the seven axes and the decision thresholds.
#[derive(Clone, Copy, Debug)]
pub struct BeeRiskWeights {
    pub w_rf: i64,
    pub w_noise: i64,
    pub w_vib: i64,
    pub w_thermal: i64,
    pub w_light: i64,
    pub w_chem: i64,
    pub w_sigma: i64,
    pub v_safe: i64,
    pub v_crit: i64,
    pub r_hard: i64,
}

/// Weighted potential, worst coordinate, and the derived safety verdict.
#[derive(Clone, Copy, Debug)]
pub struct BeeRiskSummary {
    pub v_bee: i64,
    pub max_r: i64,
    pub bee_neural_safe: bool,
}

pub open spec fn pos_part(x: int) -> int {
    if x > 0 {
        x
    } else {
        0
    }
}

/// Quadratic contribution of one axis to the potential.
pub open spec fn axis_term(rv: int, wv: int) -> int {
    wv * pos_part(rv) * pos_part(rv) / ((SCALE as int) * (SCALE as int))
}

/// The weighted potential over all seven axes.
pub open spec fn v_bee_of(r: BeeRiskCoords, w: BeeRiskWeights) -> int {
    axis_term(r.r_rf as int, w.w_rf as int) + axis_term(r.r_noise as int, w.w_noise as int)
        + axis_term(r.r_vib as int, w.w_vib as int) + axis_term(
        r.r_thermal as int,
        w.w_thermal as int,
    ) + axis_term(r.r_light as int, w.w_light as int) + axis_term(
        r.r_chem as int,
        w.w_chem as int,
    ) + axis_term(r.r_sigma as int, w.w_sigma as int)
}

pub open spec fn max2(a: int, b: int) -> int {
    if b > a {
        b
    } else {
        a
    }
}

/// The worst positive coordinate over all seven axes.
pub open spec fn max_r_of(r: BeeRiskCoords) -> int {
    max2(
        max2(
            max2(
                max2(
                    max2(
                        max2(max2(0, pos_part(r.r_rf as int)), pos_part(r.r_noise as int)),
                        pos_part(r.r_vib as int),
                    ),
                    pos_part(r.r_thermal as int),
                ),
                pos_part(r.r_light as int),
            ),
            pos_part(r.r_chem as int),
        ),
        pos_part(r.r_sigma as int),
    )
}

pub open spec fn coords_bounded(r: BeeRiskCoords) -> bool {
    &&& -MAG <= r.r_rf <= MAG
    &&& -MAG <= r.r_noise <= MAG
    &&& -MAG <= r.r_vib <= MAG
    &&& -MAG <= r.r_thermal <= MAG
    &&& -MAG <= r.r_light <= MAG
    &&& -MAG <= r.r_chem <= MAG
    &&& -MAG <= r.r_sigma <= MAG
}

pub open spec fn weights_bounded(w: BeeRiskWeights) -> bool {
    &&& 0 <= w.w_rf <= MAG
    &&& 0 <= w.w_noise <= MAG
    &&& 0 <= w.w_vib <= MAG
    &&& 0 <= w.w_thermal <= MAG
    &&& 0 <= w.w_light <= MAG
    &&& 0 <= w.w_chem <= MAG
    &&& 0 <= w.w_sigma <= MAG
}

/// One axis term is nonnegative and bounded by the axis weight scaled with
/// the squared coordinate bound.
pub proof fn lemma_axis_term_bounds(rv: int, wv: int)
    requires
        -MAG <= rv <= MAG,
        0 <= wv <= MAG,
    ensures
        0 <= axis_term(rv, wv) <= MAG * (MAG as int) * (MAG as int),
{
    let p = pos_part(rv);
    assert(0 <= wv * p * p <= MAG * (MAG as int) * (MAG as int)) by (nonlinear_arith)
        requires
            0 <= p <= MAG,
            0 <= wv <= MAG,
            MAG == 1_000_000_000_000,
    ;
    lemma_div_pos_is_pos(wv * p * p, (SCALE as int) * (SCALE as int));
    lemma_div_nonincreasing(wv * p * p, (SCALE as int) * (SCALE as int));
}

/// Compute the weighted potential, the worst coordinate and the safety
/// verdict for one evaluation step.
pub fn compute_v_bee(r: &BeeRiskCoords, w: &BeeRiskWeights) -> (s: BeeRiskSummary)
    requires
        coords_bounded(*r),
        weights_bounded(*w),
        v_bee_of(*r, *w) <= i64::MAX,
    ensures
        s.v_bee == v_bee_of(*r, *w),
        s.v_bee >= 0,
        s.max_r == max_r_of(*r),
        s.bee_neural_safe == (s.v_bee <= w.v_safe && s.max_r <= w.r_hard),
{
    proof {
        lemma_axis_term_bounds(r.r_rf as int, w.w_rf as int);
        lemma_axis_term_bounds(r.r_noise as int, w.w_noise as int);
        lemma_axis_term_bounds(r.r_vib as int, w.w_vib as int);
        lemma_axis_term_bounds(r.r_thermal as int, w.w_thermal as int);
        lemma_axis_term_bounds(r.r_light as int, w.w_light as int);
        lemma_axis_term_bounds(r.r_chem as int, w.w_chem as int);
        lemma_axis_term_bounds(r.r_sigma as int, w.w_sigma as int);
    }
    let t_rf = axis_term_exec(r.r_rf, w.w_rf);
    let t_noise = axis_term_exec(r.r_noise, w.w_noise);
    let t_vib = axis_term_exec(r.r_vib, w.w_vib);
    let t_thermal = axis_term_exec(r.r_thermal, w.w_thermal);
    let t_light = axis_term_exec(r.r_light, w.w_light);
    let t_chem = axis_term_exec(r.r_chem, w.w_chem);
    let t_sigma = axis_term_exec(r.r_sigma, w.w_sigma);
    let v_wide: i128 = t_rf + t_noise + t_vib + t_thermal + t_light + t_chem + t_sigma;
    let v: i64 = v_wide as i64;

    let mut max_r: i64 = 0;
    max_r = step_max(max_r, r.r_rf);
    max_r = step_max(max_r, r.r_noise);
    max_r = step_max(max_r, r.r_vib);
    max_r = step_max(max_r, r.r_thermal);
    max_r = step_max(max_r, r.r_light);
    max_r = step_max(max_r, r.r_chem);
    max_r = step_max(max_r, r.r_sigma);

    let bee_neural_safe = v <= w.v_safe && max_r <= w.r_hard;

    BeeRiskSummary { v_bee: v, max_r, bee_neural_safe }
}

fn axis_term_exec(rv: i64, wv: i64) -> (t: i128)
    requires
        -MAG <= rv <= MAG,
        0 <= wv <= MAG,
    ensures
        t == axis_term(rv as int, wv as int),
        0 <= t <= MAG * (MAG as int) * (MAG as int),
{
    proof {
        lemma_axis_term_bounds(rv as int, wv as int);
        let p = pos_part(rv as int);
        assert(0 <= (wv as int) * p <= MAG * (MAG as int)) by (nonlinear_arith)
            requires
                0 <= p <= MAG,
                0 <= wv <= MAG,
                MAG == 1_000_000_000_000,
        ;
        assert(0 <= (wv as int) * p * p <= MAG * (MAG as int) * (MAG as int)) by (nonlinear_arith)
            requires
                0 <= p <= MAG,
                0 <= (wv as int) * p <= MAG * (MAG as int),
                MAG == 1_000_000_000_000,
        ;
    }
    let pos: i128 = if rv > 0 {
        rv as i128
    } else {
        0
    };
    (wv as i128) * pos * pos / ((SCALE as i128) * (SCALE as i128))
}

fn step_max(acc: i64, rv: i64) -> (r: i64)
    requires
        acc >= 0,
    ensures
        r == max2(acc as int, pos_part(rv as int)),
        r >= 0,
{
    let pos: i64 = if rv > 0 {
        rv
    } else {
        0
    };
    if pos > acc {
        pos
    } else {
        acc
    }
}

/// Hard gate: emission is permitted exactly when the summary is safe.
pub fn permit_emission(summary: &BeeRiskSummary) -> (r: bool)
    ensures
        r == summary.bee_neural_safe,
{
    summary.bee_neural_safe
}

} // verus!
