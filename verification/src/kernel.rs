//! Emission-node safety kernel: corridor penalties, the penalized duty-cycle
//! update law, the "no corridor, no emission" permission, and the bounded
//! eco-impact score.

use vstd::arithmetic::div_mod::{
    lemma_div_is_ordered_by_denominator, lemma_div_multiples_vanish, lemma_div_nonincreasing,
    lemma_div_pos_is_pos, lemma_multiply_divide_le,
};
use vstd::arithmetic::mul::{
    lemma_mul_inequality, lemma_mul_is_commutative, lemma_mul_nonnegative,
};
use vstd::prelude::*;

use crate::clamp_unit;
use crate::clamp_unit_exec;
use crate::div_tz;
use crate::div_tz_exec;
use crate::MAG;
use crate::SCALE;

verus! {

/// Corridor kinds enforced by the node safety kernel.
#[derive(Clone, Copy, Debug, PartialEq, Eq, Hash, Structural)]
pub enum CorridorKind {
    EMF,
    Thermal,
    Acoustic,
    Chemical,
}

/// Envelope parameters for one corridor at a given point in space-time.
#[derive(Clone, Copy, Debug)]
pub struct CorridorEnvelope {
    pub kind: CorridorKind,
    /// Upper bound on the admissible level.
    pub l_max: i64,
    /// Lower bound on the admissible level, often zero.
    pub l_min: i64,
}

/// Habitat-relevant spatial context of a node.
#[derive(Clone, Copy, Debug)]
pub struct BeeContext {
    /// Sensitivity scalar, at least `SCALE` near hives.
    pub bee_sensitivity: i64,
    /// True when the node sits inside a strict no-emission bubble.
    pub in_hive_exclusion: bool,
    /// Vertical distance to the dominant flight band.
    pub dz_to_bee_band: i64,
}

/// Predicted level of one corridor at a node.
#[derive(Clone, Copy, Debug)]
pub struct PredictedLevels {
    pub kind: CorridorKind,
    pub level: i64,
}

/// Node state exposed to the safety kernel.
#[derive(Debug)]
pub struct NodeState {
    pub node_id: String,
    /// Proposed actuation intensity in `[0, SCALE]`.
    pub duty_cycle: i64,
    /// Pollutant mass removed in this interval.
    pub mass_removed_kg: i64,
    /// Hazard-weighted karma score for this interval.
    pub nano_karma_bytes: i64,
    /// Normalized power cost in `[0, SCALE]`.
    pub power_cost: i64,
    /// Base geospatial weight.
    pub cybo_weight: i64,
    pub bee_ctx: BeeContext,
    /// Predicted local levels for all corridors at the proposed duty cycle.
    pub predicted_levels: Vec<PredictedLevels>,
}

/// Scalar parameters governing corridor enforcement and the duty update.
#[derive(Clone, Copy, Debug)]
pub struct KernelParams {
    pub eta_mass: i64,
    pub eta_karma: i64,
    pub eta_geo: i64,
    pub eta_power: i64,
    pub eta_bee: i64,
    pub m_ref: i64,
    pub k_ref: i64,
    /// Reference corridor penalty, in millionths of a squared unit like the
    /// penalty itself.
    pub phi_ref: i64,
    pub alpha_z: i64,
    pub beta_s: i64,
}

/// Result of one kernel evaluation.
#[derive(Debug)]
pub struct KernelDecision {
    pub node_id: String,
    /// Updated, corridor-safe duty cycle in `[0, SCALE]`.
    pub safe_duty_cycle: i64,
    /// True iff emission is permitted under the current envelopes.
    pub permitted: bool,
    /// Sum of corridor penalties, scaled by the sensitivity factor.  Being
    /// quadratic, it is carried in millionths of a squared unit, and it is
    /// zero exactly when every matched level lies within its envelope.
    pub phi_penalty: i64,
    /// Habitat-weighted eco-impact score in `[0, SCALE]`.
    pub eco_impact_bee: i64,
}

/// Errors raised by the kernel.
#[derive(Clone, Copy, Debug, PartialEq, Eq, Structural)]
pub enum KernelError {
    NoEnvelopes,
    InvalidDutyCycle(i64),
}

/// Core safety kernel object: the corridor registry plus its parameters.
pub struct BeeSafetyKernel {
    pub envelopes: Vec<CorridorEnvelope>,
    pub params: KernelParams,
}

/// The first envelope registered for a corridor kind, if any.
pub open spec fn first_env_match(s: Seq<CorridorEnvelope>, kind: CorridorKind) -> Option<
    CorridorEnvelope,
>
    decreases s.len(),
{
    if s.len() == 0 {
        None
    } else if s[0].kind == kind {
        Some(s[0])
    } else {
        first_env_match(s.drop_first(), kind)
    }
}

/// Quadratic excursion penalty of one level against its envelope: the
/// squared overshoot above `l_max` plus the squared undershoot below
/// `l_min`.  A level exactly at a bound contributes nothing, and any
/// excursion, however small, contributes a positive penalty: the squares
/// of thousandths are carried undivided, in millionths of a squared unit,
/// so no truncation can swallow them.
pub open spec fn level_penalty(level: int, l_min: int, l_max: int) -> int {
    let over = if level > l_max {
        level - l_max
    } else {
        0
    };
    let under = if l_min > level {
        l_min - level
    } else {
        0
    };
    over * over + under * under
}

/// Penalty contributed by one predicted level; a level whose corridor kind
/// has no registered envelope contributes nothing.
pub open spec fn corridor_penalty(envs: Seq<CorridorEnvelope>, pl: PredictedLevels) -> int {
    match first_env_match(envs, pl.kind) {
        Some(e) => level_penalty(pl.level as int, e.l_min as int, e.l_max as int),
        None => 0,
    }
}

/// Unweighted sum of the corridor penalties of all predicted levels.
pub open spec fn phi_raw(envs: Seq<CorridorEnvelope>, levels: Seq<PredictedLevels>) -> int
    decreases levels.len(),
{
    if levels.len() == 0 {
        0
    } else {
        phi_raw(envs, levels.drop_last()) + corridor_penalty(envs, levels.last())
    }
}

/// Sensitivity weighting of the penalty: a node inside a hive exclusion
/// bubble makes any nonzero penalty very large; otherwise the sensitivity
/// scalar applies, floored at one.
pub open spec fn bee_factor(ctx: BeeContext) -> int {
    if ctx.in_hive_exclusion {
        1_000_000 * (SCALE as int)
    } else if ctx.bee_sensitivity >= SCALE {
        ctx.bee_sensitivity as int
    } else {
        SCALE as int
    }
}

/// The corridor penalty of a node under a set of envelopes.
pub open spec fn phi_of(envs: Seq<CorridorEnvelope>, node: NodeState) -> int {
    phi_raw(envs, node.predicted_levels@) * bee_factor(node.bee_ctx) / (SCALE as int)
}

pub open spec fn abs_of(x: int) -> int {
    if x >= 0 {
        x
    } else {
        -x
    }
}

/// Rational stand-in for exponential decay with vertical distance: equal to
/// `SCALE` at zero, strictly decreasing, and cut off to zero once the
/// scaled exponent reaches sixteen whole units.
pub open spec fn decay_factor(a: int) -> int {
    if a >= 16 * (SCALE as int) {
        0
    } else {
        (2 * (SCALE as int) * (SCALE as int) * (SCALE as int)) / (2 * (SCALE as int) * (
        SCALE as int) + 2 * (SCALE as int) * a + a * a)
    }
}

/// Reference values are floored at one fixed-point step, so that
/// normalization by a zero reference stays defined.
pub open spec fn ref_floor(x: i64) -> int {
    if x < 1 {
        1
    } else {
        x as int
    }
}

/// Refined geospatial weight: the base weight, attenuated with vertical
/// distance from the flight band, and zeroed inside an exclusion bubble.
pub open spec fn bee_weight_of(p: KernelParams, node: NodeState) -> int {
    if node.bee_ctx.in_hive_exclusion {
        0
    } else {
        let base = if node.cybo_weight >= 0 {
            node.cybo_weight as int
        } else {
            0
        };
        let a = p.alpha_z * abs_of(node.bee_ctx.dz_to_bee_band as int) / (SCALE as int);
        base * decay_factor(a) / (SCALE as int)
    }
}

/// Bounded eco-impact score: the pollutant term compresses the normalized
/// karma toward one, the habitat term rewards a small corridor penalty, and
/// the blend is clamped into `[0, SCALE]`.
pub open spec fn eco_impact_of(p: KernelParams, node: NodeState, phi: int) -> int {
    let s_mass_raw = div_tz(node.nano_karma_bytes * (SCALE as int), ref_floor(p.k_ref));
    let s_mass = if s_mass_raw > 2 * (SCALE as int) {
        2 * (SCALE as int)
    } else {
        s_mass_raw
    };
    let s_pollutant = SCALE - abs_of(s_mass - (SCALE as int));
    let phi_norm = phi * (SCALE as int) / ref_floor(p.phi_ref);
    let phi_capped = if phi_norm > SCALE {
        SCALE as int
    } else {
        phi_norm
    };
    let s_bee = SCALE - phi_capped;
    clamp_unit(div_tz(p.beta_s * s_pollutant + ((SCALE as int) - p.beta_s) * s_bee, SCALE as int))
}

/// The penalized duty-cycle update law, projected onto `[0, SCALE]`.
pub open spec fn duty_update(p: KernelParams, node: NodeState, phi: int, w: int) -> int {
    let m_norm = div_tz(node.mass_removed_kg * (SCALE as int), ref_floor(p.m_ref));
    let k_norm = div_tz(node.nano_karma_bytes * (SCALE as int), ref_floor(p.k_ref));
    let phi_norm = phi * (SCALE as int) / ref_floor(p.phi_ref);
    clamp_unit(
        node.duty_cycle + div_tz(p.eta_mass * m_norm, SCALE as int) + div_tz(
            p.eta_karma * k_norm,
            SCALE as int,
        ) + div_tz(p.eta_geo * w, SCALE as int) - div_tz(
            p.eta_power * node.power_cost,
            SCALE as int,
        ) - div_tz(p.eta_bee * phi_norm, SCALE as int),
    )
}

/// Parameters are nonnegative and bounded, with the blend coefficient in
/// the unit interval.
pub open spec fn params_bounded(p: KernelParams) -> bool {
    &&& 0 <= p.eta_mass <= MAG
    &&& 0 <= p.eta_karma <= MAG
    &&& 0 <= p.eta_geo <= MAG
    &&& 0 <= p.eta_power <= MAG
    &&& 0 <= p.eta_bee <= MAG
    &&& 0 <= p.m_ref <= MAG
    &&& 0 <= p.k_ref <= MAG
    &&& 0 <= p.phi_ref <= MAG
    &&& 0 <= p.alpha_z <= MAG
    &&& 0 <= p.beta_s <= SCALE
}

pub open spec fn ctx_bounded(c: BeeContext) -> bool {
    0 <= c.bee_sensitivity <= MAG && -MAG <= c.dz_to_bee_band <= MAG
}

pub open spec fn envs_bounded(s: Seq<CorridorEnvelope>) -> bool {
    forall|i: int|
        0 <= i < s.len() ==> -MAG <= (#[trigger] s[i]).l_min <= MAG && -MAG <= s[i].l_max <= MAG
}

pub open spec fn levels_bounded(s: Seq<PredictedLevels>) -> bool {
    forall|i: int| 0 <= i < s.len() ==> -MAG <= (#[trigger] s[i]).level <= MAG
}

pub open spec fn node_bounded(n: NodeState) -> bool {
    ctx_bounded(n.bee_ctx) && -MAG <= n.cybo_weight <= MAG && levels_bounded(n.predicted_levels@)
}

/// A level exactly at `l_max` or `l_min`, or anywhere between the two,
/// contributes zero penalty.
pub proof fn lemma_boundary_level_zero_penalty(level: int, l_min: int, l_max: int)
    requires
        l_min <= level <= l_max,
    ensures
        level_penalty(level, l_min, l_max) == 0,
{
}

pub proof fn lemma_penalty_nonneg(envs: Seq<CorridorEnvelope>, pl: PredictedLevels)
    ensures
        corridor_penalty(envs, pl) >= 0,
{
    match first_env_match(envs, pl.kind) {
        Some(e) => {
            let level = pl.level as int;
            let over = if level > e.l_max {
                level - e.l_max
            } else {
                0
            };
            let under = if e.l_min > level {
                e.l_min - level
            } else {
                0
            };
            lemma_mul_nonnegative(over, over);
            lemma_mul_nonnegative(under, under);
        },
        None => {},
    }
}

/// With bounded envelopes and levels, each excursion is at most `2 * MAG`,
/// so one penalty term is at most `4 * MAG * MAG` twice over.
pub proof fn lemma_penalty_upper(envs: Seq<CorridorEnvelope>, pl: PredictedLevels)
    requires
        envs_bounded(envs),
        -MAG <= pl.level <= MAG,
    ensures
        0 <= corridor_penalty(envs, pl) <= 8 * MAG * (MAG as int),
{
    lemma_penalty_nonneg(envs, pl);
    match first_env_match(envs, pl.kind) {
        Some(e) => {
            lemma_first_match_in_seq(envs, pl.kind);
            let level = pl.level as int;
            let over = if level > e.l_max {
                level - e.l_max
            } else {
                0
            };
            let under = if e.l_min > level {
                e.l_min - level
            } else {
                0
            };
            assert(over * over <= 4 * MAG * (MAG as int)) by (nonlinear_arith)
                requires
                    0 <= over <= 2 * MAG,
            ;
            assert(under * under <= 4 * MAG * (MAG as int)) by (nonlinear_arith)
                requires
                    0 <= under <= 2 * MAG,
            ;
        },
        None => {},
    }
}

/// A match returned by [`first_env_match`] is an element of the sequence.
pub proof fn lemma_first_match_in_seq(s: Seq<CorridorEnvelope>, kind: CorridorKind)
    ensures
        first_env_match(s, kind) matches Some(e) ==> exists|i: int|
            0 <= i < s.len() && s[i] == e,
    decreases s.len(),
{
    if s.len() > 0 && s[0].kind != kind {
        lemma_first_match_in_seq(s.drop_first(), kind);
        let m = first_env_match(s, kind);
        if m is Some {
            let e = m->Some_0;
            let i = choose|i: int| 0 <= i < s.drop_first().len() && s.drop_first()[i] == e;
            assert(s[i + 1] == e);
        }
    }
}

pub proof fn lemma_phi_raw_nonneg(envs: Seq<CorridorEnvelope>, levels: Seq<PredictedLevels>)
    ensures
        phi_raw(envs, levels) >= 0,
    decreases levels.len(),
{
    if levels.len() > 0 {
        lemma_phi_raw_nonneg(envs, levels.drop_last());
        lemma_penalty_nonneg(envs, levels.last());
    }
}

/// One penalty term under a tighter magnitude cap `m` on the envelope
/// bounds and the level.
pub proof fn lemma_penalty_upper_cap(envs: Seq<CorridorEnvelope>, pl: PredictedLevels, m: int)
    requires
        0 <= m,
        forall|i: int|
            0 <= i < envs.len() ==> -m <= (#[trigger] envs[i]).l_min <= m && -m <= envs[i].l_max
                <= m,
        -m <= pl.level <= m,
    ensures
        0 <= corridor_penalty(envs, pl) <= 8 * m * m,
{
    lemma_penalty_nonneg(envs, pl);
    assert(0 <= 8 * m * m) by (nonlinear_arith)
        requires
            0 <= m,
    ;
    match first_env_match(envs, pl.kind) {
        Some(e) => {
            lemma_first_match_in_seq(envs, pl.kind);
            let level = pl.level as int;
            let over = if level > e.l_max {
                level - e.l_max
            } else {
                0
            };
            let under = if e.l_min > level {
                e.l_min - level
            } else {
                0
            };
            assert(over * over + under * under <= 8 * m * m) by (nonlinear_arith)
                requires
                    0 <= over <= 2 * m,
                    0 <= under <= 2 * m,
            ;
        },
        None => {},
    }
}

/// The raw penalty sum under the cap `m` grows at most linearly with the
/// number of levels.
pub proof fn lemma_phi_raw_upper(
    envs: Seq<CorridorEnvelope>,
    levels: Seq<PredictedLevels>,
    m: int,
)
    requires
        0 <= m,
        forall|i: int|
            0 <= i < envs.len() ==> -m <= (#[trigger] envs[i]).l_min <= m && -m <= envs[i].l_max
                <= m,
        forall|i: int| 0 <= i < levels.len() ==> -m <= (#[trigger] levels[i]).level <= m,
    ensures
        0 <= phi_raw(envs, levels) <= levels.len() * (8 * m * m),
    decreases levels.len(),
{
    let c = 8 * m * m;
    if levels.len() == 0 {
    } else {
        assert(forall|i: int|
            0 <= i < levels.drop_last().len() ==> -m <= (#[trigger] levels.drop_last()[i]).level
                <= m);
        lemma_phi_raw_upper(envs, levels.drop_last(), m);
        lemma_penalty_upper_cap(envs, levels.last(), m);
        assert((levels.len() - 1) * c + c == levels.len() * c) by (nonlinear_arith);
    }
}

/// Discharges the representability preconditions of [`BeeSafetyKernel::evaluate_node`]
/// for moderate inputs: envelope bounds and levels within a hundred whole
/// units, at most a hundred predicted levels, and a sensitivity at most a
/// million whole units.
pub proof fn lemma_phi_fits_moderate(envs: Seq<CorridorEnvelope>, node: NodeState)
    requires
        forall|i: int|
            0 <= i < envs.len() ==> -100_000 <= (#[trigger] envs[i]).l_min <= 100_000 && -100_000
                <= envs[i].l_max <= 100_000,
        forall|i: int|
            0 <= i < node.predicted_levels@.len() ==> -100_000 <= (#[trigger] node.predicted_levels@[i]).level
                <= 100_000,
        node.predicted_levels@.len() <= 100,
        node.bee_ctx.bee_sensitivity <= 1_000_000_000,
    ensures
        0 <= phi_raw(envs, node.predicted_levels@) <= i64::MAX,
        0 <= phi_of(envs, node) <= i64::MAX,
{
    let m: int = 100_000;
    lemma_phi_raw_upper(envs, node.predicted_levels@, m);
    let c = 8 * m * m;
    assert(c == 80_000_000_000);
    let pr = phi_raw(envs, node.predicted_levels@);
    lemma_mul_inequality(node.predicted_levels@.len() as int, 100, c);
    let bf = bee_factor(node.bee_ctx);
    assert(0 < bf <= 1_000_000_000);
    lemma_mul_nonnegative(pr, bf);
    lemma_mul_inequality(pr, 8_000_000_000_000, bf);
    lemma_mul_inequality(bf, 1_000_000_000, 8_000_000_000_000);
    lemma_mul_is_commutative(8_000_000_000_000, bf);
    lemma_mul_is_commutative(1_000_000_000, 8_000_000_000_000);
    lemma_div_pos_is_pos(pr * bf, SCALE as int);
    vstd::arithmetic::div_mod::lemma_div_is_ordered(
        pr * bf,
        8_000_000_000_000_000_000_000,
        SCALE as int,
    );
    assert(8_000_000_000_000_000_000_000int == (SCALE as int) * 8_000_000_000_000_000_000);
    lemma_div_multiples_vanish(8_000_000_000_000_000_000, SCALE as int);
}

/// Every prefix of the raw penalty sum is at most the full sum.
pub proof fn lemma_phi_prefix_le(
    envs: Seq<CorridorEnvelope>,
    levels: Seq<PredictedLevels>,
    j: int,
)
    requires
        0 <= j <= levels.len(),
    ensures
        0 <= phi_raw(envs, levels.subrange(0, j)) <= phi_raw(envs, levels),
    decreases levels.len() - j,
{
    lemma_phi_raw_nonneg(envs, levels.subrange(0, j));
    if j == levels.len() {
        assert(levels.subrange(0, j) =~= levels);
    } else {
        let p = levels.subrange(0, j + 1);
        assert(p.drop_last() =~= levels.subrange(0, j));
        lemma_penalty_nonneg(envs, levels[j]);
        lemma_phi_prefix_le(envs, levels, j + 1);
    }
}

proof fn lemma_first_match_skip(s: Seq<CorridorEnvelope>, kind: CorridorKind, i: int)
    requires
        0 <= i <= s.len(),
        forall|j: int| 0 <= j < i ==> (#[trigger] s[j]).kind != kind,
    ensures
        first_env_match(s, kind) == first_env_match(s.skip(i), kind),
    decreases i,
{
    if i > 0 {
        lemma_first_match_skip(s, kind, i - 1);
        assert(s.skip(i - 1).len() > 0);
        assert(s.skip(i - 1)[0] == s[i - 1]);
        assert(s.skip(i - 1).drop_first() =~= s.skip(i));
        assert(first_env_match(s.skip(i - 1), kind) == first_env_match(s.skip(i), kind));
    } else {
        assert(s.skip(0) =~= s);
    }
}

impl BeeSafetyKernel {
    /// Build a kernel; an empty corridor registry is a configuration error.
    pub fn new(envelopes: Vec<CorridorEnvelope>, params: KernelParams) -> (r: Result<
        BeeSafetyKernel,
        KernelError,
    >)
        ensures
            r is Ok <==> envelopes@.len() > 0,
            r matches Ok(k) ==> k.envelopes@ == envelopes@ && k.params == params,
            envelopes@.len() == 0 ==> r == Result::<BeeSafetyKernel, KernelError>::Err(
                KernelError::NoEnvelopes,
            ),
    {
        if envelopes.len() == 0 {
            return Err(KernelError::NoEnvelopes);
        }
        Ok(BeeSafetyKernel { envelopes, params })
    }

    /// Index of the first envelope registered for `kind`, if any.
    fn envelope_for(&self, kind: CorridorKind) -> (r: Option<usize>)
        ensures
            match r {
                Some(j) => j < self.envelopes@.len() && first_env_match(self.envelopes@, kind)
                    == Some(self.envelopes@[j as int]),
                None => first_env_match(self.envelopes@, kind) is None,
            },
    {
        let mut i: usize = 0;
        while i < self.envelopes.len()
            invariant
                0 <= i <= self.envelopes@.len(),
                forall|j: int| 0 <= j < i ==> (#[trigger] self.envelopes@[j]).kind != kind,
            decreases self.envelopes@.len() - i,
        {
            if self.envelopes[i].kind == kind {
                proof {
                    lemma_first_match_skip(self.envelopes@, kind, i as int);
                    assert(self.envelopes@.skip(i as int)[0] == self.envelopes@[i as int]);
                }
                return Some(i);
            }
            i = i + 1;
        }
        proof {
            lemma_first_match_skip(self.envelopes@, kind, i as int);
            assert(self.envelopes@.skip(i as int).len() == 0);
        }
        None
    }

    /// Corridor penalty of one node, weighted by its sensitivity factor.
    fn compute_phi(&self, node: &NodeState) -> (r: i64)
        requires
            envs_bounded(self.envelopes@),
            levels_bounded(node.predicted_levels@),
            ctx_bounded(node.bee_ctx),
            phi_raw(self.envelopes@, node.predicted_levels@) <= i64::MAX,
            phi_of(self.envelopes@, *node) <= i64::MAX,
        ensures
            r == phi_of(self.envelopes@, *node),
            r >= 0,
            r == 0 <==> phi_raw(self.envelopes@, node.predicted_levels@) == 0,
    {
        let ghost envs = self.envelopes@;
        let ghost levels = node.predicted_levels@;
        proof {
            lemma_phi_raw_nonneg(envs, levels);
        }
        let mut acc: i64 = 0;
        let mut i: usize = 0;
        while i < node.predicted_levels.len()
            invariant
                0 <= i <= levels.len(),
                envs == self.envelopes@,
                levels == node.predicted_levels@,
                envs_bounded(envs),
                levels_bounded(levels),
                phi_raw(envs, levels) <= i64::MAX,
                acc == phi_raw(envs, levels.subrange(0, i as int)),
                acc >= 0,
            decreases levels.len() - i,
        {
            let pl = &node.predicted_levels[i];
            let term: i64 = match self.envelope_for(pl.kind) {
                Some(j) => {
                    let e = &self.envelopes[j];
                    let level = pl.level as i128;
                    let over: i128 = if level > e.l_max as i128 {
                        level - e.l_max as i128
                    } else {
                        0
                    };
                    let under: i128 = if (e.l_min as i128) > level {
                        e.l_min as i128 - level
                    } else {
                        0
                    };
                    proof {
                        lemma_penalty_upper(envs, levels[i as int]);
                        assert(over * over <= 4 * MAG * (MAG as int)) by (nonlinear_arith)
                            requires
                                0 <= over <= 2 * MAG,
                        ;
                        assert(under * under <= 4 * MAG * (MAG as int)) by (nonlinear_arith)
                            requires
                                0 <= under <= 2 * MAG,
                        ;
                        lemma_mul_nonnegative(over as int, over as int);
                        lemma_mul_nonnegative(under as int, under as int);
                    }
                    let t_wide: i128 = over * over + under * under;
                    proof {
                        assert(t_wide == corridor_penalty(envs, levels[i as int]));
                    }
                    t_wide as i64
                },
                None => 0,
            };
            proof {
                assert(levels.subrange(0, i + 1).drop_last() =~= levels.subrange(0, i as int));
                assert(levels.subrange(0, i + 1).last() == levels[i as int]);
                lemma_phi_prefix_le(envs, levels, i + 1);
            }
            acc = acc + term;
            i = i + 1;
        }
        proof {
            assert(levels.subrange(0, levels.len() as int) =~= levels);
        }

        let bf: i64 = if node.bee_ctx.in_hive_exclusion {
            1_000_000 * SCALE
        } else if node.bee_ctx.bee_sensitivity >= SCALE {
            node.bee_ctx.bee_sensitivity
        } else {
            SCALE
        };
        proof {
            lemma_mul_nonnegative(acc as int, bf as int);
            lemma_mul_inequality(acc as int, i64::MAX as int, bf as int);
            lemma_mul_inequality(bf as int, MAG as int, i64::MAX as int);
            lemma_mul_is_commutative(i64::MAX as int, bf as int);
            lemma_mul_is_commutative(MAG as int, i64::MAX as int);
            lemma_div_pos_is_pos(acc as int * bf as int, SCALE as int);
            if acc > 0 {
                // a positive raw penalty stays positive after weighting
                lemma_mul_inequality(1, acc as int, bf as int);
                vstd::arithmetic::div_mod::lemma_div_is_ordered(
                    SCALE as int,
                    acc as int * bf as int,
                    SCALE as int,
                );
                vstd::arithmetic::div_mod::lemma_div_by_self(SCALE as int);
            }
        }
        let phi_wide: i128 = (acc as i128) * (bf as i128) / (SCALE as i128);
        phi_wide as i64
    }

    /// Refined geospatial weight of a node.
    fn compute_bee_weight(&self, node: &NodeState) -> (r: i64)
        requires
            params_bounded(self.params),
            ctx_bounded(node.bee_ctx),
            -MAG <= node.cybo_weight <= MAG,
        ensures
            r == bee_weight_of(self.params, *node),
            0 <= r <= MAG,
    {
        if node.bee_ctx.in_hive_exclusion {
            return 0;
        }
        let base: i64 = if node.cybo_weight >= 0 {
            node.cybo_weight
        } else {
            0
        };
        let dz: i64 = node.bee_ctx.dz_to_bee_band;
        let dz_abs: i64 = if dz >= 0 {
            dz
        } else {
            -dz
        };
        proof {
            lemma_mul_nonnegative(self.params.alpha_z as int, dz_abs as int);
            lemma_mul_inequality(self.params.alpha_z as int, MAG as int, dz_abs as int);
            lemma_mul_inequality(dz_abs as int, MAG as int, MAG as int);
            lemma_mul_is_commutative(self.params.alpha_z as int, dz_abs as int);
            lemma_mul_is_commutative(dz_abs as int, MAG as int);
            lemma_div_pos_is_pos(self.params.alpha_z as int * dz_abs as int, SCALE as int);
            lemma_div_nonincreasing(self.params.alpha_z as int * dz_abs as int, SCALE as int);
        }
        let a: i128 = (self.params.alpha_z as i128) * (dz_abs as i128) / (SCALE as i128);
        let factor: i128 = if a >= 16 * (SCALE as i128) {
            0
        } else {
            proof {
                let ai = a as int;
                lemma_mul_nonnegative(ai, ai);
                lemma_mul_inequality(ai, 16 * (SCALE as int), ai);
                lemma_mul_is_commutative(ai, 16 * (SCALE as int));
                lemma_mul_inequality(ai, 16 * (SCALE as int), 16 * (SCALE as int));
                let den = 2 * (SCALE as int) * (SCALE as int) + 2 * (SCALE as int) * ai + ai * ai;
                lemma_div_pos_is_pos(2 * (SCALE as int) * (SCALE as int) * (SCALE as int), den);
                lemma_div_is_ordered_by_denominator(
                    2 * (SCALE as int) * (SCALE as int) * (SCALE as int),
                    2 * (SCALE as int) * (SCALE as int),
                    den,
                );
                lemma_div_multiples_vanish(SCALE as int, 2 * (SCALE as int) * (SCALE as int));
                assert(0 <= ai < 16000);
                assert(2 * (SCALE as int) * ai <= 32_000_000) by (nonlinear_arith)
                    requires
                        0 <= ai < 16000,
                        SCALE == 1000,
                ;
                assert(ai * ai <= 256_000_000) by (nonlinear_arith)
                    requires
                        0 <= ai < 16000,
                ;
            }
            let den: i128 = 2 * (SCALE as i128) * (SCALE as i128) + 2 * (SCALE as i128) * a + a * a;
            2 * (SCALE as i128) * (SCALE as i128) * (SCALE as i128) / den
        };
        proof {
            lemma_mul_nonnegative(base as int, factor as int);
            lemma_mul_inequality(factor as int, SCALE as int, base as int);
            lemma_mul_is_commutative(factor as int, base as int);
            lemma_mul_is_commutative(SCALE as int, base as int);
            lemma_div_pos_is_pos(base as int * factor as int, SCALE as int);
            lemma_multiply_divide_le(base as int * factor as int, SCALE as int, base as int);
        }
        let w: i128 = (base as i128) * factor / (SCALE as i128);
        w as i64
    }

    /// Bounded eco-impact score of a node, given its corridor penalty.
    fn compute_eco_impact_bee(&self, node: &NodeState, phi: i64) -> (r: i64)
        requires
            params_bounded(self.params),
            phi >= 0,
        ensures
            r == eco_impact_of(self.params, *node, phi as int),
            0 <= r <= SCALE,
    {
        let p = &self.params;
        let den_k: i64 = if p.k_ref < 1 {
            1
        } else {
            p.k_ref
        };
        proof {
            crate::lemma_scaled_word_bounds(node.nano_karma_bytes as int);
        }
        let s_mass_raw: i128 = div_tz_exec(
            (node.nano_karma_bytes as i128) * (SCALE as i128),
            den_k as i128,
        );
        let s_mass: i128 = if s_mass_raw > 2 * (SCALE as i128) {
            2 * (SCALE as i128)
        } else {
            s_mass_raw
        };
        let dev: i128 = if s_mass - (SCALE as i128) >= 0 {
            s_mass - (SCALE as i128)
        } else {
            (SCALE as i128) - s_mass
        };
        let s_pollutant: i128 = (SCALE as i128) - dev;
        let den_phi: i64 = if p.phi_ref < 1 {
            1
        } else {
            p.phi_ref
        };
        proof {
            crate::lemma_scaled_word_bounds(phi as int);
            lemma_mul_nonnegative(phi as int, SCALE as int);
            lemma_div_pos_is_pos(phi as int * SCALE as int, den_phi as int);
        }
        let phi_norm: i128 = (phi as i128) * (SCALE as i128) / (den_phi as i128);
        let phi_capped: i128 = if phi_norm > SCALE as i128 {
            SCALE as i128
        } else {
            phi_norm
        };
        let s_bee: i128 = (SCALE as i128) - phi_capped;
        proof {
            let sp = s_pollutant as int;
            let sb = s_bee as int;
            let beta = p.beta_s as int;
            lemma_mul_inequality(beta, SCALE as int, if sp >= 0 { sp } else { -sp });
            assert(beta * sp <= (SCALE as int) * (if sp >= 0 { sp } else { -sp }))
                by (nonlinear_arith)
                requires
                    0 <= beta <= SCALE as int,
            ;
            assert(-((SCALE as int) * (if sp >= 0 { sp } else { -sp })) <= beta * sp)
                by (nonlinear_arith)
                requires
                    0 <= beta <= SCALE as int,
            ;
            assert(0 <= ((SCALE as int) - beta) * sb <= (SCALE as int) * (SCALE as int))
                by (nonlinear_arith)
                requires
                    0 <= (SCALE as int) - beta <= SCALE as int,
                    0 <= sb <= SCALE as int,
            ;
        }
        let blend: i128 = (p.beta_s as i128) * s_pollutant + ((SCALE as i128) - (p.beta_s as i128))
            * s_bee;
        let q: i128 = div_tz_exec(blend, SCALE as i128);
        clamp_unit_exec(q)
    }

    /// Evaluate one node: validate the proposed duty cycle, compute the
    /// corridor penalty, the refined weight, the updated duty cycle, the
    /// permission and the eco-impact score.
    ///
    /// The updated duty cycle and the eco-impact score always lie in
    /// `[0, SCALE]`, and emission is permitted exactly when the corridor
    /// penalty is zero and the node is outside any exclusion bubble.
    pub fn evaluate_node(&self, node: NodeState) -> (r: Result<KernelDecision, KernelError>)
        requires
            params_bounded(self.params),
            envs_bounded(self.envelopes@),
            node_bounded(node),
            phi_raw(self.envelopes@, node.predicted_levels@) <= i64::MAX,
            phi_of(self.envelopes@, node) <= i64::MAX,
        ensures
            r is Ok <==> 0 <= node.duty_cycle <= SCALE,
            !(0 <= node.duty_cycle <= SCALE) ==> r == Result::<KernelDecision, KernelError>::Err(
                KernelError::InvalidDutyCycle(node.duty_cycle),
            ),
            r matches Ok(d) ==> {
                let phi = phi_of(self.envelopes@, node);
                let w = bee_weight_of(self.params, node);
                &&& d.node_id == node.node_id
                &&& d.phi_penalty == phi
                &&& d.permitted == (phi == 0 && !node.bee_ctx.in_hive_exclusion)
                &&& d.safe_duty_cycle == duty_update(self.params, node, phi, w)
                &&& 0 <= d.safe_duty_cycle <= SCALE
                &&& d.eco_impact_bee == eco_impact_of(self.params, node, phi)
                &&& 0 <= d.eco_impact_bee <= SCALE
            },
    {
        if !(0 <= node.duty_cycle && node.duty_cycle <= SCALE) {
            return Err(KernelError::InvalidDutyCycle(node.duty_cycle));
        }

        let p = &self.params;
        let phi = self.compute_phi(&node);
        let w_bee = self.compute_bee_weight(&node);

        let den_m: i64 = if p.m_ref < 1 {
            1
        } else {
            p.m_ref
        };
        let den_k: i64 = if p.k_ref < 1 {
            1
        } else {
            p.k_ref
        };
        let den_phi: i64 = if p.phi_ref < 1 {
            1
        } else {
            p.phi_ref
        };

        proof {
            crate::lemma_scaled_word_bounds(node.mass_removed_kg as int);
            crate::lemma_scaled_word_bounds(node.nano_karma_bytes as int);
        }
        let m_norm: i128 = div_tz_exec(
            (node.mass_removed_kg as i128) * (SCALE as i128),
            den_m as i128,
        );
        let k_norm: i128 = div_tz_exec(
            (node.nano_karma_bytes as i128) * (SCALE as i128),
            den_k as i128,
        );
        proof {
            crate::lemma_scaled_word_bounds(phi as int);
            lemma_mul_nonnegative(phi as int, SCALE as int);
            lemma_div_pos_is_pos(phi as int * SCALE as int, den_phi as int);
            lemma_div_nonincreasing(phi as int * SCALE as int, den_phi as int);
        }
        let phi_norm: i128 = (phi as i128) * (SCALE as i128) / (den_phi as i128);

        proof {
            let norm_bound: int = 10_000_000_000_000_000_000_000;
            lemma_term_bound(p.eta_mass as int, m_norm as int, norm_bound);
            lemma_term_bound(p.eta_karma as int, k_norm as int, norm_bound);
            lemma_term_bound(p.eta_geo as int, w_bee as int, norm_bound);
            lemma_term_bound(p.eta_power as int, node.power_cost as int, norm_bound);
            lemma_term_bound(p.eta_bee as int, phi_norm as int, norm_bound);
        }
        let t_mass: i128 = div_tz_exec((p.eta_mass as i128) * m_norm, SCALE as i128);
        let t_karma: i128 = div_tz_exec((p.eta_karma as i128) * k_norm, SCALE as i128);
        let t_geo: i128 = div_tz_exec((p.eta_geo as i128) * (w_bee as i128), SCALE as i128);
        let t_power: i128 = div_tz_exec(
            (p.eta_power as i128) * (node.power_cost as i128),
            SCALE as i128,
        );
        let t_bee: i128 = div_tz_exec((p.eta_bee as i128) * phi_norm, SCALE as i128);

        let u_raw: i128 = (node.duty_cycle as i128) + t_mass + t_karma + t_geo - t_power - t_bee;
        let u = clamp_unit_exec(u_raw);

        let eco_impact_bee = self.compute_eco_impact_bee(&node, phi);
        let permitted = phi == 0 && !node.bee_ctx.in_hive_exclusion;

        Ok(
            KernelDecision {
                node_id: node.node_id,
                safe_duty_cycle: u,
                permitted,
                phi_penalty: phi,
                eco_impact_bee,
            },
        )
    }
}

/// Bound on one update-law term: with a bounded coefficient and a dividend
/// bound `m`, the product stays within `MAG * m`.
proof fn lemma_term_bound(eta: int, x: int, m: int)
    requires
        0 <= eta <= MAG,
        -m <= x <= m,
        0 < m,
    ensures
        -(MAG as int) * m <= eta * x <= MAG as int * m,
{
    assert(-(MAG as int) * m <= eta * x <= MAG as int * m) by (nonlinear_arith)
        requires
            0 <= eta <= MAG,
            -m <= x <= m,
            0 < m,
    ;
}

} // verus!
