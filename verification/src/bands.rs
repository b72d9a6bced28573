//! Corridor band registry, risk normalization and residual aggregation.
//!
//! A corridor band holds the `safe <= gold <= hard` thresholds for one
//! monitored variable.  A raw measurement is normalized against its band into
//! a risk coordinate in `[0, SCALE]`, and the weighted sum of the risk
//! coordinates of one evaluation forms the residual potential.

use vstd::arithmetic::div_mod::{
    lemma_div_is_ordered, lemma_div_pos_is_pos, lemma_multiply_divide_lt,
};
use vstd::arithmetic::mul::lemma_mul_inequality;
use vstd::prelude::*;

use crate::MAG;
use crate::SCALE;

verus! {

/// Corridor bands for a single monitored variable.
#[derive(Clone, Copy, Debug)]
pub struct CorridorBands {
    pub var_id: &'static str,
    pub units: &'static str,
    /// Safe band upper bound (at most `gold`).
    pub safe: i64,
    /// Preferred band upper bound (at most `hard`).
    pub gold: i64,
    /// Hard limit that must not be exceeded.
    pub hard: i64,
    /// Contribution of this variable to the residual potential.
    pub weight: i64,
    /// Diagnostic channel id.
    pub lyap_channel: u32,
    /// True when no governed entity may be admitted without this corridor.
    pub mandatory: bool,
}

/// Rejection reasons for a structurally malformed corridor band.
#[derive(Clone, Copy, Debug, PartialEq, Eq, Structural)]
pub enum ConfigurationError {
    SafeAboveGold,
    GoldAboveHard,
    NegativeWeight,
}

impl CorridorBands {
    pub fn new(
        var_id: &'static str,
        units: &'static str,
        safe: i64,
        gold: i64,
        hard: i64,
        weight: i64,
        lyap_channel: u32,
        mandatory: bool,
    ) -> (r: CorridorBands)
        ensures
            r == (CorridorBands { var_id, units, safe, gold, hard, weight, lyap_channel, mandatory }),
    {
        CorridorBands { var_id, units, safe, gold, hard, weight, lyap_channel, mandatory }
    }
}

/// The threshold ordering every band used in enforcement must satisfy.
pub open spec fn band_ordered(b: CorridorBands) -> bool {
    b.safe <= b.gold <= b.hard && 0 <= b.weight
}

/// Admit a band into the registry, rejecting any band whose thresholds are
/// out of order or whose weight is negative.  The checks run in a fixed
/// order, so the error identifies the first violated condition.
pub fn register(band: CorridorBands) -> (r: Result<CorridorBands, ConfigurationError>)
    ensures
        r is Ok <==> band_ordered(band),
        r matches Ok(b) ==> b == band,
        band.safe > band.gold ==> r == Result::<CorridorBands, ConfigurationError>::Err(
            ConfigurationError::SafeAboveGold,
        ),
        band.safe <= band.gold && band.gold > band.hard ==> r == Result::<
            CorridorBands,
            ConfigurationError,
        >::Err(ConfigurationError::GoldAboveHard),
        band.safe <= band.gold <= band.hard && band.weight < 0 ==> r == Result::<
            CorridorBands,
            ConfigurationError,
        >::Err(ConfigurationError::NegativeWeight),
{
    if band.safe > band.gold {
        Err(ConfigurationError::SafeAboveGold)
    } else if band.gold > band.hard {
        Err(ConfigurationError::GoldAboveHard)
    } else if band.weight < 0 {
        Err(ConfigurationError::NegativeWeight)
    } else {
        Ok(band)
    }
}

/// A mandatory band admits enforcement only with a positive hard limit and
/// ordered thresholds; a non-mandatory band is never an obstacle.
pub open spec fn band_enforceable(b: CorridorBands) -> bool {
    !b.mandatory || (b.hard > 0 && b.gold <= b.hard && b.safe <= b.gold)
}

pub open spec fn all_enforceable(s: Seq<CorridorBands>) -> bool {
    forall|i: int| 0 <= i < s.len() ==> band_enforceable(#[trigger] s[i])
}

/// The "no corridor, no build" precondition: true iff every mandatory band
/// is well-formed and has a positive hard limit.
pub fn validate_complete(bands: &Vec<CorridorBands>) -> (r: bool)
    ensures
        r == all_enforceable(bands@),
{
    let mut i: usize = 0;
    while i < bands.len()
        invariant
            0 <= i <= bands@.len(),
            forall|j: int| 0 <= j < i ==> band_enforceable(#[trigger] bands@[j]),
        decreases bands@.len() - i,
    {
        let b = &bands[i];
        if b.mandatory && !(b.hard > 0 && b.gold <= b.hard && b.safe <= b.gold) {
            assert(!band_enforceable(bands@[i as int]));
            return false;
        }
        i = i + 1;
    }
    true
}

/// Piecewise-linear normalization of a raw measurement into `[0, SCALE]`.
///
/// At or below `safe` the risk is `0`; at or above `hard` it is `SCALE`;
/// strictly between the two it interpolates linearly.  A degenerate band with
/// `safe == hard` leaves no interior, so the result there is exactly `0` or
/// `SCALE` by the first two rules.
pub open spec fn risk_of(measured: int, safe: int, hard: int) -> int {
    if measured <= safe {
        0
    } else if measured >= hard {
        SCALE as int
    } else {
        ((measured - safe) * (SCALE as int)) / (hard - safe)
    }
}

/// Normalize one raw measurement into a risk coordinate using its band.
pub fn to_risk(measured: i64, bands: &CorridorBands) -> (r: i64)
    ensures
        r == risk_of(measured as int, bands.safe as int, bands.hard as int),
        0 <= r <= SCALE,
{
    if measured <= bands.safe {
        0
    } else if measured >= bands.hard {
        SCALE
    } else {
        proof {
            let m = measured as int;
            let s = bands.safe as int;
            let h = bands.hard as int;
            lemma_mul_inequality(1, m - s, SCALE as int);
            lemma_mul_inequality(m - s, 0x1_0000_0000_0000_0000, SCALE as int);
            lemma_div_pos_is_pos((m - s) * (SCALE as int), h - s);
            lemma_mul_inequality(m - s, h - s, SCALE as int);
            lemma_multiply_divide_lt((m - s) * (SCALE as int), h - s, SCALE as int + 1);
        }
        let num: i128 = (measured as i128 - bands.safe as i128) * (SCALE as i128);
        let den: i128 = bands.hard as i128 - bands.safe as i128;
        (num / den) as i64
    }
}

/// Risk normalization never leaves the unit interval, honours both
/// saturation rules exactly, and is monotone nondecreasing in the
/// measurement.
pub proof fn lemma_risk_monotone(m1: int, m2: int, safe: int, hard: int)
    requires
        m1 <= m2,
    ensures
        0 <= risk_of(m1, safe, hard) <= SCALE,
        risk_of(m1, safe, hard) <= risk_of(m2, safe, hard),
        m1 <= safe ==> risk_of(m1, safe, hard) == 0,
        m1 >= hard && m1 > safe ==> risk_of(m1, safe, hard) == SCALE,
{
    lemma_risk_bounds(m1, safe, hard);
    lemma_risk_bounds(m2, safe, hard);
    if m1 <= safe || m2 >= hard {
        // one side sits on a saturation rule, and the bounds close the gap
    } else {
        // both measurements lie strictly inside (safe, hard)
        lemma_mul_inequality(m1 - safe, m2 - safe, SCALE as int);
        lemma_div_is_ordered((m1 - safe) * (SCALE as int), (m2 - safe) * (SCALE as int), hard - safe);
    }
}

/// A degenerate band with `safe == hard` leaves no room for interpolation:
/// the risk is exactly `SCALE` above the threshold and exactly `0` at or
/// below it, never an undefined value.
pub proof fn lemma_risk_degenerate(m: int, threshold: int)
    ensures
        risk_of(m, threshold, threshold) == if m > threshold {
            SCALE as int
        } else {
            0
        },
{
}

/// The risk coordinate always lies in `[0, SCALE]`.
pub proof fn lemma_risk_bounds(m: int, safe: int, hard: int)
    ensures
        0 <= risk_of(m, safe, hard) <= SCALE,
{
    if m <= safe {
    } else if m >= hard {
    } else {
        lemma_div_pos_is_pos((m - safe) * (SCALE as int), hard - safe);
        lemma_mul_inequality(m - safe, hard - safe, SCALE as int);
        lemma_multiply_divide_lt((m - safe) * (SCALE as int), hard - safe, SCALE as int + 1);
    }
}

/// Single normalized risk coordinate with its uncertainty and band.
/// The uncertainty is carried for diagnostics only; no decision reads it.
#[derive(Clone, Copy, Debug)]
pub struct RiskCoord {
    pub var_id: &'static str,
    /// Normalized risk coordinate in `[0, SCALE]`.
    pub value: i64,
    /// Uncertainty of the coordinate.
    pub sigma: i64,
    pub bands: CorridorBands,
}

/// Aggregate residual potential and decision flags for one evaluation.
#[derive(Clone, Debug)]
pub struct Residual {
    /// Total weighted potential.
    pub vt: i64,
    pub coords: Vec<RiskCoord>,
    /// Advisory flag: reduce activity.
    pub derate: bool,
    /// Mandatory flag: halt activity.
    pub stop: bool,
}

/// A coordinate as consumed by the aggregator: normalized value in the unit
/// interval and a nonnegative band weight.
pub open spec fn coord_in_range(c: RiskCoord) -> bool {
    0 <= c.value <= SCALE && 0 <= c.bands.weight
}

pub open spec fn coords_in_range(s: Seq<RiskCoord>) -> bool {
    forall|i: int| 0 <= i < s.len() ==> coord_in_range(#[trigger] s[i])
}

/// Contribution of one coordinate to the residual potential.
pub open spec fn coord_term(c: RiskCoord) -> int {
    (c.bands.weight * c.value) / (SCALE as int)
}

/// Total weighted potential of a sequence of risk coordinates.
pub open spec fn residual_total(s: Seq<RiskCoord>) -> int
    decreases s.len(),
{
    if s.len() == 0 {
        0
    } else {
        residual_total(s.drop_last()) + coord_term(s.last())
    }
}

pub proof fn lemma_coord_term_bounds(c: RiskCoord)
    requires
        coord_in_range(c),
    ensures
        0 <= coord_term(c) <= c.bands.weight,
{
    lemma_div_pos_is_pos(c.bands.weight * c.value, SCALE as int);
    lemma_mul_inequality(c.value as int, SCALE as int, c.bands.weight as int);
    vstd::arithmetic::mul::lemma_mul_is_commutative(c.value as int, c.bands.weight as int);
    lemma_multiply_divide_lt(
        c.bands.weight * c.value,
        SCALE as int,
        c.bands.weight as int + 1,
    );
}

/// Every prefix of the total is at most the total itself, since every
/// in-range coordinate contributes a nonnegative term.
pub proof fn lemma_residual_prefix_le(s: Seq<RiskCoord>, j: int)
    requires
        coords_in_range(s),
        0 <= j <= s.len(),
    ensures
        0 <= residual_total(s.subrange(0, j)) <= residual_total(s),
    decreases s.len() - j,
{
    lemma_residual_nonneg(s.subrange(0, j));
    if j == s.len() {
        assert(s.subrange(0, j) =~= s);
    } else {
        let p = s.subrange(0, j + 1);
        assert(p.drop_last() =~= s.subrange(0, j));
        lemma_coord_term_bounds(s[j]);
        lemma_residual_prefix_le(s, j + 1);
    }
}

pub proof fn lemma_residual_nonneg(s: Seq<RiskCoord>)
    requires
        coords_in_range(s),
    ensures
        residual_total(s) >= 0,
    decreases s.len(),
{
    if s.len() > 0 {
        assert(coords_in_range(s.drop_last()));
        lemma_residual_nonneg(s.drop_last());
        lemma_coord_term_bounds(s.last());
    }
}

/// Compute the residual potential `V = sum_j w_j * r_j` of one evaluation.
pub fn compute_residual(coords: &Vec<RiskCoord>) -> (r: i64)
    requires
        coords_in_range(coords@),
        residual_total(coords@) <= i64::MAX,
    ensures
        r == residual_total(coords@),
        r >= 0,
{
    proof {
        lemma_residual_nonneg(coords@);
    }
    let mut acc: i64 = 0;
    let mut i: usize = 0;
    while i < coords.len()
        invariant
            0 <= i <= coords@.len(),
            coords_in_range(coords@),
            residual_total(coords@) <= i64::MAX,
            acc == residual_total(coords@.subrange(0, i as int)),
            acc >= 0,
        decreases coords@.len() - i,
    {
        let c = &coords[i];
        proof {
            let cc = coords@[i as int];
            vstd::arithmetic::mul::lemma_mul_nonnegative(
                cc.bands.weight as int,
                cc.value as int,
            );
            lemma_mul_inequality(cc.value as int, SCALE as int, cc.bands.weight as int);
            vstd::arithmetic::mul::lemma_mul_is_commutative(cc.value as int, cc.bands.weight as int);
            lemma_coord_term_bounds(cc);
            assert(coords@.subrange(0, i + 1).drop_last() =~= coords@.subrange(0, i as int));
            lemma_residual_prefix_le(coords@, i + 1);
        }
        let term_wide: i128 = (c.bands.weight as i128) * (c.value as i128) / (SCALE as i128);
        let term: i64 = term_wide as i64;
        acc = acc + term;
        i = i + 1;
    }
    proof {
        assert(coords@.subrange(0, coords@.len() as int) =~= coords@);
    }
    acc
}

} // verus!
