//! Generic banded permission gate, instantiated for the RF corridor.
//!
//! Each measurement is matched to the first band covering its frequency,
//! its excess over the band's base level is normalized against the
//! no-effect margin, and emission is permitted only while the worst ratio
//! stays strictly below a hard threshold: no corridor, no emission.

use vstd::arithmetic::div_mod::{lemma_div_nonincreasing, lemma_div_pos_is_pos};
use vstd::arithmetic::mul::lemma_mul_inequality;
use vstd::prelude::*;

use crate::MAG;
use crate::SCALE;

verus! {

/// One RF corridor band: a frequency range with its base and no-effect
/// field strengths.
#[derive(Clone, Copy, Debug)]
pub struct RFEnvelope {
    pub f_ghz_min: i64,
    pub f_ghz_max: i64,
    pub e_base_vpm: i64,
    pub e_no_effect_vpm: i64,
}

/// One field-strength measurement at a frequency.
#[derive(Clone, Copy, Debug)]
pub struct RFMeasurement {
    pub f_ghz: i64,
    pub e_vpm: i64,
}

pub open spec fn in_band_spec(b: RFEnvelope, f: int) -> bool {
    b.f_ghz_min <= f <= b.f_ghz_max
}

/// The first band covering a frequency, if any.
pub open spec fn first_band_match(s: Seq<RFEnvelope>, f: int) -> Option<RFEnvelope>
    decreases s.len(),
{
    if s.len() == 0 {
        None
    } else if in_band_spec(s[0], f) {
        Some(s[0])
    } else {
        first_band_match(s.drop_first(), f)
    }
}

/// Normalized excess of a measured level over the band's base, against the
/// no-effect margin; the margin is floored at one fixed-point step so that
/// a degenerate band stays defined.
pub open spec fn excess_ratio(b: RFEnvelope, e: int) -> int {
    let den = if b.e_no_effect_vpm - b.e_base_vpm >= 1 {
        b.e_no_effect_vpm - b.e_base_vpm
    } else {
        1
    };
    let num = if e - b.e_base_vpm >= 0 {
        e - b.e_base_vpm
    } else {
        0
    };
    num * (SCALE as int) / den
}

/// The ratio contributed by one measurement; a measurement with no
/// covering band contributes nothing.
pub open spec fn measurement_ratio(envs: Seq<RFEnvelope>, m: RFMeasurement) -> int {
    match first_band_match(envs, m.f_ghz as int) {
        Some(b) => excess_ratio(b, m.e_vpm as int),
        None => 0,
    }
}

/// The worst normalized excess over all measurements, at least zero.
pub open spec fn max_ratio(envs: Seq<RFEnvelope>, meas: Seq<RFMeasurement>) -> int
    decreases meas.len(),
{
    if meas.len() == 0 {
        0
    } else {
        let rest = max_ratio(envs, meas.drop_last());
        let last = measurement_ratio(envs, meas.last());
        if last > rest {
            last
        } else {
            rest
        }
    }
}

pub open spec fn rf_envs_bounded(s: Seq<RFEnvelope>) -> bool {
    forall|i: int|
        0 <= i < s.len() ==> -MAG <= (#[trigger] s[i]).e_base_vpm <= MAG && -MAG
            <= s[i].e_no_effect_vpm <= MAG
}

pub open spec fn rf_meas_bounded(s: Seq<RFMeasurement>) -> bool {
    forall|i: int| 0 <= i < s.len() ==> -MAG <= (#[trigger] s[i]).e_vpm <= MAG
}

pub proof fn lemma_measurement_ratio_bounds(envs: Seq<RFEnvelope>, m: RFMeasurement)
    requires
        rf_envs_bounded(envs),
        -MAG <= m.e_vpm <= MAG,
    ensures
        0 <= measurement_ratio(envs, m) <= 2 * MAG * (SCALE as int),
{
    match first_band_match(envs, m.f_ghz as int) {
        Some(b) => {
            lemma_first_band_in_seq(envs, m.f_ghz as int);
            let den = if b.e_no_effect_vpm - b.e_base_vpm >= 1 {
                b.e_no_effect_vpm - b.e_base_vpm
            } else {
                1
            };
            let num = if m.e_vpm - b.e_base_vpm >= 0 {
                m.e_vpm - b.e_base_vpm
            } else {
                0
            };
            lemma_div_pos_is_pos(num * (SCALE as int), den);
            lemma_mul_inequality(num, 2 * MAG, SCALE as int);
            lemma_div_nonincreasing(num * (SCALE as int), den);
        },
        None => {},
    }
}

/// A band returned by [`first_band_match`] is an element of the sequence.
pub proof fn lemma_first_band_in_seq(s: Seq<RFEnvelope>, f: int)
    ensures
        first_band_match(s, f) matches Some(b) ==> exists|i: int| 0 <= i < s.len() && s[i] == b,
    decreases s.len(),
{
    if s.len() > 0 && !in_band_spec(s[0], f) {
        lemma_first_band_in_seq(s.drop_first(), f);
        let m = first_band_match(s, f);
        if m is Some {
            let b = m->Some_0;
            let i = choose|i: int| 0 <= i < s.drop_first().len() && s.drop_first()[i] == b;
            assert(s[i + 1] == b);
        }
    }
}

proof fn lemma_first_band_skip(s: Seq<RFEnvelope>, f: int, i: int)
    requires
        0 <= i <= s.len(),
        forall|j: int| 0 <= j < i ==> !in_band_spec(#[trigger] s[j], f),
    ensures
        first_band_match(s, f) == first_band_match(s.skip(i), f),
    decreases i,
{
    if i > 0 {
        lemma_first_band_skip(s, f, i - 1);
        assert(s.skip(i - 1).len() > 0);
        assert(s.skip(i - 1)[0] == s[i - 1]);
        assert(s.skip(i - 1).drop_first() =~= s.skip(i));
        assert(first_band_match(s.skip(i - 1), f) == first_band_match(s.skip(i), f));
    } else {
        assert(s.skip(0) =~= s);
    }
}

fn band_for(envs: &Vec<RFEnvelope>, f: i64) -> (r: Option<usize>)
    ensures
        match r {
            Some(j) => j < envs@.len() && first_band_match(envs@, f as int) == Some(
                envs@[j as int],
            ),
            None => first_band_match(envs@, f as int) is None,
        },
{
    let mut i: usize = 0;
    while i < envs.len()
        invariant
            0 <= i <= envs@.len(),
            forall|j: int| 0 <= j < i ==> !in_band_spec(#[trigger] envs@[j], f as int),
        decreases envs@.len() - i,
    {
        let b = &envs[i];
        if f >= b.f_ghz_min && f <= b.f_ghz_max {
            proof {
                lemma_first_band_skip(envs@, f as int, i as int);
                assert(envs@.skip(i as int)[0] == envs@[i as int]);
            }
            return Some(i);
        }
        i = i + 1;
    }
    proof {
        lemma_first_band_skip(envs@, f as int, i as int);
        assert(envs@.skip(i as int).len() == 0);
    }
    None
}

/// The worst normalized excess ratio over all measurements.
pub fn r_rf(envs: &Vec<RFEnvelope>, meas: &Vec<RFMeasurement>) -> (r: i64)
    requires
        rf_envs_bounded(envs@),
        rf_meas_bounded(meas@),
    ensures
        r == max_ratio(envs@, meas@),
        r >= 0,
{
    let mut r_max: i64 = 0;
    let mut i: usize = 0;
    while i < meas.len()
        invariant
            0 <= i <= meas@.len(),
            rf_envs_bounded(envs@),
            rf_meas_bounded(meas@),
            r_max == max_ratio(envs@, meas@.subrange(0, i as int)),
            0 <= r_max <= 2 * MAG * SCALE,
        decreases meas@.len() - i,
    {
        let m = &meas[i];
        proof {
            lemma_measurement_ratio_bounds(envs@, meas@[i as int]);
        }
        let ratio: i64 = match band_for(envs, m.f_ghz) {
            Some(j) => {
                let b = &envs[j];
                let diff: i64 = b.e_no_effect_vpm - b.e_base_vpm;
                let den: i64 = if diff >= 1 {
                    diff
                } else {
                    1
                };
                let num: i64 = if m.e_vpm - b.e_base_vpm >= 0 {
                    m.e_vpm - b.e_base_vpm
                } else {
                    0
                };
                proof {
                    lemma_div_pos_is_pos(num as int * SCALE as int, den as int);
                    lemma_mul_inequality(num as int, 2 * MAG, SCALE as int);
                    lemma_div_nonincreasing(num as int * SCALE as int, den as int);
                }
                let wide: i128 = (num as i128) * (SCALE as i128) / (den as i128);
                wide as i64
            },
            None => 0,
        };
        proof {
            assert(meas@.subrange(0, i + 1).drop_last() =~= meas@.subrange(0, i as int));
            assert(meas@.subrange(0, i + 1).last() == meas@[i as int]);
        }
        if ratio > r_max {
            r_max = ratio;
        }
        i = i + 1;
    }
    proof {
        assert(meas@.subrange(0, meas@.len() as int) =~= meas@);
    }
    r_max
}

/// Enforce "no corridor, no emission": emission is permitted only while
/// the worst normalized excess stays strictly below the hard threshold.
pub fn rf_permit(envs: &Vec<RFEnvelope>, meas: &Vec<RFMeasurement>, r_hard: i64) -> (r: bool)
    requires
        rf_envs_bounded(envs@),
        rf_meas_bounded(meas@),
    ensures
        r == (max_ratio(envs@, meas@) < r_hard),
{
    let ratio = r_rf(envs, meas);
    ratio < r_hard
}

} // verus!
