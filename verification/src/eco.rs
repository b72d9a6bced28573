//! Bounded environmental indices and the composite eco-impact score.

use vstd::prelude::*;

use crate::clamp_unit;
use crate::clamp_unit_exec;
use crate::div_tz;
use crate::div_tz_exec;
use crate::lemma_scaled_word_bounds;
use crate::SCALE;

verus! {

/// Heat risk around a hive in `[0, SCALE]`; higher is riskier.
#[derive(Clone, Copy, Debug)]
pub struct HeatRiskIndex(pub i64);

/// The excess of the temperature over its baseline, spread over fifteen
/// degrees and clamped into the unit interval.
pub open spec fn heat_risk_of(temp_c: int, baseline_c: int) -> int {
    let delta = if temp_c - baseline_c > 0 {
        temp_c - baseline_c
    } else {
        0
    };
    clamp_unit(delta / 15)
}

impl HeatRiskIndex {
    pub fn new(temp_c: i64, baseline_c: i64) -> (r: HeatRiskIndex)
        ensures
            r.0 == heat_risk_of(temp_c as int, baseline_c as int),
            0 <= r.0 <= SCALE,
    {
        let delta: i128 = if temp_c as i128 - baseline_c as i128 > 0 {
            temp_c as i128 - baseline_c as i128
        } else {
            0
        };
        proof {
            vstd::arithmetic::div_mod::lemma_div_pos_is_pos(delta as int, 15);
        }
        HeatRiskIndex(clamp_unit_exec(delta / 15))
    }
}

/// Toxin load in `[0, SCALE]` from a concentration in parts per billion.
#[derive(Clone, Copy, Debug)]
pub struct ToxinLoadIndex(pub i64);

/// The concentration relative to its safe maximum, capped at twice the
/// maximum and folded into the unit interval.  The safe maximum is floored
/// at one fixed-point step so that the ratio stays defined.
pub open spec fn toxin_load_of(ppb: int, safe_max_ppb: int) -> int {
    let den = if safe_max_ppb < 1 {
        1
    } else {
        safe_max_ppb
    };
    let ratio = div_tz(ppb * (SCALE as int), den);
    let capped = if ratio < 0 {
        0
    } else if ratio > 2 * SCALE {
        2 * (SCALE as int)
    } else {
        ratio
    };
    clamp_unit(capped / 2)
}

impl ToxinLoadIndex {
    pub fn from_ppb(ppb: i64, safe_max_ppb: i64) -> (r: ToxinLoadIndex)
        ensures
            r.0 == toxin_load_of(ppb as int, safe_max_ppb as int),
            0 <= r.0 <= SCALE,
    {
        let den: i64 = if safe_max_ppb < 1 {
            1
        } else {
            safe_max_ppb
        };
        proof {
            lemma_scaled_word_bounds(ppb as int);
        }
        let ratio: i128 = div_tz_exec((ppb as i128) * (SCALE as i128), den as i128);
        let capped: i128 = if ratio < 0 {
            0
        } else if ratio > 2 * (SCALE as i128) {
            2 * (SCALE as i128)
        } else {
            ratio
        };
        proof {
            vstd::arithmetic::div_mod::lemma_div_pos_is_pos(capped as int, 2);
        }
        ToxinLoadIndex(clamp_unit_exec(capped / 2))
    }
}

/// Habitat stability in `[0, SCALE]` from forage diversity and radius.
#[derive(Clone, Copy, Debug)]
pub struct HabitatStabilityIndex(pub i64);

/// Diversity blended with the radius relative to its minimum (capped at
/// twice the minimum); the minimum radius is floored at one step.
pub open spec fn habitat_stability_of(diversity: int, radius_m: int, min_radius_m: int) -> int {
    let d = clamp_unit(diversity);
    let den = if min_radius_m < 1 {
        1
    } else {
        min_radius_m
    };
    let ratio = div_tz(radius_m * (SCALE as int), den);
    let capped = if ratio < 0 {
        0
    } else if ratio > 2 * SCALE {
        2 * (SCALE as int)
    } else {
        ratio
    };
    let radius_factor = capped / 2;
    clamp_unit((6 * d + 4 * radius_factor) / 10)
}

impl HabitatStabilityIndex {
    pub fn new(diversity_index: i64, radius_m: i64, min_radius_m: i64) -> (r: HabitatStabilityIndex)
        ensures
            r.0 == habitat_stability_of(
                diversity_index as int,
                radius_m as int,
                min_radius_m as int,
            ),
            0 <= r.0 <= SCALE,
    {
        let d: i64 = clamp_unit_exec(diversity_index as i128);
        let den: i64 = if min_radius_m < 1 {
            1
        } else {
            min_radius_m
        };
        proof {
            lemma_scaled_word_bounds(radius_m as int);
        }
        let ratio: i128 = div_tz_exec((radius_m as i128) * (SCALE as i128), den as i128);
        let capped: i128 = if ratio < 0 {
            0
        } else if ratio > 2 * (SCALE as i128) {
            2 * (SCALE as i128)
        } else {
            ratio
        };
        proof {
            vstd::arithmetic::div_mod::lemma_div_pos_is_pos(capped as int, 2);
            vstd::arithmetic::div_mod::lemma_div_nonincreasing(capped as int, 2);
        }
        let radius_factor: i128 = capped / 2;
        proof {
            vstd::arithmetic::div_mod::lemma_div_pos_is_pos(
                6 * (d as int) + 4 * (radius_factor as int),
                10,
            );
        }
        HabitatStabilityIndex(clamp_unit_exec((6 * (d as i128) + 4 * radius_factor) / 10))
    }
}

/// Composite eco-impact score in `[0, 100 * SCALE]`; higher is better.
#[derive(Clone, Copy, Debug)]
pub struct EcoImpactScore(pub i64);

/// Blend of habitat quality against the mean of the two risk components,
/// stretched onto a zero-to-hundred scale.
pub open spec fn eco_score_of(heat: int, toxin: int, habitat: int) -> int {
    let risk = div_tz(heat + toxin, 2);
    let score = 10 * (7 * habitat + 3 * ((SCALE as int) - risk));
    if score < 0 {
        0
    } else if score > 100 * SCALE {
        100 * (SCALE as int)
    } else {
        score
    }
}

impl EcoImpactScore {
    pub fn from_indices(heat: HeatRiskIndex, toxin: ToxinLoadIndex, habitat: HabitatStabilityIndex)
        -> (r: EcoImpactScore)
        ensures
            r.0 == eco_score_of(heat.0 as int, toxin.0 as int, habitat.0 as int),
            0 <= r.0 <= 100 * SCALE,
    {
        let risk: i128 = div_tz_exec(heat.0 as i128 + toxin.0 as i128, 2);
        let score: i128 = 10 * (7 * (habitat.0 as i128) + 3 * ((SCALE as i128) - risk));
        if score < 0 {
            EcoImpactScore(0)
        } else if score > 100 * (SCALE as i128) {
            EcoImpactScore(100 * SCALE)
        } else {
            EcoImpactScore(score as i64)
        }
    }
}

/// Human-side eco-proxy metrics; explicitly human-only signals are kept
/// apart and never projected onto hive state.
#[derive(Debug)]
pub struct HumanEcoProxy {
    pub actor_human_id: String,
    /// Milliseconds since the Unix epoch.
    pub timestamp: i64,
    pub device_hour_displacement: i64,
    pub estimated_kwh_saved: i64,
    pub estimated_emissions_kg_co2e_avoided: i64,
    pub pollinator_habitat_area_m2: i64,
    pub pollinator_habitat_quality_index: i64,
    pub reduced_spray_events_count: u32,
    pub reduced_spray_volume_l: i64,
    pub reduced_light_pollution_hours: i64,
    pub reduced_noise_pollution_hours: i64,
    pub eco_impact_score: EcoImpactScore,
    pub human_only_pain_index: Option<i64>,
    pub human_only_tolerance_index: Option<i64>,
}

impl HumanEcoProxy {
    /// Build a proxy record; the heat and toxin components use neutral
    /// placeholders, since the actual hive metrics are hive-centered.
    pub fn new(
        actor_human_id: String,
        timestamp: i64,
        device_hour_displacement: i64,
        estimated_kwh_saved: i64,
        estimated_emissions_kg_co2e_avoided: i64,
        pollinator_habitat_area_m2: i64,
        pollinator_habitat_quality_index: i64,
        reduced_spray_events_count: u32,
        reduced_spray_volume_l: i64,
        reduced_light_pollution_hours: i64,
        reduced_noise_pollution_hours: i64,
    ) -> (r: HumanEcoProxy)
        ensures
            r.actor_human_id == actor_human_id,
            r.timestamp == timestamp,
            r.eco_impact_score.0 == eco_score_of(
                500,
                500,
                clamp_unit(pollinator_habitat_quality_index as int),
            ),
            r.human_only_pain_index is None,
            r.human_only_tolerance_index is None,
            r.pollinator_habitat_quality_index == pollinator_habitat_quality_index,
            r.pollinator_habitat_area_m2 == pollinator_habitat_area_m2,
            r.reduced_spray_events_count == reduced_spray_events_count,
            r.device_hour_displacement == device_hour_displacement,
            r.estimated_kwh_saved == estimated_kwh_saved,
            r.estimated_emissions_kg_co2e_avoided == estimated_emissions_kg_co2e_avoided,
            r.reduced_spray_volume_l == reduced_spray_volume_l,
            r.reduced_light_pollution_hours == reduced_light_pollution_hours,
            r.reduced_noise_pollution_hours == reduced_noise_pollution_hours,
    {
        let habitat_idx = HabitatStabilityIndex(
            clamp_unit_exec(pollinator_habitat_quality_index as i128),
        );
        let heat = HeatRiskIndex(500);
        let toxin = ToxinLoadIndex(500);
        let eco_impact_score = EcoImpactScore::from_indices(heat, toxin, habitat_idx);

        HumanEcoProxy {
            actor_human_id,
            timestamp,
            device_hour_displacement,
            estimated_kwh_saved,
            estimated_emissions_kg_co2e_avoided,
            pollinator_habitat_area_m2,
            pollinator_habitat_quality_index,
            reduced_spray_events_count,
            reduced_spray_volume_l,
            reduced_light_pollution_hours,
            reduced_noise_pollution_hours,
            eco_impact_score,
            human_only_pain_index: None,
            human_only_tolerance_index: None,
        }
    }
}

} // verus!
