//! Environmental-adjustment ledger for a single hive envelope.
//!
//! A proposed adjustment is validated against hard directional invariants in
//! a fixed order; the first violated invariant identifies the error and the
//! envelope and ledger are left untouched.  Only a fully validated
//! adjustment mutates the envelope, recomputes its band classification and
//! appends an immutable audit event.

use vstd::prelude::*;

use crate::SCALE;

verus! {

/// Risk envelope outcome for a governed hive.
#[derive(Clone, Copy, Debug, PartialEq, Eq, Structural)]
pub enum EcoBand {
    Safe,
    Warning,
    Critical,
}

/// Hive-centered envelope: raw metrics, their safe bounds and the derived
/// band classification.  All scalar fields are fixed point.
#[derive(Debug)]
pub struct HiveEnvelope {
    pub hive_id: String,
    pub brood_frames: u32,
    pub nectar_kg: i64,
    pub pollen_kg: i64,
    pub hive_temperature_c: i64,
    pub forager_load: i64,
    pub ambient_toxin_ppb: i64,
    pub forage_diversity_index: i64,
    pub forage_radius_m: i64,
    pub eco_band: EcoBand,
    pub eco_impact_score_corridor: i64,
    pub safe_temperature_c_min: i64,
    pub safe_temperature_c_max: i64,
    pub safe_toxin_ppb_max: i64,
    pub safe_forage_diversity_index_min: i64,
    pub safe_forage_radius_m_min: i64,
}

pub open spec fn temp_ok(env: HiveEnvelope) -> bool {
    env.safe_temperature_c_min <= env.hive_temperature_c <= env.safe_temperature_c_max
}

pub open spec fn toxin_ok(env: HiveEnvelope) -> bool {
    env.ambient_toxin_ppb <= env.safe_toxin_ppb_max
}

pub open spec fn forage_ok(env: HiveEnvelope) -> bool {
    env.forage_diversity_index >= env.safe_forage_diversity_index_min
        && env.forage_radius_m >= env.safe_forage_radius_m_min
}

/// Band classification: `Safe` when every check passes, `Critical` when
/// every check fails, `Warning` otherwise.
pub open spec fn band_of(env: HiveEnvelope) -> EcoBand {
    if temp_ok(env) && toxin_ok(env) && forage_ok(env) {
        EcoBand::Safe
    } else if !temp_ok(env) && !toxin_ok(env) && !forage_ok(env) {
        EcoBand::Critical
    } else {
        EcoBand::Warning
    }
}

impl HiveEnvelope {
    pub fn evaluate_band(&self) -> (r: EcoBand)
        ensures
            r == band_of(*self),
    {
        let temp_ok = self.hive_temperature_c >= self.safe_temperature_c_min
            && self.hive_temperature_c <= self.safe_temperature_c_max;
        let toxin_ok = self.ambient_toxin_ppb <= self.safe_toxin_ppb_max;
        let forage_ok = self.forage_diversity_index >= self.safe_forage_diversity_index_min
            && self.forage_radius_m >= self.safe_forage_radius_m_min;

        if temp_ok && toxin_ok && forage_ok {
            EcoBand::Safe
        } else if !temp_ok && !toxin_ok && !forage_ok {
            EcoBand::Critical
        } else {
            EcoBand::Warning
        }
    }

    /// Field-by-field copy, used for the pre/post audit snapshots.
    pub fn snapshot(&self) -> (r: HiveEnvelope)
        ensures
            r == *self,
    {
        HiveEnvelope {
            hive_id: self.hive_id.clone(),
            brood_frames: self.brood_frames,
            nectar_kg: self.nectar_kg,
            pollen_kg: self.pollen_kg,
            hive_temperature_c: self.hive_temperature_c,
            forager_load: self.forager_load,
            ambient_toxin_ppb: self.ambient_toxin_ppb,
            forage_diversity_index: self.forage_diversity_index,
            forage_radius_m: self.forage_radius_m,
            eco_band: self.eco_band,
            eco_impact_score_corridor: self.eco_impact_score_corridor,
            safe_temperature_c_min: self.safe_temperature_c_min,
            safe_temperature_c_max: self.safe_temperature_c_max,
            safe_toxin_ppb_max: self.safe_toxin_ppb_max,
            safe_forage_diversity_index_min: self.safe_forage_diversity_index_min,
            safe_forage_radius_m_min: self.safe_forage_radius_m_min,
        }
    }
}

/// Environmental deltas proposed for one hive; single use.
#[derive(Debug)]
pub struct HiveSystemAdjustment {
    pub id: String,
    /// Milliseconds since the Unix epoch, as stamped at creation.
    pub timestamp: i64,
    pub hive_id: String,
    /// Must be nonpositive: exposure may never grow.
    pub delta_pesticide_exposure_ppb: i64,
    /// Fraction of added shade in `[-SCALE, SCALE]`; may be positive.
    pub delta_shade_fraction: i64,
    pub delta_water_availability_index: i64,
    /// Must be nonnegative: no reduction below the safe minimum.
    pub delta_forage_radius_m: i64,
    /// Must be nonnegative.
    pub delta_forage_diversity_index: i64,
    /// Must be nonpositive.
    pub delta_artificial_light_nits: i64,
    /// Must be nonpositive.
    pub delta_noise_db: i64,
    /// Must be nonnegative.
    pub delta_eco_impact_score_corridor: i64,
}

/// Audit record of one accepted envelope mutation.
#[derive(Debug)]
pub struct HiveLedgerEvent {
    pub adjustment: HiveSystemAdjustment,
    pub pre_envelope: HiveEnvelope,
    pub post_envelope: HiveEnvelope,
}

/// The five rejection reasons, in validation order.
#[derive(Clone, Copy, Debug, PartialEq, Eq, Structural)]
pub enum HiveGuardError {
    IncreasesPesticideExposure,
    RaisesHiveTemperature,
    ReducesForageRadius,
    IncreasesLightOrNoise,
    DecreasesEcoImpactScore,
}

impl HiveGuardError {
    pub fn message(&self) -> &'static str {
        match self {
            HiveGuardError::IncreasesPesticideExposure => {
                "Adjustment would increase pesticide exposure"
            },
            HiveGuardError::RaisesHiveTemperature => {
                "Adjustment would raise hive temperature above safe band"
            },
            HiveGuardError::ReducesForageRadius => {
                "Adjustment would reduce forage radius below safe minimum"
            },
            HiveGuardError::IncreasesLightOrNoise => {
                "Adjustment would increase artificial light or noise"
            },
            HiveGuardError::DecreasesEcoImpactScore => {
                "Adjustment would decrease eco impact score corridor"
            },
        }
    }
}

/// Temperature change induced by a shade change: added shade cools by up to
/// five degrees, removed shade warms at half that slope.
pub open spec fn shade_delta(shade: int) -> int {
    let clamped = if shade < -(SCALE as int) {
        -(SCALE as int)
    } else if shade > SCALE as int {
        SCALE as int
    } else {
        shade
    };
    if clamped >= 0 {
        -5 * clamped
    } else {
        (5 * -clamped) / 2
    }
}

/// Simple shade model: more shade slightly reduces temperature, never heats.
pub fn temp_delta_from_shade(delta_shade_fraction: i64) -> (r: i64)
    ensures
        r == shade_delta(delta_shade_fraction as int),
        -5 * SCALE <= r <= 5 * SCALE / 2,
{
    let clamped: i64 = if delta_shade_fraction < -SCALE {
        -SCALE
    } else if delta_shade_fraction > SCALE {
        SCALE
    } else {
        delta_shade_fraction
    };
    if clamped >= 0 {
        let scaled: i64 = 5 * clamped;
        -scaled
    } else {
        let removed: i64 = -clamped;
        5 * removed / 2
    }
}

pub open spec fn projected_temperature(env: HiveEnvelope, adj: HiveSystemAdjustment) -> int {
    env.hive_temperature_c + shade_delta(adj.delta_shade_fraction as int)
}

pub open spec fn projected_radius(env: HiveEnvelope, adj: HiveSystemAdjustment) -> int {
    env.forage_radius_m + adj.delta_forage_radius_m
}

/// The first violated invariant for a set of proposed deltas, in the fixed
/// validation order, if any.
pub open spec fn guard_error_for(
    env: HiveEnvelope,
    d_pesticide: int,
    d_shade: int,
    d_radius: int,
    d_light: int,
    d_noise: int,
    d_eco: int,
) -> Option<HiveGuardError> {
    if d_pesticide > 0 {
        Some(HiveGuardError::IncreasesPesticideExposure)
    } else if env.hive_temperature_c + shade_delta(d_shade) > env.safe_temperature_c_max {
        Some(HiveGuardError::RaisesHiveTemperature)
    } else if env.forage_radius_m + d_radius < env.safe_forage_radius_m_min {
        Some(HiveGuardError::ReducesForageRadius)
    } else if d_light > 0 || d_noise > 0 {
        Some(HiveGuardError::IncreasesLightOrNoise)
    } else if d_eco < 0 {
        Some(HiveGuardError::DecreasesEcoImpactScore)
    } else {
        None
    }
}

/// The first violated invariant of an adjustment, if any.
pub open spec fn adjustment_error(env: HiveEnvelope, adj: HiveSystemAdjustment) -> Option<
    HiveGuardError,
> {
    guard_error_for(
        env,
        adj.delta_pesticide_exposure_ppb as int,
        adj.delta_shade_fraction as int,
        adj.delta_forage_radius_m as int,
        adj.delta_artificial_light_nits as int,
        adj.delta_noise_db as int,
        adj.delta_eco_impact_score_corridor as int,
    )
}

/// The envelope after a fully validated set of deltas.
pub open spec fn adjusted_for(
    env: HiveEnvelope,
    d_pesticide: int,
    d_shade: int,
    d_radius: int,
    d_diversity: int,
    d_eco: int,
) -> HiveEnvelope {
    let post = HiveEnvelope {
        ambient_toxin_ppb: (env.ambient_toxin_ppb + d_pesticide) as i64,
        forage_radius_m: (env.forage_radius_m + d_radius) as i64,
        forage_diversity_index: crate::clamp_unit(env.forage_diversity_index + d_diversity) as i64,
        hive_temperature_c: (env.hive_temperature_c + shade_delta(d_shade)) as i64,
        eco_impact_score_corridor: (env.eco_impact_score_corridor + d_eco) as i64,
        ..env
    };
    HiveEnvelope { eco_band: band_of(post), ..post }
}

/// The envelope after a fully validated adjustment.
pub open spec fn adjusted_envelope(env: HiveEnvelope, adj: HiveSystemAdjustment) -> HiveEnvelope {
    adjusted_for(
        env,
        adj.delta_pesticide_exposure_ppb as int,
        adj.delta_shade_fraction as int,
        adj.delta_forage_radius_m as int,
        adj.delta_forage_diversity_index as int,
        adj.delta_eco_impact_score_corridor as int,
    )
}

/// Append-only history of the accepted, validated adjustments of one hive.
#[derive(Debug)]
pub struct HiveInnerLedger {
    events: Vec<HiveLedgerEvent>,
}

impl View for HiveInnerLedger {
    type V = Seq<HiveLedgerEvent>;

    closed spec fn view(&self) -> Seq<HiveLedgerEvent> {
        self.events@
    }
}

impl HiveInnerLedger {
    pub fn new() -> (r: HiveInnerLedger)
        ensures
            r@ == Seq::<HiveLedgerEvent>::empty(),
    {
        HiveInnerLedger { events: Vec::new() }
    }

    pub fn events(&self) -> (r: &Vec<HiveLedgerEvent>)
        ensures
            r@ == self@,
    {
        &self.events
    }

    /// Apply an adjustment under the hard directional invariants.
    ///
    /// The application is atomic: on any rejection the returned error names
    /// the first violated invariant and the ledger is unchanged; only a
    /// fully validated adjustment produces a mutated envelope and exactly
    /// one appended audit event holding the pre- and post-mutation
    /// snapshots.
    pub fn apply_adjustment(&mut self, env: HiveEnvelope, adj: HiveSystemAdjustment) -> (r: Result<
        HiveEnvelope,
        HiveGuardError,
    >)
        requires
            i64::MIN <= projected_temperature(env, adj) <= i64::MAX,
            i64::MIN <= projected_radius(env, adj) <= i64::MAX,
            i64::MIN <= env.ambient_toxin_ppb + adj.delta_pesticide_exposure_ppb <= i64::MAX,
            i64::MIN <= env.forage_diversity_index + adj.delta_forage_diversity_index <= i64::MAX,
            i64::MIN <= env.eco_impact_score_corridor + adj.delta_eco_impact_score_corridor
                <= i64::MAX,
        ensures
            r is Ok <==> adjustment_error(env, adj) is None,
            adjustment_error(env, adj) matches Some(e) ==> r == Result::<
                HiveEnvelope,
                HiveGuardError,
            >::Err(e),
            r is Err ==> final(self)@ == old(self)@,
            r matches Ok(post) ==> post == adjusted_envelope(env, adj) && final(self)@ == old(
                self,
            )@.push(
                HiveLedgerEvent {
                    adjustment: adj,
                    pre_envelope: env,
                    post_envelope: adjusted_envelope(env, adj),
                },
            ),
    {
        if adj.delta_pesticide_exposure_ppb > 0 {
            return Err(HiveGuardError::IncreasesPesticideExposure);
        }
        let projected_temp = env.hive_temperature_c + temp_delta_from_shade(
            adj.delta_shade_fraction,
        );
        if projected_temp > env.safe_temperature_c_max {
            return Err(HiveGuardError::RaisesHiveTemperature);
        }
        let projected_radius = env.forage_radius_m + adj.delta_forage_radius_m;
        if projected_radius < env.safe_forage_radius_m_min {
            return Err(HiveGuardError::ReducesForageRadius);
        }
        if adj.delta_artificial_light_nits > 0 || adj.delta_noise_db > 0 {
            return Err(HiveGuardError::IncreasesLightOrNoise);
        }
        if adj.delta_eco_impact_score_corridor < 0 {
            return Err(HiveGuardError::DecreasesEcoImpactScore);
        }

        let raw_diversity_wide: i128 = env.forage_diversity_index as i128
            + adj.delta_forage_diversity_index as i128;
        let mut post = HiveEnvelope {
            ambient_toxin_ppb: env.ambient_toxin_ppb + adj.delta_pesticide_exposure_ppb,
            forage_radius_m: projected_radius,
            forage_diversity_index: crate::clamp_unit_exec(raw_diversity_wide),
            hive_temperature_c: projected_temp,
            eco_impact_score_corridor: env.eco_impact_score_corridor
                + adj.delta_eco_impact_score_corridor,
            ..env.snapshot()
        };
        post.eco_band = post.evaluate_band();

        let event = HiveLedgerEvent {
            adjustment: adj,
            pre_envelope: env,
            post_envelope: post.snapshot(),
        };
        self.events.push(event);
        Ok(post)
    }
}

/// Risk envelope classification for external callers.
#[derive(Clone, Copy, Debug, PartialEq, Eq, Structural)]
pub enum RiskEnvelope {
    Safe,
    Warning,
    Critical,
}

pub open spec fn risk_class_of(env: HiveEnvelope) -> RiskEnvelope {
    match band_of(env) {
        EcoBand::Safe => RiskEnvelope::Safe,
        EcoBand::Warning => RiskEnvelope::Warning,
        EcoBand::Critical => RiskEnvelope::Critical,
    }
}

pub fn classify_risk(env: &HiveEnvelope) -> (r: RiskEnvelope)
    ensures
        r == risk_class_of(*env),
{
    match env.evaluate_band() {
        EcoBand::Safe => RiskEnvelope::Safe,
        EcoBand::Warning => RiskEnvelope::Warning,
        EcoBand::Critical => RiskEnvelope::Critical,
    }
}

} // verus!
