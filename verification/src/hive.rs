//! Hive-level corridor evaluation: residual computation, the monotonicity
//! ("does not get worse once unsafe") guard, and the adjustment policy gate.

use vstd::prelude::*;

use crate::bands::{
    band_enforceable, compute_residual, coord_in_range, coords_in_range, lemma_coord_term_bounds,
    lemma_risk_bounds, residual_total, risk_of, to_risk, CorridorBands, Residual, RiskCoord,
};
use crate::MAG;
use crate::SCALE;

verus! {

/// Risk envelope outcome for a hive.
#[derive(Clone, Copy, Debug, PartialEq, Eq, Structural)]
pub enum EcoBand {
    Safe,
    Warning,
    Critical,
}

/// Hive-centered envelope: hive and landscape metrics only.
#[derive(Clone, Debug)]
pub struct HiveEnvelope {
    pub hive_id: String,
    pub region: String,
    /// Core hive metrics (raw physical values, fixed point).
    pub brood_temp_c: i64,
    pub hive_temp_c: i64,
    pub hive_humidity_pct: i64,
    pub nectar_kg: i64,
    pub pollen_kg: i64,
    /// Fraction of foragers vs. sustainable load.
    pub forager_load_pct: i64,
    /// Normalized pesticide index in the air.
    pub toxin_index_air: i64,
    pub toxin_index_wax: i64,
    pub forage_radius_km: i64,
    pub eco_band: EcoBand,
}

/// Environmental, landscape-level adjustment; never direct bee actuation.
#[derive(Clone, Debug)]
pub struct HiveSystemAdjustment {
    pub hive_id: String,
    pub delta_wildflower_area_m2: i64,
    pub delta_pesticide_use_pct: i64,
    pub delta_irrigation_m3_per_day: i64,
    pub delta_light_pollution_lm: i64,
    pub delta_foraging_corridor_km: i64,
    pub rationale: &'static str,
}

/// Corridors required for hive safety.
#[derive(Clone, Copy, Debug)]
pub struct HiveCorridors {
    pub temp_bands: CorridorBands,
    pub brood_temp_bands: CorridorBands,
    pub humidity_bands: CorridorBands,
    pub toxin_air_bands: CorridorBands,
    pub toxin_wax_bands: CorridorBands,
    pub forage_radius_bands: CorridorBands,
    pub forager_load_bands: CorridorBands,
}

/// Policy thresholds summarized for the hive corridor state.
#[derive(Clone, Copy, Debug)]
pub struct HiveKER {
    /// Coverage of critical hive variables, in `[0, SCALE]`.
    pub knowledge_factor: i64,
    /// Eco benefit kernel, in `[0, SCALE]`.
    pub eco_impact: i64,
    /// Residual corridor penetration, in `[0, SCALE]`.
    pub risk_of_harm: i64,
}

pub open spec fn corridor_seq(c: HiveCorridors) -> Seq<CorridorBands> {
    seq![
        c.temp_bands,
        c.brood_temp_bands,
        c.humidity_bands,
        c.toxin_air_bands,
        c.toxin_wax_bands,
        c.forage_radius_bands,
        c.forager_load_bands,
    ]
}

/// No-corridor, no-build invariant: all mandatory corridors must be present
/// and well-formed before a hive can be admitted to the governed stack.
pub fn corridor_present(c: &HiveCorridors) -> (r: bool)
    ensures
        r == (band_enforceable(c.temp_bands) && band_enforceable(c.brood_temp_bands)
            && band_enforceable(c.humidity_bands) && band_enforceable(c.toxin_air_bands)
            && band_enforceable(c.toxin_wax_bands) && band_enforceable(c.forage_radius_bands)
            && band_enforceable(c.forager_load_bands)),
{
    let mut ok: bool = enforceable(&c.temp_bands);
    ok = ok && enforceable(&c.brood_temp_bands);
    ok = ok && enforceable(&c.humidity_bands);
    ok = ok && enforceable(&c.toxin_air_bands);
    ok = ok && enforceable(&c.toxin_wax_bands);
    ok = ok && enforceable(&c.forage_radius_bands);
    ok = ok && enforceable(&c.forager_load_bands);
    ok
}

fn enforceable(b: &CorridorBands) -> (r: bool)
    ensures
        r == band_enforceable(*b),
{
    !b.mandatory || (b.hard > 0 && b.gold <= b.hard && b.safe <= b.gold)
}

/// The normalized risk coordinate built for one measurement.
pub open spec fn hive_coord(measured: i64, sigma: i64, b: CorridorBands) -> RiskCoord {
    RiskCoord {
        var_id: b.var_id,
        value: risk_of(measured as int, b.safe as int, b.hard as int) as i64,
        sigma,
        bands: b,
    }
}

/// The seven risk coordinates of one hive evaluation, in a fixed order.
pub open spec fn hive_coord_seq(env: HiveEnvelope, c: HiveCorridors) -> Seq<RiskCoord> {
    seq![
        hive_coord(env.hive_temp_c, 50, c.temp_bands),
        hive_coord(env.brood_temp_c, 50, c.brood_temp_bands),
        hive_coord(env.hive_humidity_pct, 50, c.humidity_bands),
        hive_coord(env.toxin_index_air, 100, c.toxin_air_bands),
        hive_coord(env.toxin_index_wax, 100, c.toxin_wax_bands),
        hive_coord(env.forage_radius_km, 50, c.forage_radius_bands),
        hive_coord(env.forager_load_pct, 50, c.forager_load_bands),
    ]
}

/// The gold threshold mapped into the same normalized scale as the hard
/// threshold, so that the derate comparison reads both sides in `[0, SCALE]`.
pub open spec fn gold_norm(b: CorridorBands) -> int {
    risk_of(b.gold as int, b.safe as int, b.hard as int)
}

/// A hard-limit breach: some coordinate has saturated at `SCALE`.
pub open spec fn has_hard_breach(coords: Seq<RiskCoord>) -> bool {
    exists|i: int| 0 <= i < coords.len() && #[trigger] coords[i].value >= SCALE
}

/// A gold-band penetration: some coordinate's risk exceeds its band's gold
/// threshold, read in the same normalized scale as the hard threshold.  A
/// coordinate saturated at the hard limit counts too, so a hard breach also
/// derates whenever its gold threshold lies strictly below the hard one.
pub open spec fn has_gold_breach(coords: Seq<RiskCoord>) -> bool {
    exists|i: int|
        0 <= i < coords.len() && #[trigger] coords[i].value > gold_norm(coords[i].bands)
}

/// Weights bounded by `MAG`, so that the residual total cannot overflow.
pub open spec fn corridor_weights_bounded(c: HiveCorridors) -> bool {
    forall|i: int| 0 <= i < corridor_seq(c).len() ==> 0 <= (#[trigger] corridor_seq(c)[i]).weight
        <= MAG
}

/// Compute the hive residual and its derate / stop classification.
///
/// Each coordinate is normalized with [`to_risk`]; a coordinate at `SCALE`
/// is a hard breach and forces `stop`, and any coordinate strictly above
/// its normalized gold threshold forces `derate`, whether or not it has
/// saturated.  The two flags are set independently, so one coordinate can
/// raise both.
pub fn evaluate_hive(env: &HiveEnvelope, corridors: &HiveCorridors) -> (r: Residual)
    requires
        corridor_weights_bounded(*corridors),
    ensures
        r.coords@ == hive_coord_seq(*env, *corridors),
        r.vt == residual_total(r.coords@),
        r.vt >= 0,
        r.stop == has_hard_breach(r.coords@),
        r.derate == has_gold_breach(r.coords@),
{
    let mut coords: Vec<RiskCoord> = Vec::new();
    push_coord(&mut coords, env.hive_temp_c, 50, &corridors.temp_bands);
    push_coord(&mut coords, env.brood_temp_c, 50, &corridors.brood_temp_bands);
    push_coord(&mut coords, env.hive_humidity_pct, 50, &corridors.humidity_bands);
    push_coord(&mut coords, env.toxin_index_air, 100, &corridors.toxin_air_bands);
    push_coord(&mut coords, env.toxin_index_wax, 100, &corridors.toxin_wax_bands);
    push_coord(&mut coords, env.forage_radius_km, 50, &corridors.forage_radius_bands);
    push_coord(&mut coords, env.forager_load_pct, 50, &corridors.forager_load_bands);
    proof {
        assert(coords@ =~= hive_coord_seq(*env, *corridors));
        assert forall|i: int| 0 <= i < coords@.len() implies coord_in_range(
            #[trigger] coords@[i],
        ) by {
            let c = coords@[i];
            lemma_risk_bounds(
                hive_measure(*env, i),
                c.bands.safe as int,
                c.bands.hard as int,
            );
            assert(c.bands == corridor_seq(*corridors)[i]);
        }
        assert forall|i: int| 0 <= i < coords@.len() implies (#[trigger] coords@[i]).bands.weight
            <= MAG by {
            assert(coords@[i].bands == corridor_seq(*corridors)[i]);
        }
        lemma_hive_total_bounded(coords@);
    }

    let vt = compute_residual(&coords);

    let mut derate: bool = false;
    let mut stop: bool = false;
    let mut i: usize = 0;
    while i < coords.len()
        invariant
            0 <= i <= coords@.len(),
            coords_in_range(coords@),
            stop == has_hard_breach(coords@.subrange(0, i as int)),
            derate == has_gold_breach(coords@.subrange(0, i as int)),
        decreases coords@.len() - i,
    {
        let c = &coords[i];
        let ghost pre = coords@.subrange(0, i as int);
        if c.value >= SCALE {
            stop = true;
        }
        let g = to_risk(c.bands.gold, &c.bands);
        if c.value > g {
            derate = true;
        }
        proof {
            let post = coords@.subrange(0, i + 1);
            assert(post.drop_last() =~= pre);
            assert(forall|j: int| 0 <= j < pre.len() ==> post[j] == pre[j]);
            assert(post[i as int] == coords@[i as int]);
        }
        i = i + 1;
    }
    proof {
        assert(coords@.subrange(0, coords@.len() as int) =~= coords@);
    }

    Residual { vt, coords, derate, stop }
}

/// The raw measurement feeding coordinate `i` of [`hive_coord_seq`].
pub open spec fn hive_measure(env: HiveEnvelope, i: int) -> int {
    if i == 0 {
        env.hive_temp_c as int
    } else if i == 1 {
        env.brood_temp_c as int
    } else if i == 2 {
        env.hive_humidity_pct as int
    } else if i == 3 {
        env.toxin_index_air as int
    } else if i == 4 {
        env.toxin_index_wax as int
    } else if i == 5 {
        env.forage_radius_km as int
    } else {
        env.forager_load_pct as int
    }
}

fn push_coord(coords: &mut Vec<RiskCoord>, measured: i64, sigma: i64, b: &CorridorBands)
    ensures
        final(coords)@ == old(coords)@.push(hive_coord(measured, sigma, *b)),
{
    let value = to_risk(measured, b);
    coords.push(RiskCoord { var_id: b.var_id, value, sigma, bands: *b });
}

proof fn lemma_hive_total_bounded(s: Seq<RiskCoord>)
    requires
        coords_in_range(s),
        forall|i: int| 0 <= i < s.len() ==> (#[trigger] s[i]).bands.weight <= MAG,
    ensures
        0 <= residual_total(s) <= s.len() * MAG,
    decreases s.len(),
{
    if s.len() == 0 {
    } else {
        assert(coords_in_range(s.drop_last()));
        lemma_hive_total_bounded(s.drop_last());
        lemma_coord_term_bounds(s.last());
        assert((s.len() - 1) * (MAG as int) + MAG == s.len() * MAG) by (nonlinear_arith);
    }
}

/// Whether the previous snapshot had already left the fully safe interior:
/// at least one coordinate with strictly positive risk.
pub open spec fn outside_safe_interior(prev: Residual) -> bool {
    exists|i: int| 0 <= i < prev.coords@.len() && #[trigger] prev.coords@[i].value > 0
}

/// The worsening condition of the ratchet: the aggregate potential grew
/// while the system was already outside the safe interior.
pub open spec fn worsened(prev: Residual, next: Residual) -> bool {
    next.vt > prev.vt && outside_safe_interior(prev)
}

/// Runtime monotonicity guard: once the system has left the safe interior,
/// its aggregate potential may not grow; a growing potential forces both
/// `derate` and `stop`, and any hard-limit breach in the next snapshot
/// forces `stop` regardless of trend.
pub fn safe_step(prev: &Residual, next: &Residual) -> (r: Residual)
    ensures
        r.vt == next.vt,
        r.coords@ == next.coords@,
        r.derate == (next.derate || worsened(*prev, *next)),
        r.stop == (next.stop || worsened(*prev, *next) || has_hard_breach(next.coords@)),
{
    let mut derate = next.derate;
    let mut stop = next.stop;

    if next.vt > prev.vt && any_positive(&prev.coords) {
        derate = true;
        stop = true;
    }
    if any_hard_breach(&next.coords) {
        stop = true;
    }

    Residual { vt: next.vt, coords: copy_coords(&next.coords), derate, stop }
}

fn any_positive(coords: &Vec<RiskCoord>) -> (r: bool)
    ensures
        r == exists|i: int| 0 <= i < coords@.len() && #[trigger] coords@[i].value > 0,
{
    let mut i: usize = 0;
    while i < coords.len()
        invariant
            0 <= i <= coords@.len(),
            forall|j: int| 0 <= j < i ==> !(#[trigger] coords@[j].value > 0),
        decreases coords@.len() - i,
    {
        if coords[i].value > 0 {
            return true;
        }
        i = i + 1;
    }
    false
}

fn any_hard_breach(coords: &Vec<RiskCoord>) -> (r: bool)
    ensures
        r == has_hard_breach(coords@),
{
    let mut i: usize = 0;
    while i < coords.len()
        invariant
            0 <= i <= coords@.len(),
            forall|j: int| 0 <= j < i ==> !(#[trigger] coords@[j].value >= SCALE),
        decreases coords@.len() - i,
    {
        if coords[i].value >= SCALE {
            return true;
        }
        i = i + 1;
    }
    false
}

fn copy_coords(coords: &Vec<RiskCoord>) -> (r: Vec<RiskCoord>)
    ensures
        r@ == coords@,
{
    let mut out: Vec<RiskCoord> = Vec::new();
    let mut i: usize = 0;
    while i < coords.len()
        invariant
            0 <= i <= coords@.len(),
            out@ =~= coords@.subrange(0, i as int),
        decreases coords@.len() - i,
    {
        out.push(coords[i]);
        i = i + 1;
    }
    proof {
        assert(coords@.subrange(0, coords@.len() as int) =~= coords@);
    }
    out
}

/// The adjustment policy: toxin indices may not grow, the hive temperature
/// risk may not move out of the safe band, and the forage-radius risk may
/// not grow.
pub open spec fn policy_allows(
    before: HiveEnvelope,
    after: HiveEnvelope,
    corridors: HiveCorridors,
) -> bool {
    &&& after.toxin_index_air <= before.toxin_index_air
    &&& after.toxin_index_wax <= before.toxin_index_wax
    &&& {
        let tb = corridors.temp_bands;
        let r_before = risk_of(before.hive_temp_c as int, tb.safe as int, tb.hard as int);
        let r_after = risk_of(after.hive_temp_c as int, tb.safe as int, tb.hard as int);
        !(r_before <= tb.safe && r_after > tb.safe)
    }
    &&& {
        let fb = corridors.forage_radius_bands;
        risk_of(after.forage_radius_km as int, fb.safe as int, fb.hard as int) <= risk_of(
            before.forage_radius_km as int,
            fb.safe as int,
            fb.hard as int,
        )
    }
}

/// Example policy gate: no action may increase pesticide exposure, push the
/// hive temperature out of its safe band, or shrink the forage radius below
/// its corridor.
pub fn policy_allows_adjustment(
    envelope_before: &HiveEnvelope,
    envelope_after: &HiveEnvelope,
    corridors: &HiveCorridors,
) -> (r: bool)
    ensures
        r == policy_allows(*envelope_before, *envelope_after, *corridors),
{
    if envelope_after.toxin_index_air > envelope_before.toxin_index_air {
        return false;
    }
    if envelope_after.toxin_index_wax > envelope_before.toxin_index_wax {
        return false;
    }

    let r_before_temp = to_risk(envelope_before.hive_temp_c, &corridors.temp_bands);
    let r_after_temp = to_risk(envelope_after.hive_temp_c, &corridors.temp_bands);
    if r_before_temp <= corridors.temp_bands.safe && r_after_temp > corridors.temp_bands.safe {
        return false;
    }

    let r_before_forage = to_risk(envelope_before.forage_radius_km, &corridors.forage_radius_bands);
    let r_after_forage = to_risk(envelope_after.forage_radius_km, &corridors.forage_radius_bands);
    if r_after_forage > r_before_forage {
        return false;
    }

    true
}

} // verus!
