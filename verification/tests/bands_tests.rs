use beecorridor::bands::{
    compute_residual, register, to_risk, validate_complete, ConfigurationError, CorridorBands,
    Residual, RiskCoord,
};
use beecorridor::hive::{
    corridor_present, evaluate_hive, policy_allows_adjustment, safe_step, EcoBand, HiveCorridors,
    HiveEnvelope,
};
use beecorridor::SCALE;

fn band(safe: i64, gold: i64, hard: i64, weight: i64, mandatory: bool) -> CorridorBands {
    CorridorBands::new("var", "dimensionless", safe, gold, hard, weight, 1, mandatory)
}

#[test]
fn normalization_saturates_and_interpolates() {
    let b = band(0, 1_000, 2_000, 1_000, true);
    // at or below the safe threshold the risk is exactly zero
    assert_eq!(to_risk(-5_000, &b), 0);
    assert_eq!(to_risk(0, &b), 0);
    // at or above the hard threshold the risk is exactly one
    assert_eq!(to_risk(2_000, &b), SCALE);
    assert_eq!(to_risk(9_000, &b), SCALE);
    // halfway through the corridor the risk is one half
    assert_eq!(to_risk(1_000, &b), 500);
    // monotone: a higher measurement never gives a lower risk
    assert!(to_risk(600, &b) <= to_risk(700, &b));
}

#[test]
fn degenerate_band_returns_exactly_zero_or_one() {
    let b = band(1_000, 1_000, 1_000, 1_000, true);
    assert_eq!(to_risk(999, &b), 0);
    assert_eq!(to_risk(1_000, &b), 0);
    assert_eq!(to_risk(1_001, &b), SCALE);
}

#[test]
fn register_rejects_malformed_bands_in_order() {
    assert!(register(band(0, 500, 1_000, 100, true)).is_ok());
    assert_eq!(
        register(band(600, 500, 1_000, 100, true)).unwrap_err(),
        ConfigurationError::SafeAboveGold
    );
    assert_eq!(
        register(band(0, 1_500, 1_000, 100, true)).unwrap_err(),
        ConfigurationError::GoldAboveHard
    );
    assert_eq!(
        register(band(0, 500, 1_000, -1, true)).unwrap_err(),
        ConfigurationError::NegativeWeight
    );
}

#[test]
fn validate_complete_checks_mandatory_bands_only() {
    let good = vec![band(0, 500, 1_000, 100, true), band(0, 0, 0, 100, false)];
    assert!(validate_complete(&good));
    let bad = vec![band(0, 500, 1_000, 100, true), band(0, 0, 0, 100, true)];
    assert!(!validate_complete(&bad));
}

#[test]
fn residual_is_the_weighted_sum() {
    let b = band(0, 500, 1_000, 2_000, true);
    let coords = vec![
        RiskCoord { var_id: "a", value: 500, sigma: 50, bands: b },
        RiskCoord { var_id: "b", value: 250, sigma: 50, bands: b },
    ];
    // 2.0 * 0.5 + 2.0 * 0.25 = 1.5
    assert_eq!(compute_residual(&coords), 1_500);
}

fn hive_corridors() -> HiveCorridors {
    HiveCorridors {
        temp_bands: CorridorBands::new("hive_temp", "C", 35_000, 36_000, 38_000, 1_000, 1, true),
        brood_temp_bands: CorridorBands::new("brood_temp", "C", 35_000, 36_000, 38_000, 1_000, 2, true),
        humidity_bands: CorridorBands::new("humidity", "pct", 60_000, 70_000, 80_000, 500, 3, true),
        toxin_air_bands: CorridorBands::new("toxin_air", "index", 200, 500, 1_000, 2_000, 4, true),
        toxin_wax_bands: CorridorBands::new("toxin_wax", "index", 200, 500, 1_000, 2_000, 5, true),
        forage_radius_bands: CorridorBands::new("forage", "km", 2_000, 3_000, 5_000, 500, 6, true),
        forager_load_bands: CorridorBands::new("load", "pct", 700, 850, 1_000, 1_000, 7, true),
    }
}

fn calm_hive() -> HiveEnvelope {
    HiveEnvelope {
        hive_id: "hive-A".to_string(),
        region: "north".to_string(),
        brood_temp_c: 34_000,
        hive_temp_c: 34_500,
        hive_humidity_pct: 55_000,
        nectar_kg: 12_000,
        pollen_kg: 4_000,
        forager_load_pct: 600,
        toxin_index_air: 100,
        toxin_index_wax: 150,
        forage_radius_km: 1_500,
        eco_band: EcoBand::Safe,
    }
}

#[test]
fn corridor_present_requires_wellformed_mandatory_bands() {
    let good = hive_corridors();
    assert!(corridor_present(&good));
    let mut bad = hive_corridors();
    bad.toxin_air_bands = CorridorBands::new("toxin_air", "index", 200, 500, 0, 2_000, 4, true);
    assert!(!corridor_present(&bad));
}

#[test]
fn calm_hive_evaluates_clean() {
    let r = evaluate_hive(&calm_hive(), &hive_corridors());
    assert_eq!(r.vt, 0);
    assert!(!r.derate);
    assert!(!r.stop);
    assert_eq!(r.coords.len(), 7);
}

#[test]
fn hard_breach_forces_stop() {
    let mut env = calm_hive();
    env.toxin_index_air = 1_500;
    let r = evaluate_hive(&env, &hive_corridors());
    assert!(r.stop);
    // a saturated coordinate is also past its gold threshold, so the same
    // coordinate derates as well
    assert!(r.derate);
    // the toxin coordinate saturated: weight 2.0 times risk 1.0
    assert_eq!(r.vt, 2_000);
}

#[test]
fn gold_penetration_forces_derate() {
    let mut env = calm_hive();
    // risk (36.5 - 35) / (38 - 35) = 0.5, above the normalized gold 1/3
    env.hive_temp_c = 36_500;
    let r = evaluate_hive(&env, &hive_corridors());
    assert!(r.derate);
    assert!(!r.stop);
}

#[test]
fn policy_blocks_toxin_growth_and_forage_shrink() {
    let corridors = hive_corridors();
    let before = calm_hive();

    let mut more_toxin = calm_hive();
    more_toxin.toxin_index_air = 300;
    assert!(!policy_allows_adjustment(&before, &more_toxin, &corridors));

    let mut waxier = calm_hive();
    waxier.toxin_index_wax = 200;
    assert!(!policy_allows_adjustment(&before, &waxier, &corridors));

    // the normalized forage-radius risk may not grow across an adjustment
    let mut shrunk = calm_hive();
    shrunk.forage_radius_km = 1_000;
    assert!(policy_allows_adjustment(&before, &shrunk, &corridors));
    let mut grown = calm_hive();
    grown.forage_radius_km = 4_000;
    assert!(!policy_allows_adjustment(&before, &grown, &corridors));

    let unchanged = calm_hive();
    assert!(policy_allows_adjustment(&before, &unchanged, &corridors));
}

#[test]
fn worsening_outside_safe_interior_trips_the_ratchet() {
    let b = band(0, 500, 1_000, 1_000, true);
    let prev = Residual {
        vt: 200,
        coords: vec![RiskCoord { var_id: "a", value: 200, sigma: 50, bands: b }],
        derate: false,
        stop: false,
    };
    let next = Residual {
        vt: 350,
        coords: vec![RiskCoord { var_id: "a", value: 350, sigma: 50, bands: b }],
        derate: false,
        stop: false,
    };
    let decision = safe_step(&prev, &next);
    assert!(decision.derate);
    assert!(decision.stop);
    assert_eq!(decision.vt, 350);
}

#[test]
fn improvement_keeps_flags_clear() {
    let b = band(0, 500, 1_000, 1_000, true);
    let prev = Residual {
        vt: 350,
        coords: vec![RiskCoord { var_id: "a", value: 350, sigma: 50, bands: b }],
        derate: false,
        stop: false,
    };
    let next = Residual {
        vt: 200,
        coords: vec![RiskCoord { var_id: "a", value: 200, sigma: 50, bands: b }],
        derate: false,
        stop: false,
    };
    let decision = safe_step(&prev, &next);
    assert!(!decision.derate);
    assert!(!decision.stop);
}

#[test]
fn hard_breach_in_next_forces_stop_regardless_of_trend() {
    let b = band(0, 500, 1_000, 1_000, true);
    let prev = Residual {
        vt: 1_200,
        coords: vec![RiskCoord { var_id: "a", value: 900, sigma: 50, bands: b }],
        derate: false,
        stop: false,
    };
    let next = Residual {
        vt: 1_000,
        coords: vec![RiskCoord { var_id: "a", value: 1_000, sigma: 50, bands: b }],
        derate: false,
        stop: false,
    };
    let decision = safe_step(&prev, &next);
    assert!(decision.stop);
    assert!(!decision.derate);
}
