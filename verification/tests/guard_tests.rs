use beecorridor::guard::{
    classify_risk, temp_delta_from_shade, EcoBand, HiveEnvelope, HiveGuardError, HiveInnerLedger,
    HiveSystemAdjustment, RiskEnvelope,
};

fn healthy_hive() -> HiveEnvelope {
    HiveEnvelope {
        hive_id: "hive-alpha".to_string(),
        brood_frames: 8,
        nectar_kg: 12_000,
        pollen_kg: 4_500,
        hive_temperature_c: 34_000,
        forager_load: 700,
        ambient_toxin_ppb: 20_000,
        forage_diversity_index: 800,
        forage_radius_m: 1_500_000,
        eco_band: EcoBand::Safe,
        eco_impact_score_corridor: 75_000,
        safe_temperature_c_min: 32_000,
        safe_temperature_c_max: 36_000,
        safe_toxin_ppb_max: 50_000,
        safe_forage_diversity_index_min: 500,
        safe_forage_radius_m_min: 1_000_000,
    }
}

fn neutral_adjustment(hive_id: &str) -> HiveSystemAdjustment {
    HiveSystemAdjustment {
        id: format!("adj-{}", hive_id),
        timestamp: 0,
        hive_id: hive_id.to_string(),
        delta_pesticide_exposure_ppb: 0,
        delta_shade_fraction: 0,
        delta_water_availability_index: 0,
        delta_forage_radius_m: 0,
        delta_forage_diversity_index: 0,
        delta_artificial_light_nits: 0,
        delta_noise_db: 0,
        delta_eco_impact_score_corridor: 0,
    }
}

fn envelopes_equal(a: &HiveEnvelope, b: &HiveEnvelope) -> bool {
    a.hive_id == b.hive_id && a.brood_frames == b.brood_frames && a.nectar_kg == b.nectar_kg
        && a.pollen_kg == b.pollen_kg && a.hive_temperature_c == b.hive_temperature_c
        && a.forager_load == b.forager_load && a.ambient_toxin_ppb == b.ambient_toxin_ppb
        && a.forage_diversity_index == b.forage_diversity_index
        && a.forage_radius_m == b.forage_radius_m && a.eco_band == b.eco_band
        && a.eco_impact_score_corridor == b.eco_impact_score_corridor
        && a.safe_temperature_c_min == b.safe_temperature_c_min
        && a.safe_temperature_c_max == b.safe_temperature_c_max
        && a.safe_toxin_ppb_max == b.safe_toxin_ppb_max
        && a.safe_forage_diversity_index_min == b.safe_forage_diversity_index_min
        && a.safe_forage_radius_m_min == b.safe_forage_radius_m_min
}

#[test]
fn pesticide_increase_is_rejected_atomically() {
    let mut ledger = HiveInnerLedger::new();
    let hive = healthy_hive();
    let pre = hive.snapshot();
    let mut adj = neutral_adjustment("hive-alpha");
    adj.delta_pesticide_exposure_ppb = 5_000;
    match ledger.apply_adjustment(hive, adj) {
        Err(HiveGuardError::IncreasesPesticideExposure) => {},
        _ => panic!("expected the pesticide-increase rejection"),
    }
    assert_eq!(ledger.events().len(), 0);
    assert!(envelopes_equal(&pre, &healthy_hive()));
}

#[test]
fn forage_radius_reduction_is_rejected() {
    let mut ledger = HiveInnerLedger::new();
    let mut hive = healthy_hive();
    hive.forage_radius_m = 900_000;
    let mut adj = neutral_adjustment("hive-alpha");
    adj.delta_forage_radius_m = 50_000;
    match ledger.apply_adjustment(hive, adj) {
        Err(HiveGuardError::ReducesForageRadius) => {},
        _ => panic!("expected the forage-radius rejection"),
    }
    assert_eq!(ledger.events().len(), 0);
}

#[test]
fn temperature_excess_is_rejected() {
    let mut ledger = HiveInnerLedger::new();
    let mut hive = healthy_hive();
    hive.hive_temperature_c = 35_000;
    let mut adj = neutral_adjustment("hive-alpha");
    // removing shade warms the hive at half slope: 2.5 degrees over the max
    adj.delta_shade_fraction = -1_000;
    match ledger.apply_adjustment(hive, adj) {
        Err(HiveGuardError::RaisesHiveTemperature) => {},
        _ => panic!("expected the temperature rejection"),
    }
    assert_eq!(ledger.events().len(), 0);
}

#[test]
fn light_or_noise_increase_is_rejected() {
    let mut ledger = HiveInnerLedger::new();
    let mut adj = neutral_adjustment("hive-alpha");
    adj.delta_artificial_light_nits = 1_000;
    match ledger.apply_adjustment(healthy_hive(), adj) {
        Err(HiveGuardError::IncreasesLightOrNoise) => {},
        _ => panic!("expected the light rejection"),
    }
    let mut adj2 = neutral_adjustment("hive-alpha");
    adj2.delta_noise_db = 2_000;
    match ledger.apply_adjustment(healthy_hive(), adj2) {
        Err(HiveGuardError::IncreasesLightOrNoise) => {},
        _ => panic!("expected the noise rejection"),
    }
    assert_eq!(ledger.events().len(), 0);
}

#[test]
fn eco_score_decrease_is_rejected() {
    let mut ledger = HiveInnerLedger::new();
    let mut adj = neutral_adjustment("hive-alpha");
    adj.delta_eco_impact_score_corridor = -1;
    match ledger.apply_adjustment(healthy_hive(), adj) {
        Err(HiveGuardError::DecreasesEcoImpactScore) => {},
        _ => panic!("expected the eco-score rejection"),
    }
    assert_eq!(ledger.events().len(), 0);
}

#[test]
fn accepted_adjustment_mutates_and_records() {
    let mut ledger = HiveInnerLedger::new();
    let hive = healthy_hive();
    let pre = hive.snapshot();
    let mut adj = neutral_adjustment("hive-alpha");
    adj.delta_pesticide_exposure_ppb = -10_000;
    adj.delta_forage_radius_m = 200_000;
    adj.delta_forage_diversity_index = 300;
    adj.delta_eco_impact_score_corridor = 5_000;
    let post = ledger.apply_adjustment(hive, adj).unwrap();
    assert_eq!(post.ambient_toxin_ppb, 10_000);
    assert_eq!(post.forage_radius_m, 1_700_000);
    assert_eq!(post.forage_diversity_index, 1_000);
    assert_eq!(post.hive_temperature_c, 34_000);
    assert_eq!(post.eco_impact_score_corridor, 80_000);
    assert_eq!(post.eco_band, EcoBand::Safe);
    assert_eq!(ledger.events().len(), 1);
    let event = &ledger.events()[0];
    assert!(envelopes_equal(&event.pre_envelope, &pre));
    assert!(envelopes_equal(&event.post_envelope, &post));
}

#[test]
fn shade_model_cools_and_warms_as_specified() {
    // full added shade cools by five degrees
    assert_eq!(temp_delta_from_shade(1_000), -5_000);
    // removing all shade warms at half the slope
    assert_eq!(temp_delta_from_shade(-1_000), 2_500);
    assert_eq!(temp_delta_from_shade(0), 0);
    // the shade fraction saturates at one in either direction
    assert_eq!(temp_delta_from_shade(4_000), -5_000);
    assert_eq!(temp_delta_from_shade(-4_000), 2_500);
}

#[test]
fn band_classification_covers_all_three_bands() {
    let safe = healthy_hive();
    assert_eq!(safe.evaluate_band(), EcoBand::Safe);
    assert!(matches!(classify_risk(&safe), RiskEnvelope::Safe));

    let mut critical = healthy_hive();
    critical.hive_temperature_c = 40_000;
    critical.ambient_toxin_ppb = 90_000;
    critical.forage_diversity_index = 100;
    assert_eq!(critical.evaluate_band(), EcoBand::Critical);
    assert!(matches!(classify_risk(&critical), RiskEnvelope::Critical));

    let mut warning = healthy_hive();
    warning.ambient_toxin_ppb = 90_000;
    assert_eq!(warning.evaluate_band(), EcoBand::Warning);
    assert!(matches!(classify_risk(&warning), RiskEnvelope::Warning));
}
