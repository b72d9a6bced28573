use beecorridor::oracle::{r_rf, rf_permit, RFEnvelope, RFMeasurement};
use beecorridor::risk::{compute_v_bee, permit_emission, BeeRiskCoords, BeeRiskWeights};

fn rf_bands() -> Vec<RFEnvelope> {
    vec![
        RFEnvelope { f_ghz_min: 0, f_ghz_max: 10_000, e_base_vpm: 100, e_no_effect_vpm: 1_100 },
        RFEnvelope { f_ghz_min: 10_001, f_ghz_max: 30_000, e_base_vpm: 0, e_no_effect_vpm: 500 },
    ]
}

#[test]
fn excess_ratio_is_normalized_against_the_margin() {
    let meas = vec![RFMeasurement { f_ghz: 5_000, e_vpm: 600 }];
    // an excess of 0.5 over a margin of 1.0
    assert_eq!(r_rf(&rf_bands(), &meas), 500);
}

#[test]
fn worst_measurement_drives_the_gate() {
    let meas = vec![
        RFMeasurement { f_ghz: 5_000, e_vpm: 600 },
        RFMeasurement { f_ghz: 20_000, e_vpm: 400 },
    ];
    // the second band's margin is 0.5, so 0.4 maps to ratio 0.8
    assert_eq!(r_rf(&rf_bands(), &meas), 800);
    assert!(rf_permit(&rf_bands(), &meas, 1_000));
    assert!(!rf_permit(&rf_bands(), &meas, 800));
}

#[test]
fn measurement_below_base_or_outside_bands_is_harmless() {
    let meas = vec![
        RFMeasurement { f_ghz: 5_000, e_vpm: 50 },
        RFMeasurement { f_ghz: 99_000, e_vpm: 1_000_000 },
    ];
    assert_eq!(r_rf(&rf_bands(), &meas), 0);
    assert!(rf_permit(&rf_bands(), &meas, 1));
}

#[test]
fn potential_sums_weighted_squares() {
    let coords = BeeRiskCoords {
        r_rf: 500,
        r_noise: 0,
        r_vib: 0,
        r_thermal: 0,
        r_light: 0,
        r_chem: -300,
        r_sigma: 0,
    };
    let weights = BeeRiskWeights {
        w_rf: 1_000,
        w_noise: 1_000,
        w_vib: 1_000,
        w_thermal: 1_000,
        w_light: 1_000,
        w_chem: 1_000,
        w_sigma: 1_000,
        v_safe: 300,
        v_crit: 800,
        r_hard: 900,
    };
    let s = compute_v_bee(&coords, &weights);
    // only the positive coordinate contributes: 1.0 * 0.5^2 = 0.25
    assert_eq!(s.v_bee, 250);
    assert_eq!(s.max_r, 500);
    assert!(s.bee_neural_safe);
    assert!(permit_emission(&s));
}

#[test]
fn potential_or_worst_coordinate_can_each_deny() {
    let mut coords = BeeRiskCoords {
        r_rf: 700,
        r_noise: 0,
        r_vib: 0,
        r_thermal: 0,
        r_light: 0,
        r_chem: 0,
        r_sigma: 0,
    };
    let weights = BeeRiskWeights {
        w_rf: 1_000,
        w_noise: 1_000,
        w_vib: 1_000,
        w_thermal: 1_000,
        w_light: 1_000,
        w_chem: 1_000,
        w_sigma: 1_000,
        v_safe: 300,
        v_crit: 800,
        r_hard: 900,
    };
    // 1.0 * 0.7^2 = 0.49 exceeds the 0.3 potential bound
    let s = compute_v_bee(&coords, &weights);
    assert_eq!(s.v_bee, 490);
    assert!(!s.bee_neural_safe);
    assert!(!permit_emission(&s));

    // a single coordinate over the hard bound denies even a tiny potential
    coords.r_rf = 950;
    let w2 = BeeRiskWeights { v_safe: 1_000_000, ..weights };
    let s2 = compute_v_bee(&coords, &w2);
    assert_eq!(s2.max_r, 950);
    assert!(!s2.bee_neural_safe);
}
