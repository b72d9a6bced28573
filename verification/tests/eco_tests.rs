use beecorridor::eco::{
    EcoImpactScore, HabitatStabilityIndex, HeatRiskIndex, HumanEcoProxy, ToxinLoadIndex,
};
use beecorridor::SCALE;

#[test]
fn heat_risk_spreads_excess_over_fifteen_degrees() {
    // four degrees over the baseline
    assert_eq!(HeatRiskIndex::new(34_000, 30_000).0, 266);
    // no excess means no risk
    assert_eq!(HeatRiskIndex::new(28_000, 30_000).0, 0);
    // a large excess saturates at one
    assert_eq!(HeatRiskIndex::new(50_000, 30_000).0, SCALE);
}

#[test]
fn toxin_load_halves_the_capped_ratio() {
    assert_eq!(ToxinLoadIndex::from_ppb(25_000, 50_000).0, 250);
    assert_eq!(ToxinLoadIndex::from_ppb(0, 50_000).0, 0);
    // a ratio past twice the safe maximum saturates at one
    assert_eq!(ToxinLoadIndex::from_ppb(500_000, 50_000).0, SCALE);
}

#[test]
fn habitat_stability_blends_diversity_and_radius() {
    let idx = HabitatStabilityIndex::new(800, 1_500_000, 1_000_000);
    // 0.6 * 0.8 + 0.4 * 0.75
    assert_eq!(idx.0, 780);
}

#[test]
fn eco_score_blends_habitat_against_risk() {
    let heat = HeatRiskIndex::new(34_000, 30_000);
    let toxin = ToxinLoadIndex::from_ppb(25_000, 50_000);
    let habitat = HabitatStabilityIndex::new(800, 1_500_000, 1_000_000);
    let score = EcoImpactScore::from_indices(heat, toxin, habitat);
    // risk (0.266 + 0.250) / 2 = 0.258; 0.7 * 0.78 + 0.3 * 0.742 = 0.7686
    assert_eq!(score.0, 76_860);
    assert!(score.0 >= 0 && score.0 <= 100 * SCALE);
}

#[test]
fn eco_score_stays_on_the_hundred_scale() {
    let best = EcoImpactScore::from_indices(
        HeatRiskIndex(0),
        ToxinLoadIndex(0),
        HabitatStabilityIndex(SCALE),
    );
    assert_eq!(best.0, 100 * SCALE);
    let worst = EcoImpactScore::from_indices(
        HeatRiskIndex(SCALE),
        ToxinLoadIndex(SCALE),
        HabitatStabilityIndex(0),
    );
    assert_eq!(worst.0, 0);
}

#[test]
fn human_proxy_uses_neutral_risk_placeholders() {
    let proxy = HumanEcoProxy::new(
        "human-actor-123".to_string(),
        1_700_000_000_000,
        2_000,
        1_200,
        800,
        50_000,
        900,
        3,
        10_000,
        4_000,
        2_500,
    );
    assert_eq!(proxy.actor_human_id, "human-actor-123");
    assert_eq!(proxy.timestamp, 1_700_000_000_000);
    assert!(proxy.human_only_pain_index.is_none());
    assert!(proxy.human_only_tolerance_index.is_none());
    // habitat 0.9 against neutral 0.5 risks: 0.7 * 0.9 + 0.3 * 0.5 = 0.78
    assert_eq!(proxy.eco_impact_score.0, 78_000);
}
