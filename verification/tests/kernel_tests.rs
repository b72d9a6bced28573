use beecorridor::kernel::{
    BeeContext, BeeSafetyKernel, CorridorEnvelope, CorridorKind, KernelError, KernelParams,
    NodeState, PredictedLevels,
};
use beecorridor::SCALE;

fn test_envelopes() -> Vec<CorridorEnvelope> {
    vec![
        CorridorEnvelope { kind: CorridorKind::EMF, l_min: 0, l_max: 1000 },
        CorridorEnvelope { kind: CorridorKind::Thermal, l_min: 0, l_max: 2000 },
        CorridorEnvelope { kind: CorridorKind::Acoustic, l_min: 0, l_max: 60000 },
        CorridorEnvelope { kind: CorridorKind::Chemical, l_min: 0, l_max: 100 },
    ]
}

fn test_params() -> KernelParams {
    KernelParams {
        eta_mass: 50,
        eta_karma: 20,
        eta_geo: 100,
        eta_power: 50,
        eta_bee: 200,
        m_ref: 1000,
        k_ref: 1_000_000,
        phi_ref: 1_000_000,
        alpha_z: 50,
        beta_s: 700,
    }
}

fn safe_node() -> NodeState {
    NodeState {
        node_id: "CYB-AIR-CANOPY-01".to_string(),
        duty_cycle: 500,
        mass_removed_kg: 2000,
        nano_karma_bytes: 5_000_000,
        power_cost: 300,
        cybo_weight: 800,
        bee_ctx: BeeContext {
            bee_sensitivity: 2000,
            in_hive_exclusion: false,
            dz_to_bee_band: 15000,
        },
        predicted_levels: vec![
            PredictedLevels { kind: CorridorKind::EMF, level: 300 },
            PredictedLevels { kind: CorridorKind::Thermal, level: 1000 },
            PredictedLevels { kind: CorridorKind::Acoustic, level: 40000 },
            PredictedLevels { kind: CorridorKind::Chemical, level: 20 },
        ],
    }
}

#[test]
fn test_basic_kernel_allows_safe_node() {
    let kernel = BeeSafetyKernel::new(test_envelopes(), test_params()).unwrap();
    let decision = kernel.evaluate_node(safe_node()).unwrap();
    assert!(decision.permitted);
    assert!(decision.safe_duty_cycle >= 0 && decision.safe_duty_cycle <= SCALE);
}

#[test]
fn safe_levels_give_zero_penalty() {
    let kernel = BeeSafetyKernel::new(test_envelopes(), test_params()).unwrap();
    let decision = kernel.evaluate_node(safe_node()).unwrap();
    assert_eq!(decision.phi_penalty, 0);
    assert!(decision.permitted);
}

#[test]
fn emf_excursion_scales_with_sensitivity() {
    let kernel = BeeSafetyKernel::new(test_envelopes(), test_params()).unwrap();
    let mut node = safe_node();
    node.predicted_levels[0] = PredictedLevels { kind: CorridorKind::EMF, level: 1500 };
    let decision = kernel.evaluate_node(node).unwrap();
    // an overshoot of 0.5 squared is 0.25 (250_000 millionths), weighted
    // by the sensitivity 2.0
    assert_eq!(decision.phi_penalty, 500_000);
    assert!(!decision.permitted);
}

#[test]
fn smallest_excursion_still_denies_emission() {
    let kernel = BeeSafetyKernel::new(test_envelopes(), test_params()).unwrap();
    let mut node = safe_node();
    // one thousandth of a unit over the chemical hard limit
    node.predicted_levels[3] = PredictedLevels { kind: CorridorKind::Chemical, level: 101 };
    let decision = kernel.evaluate_node(node).unwrap();
    assert!(decision.phi_penalty > 0);
    assert!(!decision.permitted);
}

#[test]
fn level_exactly_at_bound_contributes_nothing() {
    let kernel = BeeSafetyKernel::new(test_envelopes(), test_params()).unwrap();
    let mut node = safe_node();
    node.predicted_levels[0] = PredictedLevels { kind: CorridorKind::EMF, level: 1000 };
    node.predicted_levels[1] = PredictedLevels { kind: CorridorKind::Thermal, level: 0 };
    let decision = kernel.evaluate_node(node).unwrap();
    assert_eq!(decision.phi_penalty, 0);
    assert!(decision.permitted);
}

#[test]
fn exclusion_zone_denies_emission() {
    let kernel = BeeSafetyKernel::new(test_envelopes(), test_params()).unwrap();
    let mut node = safe_node();
    node.bee_ctx.in_hive_exclusion = true;
    let decision = kernel.evaluate_node(node).unwrap();
    assert_eq!(decision.phi_penalty, 0);
    assert!(!decision.permitted);
}

#[test]
fn duty_cycle_stays_in_unit_interval() {
    let kernel = BeeSafetyKernel::new(test_envelopes(), test_params()).unwrap();

    let mut high = safe_node();
    high.duty_cycle = SCALE;
    high.mass_removed_kg = 1_000_000_000;
    let d_high = kernel.evaluate_node(high).unwrap();
    assert!(d_high.safe_duty_cycle >= 0 && d_high.safe_duty_cycle <= SCALE);

    let mut low = safe_node();
    low.duty_cycle = 0;
    low.power_cost = 1000;
    low.predicted_levels[0] = PredictedLevels { kind: CorridorKind::EMF, level: 100_000 };
    let d_low = kernel.evaluate_node(low).unwrap();
    assert!(d_low.safe_duty_cycle >= 0 && d_low.safe_duty_cycle <= SCALE);
}

#[test]
fn eco_impact_stays_in_unit_interval() {
    let kernel = BeeSafetyKernel::new(test_envelopes(), test_params()).unwrap();

    let mut node = safe_node();
    node.nano_karma_bytes = 900_000_000_000_000_000;
    let d = kernel.evaluate_node(node).unwrap();
    assert!(d.eco_impact_bee >= 0 && d.eco_impact_bee <= SCALE);

    let mut node2 = safe_node();
    node2.nano_karma_bytes = 0;
    node2.predicted_levels[0] = PredictedLevels { kind: CorridorKind::EMF, level: 200_000 };
    let d2 = kernel.evaluate_node(node2).unwrap();
    assert!(d2.eco_impact_bee >= 0 && d2.eco_impact_bee <= SCALE);
}

#[test]
fn invalid_duty_cycle_is_rejected() {
    let kernel = BeeSafetyKernel::new(test_envelopes(), test_params()).unwrap();
    let mut node = safe_node();
    node.duty_cycle = 1500;
    match kernel.evaluate_node(node) {
        Err(KernelError::InvalidDutyCycle(v)) => assert_eq!(v, 1500),
        _ => panic!("expected an invalid duty cycle error"),
    }
}

#[test]
fn empty_registry_is_a_configuration_error() {
    match BeeSafetyKernel::new(Vec::new(), test_params()) {
        Err(KernelError::NoEnvelopes) => {},
        _ => panic!("expected a missing-envelope error"),
    }
}

#[test]
fn unmatched_corridor_kind_contributes_nothing() {
    let envs = vec![CorridorEnvelope { kind: CorridorKind::EMF, l_min: 0, l_max: 1000 }];
    let kernel = BeeSafetyKernel::new(envs, test_params()).unwrap();
    let mut node = safe_node();
    node.predicted_levels = vec![
        PredictedLevels { kind: CorridorKind::Thermal, level: 1_000_000 },
        PredictedLevels { kind: CorridorKind::EMF, level: 500 },
    ];
    let decision = kernel.evaluate_node(node).unwrap();
    assert_eq!(decision.phi_penalty, 0);
}
