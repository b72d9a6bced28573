use beecorridor::guard::{EcoBand, HiveEnvelope};
use beecorridor::router::{
    route_tasks_through_corridors, task_to_adjustment, HumanTask, HumanTaskKind,
};

fn hive(id: &str, temp: i64, toxin: i64, diversity: i64, radius: i64) -> HiveEnvelope {
    HiveEnvelope {
        hive_id: id.to_string(),
        brood_frames: 8,
        nectar_kg: 12_000,
        pollen_kg: 4_500,
        hive_temperature_c: temp,
        forager_load: 700,
        ambient_toxin_ppb: toxin,
        forage_diversity_index: diversity,
        forage_radius_m: radius,
        eco_band: EcoBand::Safe,
        eco_impact_score_corridor: 75_000,
        safe_temperature_c_min: 32_000,
        safe_temperature_c_max: 36_000,
        safe_toxin_ppb_max: 50_000,
        safe_forage_diversity_index_min: 500,
        safe_forage_radius_m_min: 1_000_000,
    }
}

fn sample_hives() -> Vec<HiveEnvelope> {
    vec![
        hive("hive-alpha", 34_000, 20_000, 800, 1_500_000),
        hive("hive-beta", 37_500, 80_000, 400, 800_000),
    ]
}

#[test]
fn adjustment_carries_the_kind_deltas_and_composite_id() {
    let task = HumanTask {
        id: "task-1".to_string(),
        kind: HumanTaskKind::PlantWildflowers,
        eco_reward_hint: 900,
    };
    let target = hive("hive-alpha", 34_000, 20_000, 800, 1_500_000);
    let adj = task_to_adjustment(&task, &target);
    assert_eq!(adj.id, "adj-hive-alpha-task-1");
    assert_eq!(adj.hive_id, "hive-alpha");
    assert_eq!(adj.delta_pesticide_exposure_ppb, 0);
    assert_eq!(adj.delta_forage_radius_m, 200_000);
    assert_eq!(adj.delta_forage_diversity_index, 150);
    assert_eq!(adj.delta_eco_impact_score_corridor, 10_000);
}

#[test]
fn spray_reduction_lowers_exposure() {
    let task = HumanTask {
        id: "task-2".to_string(),
        kind: HumanTaskKind::FarmingSprayReduction,
        eco_reward_hint: 800,
    };
    let target = hive("hive-alpha", 34_000, 20_000, 800, 1_500_000);
    let adj = task_to_adjustment(&task, &target);
    assert_eq!(adj.delta_pesticide_exposure_ppb, -10_000);
    assert_eq!(adj.delta_eco_impact_score_corridor, 5_000);
}

#[test]
fn worst_hive_is_offered_first_and_rejections_fall_through() {
    let mut hives = sample_hives();
    let tasks = vec![HumanTask {
        id: "task-1".to_string(),
        kind: HumanTaskKind::PlantWildflowers,
        eco_reward_hint: 900,
    }];
    let routed = route_tasks_through_corridors(&tasks, &mut hives);
    assert_eq!(routed.len(), 1);
    // the critical hive-beta is offered first but its temperature is
    // already over the safe maximum, so hive-alpha receives the task
    assert!(routed[0].accepted);
    assert_eq!(routed[0].hive_id, "hive-alpha");
    assert_eq!(routed[0].task.id, "task-1");
    let alpha = &hives[0];
    assert_eq!(alpha.forage_radius_m, 1_700_000);
    assert_eq!(alpha.forage_diversity_index, 950);
    assert_eq!(alpha.eco_impact_score_corridor, 85_000);
    // the rejected hive is untouched
    assert_eq!(hives[1].forage_radius_m, 800_000);
}

#[test]
fn impossible_task_reports_the_first_rejection() {
    // both hives already run over their safe temperature maximum, so any
    // task that does not cool them is rejected by the temperature check
    let mut hives = vec![
        hive("hive-gamma", 37_500, 20_000, 800, 900_000),
        hive("hive-delta", 37_000, 20_000, 800, 900_000),
    ];
    let tasks = vec![HumanTask {
        id: "task-3".to_string(),
        kind: HumanTaskKind::DimLights,
        eco_reward_hint: 500,
    }];
    let routed = route_tasks_through_corridors(&tasks, &mut hives);
    assert_eq!(routed.len(), 1);
    assert!(!routed[0].accepted);
    assert_eq!(routed[0].hive_id, "hive-gamma");
    assert!(routed[0].reason.starts_with("Rejected by hive ledger:"));
    assert_eq!(hives[0].forage_radius_m, 900_000);
    assert_eq!(hives[1].forage_radius_m, 900_000);
}

#[test]
fn routing_with_no_hives_reports_none() {
    let mut hives: Vec<HiveEnvelope> = Vec::new();
    let tasks = vec![HumanTask {
        id: "task-4".to_string(),
        kind: HumanTaskKind::ReduceNoise,
        eco_reward_hint: 500,
    }];
    let routed = route_tasks_through_corridors(&tasks, &mut hives);
    assert_eq!(routed.len(), 1);
    assert!(!routed[0].accepted);
    assert_eq!(routed[0].hive_id, "none");
}

#[test]
fn every_task_gets_a_result_in_order() {
    let mut hives = sample_hives();
    let tasks = vec![
        HumanTask {
            id: "task-1".to_string(),
            kind: HumanTaskKind::PlantWildflowers,
            eco_reward_hint: 900,
        },
        HumanTask {
            id: "task-2".to_string(),
            kind: HumanTaskKind::FarmingSprayReduction,
            eco_reward_hint: 800,
        },
        HumanTask {
            id: "task-3".to_string(),
            kind: HumanTaskKind::DimLights,
            eco_reward_hint: 500,
        },
    ];
    let routed = route_tasks_through_corridors(&tasks, &mut hives);
    assert_eq!(routed.len(), 3);
    for (i, r) in routed.iter().enumerate() {
        assert_eq!(r.task.id, tasks[i].id);
    }
}
