//! Routing of protective environmental tasks onto hives.
//!
//! Each task is turned into a concrete adjustment and offered to the hives
//! in priority order, worst risk band first; the first hive whose ledger
//! accepts the adjustment receives it.  A rejected task keeps the first
//! rejection as its explanation.

use vstd::prelude::*;
use vstd::string::StringExecFns;

use crate::clock::now_millis;
use crate::guard::{
    adjusted_for, adjustment_error, band_of, guard_error_for, EcoBand, HiveEnvelope,
    HiveGuardError, HiveInnerLedger, HiveSystemAdjustment,
};
use crate::MAG;

verus! {

/// Protective actions a human collaborator can take for the hives.
#[derive(Clone, Copy, Debug, PartialEq, Eq, Structural)]
pub enum HumanTaskKind {
    FarmingSprayReduction,
    PlantWildflowers,
    AdjustIrrigation,
    DimLights,
    ReduceNoise,
}

/// One routable task.
#[derive(Debug)]
pub struct HumanTask {
    pub id: String,
    pub kind: HumanTaskKind,
    pub eco_reward_hint: i64,
}

impl HumanTask {
    /// Field-by-field copy.
    pub fn duplicate(&self) -> (r: HumanTask)
        ensures
            r == *self,
    {
        HumanTask { id: self.id.clone(), kind: self.kind, eco_reward_hint: self.eco_reward_hint }
    }
}

/// The outcome of routing one task.
#[derive(Debug)]
pub struct RoutedTask {
    pub task: HumanTask,
    pub hive_id: String,
    pub accepted: bool,
    pub reason: String,
}

/// The fixed environmental deltas of each task kind, in the order:
/// pesticide, shade, water, forage radius, forage diversity, light, noise,
/// eco-impact score.
pub open spec fn kind_deltas(k: HumanTaskKind) -> (int, int, int, int, int, int, int, int) {
    match k {
        HumanTaskKind::FarmingSprayReduction => (-10000, 0, 0, 0, 50, 0, 0, 5000),
        HumanTaskKind::PlantWildflowers => (0, 0, 100, 200000, 150, 0, 0, 10000),
        HumanTaskKind::AdjustIrrigation => (0, 0, 100, 0, 20, 0, 0, 2000),
        HumanTaskKind::DimLights => (0, 0, 0, 0, 0, -50000, 0, 1000),
        HumanTaskKind::ReduceNoise => (0, 0, 0, 0, 0, 0, -10000, 1000),
    }
}

/// The adjustment built for a task and a hive: addressed to the hive,
/// carrying the kind's fixed deltas.
pub open spec fn adj_matches(adj: HiveSystemAdjustment, hive: HiveEnvelope, task: HumanTask) -> bool {
    let d = kind_deltas(task.kind);
    &&& adj.hive_id@ == hive.hive_id@
    &&& adj.id@ == "adj-"@ + hive.hive_id@ + "-"@ + task.id@
    &&& adj.delta_pesticide_exposure_ppb == d.0
    &&& adj.delta_shade_fraction == d.1
    &&& adj.delta_water_availability_index == d.2
    &&& adj.delta_forage_radius_m == d.3
    &&& adj.delta_forage_diversity_index == d.4
    &&& adj.delta_artificial_light_nits == d.5
    &&& adj.delta_noise_db == d.6
    &&& adj.delta_eco_impact_score_corridor == d.7
}

/// Turn a task into the concrete adjustment for one hive.  The timestamp
/// is read from the wall clock and is not otherwise constrained.
pub fn task_to_adjustment(task: &HumanTask, hive: &HiveEnvelope) -> (adj: HiveSystemAdjustment)
    ensures
        adj_matches(adj, *hive, *task),
{
    let id = String::from_str("adj-").concat(hive.hive_id.as_str()).concat("-").concat(
        task.id.as_str(),
    );
    let timestamp = now_millis();
    let hive_id = hive.hive_id.clone();
    match task.kind {
        HumanTaskKind::FarmingSprayReduction => HiveSystemAdjustment {
            id,
            timestamp,
            hive_id,
            delta_pesticide_exposure_ppb: -10000,
            delta_shade_fraction: 0,
            delta_water_availability_index: 0,
            delta_forage_radius_m: 0,
            delta_forage_diversity_index: 50,
            delta_artificial_light_nits: 0,
            delta_noise_db: 0,
            delta_eco_impact_score_corridor: 5000,
        },
        HumanTaskKind::PlantWildflowers => HiveSystemAdjustment {
            id,
            timestamp,
            hive_id,
            delta_pesticide_exposure_ppb: 0,
            delta_shade_fraction: 0,
            delta_water_availability_index: 100,
            delta_forage_radius_m: 200000,
            delta_forage_diversity_index: 150,
            delta_artificial_light_nits: 0,
            delta_noise_db: 0,
            delta_eco_impact_score_corridor: 10000,
        },
        HumanTaskKind::AdjustIrrigation => HiveSystemAdjustment {
            id,
            timestamp,
            hive_id,
            delta_pesticide_exposure_ppb: 0,
            delta_shade_fraction: 0,
            delta_water_availability_index: 100,
            delta_forage_radius_m: 0,
            delta_forage_diversity_index: 20,
            delta_artificial_light_nits: 0,
            delta_noise_db: 0,
            delta_eco_impact_score_corridor: 2000,
        },
        HumanTaskKind::DimLights => HiveSystemAdjustment {
            id,
            timestamp,
            hive_id,
            delta_pesticide_exposure_ppb: 0,
            delta_shade_fraction: 0,
            delta_water_availability_index: 0,
            delta_forage_radius_m: 0,
            delta_forage_diversity_index: 0,
            delta_artificial_light_nits: -50000,
            delta_noise_db: 0,
            delta_eco_impact_score_corridor: 1000,
        },
        HumanTaskKind::ReduceNoise => HiveSystemAdjustment {
            id,
            timestamp,
            hive_id,
            delta_pesticide_exposure_ppb: 0,
            delta_shade_fraction: 0,
            delta_water_availability_index: 0,
            delta_forage_radius_m: 0,
            delta_forage_diversity_index: 0,
            delta_artificial_light_nits: 0,
            delta_noise_db: -10000,
            delta_eco_impact_score_corridor: 1000,
        },
    }
}

/// The rejection a kind's deltas draw from a hive, if any.
pub open spec fn kind_error(env: HiveEnvelope, k: HumanTaskKind) -> Option<HiveGuardError> {
    let d = kind_deltas(k);
    guard_error_for(env, d.0, d.1, d.3, d.5, d.6, d.7)
}

/// The hive envelope after a kind's deltas have been applied.
pub open spec fn kind_post(env: HiveEnvelope, k: HumanTaskKind) -> HiveEnvelope {
    let d = kind_deltas(k);
    adjusted_for(env, d.0, d.1, d.3, d.4, d.7)
}

/// Routing priority of a hive: worse risk bands come first.
pub open spec fn class_rank(env: HiveEnvelope) -> int {
    match band_of(env) {
        EcoBand::Critical => 0,
        EcoBand::Warning => 1,
        EcoBand::Safe => 2,
    }
}

/// The indices below `n` whose hive has routing priority `c`, ascending.
pub open spec fn class_indices(hives: Seq<HiveEnvelope>, c: int, n: int) -> Seq<int>
    decreases n,
{
    if n <= 0 {
        Seq::empty()
    } else {
        let rest = class_indices(hives, c, n - 1);
        if class_rank(hives[n - 1]) == c {
            rest.push(n - 1)
        } else {
            rest
        }
    }
}

/// All hive indices, worst risk band first and ascending within a band:
/// the order in which a task is offered to the hives.
pub open spec fn priority_order_of(hives: Seq<HiveEnvelope>) -> Seq<int> {
    class_indices(hives, 0, hives.len() as int) + class_indices(hives, 1, hives.len() as int)
        + class_indices(hives, 2, hives.len() as int)
}

pub open spec fn to_ints(s: Seq<usize>) -> Seq<int> {
    s.map_values(|u: usize| u as int)
}

proof fn lemma_class_indices_range(hives: Seq<HiveEnvelope>, c: int, n: int)
    requires
        0 <= n <= hives.len(),
    ensures
        forall|p: int|
            0 <= p < class_indices(hives, c, n).len() ==> 0 <= #[trigger] class_indices(
                hives,
                c,
                n,
            )[p] < n,
    decreases n,
{
    if n > 0 {
        lemma_class_indices_range(hives, c, n - 1);
        let s = class_indices(hives, c, n);
        let s0 = class_indices(hives, c, n - 1);
        assert forall|p: int| 0 <= p < s.len() implies 0 <= #[trigger] s[p] < n by {
            if class_rank(hives[n - 1]) == c {
                assert(s == s0.push(n - 1));
                if p < s0.len() {
                    assert(s[p] == s0[p]);
                } else {
                    assert(s[p] == n - 1);
                }
            } else {
                assert(s == s0);
            }
        }
    }
}

/// Every index below `n` lands in exactly one class, so the three class
/// sequences partition the indices.
proof fn lemma_class_partition(hives: Seq<HiveEnvelope>, n: int)
    requires
        0 <= n <= hives.len(),
    ensures
        class_indices(hives, 0, n).len() + class_indices(hives, 1, n).len() + class_indices(
            hives,
            2,
            n,
        ).len() == n,
    decreases n,
{
    if n > 0 {
        lemma_class_partition(hives, n - 1);
    }
}

/// Compute the priority order of the hives.
fn priority_order(hives: &Vec<HiveEnvelope>) -> (r: Vec<usize>)
    ensures
        to_ints(r@) == priority_order_of(hives@),
        r@.len() == hives@.len(),
        forall|p: int| 0 <= p < r@.len() ==> #[trigger] r@[p] < hives@.len(),
{
    let mut out: Vec<usize> = Vec::new();
    append_class(&mut out, hives, 0);
    append_class(&mut out, hives, 1);
    append_class(&mut out, hives, 2);
    proof {
        let n = hives@.len() as int;
        assert(to_ints(Seq::<usize>::empty()) =~= Seq::<int>::empty());
        assert(to_ints(out@) =~= priority_order_of(hives@));
        lemma_class_partition(hives@, n);
        lemma_class_indices_range(hives@, 0, n);
        lemma_class_indices_range(hives@, 1, n);
        lemma_class_indices_range(hives@, 2, n);
        assert forall|p: int| 0 <= p < out@.len() implies #[trigger] out@[p] < hives@.len() by {
            assert(to_ints(out@)[p] == out@[p] as int);
            assert(0 <= priority_order_of(hives@)[p] < n);
        }
    }
    out
}

fn append_class(out: &mut Vec<usize>, hives: &Vec<HiveEnvelope>, c: usize)
    ensures
        to_ints(final(out)@) == to_ints(old(out)@) + class_indices(
            hives@,
            c as int,
            hives@.len() as int,
        ),
{
    let ghost base = old(out)@;
    let mut i: usize = 0;
    proof {
        assert(to_ints(out@) =~= to_ints(base) + class_indices(hives@, c as int, 0));
    }
    while i < hives.len()
        invariant
            0 <= i <= hives@.len(),
            to_ints(out@) == to_ints(base) + class_indices(hives@, c as int, i as int),
        decreases hives@.len() - i,
    {
        let ghost pre = out@;
        let rank = class_rank_exec(&hives[i]);
        if rank == c {
            out.push(i);
            proof {
                assert(to_ints(out@) =~= to_ints(pre).push(i as int));
            }
        }
        proof {
            assert(to_ints(out@) =~= to_ints(base) + class_indices(hives@, c as int, i + 1));
        }
        i = i + 1;
    }
}

fn class_rank_exec(env: &HiveEnvelope) -> (r: usize)
    ensures
        r as int == class_rank(*env),
{
    match env.evaluate_band() {
        EcoBand::Critical => 0,
        EcoBand::Warning => 1,
        EcoBand::Safe => 2,
    }
}

/// The first hive index in the offered order that accepts the kind's
/// deltas, if any.
pub open spec fn first_accepting(
    hives: Seq<HiveEnvelope>,
    order: Seq<int>,
    k: HumanTaskKind,
) -> Option<int>
    decreases order.len(),
{
    if order.len() == 0 {
        None
    } else if kind_error(hives[order[0]], k) is None {
        Some(order[0])
    } else {
        first_accepting(hives, order.drop_first(), k)
    }
}

proof fn lemma_first_accepting_skip(
    hives: Seq<HiveEnvelope>,
    order: Seq<int>,
    k: HumanTaskKind,
    i: int,
)
    requires
        0 <= i <= order.len(),
        forall|j: int| 0 <= j < i ==> kind_error(hives[#[trigger] order[j]], k) is Some,
    ensures
        first_accepting(hives, order, k) == first_accepting(hives, order.skip(i), k),
    decreases i,
{
    if i > 0 {
        lemma_first_accepting_skip(hives, order, k, i - 1);
        assert(order.skip(i - 1).len() > 0);
        assert(order.skip(i - 1)[0] == order[i - 1]);
        assert(order.skip(i - 1).drop_first() =~= order.skip(i));
        assert(first_accepting(hives, order.skip(i - 1), k) == first_accepting(
            hives,
            order.skip(i),
            k,
        ));
    } else {
        assert(order.skip(0) =~= order);
    }
}

/// Envelope metric fields within the stated magnitude.
pub open spec fn envelope_within(env: HiveEnvelope, m: int) -> bool {
    &&& -m <= env.ambient_toxin_ppb <= m
    &&& -m <= env.hive_temperature_c <= m
    &&& -m <= env.forage_radius_m <= m
    &&& -m <= env.forage_diversity_index <= m
    &&& -m <= env.eco_impact_score_corridor <= m
}

/// Applying any kind's deltas moves each metric field by at most one
/// routing step of slack.
pub proof fn lemma_kind_post_within(env: HiveEnvelope, k: HumanTaskKind, m: int)
    requires
        envelope_within(env, m),
        0 <= m <= 3 * MAG,
    ensures
        envelope_within(kind_post(env, k), m + 200_000),
{
    assert(crate::guard::shade_delta(0) == 0);
}

/// Offer one task to the hives in priority order; the first accepting hive
/// receives the adjustment through the ledger.
///
/// On acceptance the chosen hive is replaced by its adjusted envelope and
/// one audit event is appended; on rejection everything is unchanged and
/// the result records the first rejecting hive.
pub fn route_one(
    ledger: &mut HiveInnerLedger,
    hives: &mut Vec<HiveEnvelope>,
    task: &HumanTask,
) -> (r: RoutedTask)
    requires
        forall|i: int|
            0 <= i < old(hives)@.len() ==> envelope_within(#[trigger] old(hives)@[i], 2 * MAG),
    ensures
        r.task == *task,
        final(hives)@.len() == old(hives)@.len(),
        match first_accepting(old(hives)@, priority_order_of(old(hives)@), task.kind) {
            Some(j) => {
                &&& 0 <= j < old(hives)@.len()
                &&& r.accepted
                &&& r.hive_id@ == old(hives)@[j].hive_id@
                &&& final(hives)@ == old(hives)@.update(j, kind_post(old(hives)@[j], task.kind))
                &&& final(ledger)@.len() == old(ledger)@.len() + 1
            },
            None => {
                &&& !r.accepted
                &&& final(hives)@ == old(hives)@
                &&& final(ledger)@ == old(ledger)@
                &&& old(hives)@.len() > 0 ==> r.hive_id@ == old(hives)@[priority_order_of(
                    old(hives)@,
                )[0]].hive_id@
                &&& old(hives)@.len() == 0 ==> r.hive_id@ == "none"@
            },
        },
{
    let ghost hives0 = hives@;
    let ghost order_spec = priority_order_of(hives0);
    let order = priority_order(hives);
    let mut first_reject: Option<RoutedTask> = None;
    let mut p: usize = 0;
    while p < order.len()
        invariant
            0 <= p <= order@.len(),
            hives0 == old(hives)@,
            hives@ == hives0,
            ledger@ == old(ledger)@,
            to_ints(order@) == order_spec,
            order_spec == priority_order_of(hives0),
            order@.len() == hives0.len(),
            forall|q: int| 0 <= q < order@.len() ==> #[trigger] order@[q] < hives0.len(),
            forall|i: int| 0 <= i < hives0.len() ==> envelope_within(#[trigger] hives0[i], 2 * MAG),
            forall|q: int|
                0 <= q < p ==> kind_error(hives0[#[trigger] order_spec[q]], task.kind) is Some,
            p == 0 ==> first_reject is None,
            p > 0 ==> (first_reject matches Some(rt) && rt.task == *task && !rt.accepted
                && rt.hive_id@ == hives0[order_spec[0]].hive_id@),
        decreases order@.len() - p,
    {
        let idx = order[p];
        proof {
            assert(to_ints(order@)[p as int] == order@[p as int] as int);
        }
        let adj = task_to_adjustment(task, &hives[idx]);
        let ghost env = hives0[idx as int];
        proof {
            let d = kind_deltas(task.kind);
            assert(-200_000 <= d.0 <= 200_000 && d.1 == 0 && -200_000 <= d.3 <= 200_000
                && -200_000 <= d.4 <= 200_000 && -200_000 <= d.7 <= 200_000);
            assert(crate::guard::shade_delta(0) == 0);
            assert(adjustment_error(env, adj) == kind_error(env, task.kind));
        }
        let snap = hives[idx].snapshot();
        match ledger.apply_adjustment(snap, adj) {
            Ok(new_env) => {
                proof {
                    assert(new_env == kind_post(env, task.kind));
                    lemma_first_accepting_skip(hives0, order_spec, task.kind, p as int);
                    assert(order_spec.skip(p as int)[0] == order_spec[p as int]);
                    assert(first_accepting(hives0, order_spec, task.kind) == Some(
                        order_spec[p as int],
                    ));
                }
                let hive_id = new_env.hive_id.clone();
                hives.set(idx, new_env);
                return RoutedTask {
                    task: task.duplicate(),
                    hive_id,
                    accepted: true,
                    reason: String::from_str("Adjustment satisfies all hive safety invariants"),
                };
            },
            Err(e) => {
                if p == 0 {
                    let reason = String::from_str("Rejected by hive ledger: ").concat(e.message());
                    first_reject = Some(
                        RoutedTask {
                            task: task.duplicate(),
                            hive_id: hives[idx].hive_id.clone(),
                            accepted: false,
                            reason,
                        },
                    );
                }
            },
        }
        p = p + 1;
    }
    proof {
        lemma_first_accepting_skip(hives0, order_spec, task.kind, order_spec.len() as int);
        assert(order_spec.skip(order_spec.len() as int).len() == 0);
    }
    match first_reject {
        Some(rt) => rt,
        None => {
            let hive_id: String = if hives.len() > 0 {
                let j = pick_index(hives.len());
                hives[j].hive_id.clone()
            } else {
                String::from_str("none")
            };
            RoutedTask {
                task: task.duplicate(),
                hive_id,
                accepted: false,
                reason: String::from_str("No hive could accept adjustment under safety invariants"),
            }
        },
    }
}

/// The hive list after one task has been offered around: the first
/// accepting hive in priority order is replaced by its adjusted envelope,
/// and a task no hive accepts changes nothing.
pub open spec fn route_step(hives: Seq<HiveEnvelope>, k: HumanTaskKind) -> Seq<HiveEnvelope> {
    match first_accepting(hives, priority_order_of(hives), k) {
        Some(j) => hives.update(j, kind_post(hives[j], k)),
        None => hives,
    }
}

/// The hive list after a sequence of tasks has been routed in order.
pub open spec fn hives_after(hives: Seq<HiveEnvelope>, tasks: Seq<HumanTask>) -> Seq<HiveEnvelope>
    decreases tasks.len(),
{
    if tasks.len() == 0 {
        hives
    } else {
        route_step(hives_after(hives, tasks.drop_last()), tasks.last().kind)
    }
}

/// Relies on rand's `Rng::gen_range` over `0..n`: a drawn index below `n`.
/// The draw comes from the thread's generator, so only the bound is stated.
#[verifier::external_body]
fn pick_index(n: usize) -> (r: usize)
    requires
        n > 0,
    ensures
        r < n,
{
    rand::Rng::gen_range(&mut rand::thread_rng(), 0..n)
}

/// Route every task in turn, each against the hive list as the earlier
/// tasks left it.  Each step obeys the contract of [`route_one`].
pub fn route_tasks_through_corridors(
    tasks: &Vec<HumanTask>,
    hives: &mut Vec<HiveEnvelope>,
) -> (r: Vec<RoutedTask>)
    requires
        forall|i: int|
            0 <= i < old(hives)@.len() ==> envelope_within(#[trigger] old(hives)@[i], MAG as int),
        tasks@.len() <= 1_000_000,
    ensures
        r@.len() == tasks@.len(),
        final(hives)@.len() == old(hives)@.len(),
        final(hives)@ == hives_after(old(hives)@, tasks@),
        forall|i: int| 0 <= i < r@.len() ==> (#[trigger] r@[i]).task == tasks@[i],
        forall|i: int|
            0 <= i < r@.len() ==> (#[trigger] r@[i]).accepted == {
                let before = hives_after(old(hives)@, tasks@.subrange(0, i));
                first_accepting(before, priority_order_of(before), tasks@[i].kind) is Some
            },
{
    let mut ledger = HiveInnerLedger::new();
    let mut results: Vec<RoutedTask> = Vec::new();
    let mut t: usize = 0;
    proof {
        assert(tasks@.subrange(0, 0) =~= Seq::<HumanTask>::empty());
    }
    while t < tasks.len()
        invariant
            0 <= t <= tasks@.len(),
            tasks@.len() <= 1_000_000,
            hives@.len() == old(hives)@.len(),
            hives@ == hives_after(old(hives)@, tasks@.subrange(0, t as int)),
            results@.len() == t,
            forall|i: int| 0 <= i < t ==> (#[trigger] results@[i]).task == tasks@[i],
            forall|i: int|
                0 <= i < t ==> (#[trigger] results@[i]).accepted == {
                    let before = hives_after(old(hives)@, tasks@.subrange(0, i));
                    first_accepting(before, priority_order_of(before), tasks@[i].kind) is Some
                },
            forall|i: int|
                0 <= i < hives@.len() ==> envelope_within(
                    #[trigger] hives@[i],
                    MAG + 200_000 * (t as int),
                ),
        decreases tasks@.len() - t,
    {
        let ghost pre = hives@;
        proof {
            assert forall|i: int| 0 <= i < hives@.len() implies envelope_within(
                #[trigger] hives@[i],
                2 * MAG,
            ) by {
                assert(MAG + 200_000 * (t as int) <= 2 * MAG);
            }
        }
        let routed = route_one(&mut ledger, hives, &tasks[t]);
        proof {
            let k = tasks@[t as int].kind;
            assert(tasks@.subrange(0, t + 1).drop_last() =~= tasks@.subrange(0, t as int));
            assert(tasks@.subrange(0, t + 1).last() == tasks@[t as int]);
            match first_accepting(pre, priority_order_of(pre), k) {
                Some(j) => {
                    assert forall|i: int| 0 <= i < hives@.len() implies envelope_within(
                        #[trigger] hives@[i],
                        MAG + 200_000 * (t + 1),
                    ) by {
                        if i == j {
                            lemma_kind_post_within(pre[j], k, MAG + 200_000 * (t as int));
                        }
                    }
                },
                None => {
                    assert(hives@ == pre);
                },
            }
            assert(hives@ == hives_after(old(hives)@, tasks@.subrange(0, t + 1)));
        }
        results.push(routed);
        t = t + 1;
    }
    proof {
        assert(tasks@.subrange(0, tasks@.len() as int) =~= tasks@);
    }
    results
}

} // verus!
