use pwm_breath::{AnimationState, CosineBreath, LinearFade, ScheduledOutput, SharedCell, TickPlan};

fn fade_output() -> ScheduledOutput<&'static str, u32> {
    let state = AnimationState::LinearFade(LinearFade::new(50, true).unwrap());
    ScheduledOutput::new("pwm", 7, 25, state)
}

#[test]
fn interval_given_in_millis_is_kept_in_micros() {
    let out = fade_output();
    assert_eq!(out.interval_us, 25_000);
    assert_eq!(out.output, "pwm");
    assert_eq!(out.alarm, 7);
}

#[test]
fn rearm_is_now_plus_interval() {
    let mut out = fade_output();
    let plan = out.plan_tick(1_000_000, 0);
    assert_eq!(plan, TickPlan { duty: 51, deadline_us: 1_025_000 });
    // A late tick pushes the next one later: the deadline follows `now`.
    let plan = out.plan_tick(1_031_700, 0);
    assert_eq!(plan, TickPlan { duty: 52, deadline_us: 1_056_700 });
    assert_eq!(out.interval_us, 25_000);
}

#[test]
fn rearm_wraps_on_the_counter() {
    let mut out = fade_output();
    let plan = out.plan_tick(u64::MAX - 4_999, 0);
    assert_eq!(plan.deadline_us, 20_000);
}

#[test]
fn plan_tick_breath_advances_phase() {
    let state = AnimationState::CosineBreath(CosineBreath::new(25));
    let mut out = ScheduledOutput::new((), (), 10, state);
    let plan = out.plan_tick(5, 100);
    assert_eq!(plan, TickPlan { duty: 100, deadline_us: 10_005 });
    assert_eq!(out.state, AnimationState::CosineBreath(CosineBreath { phase: 25, step: 25 }));
}

#[test]
fn tick_on_empty_cell_is_a_no_op() {
    let mut cell: SharedCell<ScheduledOutput<&'static str, u32>> = SharedCell::new();
    assert!(!cell.is_populated());
    let mut called = false;
    cell.with_exclusive_access(|mut out| {
        called = true;
        out.plan_tick(0, 0);
        out
    });
    assert!(!called);
    assert!(cell.slot.is_none());
}

#[test]
fn tick_on_populated_cell_updates_in_place() {
    let mut cell = SharedCell::new();
    cell.initialize(fade_output());
    assert!(cell.is_populated());
    let mut plans = Vec::new();
    for now in [100u64, 25_200, 50_400] {
        cell.with_exclusive_access(|mut out| {
            plans.push(out.plan_tick(now, 0));
            out
        });
    }
    assert_eq!(plans[0], TickPlan { duty: 51, deadline_us: 25_100 });
    assert_eq!(plans[2], TickPlan { duty: 53, deadline_us: 75_400 });
    let out = cell.slot.unwrap();
    assert_eq!(out.state, AnimationState::LinearFade(LinearFade { duty: 53, rising: true }));
}

#[test]
fn only_bring_up_faults_halt() {
    assert!(pwm_breath::fault::panic(pwm_breath::FaultSite::BringUp));
    assert!(!pwm_breath::fault::panic(pwm_breath::FaultSite::Tick));
}
