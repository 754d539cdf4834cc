use vstd::prelude::*;
use crate::state::AnimationState;

verus! {

/// Relies on fugit's `Duration::<u32, 1, 1_000_000>::millis`: `ms` milliseconds
/// as a count of microseconds, which it computes as `1000 * ms` in `u32`.
#[verifier::external_body]
fn micros_from_millis(ms: u32) -> (us: u32)
    requires
        ms as int * 1000 <= u32::MAX,
    ensures
        us as int == ms as int * 1000,
{
    fugit::MicrosDurationU32::millis(ms).ticks()
}

/// Relies on fugit's `Instant<u64, 1, 1_000_000> + Duration<u32, 1, 1_000_000>`:
/// the microsecond instant `interval_us` after `now_us`. With a common tick
/// base the sum goes through `checked_add_duration`, which wraps modulo 2^64.
#[verifier::external_body]
fn instant_after(now_us: u64, interval_us: u32) -> (t: u64)
    ensures
        t as int == (now_us as int + interval_us as int) % 0x1_0000_0000_0000_0000,
{
    let now = fugit::TimerInstantU64::<1_000_000>::from_ticks(now_us);
    (now + fugit::MicrosDurationU32::from_ticks(interval_us)).ticks()
}

/// The alarm deadline after a tick handled at `now_us`: a fixed delay of
/// `interval_us` from then, on the timer's 64-bit microsecond counter.
pub open spec fn deadline_spec(now_us: u64, interval_us: u32) -> int {
    (now_us as int + interval_us as int) % 0x1_0000_0000_0000_0000
}

/// What a tick does to the hardware: the duty to apply, and when the alarm
/// fires next.
#[derive(Clone, Copy, Debug, PartialEq, Eq)]
pub struct TickPlan {
    pub duty: u8,
    pub deadline_us: u64,
}

/// Everything one tick works on: the PWM output and the alarm (owned, and
/// driven by the caller), the fixed rescheduling interval, and the animation.
pub struct ScheduledOutput<P, A> {
    pub output: P,
    pub alarm: A,
    pub interval_us: u32,
    pub state: AnimationState,
}

impl<P, A> ScheduledOutput<P, A> {
    /// Bundles the handles with an interval of `interval_ms` milliseconds and
    /// the starting animation.
    pub fn new(output: P, alarm: A, interval_ms: u32, state: AnimationState) -> (r: Self)
        requires
            interval_ms as int * 1000 <= u32::MAX,
        ensures
            r.output == output,
            r.alarm == alarm,
            r.interval_us as int == interval_ms as int * 1000,
            r.state == state,
    {
        let interval_us = micros_from_millis(interval_ms);
        ScheduledOutput { output, alarm, interval_us, state }
    }

    /// Plans the tick handled at `now_us`: advances the animation by one step
    /// (`level` is the rounded cosine sample, read by a breathing wave only)
    /// and reschedules `interval_us` after `now_us`, whatever deadline the
    /// tick itself had.
    pub fn plan_tick(&mut self, now_us: u64, level: i64) -> (plan: TickPlan)
        requires
            old(self).state.ready(),
        ensures
            final(self).state == old(self).state.next(level as int),
            final(self).output == old(self).output,
            final(self).alarm == old(self).alarm,
            final(self).interval_us == old(self).interval_us,
            plan.duty as int == old(self).state.duty_for(level as int),
            plan.duty <= 100,
            plan.deadline_us as int == deadline_spec(now_us, old(self).interval_us),
    {
        let duty = self.state.tick(level);
        let deadline_us = instant_after(now_us, self.interval_us);
        TickPlan { duty, deadline_us }
    }
}

} // verus!
