use vstd::prelude::*;

verus! {

/// Phase units per unit of phase: a phase of `p` units stands for
/// `p / PHASE_SCALE`, and the wave at that phase is `cos(p / PHASE_SCALE * pi)`.
pub const PHASE_SCALE: u64 = 1000;

/// The period of the wave in phase units (a phase of 2, one full turn).
pub const PHASE_PERIOD: u64 = 2000;

/// The increment of a phase of 0.025 per tick, in phase units.
pub const DEFAULT_STEP: u64 = 25;

/// The duty that a raw wave level gives: the level itself where it lies in
/// `[0, 100]`, else the nearer end.
pub open spec fn clamp_spec(level: int) -> int {
    if level < 0 {
        0
    } else if level > 100 {
        100
    } else {
        level
    }
}

/// Brings a raw wave level into the duty range `[0, 100]`.
pub fn clamp_duty(level: i64) -> (d: u8)
    ensures
        d as int == clamp_spec(level as int),
{
    if level < 0 {
        0
    } else if level > 100 {
        100
    } else {
        level as u8
    }
}

/// A cosine breathing wave: the phase grows by `step` every tick and the duty
/// is the rounded value of `cos(phase * pi) * 50 + 50`.
#[derive(Clone, Copy, Debug, PartialEq, Eq)]
pub struct CosineBreath {
    pub phase: u64,
    pub step: u64,
}

impl CosineBreath {
    /// The point of the wave at which the next tick samples the cosine: the
    /// phase within one period.
    pub open spec fn sample_spec(self) -> u64 {
        (self.phase % PHASE_PERIOD) as u64
    }

    /// Whether one more tick can be counted without leaving `u64`.
    pub open spec fn can_advance_spec(self) -> bool {
        self.phase + self.step <= u64::MAX
    }

    /// The state after one tick.
    pub open spec fn next(self) -> CosineBreath {
        CosineBreath { phase: (self.phase + self.step) as u64, step: self.step }
    }

    /// The state after `n` ticks.
    pub open spec fn after(self, n: nat) -> CosineBreath
        decreases n,
    {
        if n == 0 {
            self
        } else {
            self.after((n - 1) as nat).next()
        }
    }

    /// A wave at phase 0 that grows by `step` phase units per tick.
    pub fn new(step: u64) -> (r: CosineBreath)
        ensures
            r.phase == 0,
            r.step == step,
    {
        CosineBreath { phase: 0, step }
    }

    /// The phase, within one period, at which the cosine is to be sampled for
    /// the next tick.
    pub fn sample_phase(&self) -> (p: u64)
        ensures
            p == self.sample_spec(),
            p < PHASE_PERIOD,
    {
        self.phase % PHASE_PERIOD
    }

    /// Whether one more tick can be counted without leaving `u64`.
    pub fn can_advance(&self) -> (r: bool)
        ensures
            r == self.can_advance_spec(),
    {
        self.phase <= u64::MAX - self.step
    }

    /// Advances the wave by one tick. `level` is the rounded wave value
    /// `cos(phase * pi) * 50 + 50` at `sample_phase()`; the duty to apply is
    /// that level kept within `[0, 100]`.
    pub fn tick(&mut self, level: i64) -> (d: u8)
        requires
            old(self).can_advance_spec(),
        ensures
            *final(self) == old(self).next(),
            d as int == clamp_spec(level as int),
            d <= 100,
    {
        self.phase = self.phase + self.step;
        clamp_duty(level)
    }
}

/// Each tick adds exactly `step` to the phase, so after `n` ticks the phase
/// has grown by `n * step`; with a positive step it strictly increases.
pub proof fn lemma_breath_progress(b: CosineBreath, n: nat)
    requires
        b.phase + n * b.step <= u64::MAX,
    ensures
        b.after(n).phase == b.phase + n * b.step,
        b.after(n).step == b.step,
        b.step > 0 && n > 0 ==> b.after(n).phase > b.phase,
    decreases n,
{
    if n > 0 {
        assert(b.phase + (n - 1) * b.step <= b.phase + n * b.step) by (nonlinear_arith)
            requires
                n > 0,
        ;
        lemma_breath_progress(b, (n - 1) as nat);
        let m = (n - 1) as nat;
        assert(m * b.step + b.step == n * b.step) by (nonlinear_arith)
            requires
                m + 1 == n,
        ;
        let prev = b.after(m);
        assert(prev.phase + prev.step == b.phase + n * b.step);
        assert(b.after(n) == prev.next());
        assert(b.step > 0 ==> n * b.step > 0) by (nonlinear_arith)
            requires
                n > 0,
        ;
    } else {
        assert(n * b.step == 0) by (nonlinear_arith)
            requires
                n == 0,
        ;
    }
}

/// Whenever `n` ticks advance the phase by whole periods (80 ticks of
/// `DEFAULT_STEP`), the wave is sampled at the same point again, so it gives
/// the same duty.
pub proof fn lemma_breath_period(b: CosineBreath, n: nat)
    requires
        b.phase + n * b.step <= u64::MAX,
        (n * b.step) % (PHASE_PERIOD as int) == 0,
    ensures
        b.after(n).sample_spec() == b.sample_spec(),
{
    lemma_breath_progress(b, n);
    let k = n * b.step;
    assert((b.phase + k) % 2000 == b.phase % 2000) by (nonlinear_arith)
        requires
            k % 2000 == 0,
            k >= 0,
    ;
}

/// With the default step, 80 ticks make one full period of the wave.
pub proof fn lemma_default_breath_period(b: CosineBreath)
    requires
        b.step == DEFAULT_STEP,
        b.phase + 80 * DEFAULT_STEP <= u64::MAX,
    ensures
        b.after(80).sample_spec() == b.sample_spec(),
{
    lemma_breath_period(b, 80);
}

} // verus!
