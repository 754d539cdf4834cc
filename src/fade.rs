use vstd::prelude::*;

verus! {

/// The largest duty percentage a PWM output accepts.
pub const MAX_DUTY: u8 = 100;

/// A linear fade: the duty moves by one percent per tick and turns around at
/// the two ends of `[0, MAX_DUTY]`.
#[derive(Clone, Copy, Debug, PartialEq, Eq)]
pub struct LinearFade {
    pub duty: u8,
    pub rising: bool,
}

/// The states a linear fade can be in: the duty lies in `[0, 100]`, and at
/// either end the direction already points back inside.
pub open spec fn fade_wf(duty: int, rising: bool) -> bool {
    &&& 0 <= duty <= 100
    &&& duty == 100 ==> !rising
    &&& duty == 0 ==> rising
}

impl LinearFade {
    pub open spec fn wf(self) -> bool {
        fade_wf(self.duty as int, self.rising)
    }

    /// One tick: move one step in the current direction, then turn around if
    /// that step reached an end.
    pub open spec fn next(self) -> LinearFade {
        let d: int = if self.rising { self.duty + 1 } else { self.duty - 1 };
        LinearFade {
            duty: d as u8,
            rising: if d == 100 { false } else if d == 0 { true } else { self.rising },
        }
    }

    /// The state after `n` ticks.
    pub open spec fn after(self, n: nat) -> LinearFade
        decreases n,
    {
        if n == 0 {
            self
        } else {
            self.after((n - 1) as nat).next()
        }
    }

    /// Where the state lies on the triangle wave: `0..100` on the way up,
    /// `100..200` on the way down.
    pub open spec fn position(self) -> int {
        if self.rising {
            self.duty as int
        } else {
            200 - self.duty
        }
    }

    /// A fade at `duty` moving in direction `rising`; `None` when that pair is
    /// not a state of the fade (duty above 100, or pointing out at an end).
    pub fn new(duty: u8, rising: bool) -> (r: Option<LinearFade>)
        ensures
            r matches Some(f) <==> fade_wf(duty as int, rising),
            r matches Some(f) ==> f.duty == duty && f.rising == rising,
    {
        if duty <= MAX_DUTY && (duty != MAX_DUTY || !rising) && (duty != 0 || rising) {
            Some(LinearFade { duty, rising })
        } else {
            None
        }
    }

    /// Whether this value is a state of the fade.
    pub fn is_valid(&self) -> (r: bool)
        ensures
            r == self.wf(),
    {
        self.duty <= MAX_DUTY && (self.duty != MAX_DUTY || !self.rising) && (self.duty != 0
            || self.rising)
    }

    /// Advances the fade by one tick and returns the duty to apply.
    pub fn tick(&mut self) -> (d: u8)
        requires
            old(self).wf(),
        ensures
            *final(self) == old(self).next(),
            final(self).wf(),
            d == final(self).duty,
            d <= MAX_DUTY,
    {
        let d: u8 = if self.rising { self.duty + 1 } else { self.duty - 1 };
        self.duty = d;
        if d == MAX_DUTY {
            self.rising = false;
        } else if d == 0 {
            self.rising = true;
        }
        d
    }
}

/// Every state of a fade steps to a state of the fade: the duty stays in
/// `[0, 100]`, and the direction changes only on reaching an end, towards
/// the inside (rising after touching 0, falling after touching 100).
pub proof fn lemma_fade_invariant(s: LinearFade)
    requires
        s.wf(),
    ensures
        s.next().wf(),
        s.next().duty <= 100,
        s.next().rising != s.rising ==> (s.next().duty == 0 && s.next().rising) || (
        s.next().duty == 100 && !s.next().rising),
{
}

/// Every state reached from a state of the fade, after any number of ticks,
/// is a state of the fade.
pub proof fn lemma_fade_reachable(s: LinearFade, n: nat)
    requires
        s.wf(),
    ensures
        s.after(n).wf(),
    decreases n,
{
    if n > 0 {
        lemma_fade_reachable(s, (n - 1) as nat);
    }
}

/// One tick moves one place along the triangle wave, wrapping at 200.
proof fn lemma_position_step(s: LinearFade)
    requires
        s.wf(),
    ensures
        s.next().position() == (s.position() + 1) % 200,
        0 <= s.position() < 200,
{
}

/// A state of the fade is determined by its position on the wave.
proof fn lemma_position_injective(a: LinearFade, b: LinearFade)
    requires
        a.wf(),
        b.wf(),
        a.position() == b.position(),
    ensures
        a == b,
{
}

proof fn lemma_position_after(s: LinearFade, n: nat)
    requires
        s.wf(),
    ensures
        s.after(n).position() == (s.position() + n) % 200,
    decreases n,
{
    if n > 0 {
        lemma_position_after(s, (n - 1) as nat);
        lemma_fade_reachable(s, (n - 1) as nat);
        lemma_position_step(s.after((n - 1) as nat));
        lemma_position_step(s);
        assert(((s.position() + (n - 1)) % 200 + 1) % 200 == (s.position() + n) % 200)
            by (nonlinear_arith);
    } else {
        lemma_position_step(s);
    }
}

/// A fade comes back to the very same duty and direction every 200 ticks.
pub proof fn lemma_fade_period(s: LinearFade, n: nat)
    requires
        s.wf(),
    ensures
        s.after(n + 200) == s.after(n),
{
    lemma_position_after(s, n);
    lemma_position_after(s, n + 200);
    lemma_fade_reachable(s, n);
    lemma_fade_reachable(s, n + 200);
    lemma_position_step(s);
    assert((s.position() + (n + 200)) % 200 == (s.position() + n) % 200) by (nonlinear_arith);
    lemma_position_injective(s.after(n + 200), s.after(n));
}

} // verus!
